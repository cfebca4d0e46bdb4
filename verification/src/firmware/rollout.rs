//! A firmware roll-out over one network: one hub chosen at random (the canary)
//! is updated first; only when it reports success is the update broadcast to
//! the whole network, whose answers are counted, each hub once, until every
//! hub has answered.

use vstd::prelude::*;
use crate::keyed::string_eq;
use crate::message::domain::{FirmwareOk, FirmwareOutcome, HubMessage, Metadata, ServerMessage, UpdateFirmware};
use crate::network::domain::{HubView, NetworkManager};

verus! {

/// Stage of a roll-out: waiting for the canary, or for the whole network.
#[derive(Debug, Clone, Copy, PartialEq, Eq, Structural)]
pub enum RolloutPhase {
    Canary,
    Broadcast,
}

/// What a hub's answer means for the update's state machine.
#[derive(Debug, Clone, Copy, PartialEq, Eq, Structural)]
pub enum RolloutEvent {
    /// The canary updated: go on to the broadcast.
    MessageFromHub,
    /// Every hub answered and none failed.
    AllMessageReceived,
    /// The canary failed, some hub of the broadcast failed, or no canary exists.
    Error,
}

/// A roll-out in progress.
#[derive(Debug)]
pub struct RolloutSession {
    network: String,
    total_hubs: usize,
    phase: RolloutPhase,
    responses: Vec<String>,
    successes: usize,
    failures: usize,
    version: String,
}

/// What a roll-out holds: the network, how many hubs it has, the stage, the
/// hubs that answered the broadcast, how many of them succeeded and failed,
/// and the version reported by the latest successful hub.
pub struct RolloutView {
    pub network: Seq<char>,
    pub total_hubs: nat,
    pub phase: RolloutPhase,
    pub responses: Set<Seq<char>>,
    pub successes: nat,
    pub failures: nat,
    pub version: Seq<char>,
}

/// No two answers in `v` come from the same hub.
pub open spec fn distinct_ids(v: Seq<String>) -> bool {
    forall|i: int, j: int| 0 <= i < j < v.len() ==> (#[trigger] v[i])@ != (#[trigger] v[j])@
}

pub open spec fn ids_of(v: Seq<String>) -> Set<Seq<char>> {
    v.map_values(|s: String| s@).to_set()
}

impl View for RolloutSession {
    type V = RolloutView;

    closed spec fn view(&self) -> RolloutView {
        RolloutView {
            network: self.network@,
            total_hubs: self.total_hubs as nat,
            phase: self.phase,
            responses: ids_of(self.responses@),
            successes: self.successes as nat,
            failures: self.failures as nat,
            version: self.version@,
        }
    }
}

impl RolloutSession {
    /// Each hub is counted once, and every counted answer is a success or a failure.
    pub closed spec fn wf(&self) -> bool {
        &&& distinct_ids(self.responses@)
        &&& self.successes + self.failures == self.responses@.len()
    }

    /// A roll-out of network `network`, with `total_hubs` hubs, waiting for its canary.
    pub fn new(network: String, total_hubs: usize) -> (s: Self)
        ensures
            s.wf(),
            s@.network == network@,
            s@.total_hubs == total_hubs,
            s@.phase == RolloutPhase::Canary,
            s@.responses == Set::<Seq<char>>::empty(),
            s@.successes == 0,
            s@.failures == 0,
            s@.version == Seq::<char>::empty(),
    {
        let s = RolloutSession {
            network,
            total_hubs,
            phase: RolloutPhase::Canary,
            responses: Vec::new(),
            successes: 0,
            failures: 0,
            version: String::new(),
        };
        proof {
            assert(ids_of(s.responses@) =~= Set::<Seq<char>>::empty());
        }
        s
    }

    /// The canary succeeded: the roll-out now waits for the whole network.
    pub fn enter_broadcast(&mut self)
        requires
            old(self).wf(),
        ensures
            final(self).wf(),
            final(self)@ == (RolloutView { phase: RolloutPhase::Broadcast, ..old(self)@ }),
    {
        self.phase = RolloutPhase::Broadcast;
    }

    pub fn network(&self) -> (n: &String)
        ensures
            n@ == self@.network,
    {
        &self.network
    }

    pub fn successes(&self) -> (n: usize)
        ensures
            n == self@.successes,
    {
        self.successes
    }

    pub fn total_hubs(&self) -> (n: usize)
        ensures
            n == self@.total_hubs,
    {
        self.total_hubs
    }

    pub fn version(&self) -> (v: &String)
        ensures
            v@ == self@.version,
    {
        &self.version
    }

    /// Whether hub `id` already answered the broadcast.
    fn has_answered(&self, id: &String) -> (b: bool)
        ensures
            b == ids_of(self.responses@).contains(id@),
    {
        let n = self.responses.len();
        let mut found = false;
        for i in 0..n
            invariant
                n == self.responses@.len(),
                found == exists|k: int| 0 <= k < i && (#[trigger] self.responses@[k])@ == id@,
        {
            if string_eq(&self.responses[i], id.as_str()) {
                found = true;
            }
        }
        proof {
            let views = self.responses@.map_values(|s: String| s@);
            if found {
                let k = choose|k: int| 0 <= k < n && (#[trigger] self.responses@[k])@ == id@;
                assert(views[k] == id@);
            } else {
                if views.to_set().contains(id@) {
                    let k = choose|k: int| 0 <= k < views.len() && views[k] == id@;
                    assert(self.responses@[k]@ == id@);
                }
            }
        }
        found
    }
}

/// The rule for an answer of hub `sender` (`ok` when it updated, with
/// `version`). During the canary stage the answer decides alone: success moves
/// on, failure aborts. During the broadcast a hub that already answered is
/// ignored; a new one is counted as a success (its version kept) or a failure,
/// and once as many hubs answered as the network has, the roll-out ends:
/// complete when none failed, in error otherwise.
pub open spec fn hub_answer_rule(s: RolloutView, sender: Seq<char>, ok: bool, version: Seq<char>) -> (
    RolloutView,
    Option<RolloutEvent>,
) {
    match s.phase {
        RolloutPhase::Canary => (s, Some(if ok {
            RolloutEvent::MessageFromHub
        } else {
            RolloutEvent::Error
        })),
        RolloutPhase::Broadcast => if s.responses.contains(sender) {
            (s, None)
        } else {
            let n = RolloutView {
                responses: s.responses.insert(sender),
                successes: if ok {
                    s.successes + 1
                } else {
                    s.successes
                },
                failures: if ok {
                    s.failures
                } else {
                    s.failures + 1
                },
                version: if ok {
                    version
                } else {
                    s.version
                },
                ..s
            };
            if n.successes + n.failures >= n.total_hubs {
                (n, Some(if n.failures == 0 {
                    RolloutEvent::AllMessageReceived
                } else {
                    RolloutEvent::Error
                }))
            } else {
                (n, None)
            }
        },
    }
}

/// Handles an answer of a hub to the update.
pub fn on_hub_answer(s: &mut RolloutSession, answer: &FirmwareOk) -> (ev: Option<RolloutEvent>)
    requires
        old(s).wf(),
    ensures
        final(s).wf(),
        (final(s)@, ev) == hub_answer_rule(
            old(s)@,
            answer.metadata.sender_user_id@,
            answer.is_ok,
            answer.version@,
        ),
{
    match s.phase {
        RolloutPhase::Canary => {
            if answer.is_ok {
                Some(RolloutEvent::MessageFromHub)
            } else {
                Some(RolloutEvent::Error)
            }
        },
        RolloutPhase::Broadcast => {
            let sender = &answer.metadata.sender_user_id;
            if s.has_answered(sender) {
                return None;
            }
            let ghost before = s.responses@;
            s.responses.push(sender.clone());
            proof {
                let views = before.map_values(|x: String| x@);
                assert(s.responses@.map_values(|x: String| x@) =~= views.push(sender@));
                views.lemma_push_to_set_commute(sender@);
                assert forall|i: int, j: int| 0 <= i < j < s.responses@.len() implies
                    (#[trigger] s.responses@[i])@ != (#[trigger] s.responses@[j])@ by {
                    if j == s.responses@.len() - 1 {
                        assert(views[i] == s.responses@[i]@);
                    } else {
                        assert(s.responses@[i] == before[i]);
                        assert(s.responses@[j] == before[j]);
                    }
                }
            }
            let count = s.responses.len();
            assert(s.successes + s.failures + 1 == count);
            if answer.is_ok {
                s.successes = s.successes + 1;
                s.version = answer.version.clone();
            } else {
                s.failures = s.failures + 1;
            }
            if s.successes as u64 + s.failures as u64 >= s.total_hubs as u64 {
                if s.failures == 0 {
                    Some(RolloutEvent::AllMessageReceived)
                } else {
                    Some(RolloutEvent::Error)
                }
            } else {
                None
            }
        },
    }
}

/// The update order of `update`, addressed to hub `destination`.
pub open spec fn addressed(update: UpdateFirmware, destination: Seq<char>, m: HubMessage) -> bool {
    m matches HubMessage::UpdateFirmware(u) && u.metadata.sender_user_id@ == update.metadata.sender_user_id@
        && u.metadata.timestamp == update.metadata.timestamp && u.metadata.destination_id@ == destination
        && u.network@ == update.network@ && u.version@ == update.version@ && u.url@ == update.url@
        && u.sha256@ == update.sha256@
}

fn readdress(update: &UpdateFirmware, destination: String) -> (m: HubMessage)
    ensures
        addressed(*update, destination@, m),
{
    let meta = update.metadata.duplicate();
    HubMessage::UpdateFirmware(UpdateFirmware {
        metadata: Metadata { destination_id: destination, ..meta },
        network: update.network.clone(),
        version: update.version.clone(),
        url: update.url.clone(),
        sha256: update.sha256.clone(),
    })
}

/// The update order for the canary: addressed to the chosen hub, or, when
/// the network has no hub to choose, an error for the state machine.
pub fn canary_command(update: &UpdateFirmware, chosen: Option<String>) -> (r: Result<HubMessage, RolloutEvent>)
    ensures
        match chosen {
            Some(id) => r matches Ok(m) && addressed(*update, id@, m),
            None => r == Err::<HubMessage, RolloutEvent>(RolloutEvent::Error),
        },
{
    match chosen {
        Some(id) => Ok(readdress(update, id)),
        None => Err(RolloutEvent::Error),
    }
}

/// Chooses the canary among the hubs of the roll-out's network and addresses
/// the update to it; which hub is chosen is left to chance.
pub fn select_canary(manager: &NetworkManager, s: &RolloutSession, update: &UpdateFirmware) -> (r: Result<
    HubMessage,
    RolloutEvent,
>)
    requires
        manager.wf(),
    ensures
        r is Err <==> !manager.hub_sets().contains_key(s@.network) || manager.hub_sets()[s@.network].is_empty(),
        r is Err ==> r == Err::<HubMessage, RolloutEvent>(RolloutEvent::Error),
        r matches Ok(m) ==> exists|h: HubView| #[trigger] manager.hub_sets()[s@.network].contains(h) && addressed(
            *update,
            h.0,
            m,
        ),
{
    let chosen = manager.get_random_hub_id_by_network(s.network.as_str());
    canary_command(update, chosen)
}

/// The update order for the whole network: addressed to `all`.
pub fn broadcast_command(update: &UpdateFirmware) -> (m: HubMessage)
    ensures
        addressed(*update, "all"@, m),
{
    readdress(update, String::from_str("all"))
}

/// Starts a roll-out for the network of `update`, when that network has a hub
/// record; the roll-out counts the hubs the network has now.
pub fn start_rollout(manager: &NetworkManager, update: &UpdateFirmware) -> (r: Option<RolloutSession>)
    requires
        manager.wf(),
    ensures
        r is None <==> !manager.hub_sets().contains_key(update.network@),
        r matches Some(s) ==> s.wf() && s@.network == update.network@ && s@.total_hubs
            == manager.hub_sets()[update.network@].len() && s@.phase == RolloutPhase::Canary
            && s@.responses == Set::<Seq<char>>::empty() && s@.successes == 0 && s@.failures == 0,
{
    match manager.get_total_hubs_by_network(update.network.as_str()) {
        Some(total) => Some(RolloutSession::new(update.network.clone(), total)),
        None => None,
    }
}

/// The IEEE-754 single-precision bit pattern of `100.0`.
pub const PERCENT_100_BITS: u32 = 0x42c8_0000;

/// The report of a finished roll-out to the server, from edge `edge_id` at
/// time `now`: the network and the share of hubs that updated, a
/// single-precision percentage given by its bit pattern. The report is
/// successful exactly when the share is 100 (the bit pattern of `100.0`, the
/// only one of that value).
pub fn outcome_report(edge_id: &String, s: &RolloutSession, now: i64, percentage_ok: u32) -> (m: ServerMessage)
    ensures
        m matches ServerMessage::FirmwareOutcome(o) && o.metadata.sender_user_id == *edge_id
            && o.metadata.destination_id@ == "Server0"@ && o.metadata.timestamp == now && o.network@ == s@.network
            && o.is_ok == (percentage_ok == PERCENT_100_BITS) && o.percentage_ok == percentage_ok,
{
    ServerMessage::FirmwareOutcome(
        FirmwareOutcome {
            metadata: Metadata {
                sender_user_id: edge_id.clone(),
                destination_id: String::from_str("Server0"),
                timestamp: now,
            },
            network: s.network.clone(),
            is_ok: percentage_ok == PERCENT_100_BITS,
            percentage_ok,
        },
    )
}

/// During the broadcast, a hub's first answer is counted once, as a success
/// when it updated and as a failure otherwise, and the roll-out ends only once
/// as many hubs answered as the network has: complete when every counted
/// answer succeeded, in error when some failed.
pub proof fn law_broadcast_counts_and_ends(s: RolloutView, sender: Seq<char>, ok: bool, version: Seq<char>)
    requires
        s.phase == RolloutPhase::Broadcast,
        !s.responses.contains(sender),
    ensures
        ({
            let (n, ev) = hub_answer_rule(s, sender, ok, version);
            &&& n.responses == s.responses.insert(sender)
            &&& ok ==> n.successes == s.successes + 1 && n.failures == s.failures && n.version == version
            &&& !ok ==> n.failures == s.failures + 1 && n.successes == s.successes
            &&& n.network == s.network && n.total_hubs == s.total_hubs && n.phase == s.phase
            &&& ev is None <==> n.successes + n.failures < n.total_hubs
            &&& ev == Some(RolloutEvent::AllMessageReceived) <==> (n.successes + n.failures >= n.total_hubs
                && n.failures == 0)
            &&& ev == Some(RolloutEvent::Error) <==> (n.successes + n.failures >= n.total_hubs && n.failures > 0)
        }),
{
}

/// A hub is counted at most once: a repeated answer during the broadcast
/// changes nothing and decides nothing.
pub proof fn law_repeated_answer_ignored(s: RolloutView, sender: Seq<char>, ok: bool, version: Seq<char>)
    requires
        s.phase == RolloutPhase::Broadcast,
        s.responses.contains(sender),
    ensures
        hub_answer_rule(s, sender, ok, version) == (s, Option::<RolloutEvent>::None),
{
}

/// The canary decides alone, and never changes the counts.
pub proof fn law_canary_decides(s: RolloutView, sender: Seq<char>, ok: bool, version: Seq<char>)
    requires
        s.phase == RolloutPhase::Canary,
    ensures
        hub_answer_rule(s, sender, ok, version).0 == s,
        hub_answer_rule(s, sender, ok, version).1 == Some(
            if ok {
                RolloutEvent::MessageFromHub
            } else {
                RolloutEvent::Error
            },
        ),
{
}

/// A single failure during the broadcast means the roll-out cannot end complete.
pub proof fn law_failure_is_final(s: RolloutView, sender: Seq<char>, ok: bool, version: Seq<char>)
    requires
        s.phase == RolloutPhase::Broadcast,
        s.failures > 0,
    ensures
        hub_answer_rule(s, sender, ok, version).1 != Some(RolloutEvent::AllMessageReceived),
        hub_answer_rule(s, sender, ok, version).0.failures > 0,
{
}

} // verus!
