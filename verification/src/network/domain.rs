//! In-memory registry of the networks and hubs served by this edge, with the
//! MQTT topics of each network.

use vstd::prelude::*;
use rand::seq::IteratorRandom;
use crate::keyed::{StringMap, string_eq};
use crate::database::domain::DataServiceCommand;
use crate::message::domain::{HubMessage, Metadata, ServerMessage};
use crate::system::domain::System;

verus! {

/// What the network service hands to the core.
#[derive(Debug, Clone, PartialEq)]
pub enum NetworkServiceResponse {
    /// A message to route to the hubs.
    HubMessage(HubMessage),
    /// A command for the storage service.
    DataCommand(DataServiceCommand),
    /// The networks were loaded into memory.
    NetworksReady,
}

/// What the core hands to the network service.
#[derive(Debug, Clone, PartialEq)]
pub enum NetworkServiceCommand {
    HubMessage(HubMessage),
    ServerMessage(ServerMessage),
    Batch(Batch),
}


/// An MQTT topic and its quality of service.
#[derive(Debug, Clone)]
pub struct Topic {
    pub topic: String,
    pub qos: u8,
}

impl View for Topic {
    type V = (Seq<char>, u8);

    open spec fn view(&self) -> (Seq<char>, u8) {
        (self.topic@, self.qos)
    }
}

impl Topic {
    pub fn new(topic: String, qos: u8) -> (t: Self)
        ensures
            t.topic == topic,
            t.qos == qos,
    {
        Topic { topic, qos }
    }

    /// A copy of this topic.
    pub fn duplicate(&self) -> (t: Self)
        ensures
            t@ == self@,
    {
        Topic { topic: self.topic.clone(), qos: self.qos }
    }
}

/// The topic path `iot/<id><suffix>`.
pub open spec fn path_of(id: Seq<char>, suffix: Seq<char>) -> Seq<char> {
    "iot/"@ + id + suffix
}

/// Builds `iot/<id><suffix>`.
pub fn make_path(id: &str, suffix: &str) -> (p: String)
    ensures
        p@ == path_of(id@, suffix@),
{
    let mut p = String::from_str("iot/");
    p.append(id);
    p.append(suffix);
    p
}

/// Configuration of one logical network with all its topics.
#[derive(Debug, Clone)]
pub struct Network {
    pub id_network: String,
    pub topic_data: Topic,
    pub topic_alert_air: Topic,
    pub topic_alert_temp: Topic,
    pub topic_monitor: Topic,
    pub topic_hub_setting_ok: Topic,
    pub topic_hub_firmware_ok: Topic,
    pub topic_balance_mode_handshake: Topic,
    pub topic_setting: Topic,
    pub topic_ping: Topic,
    pub topic_new_setting: Topic,
    pub topic_new_firmware: Topic,
    pub topic_setting_ok: Topic,
    pub topic_delete_hub: Topic,
    pub topic_active_hub: Topic,
    pub topic_ping_ack: Topic,
    pub active: bool,
}

/// The network that `Network::new(id, active)` builds.
pub open spec fn network_spec(n: Network, id: Seq<char>, active: bool) -> bool {
    &&& n.id_network@ == id
    &&& n.active == active
    &&& n.topic_data@ == (path_of(id, "/hub/+/data"@), 0u8)
    &&& n.topic_alert_air@ == (path_of(id, "/hub/+/alert_air"@), 1u8)
    &&& n.topic_alert_temp@ == (path_of(id, "/hub/+/alert_temp"@), 1u8)
    &&& n.topic_monitor@ == (path_of(id, "/hub/+/monitor"@), 0u8)
    &&& n.topic_hub_setting_ok@ == (path_of(id, "/hub/+/hub_setting_ok"@), 0u8)
    &&& n.topic_hub_firmware_ok@ == (path_of(id, "/hub/+/hub_firmware_ok"@), 0u8)
    &&& n.topic_balance_mode_handshake@ == (path_of(id, "/hub/+/balance_mode_handshake"@), 0u8)
    &&& n.topic_setting@ == (path_of(id, "/hub/+/setting"@), 0u8)
    &&& n.topic_new_setting@ == (path_of(id, "/new_setting"@), 0u8)
    &&& n.topic_new_firmware@ == (path_of(id, "/new_firmware"@), 0u8)
    &&& n.topic_setting_ok@ == (path_of(id, "/new_setting_ok"@), 0u8)
    &&& n.topic_delete_hub@ == (path_of(id, "/delete_hub"@), 0u8)
    &&& n.topic_active_hub@ == (path_of(id, "/active"@), 0u8)
    &&& n.topic_ping@ == (path_of(id, "/hub/+/ping"@), 1u8)
    &&& n.topic_ping_ack@ == (path_of(id, "/ping"@), 1u8)
}

impl Network {
    /// A network with every topic derived from its id; inbound topics use the
    /// `+` wildcard for the hub.
    pub fn new(id_network: String, active: bool) -> (n: Self)
        ensures
            network_spec(n, id_network@, active),
    {
        let id = id_network.as_str();
        Network {
            topic_data: Topic::new(make_path(id, "/hub/+/data"), 0),
            topic_alert_air: Topic::new(make_path(id, "/hub/+/alert_air"), 1),
            topic_alert_temp: Topic::new(make_path(id, "/hub/+/alert_temp"), 1),
            topic_monitor: Topic::new(make_path(id, "/hub/+/monitor"), 0),
            topic_hub_setting_ok: Topic::new(make_path(id, "/hub/+/hub_setting_ok"), 0),
            topic_hub_firmware_ok: Topic::new(make_path(id, "/hub/+/hub_firmware_ok"), 0),
            topic_balance_mode_handshake: Topic::new(make_path(id, "/hub/+/balance_mode_handshake"), 0),
            topic_setting: Topic::new(make_path(id, "/hub/+/setting"), 0),
            topic_new_setting: Topic::new(make_path(id, "/new_setting"), 0),
            topic_new_firmware: Topic::new(make_path(id, "/new_firmware"), 0),
            topic_setting_ok: Topic::new(make_path(id, "/new_setting_ok"), 0),
            topic_delete_hub: Topic::new(make_path(id, "/delete_hub"), 0),
            topic_active_hub: Topic::new(make_path(id, "/active"), 0),
            topic_ping: Topic::new(make_path(id, "/hub/+/ping"), 1),
            topic_ping_ack: Topic::new(make_path(id, "/ping"), 1),
            id_network,
            active,
        }
    }
}

/// A network as stored in the database.
#[derive(Debug, PartialEq, Clone)]
pub struct NetworkRow {
    pub id_network: String,
    pub active: bool,
}

impl NetworkRow {
    pub fn cast_to_network(self) -> (n: Network)
        ensures
            network_spec(n, self.id_network@, self.active),
    {
        Network::new(self.id_network, self.active)
    }

    pub fn new(id_network: String, active: bool) -> (r: Self)
        ensures
            r.id_network == id_network,
            r.active == active,
    {
        NetworkRow { id_network, active }
    }
}

/// What a server message asks of the network registry.
#[derive(Debug, PartialEq, Eq, Clone, Copy, Structural)]
pub enum NetworkAction {
    Delete,
    Update,
    Insert,
    Ignore,
}

/// Change of a network, to be mirrored in the database.
#[derive(Debug, PartialEq, Clone)]
pub enum NetworkChanged {
    Insert(NetworkRow),
    Update(NetworkRow),
    Delete { id: String },
}

/// Change of a hub, to be mirrored in the database.
#[derive(Debug, PartialEq, Clone)]
pub enum HubChanged {
    Insert(HubRow),
    Update(HubRow),
    Delete(String),
}

/// A hub as kept in memory.
#[derive(Debug, Clone, Default, Hash, Eq, PartialEq)]
pub struct Hub {
    pub id: String,
    pub device_name: String,
    pub energy_mode: u32,
}

/// The value of a hub: its id, device name and energy mode.
pub type HubView = (Seq<char>, Seq<char>, u32);

impl View for Hub {
    type V = HubView;

    open spec fn view(&self) -> HubView {
        (self.id@, self.device_name@, self.energy_mode)
    }
}

/// A hub as stored in the database.
#[derive(Default, Debug, Clone, PartialEq, Eq, Hash)]
pub struct HubRow {
    pub metadata: Metadata,
    pub network_id: String,
    pub wifi_ssid: String,
    pub wifi_password: String,
    pub mqtt_uri: String,
    pub device_name: String,
    pub sample: u32,
    pub energy_mode: u32,
}

impl HubRow {
    pub fn cast_to_hub(self) -> (hub: Hub)
        ensures
            hub.id == self.metadata.sender_user_id,
            hub.device_name == self.device_name,
            hub.energy_mode == self.energy_mode,
    {
        Hub { id: self.metadata.sender_user_id, device_name: self.device_name, energy_mode: self.energy_mode }
    }
}

/// Batches loaded from the database at start-up.
#[derive(Debug, Clone, PartialEq)]
pub enum Batch {
    Network(Vec<NetworkRow>),
    Hub(Vec<HubRow>),
}

/// The set of hub values held in a vector.
pub open spec fn hub_set(v: Seq<Hub>) -> Set<HubView> {
    v.map_values(|h: Hub| h@).to_set()
}

/// No two hubs of the vector have the same value.
pub open spec fn distinct_hubs(v: Seq<Hub>) -> bool {
    forall|i: int, j: int| 0 <= i < j < v.len() ==> (#[trigger] v[i])@ != (#[trigger] v[j])@
}

/// Sum of the sizes of the sets of `sets` under `keys`.
pub open spec fn sizes_sum(keys: Seq<Seq<char>>, sets: Map<Seq<char>, Set<HubView>>) -> nat
    decreases keys.len(),
{
    if keys.len() == 0 {
        0
    } else {
        sizes_sum(keys.drop_last(), sets) + sets[keys.last()].len()
    }
}

/// Sum of the lengths of the vectors.
pub open spec fn sum_lens(s: Seq<Vec<Hub>>) -> nat
    decreases s.len(),
{
    if s.len() == 0 {
        0
    } else {
        sum_lens(s.drop_last()) + s.last()@.len()
    }
}

proof fn lemma_sum_lens_update(s: Seq<Vec<Hub>>, i: int, v: Vec<Hub>)
    requires
        0 <= i < s.len(),
    ensures
        sum_lens(s.update(i, v)) == sum_lens(s) - s[i]@.len() + v@.len(),
    decreases s.len(),
{
    if i == s.len() - 1 {
        assert(s.update(i, v).drop_last() =~= s.drop_last());
    } else {
        assert(s.update(i, v).drop_last() =~= s.drop_last().update(i, v));
        lemma_sum_lens_update(s.drop_last(), i, v);
    }
}

proof fn lemma_sum_lens_push(s: Seq<Vec<Hub>>, v: Vec<Hub>)
    ensures
        sum_lens(s.push(v)) == sum_lens(s) + v@.len(),
{
    assert(s.push(v).drop_last() =~= s);
}

proof fn lemma_sum_lens_prefix(s: Seq<Vec<Hub>>, i: int)
    requires
        0 <= i < s.len(),
    ensures
        sum_lens(s.take(i + 1)) == sum_lens(s.take(i)) + s[i]@.len(),
        sum_lens(s.take(i + 1)) <= sum_lens(s),
    decreases s.len(),
{
    assert(s.take(i + 1).drop_last() =~= s.take(i));
    if i + 1 < s.len() {
        lemma_sum_lens_prefix(s.drop_last(), i);
        assert(s.drop_last().take(i + 1) =~= s.take(i + 1));
    } else {
        assert(s.take(i + 1) =~= s);
    }
}

/// Number of distinct values in a vector of distinct hubs.
proof fn lemma_distinct_hubs_len(v: Seq<Hub>)
    requires
        distinct_hubs(v),
    ensures
        hub_set(v).len() == v.len(),
{
    let views = v.map_values(|h: Hub| h@);
    assert(views.no_duplicates()) by {
        assert forall|i: int, j: int| 0 <= i < views.len() && 0 <= j < views.len() && i != j
            implies views[i] != views[j] by {
            if i < j {
                assert(v[i]@ != v[j]@);
            } else {
                assert(v[j]@ != v[i]@);
            }
        }
    }
    views.unique_seq_to_set();
}

/// The hubs of a vector of distinct hubs split into those with id `id` and the rest.
proof fn lemma_filter_split(v: Seq<Hub>, id: Seq<char>)
    requires
        distinct_hubs(v),
    ensures
        hub_set(v).filter(other_id(id)).len() + hub_set(v).filter(same_id(id)).len()
            == v.len(),
{
    let s = hub_set(v);
    lemma_distinct_hubs_len(v);
    vstd::seq_lib::seq_to_set_is_finite(v.map_values(|h: Hub| h@));
    let keep = s.filter(other_id(id));
    let gone = s.filter(same_id(id));
    s.lemma_len_filter(other_id(id));
    s.lemma_len_filter(same_id(id));
    assert(keep + gone =~= s);
    assert(keep.disjoint(gone));
    vstd::set_lib::lemma_set_disjoint_lens(keep, gone);
}

/// Calls `rand::seq::IteratorRandom::choose` on the positions `0..n` with the
/// thread-local generator: `None` exactly when `n` is 0, else a position below `n`;
/// which one is left to chance.
#[verifier::external_body]
fn choose_position(n: usize) -> (r: Option<usize>)
    ensures
        r is None <==> n == 0,
        r matches Some(i) ==> i < n,
{
    (0..n).choose(&mut rand::thread_rng())
}

/// The hub sets after adding hub `h` to network `id`.
pub open spec fn with_hub(sets: Map<Seq<char>, Set<HubView>>, id: Seq<char>, h: HubView) -> Map<
    Seq<char>,
    Set<HubView>,
> {
    sets.insert(
        id,
        if sets.contains_key(id) {
            sets[id].insert(h)
        } else {
            Set::<HubView>::empty().insert(h)
        },
    )
}

/// The hub sets after removing the hubs with id `id_hub` from network `id_net`.
pub open spec fn without_hub(sets: Map<Seq<char>, Set<HubView>>, id_net: Seq<char>, id_hub: Seq<char>) -> Map<
    Seq<char>,
    Set<HubView>,
> {
    if sets.contains_key(id_net) {
        sets.insert(id_net, sets[id_net].filter(other_id(id_hub)))
    } else {
        sets
    }
}

/// Whether a hub has id `id`.
pub open spec fn same_id(id: Seq<char>) -> spec_fn(HubView) -> bool {
    |h: HubView| h.0 == id
}

/// Whether a hub has an id other than `id`.
pub open spec fn other_id(id: Seq<char>) -> spec_fn(HubView) -> bool {
    |h: HubView| h.0 != id
}

/// How many hubs with id `id_hub` network `id_net` holds.
pub open spec fn removed_count(sets: Map<Seq<char>, Set<HubView>>, id_net: Seq<char>, id_hub: Seq<char>) -> nat {
    if sets.contains_key(id_net) {
        sets[id_net].filter(same_id(id_hub)).len()
    } else {
        0
    }
}

/// Whether network `id_net` holds a hub with id `id_hub`; a network without a
/// hub record counts as holding it.
pub open spec fn has_hub(sets: Map<Seq<char>, Set<HubView>>, id_net: Seq<char>, id_hub: Seq<char>) -> bool {
    if sets.contains_key(id_net) {
        exists|h: HubView| #[trigger] sets[id_net].contains(h) && h.0 == id_hub
    } else {
        true
    }
}

/// Which network a message addressed to the hubs of a network names, and which
/// of that network's outbound topics carries it.
pub open spec fn outbound_route(msg: HubMessage) -> Option<Seq<char>> {
    match msg {
        HubMessage::UpdateFirmware(m) => Some(m.network@),
        HubMessage::FromServerSettings(m) => Some(m.network@),
        HubMessage::FromServerSettingsAck(m) => Some(m.network@),
        HubMessage::DeleteHub(m) => Some(m.network@),
        HubMessage::ActiveHub(m) => Some(m.network@),
        HubMessage::PingToHub(m) => Some(m.network@),
        _ => None,
    }
}

/// The outbound topic of network `n` that carries `msg`.
pub open spec fn outbound_topic(n: Network, msg: HubMessage) -> (Seq<char>, u8) {
    match msg {
        HubMessage::UpdateFirmware(_) => n.topic_new_firmware@,
        HubMessage::FromServerSettings(_) => n.topic_new_setting@,
        HubMessage::FromServerSettingsAck(_) => n.topic_setting_ok@,
        HubMessage::DeleteHub(_) => n.topic_delete_hub@,
        HubMessage::ActiveHub(_) => n.topic_active_hub@,
        _ => n.topic_ping_ack@,
    }
}

/// In-memory registry of the networks and their hubs, with the global
/// control topics of this edge.
pub struct NetworkManager {
    networks: StringMap<Network>,
    hubs: StringMap<Vec<Hub>>,
    topic_handshake: Topic,
    topic_state: Topic,
    topic_heartbeat: Topic,
}

impl NetworkManager {
    pub closed spec fn wf(&self) -> bool {
        &&& self.networks.wf()
        &&& self.hubs.wf()
        &&& forall|k: Seq<char>| #[trigger] self.networks@.contains_key(k) ==> self.networks@[k].id_network@ == k
        &&& forall|k: Seq<char>| #[trigger] self.hubs@.contains_key(k) ==> distinct_hubs(self.hubs@[k]@)
    }

    /// The networks by id.
    pub closed spec fn nets(&self) -> Map<Seq<char>, Network> {
        self.networks@
    }

    /// The hubs of each network id that has any record.
    pub closed spec fn hub_sets(&self) -> Map<Seq<char>, Set<HubView>> {
        Map::new(|k: Seq<char>| self.hubs@.contains_key(k), |k: Seq<char>| hub_set(self.hubs@[k]@))
    }

    /// Topic of the handshake messages of this edge.
    pub closed spec fn handshake_topic(&self) -> (Seq<char>, u8) {
        self.topic_handshake@
    }

    /// Topic of the state messages of this edge.
    pub closed spec fn state_topic(&self) -> (Seq<char>, u8) {
        self.topic_state@
    }

    /// Topic of the heartbeat messages of this edge.
    pub closed spec fn heartbeat_topic(&self) -> (Seq<char>, u8) {
        self.topic_heartbeat@
    }

    /// Total number of hubs over all networks.
    pub closed spec fn hub_total(&self) -> nat {
        sum_lens(self.hubs.value_seq())
    }

    /// The networks that have a hub record, in record order.
    pub closed spec fn hub_keys(&self) -> Seq<Seq<char>> {
        self.hubs.key_seq()
    }

    /// The total hub count is the sum, over the networks with a hub record
    /// (each listed once), of the size of the network's hub set; with no hub
    /// record at all it is 0.
    pub proof fn law_total_is_sum_of_sets(&self)
        requires
            self.wf(),
        ensures
            self.hub_keys().no_duplicates(),
            self.hub_keys().to_set() == self.hub_sets().dom(),
            self.hub_total() == sizes_sum(self.hub_keys(), self.hub_sets()),
            self.hub_sets() == Map::<Seq<char>, Set<HubView>>::empty() ==> self.hub_total() == 0,
    {
        self.hubs.lemma_enumerates();
        let keys = self.hubs.key_seq();
        let vals = self.hubs.value_seq();
        assert(keys.to_set() =~= self.hub_sets().dom()) by {
            assert forall|k: Seq<char>| keys.to_set().contains(k) implies self.hub_sets().dom().contains(k) by {
                let i = choose|i: int| 0 <= i < keys.len() && keys[i] == k;
                assert(self.hubs@.contains_key(keys[i]));
            }
        }
        assert forall|n: int| 0 <= n <= keys.len() implies #[trigger] sum_lens(vals.take(n)) == sizes_sum(
            keys.take(n),
            self.hub_sets(),
        ) by {
            self.lemma_prefix_sums(n);
        }
        assert(vals.take(keys.len() as int) =~= vals);
        assert(keys.take(keys.len() as int) =~= keys);
        if self.hub_sets() == Map::<Seq<char>, Set<HubView>>::empty() {
            assert(self.hub_sets().dom() =~= Set::<Seq<char>>::empty());
            if keys.len() > 0 {
                assert(self.hub_sets().dom().contains(keys[0]));
            }
        }
    }

    proof fn lemma_prefix_sums(&self, n: int)
        requires
            self.wf(),
            0 <= n <= self.hubs.key_seq().len(),
        ensures
            sum_lens(self.hubs.value_seq().take(n)) == sizes_sum(self.hubs.key_seq().take(n), self.hub_sets()),
        decreases n,
    {
        self.hubs.lemma_enumerates();
        let keys = self.hubs.key_seq();
        let vals = self.hubs.value_seq();
        if n > 0 {
            self.lemma_prefix_sums(n - 1);
            assert(vals.take(n).drop_last() =~= vals.take(n - 1));
            assert(keys.take(n).drop_last() =~= keys.take(n - 1));
            let k = keys[n - 1];
            assert(self.hubs@.contains_key(k));
            lemma_distinct_hubs_len(self.hubs@[k]@);
        } else {
            assert(vals.take(0) =~= Seq::<Vec<Hub>>::empty());
            assert(keys.take(0) =~= Seq::<Seq<char>>::empty());
        }
    }

    /// Each network's hub count is the size of its hub set.
    pub proof fn lemma_hub_counts(&self, k: Seq<char>)
        requires
            self.wf(),
            self.hub_sets().contains_key(k),
        ensures
            self.hub_sets()[k].finite(),
    {
    }

    /// A registry with no networks and the global topics of edge `system.id_edge`.
    pub fn new_empty(system: &System) -> (m: Self)
        ensures
            m.wf(),
            m.nets() == Map::<Seq<char>, Network>::empty(),
            m.hub_sets() == Map::<Seq<char>, Set<HubView>>::empty(),
            m.hub_total() == 0,
            m.handshake_topic() == (path_of(system.id_edge@, "/handshake"@), 1u8),
            m.state_topic() == (path_of(system.id_edge@, "/state"@), 1u8),
            m.heartbeat_topic() == (path_of(system.id_edge@, "/heartbeat"@), 0u8),
    {
        let id = system.id_edge.as_str();
        let m = NetworkManager {
            networks: StringMap::new(),
            hubs: StringMap::new(),
            topic_handshake: Topic::new(make_path(id, "/handshake"), 1),
            topic_state: Topic::new(make_path(id, "/state"), 1),
            topic_heartbeat: Topic::new(make_path(id, "/heartbeat"), 0),
        };
        proof {
            assert(m.hub_sets() =~= Map::<Seq<char>, Set<HubView>>::empty());
        }
        m
    }

    /// Adds a network, or replaces the one with the same id.
    pub fn add_network(&mut self, network: Network)
        requires
            old(self).wf(),
        ensures
            final(self).wf(),
            final(self).nets() == old(self).nets().insert(network.id_network@, network),
            final(self).hub_sets() == old(self).hub_sets(),
            final(self).hub_total() == old(self).hub_total(),
            final(self).handshake_topic() == old(self).handshake_topic(),
            final(self).state_topic() == old(self).state_topic(),
            final(self).heartbeat_topic() == old(self).heartbeat_topic(),
    {
        let key = network.id_network.clone();
        self.networks.insert(key, network);
    }

    /// Sets the `active` flag of network `id`, if it is registered.
    pub fn change_active(&mut self, active: bool, id: &str)
        requires
            old(self).wf(),
        ensures
            final(self).wf(),
            final(self).nets().dom() == old(self).nets().dom(),
            forall|k: Seq<char>| #[trigger] final(self).nets().contains_key(k) && k != id@
                ==> final(self).nets()[k] == old(self).nets()[k],
            old(self).nets().contains_key(id@) ==> final(self).nets()[id@] == (Network {
                active,
                ..old(self).nets()[id@]
            }),
            final(self).hub_sets() == old(self).hub_sets(),
            final(self).hub_total() == old(self).hub_total(),
            final(self).handshake_topic() == old(self).handshake_topic(),
            final(self).state_topic() == old(self).state_topic(),
            final(self).heartbeat_topic() == old(self).heartbeat_topic(),
    {
        match self.networks.find(id) {
            Some(i) => {
                let mut network = self.networks.swap_value(i, Network::new(String::new(), active));
                network.active = active;
                let _ = self.networks.swap_value(i, network);
                proof {
                    assert(self.networks@.dom() =~= old(self).networks@.dom());
                }
            },
            None => {},
        }
    }

    /// Removes network `id`; its hub records stay.
    pub fn remove_network(&mut self, id: &str)
        requires
            old(self).wf(),
        ensures
            final(self).wf(),
            final(self).nets() == old(self).nets().remove(id@),
            final(self).hub_sets() == old(self).hub_sets(),
            final(self).hub_total() == old(self).hub_total(),
            final(self).handshake_topic() == old(self).handshake_topic(),
            final(self).state_topic() == old(self).state_topic(),
            final(self).heartbeat_topic() == old(self).heartbeat_topic(),
    {
        self.networks.remove(id);
    }

    /// Adds `hub` to the hubs of network `id`; a hub with the same value is kept once.
    pub fn add_hub(&mut self, id: String, hub: Hub)
        requires
            old(self).wf(),
        ensures
            final(self).wf(),
            final(self).nets() == old(self).nets(),
            final(self).hub_sets() == with_hub(old(self).hub_sets(), id@, hub@),
            final(self).hub_total() == old(self).hub_total() + if old(self).hub_sets().contains_key(id@)
                && old(self).hub_sets()[id@].contains(hub@) {
                0nat
            } else {
                1nat
            },
            final(self).handshake_topic() == old(self).handshake_topic(),
            final(self).state_topic() == old(self).state_topic(),
            final(self).heartbeat_topic() == old(self).heartbeat_topic(),
    {
        let ghost hv = hub@;
        match self.hubs.find(id.as_str()) {
            Some(i) => {
                proof {
                    self.hubs.lemma_enumerates();
                }
                let mut set = self.hubs.swap_value(i, Vec::new());
                let ghost old_set = set@;
                let n = set.len();
                let mut found = false;
                for j in 0..n
                    invariant
                        n == set@.len(),
                        hv == hub@,
                        found == exists|k: int| 0 <= k < j && (#[trigger] set@[k])@ == hv,
                {
                    if string_eq(&set[j].id, hub.id.as_str()) && string_eq(
                        &set[j].device_name,
                        hub.device_name.as_str(),
                    ) && set[j].energy_mode == hub.energy_mode {
                        found = true;
                    }
                }
                proof {
                    assert(found == old_set.map_values(|h: Hub| h@).contains(hv)) by {
                        if found {
                            let k = choose|k: int| 0 <= k < n && (#[trigger] set@[k])@ == hv;
                            assert(old_set.map_values(|h: Hub| h@)[k] == hv);
                        }
                    }
                }
                if !found {
                    set.push(hub);
                    proof {
                        assert(set@.map_values(|h: Hub| h@) =~= old_set.map_values(|h: Hub| h@).push(hv));
                        old_set.map_values(|h: Hub| h@).lemma_push_to_set_commute(hv);
                        lemma_sum_lens_update(old(self).hubs.value_seq(), i as int, set);
                    }
                } else {
                    proof {
                        assert(old_set.map_values(|h: Hub| h@).to_set().insert(hv)
                            =~= old_set.map_values(|h: Hub| h@).to_set());
                        assert(old(self).hubs.value_seq().update(i as int, set) =~= old(self).hubs.value_seq());
                    }
                }
                let ghost new_set = set;
                let _ = self.hubs.swap_value(i, set);
                proof {
                    assert(self.hubs.value_seq() =~= old(self).hubs.value_seq().update(i as int, new_set));
                    assert(self.hub_sets() =~= old(self).hub_sets().insert(id@,
                        old(self).hub_sets()[id@].insert(hv)));
                }
            },
            None => {
                let set = vec![hub];
                proof {
                    assert(set@.map_values(|h: Hub| h@) =~= seq![hv]);
                    assert(seq![hv][0] == hv);
                    assert(seq![hv].to_set() =~= Set::<HubView>::empty().insert(hv));
                    lemma_sum_lens_push(old(self).hubs.value_seq(), set);
                }
                self.hubs.insert(id, set);
                proof {
                    assert(self.hub_sets() =~= old(self).hub_sets().insert(id@,
                        Set::<HubView>::empty().insert(hv)));
                }
            },
        }
    }

    /// Removes every hub with id `id_hub` from network `id_network`.
    pub fn remove_hub(&mut self, id_network: &str, id_hub: &str)
        requires
            old(self).wf(),
        ensures
            final(self).wf(),
            final(self).nets() == old(self).nets(),
            final(self).hub_sets() == without_hub(old(self).hub_sets(), id_network@, id_hub@),
            final(self).hub_total() == old(self).hub_total() - removed_count(old(self).hub_sets(), id_network@, id_hub@),
            final(self).handshake_topic() == old(self).handshake_topic(),
            final(self).state_topic() == old(self).state_topic(),
            final(self).heartbeat_topic() == old(self).heartbeat_topic(),
    {
        match self.hubs.find(id_network) {
            Some(i) => {
                proof {
                    self.hubs.lemma_enumerates();
                }
                let set = self.hubs.swap_value(i, Vec::new());
                let ghost old_set = set@;
                let mut kept: Vec<Hub> = Vec::new();
                let n = set.len();
                let mut set = set;
                for j in 0..n
                    invariant
                        n == set@.len(),
                        set@ == old_set,
                        distinct_hubs(old_set),
                        distinct_hubs(kept@),
                        kept@.len() <= j,
                        forall|v: HubView| #[trigger] hub_set(kept@).contains(v) <==> (
                            hub_set(old_set.take(j as int)).contains(v) && v.0 != id_hub@),
                {
                    let ghost before = kept@;
                    let keep = !string_eq(&set[j].id, id_hub);
                    if keep {
                        let h = Hub {
                            id: set[j].id.clone(),
                            device_name: set[j].device_name.clone(),
                            energy_mode: set[j].energy_mode,
                        };
                        kept.push(h);
                    }
                    proof {
                        let prefix = old_set.take(j as int);
                        let next = old_set.take(j + 1);
                        assert(next =~= prefix.push(old_set[j as int]));
                        assert(next.map_values(|h: Hub| h@) =~= prefix.map_values(|h: Hub| h@).push(old_set[j as int]@));
                        prefix.map_values(|h: Hub| h@).lemma_push_to_set_commute(old_set[j as int]@);
                        assert(hub_set(next) == hub_set(prefix).insert(old_set[j as int]@));
                        if keep {
                            assert(old_set[j as int]@.0 != id_hub@);
                            assert(kept@.map_values(|h: Hub| h@) =~= before.map_values(|h: Hub| h@).push(old_set[j as int]@));
                            before.map_values(|h: Hub| h@).lemma_push_to_set_commute(old_set[j as int]@);
                            assert(hub_set(kept@) == hub_set(before).insert(old_set[j as int]@));
                            assert forall|a: int, b: int| 0 <= a < b < kept@.len() implies
                                (#[trigger] kept@[a])@ != (#[trigger] kept@[b])@ by {
                                if b == kept@.len() - 1 {
                                    assert(kept@[b]@ == old_set[j as int]@);
                                    assert(hub_set(before).contains(kept@[a]@)) by {
                                        assert(before.map_values(|h: Hub| h@)[a] == kept@[a]@);
                                    }
                                    assert(hub_set(prefix).contains(kept@[a]@));
                                    let pv = prefix.map_values(|h: Hub| h@);
                                    let t = choose|t: int| 0 <= t < pv.len() && #[trigger] pv[t] == kept@[a]@;
                                    assert(old_set[t]@ == kept@[a]@);
                                } else {
                                    assert(kept@[a] == before[a]);
                                    assert(kept@[b] == before[b]);
                                }
                            }
                        } else {
                            assert(kept@ == before);
                            assert(old_set[j as int]@.0 == id_hub@);
                        }
                    }
                }
                proof {
                    assert(old_set.take(n as int) =~= old_set);
                    assert(hub_set(kept@) =~= hub_set(old_set).filter(other_id(id_hub@)));
                    lemma_sum_lens_update(old(self).hubs.value_seq(), i as int, kept);
                    lemma_distinct_hubs_len(kept@);
                    lemma_filter_split(old_set, id_hub@);
                    assert(old(self).hub_sets()[id_network@] == hub_set(old_set));
                    assert(removed_count(old(self).hub_sets(), id_network@, id_hub@)
                        == hub_set(old_set).filter(same_id(id_hub@)).len());
                }
                let ghost new_set = kept;
                let _ = self.hubs.swap_value(i, kept);
                proof {
                    assert(self.hubs.value_seq() =~= old(self).hubs.value_seq().update(i as int, new_set));
                    assert(self.hub_sets() =~= old(self).hub_sets().insert(
                        id_network@,
                        old(self).hub_sets()[id_network@].filter(other_id(id_hub@)),
                    ));
                }
            },
            None => {},
        }
    }


    /// Whether network `id_net` has a hub with id `id_hub`; `true` when the
    /// network has no hub record at all.
    pub fn search_hub(&self, id_net: &str, id_hub: &str) -> (b: bool)
        requires
            self.wf(),
        ensures
            b == has_hub(self.hub_sets(), id_net@, id_hub@),
    {
        match self.hubs.get(id_net) {
            Some(set) => {
                let n = set.len();
                for j in 0..n
                    invariant
                        n == set@.len(),
                        self.hubs@.contains_key(id_net@),
                        *set == self.hubs@[id_net@],
                        forall|k: int| 0 <= k < j ==> (#[trigger] set@[k]).id@ != id_hub@,
                {
                    if string_eq(&set[j].id, id_hub) {
                        proof {
                            assert(set@.map_values(|h: Hub| h@)[j as int] == set@[j as int]@);
                            assert(hub_set(set@).contains(set@[j as int]@));
                            assert(self.hubs@.contains_key(id_net@));
                            assert(self.hub_sets().contains_key(id_net@));
                            assert(self.hub_sets()[id_net@] == hub_set(set@));
                            assert(self.hub_sets()[id_net@].contains(set@[j as int]@));
                            assert(set@[j as int]@.0 == id_hub@);
                        }
                        return true;
                    }
                }
                proof {
                    assert forall|h: HubView| #[trigger] hub_set(set@).contains(h) implies h.0 != id_hub@ by {
                        let pv = set@.map_values(|x: Hub| x@);
                        let t = choose|t: int| 0 <= t < pv.len() && #[trigger] pv[t] == h;
                        assert(set@[t].id@ != id_hub@);
                    }
                }
                false
            },
            None => true,
        }
    }

    /// The id of a hub of network `id_net` picked at random.
    pub fn get_random_hub_id_by_network(&self, id_net: &str) -> (r: Option<String>)
        requires
            self.wf(),
        ensures
            r is None <==> !self.hub_sets().contains_key(id_net@) || self.hub_sets()[id_net@].is_empty(),
            r matches Some(id) ==> exists|h: HubView| #[trigger] self.hub_sets()[id_net@].contains(h) && h.0 == id@,
    {
        match self.hubs.get(id_net) {
            Some(set) => {
                proof {
                    lemma_distinct_hubs_len(set@);
                    self.lemma_hub_counts(id_net@);
                }
                match choose_position(set.len()) {
                    Some(i) => {
                        proof {
                            assert(set@.map_values(|h: Hub| h@)[i as int] == set@[i as int]@);
                            assert(hub_set(set@).contains(set@[i as int]@));
                        }
                        Some(set[i].id.clone())
                    },
                    None => {
                        proof {
                            assert(hub_set(set@).len() == 0);
                            hub_set(set@).lemma_len0_is_empty();
                        }
                        None
                    },
                }
            },
            None => None,
        }
    }

    /// The number of hubs of network `id_net`, if it has a hub record.
    pub fn get_total_hubs_by_network(&self, id_net: &str) -> (r: Option<usize>)
        requires
            self.wf(),
        ensures
            r is None <==> !self.hub_sets().contains_key(id_net@),
            r matches Some(n) ==> n == self.hub_sets()[id_net@].len(),
    {
        match self.hubs.get(id_net) {
            Some(set) => {
                proof {
                    lemma_distinct_hubs_len(set@);
                }
                Some(set.len())
            },
            None => None,
        }
    }

    /// The number of hubs over all networks.
    pub fn get_total_hubs(&self) -> (n: u64)
        requires
            self.wf(),
            self.hub_total() <= u64::MAX,
        ensures
            n == self.hub_total(),
    {
        proof {
            self.hubs.lemma_enumerates();
        }
        let count = self.hubs.len();
        let mut total: u64 = 0;
        for i in 0..count
            invariant
                count == self.hubs@.len(),
                self.hubs.value_seq().len() == count,
                self.hubs.wf(),
                self.hub_total() <= u64::MAX,
                total == sum_lens(self.hubs.value_seq().take(i as int)),
        {
            proof {
                lemma_sum_lens_prefix(self.hubs.value_seq(), i as int);
            }
            let set = self.hubs.value_at(i);
            total = total + set.len() as u64;
        }
        proof {
            assert(self.hubs.value_seq().take(count as int) =~= self.hubs.value_seq());
        }
        total
    }

    /// The registered network with id `id`.
    pub fn network(&self, id: &str) -> (r: Option<&Network>)
        requires
            self.wf(),
        ensures
            r is None <==> !self.nets().contains_key(id@),
            r matches Some(n) ==> *n == self.nets()[id@],
    {
        self.networks.get(id)
    }

    /// The outbound topic that carries `msg` to the hubs of its network, for the
    /// messages that name a network.
    pub fn get_topic_to_send_msg_to_hub(&self, msg: &HubMessage) -> (r: Option<Topic>)
        requires
            self.wf(),
        ensures
            r is Some <==> (outbound_route(*msg) matches Some(id) && self.nets().contains_key(id)),
            r matches Some(t) ==> t@ == outbound_topic(self.nets()[outbound_route(*msg)->0], *msg),
    {
        let id_net: &String = match msg {
            HubMessage::UpdateFirmware(m) => &m.network,
            HubMessage::FromServerSettings(m) => &m.network,
            HubMessage::FromServerSettingsAck(m) => &m.network,
            HubMessage::DeleteHub(m) => &m.network,
            HubMessage::ActiveHub(m) => &m.network,
            HubMessage::PingToHub(m) => &m.network,
            _ => {
                return None;
            },
        };
        match self.networks.get(id_net.as_str()) {
            Some(n) => {
                let t = match msg {
                    HubMessage::UpdateFirmware(_) => n.topic_new_firmware.duplicate(),
                    HubMessage::FromServerSettings(_) => n.topic_new_setting.duplicate(),
                    HubMessage::FromServerSettingsAck(_) => n.topic_setting_ok.duplicate(),
                    HubMessage::DeleteHub(_) => n.topic_delete_hub.duplicate(),
                    HubMessage::ActiveHub(_) => n.topic_active_hub.duplicate(),
                    _ => n.topic_ping_ack.duplicate(),
                };
                Some(t)
            },
            None => None,
        }
    }

    /// The global control topics: handshake, state and heartbeat.
    pub fn control_topics(&self) -> (r: (Topic, Topic, Topic))
        ensures
            r.0@ == self.handshake_topic(),
            r.1@ == self.state_topic(),
            r.2@ == self.heartbeat_topic(),
    {
        (self.topic_handshake.duplicate(), self.topic_state.duplicate(), self.topic_heartbeat.duplicate())
    }

    /// Number of registered networks.
    pub fn network_count(&self) -> (n: usize)
        requires
            self.wf(),
        ensures
            n == self.nets().len(),
    {
        self.networks.len()
    }

    /// The networks in registration order.
    pub closed spec fn network_seq(&self) -> Seq<Network> {
        self.networks.value_seq()
    }

    /// `network_seq` lists each registered network once.
    pub proof fn lemma_network_seq(&self)
        requires
            self.wf(),
        ensures
            self.network_seq().len() == self.nets().len(),
            forall|i: int| 0 <= i < self.network_seq().len() ==> #[trigger] self.nets().contains_key(
                self.network_seq()[i].id_network@) && self.nets()[self.network_seq()[i].id_network@]
                == self.network_seq()[i],
            forall|k: Seq<char>| #[trigger] self.nets().contains_key(k) ==> exists|i: int|
                0 <= i < self.network_seq().len() && self.network_seq()[i].id_network@ == k,
    {
        self.networks.lemma_enumerates();
        assert forall|i: int| 0 <= i < self.network_seq().len() implies #[trigger] self.nets().contains_key(
            self.network_seq()[i].id_network@) && self.nets()[self.network_seq()[i].id_network@]
            == self.network_seq()[i] by {
            let k = self.networks.key_seq()[i];
            assert(self.nets().contains_key(k));
        }
        assert forall|k: Seq<char>| #[trigger] self.nets().contains_key(k) implies exists|i: int|
            0 <= i < self.network_seq().len() && self.network_seq()[i].id_network@ == k by {
            let i = choose|i: int| 0 <= i < self.networks@.len() && self.networks.key_seq()[i] == k;
            assert(self.network_seq()[i].id_network@ == k);
        }
    }

    /// The network at position `i` of `network_seq`.
    pub fn network_at(&self, i: usize) -> (n: &Network)
        requires
            self.wf(),
            i < self.nets().len(),
        ensures
            *n == self.network_seq()[i as int],
    {
        self.networks.value_at(i)
    }
}

} // verus!
