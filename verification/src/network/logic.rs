//! Decisions of the network service: how server and hub messages change the
//! registry, and which database changes they call for.

use vstd::prelude::*;
use crate::database::domain::DataServiceCommand;
use crate::keyed::StringMap;
use crate::message::domain::{
    ActiveHub, DeleteHub, HubMessage, Metadata, Network as NetworkMsg, SettingOk, Settings,
};
use crate::network::domain::{
    Batch, Hub, HubChanged, HubRow, HubView, Network, NetworkAction, NetworkChanged, NetworkManager,
    NetworkRow, has_hub, network_spec, with_hub, without_hub,
};

verus! {

/// What a network message asks of a registry holding `nets`.
pub open spec fn network_action_spec(nets: Map<Seq<char>, Network>, msg: NetworkMsg) -> NetworkAction {
    let id = msg.id_network@;
    if nets.contains_key(id) {
        if msg.delete_network {
            NetworkAction::Delete
        } else if nets[id].active != msg.active {
            NetworkAction::Update
        } else {
            NetworkAction::Ignore
        }
    } else if !msg.delete_network {
        NetworkAction::Insert
    } else {
        NetworkAction::Ignore
    }
}

/// The action a network message calls for is the one that makes the registry
/// agree with the message: a deletion removes a known network, an insertion
/// adds an unknown one that is not being deleted, an update changes a known
/// network whose `active` flag differs, and nothing is done exactly when the
/// registry already agrees (a known network with the same flag, or an unknown
/// one being deleted).
pub proof fn law_network_action_converges(nets: Map<Seq<char>, Network>, msg: NetworkMsg)
    ensures
        network_action_spec(nets, msg) == NetworkAction::Delete <==> nets.contains_key(msg.id_network@)
            && msg.delete_network,
        network_action_spec(nets, msg) == NetworkAction::Insert <==> !nets.contains_key(msg.id_network@)
            && !msg.delete_network,
        network_action_spec(nets, msg) == NetworkAction::Update <==> nets.contains_key(msg.id_network@)
            && !msg.delete_network && nets[msg.id_network@].active != msg.active,
        network_action_spec(nets, msg) == NetworkAction::Ignore <==> (if msg.delete_network {
            !nets.contains_key(msg.id_network@)
        } else {
            nets.contains_key(msg.id_network@) && nets[msg.id_network@].active == msg.active
        }),
{
}

/// Decides what a network message from the server does: delete a known
/// network, update its `active` flag when it differs, insert an unknown one,
/// or nothing.
pub fn network_action(manager: &NetworkManager, network: &NetworkMsg) -> (a: NetworkAction)
    requires
        manager.wf(),
    ensures
        a == network_action_spec(manager.nets(), *network),
{
    match manager.network(network.id_network.as_str()) {
        Some(existing) => {
            if network.delete_network {
                NetworkAction::Delete
            } else if existing.active != network.active {
                NetworkAction::Update
            } else {
                NetworkAction::Ignore
            }
        },
        None => {
            if !network.delete_network {
                NetworkAction::Insert
            } else {
                NetworkAction::Ignore
            }
        },
    }
}

/// Applies a decided action to the registry and returns the change for the database.
pub fn apply_network_action(manager: &mut NetworkManager, network: &NetworkMsg, action: NetworkAction) -> (c:
    NetworkChanged)
    requires
        old(manager).wf(),
        action != NetworkAction::Ignore,
    ensures
        final(manager).wf(),
        final(manager).hub_sets() == old(manager).hub_sets(),
        action == NetworkAction::Delete ==> final(manager).nets() == old(manager).nets().remove(network.id_network@),
        action == NetworkAction::Delete ==> (c matches NetworkChanged::Delete { id } && id@ == network.id_network@),
        action == NetworkAction::Update ==> final(manager).nets().dom() == old(manager).nets().dom(),
        action == NetworkAction::Update && old(manager).nets().contains_key(network.id_network@)
            ==> final(manager).nets()[network.id_network@] == (Network {
                active: network.active,
                ..old(manager).nets()[network.id_network@]
            }),
        action == NetworkAction::Update ==> (c matches NetworkChanged::Update(r) && r.id_network@
            == network.id_network@ && r.active == network.active),
        action == NetworkAction::Insert ==> final(manager).nets().dom() == old(manager).nets().dom().insert(
            network.id_network@,
        ),
        action == NetworkAction::Insert ==> network_spec(
            final(manager).nets()[network.id_network@],
            network.id_network@,
            network.active,
        ),
        action == NetworkAction::Insert ==> (c matches NetworkChanged::Insert(r) && r.id_network@
            == network.id_network@ && r.active == network.active),
        forall|k: Seq<char>| #[trigger] final(manager).nets().contains_key(k) && k != network.id_network@
            ==> final(manager).nets()[k] == old(manager).nets()[k],
{
    match action {
        NetworkAction::Delete => {
            manager.remove_network(network.id_network.as_str());
            NetworkChanged::Delete { id: network.id_network.clone() }
        },
        NetworkAction::Update => {
            manager.change_active(network.active, network.id_network.as_str());
            NetworkChanged::Update(NetworkRow::new(network.id_network.clone(), network.active))
        },
        _ => {
            let n = Network::new(network.id_network.clone(), network.active);
            manager.add_network(n);
            NetworkChanged::Insert(NetworkRow::new(network.id_network.clone(), network.active))
        },
    }
}

/// The value of the hub that a settings message describes.
pub open spec fn settings_hub(settings: Settings) -> HubView {
    (settings.metadata.sender_user_id@, settings.device_name@, settings.energy_mode)
}

/// Registers the hub that sent `settings` when its network does not know it yet,
/// and returns the row to insert in the database.
pub fn register_hub_from_settings(manager: &mut NetworkManager, settings: Settings) -> (c: Option<
    HubChanged,
>)
    requires
        old(manager).wf(),
    ensures
        final(manager).wf(),
        final(manager).nets() == old(manager).nets(),
        c is Some <==> !has_hub(old(manager).hub_sets(), settings.network@, settings.metadata.sender_user_id@),
        c is Some ==> final(manager).hub_sets() == with_hub(
            old(manager).hub_sets(),
            settings.network@,
            settings_hub(settings),
        ),
        c is None ==> final(manager).hub_sets() == old(manager).hub_sets(),
        c matches Some(HubChanged::Insert(row)) ==> row.network_id@ == settings.network@
            && row.metadata == settings.metadata && row.device_name == settings.device_name
            && row.energy_mode == settings.energy_mode && row.wifi_ssid == settings.wifi_ssid
            && row.wifi_password == settings.wifi_password && row.mqtt_uri == settings.mqtt_uri
            && row.sample == settings.sample,
        c matches Some(change) ==> change is Insert,
{
    let id = settings.network.clone();
    if !manager.search_hub(id.as_str(), settings.metadata.sender_user_id.as_str()) {
        let hub_row = settings.cast_settings_to_hub_row(id.clone());
        let hub = Hub {
            id: hub_row.metadata.sender_user_id.clone(),
            device_name: hub_row.device_name.clone(),
            energy_mode: hub_row.energy_mode,
        };
        manager.add_hub(id, hub);
        Some(HubChanged::Insert(hub_row))
    } else {
        None
    }
}

/// Removes the hub named by a delete order from its network and returns the
/// database change, which names the network.
pub fn delete_hub(manager: &mut NetworkManager, order: &DeleteHub) -> (c: HubChanged)
    requires
        old(manager).wf(),
    ensures
        final(manager).wf(),
        final(manager).nets() == old(manager).nets(),
        final(manager).hub_sets() == without_hub(
            old(manager).hub_sets(),
            order.network@,
            order.metadata.destination_id@,
        ),
        c matches HubChanged::Delete(id) && id@ == order.network@,
{
    let id = order.network.clone();
    manager.remove_hub(id.as_str(), order.metadata.destination_id.as_str());
    HubChanged::Delete(id)
}

/// The hub sets after adding, in order, the hubs of `rows`.
pub open spec fn with_hub_rows(sets: Map<Seq<char>, Set<HubView>>, rows: Seq<HubRow>) -> Map<
    Seq<char>,
    Set<HubView>,
>
    decreases rows.len(),
{
    if rows.len() == 0 {
        sets
    } else {
        let r = rows.last();
        with_hub(
            with_hub_rows(sets, rows.drop_last()),
            r.network_id@,
            (r.metadata.sender_user_id@, r.device_name@, r.energy_mode),
        )
    }
}

/// The `active` flag of the last row with id `id`, if any.
pub open spec fn last_active(rows: Seq<NetworkRow>, id: Seq<char>) -> Option<bool>
    decreases rows.len(),
{
    if rows.len() == 0 {
        None
    } else if rows.last().id_network@ == id {
        Some(rows.last().active)
    } else {
        last_active(rows.drop_last(), id)
    }
}

/// Loads a batch read from the database into the registry: every network row
/// becomes a network (the last row of an id wins), every hub row a hub of its network.
pub fn load_batch(manager: &mut NetworkManager, batch: Batch)
    requires
        old(manager).wf(),
    ensures
        final(manager).wf(),
        batch matches Batch::Hub(rows) ==> final(manager).nets() == old(manager).nets()
            && final(manager).hub_sets() == with_hub_rows(old(manager).hub_sets(), rows@),
        batch matches Batch::Network(rows) ==> final(manager).hub_sets() == old(manager).hub_sets() && (
        forall|k: Seq<char>| #[trigger] final(manager).nets().contains_key(k) <==> (old(manager).nets().contains_key(
            k,
        ) || last_active(rows@, k) is Some)) && (forall|k: Seq<char>|
            #[trigger] final(manager).nets().contains_key(k) ==> match last_active(rows@, k) {
                Some(active) => network_spec(final(manager).nets()[k], k, active),
                None => final(manager).nets()[k] == old(manager).nets()[k],
            }),
{
    match batch {
        Batch::Network(rows) => {
            let n = rows.len();
            let mut rows = rows;
            let ghost all = rows@;
            let mut i: usize = 0;
            while i < n
                invariant
                    manager.wf(),
                    n == all.len(),
                    rows@ == all,
                    i <= n,
                    manager.hub_sets() == old(manager).hub_sets(),
                    forall|k: Seq<char>| #[trigger] manager.nets().contains_key(k) <==> (old(
                        manager,
                    ).nets().contains_key(k) || last_active(all.take(i as int), k) is Some),
                    forall|k: Seq<char>| #[trigger] manager.nets().contains_key(k) ==> match last_active(
                        all.take(i as int),
                        k,
                    ) {
                        Some(active) => network_spec(manager.nets()[k], k, active),
                        None => manager.nets()[k] == old(manager).nets()[k],
                    },
                decreases n - i,
            {
                let row = NetworkRow::new(rows[i].id_network.clone(), rows[i].active);
                let network = row.cast_to_network();
                manager.add_network(network);
                proof {
                    assert(all.take(i + 1).drop_last() =~= all.take(i as int));
                    assert(all.take(i + 1).last() == all[i as int]);
                }
                i = i + 1;
            }
            proof {
                assert(all.take(n as int) =~= all);
            }
        },
        Batch::Hub(rows) => {
            let n = rows.len();
            let ghost all = rows@;
            let mut i: usize = 0;
            while i < n
                invariant
                    manager.wf(),
                    n == all.len(),
                    rows@ == all,
                    i <= n,
                    manager.nets() == old(manager).nets(),
                    manager.hub_sets() == with_hub_rows(old(manager).hub_sets(), all.take(i as int)),
                decreases n - i,
            {
                let hub = Hub {
                    id: rows[i].metadata.sender_user_id.clone(),
                    device_name: rows[i].device_name.clone(),
                    energy_mode: rows[i].energy_mode,
                };
                manager.add_hub(rows[i].network_id.clone(), hub);
                proof {
                    assert(all.take(i + 1).drop_last() =~= all.take(i as int));
                    assert(all.take(i + 1).last() == all[i as int]);
                }
                i = i + 1;
            }
            proof {
                assert(all.take(n as int) =~= all);
            }
        },
    }
}

/// The value of a hub row, field by field.
pub struct HubRowView {
    pub sender: Seq<char>,
    pub destination: Seq<char>,
    pub timestamp: i64,
    pub network_id: Seq<char>,
    pub wifi_ssid: Seq<char>,
    pub wifi_password: Seq<char>,
    pub mqtt_uri: Seq<char>,
    pub device_name: Seq<char>,
    pub sample: u32,
    pub energy_mode: u32,
}

pub open spec fn row_view(r: HubRow) -> HubRowView {
    HubRowView {
        sender: r.metadata.sender_user_id@,
        destination: r.metadata.destination_id@,
        timestamp: r.metadata.timestamp,
        network_id: r.network_id@,
        wifi_ssid: r.wifi_ssid@,
        wifi_password: r.wifi_password@,
        mqtt_uri: r.mqtt_uri@,
        device_name: r.device_name@,
        sample: r.sample,
        energy_mode: r.energy_mode,
    }
}

/// The row that server settings describe, for the network they name.
pub open spec fn settings_row(s: Settings) -> HubRowView {
    HubRowView {
        sender: s.metadata.sender_user_id@,
        destination: s.metadata.destination_id@,
        timestamp: s.metadata.timestamp,
        network_id: s.network@,
        wifi_ssid: s.wifi_ssid@,
        wifi_password: s.wifi_password@,
        mqtt_uri: s.mqtt_uri@,
        device_name: s.device_name@,
        sample: s.sample,
        energy_mode: s.energy_mode,
    }
}

fn copy_row(r: &HubRow) -> (c: HubRow)
    ensures
        row_view(c) == row_view(*r),
{
    HubRow {
        metadata: r.metadata.duplicate(),
        network_id: r.network_id.clone(),
        wifi_ssid: r.wifi_ssid.clone(),
        wifi_password: r.wifi_password.clone(),
        mqtt_uri: r.mqtt_uri.clone(),
        device_name: r.device_name.clone(),
        sample: r.sample,
        energy_mode: r.energy_mode,
    }
}

fn row_of_settings(s: &Settings) -> (r: HubRow)
    ensures
        row_view(r) == settings_row(*s),
{
    HubRow {
        metadata: s.metadata.duplicate(),
        network_id: s.network.clone(),
        wifi_ssid: s.wifi_ssid.clone(),
        wifi_password: s.wifi_password.clone(),
        mqtt_uri: s.mqtt_uri.clone(),
        device_name: s.device_name.clone(),
        sample: s.sample,
        energy_mode: s.energy_mode,
    }
}

/// Settings sent by the server to the hubs and not yet acknowledged, kept as
/// hub rows under the sender id of the server's message, in arrival order.
pub struct PendingSettings {
    rows: StringMap<Vec<HubRow>>,
}

impl PendingSettings {
    pub closed spec fn wf(&self) -> bool {
        self.rows.wf()
    }

    /// The pending rows under each key.
    pub closed spec fn pending(&self) -> Map<Seq<char>, Seq<HubRowView>> {
        Map::new(
            |k: Seq<char>| self.rows@.contains_key(k),
            |k: Seq<char>| self.rows@[k]@.map_values(|r: HubRow| row_view(r)),
        )
    }

    pub fn new() -> (p: Self)
        ensures
            p.wf(),
            p.pending() == Map::<Seq<char>, Seq<HubRowView>>::empty(),
    {
        let p = PendingSettings { rows: StringMap::new() };
        proof {
            assert(p.pending() =~= Map::<Seq<char>, Seq<HubRowView>>::empty());
        }
        p
    }

    /// Keeps the row that server settings describe until a hub acknowledges it.
    pub fn record(&mut self, settings: &Settings)
        requires
            old(self).wf(),
        ensures
            final(self).wf(),
            final(self).pending() == old(self).pending().insert(
                settings.metadata.sender_user_id@,
                if old(self).pending().contains_key(settings.metadata.sender_user_id@) {
                    old(self).pending()[settings.metadata.sender_user_id@].push(settings_row(*settings))
                } else {
                    seq![settings_row(*settings)]
                },
            ),
    {
        let key = settings.metadata.sender_user_id.clone();
        let row = row_of_settings(settings);
        let ghost old_rows = self.rows@;
        match self.rows.take(key.as_str()) {
            Some(mut v) => {
                let ghost before = v@;
                v.push(row);
                self.rows.insert(key, v);
                proof {
                    assert(v@.map_values(|r: HubRow| row_view(r)) =~= before.map_values(|r: HubRow| row_view(r)).push(
                        settings_row(*settings),
                    ));
                }
            },
            None => {
                let mut v: Vec<HubRow> = Vec::new();
                v.push(row);
                self.rows.insert(key, v);
                proof {
                    assert(v@.map_values(|r: HubRow| row_view(r)) =~= seq![settings_row(*settings)]);
                }
            },
        }
        proof {
            assert(self.pending() =~= old(self).pending().insert(
                settings.metadata.sender_user_id@,
                if old(self).pending().contains_key(settings.metadata.sender_user_id@) {
                    old(self).pending()[settings.metadata.sender_user_id@].push(settings_row(*settings))
                } else {
                    seq![settings_row(*settings)]
                },
            ));
        }
    }

    /// The first pending row under `key` from hub `sender`, if any.
    pub fn row_for(&self, key: &str, sender: &str) -> (r: Option<HubRow>)
        requires
            self.wf(),
        ensures
            r is None <==> !(self.pending().contains_key(key@) && exists|i: int|
                0 <= i < self.pending()[key@].len() && (#[trigger] self.pending()[key@][i]).sender == sender@),
            r matches Some(row) ==> exists|i: int|
                0 <= i < self.pending()[key@].len() && (#[trigger] self.pending()[key@][i]) == row_view(row)
                    && row_view(row).sender == sender@ && forall|j: int|
                    0 <= j < i ==> (#[trigger] self.pending()[key@][j]).sender != sender@,
    {
        match self.rows.get(key) {
            None => None,
            Some(v) => {
                let ghost views = v@.map_values(|r: HubRow| row_view(r));
                proof {
                    assert(self.pending()[key@] == views);
                }
                let n = v.len();
                for i in 0..n
                    invariant
                        n == v@.len(),
                        views == v@.map_values(|r: HubRow| row_view(r)),
                        views == self.pending()[key@],
                        self.pending().contains_key(key@),
                        forall|j: int| 0 <= j < i ==> (#[trigger] views[j]).sender != sender@,
                {
                    if crate::keyed::string_eq(&v[i].metadata.sender_user_id, sender) {
                        let row = copy_row(&v[i]);
                        proof {
                            assert(views[i as int] == row_view(v@[i as int]));
                        }
                        return Some(row);
                    }
                    proof {
                        assert(views[i as int] == row_view(v@[i as int]));
                    }
                }
                None
            },
        }
    }
}

/// The hub that a row describes.
pub open spec fn row_hub(r: HubRowView) -> HubView {
    (r.sender, r.device_name, r.energy_mode)
}

/// Applies a hub's acknowledgement of settings: when a pending row (under the
/// acknowledged network id) comes from that hub, the hub's record is replaced
/// by the row's and the row is returned for the database.
pub fn apply_settings_ack(pending: &PendingSettings, manager: &mut NetworkManager, ack: &SettingOk) -> (c: Option<
    HubChanged,
>)
    requires
        pending.wf(),
        old(manager).wf(),
    ensures
        final(manager).wf(),
        final(manager).nets() == old(manager).nets(),
        match c {
            None => {
                &&& final(manager).hub_sets() == old(manager).hub_sets()
                &&& !(pending.pending().contains_key(ack.network@) && exists|i: int|
                    0 <= i < pending.pending()[ack.network@].len() && (#[trigger] pending.pending()[
                        ack.network@][i]).sender == ack.metadata.sender_user_id@)
            },
            Some(HubChanged::Update(row)) => {
                &&& row_view(row).sender == ack.metadata.sender_user_id@
                &&& exists|i: int|
                    0 <= i < pending.pending()[ack.network@].len() && (#[trigger] pending.pending()[
                        ack.network@][i]) == row_view(row)
                &&& final(manager).hub_sets() == with_hub(
                    without_hub(old(manager).hub_sets(), ack.network@, ack.metadata.sender_user_id@),
                    ack.network@,
                    row_hub(row_view(row)),
                )
            },
            Some(_) => false,
        },
{
    match pending.row_for(ack.network.as_str(), ack.metadata.sender_user_id.as_str()) {
        None => None,
        Some(row) => {
            let id = ack.network.clone();
            manager.remove_hub(id.as_str(), row.metadata.sender_user_id.as_str());
            let hub = Hub {
                id: row.metadata.sender_user_id.clone(),
                device_name: row.device_name.clone(),
                energy_mode: row.energy_mode,
            };
            manager.add_hub(id, hub);
            Some(HubChanged::Update(row))
        },
    }
}

/// The notice that a network change sends to the hubs: a removed network
/// asks its hubs to leave, an updated one tells them whether it is active,
/// a new one sends nothing.
pub fn network_change_notice(id_edge: &String, change: &NetworkChanged, timestamp: i64) -> (m: Option<HubMessage>)
    ensures
        match *change {
            NetworkChanged::Delete { id } => m matches Some(HubMessage::DeleteHub(d)) && d.network@ == id@
                && d.metadata.sender_user_id@ == id_edge@ && d.metadata.destination_id@ == "all"@
                && d.metadata.timestamp == timestamp,
            NetworkChanged::Update(row) => m matches Some(HubMessage::ActiveHub(a)) && a.network@ == row.id_network@
                && a.active == row.active && a.metadata.sender_user_id@ == id_edge@ && a.metadata.destination_id@
                == "all"@ && a.metadata.timestamp == timestamp,
            NetworkChanged::Insert(_) => m is None,
        },
{
    match change {
        NetworkChanged::Delete { id } => Some(
            HubMessage::DeleteHub(
                DeleteHub {
                    metadata: Metadata {
                        sender_user_id: id_edge.clone(),
                        destination_id: String::from_str("all"),
                        timestamp,
                    },
                    network: id.clone(),
                },
            ),
        ),
        NetworkChanged::Update(row) => Some(
            HubMessage::ActiveHub(
                ActiveHub {
                    metadata: Metadata {
                        sender_user_id: id_edge.clone(),
                        destination_id: String::from_str("all"),
                        timestamp,
                    },
                    network: row.id_network.clone(),
                    active: row.active,
                },
            ),
        ),
        NetworkChanged::Insert(_) => None,
    }
}

/// The storage commands that mirror a network change: a removed network
/// also loses its hubs.
pub fn network_storage_commands(change: NetworkChanged) -> (cmds: Vec<DataServiceCommand>)
    ensures
        match change {
            NetworkChanged::Delete { id } => cmds@.len() == 2 && (cmds@[0] matches DataServiceCommand::DeleteNetwork(a)
                && a@ == id@) && (cmds@[1] matches DataServiceCommand::DeleteAllHubByNetwork(b) && b@ == id@),
            NetworkChanged::Update(row) => cmds@ == seq![DataServiceCommand::UpdateNetwork(row)],
            NetworkChanged::Insert(row) => cmds@ == seq![DataServiceCommand::NewNetwork(row)],
        },
{
    let mut cmds: Vec<DataServiceCommand> = Vec::new();
    match change {
        NetworkChanged::Delete { id } => {
            cmds.push(DataServiceCommand::DeleteNetwork(id.clone()));
            cmds.push(DataServiceCommand::DeleteAllHubByNetwork(id));
        },
        NetworkChanged::Update(row) => {
            cmds.push(DataServiceCommand::UpdateNetwork(row));
        },
        NetworkChanged::Insert(row) => {
            cmds.push(DataServiceCommand::NewNetwork(row));
        },
    }
    cmds
}

/// The storage command that mirrors a hub change.
pub fn hub_storage_command(change: HubChanged) -> (cmd: DataServiceCommand)
    ensures
        cmd == match change {
            HubChanged::Insert(row) => DataServiceCommand::NewHub(row),
            HubChanged::Delete(id) => DataServiceCommand::DeleteHub(id),
            HubChanged::Update(row) => DataServiceCommand::UpdateHub(row),
        },
{
    match change {
        HubChanged::Insert(row) => DataServiceCommand::NewHub(row),
        HubChanged::Delete(id) => DataServiceCommand::DeleteHub(id),
        HubChanged::Update(row) => DataServiceCommand::UpdateHub(row),
    }
}

} // verus!
