//! Commands of the storage service and how it hands them to its tasks.

use vstd::prelude::*;
use crate::database::batch::TableDataVector;
use crate::message::domain::{HubMessage, ServerStatus};
use crate::network::domain::{HubRow, NetworkRow};
use crate::message::logic::server_after;
use crate::system::domain::InternalEvent;

verus! {

/// Operations that the storage service is asked to perform.
#[derive(Debug, Clone, PartialEq)]
pub enum DataServiceCommand {
    Hub(HubMessage),
    Internal(InternalEvent),
    NewEpoch(u32),
    GetEpoch,
    NewHub(HubRow),
    DeleteHub(String),
    UpdateHub(HubRow),
    NewNetwork(NetworkRow),
    DeleteNetwork(String),
    UpdateNetwork(NetworkRow),
    DeleteAllHubByNetwork(String),
    GetTotalOfNetworks,
}

/// Answers of the storage service.
#[derive(Debug, Clone, PartialEq)]
pub enum DataServiceResponse {
    Batch(TableDataVector),
    BatchNetwork(Vec<NetworkRow>),
    BatchHub(Vec<HubRow>),
    Epoch(u32),
    ErrorEpoch,
    NoNetworks,
    ThereAreNetworks,
    NetworksUpdated,
}

/// Commands of the reading task.
#[derive(Debug, Clone, Copy, PartialEq, Eq, Structural)]
pub enum DataCommandGet {
    GetEpoch,
    GetTotalOfNetworks,
}

/// Commands of the deleting task.
#[derive(Debug, Clone, PartialEq, Eq)]
pub enum DataCommandDelete {
    DeleteNetwork(String),
    DeleteAllHubByNetwork(String),
    DeleteHub(String),
}

/// Commands of the inserting task.
#[derive(Debug, Clone, PartialEq)]
pub enum DataCommandInsert {
    InsertNetwork(NetworkRow),
    UpdateNetwork(NetworkRow),
    NewEpoch(u32),
    InsertHub(HubRow),
    UpdateHub(HubRow),
}

/// The task of the storage service that handles a command.
#[derive(Debug, Clone, PartialEq)]
pub enum DataDispatch {
    /// Messages of the hubs to store.
    Store(HubMessage),
    /// Connectivity events for the reading task.
    Internal(InternalEvent),
    Insert(DataCommandInsert),
    Get(DataCommandGet),
    Delete(DataCommandDelete),
}

/// Which task handles a command: writes go to the inserting task, reads to
/// the reading task, removals to the deleting task.
pub open spec fn dispatch_rule(cmd: DataServiceCommand) -> DataDispatch {
    match cmd {
        DataServiceCommand::Hub(m) => DataDispatch::Store(m),
        DataServiceCommand::Internal(e) => DataDispatch::Internal(e),
        DataServiceCommand::NewEpoch(e) => DataDispatch::Insert(DataCommandInsert::NewEpoch(e)),
        DataServiceCommand::GetEpoch => DataDispatch::Get(DataCommandGet::GetEpoch),
        DataServiceCommand::NewHub(r) => DataDispatch::Insert(DataCommandInsert::InsertHub(r)),
        DataServiceCommand::DeleteHub(id) => DataDispatch::Delete(DataCommandDelete::DeleteHub(id)),
        DataServiceCommand::UpdateHub(r) => DataDispatch::Insert(DataCommandInsert::UpdateHub(r)),
        DataServiceCommand::NewNetwork(r) => DataDispatch::Insert(DataCommandInsert::InsertNetwork(r)),
        DataServiceCommand::DeleteNetwork(id) => DataDispatch::Delete(DataCommandDelete::DeleteNetwork(id)),
        DataServiceCommand::UpdateNetwork(r) => DataDispatch::Insert(DataCommandInsert::UpdateNetwork(r)),
        DataServiceCommand::DeleteAllHubByNetwork(id) => DataDispatch::Delete(
            DataCommandDelete::DeleteAllHubByNetwork(id),
        ),
        DataServiceCommand::GetTotalOfNetworks => DataDispatch::Get(DataCommandGet::GetTotalOfNetworks),
    }
}

/// Hands a command of the storage service to the task that handles it.
pub fn dispatch_data_command(cmd: DataServiceCommand) -> (d: DataDispatch)
    ensures
        d == dispatch_rule(cmd),
{
    match cmd {
        DataServiceCommand::Hub(m) => DataDispatch::Store(m),
        DataServiceCommand::Internal(e) => DataDispatch::Internal(e),
        DataServiceCommand::NewEpoch(e) => DataDispatch::Insert(DataCommandInsert::NewEpoch(e)),
        DataServiceCommand::GetEpoch => DataDispatch::Get(DataCommandGet::GetEpoch),
        DataServiceCommand::NewHub(r) => DataDispatch::Insert(DataCommandInsert::InsertHub(r)),
        DataServiceCommand::DeleteHub(id) => DataDispatch::Delete(DataCommandDelete::DeleteHub(id)),
        DataServiceCommand::UpdateHub(r) => DataDispatch::Insert(DataCommandInsert::UpdateHub(r)),
        DataServiceCommand::NewNetwork(r) => DataDispatch::Insert(DataCommandInsert::InsertNetwork(r)),
        DataServiceCommand::DeleteNetwork(id) => DataDispatch::Delete(DataCommandDelete::DeleteNetwork(id)),
        DataServiceCommand::UpdateNetwork(r) => DataDispatch::Insert(DataCommandInsert::UpdateNetwork(r)),
        DataServiceCommand::DeleteAllHubByNetwork(id) => DataDispatch::Delete(
            DataCommandDelete::DeleteAllHubByNetwork(id),
        ),
        DataServiceCommand::GetTotalOfNetworks => DataDispatch::Get(DataCommandGet::GetTotalOfNetworks),
    }
}

/// Every command reaches the task that handles it, carrying what it carried:
/// messages of the hubs are stored, connectivity events go to the reading
/// task, epochs, hubs and networks are written, read or removed as asked.
pub proof fn law_commands_reach_their_task(cmd: DataServiceCommand)
    ensures
        cmd matches DataServiceCommand::Hub(m) ==> dispatch_rule(cmd) == DataDispatch::Store(m),
        cmd matches DataServiceCommand::Internal(e) ==> dispatch_rule(cmd) == DataDispatch::Internal(e),
        cmd matches DataServiceCommand::NewEpoch(e) ==> dispatch_rule(cmd) == DataDispatch::Insert(
            DataCommandInsert::NewEpoch(e),
        ),
        cmd is GetEpoch ==> dispatch_rule(cmd) == DataDispatch::Get(DataCommandGet::GetEpoch),
        cmd matches DataServiceCommand::NewHub(r) ==> dispatch_rule(cmd) == DataDispatch::Insert(
            DataCommandInsert::InsertHub(r),
        ),
        cmd matches DataServiceCommand::UpdateHub(r) ==> dispatch_rule(cmd) == DataDispatch::Insert(
            DataCommandInsert::UpdateHub(r),
        ),
        cmd matches DataServiceCommand::DeleteHub(id) ==> dispatch_rule(cmd) == DataDispatch::Delete(
            DataCommandDelete::DeleteHub(id),
        ),
        cmd matches DataServiceCommand::NewNetwork(r) ==> dispatch_rule(cmd) == DataDispatch::Insert(
            DataCommandInsert::InsertNetwork(r),
        ),
        cmd matches DataServiceCommand::UpdateNetwork(r) ==> dispatch_rule(cmd) == DataDispatch::Insert(
            DataCommandInsert::UpdateNetwork(r),
        ),
        cmd matches DataServiceCommand::DeleteNetwork(id) ==> dispatch_rule(cmd) == DataDispatch::Delete(
            DataCommandDelete::DeleteNetwork(id),
        ),
        cmd matches DataServiceCommand::DeleteAllHubByNetwork(id) ==> dispatch_rule(cmd) == DataDispatch::Delete(
            DataCommandDelete::DeleteAllHubByNetwork(id),
        ),
        cmd is GetTotalOfNetworks ==> dispatch_rule(cmd) == DataDispatch::Get(DataCommandGet::GetTotalOfNetworks),
{
}

/// What the reading task remembers of the server's connection: its current
/// state and the state when stored data was last sent.
#[derive(Debug, Clone, Copy, PartialEq, Eq, Structural)]
pub struct SyncState {
    pub state: ServerStatus,
    pub old_state: ServerStatus,
}

impl SyncState {
    /// The starting point: disconnected, nothing sent.
    pub fn new() -> (s: Self)
        ensures
            s == (SyncState { state: ServerStatus::Disconnected, old_state: ServerStatus::Disconnected }),
    {
        SyncState { state: ServerStatus::Disconnected, old_state: ServerStatus::Disconnected }
    }
}

/// The rule of the reading task on a connectivity event: the state follows
/// the server, a disconnection also forgets the last send, and the stored
/// data is sent (and the send remembered) when the server is connected and
/// was disconnected at the last send.
pub open spec fn sync_rule(s: SyncState, e: InternalEvent) -> (SyncState, bool) {
    let t = match e {
        InternalEvent::ServerConnected => SyncState { state: ServerStatus::Connected, ..s },
        InternalEvent::ServerDisconnected => SyncState {
            state: ServerStatus::Disconnected,
            old_state: ServerStatus::Disconnected,
        },
        _ => s,
    };
    if t.state == ServerStatus::Connected && t.old_state == ServerStatus::Disconnected {
        (SyncState { old_state: t.state, ..t }, true)
    } else {
        (t, false)
    }
}

/// Handles a connectivity event of the reading task and tells whether the
/// stored data must be sent now.
pub fn on_connectivity(s: &mut SyncState, e: &InternalEvent) -> (send: bool)
    ensures
        (*final(s), send) == sync_rule(*old(s), *e),
{
    match e {
        InternalEvent::ServerConnected => {
            s.state = ServerStatus::Connected;
        },
        InternalEvent::ServerDisconnected => {
            s.state = ServerStatus::Disconnected;
            s.old_state = ServerStatus::Disconnected;
        },
        _ => {},
    }
    if s.state == ServerStatus::Connected && s.old_state == ServerStatus::Disconnected {
        s.old_state = s.state;
        true
    } else {
        false
    }
}

/// The answer to an epoch request: the stored epoch, or `ErrorEpoch` when it
/// could not be read.
pub fn epoch_answer(stored: Option<u32>) -> (r: DataServiceResponse)
    ensures
        r == match stored {
            Some(e) => DataServiceResponse::Epoch(e),
            None => DataServiceResponse::ErrorEpoch,
        },
{
    match stored {
        Some(e) => DataServiceResponse::Epoch(e),
        None => DataServiceResponse::ErrorEpoch,
    }
}

/// Stored data is sent once per reconnection: right after a send, another
/// event sends again only after a disconnection came in between.
pub proof fn law_send_once_per_reconnection(s: SyncState, e1: InternalEvent, e2: InternalEvent)
    requires
        sync_rule(s, e1).1,
        e2 != InternalEvent::ServerDisconnected,
    ensures
        !sync_rule(sync_rule(s, e1).0, e2).1,
{
}

/// A connection after a disconnection always sends the stored data.
pub proof fn law_reconnection_sends(s: SyncState)
    ensures
        sync_rule(sync_rule(s, InternalEvent::ServerDisconnected).0, InternalEvent::ServerConnected).1,
{
}

/// In every state the reading task reaches, the last send agrees with the
/// server's state: connected and sent, or disconnected with nothing pending.
pub open spec fn sync_consistent(s: SyncState) -> bool {
    s.state == s.old_state
}

/// The reading task starts consistent, every event keeps it so, and in a
/// consistent state an event sends exactly when it connects a disconnected
/// server; the state always follows the server.
pub proof fn law_sync_consistent(s: SyncState, e: InternalEvent)
    ensures
        sync_consistent(SyncState { state: ServerStatus::Disconnected, old_state: ServerStatus::Disconnected }),
        sync_consistent(s) ==> sync_consistent(sync_rule(s, e).0),
        sync_consistent(s) ==> (sync_rule(s, e).1 <==> (e == InternalEvent::ServerConnected && s.state
            == ServerStatus::Disconnected)),
        sync_rule(s, e).0.state == server_after(s.state, e),
{
}

/// The state and the number of sends after a run of events.
pub open spec fn sync_run(s: SyncState, events: Seq<InternalEvent>) -> (SyncState, nat)
    decreases events.len(),
{
    if events.len() == 0 {
        (s, 0)
    } else {
        let step = sync_rule(s, events[0]);
        let rest = sync_run(step.0, events.drop_first());
        (rest.0, rest.1 + if step.1 {
            1nat
        } else {
            0nat
        })
    }
}

/// How many times a run of events takes the server from disconnected to
/// connected, starting from `st`.
pub open spec fn reconnections(st: ServerStatus, events: Seq<InternalEvent>) -> nat
    decreases events.len(),
{
    if events.len() == 0 {
        0
    } else {
        let next = server_after(st, events[0]);
        reconnections(next, events.drop_first()) + if st == ServerStatus::Disconnected && next
            == ServerStatus::Connected {
            1nat
        } else {
            0nat
        }
    }
}

/// From the start, over any run of events, stored data is sent exactly once
/// per change of the server from disconnected to connected.
pub proof fn law_one_send_per_reconnection(events: Seq<InternalEvent>)
    ensures
        sync_run(SyncState { state: ServerStatus::Disconnected, old_state: ServerStatus::Disconnected }, events).1
            == reconnections(ServerStatus::Disconnected, events),
{
    lemma_sync_run(SyncState { state: ServerStatus::Disconnected, old_state: ServerStatus::Disconnected }, events);
}

proof fn lemma_sync_run(s: SyncState, events: Seq<InternalEvent>)
    requires
        sync_consistent(s),
    ensures
        sync_run(s, events).1 == reconnections(s.state, events),
    decreases events.len(),
{
    if events.len() > 0 {
        law_sync_consistent(s, events[0]);
        lemma_sync_run(sync_rule(s, events[0]).0, events.drop_first());
    }
}

} // verus!
