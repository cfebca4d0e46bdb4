//! Batching of telemetry writes: readings, health reports and alerts are
//! held in memory and written together, when one kind has gathered a full
//! batch or when the flush timer fires with something waiting.

use vstd::prelude::*;
use crate::message::domain::{AlertAir, AlertTh, HubMessage, Measurement, Monitor};

verus! {

/// Number of records of one kind that makes a full batch.
pub const BATCH_SIZE: usize = 49;

/// Seconds between two timer-driven flushes.
pub const FLUSH_INTERVAL_SECS: u64 = 300;

/// The table that a kind of telemetry record is written to.
#[derive(Debug, Clone, Copy, PartialEq, Eq, Structural)]
pub enum TelemetryTable {
    Measurement,
    Monitor,
    AlertAir,
    AlertTh,
}

/// The table of a message of the hubs, for the messages that are telemetry.
pub open spec fn table_of(m: HubMessage) -> Option<TelemetryTable> {
    match m {
        HubMessage::Report(_) => Some(TelemetryTable::Measurement),
        HubMessage::Monitor(_) => Some(TelemetryTable::Monitor),
        HubMessage::AlertAir(_) => Some(TelemetryTable::AlertAir),
        HubMessage::AlertTem(_) => Some(TelemetryTable::AlertTh),
        _ => None,
    }
}

/// Sorts a message of the hubs into its table; other messages are not stored.
pub fn telemetry_table(m: &HubMessage) -> (t: Option<TelemetryTable>)
    ensures
        t == table_of(*m),
{
    match m {
        HubMessage::Report(_) => Some(TelemetryTable::Measurement),
        HubMessage::Monitor(_) => Some(TelemetryTable::Monitor),
        HubMessage::AlertAir(_) => Some(TelemetryTable::AlertAir),
        HubMessage::AlertTem(_) => Some(TelemetryTable::AlertTh),
        _ => None,
    }
}

/// How many records of each kind wait in memory.
#[derive(Debug, Clone, Copy, PartialEq, Eq, Structural)]
pub struct InsertBuffer {
    pub measurement: usize,
    pub monitor: usize,
    pub alert_air: usize,
    pub alert_th: usize,
}

impl InsertBuffer {
    /// No kind holds a full batch: a full one is always written at once.
    pub open spec fn wf(self) -> bool {
        &&& self.measurement < BATCH_SIZE
        &&& self.monitor < BATCH_SIZE
        &&& self.alert_air < BATCH_SIZE
        &&& self.alert_th < BATCH_SIZE
    }

    pub open spec fn is_empty_spec(self) -> bool {
        self.measurement == 0 && self.monitor == 0 && self.alert_air == 0 && self.alert_th == 0
    }

    pub open spec fn some_full_spec(self) -> bool {
        self.measurement == BATCH_SIZE || self.monitor == BATCH_SIZE || self.alert_air == BATCH_SIZE
            || self.alert_th == BATCH_SIZE
    }

    /// The buffer with one more record of kind `t`.
    pub open spec fn add(self, t: TelemetryTable) -> InsertBuffer {
        match t {
            TelemetryTable::Measurement => InsertBuffer { measurement: (self.measurement + 1) as usize, ..self },
            TelemetryTable::Monitor => InsertBuffer { monitor: (self.monitor + 1) as usize, ..self },
            TelemetryTable::AlertAir => InsertBuffer { alert_air: (self.alert_air + 1) as usize, ..self },
            TelemetryTable::AlertTh => InsertBuffer { alert_th: (self.alert_th + 1) as usize, ..self },
        }
    }

    /// An empty buffer.
    pub fn new() -> (b: Self)
        ensures
            b == empty_buffer(),
    {
        InsertBuffer { measurement: 0, monitor: 0, alert_air: 0, alert_th: 0 }
    }

    /// Whether no record waits.
    pub fn is_empty(&self) -> (r: bool)
        ensures
            r == self.is_empty_spec(),
    {
        self.measurement == 0 && self.monitor == 0 && self.alert_air == 0 && self.alert_th == 0
    }

    /// Whether some kind holds a full batch.
    pub fn is_some_vector_full(&self) -> (r: bool)
        ensures
            r == self.some_full_spec(),
    {
        self.measurement == BATCH_SIZE || self.monitor == BATCH_SIZE || self.alert_air == BATCH_SIZE
            || self.alert_th == BATCH_SIZE
    }
}

pub open spec fn empty_buffer() -> InsertBuffer {
    InsertBuffer { measurement: 0, monitor: 0, alert_air: 0, alert_th: 0 }
}

/// Telemetry records waiting to be written, or read back to be sent, by table.
#[derive(Clone, Debug, Default, PartialEq, Eq)]
pub struct TableDataVector {
    pub measurement: Vec<Measurement>,
    pub alert_air: Vec<AlertAir>,
    pub alert_th: Vec<AlertTh>,
    pub monitor: Vec<Monitor>,
}

impl TableDataVector {
    /// How many records of each kind the vectors hold.
    pub open spec fn counts(&self) -> InsertBuffer {
        InsertBuffer {
            measurement: self.measurement@.len() as usize,
            monitor: self.monitor@.len() as usize,
            alert_air: self.alert_air@.len() as usize,
            alert_th: self.alert_th@.len() as usize,
        }
    }

    /// Empty vectors.
    pub fn new() -> (t: Self)
        ensures
            t.measurement@ == Seq::<Measurement>::empty(),
            t.alert_air@ == Seq::<AlertAir>::empty(),
            t.alert_th@ == Seq::<AlertTh>::empty(),
            t.monitor@ == Seq::<Monitor>::empty(),
    {
        TableDataVector { measurement: Vec::new(), alert_air: Vec::new(), alert_th: Vec::new(), monitor: Vec::new() }
    }

    /// The given vectors, as a batch.
    pub fn new_pop(
        measurement: Vec<Measurement>,
        alert_air: Vec<AlertAir>,
        alert_th: Vec<AlertTh>,
        monitor: Vec<Monitor>,
    ) -> (t: Self)
        ensures
            t.measurement@ == measurement@,
            t.alert_air@ == alert_air@,
            t.alert_th@ == alert_th@,
            t.monitor@ == monitor@,
    {
        TableDataVector { measurement, alert_air, alert_th, monitor }
    }

    /// Whether every vector is empty.
    pub fn is_empty(&self) -> (r: bool)
        ensures
            r == self.counts().is_empty_spec(),
    {
        self.measurement.len() == 0 && self.monitor.len() == 0 && self.alert_air.len() == 0 && self.alert_th.len()
            == 0
    }

    /// Whether some vector holds a full batch.
    pub fn is_some_vector_full(&self) -> (r: bool)
        ensures
            r == self.counts().some_full_spec(),
    {
        self.measurement.len() == BATCH_SIZE || self.monitor.len() == BATCH_SIZE || self.alert_air.len() == BATCH_SIZE
            || self.alert_th.len() == BATCH_SIZE
    }

    /// Empties every vector.
    pub fn clear(&mut self)
        ensures
            final(self).measurement@ == Seq::<Measurement>::empty(),
            final(self).alert_air@ == Seq::<AlertAir>::empty(),
            final(self).alert_th@ == Seq::<AlertTh>::empty(),
            final(self).monitor@ == Seq::<Monitor>::empty(),
    {
        self.measurement.clear();
        self.alert_air.clear();
        self.alert_th.clear();
        self.monitor.clear();
    }
}

/// Appends a telemetry message of the hubs to the vector of its table; any
/// other message leaves the vectors unchanged.
pub fn sort_by_vectors(msg: HubMessage, tdv: &mut TableDataVector)
    ensures
        final(tdv).measurement@ == (if msg is Report {
            old(tdv).measurement@.push(msg->Report_0)
        } else {
            old(tdv).measurement@
        }),
        final(tdv).monitor@ == (if msg is Monitor {
            old(tdv).monitor@.push(msg->Monitor_0)
        } else {
            old(tdv).monitor@
        }),
        final(tdv).alert_air@ == (if msg is AlertAir {
            old(tdv).alert_air@.push(msg->AlertAir_0)
        } else {
            old(tdv).alert_air@
        }),
        final(tdv).alert_th@ == (if msg is AlertTem {
            old(tdv).alert_th@.push(msg->AlertTem_0)
        } else {
            old(tdv).alert_th@
        }),
{
    match msg {
        HubMessage::Report(r) => tdv.measurement.push(r),
        HubMessage::Monitor(m) => tdv.monitor.push(m),
        HubMessage::AlertAir(a) => tdv.alert_air.push(a),
        HubMessage::AlertTem(a) => tdv.alert_th.push(a),
        _ => {},
    }
}

/// Sorting a telemetry message into the vectors counts one more record of its
/// table, as the batching rule counts it; other messages count nothing.
pub proof fn law_sorting_counts_like_the_rule(msg: HubMessage, before: TableDataVector, after: TableDataVector)
    requires
        before.counts().wf(),
        after.measurement@ == (if msg is Report {
            before.measurement@.push(msg->Report_0)
        } else {
            before.measurement@
        }),
        after.monitor@ == (if msg is Monitor {
            before.monitor@.push(msg->Monitor_0)
        } else {
            before.monitor@
        }),
        after.alert_air@ == (if msg is AlertAir {
            before.alert_air@.push(msg->AlertAir_0)
        } else {
            before.alert_air@
        }),
        after.alert_th@ == (if msg is AlertTem {
            before.alert_th@.push(msg->AlertTem_0)
        } else {
            before.alert_th@
        }),
    ensures
        table_of(msg) matches Some(t) ==> after.counts() == before.counts().add(t),
        table_of(msg) is None ==> after.counts() == before.counts(),
{
    assert(before.measurement.len() == before.measurement@.len());
    assert(before.monitor.len() == before.monitor@.len());
    assert(before.alert_air.len() == before.alert_air@.len());
    assert(before.alert_th.len() == before.alert_th@.len());
}

/// What the inserting task is told.
#[derive(Debug, Clone, Copy, PartialEq, Eq, Structural)]
pub enum InsertEvent {
    /// A telemetry record of the given kind arrived and was buffered.
    Telemetry(TelemetryTable),
    /// The flush timer fired.
    Tick,
    /// A network was inserted or updated: the number of networks stored before
    /// the write (`None` when it could not be read) and whether the write succeeded.
    NetworkWrite { networks_before: Option<u64>, written: bool },
}

/// What the inserting task does.
#[derive(Debug, Clone, Copy, PartialEq, Eq, Structural)]
pub enum InsertAction {
    /// Write every buffered record to the database and empty the buffer.
    Flush,
    /// Tell the core that networks exist now where there were none.
    ThereAreNetworks,
    /// Tell the core that the stored networks changed.
    NetworksUpdated,
}

/// The rule of the inserting task. A record that completes a full batch of
/// its kind flushes the buffer; the timer flushes it when something waits;
/// a network write announces networks when none were stored before it and
/// announces the change when it succeeded. A flush leaves every count at zero.
pub open spec fn insert_rule(b: InsertBuffer, e: InsertEvent) -> (InsertBuffer, Seq<InsertAction>) {
    match e {
        InsertEvent::Telemetry(t) => if b.add(t).some_full_spec() {
            (empty_buffer(), seq![InsertAction::Flush])
        } else {
            (b.add(t), seq![])
        },
        InsertEvent::Tick => if b.is_empty_spec() {
            (b, seq![])
        } else {
            (empty_buffer(), seq![InsertAction::Flush])
        },
        InsertEvent::NetworkWrite { networks_before, written } => (
            b,
            (if networks_before == Some(0u64) {
                seq![InsertAction::ThereAreNetworks]
            } else {
                seq![]
            }) + (if written {
                seq![InsertAction::NetworksUpdated]
            } else {
                seq![]
            }),
        ),
    }
}

/// One decision of the inserting task.
pub fn insert_step(buf: &mut InsertBuffer, e: InsertEvent) -> (acts: Vec<InsertAction>)
    requires
        old(buf).wf(),
    ensures
        (*final(buf), acts@) == insert_rule(*old(buf), e),
        final(buf).wf(),
{
    let mut acts: Vec<InsertAction> = Vec::new();
    match e {
        InsertEvent::Telemetry(t) => {
            match t {
                TelemetryTable::Measurement => buf.measurement = buf.measurement + 1,
                TelemetryTable::Monitor => buf.monitor = buf.monitor + 1,
                TelemetryTable::AlertAir => buf.alert_air = buf.alert_air + 1,
                TelemetryTable::AlertTh => buf.alert_th = buf.alert_th + 1,
            }
            if buf.is_some_vector_full() {
                *buf = InsertBuffer::new();
                acts.push(InsertAction::Flush);
            }
        },
        InsertEvent::Tick => {
            if !buf.is_empty() {
                *buf = InsertBuffer::new();
                acts.push(InsertAction::Flush);
            }
        },
        InsertEvent::NetworkWrite { networks_before, written } => {
            if networks_before == Some(0u64) {
                acts.push(InsertAction::ThereAreNetworks);
            }
            if written {
                acts.push(InsertAction::NetworksUpdated);
            }
        },
    }
    proof {
        assert(acts@ =~= insert_rule(*old(buf), e).1);
    }
    acts
}

/// No record waits longer than the next timer tick: after a tick the buffer is
/// empty, and it was flushed exactly when something waited.
pub proof fn law_tick_empties(b: InsertBuffer)
    requires
        b.wf(),
    ensures
        insert_rule(b, InsertEvent::Tick).0 == empty_buffer(),
        insert_rule(b, InsertEvent::Tick).1 == (if b.is_empty_spec() {
            seq![]
        } else {
            seq![InsertAction::Flush]
        }),
{
}

/// A record that does not complete a batch is only counted; the one that does
/// flushes, so no kind ever holds more than a batch.
pub proof fn law_telemetry_counts(b: InsertBuffer, t: TelemetryTable)
    requires
        b.wf(),
    ensures
        insert_rule(b, InsertEvent::Telemetry(t)).0.wf(),
        !b.add(t).some_full_spec() ==> insert_rule(b, InsertEvent::Telemetry(t)) == (b.add(t), Seq::<InsertAction>::empty()),
        b.add(t).some_full_spec() ==> insert_rule(b, InsertEvent::Telemetry(t)).1 == seq![InsertAction::Flush],
{
}

/// A network write never touches the buffered telemetry.
pub proof fn law_network_write_keeps_buffer(b: InsertBuffer, before: Option<u64>, written: bool)
    ensures
        insert_rule(b, InsertEvent::NetworkWrite { networks_before: before, written }).0 == b,
{
}

} // verus!
