use iot_edge::database::batch::{
    insert_step, telemetry_table, InsertAction, InsertBuffer, InsertEvent, TelemetryTable, BATCH_SIZE,
};
use iot_edge::message::domain::{AlertAir, AlertTh, HubMessage, Measurement, Metadata, Monitor, Ping};
use iot_edge::database::batch::{sort_by_vectors, TableDataVector};

#[test]
fn full_batch_flushes_and_resets() {
    let mut buf = InsertBuffer::new();
    for i in 1..BATCH_SIZE {
        let acts = insert_step(&mut buf, InsertEvent::Telemetry(TelemetryTable::Measurement));
        assert!(acts.is_empty());
        assert_eq!(buf.measurement, i);
    }
    let acts = insert_step(&mut buf, InsertEvent::Telemetry(TelemetryTable::Measurement));
    assert_eq!(acts, vec![InsertAction::Flush]);
    assert_eq!(buf, InsertBuffer::new());
}

#[test]
fn other_kinds_count_separately() {
    let mut buf = InsertBuffer { measurement: 48, monitor: 3, alert_air: 0, alert_th: 1 };
    let acts = insert_step(&mut buf, InsertEvent::Telemetry(TelemetryTable::AlertAir));
    assert!(acts.is_empty());
    assert_eq!(buf, InsertBuffer { measurement: 48, monitor: 3, alert_air: 1, alert_th: 1 });
}

#[test]
fn timer_flushes_only_waiting_data() {
    let mut buf = InsertBuffer::new();
    assert!(insert_step(&mut buf, InsertEvent::Tick).is_empty());
    insert_step(&mut buf, InsertEvent::Telemetry(TelemetryTable::Monitor));
    assert_eq!(insert_step(&mut buf, InsertEvent::Tick), vec![InsertAction::Flush]);
    assert!(buf.is_empty());
}

#[test]
fn network_writes_answer_the_core() {
    let mut buf = InsertBuffer { measurement: 2, monitor: 0, alert_air: 0, alert_th: 0 };
    let acts = insert_step(&mut buf, InsertEvent::NetworkWrite { networks_before: Some(0), written: true });
    assert_eq!(acts, vec![InsertAction::ThereAreNetworks, InsertAction::NetworksUpdated]);
    let acts = insert_step(&mut buf, InsertEvent::NetworkWrite { networks_before: Some(3), written: true });
    assert_eq!(acts, vec![InsertAction::NetworksUpdated]);
    let acts = insert_step(&mut buf, InsertEvent::NetworkWrite { networks_before: None, written: false });
    assert!(acts.is_empty());
    let acts = insert_step(&mut buf, InsertEvent::NetworkWrite { networks_before: Some(0), written: false });
    assert_eq!(acts, vec![InsertAction::ThereAreNetworks]);
    assert_eq!(buf.measurement, 2);
}

#[test]
fn messages_sorted_into_tables() {
    let md = Metadata { sender_user_id: "h".into(), destination_id: "e".into(), timestamp: 1 };
    let report = HubMessage::Report(Measurement { metadata: md.clone(), temperature: 21.5f32.to_bits(), ..Default::default() });
    assert_eq!(telemetry_table(&report), Some(TelemetryTable::Measurement));
    let alert = HubMessage::AlertAir(AlertAir { metadata: md.clone(), ..Default::default() });
    assert_eq!(telemetry_table(&alert), Some(TelemetryTable::AlertAir));
    let ping = HubMessage::Ping(Ping { metadata: md, network: "n".into(), ping: true });
    assert_eq!(telemetry_table(&ping), None);
}

#[test]
fn vectors_follow_the_counts() {
    let md = Metadata { sender_user_id: "h".into(), destination_id: "e".into(), timestamp: 1 };
    let mut tdv = TableDataVector::new();
    assert!(tdv.is_empty());
    sort_by_vectors(HubMessage::Monitor(Monitor { metadata: md.clone(), ..Default::default() }), &mut tdv);
    sort_by_vectors(HubMessage::AlertTem(AlertTh { metadata: md.clone(), ..Default::default() }), &mut tdv);
    sort_by_vectors(HubMessage::Ping(Ping { metadata: md.clone(), network: "n".into(), ping: true }), &mut tdv);
    assert_eq!(tdv.monitor.len(), 1);
    assert_eq!(tdv.alert_th.len(), 1);
    assert!(tdv.measurement.is_empty());
    assert!(!tdv.is_some_vector_full());
    for _ in 1..BATCH_SIZE {
        sort_by_vectors(HubMessage::Monitor(Monitor { metadata: md.clone(), ..Default::default() }), &mut tdv);
    }
    assert!(tdv.is_some_vector_full());
    tdv.clear();
    assert!(tdv.is_empty());
    let popped = TableDataVector::new_pop(vec![Measurement::default()], vec![], vec![], vec![]);
    assert_eq!(popped.measurement.len(), 1);
}
