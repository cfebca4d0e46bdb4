use iot_edge::database::domain::{epoch_answer, on_connectivity, DataServiceResponse, SyncState};
use iot_edge::message::domain::ServerStatus;
use iot_edge::metrics::domain::{read_wifi_signal, WifiSignal};
use iot_edge::system::domain::InternalEvent;

fn table(rows: &[&str]) -> Vec<String> {
    let mut v = vec![
        "Inter-| sta-|   Quality        |   Discarded packets               | Missed | WE".to_string(),
        " face | tus | link level noise |  nwid  crypt   frag  retry   misc | beacon | 22".to_string(),
    ];
    v.extend(rows.iter().map(|r| r.to_string()));
    v
}

#[test]
fn wifi_signal_of_interface() {
    let t = table(&["wlan0: 0000   70.   -42.  -256     0      0       0      0      0        0"]);
    assert_eq!(read_wifi_signal(&t, "wlan0"), Some(WifiSignal { rssi: 70, dbm: -42 }));
    assert_eq!(read_wifi_signal(&t, "wlan1"), None);
}

#[test]
fn wifi_signal_first_matching_line_decides() {
    let t = table(&["eth0: 0 1. 2.", "  wlan0: 0000 55... -60. x", "wlan0: 0000 1. 1."]);
    assert_eq!(read_wifi_signal(&t, "wlan0"), Some(WifiSignal { rssi: 55, dbm: -60 }));
    let broken = table(&["wlan0: 0000 abc. -60.", "wlan0: 0000 1. 1."]);
    assert_eq!(read_wifi_signal(&broken, "wlan0"), None);
    let short = table(&["wlan0: 0000 70."]);
    assert_eq!(read_wifi_signal(&short, "wlan0"), None);
}

#[test]
fn wifi_signal_skips_headers() {
    let only_headers = vec!["wlan0: 0 1. 2.".to_string(), "wlan0: 0 1. 2.".to_string()];
    assert_eq!(read_wifi_signal(&only_headers, "wlan0"), None);
    assert_eq!(read_wifi_signal(&vec![], "wlan0"), None);
}

#[test]
fn stored_data_sent_once_per_reconnection() {
    let mut s = SyncState::new();
    assert!(on_connectivity(&mut s, &InternalEvent::ServerConnected));
    assert!(!on_connectivity(&mut s, &InternalEvent::ServerConnected));
    assert!(!on_connectivity(&mut s, &InternalEvent::LocalConnected));
    assert!(!on_connectivity(&mut s, &InternalEvent::ServerDisconnected));
    assert_eq!(s.state, ServerStatus::Disconnected);
    assert!(on_connectivity(&mut s, &InternalEvent::ServerConnected));
}

#[test]
fn epoch_answers() {
    assert_eq!(epoch_answer(Some(4)), DataServiceResponse::Epoch(4));
    assert_eq!(epoch_answer(None), DataServiceResponse::ErrorEpoch);
}
