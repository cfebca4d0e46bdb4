use iot_edge::fsm::domain::Event;
use iot_edge::fsm::runtime::{timer_command, watchdog_step, WatchdogInput, WatchdogState, WatchdogStep};

/// Runs a watchdog over a sequence of inputs; returns the number of timeouts
/// sent and whether the watchdog ended.
fn run(inputs: Vec<WatchdogInput>) -> (usize, bool) {
    let mut state = WatchdogState::Idle;
    let mut timeouts = 0;
    for i in inputs {
        match watchdog_step(state, i) {
            WatchdogStep::Continue { next, timeout } => {
                state = next;
                if timeout {
                    timeouts += 1;
                }
            },
            WatchdogStep::Stop => return (timeouts, true),
        }
    }
    (timeouts, false)
}

fn cmd(e: Event) -> WatchdogInput {
    WatchdogInput::Command(Some(timer_command(e)))
}

#[test]
fn test_watchdog_timer_timeout_normal() {
    let (timeouts, _) = run(vec![cmd(Event::InitTimer(50)), WatchdogInput::Elapsed]);
    assert_eq!(timeouts, 1, "Se esperaba evento Timeout");
}

#[test]
fn test_watchdog_timer_cancelacion() {
    let (timeouts, _) = run(vec![cmd(Event::InitTimer(200)), cmd(Event::StopTimer), WatchdogInput::Elapsed]);
    assert_eq!(timeouts, 0, "No debería recibir ningún evento después de cancelar");
}

#[test]
fn test_watchdog_timer_multiples_ciclos() {
    let mut inputs = Vec::new();
    for _ in 0..3 {
        inputs.push(cmd(Event::InitTimer(50)));
        inputs.push(WatchdogInput::Elapsed);
    }
    let (timeouts, _) = run(inputs);
    assert_eq!(timeouts, 3);
}

#[test]
fn test_watchdog_timer_stop_antes_de_init() {
    let (timeouts, ended) = run(vec![cmd(Event::StopTimer), cmd(Event::InitTimer(50)), WatchdogInput::Elapsed]);
    assert_eq!(timeouts, 1);
    assert!(!ended);
}

#[test]
fn test_watchdog_timer_canal_cerrado() {
    let (_, ended) = run(vec![WatchdogInput::Command(None)]);
    assert!(ended, "El watchdog debería terminar cuando se cierra el canal");
}

#[test]
fn test_watchdog_timer_evento_invalido_ignorado() {
    let (timeouts, _) = run(vec![cmd(Event::WaitOk), cmd(Event::InitTimer(50)), WatchdogInput::Elapsed]);
    assert_eq!(timeouts, 1, "Se esperaba Timeout a pesar del evento inválido previo");
}

#[test]
fn test_watchdog_timer_reinicio_rapido() {
    let (timeouts, _) = run(vec![
        cmd(Event::InitTimer(100)),
        cmd(Event::StopTimer),
        cmd(Event::InitTimer(50)),
        WatchdogInput::Elapsed,
    ]);
    assert_eq!(timeouts, 1, "Se esperaba Timeout del segundo timer");
}
