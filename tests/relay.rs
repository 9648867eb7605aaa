use shim::relay::{Relay, RelayAction, RelayEvent, RelayPhase};

/// Drives a relay over the given chunks with sinks that always succeed,
/// collecting what each sink received.
fn run(chunks: &[&[u8]]) -> (Vec<u8>, Vec<u8>, Vec<RelayAction>) {
    let mut relay = Relay::new();
    let mut console = Vec::new();
    let mut log = Vec::new();
    let mut actions = Vec::new();
    let mut next = 0;
    let mut action = relay.start();
    loop {
        actions.push(action);
        let ev = match action {
            RelayAction::Read => {
                let d = if next < chunks.len() { chunks[next].to_vec() } else { Vec::new() };
                next += 1;
                RelayEvent::Read(d)
            }
            RelayAction::WriteConsole => {
                console.extend_from_slice(relay.pending());
                RelayEvent::Done
            }
            RelayAction::FlushConsole => RelayEvent::Done,
            RelayAction::WriteLog => {
                log.extend_from_slice(relay.pending());
                RelayEvent::Done
            }
            RelayAction::Finish | RelayAction::Abort => break,
        };
        action = relay.step(ev);
    }
    (console, log, actions)
}

#[test]
fn relay_copies_echo_output_to_both_sinks() {
    let (console, log, actions) = run(&[b"world hello\n"]);
    assert_eq!(console, b"world hello\n");
    assert_eq!(log, b"world hello\n");
    assert_eq!(
        actions,
        vec![
            RelayAction::Read,
            RelayAction::WriteConsole,
            RelayAction::FlushConsole,
            RelayAction::WriteLog,
            RelayAction::Read,
            RelayAction::Finish
        ]
    );
}

#[test]
fn relay_keeps_byte_order_across_chunks() {
    let (console, log, _) = run(&[b"ab", &[0, 255, 10], b"c"]);
    assert_eq!(console, vec![b'a', b'b', 0, 255, 10, b'c']);
    assert_eq!(log, console);
}

#[test]
fn relay_of_empty_stream_finishes_at_once() {
    let (console, log, actions) = run(&[]);
    assert!(console.is_empty());
    assert!(log.is_empty());
    assert_eq!(actions, vec![RelayAction::Read, RelayAction::Finish]);
}

#[test]
fn relay_is_deterministic() {
    let a = run(&[b"x", b"yz"]);
    let b = run(&[b"x", b"yz"]);
    assert_eq!(a, b);
}

#[test]
fn relay_aborts_on_read_failure() {
    let mut r = Relay::new();
    assert_eq!(r.step(RelayEvent::Failed), RelayAction::Abort);
    assert_eq!(r.phase(), RelayPhase::Aborted);
}

#[test]
fn relay_aborts_on_console_write_failure() {
    let mut r = Relay::new();
    assert_eq!(r.step(RelayEvent::Read(b"abc".to_vec())), RelayAction::WriteConsole);
    assert_eq!(r.pending(), b"abc");
    assert_eq!(r.step(RelayEvent::Failed), RelayAction::Abort);
}

#[test]
fn relay_aborts_on_log_write_failure() {
    let mut r = Relay::new();
    r.step(RelayEvent::Read(b"abc".to_vec()));
    r.step(RelayEvent::Done);
    assert_eq!(r.step(RelayEvent::Done), RelayAction::WriteLog);
    assert_eq!(r.step(RelayEvent::Failed), RelayAction::Abort);
    assert_eq!(r.phase(), RelayPhase::Aborted);
}

#[test]
fn relay_aborts_on_unexpected_event() {
    let mut r = Relay::new();
    assert_eq!(r.step(RelayEvent::Done), RelayAction::Abort);
    let mut r = Relay::new();
    r.step(RelayEvent::Read(b"q".to_vec()));
    assert_eq!(r.step(RelayEvent::Read(b"z".to_vec())), RelayAction::Abort);
}
