use pty_shell::dispatch::{dispatch_all, dispatch_event, step, EngineState, ObserverCall, ProxyEvent};
use pty_shell::handler::{NoopHandler, PtyHandler};
use pty_shell::session::{input_round_of, output_round_of, FlowRound};
use pty_shell::winsize::Winsize;

struct CollectHandler {
    inputs: Vec<Vec<u8>>,
    outputs: Vec<Vec<u8>>,
    resizes: usize,
    shutdowns: usize,
}

impl CollectHandler {
    fn new() -> CollectHandler {
        CollectHandler { inputs: Vec::new(), outputs: Vec::new(), resizes: 0, shutdowns: 0 }
    }
}

impl PtyHandler for CollectHandler {
    fn input(&mut self, data: &[u8]) {
        self.inputs.push(data.to_vec());
    }

    fn output(&mut self, data: &[u8]) {
        self.outputs.push(data.to_vec());
    }

    fn resize(&mut self, _size: &Winsize) {
        self.resizes += 1;
    }

    fn shutdown(&mut self) {
        self.shutdowns += 1;
    }
}

fn output_payloads(calls: &[ObserverCall]) -> Vec<Vec<u8>> {
    let mut r = Vec::new();
    for c in calls {
        if let ObserverCall::Output(d) = c {
            r.push(d.clone());
        }
    }
    r
}

fn input_payloads(calls: &[ObserverCall]) -> Vec<Vec<u8>> {
    let mut r = Vec::new();
    for c in calls {
        if let ObserverCall::Input(d) = c {
            r.push(d.clone());
        }
    }
    r
}

fn shutdown_count(calls: &[ObserverCall]) -> usize {
    calls.iter().filter(|c| matches!(c, ObserverCall::Shutdown)).count()
}

#[test]
fn single_shutdown_for_chunks_then_close() {
    let mut st = EngineState::new(0);
    let evs = vec![
        ProxyEvent::Output(b"one".to_vec()),
        ProxyEvent::Output(b"two".to_vec()),
        ProxyEvent::Output(b"three".to_vec()),
        ProxyEvent::OutputClosed,
    ];
    let calls = dispatch_all(&mut st, evs);
    assert_eq!(calls.len(), 4);
    assert_eq!(
        output_payloads(&calls),
        vec![b"one".to_vec(), b"two".to_vec(), b"three".to_vec()]
    );
    assert_eq!(shutdown_count(&calls), 1);
    assert!(matches!(calls[3], ObserverCall::Shutdown));
    assert!(st.done);
}

#[test]
fn nothing_after_shutdown() {
    let mut st = EngineState::new(0);
    let evs = vec![
        ProxyEvent::Output(b"last".to_vec()),
        ProxyEvent::OutputClosed,
        ProxyEvent::Output(b"late".to_vec()),
        ProxyEvent::OutputClosed,
        ProxyEvent::ShutdownRequested,
        ProxyEvent::Input(b"key".to_vec()),
        ProxyEvent::Tick(9),
    ];
    let calls = dispatch_all(&mut st, evs);
    assert_eq!(calls.len(), 2);
    assert_eq!(output_payloads(&calls), vec![b"last".to_vec()]);
    assert_eq!(shutdown_count(&calls), 1);
}

#[test]
fn flows_are_independent() {
    let mut st = EngineState::new(0);
    let evs = vec![
        ProxyEvent::Input(b"i1".to_vec()),
        ProxyEvent::Output(b"o1".to_vec()),
        ProxyEvent::Input(b"i2".to_vec()),
        ProxyEvent::Tick(0),
        ProxyEvent::Output(b"o2".to_vec()),
        ProxyEvent::Input(b"i3".to_vec()),
    ];
    let calls = dispatch_all(&mut st, evs);
    assert_eq!(
        input_payloads(&calls),
        vec![b"i1".to_vec(), b"i2".to_vec(), b"i3".to_vec()]
    );
    assert_eq!(output_payloads(&calls), vec![b"o1".to_vec(), b"o2".to_vec()]);
    assert_eq!(shutdown_count(&calls), 0);
    assert!(!st.done);
}

#[test]
fn resize_debounce_one_call_per_tick() {
    let mut st = EngineState::new(0);
    // two signals landed before the tick: the count jumped from 0 to 2
    let first = step(&mut st, ProxyEvent::Tick(2));
    assert!(matches!(first, Some(ObserverCall::Resize)));
    assert_eq!(st.seen_resizes, 2);
    // the next tick with no new signals earns nothing
    let second = step(&mut st, ProxyEvent::Tick(2));
    assert!(second.is_none());
    // one more signal earns exactly one more resize
    let third = step(&mut st, ProxyEvent::Tick(3));
    assert!(matches!(third, Some(ObserverCall::Resize)));
}

#[test]
fn stale_tick_is_silent() {
    let mut st = EngineState::new(5);
    assert!(step(&mut st, ProxyEvent::Tick(4)).is_none());
    assert!(step(&mut st, ProxyEvent::Tick(5)).is_none());
    assert_eq!(st.seen_resizes, 5);
}

#[test]
fn deliver_reaches_handler_in_order() {
    let fd = rustix::pty::openpt(rustix::pty::OpenptFlags::RDWR | rustix::pty::OpenptFlags::NOCTTY)
        .unwrap();
    let mut st = EngineState::new(0);
    let mut h = CollectHandler::new();
    let evs = vec![
        ProxyEvent::Input(b"ls\n".to_vec()),
        ProxyEvent::Output(b"file\n".to_vec()),
        ProxyEvent::Output(b"done\n".to_vec()),
        ProxyEvent::OutputClosed,
        ProxyEvent::Output(b"late".to_vec()),
    ];
    for ev in evs {
        dispatch_event(&mut st, ev, &mut h, &fd);
    }
    assert_eq!(h.inputs, vec![b"ls\n".to_vec()]);
    assert_eq!(h.outputs, vec![b"file\n".to_vec(), b"done\n".to_vec()]);
    assert_eq!(h.shutdowns, 1);
    assert!(h.outputs.iter().all(|c| !c.is_empty()));
}

#[test]
fn silent_observer_survives_session() {
    let fd = rustix::pty::openpt(rustix::pty::OpenptFlags::RDWR | rustix::pty::OpenptFlags::NOCTTY)
        .unwrap();
    let mut st = EngineState::new(0);
    let mut h = NoopHandler;
    let evs = vec![
        ProxyEvent::Output(b"quiet\n".to_vec()),
        ProxyEvent::Input(b"q".to_vec()),
        ProxyEvent::Tick(1),
        ProxyEvent::OutputClosed,
    ];
    for ev in evs {
        dispatch_event(&mut st, ev, &mut h, &fd);
    }
    assert!(st.done);
}

#[test]
fn input_round_forwards_and_publishes_verbatim() {
    let d = input_round_of(b"ls -l\n".to_vec());
    assert_eq!(d.round, FlowRound::Continue);
    assert_eq!(d.write, Some(b"ls -l\n".to_vec()));
    match d.publish {
        Some(ProxyEvent::Input(bytes)) => assert_eq!(bytes, b"ls -l\n".to_vec()),
        _ => panic!("the chunk must be published as an input event"),
    }
}

#[test]
fn input_round_closes_quietly_at_end_of_stream() {
    let d = input_round_of(Vec::new());
    assert_eq!(d.round, FlowRound::Closed);
    assert!(d.write.is_none());
    // the end of the input flow never requests shutdown
    assert!(d.publish.is_none());
}

#[test]
fn output_round_echoes_and_publishes_verbatim() {
    let d = output_round_of(b"prompt$ ".to_vec());
    assert_eq!(d.round, FlowRound::Continue);
    assert_eq!(d.write, Some(b"prompt$ ".to_vec()));
    match d.publish {
        Some(ProxyEvent::Output(bytes)) => assert_eq!(bytes, b"prompt$ ".to_vec()),
        _ => panic!("the chunk must be published as an output event"),
    }
}

#[test]
fn output_round_requests_shutdown_on_close() {
    let d = output_round_of(Vec::new());
    assert_eq!(d.round, FlowRound::Closed);
    assert!(d.write.is_none());
    assert!(matches!(d.publish, Some(ProxyEvent::ShutdownRequested)));
}
