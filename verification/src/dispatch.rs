use vstd::prelude::*;
use crate::handler::PtyHandler;
use crate::winsize;

verus! {

/// One happening that the event-dispatch loop reacts to. The relay flows
/// and the scheduler publish these; the loop owns the observer and turns
/// them into observer calls.
pub enum ProxyEvent {
    /// a chunk read from the real standard input, republished on the input tap
    Input(Vec<u8>),
    /// a non-empty chunk read from the pty master, republished on the output tap
    Output(Vec<u8>),
    /// the output tap reached end-of-stream: the child closed its pty end
    OutputClosed,
    /// the output flow asked for shutdown explicitly after its last read
    ShutdownRequested,
    /// a scheduling tick, carrying the count of resize signals seen so far
    Tick(u64),
}

/// One call the engine owes the observer (a resize also re-queries and
/// re-applies the window size before the observer hears of it).
pub enum ObserverCall {
    /// deliver this chunk to the observer's input member
    Input(Vec<u8>),
    /// deliver this chunk to the observer's output member
    Output(Vec<u8>),
    /// query the terminal size, apply it to the pty master, and report it
    Resize,
    /// report the end of the session; owed at most once
    Shutdown,
}

/// The dispatch loop's state between events.
#[derive(PartialEq, Eq, Structural, Clone, Copy, Debug)]
pub struct EngineState {
    /// shutdown has been delivered and the loop is exiting
    pub done: bool,
    /// the resize-signal count the loop has already responded to
    pub seen_resizes: u64,
}

impl EngineState {
    /// A fresh engine: running, with the resize-signal count that stood at
    /// construction, so that signals from before the session are not replayed.
    pub fn new(initial_resizes: u64) -> (r: EngineState)
        ensures
            r == (EngineState { done: false, seen_resizes: initial_resizes }),
    {
        EngineState { done: false, seen_resizes: initial_resizes }
    }
}

/// The state after one event. `done` is absorbing: nothing restarts an
/// engine that has shut down. A tick moves the seen count up to the count it
/// carries; the chunks leave the state alone.
pub open spec fn step_state(st: EngineState, ev: ProxyEvent) -> EngineState {
    if st.done {
        st
    } else {
        match ev {
            ProxyEvent::Input(_) => st,
            ProxyEvent::Output(_) => st,
            ProxyEvent::OutputClosed => EngineState { done: true, ..st },
            ProxyEvent::ShutdownRequested => EngineState { done: true, ..st },
            ProxyEvent::Tick(c) => if c > st.seen_resizes {
                EngineState { seen_resizes: c, ..st }
            } else {
                st
            },
        }
    }
}

/// The call one event earns: nothing once the engine is done; each chunk its
/// delivery; the close of the output stream (or an explicit request) the one
/// shutdown; a tick one resize exactly when new signals arrived since the
/// last one, however many there were.
pub open spec fn step_call(st: EngineState, ev: ProxyEvent) -> Option<ObserverCall> {
    if st.done {
        None
    } else {
        match ev {
            ProxyEvent::Input(d) => Some(ObserverCall::Input(d)),
            ProxyEvent::Output(d) => Some(ObserverCall::Output(d)),
            ProxyEvent::OutputClosed => Some(ObserverCall::Shutdown),
            ProxyEvent::ShutdownRequested => Some(ObserverCall::Shutdown),
            ProxyEvent::Tick(c) => if c > st.seen_resizes {
                Some(ObserverCall::Resize)
            } else {
                None
            },
        }
    }
}

/// Advances the engine by one event and returns the call it earned.
pub fn step(st: &mut EngineState, ev: ProxyEvent) -> (call: Option<ObserverCall>)
    ensures
        *final(st) == step_state(*old(st), ev),
        call == step_call(*old(st), ev),
{
    if st.done {
        return None;
    }
    match ev {
        ProxyEvent::Input(d) => Some(ObserverCall::Input(d)),
        ProxyEvent::Output(d) => Some(ObserverCall::Output(d)),
        ProxyEvent::OutputClosed => {
            st.done = true;
            Some(ObserverCall::Shutdown)
        },
        ProxyEvent::ShutdownRequested => {
            st.done = true;
            Some(ObserverCall::Shutdown)
        },
        ProxyEvent::Tick(c) => {
            if c > st.seen_resizes {
                st.seen_resizes = c;
                Some(ObserverCall::Resize)
            } else {
                None
            }
        },
    }
}

/// The state after a whole event sequence.
pub open spec fn run_state(st: EngineState, evs: Seq<ProxyEvent>) -> EngineState
    decreases evs.len(),
{
    if evs.len() == 0 {
        st
    } else {
        run_state(step_state(st, evs[0]), evs.drop_first())
    }
}

/// The calls a whole event sequence earns, in order.
pub open spec fn run_calls(st: EngineState, evs: Seq<ProxyEvent>) -> Seq<ObserverCall>
    decreases evs.len(),
{
    if evs.len() == 0 {
        Seq::empty()
    } else {
        let rest = run_calls(step_state(st, evs[0]), evs.drop_first());
        match step_call(st, evs[0]) {
            Some(c) => seq![c] + rest,
            None => rest,
        }
    }
}

/// Advances the engine over a whole event sequence and returns the calls it
/// earned, in order: exactly what `run_calls` says of them.
pub fn dispatch_all(st: &mut EngineState, evs: Vec<ProxyEvent>) -> (calls: Vec<ObserverCall>)
    ensures
        *final(st) == run_state(*old(st), evs@),
        calls@ == run_calls(*old(st), evs@),
{
    let ghost st0 = *st;
    let ghost evs0 = evs@;
    let mut rest = evs;
    let mut calls: Vec<ObserverCall> = Vec::new();
    while rest.len() > 0
        invariant
            run_state(st0, evs0) == run_state(*st, rest@),
            run_calls(st0, evs0) == calls@ + run_calls(*st, rest@),
        decreases rest.len(),
    {
        let ghost st_before = *st;
        let ghost rest_before = rest@;
        let ev = rest.remove(0);
        let call = step(st, ev);
        proof {
            assert(rest_before[0] == ev);
            assert(rest_before.drop_first() == rest@);
        }
        match call {
            Some(c) => {
                let ghost calls_before = calls@;
                calls.push(c);
                proof {
                    assert(calls@ == calls_before + seq![c]);
                    assert(calls_before + (seq![c] + run_calls(*st, rest@))
                        == (calls_before + seq![c]) + run_calls(*st, rest@));
                }
            },
            None => {
            },
        }
    }
    calls
}

/// The events of an output source that yields these chunks, in order.
pub open spec fn output_events(chunks: Seq<Vec<u8>>) -> Seq<ProxyEvent> {
    chunks.map(|i: int, c: Vec<u8>| ProxyEvent::Output(c))
}

/// The deliveries those chunks are owed, in order.
pub open spec fn output_deliveries(chunks: Seq<Vec<u8>>) -> Seq<ObserverCall> {
    chunks.map(|i: int, c: Vec<u8>| ObserverCall::Output(c))
}

/// How many shutdown calls a call sequence holds.
pub open spec fn shutdown_count(calls: Seq<ObserverCall>) -> int
    decreases calls.len(),
{
    if calls.len() == 0 {
        0
    } else {
        (if calls[0] is Shutdown {
            1int
        } else {
            0
        }) + shutdown_count(calls.drop_first())
    }
}

/// An engine that has shut down delivers nothing more, whatever else comes.
pub proof fn lemma_done_engine_is_silent(st: EngineState, evs: Seq<ProxyEvent>)
    requires
        st.done,
    ensures
        run_calls(st, evs) == Seq::<ObserverCall>::empty(),
        run_state(st, evs) == st,
    decreases evs.len(),
{
    if evs.len() > 0 {
        assert(step_state(st, evs[0]) == st);
        lemma_done_engine_is_silent(st, evs.drop_first());
    }
}

/// Single shutdown delivery, first half: an output source that yields these
/// chunks and then closes earns exactly one delivery per chunk, in order,
/// and then exactly one shutdown.
pub proof fn lemma_single_shutdown_delivery(st: EngineState, chunks: Seq<Vec<u8>>)
    requires
        !st.done,
    ensures
        run_calls(st, output_events(chunks).push(ProxyEvent::OutputClosed)) =~= output_deliveries(
            chunks,
        ).push(ObserverCall::Shutdown),
    decreases chunks.len(),
{
    let evs = output_events(chunks).push(ProxyEvent::OutputClosed);
    if chunks.len() == 0 {
        assert(evs[0] == ProxyEvent::OutputClosed);
        let st1 = step_state(st, evs[0]);
        assert(st1.done);
        lemma_done_engine_is_silent(st1, evs.drop_first());
    } else {
        assert(evs[0] == ProxyEvent::Output(chunks[0]));
        assert(step_state(st, evs[0]) == st);
        assert(step_call(st, evs[0]) == Some(ObserverCall::Output(chunks[0])));
        assert(evs.drop_first() =~= output_events(chunks.drop_first()).push(
            ProxyEvent::OutputClosed,
        ));
        lemma_single_shutdown_delivery(st, chunks.drop_first());
        assert(output_deliveries(chunks).drop_first() =~= output_deliveries(chunks.drop_first()));
    }
}

/// Single shutdown delivery, second half: whatever events come, in whatever
/// order, a running engine delivers shutdown at most once, and one already
/// done never delivers it again.
pub proof fn lemma_shutdown_at_most_once(st: EngineState, evs: Seq<ProxyEvent>)
    ensures
        shutdown_count(run_calls(st, evs)) <= if st.done {
            0int
        } else {
            1
        },
    decreases evs.len(),
{
    if evs.len() > 0 {
        let st1 = step_state(st, evs[0]);
        let rest = run_calls(st1, evs.drop_first());
        lemma_shutdown_at_most_once(st1, evs.drop_first());
        match step_call(st, evs[0]) {
            Some(c) => {
                assert(run_calls(st, evs) == seq![c] + rest);
                assert((seq![c] + rest).drop_first() =~= rest);
                if c is Shutdown {
                    assert(st1.done);
                }
            },
            None => {
            },
        }
    }
}

/// True of an event sequence in which the output source never closes and no
/// explicit shutdown is requested: the chunks and ticks of a live session.
pub open spec fn live_events(evs: Seq<ProxyEvent>) -> bool {
    forall|i: int|
        0 <= i < evs.len() ==> !(#[trigger] evs[i] is OutputClosed) && !(evs[i]
            is ShutdownRequested)
}

/// The input chunks an event sequence carries, in order.
pub open spec fn event_inputs(evs: Seq<ProxyEvent>) -> Seq<Vec<u8>>
    decreases evs.len(),
{
    if evs.len() == 0 {
        Seq::empty()
    } else {
        let rest = event_inputs(evs.drop_first());
        match evs[0] {
            ProxyEvent::Input(d) => seq![d] + rest,
            _ => rest,
        }
    }
}

/// The output chunks an event sequence carries, in order.
pub open spec fn event_outputs(evs: Seq<ProxyEvent>) -> Seq<Vec<u8>>
    decreases evs.len(),
{
    if evs.len() == 0 {
        Seq::empty()
    } else {
        let rest = event_outputs(evs.drop_first());
        match evs[0] {
            ProxyEvent::Output(d) => seq![d] + rest,
            _ => rest,
        }
    }
}

/// The chunks a call sequence hands to the observer's input member, in order.
pub open spec fn call_inputs(calls: Seq<ObserverCall>) -> Seq<Vec<u8>>
    decreases calls.len(),
{
    if calls.len() == 0 {
        Seq::empty()
    } else {
        let rest = call_inputs(calls.drop_first());
        match calls[0] {
            ObserverCall::Input(d) => seq![d] + rest,
            _ => rest,
        }
    }
}

/// The chunks a call sequence hands to the observer's output member, in order.
pub open spec fn call_outputs(calls: Seq<ObserverCall>) -> Seq<Vec<u8>>
    decreases calls.len(),
{
    if calls.len() == 0 {
        Seq::empty()
    } else {
        let rest = call_outputs(calls.drop_first());
        match calls[0] {
            ObserverCall::Output(d) => seq![d] + rest,
            _ => rest,
        }
    }
}

/// Input/output independence: over any interleaving of input chunks, output
/// chunks and ticks of a live session, the observer's input member receives
/// exactly the input chunks, in order, and its output member exactly the
/// output chunks, in order; neither flow disturbs the other.
pub proof fn lemma_flow_independence(st: EngineState, evs: Seq<ProxyEvent>)
    requires
        !st.done,
        live_events(evs),
    ensures
        call_inputs(run_calls(st, evs)) =~= event_inputs(evs),
        call_outputs(run_calls(st, evs)) =~= event_outputs(evs),
    decreases evs.len(),
{
    if evs.len() > 0 {
        let st1 = step_state(st, evs[0]);
        assert(!st1.done);
        assert(live_events(evs.drop_first())) by {
            assert(forall|i: int|
                0 <= i < evs.drop_first().len() ==> #[trigger] evs.drop_first()[i] == evs[i + 1]);
        }
        lemma_flow_independence(st1, evs.drop_first());
        let rest = run_calls(st1, evs.drop_first());
        match step_call(st, evs[0]) {
            Some(c) => {
                assert(run_calls(st, evs) == seq![c] + rest);
                assert((seq![c] + rest).drop_first() =~= rest);
            },
            None => {
            },
        }
    }
}

/// Resize debounce: however many resize signals (two or more included) land
/// before the loop's next tick, that tick earns exactly one resize — which
/// re-queries the size, so it reflects the latest — and the tick after it,
/// with no new signals, earns none.
pub proof fn lemma_resize_debounce(st: EngineState, c: u64)
    requires
        !st.done,
        c > st.seen_resizes,
    ensures
        step_call(st, ProxyEvent::Tick(c)) == Some(ObserverCall::Resize),
        step_state(st, ProxyEvent::Tick(c)).seen_resizes == c,
        step_call(step_state(st, ProxyEvent::Tick(c)), ProxyEvent::Tick(c)) is None,
{
}

/// Performs one observer call: hands a chunk to the observer, or, for a
/// resize, re-queries the real terminal's window size, applies it to the pty
/// master, and reports the applied size. A resize whose query fails is
/// dropped, as the size it would report no longer stands.
pub fn deliver_call<H: PtyHandler>(h: &mut H, call: ObserverCall, master: &rustix::fd::OwnedFd) {
    match call {
        ObserverCall::Input(d) => h.input(d.as_slice()),
        ObserverCall::Output(d) => h.output(d.as_slice()),
        ObserverCall::Resize => {
            match winsize::query_stdin() {
                Ok(w) => {
                    let _ = winsize::set(master, &w);
                    h.resize(&w);
                },
                Err(_) => {
                },
            }
        },
        ObserverCall::Shutdown => h.shutdown(),
    }
}

/// One round of the dispatch loop: advances the engine by the event and
/// performs the call it earned. The caller loops until the state is done.
pub fn dispatch_event<H: PtyHandler>(
    st: &mut EngineState,
    ev: ProxyEvent,
    h: &mut H,
    master: &rustix::fd::OwnedFd,
)
    ensures
        *final(st) == step_state(*old(st), ev),
{
    let call = step(st, ev);
    match call {
        Some(c) => deliver_call(h, c, master),
        None => {
        },
    }
}

} // verus!
