use vstd::prelude::*;
use crate::command::{env_line, exec as exec_plan, exec_with_env as exec_with_env_plan, ExecPlan};
use crate::dispatch::ProxyEvent;
use crate::envmap::EnvMap;
use crate::error::Error;

verus! {

/// The pty crate's fork handle: one branch of a forked process bound to a
/// pseudo-terminal pair. Opaque here; dropping the parent branch closes the
/// master end.
#[verifier::external_type_specification]
#[verifier::external_body]
pub struct ExFork(pty::fork::Fork);

/// The pty crate's master end of a pseudo-terminal: a copyable descriptor
/// handle the parent reads the child's output from and writes its input to.
#[verifier::external_type_specification]
#[verifier::external_body]
pub struct ExMaster(pty::fork::Master);

/// The std error for descriptor reads and writes. Opaque here; only the OS
/// errno is copied out of it.
#[verifier::external_type_specification]
#[verifier::external_body]
pub struct ExIoError(std::io::Error);

/// The sending end of a std channel, here the tap the relay flows publish
/// events on for the dispatch loop.
#[verifier::external_type_specification]
#[verifier::external_body]
#[verifier::reject_recursive_types(T)]
pub struct ExSender<T>(std::sync::mpsc::Sender<T>);

/// Relies on pty::fork::Fork::from_ptmx: allocates a pseudo-terminal pair
/// and forks the process; the parent branch holds the master end (copied out
/// here by matching the branch), the child branch runs on the slave end,
/// attached to its standard streams.
#[verifier::external_body]
fn fork_from_ptmx() -> Result<(pty::fork::Fork, Option<pty::fork::Master>), pty::fork::ForkError> {
    match pty::fork::Fork::from_ptmx() {
        Ok(f) => {
            let m = match &f {
                pty::fork::Fork::Parent(_, master) => Some(*master),
                pty::fork::Fork::Child(_) => None,
            };
            Ok((f, m))
        },
        Err(e) => Err(e),
    }
}

/// Relies on pty::fork::Fork::wait: blocks until the child process exits and
/// reaps it, returning its pid; in the child branch it fails at once.
#[verifier::external_body]
fn fork_wait(f: &pty::fork::Fork) -> Result<i32, pty::fork::ForkError> {
    f.wait()
}

/// Relies on the std::io::Read impl of pty::fork::Master: reads up to `max`
/// bytes from the pty master. That impl reports end-of-stream and a read
/// error alike as zero bytes, so the empty chunk means the stream is over.
#[verifier::external_body]
fn master_read_chunk(m: &pty::fork::Master, max: usize) -> (r: Vec<u8>)
    ensures
        r@.len() <= max,
{
    let mut mm = *m;
    let mut buf = vec![0u8; max];
    let n = std::io::Read::read(&mut mm, &mut buf).unwrap_or(0);
    buf.truncate(n);
    buf
}

/// Relies on the std::io::Write impl of pty::fork::Master: writes the whole
/// chunk to the pty master.
#[verifier::external_body]
fn master_write_all(m: &pty::fork::Master, data: &[u8]) -> Result<(), std::io::Error> {
    let mut mm = *m;
    std::io::Write::write_all(&mut mm, data)
}

/// Relies on std::io::stdin and std::io::Read::read: reads up to `max` bytes
/// from the real standard input; zero bytes means end-of-stream.
#[verifier::external_body]
fn stdin_read_chunk(max: usize) -> (r: Result<Vec<u8>, std::io::Error>)
    ensures
        r matches Ok(v) ==> v@.len() <= max,
{
    let mut buf = vec![0u8; max];
    let n = std::io::Read::read(&mut std::io::stdin(), &mut buf)?;
    buf.truncate(n);
    Ok(buf)
}

/// Relies on std::io::stdout and std::io::Write::write_all: writes the whole
/// chunk to the real standard output.
#[verifier::external_body]
fn stdout_write_all(data: &[u8]) -> Result<(), std::io::Error> {
    std::io::Write::write_all(&mut std::io::stdout(), data)
}

/// Relies on std::io::stdout and std::io::Write::flush: flushes the real
/// standard output; best effort, as the original bytes are already written.
#[verifier::external_body]
fn stdout_flush() {
    let _ = std::io::Write::flush(&mut std::io::stdout());
}

/// Relies on std::io::Error::raw_os_error: the OS errno of the failure,
/// where the OS gave one.
#[verifier::external_body]
fn io_error_code(e: &std::io::Error) -> Option<i32> {
    e.raw_os_error()
}

/// Relies on std::sync::mpsc::Sender::send: publishes the event to the
/// receiving end; fails only when the receiver is gone.
#[verifier::external_body]
fn tap_send(s: &std::sync::mpsc::Sender<ProxyEvent>, ev: ProxyEvent) -> Result<(), ()> {
    match s.send(ev) {
        Ok(()) => Ok(()),
        Err(_) => Err(()),
    }
}

/// The library's error for a failed descriptor operation: the OS errno where
/// one was given, a negative marker where none was.
fn io_error(e: &std::io::Error) -> (r: Error)
    ensures
        r is Io,
{
    match io_error_code(e) {
        Some(c) => Error::Io(c),
        None => Error::Io(-1),
    }
}

/// Which branch of the fork a session value lives in.
#[derive(PartialEq, Eq, Structural, Clone, Copy, Debug)]
pub enum SessionRole {
    /// the recording process, holder of the pty master
    Parent,
    /// the process that will load the shell's image
    Child,
}

/// One forked child bound to a pseudo-terminal. The role is captured once at
/// construction; the master end exists exactly in the parent role.
pub struct PtySession {
    role: SessionRole,
    fork: pty::fork::Fork,
    master: Option<pty::fork::Master>,
}

impl PtySession {
    /// The master end exists exactly in the parent role.
    #[verifier::type_invariant]
    pub closed spec fn wf(self) -> bool {
        self.role is Parent <==> self.master is Some
    }

    /// Which branch this value lives in.
    pub closed spec fn spec_role(self) -> SessionRole {
        self.role
    }

    /// Allocates a pseudo-terminal and forks: afterwards two processes run,
    /// one getting the parent session and one the child session.
    pub fn create() -> (r: Result<PtySession, Error>)
        ensures
            r matches Err(e) ==> e is Pty,
    {
        match fork_from_ptmx() {
            Ok((fork, Some(master))) => Ok(
                PtySession { role: SessionRole::Parent, fork, master: Some(master) },
            ),
            Ok((fork, None)) => Ok(PtySession { role: SessionRole::Child, fork, master: None }),
            Err(e) => Err(Error::Pty(e)),
        }
    }

    /// True in the recording process.
    pub fn is_parent(&self) -> (r: bool)
        ensures
            r == (self.spec_role() is Parent),
    {
        matches!(self.role, SessionRole::Parent)
    }

    /// True in the process that will load the shell.
    pub fn is_child(&self) -> (r: bool)
        ensures
            r == (self.spec_role() is Child),
    {
        matches!(self.role, SessionRole::Child)
    }

    /// The master end: present exactly in the parent role.
    pub fn master(&self) -> (r: Option<pty::fork::Master>)
        ensures
            (r is Some) == (self.spec_role() is Parent),
    {
        proof {
            use_type_invariant(self);
        }
        self.master
    }

    /// Blocks until the child process exits and reaps it. Valid in the
    /// parent role; in the child role, and on a failed wait call, it errs.
    pub fn wait(&self) -> (r: Result<i32, Error>)
        ensures
            r matches Err(e) ==> e is Pty,
    {
        match fork_wait(&self.fork) {
            Ok(pid) => Ok(pid),
            Err(e) => Err(Error::Pty(e)),
        }
    }

    /// The exec image this session owes its child branch: the shell under
    /// the inherited environment in the child role, nothing in the parent
    /// role, which keeps its own image.
    pub fn exec(&self, shell: &str) -> (r: Option<ExecPlan>)
        ensures
            self.spec_role() is Parent ==> r is None,
            self.spec_role() is Child ==> (r matches Some(p) && p.program@ == shell@
                && p.env_lines is None),
    {
        if self.is_child() {
            Some(exec_plan(shell))
        } else {
            None
        }
    }

    /// The exec image with an environment override: as `exec`, with one
    /// "NAME=value" line per binding of the given map, in insertion order;
    /// an absent map means the current environment is inherited unchanged.
    pub fn exec_with_env(&self, shell: &str, env: Option<EnvMap>) -> (r: Option<ExecPlan>)
        ensures
            self.spec_role() is Parent ==> r is None,
            self.spec_role() is Child ==> (r matches Some(p) && p.program@ == shell@ && (env
                is None ==> p.env_lines is None) && (env matches Some(m) ==> (
            p.env_lines matches Some(lines) && lines@.len() == m@.len() && forall|i: int|
                0 <= i < m@.len() ==> (#[trigger] lines@[i])@ == env_line(m@[i])))),
    {
        if self.is_child() {
            Some(exec_with_env_plan(shell, env))
        } else {
            None
        }
    }
}

/// One round of either relay flow: whether the flow goes on or its source
/// is exhausted. Each flow is the loop of its rounds, run on a background
/// execution unit for the life of the session.
#[derive(PartialEq, Eq, Structural, Clone, Copy, Debug)]
pub enum FlowRound {
    /// the source yielded a chunk and may yield more
    Continue,
    /// the source reached end-of-stream; the flow is over
    Closed,
}

/// What one relay round owes, fixed entirely by the chunk its read
/// returned: whether the flow goes on, the bytes owed to the flow's sink
/// (the pty master for the input flow, standard output for the output
/// flow), and the event owed to the tap.
pub struct RelayDecision {
    /// whether the flow goes on or is over
    pub round: FlowRound,
    /// the bytes to hand to the flow's sink, verbatim
    pub write: Option<Vec<u8>>,
    /// the event to publish on the tap
    pub publish: Option<ProxyEvent>,
}

/// The outcome one input-flow round owes for the chunk read from the real
/// standard input: the empty chunk is end-of-stream, which closes the flow
/// with nothing forwarded and nothing published; any other chunk keeps the
/// flow going, is owed verbatim to the pty master, and is published
/// verbatim as an input event, so the observer sees exactly the stdin
/// chunks in read order. The input flow never requests shutdown: its end
/// does not end the session.
pub fn input_round_of(chunk: Vec<u8>) -> (r: RelayDecision)
    ensures
        chunk@.len() == 0 ==> r.round is Closed && r.write is None && r.publish is None,
        chunk@.len() > 0 ==> r.round is Continue && (r.write matches Some(w) && w@ == chunk@) && (
        r.publish matches Some(ProxyEvent::Input(d)) && d@ == chunk@),
        r.publish matches Some(ev) ==> ev is Input,
{
    if chunk.len() == 0 {
        RelayDecision { round: FlowRound::Closed, write: None, publish: None }
    } else {
        let forwarded = crate::recording::slice_to_vec(chunk.as_slice());
        RelayDecision {
            round: FlowRound::Continue,
            write: Some(forwarded),
            publish: Some(ProxyEvent::Input(chunk)),
        }
    }
}

/// The outcome one output-flow round owes for the chunk read from the pty
/// master: the empty chunk means the child exited and closed its pty end
/// (the master reports read errors the same way), which closes the flow,
/// echoes nothing, and publishes the one shutdown request that ends a
/// session; any other chunk keeps the flow going, is owed verbatim to the
/// real standard output, and is published verbatim as an output event, so
/// the observer sees exactly the child's chunks in read order. The shutdown
/// request is published exactly on the empty chunk.
pub fn output_round_of(chunk: Vec<u8>) -> (r: RelayDecision)
    ensures
        chunk@.len() == 0 ==> r.round is Closed && r.write is None && r.publish == Some(
            ProxyEvent::ShutdownRequested,
        ),
        chunk@.len() > 0 ==> r.round is Continue && (r.write matches Some(w) && w@ == chunk@) && (
        r.publish matches Some(ProxyEvent::Output(d)) && d@ == chunk@),
        (r.publish == Some(ProxyEvent::ShutdownRequested)) == (chunk@.len() == 0),
{
    if chunk.len() == 0 {
        RelayDecision {
            round: FlowRound::Closed,
            write: None,
            publish: Some(ProxyEvent::ShutdownRequested),
        }
    } else {
        let echoed = crate::recording::slice_to_vec(chunk.as_slice());
        RelayDecision {
            round: FlowRound::Continue,
            write: Some(echoed),
            publish: Some(ProxyEvent::Output(chunk)),
        }
    }
}

/// One round of the input flow: reads a chunk of up to 128 bytes from the
/// real standard input and performs what `input_round_of` fixes for it —
/// the chunk verbatim to the pty master, then verbatim to the tap, or the
/// close of the flow at end-of-stream. What the round does with each
/// possible chunk is `input_round_of`'s contract; this function only states
/// what holds whatever the read returned, as the read is the terminal's to
/// decide. An error ends the flow but not the session.
pub fn handle_input(
    master: &pty::fork::Master,
    tap: &std::sync::mpsc::Sender<ProxyEvent>,
) -> (r: Result<FlowRound, Error>)
    ensures
        r matches Err(e) ==> e is Io,
{
    let chunk = match stdin_read_chunk(128) {
        Ok(c) => c,
        Err(e) => {
            return Err(io_error(&e));
        },
    };
    let decision = input_round_of(chunk);
    if let Some(bytes) = decision.write {
        if let Err(e) = master_write_all(master, bytes.as_slice()) {
            return Err(io_error(&e));
        }
    }
    if let Some(ev) = decision.publish {
        if tap_send(tap, ev).is_err() {
            return Err(Error::Io(-1));
        }
    }
    Ok(decision.round)
}

/// One round of the output flow: reads a chunk of up to 10 KiB from the pty
/// master and performs what `output_round_of` fixes for it — the chunk
/// verbatim to the real standard output (then a best-effort flush), then
/// verbatim to the tap, or, on the zero-length read that means the child
/// exited, the one shutdown request. What the round does with each possible
/// chunk is `output_round_of`'s contract; this function only states what
/// holds whatever the read returned. A failed write to standard output ends
/// the flow and still sends the shutdown request, as the session cannot go
/// on without its output side.
pub fn handle_output(
    master: &pty::fork::Master,
    tap: &std::sync::mpsc::Sender<ProxyEvent>,
) -> (r: Result<FlowRound, Error>)
    ensures
        r matches Err(e) ==> e is Io,
{
    let chunk = master_read_chunk(master, 10240);
    let decision = output_round_of(chunk);
    if let Some(bytes) = decision.write {
        if let Err(e) = stdout_write_all(bytes.as_slice()) {
            let _ = tap_send(tap, ProxyEvent::ShutdownRequested);
            return Err(io_error(&e));
        }
        stdout_flush();
    }
    if let Some(ev) = decision.publish {
        if tap_send(tap, ev).is_err() {
            return Err(Error::Io(-1));
        }
    }
    Ok(decision.round)
}

} // verus!
