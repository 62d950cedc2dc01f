use vstd::prelude::*;
use vstd::utf8::valid_utf8;

verus! {

/// Relies on std str::from_utf8: it succeeds exactly on well-formed UTF-8.
#[verifier::external_body]
pub(crate) fn utf8_check(data: &[u8]) -> (r: bool)
    ensures
        r == valid_utf8(data@),
{
    std::str::from_utf8(data).is_ok()
}

/// A span of time as whole seconds and nanoseconds within the second: the
/// timestamp precision a recording carries.
#[derive(PartialEq, Eq, Structural, Clone, Copy, Debug)]
pub struct TimeVal {
    /// whole seconds
    pub secs: u64,
    /// nanoseconds within the second, below one billion
    pub nanos: u32,
}

/// The kind of a recorded event.
#[derive(PartialEq, Eq, Structural, Clone, Copy, Debug)]
pub enum EventType {
    /// a chunk the user typed
    Input,
    /// a chunk the child wrote
    Output,
}

/// The metadata of one recording, written once at its head.
pub struct RecHeader {
    /// the recording format generation
    pub version: u32,
    /// terminal width in columns
    pub width: u32,
    /// terminal height in rows
    pub height: u32,
    /// seconds since the epoch when the recording began, where known
    pub timestamp: Option<i64>,
    /// the recording's title, where the user gave one
    pub title: Option<String>,
}

/// One recorded event: when it happened, which flow it came from, and its
/// bytes, which are well-formed UTF-8 for any event a session accepts.
pub struct RecEntry {
    /// time since the recording began
    pub time: TimeVal,
    /// which flow the bytes came from
    pub event_type: EventType,
    /// the bytes of the chunk
    pub event_data: Vec<u8>,
}

/// The event an output chunk becomes, stamped with the elapsed time: accepted
/// exactly when the chunk is well-formed UTF-8, as the recording formats
/// store events as text.
pub fn make_output_entry(time: TimeVal, data: &[u8]) -> (r: Option<RecEntry>)
    ensures
        (r is Some) == valid_utf8(data@),
        r matches Some(e) ==> e.time == time && e.event_type is Output && e.event_data@ == data@,
{
    if utf8_check(data) {
        Some(RecEntry { time, event_type: EventType::Output, event_data: slice_to_vec(data) })
    } else {
        None
    }
}

/// The event an input chunk becomes, stamped with the elapsed time.
pub fn make_input_entry(time: TimeVal, data: &[u8]) -> (r: Option<RecEntry>)
    ensures
        (r is Some) == valid_utf8(data@),
        r matches Some(e) ==> e.time == time && e.event_type is Input && e.event_data@ == data@,
{
    if utf8_check(data) {
        Some(RecEntry { time, event_type: EventType::Input, event_data: slice_to_vec(data) })
    } else {
        None
    }
}

/// A copy of the slice as an owned vector.
pub(crate) fn slice_to_vec(data: &[u8]) -> (r: Vec<u8>)
    ensures
        r@ == data@,
{
    let mut v: Vec<u8> = Vec::new();
    let n = data.len();
    let mut i: usize = 0;
    while i < n
        invariant
            i <= n,
            n == data@.len(),
            v@ == data@.take(i as int),
        decreases n - i,
    {
        let b = data[i];
        v.push(b);
        proof {
            assert(data@.take(i as int).push(data@[i as int]) =~= data@.take(i as int + 1));
        }
        i = i + 1;
    }
    proof {
        assert(data@.take(n as int) =~= data@);
    }
    v
}

/// A message from a recording session to the writers of the output formats.
pub enum Msg {
    /// write the recording's head
    Header(RecHeader),
    /// record a chunk the user typed
    Input(RecEntry),
    /// record a chunk the child wrote
    Output(RecEntry),
    /// the session is over; finish the file
    Finish,
}

/// What a format writer does after one message.
#[derive(PartialEq, Eq, Structural, Clone, Copy, Debug)]
pub enum LoopAction {
    /// leave the writer loop
    Stop,
    /// await the next message
    Continue,
}

/// One message handled the way the raw format writes: no head, event bytes
/// verbatim in arrival order, stop on the finishing message.
pub fn handle_raw_message(out: &mut Vec<u8>, message: Msg) -> (r: LoopAction)
    ensures
        message is Finish ==> r is Stop && final(out)@ == old(out)@,
        message is Header ==> r is Continue && final(out)@ == old(out)@,
        message matches Msg::Input(e) ==> r is Continue && final(out)@ == old(out)@
            + e.event_data@,
        message matches Msg::Output(e) ==> r is Continue && final(out)@ == old(out)@
            + e.event_data@,
{
    match message {
        Msg::Finish => LoopAction::Stop,
        Msg::Header(_) => LoopAction::Continue,
        Msg::Input(e) => {
            append_bytes(out, e.event_data.as_slice());
            LoopAction::Continue
        },
        Msg::Output(e) => {
            append_bytes(out, e.event_data.as_slice());
            LoopAction::Continue
        },
    }
}

/// Appends the chunk to the buffer.
fn append_bytes(out: &mut Vec<u8>, data: &[u8])
    ensures
        final(out)@ == old(out)@ + data@,
{
    let n = data.len();
    let mut i: usize = 0;
    while i < n
        invariant
            i <= n,
            n == data@.len(),
            out@ == old(out)@ + data@.take(i as int),
        decreases n - i,
    {
        let b = data[i];
        out.push(b);
        proof {
            assert((old(out)@ + data@.take(i as int)).push(data@[i as int]) =~= old(out)@
                + data@.take(i as int + 1));
        }
        i = i + 1;
    }
    proof {
        assert(old(out)@ + data@.take(n as int) =~= old(out)@ + data@);
    }
}

/// A raw recording: the child's output bytes verbatim, nothing else — no
/// head, no timestamps, no input. It collects into an owned buffer that the
/// surrounding program drains to its writer.
pub struct RawSession {
    out: Vec<u8>,
}

impl View for RawSession {
    type V = Seq<u8>;

    closed spec fn view(&self) -> Seq<u8> {
        self.out@
    }
}

impl RawSession {
    /// A raw recording with nothing written yet.
    pub fn new() -> (r: RawSession)
        ensures
            r@ == Seq::<u8>::empty(),
    {
        RawSession { out: Vec::new() }
    }

    /// The raw format has no head: writing one writes nothing and succeeds.
    pub fn write_header(&mut self, _header: &RecHeader) -> (r: Result<(), ()>)
        ensures
            r is Ok,
            final(self)@ == old(self)@,
    {
        Ok(())
    }

    /// Appends an output chunk verbatim: accepted exactly when it is
    /// well-formed UTF-8, as the original stream must have been; a rejected
    /// chunk changes nothing.
    pub fn write_output(&mut self, data: &[u8]) -> (r: Result<(), ()>)
        ensures
            (r is Ok) == valid_utf8(data@),
            valid_utf8(data@) ==> final(self)@ == old(self)@ + data@,
            !valid_utf8(data@) ==> final(self)@ == old(self)@,
    {
        if utf8_check(data) {
            append_bytes(&mut self.out, data);
            Ok(())
        } else {
            Err(())
        }
    }

    /// The raw format keeps no input: writing one writes nothing and succeeds.
    pub fn write_input(&mut self, _data: &[u8]) -> (r: Result<(), ()>)
        ensures
            r is Ok,
            final(self)@ == old(self)@,
    {
        Ok(())
    }

    /// Ends the recording; the raw format owes nothing at the end.
    pub fn end(&mut self) -> (r: Result<(), ()>)
        ensures
            r is Ok,
            final(self)@ == old(self)@,
    {
        Ok(())
    }

    /// The bytes recorded so far.
    pub fn contents(&self) -> (r: &Vec<u8>)
        ensures
            r@ == self@,
    {
        &self.out
    }
}

} // verus!
