//! The output pump of one session: what each read from the session's output
//! stream leads to.
//!
//! The pump is a state machine. The host reads the stream and hands each
//! outcome to `Pump::step`, which says what to do next: publish the output,
//! read again, or publish the exit of the session and stop.

use vstd::prelude::*;
use vstd::utf8::{decode_utf8, valid_utf8};

verus! {

/// The most bytes that one read of the output stream asks for.
pub const READ_CHUNK_SIZE: usize = 8192;

/// The exit code reported when the output stream ended.
pub const CLEAN_EXIT: i32 = 0;

/// The exit code reported when reading the output stream failed: a sentinel,
/// not the status of the process.
pub const ABNORMAL_EXIT: i32 = -1;

/// The name under which output of a session is published.
pub fn output_event_name() -> (name: &'static str)
    ensures
        name@ == "terminal-output"@,
{
    "terminal-output"
}

/// The name under which the exit of a session is published.
pub fn exit_event_name() -> (name: &'static str)
    ensures
        name@ == "terminal-exit"@,
{
    "terminal-exit"
}

/// What one read of the output stream came to.
#[derive(Clone, Debug, PartialEq, Eq)]
pub enum ReadOutcome {
    /// The read returned these bytes. None at all means that the stream ended.
    Data(Vec<u8>),
    /// The read was interrupted before it returned anything.
    Interrupted,
    /// The read failed for any other reason.
    Failed,
}

/// The mathematical value of a `ReadOutcome`.
pub enum ReadEvent {
    Data(Seq<u8>),
    Interrupted,
    Failed,
}

impl View for ReadOutcome {
    type V = ReadEvent;

    open spec fn view(&self) -> ReadEvent {
        match *self {
            ReadOutcome::Data(bytes) => ReadEvent::Data(bytes@),
            ReadOutcome::Interrupted => ReadEvent::Interrupted,
            ReadOutcome::Failed => ReadEvent::Failed,
        }
    }
}

/// Output of a session, as text.
#[derive(Clone, Debug, PartialEq, Eq)]
pub struct TerminalOutputEvent {
    /// The session that wrote the output.
    pub session_id: String,
    /// The output, decoded lossily.
    pub data: String,
}

/// The end of a session.
#[derive(Clone, Debug, PartialEq, Eq)]
pub struct TerminalExitEvent {
    /// The session that ended.
    pub session_id: String,
    /// `CLEAN_EXIT` where the stream ended, `ABNORMAL_EXIT` where reading it failed.
    pub exit_code: i32,
    /// The signal that ended the process. The pump never knows one.
    pub signal: Option<u32>,
}

/// What the host does after a read.
#[derive(Clone, Debug, PartialEq, Eq)]
pub enum PumpAction {
    /// Publish the output, then read again.
    Emit(TerminalOutputEvent),
    /// Read again at once.
    Retry,
    /// Take the session out of the registry, publish its exit, and stop reading.
    Exit(TerminalExitEvent),
    /// Nothing: the pump had stopped before.
    Stopped,
}

/// The mathematical value of a `PumpAction`.
pub enum PumpActionView {
    Emit { session_id: Seq<char>, data: Seq<char> },
    Retry,
    Exit { session_id: Seq<char>, exit_code: i32, signal: Option<u32> },
    Stopped,
}

impl View for PumpAction {
    type V = PumpActionView;

    open spec fn view(&self) -> PumpActionView {
        match *self {
            PumpAction::Emit(event) => PumpActionView::Emit {
                session_id: event.session_id@,
                data: event.data@,
            },
            PumpAction::Retry => PumpActionView::Retry,
            PumpAction::Exit(event) => PumpActionView::Exit {
                session_id: event.session_id@,
                exit_code: event.exit_code,
                signal: event.signal,
            },
            PumpAction::Stopped => PumpActionView::Stopped,
        }
    }
}

/// What `String::from_utf8_lossy` makes of bytes that are not valid UTF-8:
/// the text in which each invalid sequence is replaced by U+FFFD.
pub uninterp spec fn utf8_lossy(bytes: Seq<u8>) -> Seq<char>;

/// The lossy decoding of `bytes`: the text that they encode where they are
/// valid UTF-8, and the text with replacements where they are not.
pub open spec fn lossy_text(bytes: Seq<u8>) -> Seq<char> {
    if valid_utf8(bytes) {
        decode_utf8(bytes)
    } else {
        utf8_lossy(bytes)
    }
}

/// Calls `String::from_utf8_lossy`.
///
/// Trusted: valid UTF-8 decodes to the text it encodes; of other bytes only
/// the name of the result is stated.
#[verifier::external_body]
fn decode_lossy(bytes: &[u8]) -> (text: String)
    ensures
        text@ == lossy_text(bytes@),
        !valid_utf8(bytes@) ==> text@ == utf8_lossy(bytes@),
{
    String::from_utf8_lossy(bytes).into_owned()
}

/// The exit of `session_id` with `exit_code`, without a signal.
pub open spec fn exit_action(session_id: Seq<char>, exit_code: i32) -> PumpActionView {
    PumpActionView::Exit { session_id, exit_code, signal: None }
}

/// What a read leads to while the pump runs. Bytes are published as text;
/// the end of the stream ends the session cleanly; an interrupted read is
/// made again; any other failure ends the session with the sentinel code.
pub open spec fn pump_action(session_id: Seq<char>, outcome: ReadEvent) -> PumpActionView {
    match outcome {
        ReadEvent::Data(bytes) => if bytes.len() == 0 {
            exit_action(session_id, CLEAN_EXIT)
        } else {
            PumpActionView::Emit { session_id, data: lossy_text(bytes) }
        },
        ReadEvent::Interrupted => PumpActionView::Retry,
        ReadEvent::Failed => exit_action(session_id, ABNORMAL_EXIT),
    }
}

/// The state of a pump.
pub struct PumpView {
    /// The session whose output is pumped.
    pub session_id: Seq<char>,
    /// Whether the exit of the session has been announced.
    pub finished: bool,
}

/// One step of the pump: the state after `outcome`, and what to do. A pump
/// that has announced the exit does nothing more.
pub open spec fn pump_step(state: PumpView, outcome: ReadEvent) -> (PumpView, PumpActionView) {
    if state.finished {
        (state, PumpActionView::Stopped)
    } else {
        let action = pump_action(state.session_id, outcome);
        (PumpView { session_id: state.session_id, finished: action is Exit }, action)
    }
}

/// The pump run over `outcomes` from `state`: the state it ends in, and what
/// it asked for after each read.
pub open spec fn pump_run(state: PumpView, outcomes: Seq<ReadEvent>) -> (PumpView, Seq<
    PumpActionView,
>)
    decreases outcomes.len(),
{
    if outcomes.len() == 0 {
        (state, Seq::empty())
    } else {
        let (before, actions) = pump_run(state, outcomes.drop_last());
        let (after, action) = pump_step(before, outcomes.last());
        (after, actions.push(action))
    }
}

/// A pump before its first read.
pub open spec fn fresh_pump(session_id: Seq<char>) -> PumpView {
    PumpView { session_id, finished: false }
}

/// Decides what a read leads to while the pump of `session_id` runs.
pub fn decide(session_id: &str, outcome: ReadOutcome) -> (action: PumpAction)
    ensures
        action@ == pump_action(session_id@, outcome@),
{
    match outcome {
        ReadOutcome::Data(bytes) => {
            if bytes.len() == 0 {
                PumpAction::Exit(
                    TerminalExitEvent {
                        session_id: session_id.to_owned(),
                        exit_code: CLEAN_EXIT,
                        signal: None,
                    },
                )
            } else {
                PumpAction::Emit(
                    TerminalOutputEvent {
                        session_id: session_id.to_owned(),
                        data: decode_lossy(bytes.as_slice()),
                    },
                )
            }
        },
        ReadOutcome::Interrupted => PumpAction::Retry,
        ReadOutcome::Failed => PumpAction::Exit(
            TerminalExitEvent {
                session_id: session_id.to_owned(),
                exit_code: ABNORMAL_EXIT,
                signal: None,
            },
        ),
    }
}

/// The output pump of one session.
pub struct Pump {
    session_id: String,
    finished: bool,
}

impl View for Pump {
    type V = PumpView;

    closed spec fn view(&self) -> PumpView {
        PumpView { session_id: self.session_id@, finished: self.finished }
    }
}

impl Pump {
    /// The pump of `session_id`, before its first read.
    pub fn new(session_id: String) -> (pump: Pump)
        ensures
            pump@ == fresh_pump(session_id@),
    {
        Pump { session_id, finished: false }
    }

    /// The session whose output is pumped.
    pub fn session_id(&self) -> (id: &str)
        ensures
            id@ == self@.session_id,
    {
        self.session_id.as_str()
    }

    /// Whether the exit of the session has been announced.
    pub fn is_finished(&self) -> (finished: bool)
        ensures
            finished == self@.finished,
    {
        self.finished
    }

    /// Takes the outcome of a read and says what to do.
    pub fn step(&mut self, outcome: ReadOutcome) -> (action: PumpAction)
        ensures
            (final(self)@, action@) == pump_step(old(self)@, outcome@),
    {
        if self.finished {
            return PumpAction::Stopped;
        }
        let action = decide(self.session_id.as_str(), outcome);
        match &action {
            PumpAction::Exit(_) => {
                self.finished = true;
            },
            _ => {},
        }
        action
    }
}

} // verus!
