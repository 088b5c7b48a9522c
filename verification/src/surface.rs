//! The command surface: create, write, resize, kill and list, as decisions
//! over the registry.
//!
//! Each function is what a command does inside the registry's critical
//! section. The host enters the section, calls the function, leaves the
//! section, and only then touches the handles that it was given.

use vstd::prelude::*;
use vstd::utf8::encode_utf8;
use crate::error::{SessionError, SessionErrorView, SpawnStep};
use crate::ident::{is_session_id, new_session_id};
use crate::launch::{
    clamp_dims,
    clamped_dims,
    plan_session,
    spawn_plan,
    PtyDims,
    SpawnPlan,
    TerminalCreateRequest,
};
use crate::registry::Registry;
use crate::text::{option_text, result_text, texts};

verus! {

/// A new session that is planned and named, and not yet spawned.
#[derive(Clone, Debug, PartialEq, Eq)]
pub struct PendingSession {
    /// The identifier that the session will be registered under.
    pub session_id: String,
    /// What to spawn.
    pub plan: SpawnPlan,
}

/// How the host's attempt to open a terminal and spawn a shell ended.
pub enum SpawnOutcome<H> {
    /// Every resource was acquired.
    Spawned {
        /// The handles of the new session.
        handles: H,
        /// The process identifier of the child, where the OS gave one.
        pid: Option<u32>,
    },
    /// A step failed. Nothing of the session is left.
    Failed {
        /// The step that failed.
        step: SpawnStep,
        /// Why it failed.
        detail: String,
    },
}

/// The mathematical value of a `SpawnOutcome`.
pub enum SpawnOutcomeView<H> {
    Spawned { handles: H, pid: Option<u32> },
    Failed { step: SpawnStep, detail: Seq<char> },
}

impl<H> View for SpawnOutcome<H> {
    type V = SpawnOutcomeView<H>;

    open spec fn view(&self) -> SpawnOutcomeView<H> {
        match *self {
            SpawnOutcome::Spawned { handles, pid } => SpawnOutcomeView::Spawned { handles, pid },
            SpawnOutcome::Failed { step, detail } => SpawnOutcomeView::Failed {
                step,
                detail: detail@,
            },
        }
    }
}

/// The answer to a creation request.
#[derive(Clone, Debug, PartialEq, Eq)]
pub struct TerminalCreateResponse {
    /// The identifier of the new session.
    pub session_id: String,
    /// The process identifier of the shell, or 0 where none is known.
    pub pid: u32,
}

/// The mathematical value of a `TerminalCreateResponse`.
pub struct CreateResponseView {
    pub session_id: Seq<char>,
    pub pid: u32,
}

impl View for TerminalCreateResponse {
    type V = CreateResponseView;

    open spec fn view(&self) -> CreateResponseView {
        CreateResponseView { session_id: self.session_id@, pid: self.pid }
    }
}

/// A request to send input to a session.
#[derive(Clone, Debug, PartialEq, Eq)]
pub struct TerminalWriteRequest {
    /// The session to write to.
    pub session_id: String,
    /// The input, sent as its UTF-8 encoding.
    pub data: String,
}

/// A request to change the size of a session's terminal.
#[derive(Clone, Debug, PartialEq, Eq)]
pub struct TerminalResizeRequest {
    /// The session to resize.
    pub session_id: String,
    /// The new width in columns.
    pub cols: u16,
    /// The new height in rows.
    pub rows: u16,
}

/// A request to end a session.
#[derive(Clone, Debug, PartialEq, Eq)]
pub struct TerminalKillRequest {
    /// The session to end.
    pub session_id: String,
    /// A signal name. It is accepted and has no effect on which termination
    /// is requested.
    pub signal: Option<String>,
}

/// The order in which the resources of a new session are acquired. The read
/// and write streams of the controlling side are taken before the child is
/// spawned, so that nothing the child writes early is lost.
pub open spec fn spawn_order() -> Seq<SpawnStep> {
    seq![SpawnStep::OpenPty, SpawnStep::CloneReader, SpawnStep::TakeWriter, SpawnStep::Spawn]
}

/// The step that follows `step`, or `None` after the last.
pub open spec fn step_after(step: SpawnStep) -> Option<SpawnStep> {
    match step {
        SpawnStep::OpenPty => Some(SpawnStep::CloneReader),
        SpawnStep::CloneReader => Some(SpawnStep::TakeWriter),
        SpawnStep::TakeWriter => Some(SpawnStep::Spawn),
        SpawnStep::Spawn => None,
    }
}

/// The first step of acquiring the resources of a new session.
pub fn first_spawn_step() -> (step: SpawnStep)
    ensures
        step == spawn_order()[0],
{
    SpawnStep::OpenPty
}

/// Takes the outcome of `step` and says how the creation goes on: with the
/// next step, with registration once the last step is done, or not at all
/// where the step failed.
pub fn advance_spawn(step: SpawnStep, outcome: Result<(), String>) -> (next: Result<
    Option<SpawnStep>,
    SessionError,
>)
    ensures
        match outcome {
            Ok(_) => next is Ok && next->Ok_0 == step_after(step),
            Err(detail) => next is Err && next->Err_0@ == (SessionErrorView::SpawnFailure {
                step,
                detail: detail@,
            }),
        },
{
    match outcome {
        Ok(_) => Ok(
            match step {
                SpawnStep::OpenPty => Some(SpawnStep::CloneReader),
                SpawnStep::CloneReader => Some(SpawnStep::TakeWriter),
                SpawnStep::TakeWriter => Some(SpawnStep::Spawn),
                SpawnStep::Spawn => None,
            },
        ),
        Err(detail) => Err(SessionError::SpawnFailure { step, detail }),
    }
}

/// The handles of `session_id`, or the error for an identifier that is not
/// registered.
pub open spec fn lookup<H>(sessions: Map<Seq<char>, H>, session_id: Seq<char>) -> Result<
    H,
    SessionErrorView,
> {
    if sessions.dom().contains(session_id) {
        Ok(sessions[session_id])
    } else {
        Err(SessionErrorView::NotFound { session_id })
    }
}

/// What a write is directed at: the handles of the session and the bytes to
/// send, which are the UTF-8 encoding of the input.
pub open spec fn write_outcome<H>(
    sessions: Map<Seq<char>, H>,
    session_id: Seq<char>,
    data: Seq<char>,
) -> Result<(H, Seq<u8>), SessionErrorView> {
    match lookup(sessions, session_id) {
        Ok(handles) => Ok((handles, encode_utf8(data))),
        Err(error) => Err(error),
    }
}

/// What a resize is directed at: the handles of the session and the size to
/// apply, each dimension raised to one.
pub open spec fn resize_outcome<H>(
    sessions: Map<Seq<char>, H>,
    session_id: Seq<char>,
    cols: u16,
    rows: u16,
) -> Result<(H, PtyDims), SessionErrorView> {
    match lookup(sessions, session_id) {
        Ok(handles) => Ok((handles, clamped_dims(cols, rows))),
        Err(error) => Err(error),
    }
}

/// What a kill does: the session leaves the registry, and its handles are
/// handed out for termination.
pub open spec fn kill_outcome<H>(sessions: Map<Seq<char>, H>, session_id: Seq<char>) -> (
    Map<Seq<char>, H>,
    Result<H, SessionErrorView>,
) {
    (sessions.remove(session_id), lookup(sessions, session_id))
}

/// The process identifier that is reported: 0 stands for an unknown one.
pub open spec fn reported_pid(pid: Option<u32>) -> u32 {
    match pid {
        Some(value) => value,
        None => 0,
    }
}

/// What the end of a spawn attempt does: a spawned session is registered
/// under its identifier and answered with identifier and process identifier;
/// a failed attempt leaves the registry as it was.
pub open spec fn create_outcome<H>(
    sessions: Map<Seq<char>, H>,
    session_id: Seq<char>,
    outcome: SpawnOutcomeView<H>,
) -> (Map<Seq<char>, H>, Result<CreateResponseView, SessionErrorView>) {
    match outcome {
        SpawnOutcomeView::Spawned { handles, pid } => (
            sessions.insert(session_id, handles),
            Ok(CreateResponseView { session_id, pid: reported_pid(pid) }),
        ),
        SpawnOutcomeView::Failed { step, detail } => (
            sessions,
            Err(SessionErrorView::SpawnFailure { step, detail }),
        ),
    }
}

/// The identifiers that a listing holds: those of all registered sessions.
pub open spec fn listed<H>(sessions: Map<Seq<char>, H>) -> Set<Seq<char>> {
    sessions.dom()
}

/// Looks up the handles of a session.
pub fn get_terminal_session<'a, H>(registry: &'a Registry<H>, session_id: &str) -> (found: Result<
    &'a H,
    SessionError,
>)
    ensures
        match lookup(registry@, session_id@) {
            Ok(handles) => found is Ok && *found->Ok_0 == handles,
            Err(error) => found is Err && found->Err_0@ == error,
        },
{
    match registry.get(session_id) {
        Some(handles) => Ok(handles),
        None => Err(SessionError::not_found(session_id)),
    }
}

/// Starts the creation of a session: mints its identifier and plans what to
/// spawn. `configured_shell` is the user's configured shell, if one is set;
/// `current_dir` is the outcome of looking up the manager's current
/// directory. Nothing is registered yet.
pub fn begin_create(
    request: TerminalCreateRequest,
    configured_shell: Option<String>,
    current_dir: Result<String, String>,
) -> (pending: Result<PendingSession, SessionError>)
    ensures
        match spawn_plan(request@, option_text(configured_shell), result_text(current_dir)) {
            Ok(plan) => pending is Ok && pending->Ok_0.plan@ == plan && is_session_id(
                pending->Ok_0.session_id@,
            ),
            Err(error) => pending is Err && pending->Err_0@ == error,
        },
{
    let session_id = new_session_id();
    match plan_session(request, configured_shell, current_dir) {
        Ok(plan) => Ok(PendingSession { session_id, plan }),
        Err(error) => Err(error),
    }
}

/// Ends the creation of a session with the outcome of the spawn attempt:
/// registers a spawned session, and reports a failed step.
pub fn complete_create<H>(
    registry: &mut Registry<H>,
    session_id: String,
    outcome: SpawnOutcome<H>,
) -> (response: Result<TerminalCreateResponse, SessionError>)
    ensures
        final(registry)@ == create_outcome(old(registry)@, session_id@, outcome@).0,
        match create_outcome(old(registry)@, session_id@, outcome@).1 {
            Ok(answer) => response is Ok && response->Ok_0@ == answer,
            Err(error) => response is Err && response->Err_0@ == error,
        },
{
    match outcome {
        SpawnOutcome::Spawned { handles, pid } => {
            let reported = match pid {
                Some(value) => value,
                None => 0,
            };
            let answer = TerminalCreateResponse { session_id: session_id.clone(), pid: reported };
            registry.insert(session_id, handles);
            Ok(answer)
        },
        SpawnOutcome::Failed { step, detail } => Err(SessionError::SpawnFailure { step, detail }),
    }
}

/// Directs a write: finds the session and gives its handles with the bytes
/// to send. The host then writes all of them and flushes.
pub fn terminal_write<'a, 'b, H>(
    registry: &'a Registry<H>,
    request: &'b TerminalWriteRequest,
) -> (found: Result<(&'a H, &'b [u8]), SessionError>)
    ensures
        match write_outcome(registry@, request.session_id@, request.data@) {
            Ok((handles, bytes)) => found is Ok && *found->Ok_0.0 == handles && found->Ok_0.1@
                == bytes,
            Err(error) => found is Err && found->Err_0@ == error,
        },
{
    match get_terminal_session(registry, request.session_id.as_str()) {
        Ok(handles) => Ok((handles, request.data.as_str().as_bytes())),
        Err(error) => Err(error),
    }
}

/// Directs a resize: finds the session and gives its handles with the size
/// to apply.
pub fn terminal_resize<'a, H>(registry: &'a Registry<H>, request: &TerminalResizeRequest) -> (found:
    Result<(&'a H, PtyDims), SessionError>)
    ensures
        match resize_outcome(registry@, request.session_id@, request.cols, request.rows) {
            Ok((handles, dims)) => found is Ok && *found->Ok_0.0 == handles && found->Ok_0.1
                == dims,
            Err(error) => found is Err && found->Err_0@ == error,
        },
{
    match get_terminal_session(registry, request.session_id.as_str()) {
        Ok(handles) => Ok((handles, clamp_dims(request.cols, request.rows))),
        Err(error) => Err(error),
    }
}

/// Begins a kill: takes the session out of the registry and hands out its
/// handles, on which the host then requests termination. The session is
/// gone from the registry whether or not that request succeeds.
pub fn terminal_kill<H>(registry: &mut Registry<H>, request: &TerminalKillRequest) -> (taken: Result<
    H,
    SessionError,
>)
    ensures
        final(registry)@ == kill_outcome(old(registry)@, request.session_id@).0,
        match kill_outcome(old(registry)@, request.session_id@).1 {
            Ok(handles) => taken is Ok && taken->Ok_0 == handles,
            Err(error) => taken is Err && taken->Err_0@ == error,
        },
{
    match registry.remove(request.session_id.as_str()) {
        Some(handles) => Ok(handles),
        None => Err(SessionError::not_found(request.session_id.as_str())),
    }
}

/// Lists the identifiers of all registered sessions, each once, in no
/// particular order.
pub fn terminal_list<H>(registry: &Registry<H>) -> (ids: Vec<String>)
    ensures
        texts(ids@).no_duplicates(),
        texts(ids@).to_set() == listed(registry@),
        ids@.len() == listed(registry@).len(),
{
    registry.list()
}

} // verus!
