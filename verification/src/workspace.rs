//! The persisted state of the workspace: its root, and the roots that were
//! opened most recently.

use vstd::prelude::*;
use crate::text::{contains_text, option_text, same_text, same_texts, texts};

verus! {

/// The most paths that the list of recent roots holds.
pub const MAX_RECENT_PATHS: usize = 6;

/// The state of the workspace as it is stored.
#[derive(Clone, Debug, PartialEq, Eq)]
pub struct WorkspaceState {
    /// The root of the workspace, if one was opened.
    pub root_path: Option<String>,
    /// The roots opened most recently, the latest first.
    pub recent_paths: Vec<String>,
    /// When the state was last changed.
    pub updated_at: String,
}

/// The mathematical value of a `WorkspaceState`.
pub struct WorkspaceStateView {
    pub root_path: Option<Seq<char>>,
    pub recent_paths: Seq<Seq<char>>,
    pub updated_at: Seq<char>,
}

impl View for WorkspaceState {
    type V = WorkspaceStateView;

    open spec fn view(&self) -> WorkspaceStateView {
        WorkspaceStateView {
            root_path: option_text(self.root_path),
            recent_paths: texts(self.recent_paths@),
            updated_at: self.updated_at@,
        }
    }
}

/// The tasks as they are stored, whatever a task is.
#[derive(Clone, Debug, PartialEq, Eq)]
pub struct TaskState<T> {
    /// The tasks.
    pub tasks: Vec<T>,
    /// When the state was last changed.
    pub updated_at: String,
}

/// The recent roots once `root` is opened: `root` first, then the paths of
/// `recent` in their order, without `root`, without repetition, and no more
/// than `MAX_RECENT_PATHS` in all.
pub open spec fn merged_recent(root: Seq<char>, recent: Seq<Seq<char>>) -> Seq<Seq<char>>
    decreases recent.len(),
{
    if recent.len() == 0 {
        seq![root]
    } else {
        let merged = merged_recent(root, recent.drop_last());
        let path = recent.last();
        if merged.len() < MAX_RECENT_PATHS && path != root && !merged.contains(path) {
            merged.push(path)
        } else {
            merged
        }
    }
}

/// Whether opening `root` changes the stored state: the root differs, or the
/// recent roots do.
pub open spec fn needs_update(state: WorkspaceStateView, root: Seq<char>) -> bool {
    state.root_path != Some(root) || state.recent_paths != merged_recent(root, state.recent_paths)
}

/// The state after the manager started with `startup_root` at the time
/// `now`, and whether it has to be stored again. Without a startup root, and
/// where opening it changes nothing, the state stays as it is.
pub open spec fn refreshed(
    state: WorkspaceStateView,
    startup_root: Option<Seq<char>>,
    now: Seq<char>,
) -> (WorkspaceStateView, bool) {
    match startup_root {
        Some(root) => if needs_update(state, root) {
            (
                WorkspaceStateView {
                    root_path: Some(root),
                    recent_paths: merged_recent(root, state.recent_paths),
                    updated_at: now,
                },
                true,
            )
        } else {
            (state, false)
        },
        None => (state, false),
    }
}

/// The state `state` marked as changed at the time `now`.
pub open spec fn stamped_workspace(state: WorkspaceStateView, now: Seq<char>) -> WorkspaceStateView {
    WorkspaceStateView {
        root_path: state.root_path,
        recent_paths: state.recent_paths,
        updated_at: now,
    }
}

/// The recent roots once `root` is opened.
pub fn merge_recent_paths(root: &str, recent: &Vec<String>) -> (merged: Vec<String>)
    ensures
        texts(merged@) == merged_recent(root@, texts(recent@)),
{
    let mut merged: Vec<String> = Vec::new();
    merged.push(root.to_owned());
    assert(texts(merged@) =~= seq![root@]);
    assert(texts(recent@).subrange(0, 0) =~= Seq::<Seq<char>>::empty());
    let mut i: usize = 0;
    while i < recent.len()
        invariant
            i <= recent.len(),
            texts(merged@) == merged_recent(root@, texts(recent@).subrange(0, i as int)),
        decreases recent.len() - i,
    {
        let path = recent[i].as_str();
        let ghost before = texts(merged@);
        proof {
            let upto = texts(recent@).subrange(0, i + 1);
            assert(upto.drop_last() =~= texts(recent@).subrange(0, i as int));
            assert(upto.last() == path@);
        }
        if merged.len() < MAX_RECENT_PATHS && !same_text(path, root) && !contains_text(
            &merged,
            path,
        ) {
            merged.push(path.to_owned());
            assert(texts(merged@) =~= before.push(path@));
        }
        i += 1;
    }
    assert(texts(recent@).subrange(0, i as int) =~= texts(recent@));
    merged
}

/// The state after the manager started with `startup_root` at the time
/// `now`, and whether it has to be stored again.
pub fn refresh_workspace_at(
    state: WorkspaceState,
    startup_root: &Option<String>,
    now: String,
) -> (result: (WorkspaceState, bool))
    ensures
        (result.0@, result.1) == refreshed(state@, option_text(*startup_root), now@),
{
    match startup_root {
        Some(root) => {
            let merged = merge_recent_paths(root.as_str(), &state.recent_paths);
            let same_root = match &state.root_path {
                Some(current) => same_text(current.as_str(), root.as_str()),
                None => false,
            };
            if !same_root || !same_texts(&state.recent_paths, &merged) {
                (
                    WorkspaceState {
                        root_path: Some(root.clone()),
                        recent_paths: merged,
                        updated_at: now,
                    },
                    true,
                )
            } else {
                (state, false)
            }
        },
        None => (state, false),
    }
}

/// The state after the manager started with `startup_root` now, and whether
/// it has to be stored again.
pub fn refresh_workspace(state: WorkspaceState, startup_root: &Option<String>) -> (result: (
    WorkspaceState,
    bool,
))
    ensures
        exists|now: Seq<char>|
            (result.0@, result.1) == #[trigger] refreshed(
                state@,
                option_text(*startup_root),
                now,
            ),
{
    let now = current_timestamp();
    refresh_workspace_at(state, startup_root, now)
}

/// The state of a workspace that was never stored, as of `now`.
pub fn default_workspace_state_at(now: String) -> (state: WorkspaceState)
    ensures
        state@ == (WorkspaceStateView {
            root_path: None,
            recent_paths: Seq::empty(),
            updated_at: now@,
        }),
{
    let state = WorkspaceState { root_path: None, recent_paths: Vec::new(), updated_at: now };
    assert(texts(state.recent_paths@) =~= Seq::<Seq<char>>::empty());
    state
}

/// The state of a workspace that was never stored, as of now.
pub fn default_workspace_state() -> (state: WorkspaceState)
    ensures
        state@ == default_workspace(state@.updated_at),
        is_utc_timestamp(state@.updated_at),
{
    default_workspace_state_at(current_timestamp())
}

/// The tasks of a store that was never written: none.
pub fn default_task_state<T>() -> (state: TaskState<T>)
    ensures
        state.tasks@ == Seq::<T>::empty(),
{
    TaskState { tasks: Vec::new(), updated_at: current_timestamp() }
}

/// The workspace state as it is saved: `state`, marked as changed now.
pub fn stamp_workspace(state: WorkspaceState) -> (stamped: WorkspaceState)
    ensures
        stamped@ == stamped_workspace(state@, stamped@.updated_at),
        is_utc_timestamp(stamped@.updated_at),
{
    let now = current_timestamp();
    stamp_workspace_at(state, now)
}

/// The tasks as they are saved: `state`, marked as changed now. The tasks
/// themselves are kept as they are, in their order; only the time of the
/// change is new, and it is read from the clock, whatever time the state
/// carried before.
pub fn stamp_tasks<T>(state: TaskState<T>) -> (stamped: TaskState<T>)
    ensures
        stamped.tasks == state.tasks,
        is_utc_timestamp(stamped.updated_at@),
{
    let now = current_timestamp();
    stamp_tasks_at(state, now)
}

/// The state of a workspace that was never stored, as of the time `now`.
pub open spec fn default_workspace(now: Seq<char>) -> WorkspaceStateView {
    WorkspaceStateView { root_path: None, recent_paths: Seq::empty(), updated_at: now }
}

/// Whether `c` is a decimal digit.
pub open spec fn is_digit(c: char) -> bool {
    '0' as u32 <= c as u32 && c as u32 <= '9' as u32
}

/// Whether `text` holds decimal digits and nothing else.
pub open spec fn are_digits(text: Seq<char>) -> bool {
    forall|i: int| 0 <= i < text.len() ==> is_digit(#[trigger] text[i])
}

/// The year of a timestamp: four digits, or, for a year past 9999, a plus
/// sign and five digits or more.
pub open spec fn is_year_text(text: Seq<char>) -> bool {
    ||| text.len() == 4 && are_digits(text)
    ||| text.len() >= 6 && text[0] == '+' && are_digits(text.subrange(1, text.len() as int))
}

/// What follows the year in a timestamp: month, day and the time of day to
/// the second, as `-MM-DDTHH:MM:SS`.
pub open spec fn is_clock_text(text: Seq<char>) -> bool {
    &&& text.len() == 15
    &&& text[0] == '-' && is_digit(text[1]) && is_digit(text[2])
    &&& text[3] == '-' && is_digit(text[4]) && is_digit(text[5])
    &&& text[6] == 'T' && is_digit(text[7]) && is_digit(text[8])
    &&& text[9] == ':' && is_digit(text[10]) && is_digit(text[11])
    &&& text[12] == ':' && is_digit(text[13]) && is_digit(text[14])
}

/// The fraction of the second in a timestamp: nothing, or a point and
/// three, six or nine digits.
pub open spec fn is_fraction_text(text: Seq<char>) -> bool {
    ||| text.len() == 0
    ||| (text.len() == 4 || text.len() == 7 || text.len() == 10) && text[0] == '.' && are_digits(
        text.subrange(1, text.len() as int),
    )
}

/// The shape of a time in UTC as RFC 3339 writes it: the year, the rest of
/// the date and the time of day, the fraction of the second, and the offset
/// `+00:00`.
pub open spec fn is_utc_timestamp(text: Seq<char>) -> bool {
    exists|year: Seq<char>, clock: Seq<char>, fraction: Seq<char>|
        #![trigger is_year_text(year), is_clock_text(clock), is_fraction_text(fraction)]
        is_year_text(year) && is_clock_text(clock) && is_fraction_text(fraction) && text == year
            + clock + fraction + "+00:00"@
}

/// Calls `chrono::Utc::now` and renders the instant with
/// `chrono::DateTime::to_rfc3339`.
///
/// Trusted: which instant the text names depends on the clock, so the
/// contract states only its shape. The rendering writes the year with four
/// digits, or signed where it is past 9999, then `-MM-DDTHH:MM:SS`, then the
/// nanoseconds in the shortest of no, three, six and nine digits, then the
/// offset, which for UTC is `+00:00`.
#[verifier::external_body]
fn current_timestamp() -> (now: String)
    ensures
        is_utc_timestamp(now@),
{
    chrono::Utc::now().to_rfc3339()
}

/// The workspace state as it is saved at the time `now`: `state`, marked as
/// changed then.
pub fn stamp_workspace_at(state: WorkspaceState, now: String) -> (stamped: WorkspaceState)
    ensures
        stamped@ == stamped_workspace(state@, now@),
{
    WorkspaceState { root_path: state.root_path, recent_paths: state.recent_paths, updated_at: now }
}

/// The tasks as they are saved at the time `now`: `state`, marked as changed
/// then.
pub fn stamp_tasks_at<T>(state: TaskState<T>, now: String) -> (stamped: TaskState<T>)
    ensures
        stamped.tasks == state.tasks,
        stamped.updated_at@ == now@,
{
    TaskState { tasks: state.tasks, updated_at: now }
}

} // verus!
