//! From a creation request to what is spawned: the shell, its arguments, the
//! working directory and the size of the terminal.

use vstd::prelude::*;
use crate::error::{PathStep, SessionError, SessionErrorView};
use crate::paths::{path_result_view, resolve_path, resolved_path};
use crate::text::{ends_with, ends_with_text, option_text, option_texts, result_text, texts};

verus! {

/// The number of columns of a terminal whose request names none.
pub const DEFAULT_COLS: u16 = 120;

/// The number of rows of a terminal whose request names none.
pub const DEFAULT_ROWS: u16 = 40;

/// A client's request for a new session. Every field is optional.
#[derive(Clone, Debug, PartialEq, Eq)]
pub struct TerminalCreateRequest {
    /// The working directory, absolute or relative to the manager's own.
    pub cwd: Option<String>,
    /// The width of the terminal in columns.
    pub cols: Option<u16>,
    /// The height of the terminal in rows.
    pub rows: Option<u16>,
    /// The shell program to run.
    pub shell: Option<String>,
    /// The arguments to pass to the shell.
    pub args: Option<Vec<String>>,
}

/// The mathematical value of a `TerminalCreateRequest`.
pub struct CreateRequestView {
    pub cwd: Option<Seq<char>>,
    pub cols: Option<u16>,
    pub rows: Option<u16>,
    pub shell: Option<Seq<char>>,
    pub args: Option<Seq<Seq<char>>>,
}

impl View for TerminalCreateRequest {
    type V = CreateRequestView;

    open spec fn view(&self) -> CreateRequestView {
        CreateRequestView {
            cwd: option_text(self.cwd),
            cols: self.cols,
            rows: self.rows,
            shell: option_text(self.shell),
            args: option_texts(self.args),
        }
    }
}

/// The size of a terminal. Neither dimension of a size that the manager
/// applies is zero.
#[derive(Clone, Copy, Debug, PartialEq, Eq, Structural)]
pub struct PtyDims {
    /// The width in columns.
    pub cols: u16,
    /// The height in rows.
    pub rows: u16,
}

/// What to spawn for a new session.
#[derive(Clone, Debug, PartialEq, Eq)]
pub struct SpawnPlan {
    /// The shell program.
    pub shell: String,
    /// The arguments after the program.
    pub args: Vec<String>,
    /// The working directory of the child.
    pub cwd: String,
    /// The size that the pseudo-terminal is opened with.
    pub size: PtyDims,
}

/// The mathematical value of a `SpawnPlan`.
pub struct SpawnPlanView {
    pub shell: Seq<char>,
    pub args: Seq<Seq<char>>,
    pub cwd: Seq<char>,
    pub size: PtyDims,
}

impl View for SpawnPlan {
    type V = SpawnPlanView;

    open spec fn view(&self) -> SpawnPlanView {
        SpawnPlanView {
            shell: self.shell@,
            args: texts(self.args@),
            cwd: self.cwd@,
            size: self.size,
        }
    }
}

/// A dimension raised to the minimum of one.
pub open spec fn clamped(dimension: u16) -> u16 {
    if dimension == 0 {
        1
    } else {
        dimension
    }
}

/// The size that a terminal is given when `cols` and `rows` are asked for.
pub open spec fn clamped_dims(cols: u16, rows: u16) -> PtyDims {
    PtyDims { cols: clamped(cols), rows: clamped(rows) }
}

/// The size of a new terminal: what was asked for, 120 by 40 where nothing
/// was, each dimension raised to one.
pub open spec fn initial_dims(cols: Option<u16>, rows: Option<u16>) -> PtyDims {
    clamped_dims(
        match cols {
            Some(value) => value,
            None => DEFAULT_COLS,
        },
        match rows {
            Some(value) => value,
            None => DEFAULT_ROWS,
        },
    )
}

/// The shell to run: the one asked for, else the user's configured shell,
/// else `/bin/bash`.
pub open spec fn chosen_shell(requested: Option<Seq<char>>, configured: Option<Seq<char>>) -> Seq<
    char,
> {
    match requested {
        Some(shell) => shell,
        None => match configured {
            Some(shell) => shell,
            None => "/bin/bash"@,
        },
    }
}

/// The arguments for a shell that was given none: a shell whose name ends in
/// `bash` is started as a login shell.
pub open spec fn default_args(shell: Seq<char>) -> Seq<Seq<char>> {
    if ends_with_text(shell, "bash"@) {
        seq!["--login"@]
    } else {
        Seq::empty()
    }
}

/// The arguments to pass: those asked for, else the defaults for the shell.
pub open spec fn chosen_args(requested: Option<Seq<Seq<char>>>, shell: Seq<char>) -> Seq<
    Seq<char>,
> {
    match requested {
        Some(args) => args,
        None => default_args(shell),
    }
}

/// The failure to look up the current directory, as reported for the default
/// working directory.
pub open spec fn current_dir_failure(detail: Seq<char>) -> SessionErrorView {
    SessionErrorView::PathResolutionFailure { step: PathStep::CurrentDir, detail }
}

/// The working directory of the child. A path that was asked for is resolved
/// against the current directory; with none, the current directory is taken.
/// A failed lookup of the current directory fails the resolution whichever
/// path was asked for: as a relative path's failure where one was asked for,
/// else as the default's.
pub open spec fn chosen_cwd(requested: Option<Seq<char>>, current_dir: Result<
    Seq<char>,
    Seq<char>,
>) -> Result<Seq<char>, SessionErrorView> {
    match requested {
        Some(path) => match resolved_path(path, current_dir) {
            Err(error) => Err(error),
            Ok(resolved) => match current_dir {
                Ok(_) => Ok(resolved),
                Err(detail) => Err(current_dir_failure(detail)),
            },
        },
        None => match current_dir {
            Ok(dir) => Ok(dir),
            Err(detail) => Err(current_dir_failure(detail)),
        },
    }
}

/// What is spawned for `request`, given the user's configured shell and the
/// outcome of looking up the current directory.
pub open spec fn spawn_plan(
    request: CreateRequestView,
    configured_shell: Option<Seq<char>>,
    current_dir: Result<Seq<char>, Seq<char>>,
) -> Result<SpawnPlanView, SessionErrorView> {
    let shell = chosen_shell(request.shell, configured_shell);
    match chosen_cwd(request.cwd, current_dir) {
        Err(error) => Err(error),
        Ok(cwd) => Ok(
            SpawnPlanView {
                shell,
                args: chosen_args(request.args, shell),
                cwd,
                size: initial_dims(request.cols, request.rows),
            },
        ),
    }
}

/// The views of the two sides of a planning result.
pub open spec fn plan_result_view(result: Result<SpawnPlan, SessionError>) -> Result<
    SpawnPlanView,
    SessionErrorView,
> {
    match result {
        Ok(plan) => Ok(plan@),
        Err(error) => Err(error@),
    }
}

/// Raises a dimension to the minimum of one.
pub fn clamp_dimension(dimension: u16) -> (result: u16)
    ensures
        result == clamped(dimension),
{
    if dimension == 0 {
        1
    } else {
        dimension
    }
}

/// The size to apply when `cols` and `rows` are asked for.
pub fn clamp_dims(cols: u16, rows: u16) -> (dims: PtyDims)
    ensures
        dims == clamped_dims(cols, rows),
{
    PtyDims { cols: clamp_dimension(cols), rows: clamp_dimension(rows) }
}

/// Picks the shell to run.
pub fn choose_shell(requested: Option<String>, configured: Option<String>) -> (shell: String)
    ensures
        shell@ == chosen_shell(option_text(requested), option_text(configured)),
{
    match requested {
        Some(shell) => shell,
        None => match configured {
            Some(shell) => shell,
            None => "/bin/bash".to_owned(),
        },
    }
}

/// Picks the arguments to pass to `shell`.
pub fn choose_args(requested: Option<Vec<String>>, shell: &str) -> (args: Vec<String>)
    ensures
        texts(args@) == chosen_args(option_texts(requested), shell@),
{
    match requested {
        Some(args) => args,
        None => {
            let mut args: Vec<String> = Vec::new();
            if ends_with(shell, "bash") {
                args.push("--login".to_owned());
            }
            assert(texts(args@) =~= default_args(shell@));
            args
        },
    }
}

/// Picks the working directory of the child.
pub fn choose_cwd(requested: Option<String>, current_dir: Result<String, String>) -> (cwd: Result<
    String,
    SessionError,
>)
    ensures
        path_result_view(cwd) == chosen_cwd(option_text(requested), result_text(current_dir)),
{
    let resolved = match requested {
        Some(path) => match resolve_path(path.as_str(), &current_dir) {
            Ok(resolved) => Some(resolved),
            Err(error) => {
                return Err(error);
            },
        },
        None => None,
    };
    match current_dir {
        Err(detail) => Err(
            SessionError::path_resolution_failure(PathStep::CurrentDir, detail.as_str()),
        ),
        Ok(dir) => match resolved {
            Some(path) => Ok(path),
            None => Ok(dir),
        },
    }
}

/// Plans a new session: resolves every field of `request` to what is
/// spawned. `configured_shell` is the user's configured shell, if one is
/// set; `current_dir` is the outcome of looking up the manager's current
/// directory.
pub fn plan_session(
    request: TerminalCreateRequest,
    configured_shell: Option<String>,
    current_dir: Result<String, String>,
) -> (plan: Result<SpawnPlan, SessionError>)
    ensures
        plan_result_view(plan) == spawn_plan(
            request@,
            option_text(configured_shell),
            result_text(current_dir),
        ),
{
    let TerminalCreateRequest { cwd, cols, rows, shell, args } = request;
    let shell = choose_shell(shell, configured_shell);
    let args = choose_args(args, shell.as_str());
    let cwd = match choose_cwd(cwd, current_dir) {
        Ok(cwd) => cwd,
        Err(error) => {
            return Err(error);
        },
    };
    let cols = match cols {
        Some(value) => value,
        None => DEFAULT_COLS,
    };
    let rows = match rows {
        Some(value) => value,
        None => DEFAULT_ROWS,
    };
    Ok(SpawnPlan { shell, args, cwd, size: clamp_dims(cols, rows) })
}

} // verus!
