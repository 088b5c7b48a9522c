//! The command line handed to the pseudo-terminal.

use vstd::prelude::*;
use crate::launch::SpawnPlan;
use crate::text::texts;

verus! {

/// `portable_pty::CommandBuilder`: a program, its arguments and the directory
/// it starts in. Opaque; what it holds is named by `command_argv` and
/// `command_dir`.
#[verifier::external_type_specification]
#[verifier::external_body]
pub struct ExCommandBuilder(portable_pty::CommandBuilder);

/// The argument vector that `command` holds, the program first, each entry as text.
pub uninterp spec fn command_argv(command: portable_pty::CommandBuilder) -> Seq<Seq<char>>;

/// The directory that `command` was told to start in, if it was told one.
pub uninterp spec fn command_dir(command: portable_pty::CommandBuilder) -> Option<Seq<char>>;

/// Calls `portable_pty::CommandBuilder::new`.
///
/// Trusted: the new builder holds `program` as its only argument and no
/// directory. Nothing is said of the environment it captures.
#[verifier::external_body]
fn command_for(program: &str) -> (command: portable_pty::CommandBuilder)
    ensures
        command_argv(command) == seq![program@],
        command_dir(command) == None::<Seq<char>>,
{
    portable_pty::CommandBuilder::new(program)
}

/// Calls `portable_pty::CommandBuilder::arg`.
///
/// Trusted: the argument is appended and the directory is kept. The outside
/// method panics on a builder without a program, which `requires` leaves out.
#[verifier::external_body]
fn push_argument(command: &mut portable_pty::CommandBuilder, argument: &str)
    requires
        command_argv(*old(command)).len() > 0,
    ensures
        command_argv(*final(command)) == command_argv(*old(command)).push(argument@),
        command_dir(*final(command)) == command_dir(*old(command)),
{
    command.arg(argument)
}

/// Calls `portable_pty::CommandBuilder::cwd`.
///
/// Trusted: the directory is replaced by `dir` and the arguments are kept.
#[verifier::external_body]
fn set_directory(command: &mut portable_pty::CommandBuilder, dir: &str)
    ensures
        command_argv(*final(command)) == command_argv(*old(command)),
        command_dir(*final(command)) == Some(dir@),
{
    command.cwd(dir)
}

/// Builds the command of `plan`: the shell followed by the arguments, to be
/// started in the working directory. The environment is left to the host.
pub fn build_command(plan: &SpawnPlan) -> (command: portable_pty::CommandBuilder)
    ensures
        command_argv(command) == seq![plan@.shell] + plan@.args,
        command_dir(command) == Some(plan@.cwd),
{
    let shell = plan.shell.as_str();
    let args = &plan.args;
    let cwd = plan.cwd.as_str();
    let mut command = command_for(shell);
    let mut i: usize = 0;
    while i < args.len()
        invariant
            i <= args.len(),
            command_argv(command) == seq![shell@] + texts(args@.subrange(0, i as int)),
            command_dir(command) == None::<Seq<char>>,
        decreases args.len() - i,
    {
        push_argument(&mut command, args[i].as_str());
        proof {
            assert(args@.subrange(0, i + 1) == args@.subrange(0, i as int).push(args@[i as int]));
            assert(texts(args@.subrange(0, i + 1)) == texts(args@.subrange(0, i as int)).push(
                args@[i as int]@,
            ));
        }
        i += 1;
    }
    proof {
        assert(args@.subrange(0, i as int) == args@);
    }
    set_directory(&mut command, cwd);
    command
}

} // verus!
