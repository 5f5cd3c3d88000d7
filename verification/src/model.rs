//! The dispatcher as a mathematical state machine.
//!
//! The machine never acts on the world. It asks for one thing at a time (an
//! [`SpecAction`]), and is told what came of it (a [`SpecEvent`]). What it
//! asks for next, and what it wants printed before that, is a function of its
//! state and of the event: [`next`]. The executable dispatcher in
//! `crate::dispatch` computes exactly this function.

use vstd::prelude::*;
use crate::command::{resolved_file, resolved_output, SpecCommand};
use crate::editor::{needs_environment, resolved_editor, EDITOR_VARIABLE};
use crate::privilege::privileged;
use crate::text::decimal;

verus! {

/// The program that re-runs a command as the superuser.
pub const ELEVATION_TOOL: &'static str = "sudo";

/// The elevation tool's flag that keeps the caller's environment.
pub const KEEP_ENVIRONMENT: &'static str = "-E";

/// The program that generates the boot configuration.
pub const GENERATOR_TOOL: &'static str = "grub-mkconfig";

/// The generator's flag that names the file to write.
pub const OUTPUT_FLAG: &'static str = "-o";

/// Exit code of a run that completed.
pub const SUCCESS: i32 = 0;

/// Exit code after a child could not be started, and after an elevated child
/// that left no exit code.
pub const FAILURE: i32 = 1;

/// The code reported for an editor or generator that left no exit code.
pub const MISSING_STATUS: i32 = -127;

/// Said before elevation is attempted.
pub const ELEVATION_WARNING: &'static str =
    "Warning: GrubUtils was not run using root privileges, attempting to use sudo to elevate privileges";

/// Said once the process is known to run as the superuser.
pub const ROOT_NOTICE: &'static str = "GrubUtils is running as root";

/// What precedes the file in the line that names it.
pub const FILE_NOTICE: &'static str = "Using grub file: ";

/// What precedes the editor in the line that names it.
pub const EDITOR_NOTICE: &'static str = "Using editor: ";

/// What precedes the code in the line that reports the editor's end.
pub const EDITOR_REPORT: &'static str = "Editor exited with code ";

/// What precedes the code in the line that reports the generator's end.
pub const GENERATOR_REPORT: &'static str = "grub-mkconfig exited with code ";

/// What precedes the reason in the diagnostic for a child that could not be
/// started.
pub const LAUNCH_DIAGNOSTIC: &'static str = "Failed to execute command: ";

/// The three kinds of child process.
#[derive(Clone, Copy, Debug, PartialEq, Eq, Structural)]
pub enum Child {
    /// The elevation tool, re-running this program.
    Elevation,
    /// The text editor.
    Editor,
    /// The configuration generator.
    Generator,
}

/// A child process to start: which kind it is, the program, and its
/// arguments.
pub struct SpecInvocation {
    pub child: Child,
    pub program: Seq<char>,
    pub args: Seq<Seq<char>>,
}

/// What the machine asks its surroundings to do.
pub enum SpecAction {
    /// Report the effective user identity of the process.
    CheckPrivilege,
    /// Report the command line as it was given.
    ReadArguments,
    /// Parse the command line into a request.
    ParseRequest,
    /// Report the value of an environment variable.
    ReadVariable(Seq<char>),
    /// Start a child in the foreground and wait until it is gone.
    Launch(SpecInvocation),
    /// End the process with this exit code.
    Exit(i32),
}

/// What the surroundings report back.
pub enum SpecEvent {
    /// The effective user identity.
    Identity(u32),
    /// The command line: the program's own path, then the arguments.
    Arguments { program: Seq<char>, rest: Seq<Seq<char>> },
    /// The parsed request.
    Request(SpecCommand),
    /// The value of the variable asked for, if it is set.
    Variable(Option<Seq<char>>),
    /// The child ran and is gone; its exit code, if it left one.
    Exited(Option<i32>),
    /// The child could not be started; the reason in words.
    LaunchFailed(Seq<char>),
}

/// Where the machine stands: what it waits for, and what it still has to
/// remember.
pub enum SpecState {
    /// Waiting for the effective user identity.
    Start,
    /// Not the superuser: waiting for the command line to hand on.
    Unprivileged,
    /// Waiting for the elevated re-run of this program to end.
    Elevating,
    /// The superuser: waiting for the parsed request.
    Dispatch,
    /// Waiting for the environment's editor, to open `file` with it; `follow`
    /// is the file to generate afterwards, if any.
    Resolving { file: Seq<char>, follow: Option<Seq<char>> },
    /// Waiting for the editor to end; `follow` is the file to generate
    /// afterwards, if any.
    Editing { follow: Option<Seq<char>> },
    /// Waiting for the generator to end.
    Generating,
    /// The process has been told to exit.
    Finished,
}

/// One move of the machine: the lines to print on standard output and on the
/// error stream, then the thing to do, and the state in which the answer is
/// awaited.
pub struct SpecStep {
    pub next: SpecState,
    pub output: Seq<Seq<char>>,
    pub diagnostics: Seq<Seq<char>>,
    pub action: SpecAction,
}

/// The elevated re-run: the tool, its flag, this program, and the arguments
/// exactly as they were given.
pub open spec fn elevation(program: Seq<char>, rest: Seq<Seq<char>>) -> SpecInvocation {
    SpecInvocation {
        child: Child::Elevation,
        program: ELEVATION_TOOL@,
        args: seq![KEEP_ENVIRONMENT@, program] + rest,
    }
}

/// The editor on the file, and nothing else.
pub open spec fn edit_session(editor: Seq<char>, file: Seq<char>) -> SpecInvocation {
    SpecInvocation { child: Child::Editor, program: editor, args: seq![file] }
}

/// The generator, told where to write.
pub open spec fn generation(output: Seq<char>) -> SpecInvocation {
    SpecInvocation {
        child: Child::Generator,
        program: GENERATOR_TOOL@,
        args: seq![OUTPUT_FLAG@, output],
    }
}

/// The exit code of this process after the elevated re-run: the child's own,
/// or the failure code when it left none.
pub open spec fn elevated_exit_code(code: Option<i32>) -> i32 {
    match code {
        Some(c) => c,
        None => FAILURE,
    }
}

/// The code reported for an editor or a generator.
pub open spec fn reported_code(code: Option<i32>) -> i32 {
    match code {
        Some(c) => c,
        None => MISSING_STATUS,
    }
}

/// The line that names the file about to be edited.
pub open spec fn file_notice(file: Seq<char>) -> Seq<char> {
    FILE_NOTICE@ + file
}

/// The line that names the editor about to be started.
pub open spec fn editor_notice(editor: Seq<char>) -> Seq<char> {
    EDITOR_NOTICE@ + editor
}

/// The line that reports how the editor ended.
pub open spec fn editor_report(code: Option<i32>) -> Seq<char> {
    EDITOR_REPORT@ + decimal(reported_code(code) as int)
}

/// The line that reports how the generator ended.
pub open spec fn generator_report(code: Option<i32>) -> Seq<char> {
    GENERATOR_REPORT@ + decimal(reported_code(code) as int)
}

/// The diagnostic for a child that could not be started.
pub open spec fn launch_diagnostic(reason: Seq<char>) -> Seq<char> {
    LAUNCH_DIAGNOSTIC@ + reason
}

/// The file to generate once the editor is gone, if generation is wanted.
pub open spec fn generation_after_edit(no_generate: bool, output: Option<Seq<char>>) -> Option<
    Seq<char>,
> {
    if no_generate {
        None
    } else {
        Some(resolved_output(output))
    }
}

/// The machine's first move: nothing printed, the identity asked for.
pub open spec fn initial() -> SpecStep {
    SpecStep {
        next: SpecState::Start,
        output: Seq::empty(),
        diagnostics: Seq::empty(),
        action: SpecAction::CheckPrivilege,
    }
}

/// The move that ends the process with `code`, printing `output` first.
pub open spec fn finish(output: Seq<Seq<char>>, code: i32) -> SpecStep {
    SpecStep {
        next: SpecState::Finished,
        output,
        diagnostics: Seq::empty(),
        action: SpecAction::Exit(code),
    }
}

/// The move after a child could not be started: the diagnostic on the error
/// stream, nothing on standard output, and the process ends in failure.
pub open spec fn abort(reason: Seq<char>) -> SpecStep {
    SpecStep {
        next: SpecState::Finished,
        output: Seq::empty(),
        diagnostics: seq![launch_diagnostic(reason)],
        action: SpecAction::Exit(FAILURE),
    }
}

/// The move on learning the identity: the superuser goes on to the request,
/// anyone else to elevation.
pub open spec fn on_identity(euid: u32) -> SpecStep {
    if privileged(euid) {
        SpecStep {
            next: SpecState::Dispatch,
            output: seq![ROOT_NOTICE@],
            diagnostics: Seq::empty(),
            action: SpecAction::ParseRequest,
        }
    } else {
        SpecStep {
            next: SpecState::Unprivileged,
            output: seq![ELEVATION_WARNING@],
            diagnostics: Seq::empty(),
            action: SpecAction::ReadArguments,
        }
    }
}

/// The move that starts the elevated re-run.
pub open spec fn on_arguments(program: Seq<char>, rest: Seq<Seq<char>>) -> SpecStep {
    SpecStep {
        next: SpecState::Elevating,
        output: Seq::empty(),
        diagnostics: Seq::empty(),
        action: SpecAction::Launch(elevation(program, rest)),
    }
}

/// The move that starts the generator on `output`, printing `said` first.
pub open spec fn start_generation(said: Seq<Seq<char>>, output: Seq<char>) -> SpecStep {
    SpecStep {
        next: SpecState::Generating,
        output: said,
        diagnostics: Seq::empty(),
        action: SpecAction::Launch(generation(output)),
    }
}

/// The move that starts `editor` on `file`, printing `said` and then the
/// editor's name first.
pub open spec fn start_editor(
    said: Seq<Seq<char>>,
    editor: Seq<char>,
    file: Seq<char>,
    follow: Option<Seq<char>>,
) -> SpecStep {
    SpecStep {
        next: SpecState::Editing { follow },
        output: said.push(editor_notice(editor)),
        diagnostics: Seq::empty(),
        action: SpecAction::Launch(edit_session(editor, file)),
    }
}

/// The move on receiving the request. `generate` starts the generator.
/// `edit` names the file, then starts the editor if the command line names a
/// usable one, and asks the environment otherwise.
pub open spec fn on_request(command: SpecCommand) -> SpecStep {
    match command {
        SpecCommand::Generate { output } => start_generation(
            Seq::empty(),
            resolved_output(output),
        ),
        SpecCommand::Edit { no_generate, file, output, editor } => {
            let path = resolved_file(file);
            let follow = generation_after_edit(no_generate, output);
            if needs_environment(editor) {
                SpecStep {
                    next: SpecState::Resolving { file: path, follow },
                    output: seq![file_notice(path)],
                    diagnostics: Seq::empty(),
                    action: SpecAction::ReadVariable(EDITOR_VARIABLE@),
                }
            } else {
                start_editor(seq![file_notice(path)], resolved_editor(editor, None), path, follow)
            }
        },
    }
}

/// The move once the editor is gone: its exit is reported, whatever the code,
/// and the generator is started if generation is to follow.
pub open spec fn on_editor_exit(follow: Option<Seq<char>>, code: Option<i32>) -> SpecStep {
    match follow {
        Some(output) => start_generation(seq![editor_report(code)], output),
        None => finish(seq![editor_report(code)], SUCCESS),
    }
}

/// The transition function: the move that `event` causes in `state`, or
/// `None` when `event` is no answer to what `state` waits for.
pub open spec fn next(state: SpecState, event: SpecEvent) -> Option<SpecStep> {
    match state {
        SpecState::Start => match event {
            SpecEvent::Identity(euid) => Some(on_identity(euid)),
            _ => None,
        },
        SpecState::Unprivileged => match event {
            SpecEvent::Arguments { program, rest } => Some(on_arguments(program, rest)),
            _ => None,
        },
        SpecState::Elevating => match event {
            SpecEvent::Exited(code) => Some(finish(Seq::empty(), elevated_exit_code(code))),
            SpecEvent::LaunchFailed(reason) => Some(abort(reason)),
            _ => None,
        },
        SpecState::Dispatch => match event {
            SpecEvent::Request(command) => Some(on_request(command)),
            _ => None,
        },
        SpecState::Resolving { file, follow } => match event {
            SpecEvent::Variable(value) => Some(
                start_editor(Seq::empty(), resolved_editor(None, value), file, follow),
            ),
            _ => None,
        },
        SpecState::Editing { follow } => match event {
            SpecEvent::Exited(code) => Some(on_editor_exit(follow, code)),
            SpecEvent::LaunchFailed(reason) => Some(abort(reason)),
            _ => None,
        },
        SpecState::Generating => match event {
            SpecEvent::Exited(code) => Some(finish(seq![generator_report(code)], SUCCESS)),
            SpecEvent::LaunchFailed(reason) => Some(abort(reason)),
            _ => None,
        },
        SpecState::Finished => None,
    }
}

/// Whether `event` answers what `state` waits for.
pub open spec fn expects(state: SpecState, event: SpecEvent) -> bool {
    match state {
        SpecState::Start => event is Identity,
        SpecState::Unprivileged => event is Arguments,
        SpecState::Dispatch => event is Request,
        SpecState::Resolving { .. } => event is Variable,
        SpecState::Elevating | SpecState::Editing { .. } | SpecState::Generating => event is Exited
            || event is LaunchFailed,
        SpecState::Finished => false,
    }
}

/// The action whose answer `state` waits for is of this kind.
pub open spec fn awaited(state: SpecState, action: SpecAction) -> bool {
    match state {
        SpecState::Start => action is CheckPrivilege,
        SpecState::Unprivileged => action is ReadArguments,
        SpecState::Dispatch => action is ParseRequest,
        SpecState::Resolving { .. } => action is ReadVariable,
        SpecState::Elevating => action matches SpecAction::Launch(i) && i.child == Child::Elevation,
        SpecState::Editing { .. } => action matches SpecAction::Launch(i) && i.child
            == Child::Editor,
        SpecState::Generating => action matches SpecAction::Launch(i) && i.child
            == Child::Generator,
        SpecState::Finished => action is Exit,
    }
}

/// The machine moves exactly on the events that answer its state.
pub proof fn moves_on_expected_events(state: SpecState, event: SpecEvent)
    ensures
        next(state, event) is Some <==> expects(state, event),
{
}

/// Every move asks for what its next state waits for: the first move, and
/// each move after an event.
pub proof fn action_matches_next_state(state: SpecState, event: SpecEvent)
    ensures
        awaited(initial().next, initial().action),
        next(state, event) matches Some(step) ==> awaited(step.next, step.action),
{
}

} // verus!
