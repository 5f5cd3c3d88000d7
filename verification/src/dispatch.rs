//! The executable dispatcher.
//!
//! [`begin`] gives the first move and [`step`] every later one. A caller
//! prints the lines of a move, carries out its action, and hands the outcome
//! back as the next event, until the action is [`Action::Exit`]. Both
//! functions compute the machine of `crate::model`, of which the types here
//! are the executable form.

use vstd::prelude::*;
use vstd::string::*;
use crate::command::{edited_file, output_file, GCommand};
use crate::editor::{get_editor, is_usable, EDITOR_VARIABLE};
use crate::model::{
    abort, edit_session, editor_report, elevated_exit_code, elevation, finish, generation,
    expects, generator_report, initial, next, on_arguments, on_editor_exit, on_identity, on_request,
    reported_code, start_editor, start_generation, Child, SpecAction, SpecEvent, SpecInvocation,
    SpecState, SpecStep, EDITOR_NOTICE, EDITOR_REPORT, ELEVATION_TOOL, ELEVATION_WARNING, FAILURE,
    FILE_NOTICE, GENERATOR_REPORT, GENERATOR_TOOL, KEEP_ENVIRONMENT, LAUNCH_DIAGNOSTIC,
    MISSING_STATUS, OUTPUT_FLAG, ROOT_NOTICE, SUCCESS,
};
use crate::privilege::is_root;
use crate::text::{append_decimal, join};

verus! {

/// A child process to start: which kind it is, the program, and its
/// arguments.
#[derive(Debug, PartialEq, Eq)]
pub struct Invocation {
    pub child: Child,
    pub program: String,
    pub args: Vec<String>,
}

/// What the dispatcher asks its caller to do.
#[derive(Debug, PartialEq, Eq)]
pub enum Action {
    /// Report the effective user identity of the process, as
    /// [`Event::Identity`].
    CheckPrivilege,
    /// Report the command line as it was given, as [`Event::Arguments`].
    ReadArguments,
    /// Parse the command line, and report the request as
    /// [`Event::Request`].
    ParseRequest,
    /// Report the value of this environment variable, as
    /// [`Event::Variable`].
    ReadVariable(String),
    /// Start this child in the foreground, wait until it is gone, and report
    /// [`Event::Exited`], or [`Event::LaunchFailed`] if it could not be
    /// started.
    Launch(Invocation),
    /// End the process with this exit code.
    Exit(i32),
}

/// What the caller reports back.
#[derive(Debug, PartialEq, Eq)]
pub enum Event {
    /// The effective user identity.
    Identity(u32),
    /// The command line: the program's own path, then the arguments.
    Arguments { program: String, rest: Vec<String> },
    /// The parsed request.
    Request(GCommand),
    /// The value of the variable asked for, if it is set.
    Variable(Option<String>),
    /// The child ran and is gone; its exit code, if it left one.
    Exited(Option<i32>),
    /// The child could not be started; the reason in words.
    LaunchFailed(String),
}

/// Where the dispatcher stands.
#[derive(Debug, PartialEq, Eq)]
pub enum State {
    /// Waiting for the effective user identity.
    Start,
    /// Not the superuser: waiting for the command line to hand on.
    Unprivileged,
    /// Waiting for the elevated re-run of this program to end.
    Elevating,
    /// The superuser: waiting for the parsed request.
    Dispatch,
    /// Waiting for the environment's editor, to open `file` with it; `follow`
    /// is the file to generate afterwards, if any.
    Resolving { file: String, follow: Option<String> },
    /// Waiting for the editor to end; `follow` is the file to generate
    /// afterwards, if any.
    Editing { follow: Option<String> },
    /// Waiting for the generator to end.
    Generating,
    /// The process has been told to exit.
    Finished,
}

/// One move: the lines to print on standard output and on the error stream,
/// then the action to carry out, and the state in which its outcome is
/// awaited.
#[derive(Debug, PartialEq, Eq)]
pub struct Step {
    pub next: State,
    pub output: Vec<String>,
    pub diagnostics: Vec<String>,
    pub action: Action,
}

impl View for Invocation {
    type V = SpecInvocation;

    open spec fn view(&self) -> SpecInvocation {
        SpecInvocation {
            child: self.child,
            program: self.program@,
            args: self.args.deep_view(),
        }
    }
}

impl View for Action {
    type V = SpecAction;

    open spec fn view(&self) -> SpecAction {
        match self {
            Action::CheckPrivilege => SpecAction::CheckPrivilege,
            Action::ReadArguments => SpecAction::ReadArguments,
            Action::ParseRequest => SpecAction::ParseRequest,
            Action::ReadVariable(name) => SpecAction::ReadVariable(name@),
            Action::Launch(invocation) => SpecAction::Launch(invocation@),
            Action::Exit(code) => SpecAction::Exit(*code),
        }
    }
}

impl View for Event {
    type V = SpecEvent;

    open spec fn view(&self) -> SpecEvent {
        match self {
            Event::Identity(euid) => SpecEvent::Identity(*euid),
            Event::Arguments { program, rest } => SpecEvent::Arguments {
                program: program@,
                rest: rest.deep_view(),
            },
            Event::Request(command) => SpecEvent::Request(command@),
            Event::Variable(value) => SpecEvent::Variable(value.deep_view()),
            Event::Exited(code) => SpecEvent::Exited(*code),
            Event::LaunchFailed(reason) => SpecEvent::LaunchFailed(reason@),
        }
    }
}

impl View for State {
    type V = SpecState;

    open spec fn view(&self) -> SpecState {
        match self {
            State::Start => SpecState::Start,
            State::Unprivileged => SpecState::Unprivileged,
            State::Elevating => SpecState::Elevating,
            State::Dispatch => SpecState::Dispatch,
            State::Resolving { file, follow } => SpecState::Resolving {
                file: file@,
                follow: follow.deep_view(),
            },
            State::Editing { follow } => SpecState::Editing { follow: follow.deep_view() },
            State::Generating => SpecState::Generating,
            State::Finished => SpecState::Finished,
        }
    }
}

impl View for Step {
    type V = SpecStep;

    open spec fn view(&self) -> SpecStep {
        SpecStep {
            next: self.next@,
            output: self.output.deep_view(),
            diagnostics: self.diagnostics.deep_view(),
            action: self.action@,
        }
    }
}

/// No lines.
fn nothing() -> (lines: Vec<String>)
    ensures
        lines.deep_view() == Seq::<Seq<char>>::empty(),
{
    Vec::new()
}

/// Adds `line` after `lines`.
fn say(lines: &mut Vec<String>, line: String)
    ensures
        final(lines).deep_view() == old(lines).deep_view().push(line@),
{
    lines.push(line);
}

/// The single line `line`.
fn only(line: String) -> (lines: Vec<String>)
    ensures
        lines.deep_view() == seq![line@],
{
    let mut lines = nothing();
    say(&mut lines, line);
    lines
}

/// The code to report for an editor or a generator that ended.
pub fn code_to_report(code: Option<i32>) -> (reported: i32)
    ensures
        reported == reported_code(code),
{
    match code {
        Some(c) => c,
        None => MISSING_STATUS,
    }
}

/// The exit code of this process after the elevated re-run ended with
/// `code`.
pub fn exit_code_after_elevation(code: Option<i32>) -> (own: i32)
    ensures
        own == elevated_exit_code(code),
{
    match code {
        Some(c) => c,
        None => FAILURE,
    }
}

/// The line that reports how the editor ended.
pub fn editor_exit_line(code: Option<i32>) -> (line: String)
    ensures
        line@ == editor_report(code),
{
    let mut line = String::from_str(EDITOR_REPORT);
    append_decimal(&mut line, code_to_report(code));
    line
}

/// The line that reports how the generator ended.
pub fn generator_exit_line(code: Option<i32>) -> (line: String)
    ensures
        line@ == generator_report(code),
{
    let mut line = String::from_str(GENERATOR_REPORT);
    append_decimal(&mut line, code_to_report(code));
    line
}

/// The elevated re-run of `program` with the arguments `rest`.
pub fn elevate(program: String, rest: Vec<String>) -> (invocation: Invocation)
    ensures
        invocation@ == elevation(program@, rest.deep_view()),
{
    let mut args = rest;
    args.insert(0, program);
    args.insert(0, String::from_str(KEEP_ENVIRONMENT));
    assert(args.deep_view() =~= seq![KEEP_ENVIRONMENT@, program@] + rest.deep_view());
    Invocation { child: Child::Elevation, program: String::from_str(ELEVATION_TOOL), args }
}

/// The editor `editor` on `file`.
pub fn open_editor(editor: String, file: String) -> (invocation: Invocation)
    ensures
        invocation@ == edit_session(editor@, file@),
{
    Invocation { child: Child::Editor, program: editor, args: only(file) }
}

/// The generator, writing to `output`.
pub fn generate_grub(output: String) -> (invocation: Invocation)
    ensures
        invocation@ == generation(output@),
{
    let mut args = only(String::from_str(OUTPUT_FLAG));
    say(&mut args, output);
    assert(args.deep_view() =~= seq![OUTPUT_FLAG@, output@]);
    Invocation { child: Child::Generator, program: String::from_str(GENERATOR_TOOL), args }
}

/// The move that ends the process with `code`, printing `output` first.
fn finish_with(output: Vec<String>, code: i32) -> (step: Step)
    ensures
        step@ == finish(output.deep_view(), code),
{
    Step { next: State::Finished, output, diagnostics: nothing(), action: Action::Exit(code) }
}

/// The move after a child could not be started.
fn abort_with(reason: String) -> (step: Step)
    ensures
        step@ == abort(reason@),
{
    Step {
        next: State::Finished,
        output: nothing(),
        diagnostics: only(join(LAUNCH_DIAGNOSTIC, reason.as_str())),
        action: Action::Exit(FAILURE),
    }
}

/// The move that starts the generator on `output`, printing `said` first.
fn generate_next(said: Vec<String>, output: String) -> (step: Step)
    ensures
        step@ == start_generation(said.deep_view(), output@),
{
    Step {
        next: State::Generating,
        output: said,
        diagnostics: nothing(),
        action: Action::Launch(generate_grub(output)),
    }
}

/// The move that starts `editor` on `file`, printing `said` and then the
/// editor's name first.
fn edit_next(said: Vec<String>, editor: String, file: String, follow: Option<String>) -> (step:
    Step)
    ensures
        step@ == start_editor(said.deep_view(), editor@, file@, follow.deep_view()),
{
    let mut output = said;
    say(&mut output, join(EDITOR_NOTICE, editor.as_str()));
    Step {
        next: State::Editing { follow },
        output,
        diagnostics: nothing(),
        action: Action::Launch(open_editor(editor, file)),
    }
}

/// The move on learning the effective user identity.
fn identified(euid: u32) -> (step: Step)
    ensures
        step@ == on_identity(euid),
{
    if is_root(euid) {
        Step {
            next: State::Dispatch,
            output: only(String::from_str(ROOT_NOTICE)),
            diagnostics: nothing(),
            action: Action::ParseRequest,
        }
    } else {
        Step {
            next: State::Unprivileged,
            output: only(String::from_str(ELEVATION_WARNING)),
            diagnostics: nothing(),
            action: Action::ReadArguments,
        }
    }
}

/// The move that starts the elevated re-run.
fn handed_on(program: String, rest: Vec<String>) -> (step: Step)
    ensures
        step@ == on_arguments(program@, rest.deep_view()),
{
    Step {
        next: State::Elevating,
        output: nothing(),
        diagnostics: nothing(),
        action: Action::Launch(elevate(program, rest)),
    }
}

/// The move on receiving the request.
fn requested(command: GCommand) -> (step: Step)
    ensures
        step@ == on_request(command@),
{
    match command {
        GCommand::Generate { output } => generate_next(nothing(), output_file(output)),
        GCommand::Edit { no_generate, file, output, editor } => {
            let path = edited_file(file);
            let follow = if no_generate {
                None
            } else {
                Some(output_file(output))
            };
            let said = only(join(FILE_NOTICE, path.as_str()));
            if is_usable(&editor) {
                edit_next(said, get_editor(editor, None), path, follow)
            } else {
                Step {
                    next: State::Resolving { file: path, follow },
                    output: said,
                    diagnostics: nothing(),
                    action: Action::ReadVariable(String::from_str(EDITOR_VARIABLE)),
                }
            }
        },
    }
}

/// The move once the editor is gone.
fn edited(follow: Option<String>, code: Option<i32>) -> (step: Step)
    ensures
        step@ == on_editor_exit(follow.deep_view(), code),
{
    let said = only(editor_exit_line(code));
    match follow {
        Some(output) => generate_next(said, output),
        None => finish_with(said, SUCCESS),
    }
}

/// Tells whether `event` answers what `state` waits for, that is, whether
/// [`step`] would move on it.
pub fn waits_for(state: &State, event: &Event) -> (yes: bool)
    ensures
        yes == expects(state@, event@),
{
    match state {
        State::Start => match event {
            Event::Identity(_) => true,
            _ => false,
        },
        State::Unprivileged => match event {
            Event::Arguments { .. } => true,
            _ => false,
        },
        State::Dispatch => match event {
            Event::Request(_) => true,
            _ => false,
        },
        State::Resolving { .. } => match event {
            Event::Variable(_) => true,
            _ => false,
        },
        State::Elevating | State::Editing { .. } | State::Generating => match event {
            Event::Exited(_) | Event::LaunchFailed(_) => true,
            _ => false,
        },
        State::Finished => false,
    }
}

/// The dispatcher's first move: nothing to print, and the effective user
/// identity asked for.
pub fn begin() -> (step: Step)
    ensures
        step@ == initial(),
{
    Step {
        next: State::Start,
        output: nothing(),
        diagnostics: nothing(),
        action: Action::CheckPrivilege,
    }
}

/// The move that `event` causes in `state`, or `None` when `event` is no
/// answer to what `state` waits for.
pub fn step(state: State, event: Event) -> (moved: Option<Step>)
    ensures
        match moved {
            Some(step) => next(state@, event@) == Some(step@),
            None => next(state@, event@) is None,
        },
        moved is Some <==> expects(state@, event@),
{
    match state {
        State::Start => match event {
            Event::Identity(euid) => Some(identified(euid)),
            _ => None,
        },
        State::Unprivileged => match event {
            Event::Arguments { program, rest } => Some(handed_on(program, rest)),
            _ => None,
        },
        State::Elevating => match event {
            Event::Exited(code) => Some(finish_with(nothing(), exit_code_after_elevation(code))),
            Event::LaunchFailed(reason) => Some(abort_with(reason)),
            _ => None,
        },
        State::Dispatch => match event {
            Event::Request(command) => Some(requested(command)),
            _ => None,
        },
        State::Resolving { file, follow } => match event {
            Event::Variable(value) => Some(
                edit_next(nothing(), get_editor(None, value), file, follow),
            ),
            _ => None,
        },
        State::Editing { follow } => match event {
            Event::Exited(code) => Some(edited(follow, code)),
            Event::LaunchFailed(reason) => Some(abort_with(reason)),
            _ => None,
        },
        State::Generating => match event {
            Event::Exited(code) => Some(finish_with(only(generator_exit_line(code)), SUCCESS)),
            Event::LaunchFailed(reason) => Some(abort_with(reason)),
            _ => None,
        },
        State::Finished => None,
    }
}

} // verus!
