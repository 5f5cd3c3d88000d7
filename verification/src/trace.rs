//! Runs of the machine, and what holds of every run.
//!
//! A run is what the machine does when it is fed a sequence of events, one
//! after the other, from some state. The theorems below speak of every
//! sequence of events, so they hold whatever the user asked for, whatever the
//! environment held and however the children ended.

use vstd::prelude::*;
use crate::command::{resolved_file, resolved_output, SpecCommand};
use crate::editor::{resolved_editor, usable, EDITOR_VARIABLE};
use crate::model::{
    abort, awaited, edit_session, elevated_exit_code, elevation, generation, initial, next, Child,
    SpecAction, SpecEvent, SpecState, SpecStep, FAILURE, SUCCESS,
};
use crate::privilege::{privileged, ROOT_EUID};

verus! {

/// The moves that the machine makes from `state` on `events`, in order. The
/// run ends with the events, or at the first event that is no answer to what
/// the machine waits for.
pub open spec fn run(state: SpecState, events: Seq<SpecEvent>) -> Seq<SpecStep>
    decreases events.len(),
{
    if events.len() == 0 {
        Seq::empty()
    } else {
        match next(state, events[0]) {
            Some(step) => seq![step] + run(step.next, events.drop_first()),
            None => Seq::empty(),
        }
    }
}

/// A whole session: the run from the machine's first state.
pub open spec fn session(events: Seq<SpecEvent>) -> Seq<SpecStep> {
    run(initial().next, events)
}

/// The state in which move `j` of a run from `state` is made.
pub open spec fn source(state: SpecState, events: Seq<SpecEvent>, j: int) -> SpecState {
    if j == 0 {
        state
    } else {
        run(state, events)[j - 1].next
    }
}

/// The actions of a sequence of moves, in order.
pub open spec fn actions(steps: Seq<SpecStep>) -> Seq<SpecAction> {
    steps.map_values(|step: SpecStep| step.action)
}

/// Whether a move starts a child of kind `child`.
pub open spec fn launches(step: SpecStep, child: Child) -> bool {
    step.action matches SpecAction::Launch(invocation) && invocation.child == child
}

/// The kinds of the children that a sequence of moves starts, in order.
pub open spec fn launched(steps: Seq<SpecStep>) -> Seq<Child>
    decreases steps.len(),
{
    if steps.len() == 0 {
        Seq::empty()
    } else {
        match steps[0].action {
            SpecAction::Launch(invocation) => seq![invocation.child] + launched(
                steps.drop_first(),
            ),
            _ => launched(steps.drop_first()),
        }
    }
}

/// Whether an event reports an identity other than the superuser's.
pub open spec fn unprivileged_identity(event: SpecEvent) -> bool {
    match event {
        SpecEvent::Identity(euid) => !privileged(euid),
        _ => false,
    }
}

/// A run that makes a move consists of that move and the run from the state
/// it leads to.
proof fn run_unfolds(state: SpecState, events: Seq<SpecEvent>)
    requires
        events.len() > 0,
        next(state, events[0]) is Some,
    ensures
        run(state, events).len() == 1 + run(
            next(state, events[0])->0.next,
            events.drop_first(),
        ).len(),
        run(state, events)[0] == next(state, events[0])->0,
        forall|j: int|
            1 <= j < run(state, events).len() ==> #[trigger] run(state, events)[j] == run(
                next(state, events[0])->0.next,
                events.drop_first(),
            )[j - 1],
{
}

/// A run goes on as long as the events answer what the machine waits for.
proof fn run_extends(state: SpecState, events: Seq<SpecEvent>, j: int)
    requires
        0 <= j < run(state, events).len(),
        j + 1 < events.len(),
        next(run(state, events)[j].next, events[j + 1]) is Some,
    ensures
        j + 1 < run(state, events).len(),
        run(state, events)[j + 1] == next(run(state, events)[j].next, events[j + 1])->0,
    decreases j,
{
    run_unfolds(state, events);
    let first = next(state, events[0])->0;
    let tail = events.drop_first();
    if j == 0 {
        run_unfolds(first.next, tail);
    } else {
        run_extends(first.next, tail, j - 1);
    }
}

/// A run of three events that all answer what the machine waits for.
proof fn run_of_three(state: SpecState, events: Seq<SpecEvent>)
    requires
        events.len() == 3,
        next(state, events[0]) is Some,
        next(next(state, events[0])->0.next, events[1]) is Some,
        next(next(next(state, events[0])->0.next, events[1])->0.next, events[2]) is Some,
    ensures
        run(state, events) == seq![
            next(state, events[0])->0,
            next(next(state, events[0])->0.next, events[1])->0,
            next(next(next(state, events[0])->0.next, events[1])->0.next, events[2])->0,
        ],
{
    run_is_bounded(state, events);
    run_unfolds(state, events);
    run_extends(state, events, 0);
    run_extends(state, events, 1);
}

/// No run is longer than the events it is fed.
pub proof fn run_is_bounded(state: SpecState, events: Seq<SpecEvent>)
    ensures
        run(state, events).len() <= events.len(),
    decreases events.len(),
{
    if events.len() > 0 {
        match next(state, events[0]) {
            Some(step) => run_is_bounded(step.next, events.drop_first()),
            None => {},
        }
    }
}

/// Every move of a run is the machine's answer to the event of the same
/// position, in the state that the move before it led to.
pub proof fn run_is_stepwise(state: SpecState, events: Seq<SpecEvent>, j: int)
    requires
        0 <= j < run(state, events).len(),
    ensures
        j < events.len(),
        next(source(state, events, j), events[j]) == Some(run(state, events)[j]),
    decreases j,
{
    run_is_bounded(state, events);
    let first = next(state, events[0])->0;
    run_unfolds(state, events);
    if j > 0 {
        let tail = events.drop_first();
        run_is_stepwise(first.next, tail, j - 1);
    }
}

/// Once the machine has told the process to exit, it makes no further move.
pub proof fn nothing_follows_exit(state: SpecState, events: Seq<SpecEvent>, j: int)
    requires
        0 <= j < run(state, events).len(),
        run(state, events)[j].action is Exit,
    ensures
        run(state, events).len() == j + 1,
{
    if j + 1 < run(state, events).len() {
        run_is_stepwise(state, events, j);
        run_is_stepwise(state, events, j + 1);
    }
}

/// While a child runs, the machine waits: the move after a launch is the
/// answer to that child's end or to its failure to start, and to nothing
/// else. So no two children ever run at once.
pub proof fn launch_is_awaited(state: SpecState, events: Seq<SpecEvent>, j: int)
    requires
        0 <= j,
        j + 1 < run(state, events).len(),
        run(state, events)[j].action is Launch,
    ensures
        j + 1 < events.len(),
        events[j + 1] is Exited || events[j + 1] is LaunchFailed,
{
    run_is_stepwise(state, events, j);
    run_is_stepwise(state, events, j + 1);
}

/// A child that cannot be started ends the process at once: the move that
/// answers the failure prints nothing but the diagnostic, on the error
/// stream, and exits with the failure code, and no move follows it. This
/// holds of the elevation tool, of the editor and of the generator, and of
/// the generator whether `edit` or `generate` came to start it.
pub proof fn launch_failure_is_fatal(events: Seq<SpecEvent>, j: int, reason: Seq<char>)
    requires
        0 <= j < session(events).len(),
        session(events)[j].action is Launch,
        j + 1 < events.len(),
        events[j + 1] == SpecEvent::LaunchFailed(reason),
    ensures
        session(events).len() == j + 2,
        session(events)[j + 1] == abort(reason),
        abort(reason).output.len() == 0,
        abort(reason).diagnostics.len() == 1,
        abort(reason).action == SpecAction::Exit(FAILURE),
{
    let steps = session(events);
    assert(awaited(steps[j].next, steps[j].action)) by {
        run_is_stepwise(SpecState::Start, events, j);
    }
    run_extends(SpecState::Start, events, j);
    nothing_follows_exit(SpecState::Start, events, j + 1);
}

/// Whether a state belongs to the elevation path.
pub open spec fn elevating(state: SpecState) -> bool {
    state is Unprivileged || state is Elevating || state is Finished
}

/// Whether a move belongs to the elevation path: it reads the command line,
/// starts the elevation tool or ends the process, and stays on the path.
pub open spec fn elevates(step: SpecStep) -> bool {
    &&& elevating(step.next)
    &&& step.action is ReadArguments || launches(step, Child::Elevation) || step.action is Exit
}

/// Whether a state belongs to the superuser's path.
pub open spec fn dispatching(state: SpecState) -> bool {
    !(state is Start) && !(state is Unprivileged) && !(state is Elevating)
}

/// From a state of the elevation path, every move belongs to it.
proof fn elevation_path_is_closed(state: SpecState, events: Seq<SpecEvent>, j: int)
    requires
        elevating(state),
        0 <= j < run(state, events).len(),
    ensures
        elevates(run(state, events)[j]),
    decreases j,
{
    run_is_stepwise(state, events, j);
    if j > 0 {
        elevation_path_is_closed(state, events, j - 1);
    }
}

/// From a state of the superuser's path, every move leads to one.
proof fn dispatch_path_is_closed(state: SpecState, events: Seq<SpecEvent>, j: int)
    requires
        dispatching(state),
        0 <= j < run(state, events).len(),
    ensures
        dispatching(run(state, events)[j].next),
        !launches(run(state, events)[j], Child::Elevation),
    decreases j,
{
    run_is_stepwise(state, events, j);
    if j > 0 {
        dispatch_path_is_closed(state, events, j - 1);
    }
}

/// When the process is not the superuser, the session never leaves the
/// elevation path: it asks for no request and no variable, and starts neither
/// editor nor generator, whatever events it is fed.
pub proof fn unprivileged_session_only_elevates(events: Seq<SpecEvent>, j: int)
    requires
        events.len() >= 1,
        unprivileged_identity(events[0]),
        0 <= j < session(events).len(),
    ensures
        elevates(session(events)[j]),
{
    run_unfolds(SpecState::Start, events);
    if j > 0 {
        elevation_path_is_closed(SpecState::Unprivileged, events.drop_first(), j - 1);
    }
}

/// When the process is the superuser, the session never elevates.
pub proof fn privileged_session_never_elevates(events: Seq<SpecEvent>, j: int)
    requires
        events.len() >= 1,
        !unprivileged_identity(events[0]),
        0 <= j < session(events).len(),
    ensures
        dispatching(session(events)[j].next),
        !launches(session(events)[j], Child::Elevation),
{
    run_unfolds(SpecState::Start, events);
    if j > 0 {
        dispatch_path_is_closed(SpecState::Dispatch, events.drop_first(), j - 1);
    }
}

/// The exit code of every session. After a child that could not be started
/// it is the failure code. Otherwise, when the process is not the superuser,
/// it is the exit code of the elevated re-run, or the failure code if that
/// left none; and when it is the superuser, it is success, whatever the exit
/// codes of the editor and the generator.
pub proof fn exit_code_of_session(events: Seq<SpecEvent>, j: int)
    requires
        0 <= j < session(events).len(),
        session(events)[j].action is Exit,
    ensures
        1 <= j < events.len(),
        session(events)[j].action->Exit_0 == match events[j] {
            SpecEvent::Exited(code) => if unprivileged_identity(events[0]) {
                elevated_exit_code(code)
            } else {
                SUCCESS
            },
            _ => FAILURE,
        },
{
    run_is_stepwise(SpecState::Start, events, j);
    if j >= 1 {
        if unprivileged_identity(events[0]) {
            unprivileged_session_only_elevates(events, j - 1);
        } else {
            privileged_session_never_elevates(events, j - 1);
        }
    }
}

/// The children that a request calls for, in the order in which they run.
pub open spec fn plan(command: SpecCommand) -> Seq<Child> {
    match command {
        SpecCommand::Edit { no_generate, .. } => if no_generate {
            seq![Child::Editor]
        } else {
            seq![Child::Editor, Child::Generator]
        },
        SpecCommand::Generate { .. } => seq![Child::Generator],
    }
}

/// The children that are still to run once the machine is in `state`, for the
/// states in which that is settled.
pub open spec fn outstanding(state: SpecState) -> Seq<Child> {
    match state {
        SpecState::Unprivileged => seq![Child::Elevation],
        SpecState::Resolving { follow, .. } => match follow {
            Some(_) => seq![Child::Editor, Child::Generator],
            None => seq![Child::Editor],
        },
        SpecState::Editing { follow } => match follow {
            Some(_) => seq![Child::Generator],
            None => Seq::empty(),
        },
        _ => Seq::empty(),
    }
}

/// What a whole session may start, by its first two events: nothing but the
/// elevation tool when the process is not the superuser; otherwise what the
/// request calls for, in that order.
pub open spec fn allowance(events: Seq<SpecEvent>) -> Seq<Child> {
    if events.len() >= 1 && unprivileged_identity(events[0]) {
        seq![Child::Elevation]
    } else if events.len() >= 2 {
        match events[1] {
            SpecEvent::Request(command) => plan(command),
            _ => Seq::empty(),
        }
    } else {
        Seq::empty()
    }
}

/// The children of a move followed by more moves: the move's own child, if it
/// starts one, then the children of the rest.
proof fn launched_unfolds(step: SpecStep, rest: Seq<SpecStep>)
    ensures
        launched(seq![step] + rest) == match step.action {
            SpecAction::Launch(invocation) => seq![invocation.child] + launched(rest),
            _ => launched(rest),
        },
{
    assert((seq![step] + rest).drop_first() =~= rest);
}

/// Every child that a move of a sequence starts is among the children
/// started by the sequence.
proof fn launched_holds_every_launch(steps: Seq<SpecStep>, j: int)
    requires
        0 <= j < steps.len(),
    ensures
        steps[j].action matches SpecAction::Launch(invocation) ==> launched(steps).contains(
            invocation.child,
        ),
    decreases steps.len(),
{
    if let SpecAction::Launch(invocation) = steps[j].action {
        let rest = steps.drop_first();
        if j == 0 {
            assert(launched(steps)[0] == invocation.child);
        } else {
            launched_holds_every_launch(rest, j - 1);
            let k = choose|k: int|
                0 <= k < launched(rest).len() && launched(rest)[k] == invocation.child;
            if steps[0].action is Launch {
                assert(launched(steps)[k + 1] == invocation.child);
            } else {
                assert(launched(steps)[k] == invocation.child);
            }
        }
    }
}

/// From a state in which the children still to run are settled, a run starts
/// some first part of them, in their order, and no other child.
pub proof fn children_are_outstanding(state: SpecState, events: Seq<SpecEvent>)
    requires
        !(state is Start),
        !(state is Dispatch),
    ensures
        launched(run(state, events)).is_prefix_of(outstanding(state)),
    decreases events.len(),
{
    if events.len() > 0 {
        match next(state, events[0]) {
            Some(step) => {
                children_are_outstanding(step.next, events.drop_first());
                launched_unfolds(step, run(step.next, events.drop_first()));
            },
            None => {},
        }
    }
}

/// After a request, a run starts some first part of the children that the
/// request calls for, in their order, and no other child.
pub proof fn children_follow_plan(command: SpecCommand, events: Seq<SpecEvent>)
    requires
        events.len() > 0,
        events[0] == SpecEvent::Request(command),
    ensures
        launched(run(SpecState::Dispatch, events)).is_prefix_of(plan(command)),
{
    let step = next(SpecState::Dispatch, events[0])->0;
    children_are_outstanding(step.next, events.drop_first());
    launched_unfolds(step, run(step.next, events.drop_first()));
}

/// The children that a session starts are a first part of its allowance: an
/// `edit` starts the editor and then the generator, never the generator
/// first and neither of them twice.
pub proof fn session_stays_within_allowance(events: Seq<SpecEvent>)
    ensures
        launched(session(events)).is_prefix_of(allowance(events)),
{
    if events.len() > 0 {
        match next(SpecState::Start, events[0]) {
            Some(step) => {
                let tail = events.drop_first();
                launched_unfolds(step, run(step.next, tail));
                if step.next is Dispatch {
                    if tail.len() > 0 {
                        match tail[0] {
                            SpecEvent::Request(command) => {
                                children_follow_plan(command, tail);
                            },
                            _ => {},
                        }
                    }
                } else {
                    children_are_outstanding(step.next, tail);
                }
            },
            None => {},
        }
    }
}

/// With `--no-generate`, a session never starts the generator: whatever the
/// other options, the environment and the outcome of the editor.
pub proof fn no_generate_never_generates(events: Seq<SpecEvent>, j: int)
    requires
        events.len() >= 2,
        events[1] matches SpecEvent::Request(SpecCommand::Edit { no_generate, .. }) && no_generate,
        0 <= j < session(events).len(),
    ensures
        !launches(session(events)[j], Child::Generator),
{
    session_stays_within_allowance(events);
    launched_holds_every_launch(session(events), j);
    if launches(session(events)[j], Child::Generator) {
        let started = launched(session(events));
        let k = choose|k: int| 0 <= k < started.len() && started[k] == Child::Generator;
        assert(started[k] == allowance(events)[k]);
    }
}

/// The generator is only ever started in answer to one of two events: a
/// request to generate, or the exit of the editor that the move before
/// started. So in an `edit` session the editor runs first, and the generator
/// starts only once the editor is gone.
pub proof fn generator_waits_for_editor(events: Seq<SpecEvent>, j: int)
    requires
        0 <= j < session(events).len(),
        launches(session(events)[j], Child::Generator),
    ensures
        1 <= j < events.len(),
        events[j] matches SpecEvent::Request(command) ==> command is Generate,
        events[j] is Request || (events[j] is Exited && launches(
            session(events)[j - 1],
            Child::Editor,
        )),
{
    run_is_stepwise(SpecState::Start, events, j);
    if j >= 1 {
        run_is_stepwise(SpecState::Start, events, j - 1);
    }
}

/// The session that is not the superuser's, whose elevated re-run starts and
/// ends: the command line is handed to the elevation tool unchanged, and the
/// process exits with the re-run's exit code, or with the failure code if it
/// left none.
pub proof fn elevated_session_actions(
    euid: u32,
    program: Seq<char>,
    rest: Seq<Seq<char>>,
    code: Option<i32>,
)
    requires
        !privileged(euid),
    ensures
        actions(
            session(
                seq![
                    SpecEvent::Identity(euid),
                    SpecEvent::Arguments { program, rest },
                    SpecEvent::Exited(code),
                ],
            ),
        ) == seq![
            SpecAction::ReadArguments,
            SpecAction::Launch(elevation(program, rest)),
            SpecAction::Exit(elevated_exit_code(code)),
        ],
{
    let events = seq![
        SpecEvent::Identity(euid),
        SpecEvent::Arguments { program, rest },
        SpecEvent::Exited(code),
    ];
    run_of_three(SpecState::Start, events);
}

/// The superuser's `generate` session whose generator starts and ends: the
/// generator is told to write the file given, or the default, and the process
/// exits in success whatever the generator's exit code.
pub proof fn generate_session_actions(output: Option<Seq<char>>, code: Option<i32>)
    ensures
        actions(
            session(
                seq![
                    SpecEvent::Identity(ROOT_EUID),
                    SpecEvent::Request(SpecCommand::Generate { output }),
                    SpecEvent::Exited(code),
                ],
            ),
        ) == seq![
            SpecAction::ParseRequest,
            SpecAction::Launch(generation(resolved_output(output))),
            SpecAction::Exit(SUCCESS),
        ],
{
    let events = seq![
        SpecEvent::Identity(ROOT_EUID),
        SpecEvent::Request(SpecCommand::Generate { output }),
        SpecEvent::Exited(code),
    ];
    run_of_three(SpecState::Start, events);
}

/// The events of the superuser's `edit` session in which every child starts
/// and ends: the identity, the request, the editor variable if the machine
/// asks for it, the editor's exit, and the generator's exit if it is run.
pub open spec fn edit_events(
    command: SpecCommand,
    env: Option<Seq<char>>,
    editor_code: Option<i32>,
    generator_code: Option<i32>,
) -> Seq<SpecEvent>
    recommends
        command is Edit,
{
    seq![SpecEvent::Identity(ROOT_EUID), SpecEvent::Request(command)] + (if usable(
        command->Edit_editor,
    ) {
        Seq::empty()
    } else {
        seq![SpecEvent::Variable(env)]
    }) + seq![SpecEvent::Exited(editor_code)] + (if command->no_generate {
        Seq::empty()
    } else {
        seq![SpecEvent::Exited(generator_code)]
    })
}

/// What the machine asks for in the superuser's `edit` session in which every
/// child starts and ends.
pub open spec fn edit_actions(command: SpecCommand, env: Option<Seq<char>>) -> Seq<SpecAction>
    recommends
        command is Edit,
{
    seq![SpecAction::ParseRequest] + (if usable(command->Edit_editor) {
        Seq::empty()
    } else {
        seq![SpecAction::ReadVariable(EDITOR_VARIABLE@)]
    }) + seq![
        SpecAction::Launch(
            edit_session(resolved_editor(command->Edit_editor, env), resolved_file(command->file)),
        ),
    ] + (if command->no_generate {
        seq![SpecAction::Exit(SUCCESS)]
    } else {
        seq![
            SpecAction::Launch(generation(resolved_output(command->Edit_output))),
            SpecAction::Exit(SUCCESS),
        ]
    })
}

/// What the superuser's `edit` session does when every child starts and
/// ends. The environment is asked for the editor only if the command line
/// names no usable one. The editor that runs is the resolved one, on the file
/// given or the default. Once it is gone, whatever its exit code, the
/// generator runs on the output given or the default, unless `--no-generate`
/// was given; then, or after the generator, the process exits in success.
pub proof fn edit_session_actions(
    command: SpecCommand,
    env: Option<Seq<char>>,
    editor_code: Option<i32>,
    generator_code: Option<i32>,
)
    requires
        command is Edit,
    ensures
        actions(session(edit_events(command, env, editor_code, generator_code))) == edit_actions(
            command,
            env,
        ),
{
    let events = edit_events(command, env, editor_code, generator_code);
    run_is_bounded(SpecState::Start, events);
    run_unfolds(SpecState::Start, events);
    run_extends(SpecState::Start, events, 0);
    run_extends(SpecState::Start, events, 1);
    if events.len() > 3 {
        run_extends(SpecState::Start, events, 2);
    }
    if events.len() > 4 {
        run_extends(SpecState::Start, events, 3);
    }
}

} // verus!
