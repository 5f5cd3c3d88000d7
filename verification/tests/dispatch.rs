use grubutils::command::GCommand;
use grubutils::dispatch::{
    begin, code_to_report, editor_exit_line, elevate, exit_code_after_elevation, generate_grub,
    generator_exit_line, open_editor, step, waits_for, Action, Event, Invocation, State, Step,
};
use grubutils::model::{
    Child, ELEVATION_TOOL, ELEVATION_WARNING, FAILURE, GENERATOR_TOOL, KEEP_ENVIRONMENT,
    MISSING_STATUS, OUTPUT_FLAG, ROOT_NOTICE, SUCCESS,
};

fn text(s: &str) -> String {
    String::from(s)
}

fn texts(items: &[&str]) -> Vec<String> {
    items.iter().map(|s| String::from(*s)).collect()
}

fn sudo(args: &[&str]) -> Action {
    Action::Launch(Invocation { child: Child::Elevation, program: text("sudo"), args: texts(args) })
}

fn editor(program: &str, file: &str) -> Action {
    Action::Launch(Invocation {
        child: Child::Editor,
        program: text(program),
        args: texts(&[file]),
    })
}

fn generator(output: &str) -> Action {
    Action::Launch(Invocation {
        child: Child::Generator,
        program: text("grub-mkconfig"),
        args: texts(&["-o", output]),
    })
}

fn edit(no_generate: bool, file: Option<&str>, output: Option<&str>, editor: Option<&str>) -> Event {
    Event::Request(GCommand::Edit {
        no_generate,
        file: file.map(String::from),
        output: output.map(String::from),
        editor: editor.map(String::from),
    })
}

fn generate(output: Option<&str>) -> Event {
    Event::Request(GCommand::Generate { output: output.map(String::from) })
}

fn moved(state: State, event: Event) -> Step {
    match step(state, event) {
        Some(step) => step,
        None => panic!("the event was not accepted"),
    }
}

/// Feeds the events to the dispatcher from its first state and returns the
/// first move and the moves that the events caused, up to the first event
/// that was not accepted.
fn play(events: Vec<Event>) -> Vec<(Vec<String>, Vec<String>, Action)> {
    let first = begin();
    let mut record = vec![(first.output, first.diagnostics, first.action)];
    let mut state = first.next;
    for event in events {
        match step(state, event) {
            Some(next) => {
                state = next.next;
                record.push((next.output, next.diagnostics, next.action));
            }
            None => return record,
        }
    }
    record
}

/// Feeds the events to the dispatcher from its first state, passing over
/// every event that is no answer to what the dispatcher waits for.
fn play_what_fits(events: Vec<Event>) -> Vec<(Vec<String>, Vec<String>, Action)> {
    let first = begin();
    let mut record = vec![(first.output, first.diagnostics, first.action)];
    let mut state = first.next;
    for event in events {
        if answers(&state, &event) {
            let next = moved(state, event);
            state = next.next;
            record.push((next.output, next.diagnostics, next.action));
        }
    }
    record
}

fn actions_of(record: &[(Vec<String>, Vec<String>, Action)]) -> Vec<&Action> {
    record.iter().map(|entry| &entry.2).collect()
}

fn printed(record: &[(Vec<String>, Vec<String>, Action)]) -> Vec<String> {
    record.iter().flat_map(|entry| entry.0.iter().cloned()).collect()
}

fn complained(record: &[(Vec<String>, Vec<String>, Action)]) -> Vec<String> {
    record.iter().flat_map(|entry| entry.1.iter().cloned()).collect()
}

fn starts_generator(action: &Action) -> bool {
    matches!(action, Action::Launch(Invocation { child: Child::Generator, .. }))
}

fn starts_editor(action: &Action) -> bool {
    matches!(action, Action::Launch(Invocation { child: Child::Editor, .. }))
}

#[test]
fn the_constants_of_the_machine() {
    assert_eq!(ELEVATION_TOOL, "sudo");
    assert_eq!(KEEP_ENVIRONMENT, "-E");
    assert_eq!(GENERATOR_TOOL, "grub-mkconfig");
    assert_eq!(OUTPUT_FLAG, "-o");
    assert_eq!(SUCCESS, 0);
    assert_eq!(FAILURE, 1);
    assert_eq!(MISSING_STATUS, -127);
    assert_eq!(ROOT_NOTICE, "GrubUtils is running as root");
    assert_eq!(
        ELEVATION_WARNING,
        "Warning: GrubUtils was not run using root privileges, attempting to use sudo to elevate privileges"
    );
}

#[test]
fn begin_asks_for_the_identity() {
    let first = begin();
    assert_eq!(first.next, State::Start);
    assert!(first.output.is_empty());
    assert!(first.diagnostics.is_empty());
    assert_eq!(first.action, Action::CheckPrivilege);
}

#[test]
fn root_goes_on_to_the_request() {
    let step = moved(State::Start, Event::Identity(0));
    assert_eq!(step.next, State::Dispatch);
    assert_eq!(step.output, texts(&["GrubUtils is running as root"]));
    assert!(step.diagnostics.is_empty());
    assert_eq!(step.action, Action::ParseRequest);
}

#[test]
fn anyone_else_goes_on_to_elevation() {
    for euid in [1u32, 1000, 65534, u32::MAX] {
        let step = moved(State::Start, Event::Identity(euid));
        assert_eq!(step.next, State::Unprivileged);
        assert_eq!(
            step.output,
            texts(&[
                "Warning: GrubUtils was not run using root privileges, attempting to use sudo to elevate privileges"
            ])
        );
        assert!(step.diagnostics.is_empty());
        assert_eq!(step.action, Action::ReadArguments);
    }
}

#[test]
fn elevation_forwards_the_command_line() {
    let step = moved(
        State::Unprivileged,
        Event::Arguments {
            program: text("/usr/local/bin/grubutils"),
            rest: texts(&["edit", "--no-generate", "-f", "/tmp/my grub", "-e", ""]),
        },
    );
    assert_eq!(step.next, State::Elevating);
    assert!(step.output.is_empty());
    assert!(step.diagnostics.is_empty());
    assert_eq!(
        step.action,
        sudo(&[
            "-E",
            "/usr/local/bin/grubutils",
            "edit",
            "--no-generate",
            "-f",
            "/tmp/my grub",
            "-e",
            ""
        ])
    );
}

#[test]
fn elevation_without_arguments() {
    let step = moved(
        State::Unprivileged,
        Event::Arguments { program: text("grubutils"), rest: Vec::new() },
    );
    assert_eq!(step.action, sudo(&["-E", "grubutils"]));
}

#[test]
fn elevate_builds_the_invocation() {
    let invocation = elevate(text("./gu"), texts(&["generate", "-o", "/tmp/out"]));
    assert_eq!(invocation.child, Child::Elevation);
    assert_eq!(invocation.program, "sudo");
    assert_eq!(invocation.args, texts(&["-E", "./gu", "generate", "-o", "/tmp/out"]));
}

#[test]
fn open_editor_builds_the_invocation() {
    let invocation = open_editor(text("/usr/bin/vi"), text("/etc/default/grub"));
    assert_eq!(invocation.child, Child::Editor);
    assert_eq!(invocation.program, "/usr/bin/vi");
    assert_eq!(invocation.args, texts(&["/etc/default/grub"]));
}

#[test]
fn generate_grub_builds_the_invocation() {
    let invocation = generate_grub(text("/boot/grub/grub.cfg"));
    assert_eq!(invocation.child, Child::Generator);
    assert_eq!(invocation.program, "grub-mkconfig");
    assert_eq!(invocation.args, texts(&["-o", "/boot/grub/grub.cfg"]));
}

#[test]
fn elevated_exit_code_is_the_childs() {
    for code in [0, 1, 2, 77, 255, -1] {
        let step = moved(State::Elevating, Event::Exited(Some(code)));
        assert_eq!(step.next, State::Finished);
        assert!(step.output.is_empty());
        assert!(step.diagnostics.is_empty());
        assert_eq!(step.action, Action::Exit(code));
    }
}

#[test]
fn elevated_exit_code_falls_back_to_one() {
    let step = moved(State::Elevating, Event::Exited(None));
    assert_eq!(step.next, State::Finished);
    assert_eq!(step.action, Action::Exit(1));
    assert_eq!(exit_code_after_elevation(None), 1);
    assert_eq!(exit_code_after_elevation(Some(0)), 0);
    assert_eq!(exit_code_after_elevation(Some(130)), 130);
}

#[test]
fn reported_code_falls_back_to_minus_127() {
    assert_eq!(code_to_report(None), -127);
    assert_eq!(code_to_report(Some(0)), 0);
    assert_eq!(code_to_report(Some(2)), 2);
    assert_eq!(code_to_report(Some(-127)), -127);
}

#[test]
fn exit_lines() {
    assert_eq!(editor_exit_line(Some(0)), "Editor exited with code 0");
    assert_eq!(editor_exit_line(Some(130)), "Editor exited with code 130");
    assert_eq!(editor_exit_line(None), "Editor exited with code -127");
    assert_eq!(generator_exit_line(Some(0)), "grub-mkconfig exited with code 0");
    assert_eq!(generator_exit_line(Some(1)), "grub-mkconfig exited with code 1");
    assert_eq!(generator_exit_line(None), "grub-mkconfig exited with code -127");
}

#[test]
fn launch_failure_is_fatal_for_every_child() {
    let waiting = [
        State::Elevating,
        State::Editing { follow: None },
        State::Editing { follow: Some(text("/boot/grub/grub.cfg")) },
        State::Generating,
    ];
    for state in waiting {
        let step = moved(state, Event::LaunchFailed(text("No such file or directory (os error 2)")));
        assert_eq!(step.next, State::Finished);
        assert!(step.output.is_empty());
        assert_eq!(
            step.diagnostics,
            texts(&["Failed to execute command: No such file or directory (os error 2)"])
        );
        assert_eq!(step.action, Action::Exit(1));
    }
}

#[test]
fn generate_uses_the_default_output() {
    let step = moved(State::Dispatch, generate(None));
    assert_eq!(step.next, State::Generating);
    assert!(step.output.is_empty());
    assert!(step.diagnostics.is_empty());
    assert_eq!(step.action, generator("/boot/grub/grub.cfg"));
}

#[test]
fn generate_uses_the_output_given() {
    let step = moved(State::Dispatch, generate(Some("/tmp/grub.cfg")));
    assert_eq!(step.next, State::Generating);
    assert_eq!(step.action, generator("/tmp/grub.cfg"));
}

#[test]
fn generator_exit_is_reported_and_ends_in_success() {
    for (code, line) in [
        (Some(0), "grub-mkconfig exited with code 0"),
        (Some(1), "grub-mkconfig exited with code 1"),
        (Some(255), "grub-mkconfig exited with code 255"),
        (None, "grub-mkconfig exited with code -127"),
    ] {
        let step = moved(State::Generating, Event::Exited(code));
        assert_eq!(step.next, State::Finished);
        assert_eq!(step.output, texts(&[line]));
        assert!(step.diagnostics.is_empty());
        assert_eq!(step.action, Action::Exit(0));
    }
}

#[test]
fn edit_with_an_editor_starts_it_at_once() {
    let step = moved(State::Dispatch, edit(false, None, None, Some("/usr/bin/vim")));
    assert_eq!(step.next, State::Editing { follow: Some(text("/boot/grub/grub.cfg")) });
    assert_eq!(
        step.output,
        texts(&["Using grub file: /etc/default/grub", "Using editor: /usr/bin/vim"])
    );
    assert!(step.diagnostics.is_empty());
    assert_eq!(step.action, editor("/usr/bin/vim", "/etc/default/grub"));
}

#[test]
fn edit_with_all_options() {
    let step = moved(
        State::Dispatch,
        edit(true, Some("/tmp/grub"), Some("/tmp/grub.cfg"), Some("ed")),
    );
    assert_eq!(step.next, State::Editing { follow: None });
    assert_eq!(step.output, texts(&["Using grub file: /tmp/grub", "Using editor: ed"]));
    assert_eq!(step.action, editor("ed", "/tmp/grub"));
}

#[test]
fn edit_without_an_editor_asks_the_environment() {
    let step = moved(State::Dispatch, edit(false, None, Some("/tmp/out.cfg"), None));
    assert_eq!(
        step.next,
        State::Resolving { file: text("/etc/default/grub"), follow: Some(text("/tmp/out.cfg")) }
    );
    assert_eq!(step.output, texts(&["Using grub file: /etc/default/grub"]));
    assert!(step.diagnostics.is_empty());
    assert_eq!(step.action, Action::ReadVariable(text("EDITOR")));
}

#[test]
fn edit_with_an_empty_editor_asks_the_environment() {
    let step = moved(State::Dispatch, edit(true, Some("/tmp/grub"), None, Some("")));
    assert_eq!(step.next, State::Resolving { file: text("/tmp/grub"), follow: None });
    assert_eq!(step.output, texts(&["Using grub file: /tmp/grub"]));
    assert_eq!(step.action, Action::ReadVariable(text("EDITOR")));
}

#[test]
fn the_environment_names_the_editor() {
    let step = moved(
        State::Resolving { file: text("/etc/default/grub"), follow: None },
        Event::Variable(Some(text("/usr/bin/emacs"))),
    );
    assert_eq!(step.next, State::Editing { follow: None });
    assert_eq!(step.output, texts(&["Using editor: /usr/bin/emacs"]));
    assert!(step.diagnostics.is_empty());
    assert_eq!(step.action, editor("/usr/bin/emacs", "/etc/default/grub"));
}

#[test]
fn an_unset_or_empty_variable_gives_the_default_editor() {
    for value in [None, Some(text(""))] {
        let step = moved(
            State::Resolving { file: text("/tmp/grub"), follow: Some(text("/tmp/out")) },
            Event::Variable(value),
        );
        assert_eq!(step.next, State::Editing { follow: Some(text("/tmp/out")) });
        assert_eq!(step.output, texts(&["Using editor: /usr/bin/nano"]));
        assert_eq!(step.action, editor("/usr/bin/nano", "/tmp/grub"));
    }
}

#[test]
fn generation_follows_the_editor_whatever_its_exit_code() {
    for (code, line) in [
        (Some(0), "Editor exited with code 0"),
        (Some(1), "Editor exited with code 1"),
        (Some(130), "Editor exited with code 130"),
        (None, "Editor exited with code -127"),
    ] {
        let step = moved(
            State::Editing { follow: Some(text("/boot/grub/grub.cfg")) },
            Event::Exited(code),
        );
        assert_eq!(step.next, State::Generating);
        assert_eq!(step.output, texts(&[line]));
        assert!(step.diagnostics.is_empty());
        assert_eq!(step.action, generator("/boot/grub/grub.cfg"));
    }
}

#[test]
fn no_generation_after_the_editor_when_suppressed() {
    for (code, line) in [
        (Some(0), "Editor exited with code 0"),
        (Some(2), "Editor exited with code 2"),
        (None, "Editor exited with code -127"),
    ] {
        let step = moved(State::Editing { follow: None }, Event::Exited(code));
        assert_eq!(step.next, State::Finished);
        assert_eq!(step.output, texts(&[line]));
        assert!(step.diagnostics.is_empty());
        assert_eq!(step.action, Action::Exit(0));
    }
}

fn one_of_each_event() -> Vec<Event> {
    vec![
        Event::Identity(0),
        Event::Identity(1000),
        Event::Arguments { program: text("gu"), rest: texts(&["generate"]) },
        generate(None),
        edit(false, None, None, None),
        Event::Variable(None),
        Event::Variable(Some(text("vi"))),
        Event::Exited(Some(0)),
        Event::Exited(None),
        Event::LaunchFailed(text("not found")),
    ]
}

fn one_of_each_state() -> Vec<State> {
    vec![
        State::Start,
        State::Unprivileged,
        State::Elevating,
        State::Dispatch,
        State::Resolving { file: text("/etc/default/grub"), follow: None },
        State::Resolving { file: text("/etc/default/grub"), follow: Some(text("/tmp/o")) },
        State::Editing { follow: None },
        State::Editing { follow: Some(text("/tmp/o")) },
        State::Generating,
        State::Finished,
    ]
}

fn answers(state: &State, event: &Event) -> bool {
    match state {
        State::Start => matches!(event, Event::Identity(_)),
        State::Unprivileged => matches!(event, Event::Arguments { .. }),
        State::Dispatch => matches!(event, Event::Request(_)),
        State::Resolving { .. } => matches!(event, Event::Variable(_)),
        State::Elevating | State::Editing { .. } | State::Generating => {
            matches!(event, Event::Exited(_) | Event::LaunchFailed(_))
        }
        State::Finished => false,
    }
}

#[test]
fn a_state_moves_only_on_the_events_it_waits_for() {
    let states = one_of_each_state().len();
    let events = one_of_each_event().len();
    for s in 0..states {
        for e in 0..events {
            let state = one_of_each_state().swap_remove(s);
            let event = one_of_each_event().swap_remove(e);
            let expected = answers(&state, &event);
            assert_eq!(waits_for(&state, &event), expected, "state {} event {}", s, e);
            assert_eq!(step(state, event).is_some(), expected, "state {} event {}", s, e);
        }
    }
}

#[test]
fn nothing_moves_a_finished_dispatcher() {
    for event in one_of_each_event() {
        assert_eq!(step(State::Finished, event), None);
    }
}

#[test]
fn every_move_asks_for_what_its_state_waits_for() {
    let states = one_of_each_state().len();
    let events = one_of_each_event().len();
    for s in 0..states {
        for e in 0..events {
            let state = one_of_each_state().swap_remove(s);
            let event = one_of_each_event().swap_remove(e);
            if let Some(step) = step(state, event) {
                let fits = match (&step.next, &step.action) {
                    (State::Start, Action::CheckPrivilege) => true,
                    (State::Unprivileged, Action::ReadArguments) => true,
                    (State::Dispatch, Action::ParseRequest) => true,
                    (State::Resolving { .. }, Action::ReadVariable(_)) => true,
                    (State::Elevating, Action::Launch(i)) => i.child == Child::Elevation,
                    (State::Editing { .. }, Action::Launch(i)) => i.child == Child::Editor,
                    (State::Generating, Action::Launch(i)) => i.child == Child::Generator,
                    (State::Finished, Action::Exit(_)) => true,
                    _ => false,
                };
                assert!(fits, "state {} event {}", s, e);
            }
        }
    }
}

#[test]
fn session_of_an_unprivileged_user() {
    let record = play(vec![
        Event::Identity(1000),
        Event::Arguments { program: text("/usr/bin/grubutils"), rest: texts(&["edit", "-e", "vi"]) },
        Event::Exited(Some(4)),
    ]);
    assert_eq!(
        actions_of(&record),
        vec![
            &Action::CheckPrivilege,
            &Action::ReadArguments,
            &sudo(&["-E", "/usr/bin/grubutils", "edit", "-e", "vi"]),
            &Action::Exit(4),
        ]
    );
    assert_eq!(
        printed(&record),
        texts(&[
            "Warning: GrubUtils was not run using root privileges, attempting to use sudo to elevate privileges"
        ])
    );
    assert!(complained(&record).is_empty());
}

#[test]
fn session_of_an_unprivileged_user_whose_child_was_killed() {
    let record = play(vec![
        Event::Identity(1000),
        Event::Arguments { program: text("gu"), rest: texts(&["generate"]) },
        Event::Exited(None),
    ]);
    assert_eq!(record.last().map(|entry| &entry.2), Some(&Action::Exit(1)));
}

#[test]
fn session_of_an_unprivileged_user_without_the_elevation_tool() {
    let record = play(vec![
        Event::Identity(1000),
        Event::Arguments { program: text("gu"), rest: texts(&["generate"]) },
        Event::LaunchFailed(text("No such file or directory (os error 2)")),
    ]);
    assert_eq!(record.len(), 4);
    assert_eq!(record[3].2, Action::Exit(1));
    assert_eq!(
        complained(&record),
        texts(&["Failed to execute command: No such file or directory (os error 2)"])
    );
}

#[test]
fn an_unprivileged_session_never_dispatches() {
    let mut events = vec![Event::Identity(1000)];
    events.extend(one_of_each_event());
    events.extend(one_of_each_event());
    let record = play_what_fits(events);
    assert_eq!(record.len(), 4);
    for (_, _, action) in &record[1..] {
        let on_the_path = match action {
            Action::ReadArguments | Action::Exit(_) => true,
            Action::Launch(invocation) => invocation.child == Child::Elevation,
            _ => false,
        };
        assert!(on_the_path);
    }
    // The request that follows the identity is no answer to anything there.
    let refused = play(vec![Event::Identity(1000), generate(None), Event::Exited(Some(0))]);
    assert_eq!(actions_of(&refused), vec![&Action::CheckPrivilege, &Action::ReadArguments]);
}

#[test]
fn session_of_generate() {
    let record = play(vec![Event::Identity(0), generate(None), Event::Exited(Some(0))]);
    assert_eq!(
        actions_of(&record),
        vec![
            &Action::CheckPrivilege,
            &Action::ParseRequest,
            &generator("/boot/grub/grub.cfg"),
            &Action::Exit(0),
        ]
    );
    assert_eq!(
        printed(&record),
        texts(&["GrubUtils is running as root", "grub-mkconfig exited with code 0"])
    );
    assert!(complained(&record).is_empty());
}

#[test]
fn session_of_generate_with_a_failing_generator_still_ends_in_success() {
    let record =
        play(vec![Event::Identity(0), generate(Some("/tmp/out.cfg")), Event::Exited(Some(1))]);
    assert_eq!(
        actions_of(&record),
        vec![
            &Action::CheckPrivilege,
            &Action::ParseRequest,
            &generator("/tmp/out.cfg"),
            &Action::Exit(0),
        ]
    );
    assert_eq!(
        printed(&record),
        texts(&["GrubUtils is running as root", "grub-mkconfig exited with code 1"])
    );
}

#[test]
fn session_of_edit_with_everything_defaulted() {
    let record = play(vec![
        Event::Identity(0),
        edit(false, None, None, None),
        Event::Variable(None),
        Event::Exited(Some(0)),
        Event::Exited(Some(0)),
    ]);
    assert_eq!(
        actions_of(&record),
        vec![
            &Action::CheckPrivilege,
            &Action::ParseRequest,
            &Action::ReadVariable(text("EDITOR")),
            &editor("/usr/bin/nano", "/etc/default/grub"),
            &generator("/boot/grub/grub.cfg"),
            &Action::Exit(0),
        ]
    );
    assert_eq!(
        printed(&record),
        texts(&[
            "GrubUtils is running as root",
            "Using grub file: /etc/default/grub",
            "Using editor: /usr/bin/nano",
            "Editor exited with code 0",
            "grub-mkconfig exited with code 0",
        ])
    );
    assert!(complained(&record).is_empty());
}

#[test]
fn session_of_edit_with_everything_given() {
    let record = play(vec![
        Event::Identity(0),
        edit(false, Some("/tmp/grub"), Some("/tmp/grub.cfg"), Some("/usr/bin/vim")),
        Event::Exited(Some(1)),
        Event::Exited(None),
    ]);
    assert_eq!(
        actions_of(&record),
        vec![
            &Action::CheckPrivilege,
            &Action::ParseRequest,
            &editor("/usr/bin/vim", "/tmp/grub"),
            &generator("/tmp/grub.cfg"),
            &Action::Exit(0),
        ]
    );
    assert_eq!(
        printed(&record),
        texts(&[
            "GrubUtils is running as root",
            "Using grub file: /tmp/grub",
            "Using editor: /usr/bin/vim",
            "Editor exited with code 1",
            "grub-mkconfig exited with code -127",
        ])
    );
}

#[test]
fn session_of_edit_without_generation() {
    let record = play(vec![
        Event::Identity(0),
        edit(true, None, Some("/tmp/ignored.cfg"), None),
        Event::Variable(Some(text("/usr/bin/emacs"))),
        Event::Exited(Some(0)),
    ]);
    assert_eq!(
        actions_of(&record),
        vec![
            &Action::CheckPrivilege,
            &Action::ParseRequest,
            &Action::ReadVariable(text("EDITOR")),
            &editor("/usr/bin/emacs", "/etc/default/grub"),
            &Action::Exit(0),
        ]
    );
    assert_eq!(
        printed(&record),
        texts(&[
            "GrubUtils is running as root",
            "Using grub file: /etc/default/grub",
            "Using editor: /usr/bin/emacs",
            "Editor exited with code 0",
        ])
    );
}

#[test]
fn no_generate_never_starts_the_generator() {
    let requests = [
        (None, None, None),
        (Some("/tmp/grub"), None, None),
        (None, Some("/tmp/out"), None),
        (None, None, Some("vi")),
        (Some("/tmp/grub"), Some("/tmp/out"), Some("vi")),
        (None, Some("/tmp/out"), Some("")),
        (None, None, Some("grub-mkconfig")),
    ];
    for (file, output, chosen) in requests {
        let mut events = vec![Event::Identity(0), edit(true, file, output, chosen)];
        events.extend(one_of_each_event());
        events.extend(one_of_each_event());
        let stopped = play(events);
        assert!(stopped.iter().all(|entry| !starts_generator(&entry.2)));
        let mut events = vec![Event::Identity(0), edit(true, file, output, chosen)];
        events.extend(one_of_each_event());
        events.extend(one_of_each_event());
        let record = play_what_fits(events);
        assert!(record.iter().all(|entry| !starts_generator(&entry.2)));
        assert_eq!(record.iter().filter(|entry| starts_editor(&entry.2)).count(), 1);
        assert_eq!(record.last().map(|entry| &entry.2), Some(&Action::Exit(0)));
    }
}

#[test]
fn the_editor_runs_before_the_generator() {
    for chosen in [None, Some("vi")] {
        let mut events = vec![Event::Identity(0), edit(false, None, None, chosen)];
        events.push(Event::Variable(None));
        events.push(Event::Exited(Some(0)));
        events.push(Event::Exited(Some(0)));
        events.push(Event::Exited(Some(0)));
        let record = play_what_fits(events);
        let editor_at = record.iter().position(|entry| starts_editor(&entry.2));
        let generator_at = record.iter().position(|entry| starts_generator(&entry.2));
        match (editor_at, generator_at) {
            (Some(e), Some(g)) => assert_eq!(g, e + 1),
            _ => panic!("both children should have been started"),
        }
        assert_eq!(record.iter().filter(|entry| starts_editor(&entry.2)).count(), 1);
        assert_eq!(record.iter().filter(|entry| starts_generator(&entry.2)).count(), 1);
    }
}

#[test]
fn the_generator_is_not_started_before_the_editor_is_gone() {
    // The editor has been started and nothing has been reported yet.
    let record = play(vec![Event::Identity(0), edit(false, None, None, Some("vi"))]);
    assert_eq!(record.len(), 3);
    assert!(starts_editor(&record[2].2));
    // Nothing but the editor's end moves the dispatcher on.
    let early = play(vec![
        Event::Identity(0),
        edit(false, None, None, Some("vi")),
        generate(None),
        Event::Exited(Some(0)),
    ]);
    assert_eq!(early.len(), 3);
    assert!(early.iter().all(|entry| !starts_generator(&entry.2)));
}

#[test]
fn unlaunchable_generator_after_generate() {
    let record = play(vec![
        Event::Identity(0),
        generate(None),
        Event::LaunchFailed(text("No such file or directory (os error 2)")),
        Event::Exited(Some(0)),
    ]);
    assert_eq!(record.len(), 4);
    assert_eq!(record[3].2, Action::Exit(1));
    assert!(record[3].0.is_empty());
    assert_eq!(printed(&record), texts(&["GrubUtils is running as root"]));
    assert_eq!(
        complained(&record),
        texts(&["Failed to execute command: No such file or directory (os error 2)"])
    );
}

#[test]
fn unlaunchable_generator_after_edit() {
    let record = play(vec![
        Event::Identity(0),
        edit(false, None, None, Some("vi")),
        Event::Exited(Some(0)),
        Event::LaunchFailed(text("Permission denied (os error 13)")),
        Event::Exited(Some(0)),
    ]);
    assert_eq!(record.len(), 5);
    assert!(starts_generator(&record[3].2));
    assert_eq!(record[4].2, Action::Exit(1));
    assert!(record[4].0.is_empty());
    assert_eq!(
        printed(&record),
        texts(&[
            "GrubUtils is running as root",
            "Using grub file: /etc/default/grub",
            "Using editor: vi",
            "Editor exited with code 0",
        ])
    );
    assert_eq!(
        complained(&record),
        texts(&["Failed to execute command: Permission denied (os error 13)"])
    );
}

#[test]
fn unlaunchable_editor() {
    let record = play(vec![
        Event::Identity(0),
        edit(false, None, None, Some("/no/such/editor")),
        Event::LaunchFailed(text("No such file or directory (os error 2)")),
    ]);
    assert_eq!(record.len(), 4);
    assert_eq!(record[3].2, Action::Exit(1));
    assert!(record.iter().all(|entry| !starts_generator(&entry.2)));
    assert_eq!(
        complained(&record),
        texts(&["Failed to execute command: No such file or directory (os error 2)"])
    );
}

#[test]
fn the_editor_named_on_the_command_line_is_not_looked_up() {
    let record = play(vec![Event::Identity(0), edit(true, None, None, Some("vi"))]);
    assert!(record.iter().all(|entry| !matches!(entry.2, Action::ReadVariable(_))));
    // A variable reported unasked is no answer to anything.
    let unasked = play(vec![
        Event::Identity(0),
        edit(true, None, None, Some("vi")),
        Event::Variable(Some(text("emacs"))),
    ]);
    assert_eq!(unasked.len(), 3);
}
