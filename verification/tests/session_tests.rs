use edit_block::app::{App, Input};
use edit_block::session::{Command, Outcome, Session, Step, Terminal};
use edit_block::simulate::{run_script, Performed};
use edit_block::view::Color;

const PRISTINE: Terminal =
    Terminal { raw_mode: false, alternate_screen: false, mouse_capture: false, cursor_hidden: false };

fn ok(step: Step) -> Performed {
    Performed { step, ok: true }
}

fn failed(step: Step) -> Performed {
    Performed { step, ok: false }
}

#[test]
fn new_session_asks_for_raw_mode_first() {
    let session = Session::new();
    assert_eq!(session.command(), Command::Run(Step::EnableRawMode));
    assert_eq!(session.exit_code(), None);
    assert_eq!(session.app, App { edit_mode: false });
    assert_eq!(session.held, PRISTINE);
    assert_eq!(session.failure, None);
    assert_eq!(Terminal::pristine(), PRISTINE);
}

#[test]
fn setup_runs_in_order_then_draws_and_reads() {
    let mut session = Session::new();
    let expected = [
        Step::EnableRawMode,
        Step::EnterAlternateScreen,
        Step::EnableMouseCapture,
        Step::OpenTerminal,
        Step::Draw,
        Step::ReadInput,
    ];
    for step in expected {
        assert_eq!(session.command(), Command::Run(step));
        session.advance(Outcome::Done);
    }
    assert_eq!(session.command(), Command::Run(Step::Draw));
    assert_eq!(
        session.held,
        Terminal { raw_mode: true, alternate_screen: true, mouse_capture: true, cursor_hidden: true }
    );
}

#[test]
fn e_escape_q_exits_cleanly_with_terminal_restored() {
    let script = vec![
        Outcome::Done,
        Outcome::Done,
        Outcome::Done,
        Outcome::Done,
        Outcome::Done,
        Outcome::Event(Input::Char('e')),
        Outcome::Done,
        Outcome::Event(Input::Escape),
        Outcome::Done,
        Outcome::Event(Input::Char('q')),
        Outcome::Done,
        Outcome::Done,
        Outcome::Done,
        Outcome::Done,
    ];
    let report = run_script(&script);
    assert_eq!(report.session.command(), Command::Exit);
    assert_eq!(report.session.exit_code(), Some(0));
    assert_eq!(report.session.failure, None);
    assert_eq!(report.session.app, App { edit_mode: false });
    assert_eq!(report.terminal, PRISTINE);
    assert_eq!(report.session.held, PRISTINE);
    assert_eq!(report.inputs, vec![Input::Char('e'), Input::Escape, Input::Char('q')]);
    assert_eq!(
        report.trace,
        vec![
            ok(Step::EnableRawMode),
            ok(Step::EnterAlternateScreen),
            ok(Step::EnableMouseCapture),
            ok(Step::OpenTerminal),
            ok(Step::Draw),
            ok(Step::ReadInput),
            ok(Step::Draw),
            ok(Step::ReadInput),
            ok(Step::Draw),
            ok(Step::ReadInput),
            ok(Step::DisableRawMode),
            ok(Step::LeaveAlternateScreen),
            ok(Step::DisableMouseCapture),
            ok(Step::ShowCursor),
        ]
    );
}

#[test]
fn outcomes_after_exit_are_ignored() {
    let mut script = vec![Outcome::Done; 5];
    script.push(Outcome::Event(Input::Char('q')));
    script.extend(vec![Outcome::Done; 4]);
    let ended = run_script(&script);
    script.push(Outcome::Failed);
    script.push(Outcome::Event(Input::Char('e')));
    let later = run_script(&script);
    assert_eq!(later, ended);
    assert_eq!(later.session.exit_code(), Some(0));
}

#[test]
fn session_without_q_never_exits() {
    let mut script = vec![Outcome::Done; 4];
    for _ in 0..50 {
        script.push(Outcome::Done);
        script.push(Outcome::Event(Input::Char('e')));
        script.push(Outcome::Done);
        script.push(Outcome::Event(Input::Escape));
        script.push(Outcome::Done);
        script.push(Outcome::Event(Input::Other));
    }
    let report = run_script(&script);
    assert_eq!(report.session.command(), Command::Run(Step::Draw));
    assert_eq!(report.session.exit_code(), None);
    assert_eq!(report.trace.len(), script.len());
}

#[test]
fn draw_uses_the_state_at_render_time() {
    let mut session = Session::new();
    for _ in 0..4 {
        session.advance(Outcome::Done);
    }
    assert_eq!(session.command(), Command::Run(Step::Draw));
    assert_eq!(session.view().border_color, Color::Reset);
    session.advance(Outcome::Done);
    session.advance(Outcome::Event(Input::Char('e')));
    assert_eq!(session.command(), Command::Run(Step::Draw));
    assert_eq!(session.view().border_color, Color::Red);
    session.advance(Outcome::Done);
    session.advance(Outcome::Event(Input::Escape));
    assert_eq!(session.view().border_color, Color::Reset);
}

#[test]
fn read_without_event_details_changes_nothing() {
    let mut session = Session::new();
    for _ in 0..5 {
        session.advance(Outcome::Done);
    }
    session.advance(Outcome::Event(Input::Char('e')));
    session.advance(Outcome::Done);
    assert_eq!(session.command(), Command::Run(Step::ReadInput));
    session.advance(Outcome::Done);
    assert_eq!(session.command(), Command::Run(Step::Draw));
    assert!(session.app.edit_mode);
}

#[test]
fn failing_to_enable_raw_mode_exits_at_once() {
    let report = run_script(&vec![Outcome::Failed]);
    assert_eq!(report.session.command(), Command::Exit);
    assert_eq!(report.session.exit_code(), Some(1));
    assert_eq!(report.session.failure, Some(Step::EnableRawMode));
    assert_eq!(report.terminal, PRISTINE);
    assert_eq!(report.trace, vec![failed(Step::EnableRawMode)]);
}

#[test]
fn setup_failure_releases_what_was_acquired() {
    let report = run_script(&vec![Outcome::Done, Outcome::Done, Outcome::Failed, Outcome::Done, Outcome::Done]);
    assert_eq!(report.session.exit_code(), Some(1));
    assert_eq!(report.session.failure, Some(Step::EnableMouseCapture));
    assert_eq!(report.terminal, PRISTINE);
    assert_eq!(
        report.trace,
        vec![
            ok(Step::EnableRawMode),
            ok(Step::EnterAlternateScreen),
            failed(Step::EnableMouseCapture),
            ok(Step::DisableRawMode),
            ok(Step::LeaveAlternateScreen),
        ]
    );
}

#[test]
fn read_failure_ends_the_loop_and_restores_everything() {
    let mut script = vec![Outcome::Done; 5];
    script.push(Outcome::Failed);
    script.extend(vec![Outcome::Done; 4]);
    let report = run_script(&script);
    assert_eq!(report.session.exit_code(), Some(1));
    assert_eq!(report.session.failure, Some(Step::ReadInput));
    assert_eq!(report.terminal, PRISTINE);
    assert_eq!(
        report.trace[6..],
        [
            ok(Step::DisableRawMode),
            ok(Step::LeaveAlternateScreen),
            ok(Step::DisableMouseCapture),
            ok(Step::ShowCursor),
        ]
    );
}

#[test]
fn draw_failure_still_shows_the_cursor_again() {
    let mut script = vec![Outcome::Done; 4];
    script.push(Outcome::Failed);
    script.extend(vec![Outcome::Done; 4]);
    let report = run_script(&script);
    assert_eq!(report.session.exit_code(), Some(1));
    assert_eq!(report.session.failure, Some(Step::Draw));
    assert_eq!(report.terminal, PRISTINE);
    assert_eq!(report.trace.last(), Some(&ok(Step::ShowCursor)));
}

#[test]
fn failed_release_does_not_stop_later_releases() {
    let mut script = vec![Outcome::Done; 5];
    script.push(Outcome::Event(Input::Char('q')));
    script.push(Outcome::Failed);
    script.push(Outcome::Failed);
    script.push(Outcome::Done);
    script.push(Outcome::Done);
    let report = run_script(&script);
    assert_eq!(report.session.command(), Command::Exit);
    assert_eq!(report.session.exit_code(), Some(1));
    assert_eq!(report.session.failure, Some(Step::DisableRawMode));
    assert_eq!(
        report.terminal,
        Terminal { raw_mode: true, alternate_screen: true, mouse_capture: false, cursor_hidden: false }
    );
    assert_eq!(
        report.trace[6..],
        [
            failed(Step::DisableRawMode),
            failed(Step::LeaveAlternateScreen),
            ok(Step::DisableMouseCapture),
            ok(Step::ShowCursor),
        ]
    );
}

#[test]
fn loop_failure_takes_precedence_over_release_failure() {
    let mut script = vec![Outcome::Done; 5];
    script.push(Outcome::Failed);
    script.push(Outcome::Done);
    script.push(Outcome::Failed);
    script.push(Outcome::Done);
    script.push(Outcome::Done);
    let report = run_script(&script);
    assert_eq!(report.session.exit_code(), Some(1));
    assert_eq!(report.session.failure, Some(Step::ReadInput));
    assert_eq!(report.trace.len(), 10);
}

#[test]
fn releasing_twice_is_the_same_as_once() {
    for step in
        [Step::DisableRawMode, Step::LeaveAlternateScreen, Step::DisableMouseCapture, Step::ShowCursor]
    {
        let mut once =
            Terminal { raw_mode: true, alternate_screen: true, mouse_capture: true, cursor_hidden: true };
        once.apply(step, true);
        let mut twice = once;
        twice.apply(step, true);
        assert_eq!(once, twice);
        let mut clean = PRISTINE;
        clean.apply(step, true);
        assert_eq!(clean, PRISTINE);
    }
}

#[test]
fn failed_acquisition_leaves_the_flags() {
    let mut terminal = PRISTINE;
    terminal.apply(Step::EnableRawMode, false);
    terminal.apply(Step::EnterAlternateScreen, false);
    terminal.apply(Step::EnableMouseCapture, false);
    terminal.apply(Step::OpenTerminal, true);
    terminal.apply(Step::ReadInput, true);
    assert_eq!(terminal, PRISTINE);
    terminal.apply(Step::EnableRawMode, true);
    terminal.apply(Step::Draw, true);
    assert_eq!(
        terminal,
        Terminal { raw_mode: true, alternate_screen: false, mouse_capture: false, cursor_hidden: true }
    );
}

#[test]
fn inputs_are_those_of_successful_reads() {
    let mut script = vec![Outcome::Done; 4];
    script.push(Outcome::Event(Input::Char('e')));
    script.push(Outcome::Event(Input::Char('e')));
    script.push(Outcome::Done);
    script.push(Outcome::Done);
    script.push(Outcome::Done);
    script.push(Outcome::Failed);
    let report = run_script(&script);
    assert_eq!(report.inputs, vec![Input::Char('e'), Input::Other]);
    assert!(report.session.app.edit_mode);
    assert_eq!(report.session.failure, Some(Step::ReadInput));
    assert_eq!(report.session.command(), Command::Run(Step::DisableRawMode));
    assert_eq!(report.session.exit_code(), None);
}

#[test]
fn q_while_editing_exits_cleanly() {
    let mut script = vec![Outcome::Done; 5];
    script.push(Outcome::Event(Input::Char('e')));
    script.push(Outcome::Done);
    script.push(Outcome::Event(Input::Char('q')));
    script.extend(vec![Outcome::Done; 4]);
    let report = run_script(&script);
    assert_eq!(report.session.exit_code(), Some(0));
    assert!(report.session.app.edit_mode);
    assert_eq!(report.terminal, PRISTINE);
    assert_eq!(report.trace.len(), 12);
}
