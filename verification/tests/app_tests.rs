use edit_block::app::{run_app, App, Flow, Input, Run};

#[test]
fn default_state_is_not_edit_mode() {
    assert_eq!(App::default(), App { edit_mode: false });
}

#[test]
fn e_enters_edit_mode() {
    let mut app = App::default();
    assert_eq!(app.handle(Input::Char('e')), Flow::Continue);
    assert!(app.edit_mode);
}

#[test]
fn escape_leaves_edit_mode() {
    let mut app = App { edit_mode: true };
    assert_eq!(app.handle(Input::Escape), Flow::Continue);
    assert!(!app.edit_mode);
}

#[test]
fn q_quits_from_either_state_and_keeps_it() {
    let mut normal = App { edit_mode: false };
    assert_eq!(normal.handle(Input::Char('q')), Flow::Quit);
    assert!(!normal.edit_mode);
    let mut editing = App { edit_mode: true };
    assert_eq!(editing.handle(Input::Char('q')), Flow::Quit);
    assert!(editing.edit_mode);
}

#[test]
fn other_inputs_change_nothing() {
    for input in [Input::Other, Input::Char('x'), Input::Char('E'), Input::Char('Q')] {
        let mut normal = App { edit_mode: false };
        assert_eq!(normal.handle(input), Flow::Continue);
        assert!(!normal.edit_mode);
        let mut editing = App { edit_mode: true };
        assert_eq!(editing.handle(input), Flow::Continue);
        assert!(editing.edit_mode);
    }
}

#[test]
fn e_and_escape_are_idempotent() {
    let mut app = App::default();
    app.handle(Input::Char('e'));
    app.handle(Input::Char('e'));
    assert!(app.edit_mode);
    app.handle(Input::Escape);
    app.handle(Input::Escape);
    assert!(!app.edit_mode);
}

#[test]
fn loop_without_q_reads_every_input_and_keeps_waiting() {
    let inputs = vec![
        Input::Char('e'),
        Input::Other,
        Input::Escape,
        Input::Char('x'),
        Input::Char('e'),
        Input::Other,
    ];
    let run = run_app(App::default(), &inputs);
    assert_eq!(run, Run { app: App { edit_mode: true }, consumed: 6, quit: false });
}

#[test]
fn loop_on_empty_script_keeps_waiting() {
    let run = run_app(App::default(), &Vec::new());
    assert_eq!(run, Run { app: App { edit_mode: false }, consumed: 0, quit: false });
}

#[test]
fn loop_stops_at_first_q() {
    let inputs = vec![Input::Char('e'), Input::Char('q'), Input::Escape, Input::Char('q')];
    let run = run_app(App::default(), &inputs);
    assert_eq!(run, Run { app: App { edit_mode: true }, consumed: 2, quit: true });
}

#[test]
fn edit_mode_follows_the_most_recent_of_e_and_escape() {
    let e_last = vec![Input::Escape, Input::Char('e'), Input::Other];
    assert!(run_app(App::default(), &e_last).app.edit_mode);
    let escape_last = vec![Input::Char('e'), Input::Char('e'), Input::Escape, Input::Other];
    assert!(!run_app(App::default(), &escape_last).app.edit_mode);
    let neither = vec![Input::Other, Input::Char('a')];
    assert!(!run_app(App::default(), &neither).app.edit_mode);
    assert!(run_app(App { edit_mode: true }, &neither).app.edit_mode);
}

#[test]
fn e_escape_q_ends_in_normal_state() {
    let inputs = vec![Input::Char('e'), Input::Escape, Input::Char('q')];
    let run = run_app(App::default(), &inputs);
    assert_eq!(run, Run { app: App { edit_mode: false }, consumed: 3, quit: true });
}
