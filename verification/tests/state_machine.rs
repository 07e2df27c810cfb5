use ldb_tui::app::{App, AppState, OutputLine, OutputType, SelectedPanel, Snapshot};
use ldb_tui::event::{Event, KeyCode};
use ldb_tui::update::{
    action_for, apply_action_outcome, apply_event, apply_output, apply_snapshot, next_panel,
    previous_panel, update, ControlCommand,
};

fn frame(function_name: &str, line_number: u32) -> ldb_tui::app::Frame {
    ldb_tui::app::Frame {
        file_name: "example.py".to_string(),
        line_number,
        function_name: function_name.to_string(),
        local_variables: vec![],
        global_variables: vec![],
    }
}

fn two_frame_snapshot() -> Snapshot {
    Snapshot { stack: vec![frame("frame_a", 3), frame("frame_b", 7)] }
}

#[test]
fn initial_state_is_idle_with_call_stack_focused() {
    let app = App::new();
    assert!(!app.should_quit);
    assert_eq!(app.state, AppState::Idle);
    assert_eq!(app.selected_panel, SelectedPanel::CallStack);
    assert_eq!(app.selected_frame, 0);
    assert!(app.snapshot.stack.is_empty());
    assert!(app.output.is_empty());
}

#[test]
fn snapshot_push_selects_last_frame_and_breaks() {
    let mut app = App::new();
    apply_snapshot(&mut app, two_frame_snapshot());
    assert_eq!(app.state, AppState::Breakpoint);
    assert_eq!(app.selected_frame, 1);
    assert_eq!(app.snapshot.stack.len(), 2);
    assert_eq!(app.get_selected_frame().unwrap().function_name, "frame_b");
}

#[test]
fn snapshot_push_with_empty_stack_clamps_selection() {
    let mut app = App::new();
    apply_snapshot(&mut app, Snapshot { stack: vec![] });
    assert_eq!(app.state, AppState::Breakpoint);
    assert_eq!(app.selected_frame, 0);
    assert!(app.get_selected_frame().is_none());
}

#[test]
fn frame_up_clamps_at_zero() {
    let mut app = App::new();
    apply_snapshot(&mut app, two_frame_snapshot());
    assert_eq!(app.selected_frame, 1);
    update(&mut app, KeyCode::Up);
    assert_eq!(app.selected_frame, 0);
    update(&mut app, KeyCode::Up);
    assert_eq!(app.selected_frame, 0);
}

#[test]
fn frame_down_clamps_at_last_index() {
    let mut app = App::new();
    apply_snapshot(&mut app, two_frame_snapshot());
    update(&mut app, KeyCode::Up);
    update(&mut app, KeyCode::Down);
    assert_eq!(app.selected_frame, 1);
    update(&mut app, KeyCode::Down);
    assert_eq!(app.selected_frame, 1);
}

#[test]
fn frame_navigation_ignores_empty_stack() {
    let mut app = App::new();
    update(&mut app, KeyCode::Down);
    assert_eq!(app.selected_frame, 0);
    update(&mut app, KeyCode::Up);
    assert_eq!(app.selected_frame, 0);
}

#[test]
fn frame_navigation_ignores_empty_stack_with_stale_selection() {
    let mut app = App::new();
    app.selected_frame = 1;
    update(&mut app, KeyCode::Up);
    assert_eq!(app.selected_frame, 1);
    update(&mut app, KeyCode::Down);
    assert_eq!(app.selected_frame, 1);
}

#[test]
fn frame_navigation_needs_call_stack_focus() {
    let mut app = App::new();
    apply_snapshot(&mut app, two_frame_snapshot());
    update(&mut app, KeyCode::Tab);
    update(&mut app, KeyCode::Up);
    assert_eq!(app.selected_frame, 1);
}

#[test]
fn vi_keys_navigate_frames() {
    let mut app = App::new();
    apply_snapshot(&mut app, two_frame_snapshot());
    update(&mut app, KeyCode::Char('k'));
    assert_eq!(app.selected_frame, 0);
    update(&mut app, KeyCode::Char('j'));
    assert_eq!(app.selected_frame, 1);
}

#[test]
fn panel_cycle_wraps_after_four_steps() {
    for start in [
        SelectedPanel::CallStack,
        SelectedPanel::Code,
        SelectedPanel::Variables,
        SelectedPanel::Output,
    ] {
        let mut p = start;
        for _ in 0..4 {
            p = next_panel(p);
        }
        assert_eq!(p, start);
        assert_eq!(previous_panel(next_panel(start)), start);
        assert_eq!(next_panel(previous_panel(start)), start);
    }
}

#[test]
fn tab_and_back_tab_cycle_panels() {
    let mut app = App::new();
    update(&mut app, KeyCode::Tab);
    assert_eq!(app.selected_panel, SelectedPanel::Code);
    update(&mut app, KeyCode::Tab);
    assert_eq!(app.selected_panel, SelectedPanel::Variables);
    update(&mut app, KeyCode::BackTab);
    assert_eq!(app.selected_panel, SelectedPanel::Code);
    update(&mut app, KeyCode::BackTab);
    assert_eq!(app.selected_panel, SelectedPanel::CallStack);
    update(&mut app, KeyCode::BackTab);
    assert_eq!(app.selected_panel, SelectedPanel::Output);
}

#[test]
fn quit_keys_set_should_quit() {
    let mut app = App::new();
    update(&mut app, KeyCode::Esc);
    assert!(app.should_quit);

    let mut app = App::new();
    update(&mut app, KeyCode::Char('q'));
    assert!(app.should_quit);
    assert_eq!(app.state, AppState::Idle);
}

#[test]
fn command_keys_request_the_right_action() {
    let mut app = App::new();
    assert_eq!(update(&mut app, KeyCode::Char('c')), Some(ControlCommand::Continue));
    assert_eq!(update(&mut app, KeyCode::Char('n')), Some(ControlCommand::Next));
    assert_eq!(update(&mut app, KeyCode::Char('t')), Some(ControlCommand::Stop));
    assert_eq!(update(&mut app, KeyCode::Char('x')), None);
    assert_eq!(update(&mut app, KeyCode::Other), None);
}

#[test]
fn action_for_uses_wire_names() {
    assert_eq!(action_for(&ControlCommand::Continue).requested_action, "continue");
    assert_eq!(action_for(&ControlCommand::Next).requested_action, "next");
    assert_eq!(action_for(&ControlCommand::Stop).requested_action, "stop");
    assert!(action_for(&ControlCommand::Continue).arguments.is_empty());
}

#[test]
fn failed_call_leaves_mode_unchanged() {
    let mut app = App::new();
    apply_snapshot(&mut app, two_frame_snapshot());
    apply_action_outcome(&mut app, &ControlCommand::Continue, false);
    assert_eq!(app.state, AppState::Breakpoint);
    apply_action_outcome(&mut app, &ControlCommand::Stop, false);
    assert_eq!(app.state, AppState::Breakpoint);
}

#[test]
fn successful_commands_transition_mode() {
    let mut app = App::new();
    apply_snapshot(&mut app, two_frame_snapshot());
    apply_action_outcome(&mut app, &ControlCommand::Continue, true);
    assert_eq!(app.state, AppState::RunningCode);
    apply_action_outcome(&mut app, &ControlCommand::Next, true);
    assert_eq!(app.state, AppState::RunningCode);
    apply_action_outcome(&mut app, &ControlCommand::Stop, true);
    assert_eq!(app.state, AppState::Idle);
}

#[test]
fn continue_then_new_snapshot_breaks_again() {
    let mut app = App::new();
    apply_snapshot(&mut app, two_frame_snapshot());
    assert_eq!(app.state, AppState::Breakpoint);

    apply_action_outcome(&mut app, &ControlCommand::Continue, true);
    assert_eq!(app.state, AppState::RunningCode);

    let new_stack = Snapshot { stack: vec![frame("frame_a", 4), frame("frame_b", 9), frame("frame_c", 2)] };
    apply_snapshot(&mut app, new_stack);
    assert_eq!(app.state, AppState::Breakpoint);
    assert_eq!(app.selected_frame, 2);
    assert_eq!(app.get_selected_frame().unwrap().function_name, "frame_c");
}

#[test]
fn stdout_line_appends_and_keeps_mode() {
    let mut app = App::new();
    apply_snapshot(&mut app, two_frame_snapshot());
    apply_action_outcome(&mut app, &ControlCommand::Continue, true);
    assert_eq!(app.state, AppState::RunningCode);

    apply_event(&mut app, Event::StdoutReceived("hello".to_string()));
    assert_eq!(app.state, AppState::RunningCode);
    assert_eq!(
        app.output,
        vec![OutputLine { output_type: OutputType::Stdout, contents: "hello".to_string() }]
    );
}

#[test]
fn stderr_line_is_tagged_as_stderr() {
    let mut app = App::new();
    apply_output(&mut app, OutputType::Stderr, "oops".to_string());
    assert_eq!(app.output.len(), 1);
    assert_eq!(app.output[0].output_type, OutputType::Stderr);
    assert_eq!(app.output[0].contents, "oops");
}

#[test]
fn tick_mouse_and_resize_change_nothing() {
    let mut app = App::new();
    apply_snapshot(&mut app, two_frame_snapshot());
    let before = app.clone();
    assert_eq!(apply_event(&mut app, Event::Tick), None);
    assert_eq!(apply_event(&mut app, Event::Mouse), None);
    assert_eq!(apply_event(&mut app, Event::Resize(80, 24)), None);
    assert_eq!(app, before);
}

#[test]
fn apply_event_dispatches_keys_and_snapshots() {
    let mut app = App::new();
    let cmd = apply_event(&mut app, Event::Key(KeyCode::Char('c')));
    assert_eq!(cmd, Some(ControlCommand::Continue));
    assert_eq!(apply_event(&mut app, Event::SnapshotReceived(two_frame_snapshot())), None);
    assert_eq!(app.state, AppState::Breakpoint);
    assert_eq!(app.selected_frame, 1);
}

#[test]
fn quit_flag_is_orthogonal_to_mode() {
    let mut app = App::new();
    apply_snapshot(&mut app, two_frame_snapshot());
    app.quit();
    assert!(app.should_quit);
    assert_eq!(app.state, AppState::Breakpoint);
    assert_eq!(app.selected_frame, 1);
}
