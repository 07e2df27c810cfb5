//! The application state machine.
//!
//! The single consumer of the event queue drives all mutation of `App`
//! through the functions here: key handling, snapshot application, output
//! accumulation, and the mode transition that follows a control-protocol
//! round trip. The control call itself is a blocking network round trip and
//! happens outside the library; `update` only names the command a key
//! requests, and `apply_action_outcome` applies the transition once the
//! caller reports whether the call succeeded.

use vstd::prelude::*;

use crate::app::{App, AppState, OutputLine, OutputType, SelectedPanel, Snapshot};
use crate::event::{Event, KeyCode};

verus! {

/// The named debug actions the user can request of the debuggee.
#[derive(Clone, Copy, Debug, PartialEq, Eq)]
pub enum ControlCommand {
    Continue,
    Next,
    Stop,
}

/// A control-protocol request: a named action and its arguments.
#[derive(Clone, Debug, PartialEq, Eq)]
pub struct DebugAction {
    pub requested_action: String,
    pub arguments: Vec<String>,
}

/// A control-protocol response; `status` signals success or failure and
/// `message` carries diagnostic text.
#[derive(Clone, Debug, PartialEq, Eq)]
pub struct DebugActionResult {
    pub requested_action: String,
    pub arguments: Vec<String>,
    pub status: String,
    pub message: String,
}

/// The wire name of a control command.
pub open spec fn command_name(cmd: ControlCommand) -> Seq<char> {
    match cmd {
        ControlCommand::Continue => "continue"@,
        ControlCommand::Next => "next"@,
        ControlCommand::Stop => "stop"@,
    }
}

/// Build the request for a command: the command's wire name and no
/// arguments.
pub fn action_for(cmd: &ControlCommand) -> (a: DebugAction)
    ensures
        a.requested_action@ == command_name(*cmd),
        a.arguments@ == Seq::<String>::empty(),
{
    let name = match cmd {
        ControlCommand::Continue => "continue",
        ControlCommand::Next => "next",
        ControlCommand::Stop => "stop",
    };
    DebugAction { requested_action: name.to_owned(), arguments: Vec::new() }
}

/// The panel after the focused one, in the fixed cycle call stack, code,
/// variables, output.
pub open spec fn spec_next_panel(p: SelectedPanel) -> SelectedPanel {
    match p {
        SelectedPanel::CallStack => SelectedPanel::Code,
        SelectedPanel::Code => SelectedPanel::Variables,
        SelectedPanel::Variables => SelectedPanel::Output,
        SelectedPanel::Output => SelectedPanel::CallStack,
    }
}

/// The panel before the focused one in the same cycle.
pub open spec fn spec_previous_panel(p: SelectedPanel) -> SelectedPanel {
    match p {
        SelectedPanel::CallStack => SelectedPanel::Output,
        SelectedPanel::Code => SelectedPanel::CallStack,
        SelectedPanel::Variables => SelectedPanel::Code,
        SelectedPanel::Output => SelectedPanel::Variables,
    }
}

/// Advance the focus one panel forward.
pub fn next_panel(p: SelectedPanel) -> (r: SelectedPanel)
    ensures
        r == spec_next_panel(p),
{
    match p {
        SelectedPanel::CallStack => SelectedPanel::Code,
        SelectedPanel::Code => SelectedPanel::Variables,
        SelectedPanel::Variables => SelectedPanel::Output,
        SelectedPanel::Output => SelectedPanel::CallStack,
    }
}

/// Move the focus one panel back.
pub fn previous_panel(p: SelectedPanel) -> (r: SelectedPanel)
    ensures
        r == spec_previous_panel(p),
{
    match p {
        SelectedPanel::CallStack => SelectedPanel::Output,
        SelectedPanel::Code => SelectedPanel::CallStack,
        SelectedPanel::Variables => SelectedPanel::Code,
        SelectedPanel::Output => SelectedPanel::Variables,
    }
}

/// Law: panel cycling is a total, wrapping permutation — four steps forward
/// return to the start, and one step forward undoes one step back and the
/// other way round.
pub proof fn lemma_panel_cycle(p: SelectedPanel)
    ensures
        spec_next_panel(spec_next_panel(spec_next_panel(spec_next_panel(p)))) == p,
        spec_previous_panel(spec_next_panel(p)) == p,
        spec_next_panel(spec_previous_panel(p)) == p,
{
}

/// Moving the frame cursor one step toward the innermost (last) frame,
/// clamped at the last index; a no-op on an empty stack or when another
/// panel has the focus.
pub open spec fn spec_frame_down(app: App) -> App {
    if app.selected_panel is CallStack && app.snapshot.stack@.len() > 0 && app.selected_frame
        + 1 < app.snapshot.stack@.len() {
        App { selected_frame: (app.selected_frame + 1) as usize, ..app }
    } else {
        app
    }
}

/// Moving the frame cursor one step toward the outermost (first) frame,
/// clamped at index 0; a no-op on an empty stack or when another panel has
/// the focus.
pub open spec fn spec_frame_up(app: App) -> App {
    if app.selected_panel is CallStack && app.snapshot.stack@.len() > 0 && app.selected_frame
        > 0 {
        App { selected_frame: (app.selected_frame - 1) as usize, ..app }
    } else {
        app
    }
}

/// The control command a key requests, if any.
pub open spec fn spec_key_command(key: KeyCode) -> Option<ControlCommand> {
    match key {
        KeyCode::Char(c) => if c == 'c' {
            Some(ControlCommand::Continue)
        } else if c == 'n' {
            Some(ControlCommand::Next)
        } else if c == 't' {
            Some(ControlCommand::Stop)
        } else {
            None
        },
        _ => None,
    }
}

/// The state after one key press, for everything a key changes locally:
/// quitting, panel cycling and frame navigation. Command keys change
/// nothing here — their effect arrives through `spec_mode_after` once the
/// control call has been made.
pub open spec fn spec_update(app: App, key: KeyCode) -> App {
    match key {
        KeyCode::Esc => App { should_quit: true, ..app },
        KeyCode::Char(c) => if c == 'q' {
            App { should_quit: true, ..app }
        } else if c == 'j' {
            spec_frame_down(app)
        } else if c == 'k' {
            spec_frame_up(app)
        } else {
            app
        },
        KeyCode::Tab => App { selected_panel: spec_next_panel(app.selected_panel), ..app },
        KeyCode::BackTab => App {
            selected_panel: spec_previous_panel(app.selected_panel),
            ..app
        },
        KeyCode::Down => spec_frame_down(app),
        KeyCode::Up => spec_frame_up(app),
        KeyCode::Other => app,
    }
}

/// Handle one key press. The returned command, if any, is what the caller
/// must send to the debuggee over the control protocol; the local state
/// change is exactly `spec_update`.
pub fn update(app: &mut App, key: KeyCode) -> (cmd: Option<ControlCommand>)
    requires
        old(app).wf(),
    ensures
        *final(app) == spec_update(*old(app), key),
        cmd == spec_key_command(key),
        final(app).wf(),
{
    match key {
        KeyCode::Esc => {
            app.quit();
            None
        },
        KeyCode::Char(c) => {
            if c == 'q' {
                app.quit();
                None
            } else if c == 'c' {
                Some(ControlCommand::Continue)
            } else if c == 'n' {
                Some(ControlCommand::Next)
            } else if c == 't' {
                Some(ControlCommand::Stop)
            } else if c == 'j' {
                frame_down(app);
                None
            } else if c == 'k' {
                frame_up(app);
                None
            } else {
                None
            }
        },
        KeyCode::Tab => {
            app.selected_panel = next_panel(app.selected_panel);
            None
        },
        KeyCode::BackTab => {
            app.selected_panel = previous_panel(app.selected_panel);
            None
        },
        KeyCode::Down => {
            frame_down(app);
            None
        },
        KeyCode::Up => {
            frame_up(app);
            None
        },
        KeyCode::Other => None,
    }
}

fn frame_down(app: &mut App)
    requires
        old(app).wf(),
    ensures
        *final(app) == spec_frame_down(*old(app)),
        final(app).wf(),
{
    match app.selected_panel {
        SelectedPanel::CallStack => {
            if app.snapshot.stack.len() > 0 && app.selected_frame + 1 < app.snapshot.stack.len() {
                app.selected_frame = app.selected_frame + 1;
            }
        },
        _ => {},
    }
}

fn frame_up(app: &mut App)
    requires
        old(app).wf(),
    ensures
        *final(app) == spec_frame_up(*old(app)),
        final(app).wf(),
{
    match app.selected_panel {
        SelectedPanel::CallStack => {
            if app.snapshot.stack.len() > 0 && app.selected_frame > 0 {
                app.selected_frame = app.selected_frame - 1;
            }
        },
        _ => {},
    }
}

/// Law: frame navigation is idempotent at the boundaries — stepping up at
/// index 0 stays at 0, stepping down at the last index stays at the last
/// index, and on an empty stack both directions are no-ops.
pub proof fn lemma_frame_navigation_boundaries(app: App)
    requires
        app.wf(),
    ensures
        app.selected_frame == 0 ==> spec_update(app, KeyCode::Up) == app,
        app.snapshot.stack@.len() > 0 && app.selected_frame == app.snapshot.stack@.len() - 1
            ==> spec_update(app, KeyCode::Down) == app,
        app.snapshot.stack@.len() == 0 ==> spec_update(app, KeyCode::Up) == app,
        app.snapshot.stack@.len() == 0 ==> spec_update(app, KeyCode::Down) == app,
{
}

/// The mode after a control-protocol round trip: a failed call changes
/// nothing; a successful `continue` or `next` runs code, a successful
/// `stop` returns to idle.
pub open spec fn spec_mode_after(state: AppState, cmd: ControlCommand, succeeded: bool) -> AppState {
    if succeeded {
        match cmd {
            ControlCommand::Continue => AppState::RunningCode,
            ControlCommand::Next => AppState::RunningCode,
            ControlCommand::Stop => AppState::Idle,
        }
    } else {
        state
    }
}

/// Record the outcome of the control call for `cmd`: only `mode` can move,
/// and only on success. The authoritative paused state still arrives later
/// as a pushed snapshot.
pub fn apply_action_outcome(app: &mut App, cmd: &ControlCommand, succeeded: bool)
    ensures
        final(app).state == spec_mode_after(old(app).state, *cmd, succeeded),
        final(app).should_quit == old(app).should_quit,
        final(app).snapshot == old(app).snapshot,
        final(app).selected_panel == old(app).selected_panel,
        final(app).selected_frame == old(app).selected_frame,
        final(app).output == old(app).output,
        old(app).wf() ==> final(app).wf(),
{
    if succeeded {
        match cmd {
            ControlCommand::Continue => {
                app.state = AppState::RunningCode;
            },
            ControlCommand::Next => {
                app.state = AppState::RunningCode;
            },
            ControlCommand::Stop => {
                app.state = AppState::Idle;
            },
        }
    }
}

/// Law: a failed control call never changes the mode; a successful
/// `continue` or `next` sets it to `RunningCode`; a successful `stop` sets
/// it to `Idle`.
pub proof fn lemma_control_outcome(state: AppState, cmd: ControlCommand)
    ensures
        spec_mode_after(state, cmd, false) == state,
        (cmd is Continue || cmd is Next) ==> spec_mode_after(state, cmd, true) is RunningCode,
        cmd is Stop ==> spec_mode_after(state, cmd, true) is Idle,
{
}

/// The state after a pushed snapshot: the fresh snapshot wholly replaces
/// the previous one, the mode becomes `Breakpoint`, and the innermost
/// (last) frame is selected; an empty stack clamps the selection to 0,
/// which nothing dereferences.
pub open spec fn spec_apply_snapshot(app: App, s: Snapshot) -> App {
    App {
        snapshot: s,
        state: AppState::Breakpoint,
        selected_frame: if s.stack@.len() == 0 {
            0
        } else {
            (s.stack@.len() - 1) as usize
        },
        ..app
    }
}

/// Replace the current snapshot with a freshly pushed one.
pub fn apply_snapshot(app: &mut App, s: Snapshot)
    ensures
        *final(app) == spec_apply_snapshot(*old(app), s),
        final(app).state is Breakpoint,
        s.stack@.len() > 0 ==> final(app).selected_frame == s.stack@.len() - 1,
        s.stack@.len() == 0 ==> final(app).selected_frame == 0,
        final(app).wf(),
{
    let last: usize = if s.stack.len() == 0 {
        0
    } else {
        s.stack.len() - 1
    };
    app.snapshot = s;
    app.state = AppState::Breakpoint;
    app.selected_frame = last;
}

/// One line of debuggee output was appended to the log and nothing else
/// moved.
pub open spec fn output_line_appended(
    pre: App,
    post: App,
    output_type: OutputType,
    contents: String,
) -> bool {
    &&& post.output@ == pre.output@.push((OutputLine { output_type, contents }))
    &&& post.should_quit == pre.should_quit
    &&& post.snapshot == pre.snapshot
    &&& post.state == pre.state
    &&& post.selected_panel == pre.selected_panel
    &&& post.selected_frame == pre.selected_frame
}

/// Append one completed line from the debuggee's stdout or stderr.
pub fn apply_output(app: &mut App, output_type: OutputType, contents: String)
    ensures
        output_line_appended(*old(app), *final(app), output_type, contents),
        old(app).wf() ==> final(app).wf(),
{
    app.output.push(OutputLine { output_type, contents });
}

/// What one multiplexed event does to the state: keys go through
/// `spec_update`, a pushed snapshot through `spec_apply_snapshot`, output
/// lines are appended, and ticks, mouse events and resizes change nothing.
pub open spec fn event_applied(pre: App, post: App, e: Event) -> bool {
    match e {
        Event::Key(k) => post == spec_update(pre, k),
        Event::SnapshotReceived(s) => post == spec_apply_snapshot(pre, s),
        Event::StdoutReceived(line) => output_line_appended(pre, post, OutputType::Stdout, line),
        Event::StderrReceived(line) => output_line_appended(pre, post, OutputType::Stderr, line),
        Event::Tick => post == pre,
        Event::Mouse => post == pre,
        Event::Resize(_, _) => post == pre,
    }
}

/// The control command an event asks the caller to send, if any.
pub open spec fn spec_event_command(e: Event) -> Option<ControlCommand> {
    match e {
        Event::Key(k) => spec_key_command(k),
        _ => None,
    }
}

/// Consume one event: the single consumer's dispatch. The returned
/// command, if any, must be sent over the control protocol and its outcome
/// recorded with `apply_action_outcome`.
pub fn apply_event(app: &mut App, e: Event) -> (cmd: Option<ControlCommand>)
    requires
        old(app).wf(),
    ensures
        event_applied(*old(app), *final(app), e),
        cmd == spec_event_command(e),
        final(app).wf(),
{
    match e {
        Event::Key(k) => update(app, k),
        Event::SnapshotReceived(s) => {
            apply_snapshot(app, s);
            None
        },
        Event::StdoutReceived(line) => {
            apply_output(app, OutputType::Stdout, line);
            None
        },
        Event::StderrReceived(line) => {
            apply_output(app, OutputType::Stderr, line);
            None
        },
        Event::Tick => None,
        Event::Mouse => None,
        Event::Resize(_, _) => None,
    }
}

} // verus!
