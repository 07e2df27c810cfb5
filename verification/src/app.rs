//! Snapshot data model and the UI-facing application state.
//!
//! A `Snapshot` is a complete, self-contained description of the debuggee's
//! paused call stack; a fresh one wholly replaces the previous one. `App`
//! gathers everything the render loop reads: the current mode, the selected
//! panel and frame, and the accumulated output lines.

use vstd::prelude::*;

verus! {

/// One binding captured at pause time: immutable, no identity beyond its
/// name within the owning frame.
#[derive(Clone, Debug, PartialEq, Eq)]
pub struct Variable {
    pub name: String,
    pub value: String,
    pub python_type: String,
}

/// One activation record at pause time. Variable order within a frame is
/// insertion order from the debuggee; callers must not assume sorting.
#[derive(Clone, Debug, PartialEq, Eq)]
pub struct Frame {
    pub file_name: String,
    pub line_number: u32,
    pub function_name: String,
    pub local_variables: Vec<Variable>,
    pub global_variables: Vec<Variable>,
}

/// The debuggee's paused call stack, index 0 through last as sent; the last
/// element is treated as the current frame on arrival.
#[derive(Clone, Debug, PartialEq, Eq)]
pub struct Snapshot {
    pub stack: Vec<Frame>,
}

/// The mode of the state machine. `Idle` is initial; `Error` is reachable
/// from any state and is not terminal.
#[derive(Clone, Debug, PartialEq, Eq)]
pub enum AppState {
    Idle,
    RunningCode,
    Breakpoint,
    Error(String),
}

/// The panel that currently has focus, cycled in the fixed order
/// call stack, code, variables, output.
#[derive(Clone, Copy, Debug, PartialEq, Eq, Structural, Hash)]
pub enum SelectedPanel {
    CallStack,
    Code,
    Variables,
    Output,
}

/// Which of the debuggee's streams an output line came from.
#[derive(Clone, Copy, Debug, PartialEq, Eq, Structural)]
pub enum OutputType {
    Stdout,
    Stderr,
}

/// One completed line read from the debuggee's stdout or stderr.
#[derive(Clone, Debug, PartialEq, Eq)]
pub struct OutputLine {
    pub output_type: OutputType,
    pub contents: String,
}

/// The whole UI-facing state, owned by the single consumer of the event
/// queue; no other writer exists.
#[derive(Clone, Debug, PartialEq, Eq)]
pub struct App {
    pub should_quit: bool,
    pub snapshot: Snapshot,
    pub state: AppState,
    pub selected_panel: SelectedPanel,
    pub selected_frame: usize,
    pub output: Vec<OutputLine>,
}

impl App {
    /// The selected frame index stays in bounds whenever the stack is
    /// non-empty; on an empty stack nothing dereferences it.
    pub open spec fn wf(self) -> bool {
        self.snapshot.stack@.len() > 0 ==> (self.selected_frame as int) < self.snapshot.stack@.len()
    }

    /// Initial state: idle, call-stack panel focused, empty stack and output.
    pub fn new() -> (app: App)
        ensures
            app.should_quit == false,
            app.snapshot.stack@ == Seq::<Frame>::empty(),
            app.state is Idle,
            app.selected_panel is CallStack,
            app.selected_frame == 0,
            app.output@ == Seq::<OutputLine>::empty(),
            app.wf(),
    {
        App {
            should_quit: false,
            snapshot: Snapshot { stack: Vec::new() },
            state: AppState::Idle,
            selected_panel: SelectedPanel::CallStack,
            selected_frame: 0,
            output: Vec::new(),
        }
    }

    /// Request shutdown; the outer loop observes the flag and begins
    /// teardown. Everything else is left as it was.
    pub fn quit(&mut self)
        ensures
            final(self).should_quit == true,
            final(self).snapshot == old(self).snapshot,
            final(self).state == old(self).state,
            final(self).selected_panel == old(self).selected_panel,
            final(self).selected_frame == old(self).selected_frame,
            final(self).output == old(self).output,
    {
        self.should_quit = true;
    }

    /// The frame the cursor rests on, or `None` when the index is out of
    /// range (in particular whenever the stack is empty).
    pub fn get_selected_frame(&self) -> (r: Option<&Frame>)
        ensures
            ((self.selected_frame as int) < self.snapshot.stack@.len()) <==> r is Some,
            r is Some ==> *r->0 == self.snapshot.stack@[self.selected_frame as int],
    {
        if self.selected_frame < self.snapshot.stack.len() {
            Some(&self.snapshot.stack[self.selected_frame])
        } else {
            None
        }
    }
}

} // verus!
