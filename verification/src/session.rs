//! The terminal session: which terminal operation comes next, from acquiring
//! the terminal through the render loop to giving the terminal back.
//!
//! The session performs nothing itself. It names the next operation, the
//! caller performs it and reports how it went, and the session moves on.
//! A failure while acquiring or inside the loop ends the loop at once; what
//! was acquired until then is still released, one step after the other, and
//! a release that fails does not stop the releases after it. The first
//! failure of a run is the one that is reported.

use crate::app::{App, Flow, Input};
use crate::view::{ui, ui_spec, BlockView, Color};
use vstd::prelude::*;

verus! {

/// One operation on the terminal.
#[derive(Clone, Copy, Debug, PartialEq, Eq, Structural)]
pub enum Step {
    EnableRawMode,
    EnterAlternateScreen,
    EnableMouseCapture,
    /// Attach the drawing surface to the terminal.
    OpenTerminal,
    /// Draw the block for the current state.
    Draw,
    /// Block until the next input event arrives.
    ReadInput,
    DisableRawMode,
    LeaveAlternateScreen,
    DisableMouseCapture,
    ShowCursor,
}

/// What the caller is asked to do next.
#[derive(Clone, Copy, Debug, PartialEq, Eq, Structural)]
pub enum Command {
    /// Perform the step and report its outcome.
    Run(Step),
    /// The session is over.
    Exit,
}

/// How a step went.
#[derive(Clone, Copy, Debug, PartialEq, Eq, Structural)]
pub enum Outcome {
    /// The step succeeded. For a read this means an event that nothing acts
    /// on, the same as `Event(Input::Other)`.
    Done,
    /// A read succeeded and delivered this input. For any other step this
    /// counts as success too.
    Event(Input),
    /// The step failed.
    Failed,
}

/// The mode flags of a terminal. All four are off in a terminal that is in
/// cooked mode, shows the normal screen, captures no mouse and shows its
/// cursor.
#[derive(Clone, Copy, Debug, PartialEq, Eq, Structural)]
pub struct Terminal {
    pub raw_mode: bool,
    pub alternate_screen: bool,
    pub mouse_capture: bool,
    pub cursor_hidden: bool,
}

/// A terminal session in progress.
#[derive(Clone, Copy, Debug, PartialEq, Eq)]
pub struct Session {
    /// The application state.
    pub app: App,
    /// The operation that the caller is asked to perform.
    pub pending: Command,
    /// What the session has taken from the terminal and not given back.
    pub held: Terminal,
    /// The first step of the run that failed, if any did.
    pub failure: Option<Step>,
}

impl Step {
    /// Whether the step gives something back to the terminal.
    pub open spec fn is_release(self) -> bool {
        self.release_index() >= 0
    }

    /// The place of a release step in the order of release, and -1 for
    /// every other step.
    pub open spec fn release_index(self) -> int {
        match self {
            Step::DisableRawMode => 0,
            Step::LeaveAlternateScreen => 1,
            Step::DisableMouseCapture => 2,
            Step::ShowCursor => 3,
            _ => -1,
        }
    }
}

impl Outcome {
    /// Whether the step succeeded.
    pub open spec fn ok(self) -> bool {
        self != Outcome::Failed
    }

    /// The input that a successful read delivered.
    pub open spec fn input(self) -> Input {
        match self {
            Outcome::Event(input) => input,
            _ => Input::Other,
        }
    }
}

impl Terminal {
    /// A terminal with nothing taken from it.
    pub open spec fn pristine_spec() -> Terminal {
        Terminal {
            raw_mode: false,
            alternate_screen: false,
            mouse_capture: false,
            cursor_hidden: false,
        }
    }

    /// The flags after a step. A successful step sets or clears its flag. A
    /// failed step leaves the flags as they were, but for a draw: drawing
    /// hides the cursor on the way, so the cursor counts as hidden once a
    /// draw was attempted.
    pub open spec fn after(self, step: Step, ok: bool) -> Terminal {
        match step {
            Step::EnableRawMode => Terminal { raw_mode: self.raw_mode || ok, ..self },
            Step::EnterAlternateScreen => Terminal {
                alternate_screen: self.alternate_screen || ok,
                ..self
            },
            Step::EnableMouseCapture => Terminal {
                mouse_capture: self.mouse_capture || ok,
                ..self
            },
            Step::OpenTerminal => self,
            Step::Draw => Terminal { cursor_hidden: true, ..self },
            Step::ReadInput => self,
            Step::DisableRawMode => Terminal { raw_mode: self.raw_mode && !ok, ..self },
            Step::LeaveAlternateScreen => Terminal {
                alternate_screen: self.alternate_screen && !ok,
                ..self
            },
            Step::DisableMouseCapture => Terminal {
                mouse_capture: self.mouse_capture && !ok,
                ..self
            },
            Step::ShowCursor => Terminal { cursor_hidden: self.cursor_hidden && !ok, ..self },
        }
    }

    /// Whether the flag that the release step at `index` clears is set.
    pub open spec fn flag(self, index: int) -> bool {
        if index == 0 {
            self.raw_mode
        } else if index == 1 {
            self.alternate_screen
        } else if index == 2 {
            self.mouse_capture
        } else if index == 3 {
            self.cursor_hidden
        } else {
            false
        }
    }

    /// A terminal in cooked mode, on the normal screen, without mouse
    /// capture and with a visible cursor.
    pub fn pristine() -> (terminal: Terminal)
        ensures
            terminal == Terminal::pristine_spec(),
    {
        Terminal {
            raw_mode: false,
            alternate_screen: false,
            mouse_capture: false,
            cursor_hidden: false,
        }
    }

    /// Applies a step that succeeded (`ok`) or failed to the flags.
    pub fn apply(&mut self, step: Step, ok: bool)
        ensures
            *final(self) == old(self).after(step, ok),
    {
        match step {
            Step::EnableRawMode => {
                self.raw_mode = self.raw_mode || ok;
            },
            Step::EnterAlternateScreen => {
                self.alternate_screen = self.alternate_screen || ok;
            },
            Step::EnableMouseCapture => {
                self.mouse_capture = self.mouse_capture || ok;
            },
            Step::OpenTerminal => {},
            Step::Draw => {
                self.cursor_hidden = true;
            },
            Step::ReadInput => {},
            Step::DisableRawMode => {
                self.raw_mode = self.raw_mode && !ok;
            },
            Step::LeaveAlternateScreen => {
                self.alternate_screen = self.alternate_screen && !ok;
            },
            Step::DisableMouseCapture => {
                self.mouse_capture = self.mouse_capture && !ok;
            },
            Step::ShowCursor => {
                self.cursor_hidden = self.cursor_hidden && !ok;
            },
        }
    }
}

/// The next release that is due: the first step of the release order, from
/// place `from` on, whose flag is held. When nothing is left, the session
/// is over.
pub open spec fn release_from(from: int, held: Terminal) -> Command {
    if from <= 0 && held.raw_mode {
        Command::Run(Step::DisableRawMode)
    } else if from <= 1 && held.alternate_screen {
        Command::Run(Step::LeaveAlternateScreen)
    } else if from <= 2 && held.mouse_capture {
        Command::Run(Step::DisableMouseCapture)
    } else if from <= 3 && held.cursor_hidden {
        Command::Run(Step::ShowCursor)
    } else {
        Command::Exit
    }
}

/// The command that follows `step` when it went as `outcome` says and the
/// session then holds `held`.
pub open spec fn command_after(step: Step, outcome: Outcome, held: Terminal) -> Command {
    if step.is_release() {
        release_from(step.release_index() + 1, held)
    } else if !outcome.ok() {
        release_from(0, held)
    } else {
        match step {
            Step::EnableRawMode => Command::Run(Step::EnterAlternateScreen),
            Step::EnterAlternateScreen => Command::Run(Step::EnableMouseCapture),
            Step::EnableMouseCapture => Command::Run(Step::OpenTerminal),
            Step::OpenTerminal => Command::Run(Step::Draw),
            Step::Draw => Command::Run(Step::ReadInput),
            _ => if outcome.input().is_quit() {
                release_from(0, held)
            } else {
                Command::Run(Step::Draw)
            },
        }
    }
}

fn next_release(from: u8, held: &Terminal) -> (command: Command)
    ensures
        command == release_from(from as int, *held),
{
    if from <= 0 && held.raw_mode {
        Command::Run(Step::DisableRawMode)
    } else if from <= 1 && held.alternate_screen {
        Command::Run(Step::LeaveAlternateScreen)
    } else if from <= 2 && held.mouse_capture {
        Command::Run(Step::DisableMouseCapture)
    } else if from <= 3 && held.cursor_hidden {
        Command::Run(Step::ShowCursor)
    } else {
        Command::Exit
    }
}

impl Session {
    /// The session before anything was done.
    pub open spec fn start() -> Session {
        Session {
            app: App { edit_mode: false },
            pending: Command::Run(Step::EnableRawMode),
            held: Terminal::pristine_spec(),
            failure: None,
        }
    }

    /// What holds of every session that a run can reach: before the loop
    /// the session holds what the steps so far have taken and nothing has
    /// failed; inside the loop it holds raw mode, the alternate screen and
    /// mouse capture, and the cursor once a draw was attempted; while
    /// releasing, the flag of the pending release is still held.
    pub open spec fn wf(self) -> bool {
        match self.pending {
            Command::Exit => true,
            Command::Run(step) => if step.is_release() {
                self.held.flag(step.release_index())
            } else {
                &&& self.failure.is_none()
                &&& self.held.raw_mode == (step != Step::EnableRawMode)
                &&& self.held.alternate_screen == (step != Step::EnableRawMode && step
                    != Step::EnterAlternateScreen)
                &&& self.held.mouse_capture == (step == Step::OpenTerminal || step == Step::Draw
                    || step == Step::ReadInput)
                &&& step == Step::ReadInput ==> self.held.cursor_hidden
                &&& step != Step::Draw && step != Step::ReadInput ==> !self.held.cursor_hidden
                    && !self.app.edit_mode
            },
        }
    }

    /// Whether the session is over.
    pub open spec fn ended(self) -> bool {
        self.pending == Command::Exit
    }

    /// The session after the pending step went as `outcome` says. A session
    /// that is over stays as it is.
    pub open spec fn advanced(self, outcome: Outcome) -> Session {
        match self.pending {
            Command::Exit => self,
            Command::Run(step) => {
                let held = self.held.after(step, outcome.ok());
                Session {
                    app: if step == Step::ReadInput && outcome.ok() {
                        self.app.after(outcome.input())
                    } else {
                        self.app
                    },
                    pending: command_after(step, outcome, held),
                    held,
                    failure: if self.failure.is_none() && !outcome.ok() {
                        Some(step)
                    } else {
                        self.failure
                    },
                }
            },
        }
    }

    /// The exit status of the process: none while the session runs, then 0
    /// if no step failed and 1 if one did.
    pub open spec fn exit_code_spec(self) -> Option<u8> {
        if !self.ended() {
            None
        } else if self.failure.is_none() {
            Some(0u8)
        } else {
            Some(1u8)
        }
    }

    /// A new session. Its first command is to enable raw mode.
    pub fn new() -> (session: Session)
        ensures
            session == Session::start(),
            session.wf(),
    {
        Session {
            app: App::default(),
            pending: Command::Run(Step::EnableRawMode),
            held: Terminal::pristine(),
            failure: None,
        }
    }

    /// The operation that the caller is asked to perform next.
    pub fn command(&self) -> (command: Command)
        ensures
            command == self.pending,
    {
        self.pending
    }

    /// The block to draw when the pending command is a draw.
    pub fn view(&self) -> (view: BlockView)
        ensures
            view == ui_spec(self.app),
            view.border_color == Color::Red <==> self.app.edit_mode,
    {
        ui(&self.app)
    }

    /// The exit status of the process, once the session is over.
    pub fn exit_code(&self) -> (code: Option<u8>)
        ensures
            code == self.exit_code_spec(),
    {
        match self.pending {
            Command::Run(_) => None,
            Command::Exit => match self.failure {
                None => Some(0u8),
                Some(_) => Some(1u8),
            },
        }
    }

    /// Takes the outcome of the pending step and moves on to the next.
    pub fn advance(&mut self, outcome: Outcome)
        ensures
            *final(self) == old(self).advanced(outcome),
            old(self).wf() ==> final(self).wf(),
    {
        let step = match self.pending {
            Command::Exit => {
                return ;
            },
            Command::Run(step) => step,
        };
        let ok = match outcome {
            Outcome::Failed => false,
            _ => true,
        };
        if !ok && self.failure.is_none() {
            self.failure = Some(step);
        }
        self.held.apply(step, ok);
        let mut quit = !ok;
        match step {
            Step::DisableRawMode => {
                self.pending = next_release(1, &self.held);
                return ;
            },
            Step::LeaveAlternateScreen => {
                self.pending = next_release(2, &self.held);
                return ;
            },
            Step::DisableMouseCapture => {
                self.pending = next_release(3, &self.held);
                return ;
            },
            Step::ShowCursor => {
                self.pending = next_release(4, &self.held);
                return ;
            },
            Step::ReadInput => {
                if ok {
                    let input = match outcome {
                        Outcome::Event(input) => input,
                        _ => Input::Other,
                    };
                    match self.app.handle(input) {
                        Flow::Quit => {
                            quit = true;
                        },
                        Flow::Continue => {},
                    }
                }
            },
            _ => {},
        }
        if quit {
            self.pending = next_release(0, &self.held);
            return ;
        }
        self.pending = match step {
            Step::EnableRawMode => Command::Run(Step::EnterAlternateScreen),
            Step::EnterAlternateScreen => Command::Run(Step::EnableMouseCapture),
            Step::EnableMouseCapture => Command::Run(Step::OpenTerminal),
            Step::OpenTerminal => Command::Run(Step::Draw),
            Step::Draw => Command::Run(Step::ReadInput),
            _ => Command::Run(Step::Draw),
        };
    }
}

} // verus!
