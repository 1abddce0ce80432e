//! The input mode state machine: browse mode and command-line entry.

use vstd::prelude::*;
use crate::keys::{Key, KeyCode};

verus! {

/// The two input states.
#[derive(Clone, Copy, Debug, PartialEq, Eq, Structural)]
pub enum Mode {
    /// Typed characters edit the command line.
    Command,
    /// Keys navigate the panes. This is the initial state.
    Browse,
}

/// A command line once it has been read.
#[derive(Clone, Copy, Debug, PartialEq, Eq, Structural)]
pub enum Command {
    /// `q` or `quit`.
    Quit,
    /// Anything else; it is ignored.
    Unrecognized,
}

/// What a key press asks the session to do, once the mode has routed it.
#[derive(Clone, Copy, Debug, PartialEq, Eq, Structural)]
pub enum Intent {
    /// The key has no binding in the current mode.
    Ignore,
    /// Move the selection of the center pane by this many rows.
    MoveCursor(isize),
    /// Enter the selected directory.
    Descend,
    /// Go to the parent directory.
    Ascend,
    /// Leave the program in the normal way.
    Quit,
    /// Leave the program at once, as on an interrupt signal.
    Interrupt,
    /// Command mode was entered: show the prompt.
    Prompt,
    /// A character was appended to the command line: echo it.
    Echo(char),
    /// The last character was removed from the command line: show it again.
    Erase,
    /// The command line was abandoned: back to browsing.
    Cancel,
    /// The command line was submitted and read as this command.
    Submit(Command),
}

/// Reads a command line. Only `q` and `quit` are commands.
pub open spec fn parse_command(line: Seq<char>) -> Command {
    if line == seq!['q'] || line == seq!['q', 'u', 'i', 't'] {
        Command::Quit
    } else {
        Command::Unrecognized
    }
}

/// The input state machine as a mathematical value.
pub struct InputModel {
    pub mode: Mode,
    pub buffer: Seq<char>,
}

impl InputModel {
    /// The command buffer holds characters only in command mode.
    pub open spec fn wf(self) -> bool {
        self.mode == Mode::Browse ==> self.buffer.len() == 0
    }

    /// The state a session starts in.
    pub open spec fn initial() -> InputModel {
        InputModel { mode: Mode::Browse, buffer: Seq::empty() }
    }

    /// Browse mode with the command buffer discarded.
    pub open spec fn browsing() -> InputModel {
        InputModel { mode: Mode::Browse, buffer: Seq::empty() }
    }

    /// The transition that a key causes in browse mode, and what it asks for.
    pub open spec fn browse_keypress(self, key: Key) -> (InputModel, Intent) {
        if key.modifiers.is_none() {
            match key.code {
                KeyCode::Char(c) => {
                    if c == ':' {
                        (InputModel { mode: Mode::Command, buffer: Seq::empty() }, Intent::Prompt)
                    } else if c == 'q' {
                        (self, Intent::Quit)
                    } else if c == 'j' {
                        (self, Intent::MoveCursor(1))
                    } else if c == 'k' {
                        (self, Intent::MoveCursor(-1isize))
                    } else if c == 'h' {
                        (self, Intent::Ascend)
                    } else if c == 'l' {
                        (self, Intent::Descend)
                    } else {
                        (self, Intent::Ignore)
                    }
                },
                _ => (self, Intent::Ignore),
            }
        } else if key.interrupts() {
            (self, Intent::Interrupt)
        } else {
            (self, Intent::Ignore)
        }
    }

    /// The transition that a key causes in command mode, and what it asks for.
    pub open spec fn cmd_keypress(self, key: Key) -> (InputModel, Intent) {
        if key.modifiers.is_none() {
            match key.code {
                KeyCode::Char(c) => (
                    InputModel { mode: Mode::Command, buffer: self.buffer.push(c) },
                    Intent::Echo(c),
                ),
                KeyCode::Backspace => {
                    if self.buffer.len() > 0 {
                        (
                            InputModel { mode: Mode::Command, buffer: self.buffer.drop_last() },
                            Intent::Erase,
                        )
                    } else {
                        (self, Intent::Ignore)
                    }
                },
                KeyCode::Esc => (InputModel::browsing(), Intent::Cancel),
                KeyCode::Enter => (
                    InputModel::browsing(),
                    Intent::Submit(parse_command(self.buffer)),
                ),
                KeyCode::Other => (self, Intent::Ignore),
            }
        } else if key.interrupts() {
            (self, Intent::Interrupt)
        } else {
            (self, Intent::Ignore)
        }
    }

    /// The transition that a key causes in the current mode.
    pub open spec fn handle_keypress(self, key: Key) -> (InputModel, Intent) {
        match self.mode {
            Mode::Browse => self.browse_keypress(key),
            Mode::Command => self.cmd_keypress(key),
        }
    }
}

/// The input mode and the command line being edited.
#[derive(Debug)]
pub struct InputModeController {
    mode: Mode,
    command_buffer: Vec<char>,
}

impl View for InputModeController {
    type V = InputModel;

    closed spec fn view(&self) -> InputModel {
        InputModel { mode: self.mode, buffer: self.command_buffer@ }
    }
}

impl InputModeController {
    /// The invariant of the controller, stated on its model.
    pub open spec fn wf(&self) -> bool {
        self@.wf()
    }

    /// A controller in browse mode with an empty command line.
    pub fn new() -> (controller: InputModeController)
        ensures
            controller@ == InputModel::initial(),
            controller.wf(),
    {
        InputModeController { mode: Mode::Browse, command_buffer: Vec::new() }
    }

    /// The current mode.
    pub fn mode(&self) -> (mode: Mode)
        ensures
            mode == self@.mode,
    {
        self.mode
    }

    /// The command line as typed so far.
    pub fn command_buffer(&self) -> (buffer: &Vec<char>)
        ensures
            buffer@ == self@.buffer,
    {
        &self.command_buffer
    }

    /// Reads a command line: `q` and `quit` ask to quit, and every other
    /// line is unrecognized.
    pub fn process_command(line: &Vec<char>) -> (command: Command)
        ensures
            command == parse_command(line@),
    {
        let quit = if line.len() == 1 {
            line[0] == 'q'
        } else if line.len() == 4 {
            line[0] == 'q' && line[1] == 'u' && line[2] == 'i' && line[3] == 't'
        } else {
            false
        };
        proof {
            if quit {
                assert(line@ =~= seq!['q'] || line@ =~= seq!['q', 'u', 'i', 't']);
            }
        }
        if quit {
            Command::Quit
        } else {
            Command::Unrecognized
        }
    }

    /// Routes a key pressed in browse mode. Only `:` changes the controller:
    /// it enters command mode with an empty command line.
    pub fn browse_keypress(&mut self, key: Key) -> (intent: Intent)
        requires
            old(self).wf(),
        ensures
            final(self).wf(),
            (final(self)@, intent) == old(self)@.browse_keypress(key),
    {
        if key.modifiers.holds_none() {
            match key.code {
                KeyCode::Char(c) => {
                    if c == ':' {
                        self.command_buffer.clear();
                        self.mode = Mode::Command;
                        Intent::Prompt
                    } else if c == 'q' {
                        Intent::Quit
                    } else if c == 'j' {
                        Intent::MoveCursor(1)
                    } else if c == 'k' {
                        Intent::MoveCursor(-1)
                    } else if c == 'h' {
                        Intent::Ascend
                    } else if c == 'l' {
                        Intent::Descend
                    } else {
                        Intent::Ignore
                    }
                },
                _ => Intent::Ignore,
            }
        } else if key.is_interrupt() {
            Intent::Interrupt
        } else {
            Intent::Ignore
        }
    }

    /// Routes a key pressed in command mode: characters are appended to the
    /// command line, backspace removes the last one, escape abandons the line,
    /// and enter reads it as a command. Escape and enter both return to
    /// browse mode with an empty command line.
    pub fn cmd_keypress(&mut self, key: Key) -> (intent: Intent)
        requires
            old(self).wf(),
        ensures
            final(self).wf(),
            (final(self)@, intent) == old(self)@.cmd_keypress(key),
    {
        if key.modifiers.holds_none() {
            match key.code {
                KeyCode::Char(c) => {
                    self.mode = Mode::Command;
                    self.command_buffer.push(c);
                    Intent::Echo(c)
                },
                KeyCode::Backspace => {
                    if self.command_buffer.len() > 0 {
                        self.mode = Mode::Command;
                        self.command_buffer.pop();
                        Intent::Erase
                    } else {
                        Intent::Ignore
                    }
                },
                KeyCode::Esc => {
                    self.command_buffer.clear();
                    self.mode = Mode::Browse;
                    Intent::Cancel
                },
                KeyCode::Enter => {
                    let command = Self::process_command(&self.command_buffer);
                    self.command_buffer.clear();
                    self.mode = Mode::Browse;
                    Intent::Submit(command)
                },
                KeyCode::Other => Intent::Ignore,
            }
        } else if key.is_interrupt() {
            Intent::Interrupt
        } else {
            Intent::Ignore
        }
    }

    /// Routes a key according to the current mode.
    pub fn handle_keypress(&mut self, key: Key) -> (intent: Intent)
        requires
            old(self).wf(),
        ensures
            final(self).wf(),
            (final(self)@, intent) == old(self)@.handle_keypress(key),
    {
        match self.mode {
            Mode::Browse => self.browse_keypress(key),
            Mode::Command => self.cmd_keypress(key),
        }
    }
}

} // verus!
