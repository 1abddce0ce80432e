//! The session: one navigation engine and one input state machine, driven
//! by key presses and directory listings. Every step returns the drawing
//! operations to carry out and what the front end is to do next.

use vstd::prelude::*;
use crate::draw::{
    lemma_ops_model_push, ops_model, CursorStyle, DrawOp, DrawOpModel,
};
use crate::input::{Command, InputModeController, InputModel, Intent};
use crate::keys::Key;
use crate::navigation::{NavModel, NavigationEngine};
use crate::path::{DirectoryPath, PathModel};
use crate::snapshot::{listing_model, Listing, ListingModel, LoadError};

verus! {

/// Why the program is to end.
#[derive(Clone, Copy, Debug, PartialEq, Eq, Structural)]
pub enum ExitStatus {
    /// The user asked to quit.
    Quit,
    /// The user interrupted the program.
    Interrupt,
    /// The directory to start in could not be read.
    StartupFailure(LoadError),
}

impl ExitStatus {
    /// The exit code of the process: 0 after a normal quit, 1 otherwise.
    pub open spec fn exit_code(self) -> i32 {
        match self {
            ExitStatus::Quit => 0,
            _ => 1,
        }
    }

    /// The diagnostic to print on the way out; empty after a normal quit.
    pub open spec fn message_text(self) -> Seq<char> {
        match self {
            ExitStatus::Quit => ""@,
            ExitStatus::Interrupt => "SIGINT"@,
            ExitStatus::StartupFailure(error) => match error {
                LoadError::NotADirectory => "cannot start: not a directory"@,
                LoadError::AccessDenied => "cannot start: access denied"@,
                LoadError::NotFound => "cannot start: no such directory"@,
            },
        }
    }

    /// The exit code of the process: 0 after a normal quit, 1 otherwise.
    pub fn code(&self) -> (code: i32)
        ensures
            code == self.exit_code(),
            code == 0 <==> *self == ExitStatus::Quit,
    {
        match self {
            ExitStatus::Quit => 0,
            _ => 1,
        }
    }

    /// The diagnostic to print on the way out: nothing after a normal quit,
    /// `SIGINT` after an interrupt, and the reason after a failed start.
    pub fn message(&self) -> (text: &'static str)
        ensures
            text@ == self.message_text(),
    {
        match self {
            ExitStatus::Quit => "",
            ExitStatus::Interrupt => "SIGINT",
            ExitStatus::StartupFailure(error) => match error {
                LoadError::NotADirectory => "cannot start: not a directory",
                LoadError::AccessDenied => "cannot start: access denied",
                LoadError::NotFound => "cannot start: no such directory",
            },
        }
    }
}

/// What the front end is to do once it has carried out the drawing
/// operations of a step.
#[derive(Debug, PartialEq, Eq)]
pub enum Next {
    /// Wait for the next key press.
    Wait,
    /// Read this directory and hand the listing, or the error, back.
    Read(DirectoryPath),
    /// Restore the terminal and end the process.
    Exit(ExitStatus),
}

/// What to do next, as a mathematical value.
pub enum NextModel {
    Wait,
    Read(PathModel),
    Exit(ExitStatus),
}

impl View for Next {
    type V = NextModel;

    open spec fn view(&self) -> NextModel {
        match self {
            Next::Wait => NextModel::Wait,
            Next::Read(location) => NextModel::Read(location@),
            Next::Exit(status) => NextModel::Exit(*status),
        }
    }
}

/// The answer of the session to an event.
#[derive(Debug, PartialEq, Eq)]
pub struct Reaction {
    /// The drawing operations to carry out, in order.
    pub ops: Vec<DrawOp>,
    /// What to do after them.
    pub next: Next,
}

/// A reaction as a mathematical value.
pub struct ReactionModel {
    pub ops: Seq<DrawOpModel>,
    pub next: NextModel,
}

impl View for Reaction {
    type V = ReactionModel;

    open spec fn view(&self) -> ReactionModel {
        ReactionModel { ops: ops_model(self.ops@), next: self.next@ }
    }
}

impl ReactionModel {
    /// Nothing to draw; wait for the next key.
    pub open spec fn nothing() -> ReactionModel {
        ReactionModel { ops: Seq::empty(), next: NextModel::Wait }
    }

    /// These operations, then wait for the next key.
    pub open spec fn draw(ops: Seq<DrawOpModel>) -> ReactionModel {
        ReactionModel { ops, next: NextModel::Wait }
    }

    /// Nothing to draw; read this directory.
    pub open spec fn read(location: PathModel) -> ReactionModel {
        ReactionModel { ops: Seq::empty(), next: NextModel::Read(location) }
    }

    /// Nothing to draw; end the program.
    pub open spec fn exit(status: ExitStatus) -> ReactionModel {
        ReactionModel { ops: Seq::empty(), next: NextModel::Exit(status) }
    }
}

/// The session as a mathematical value.
pub struct SessionModel {
    pub nav: NavModel,
    pub input: InputModel,
    /// The width of the screen in columns.
    pub width: u16,
    /// The height of the screen in rows.
    pub height: u16,
}

impl SessionModel {
    /// The session at its start, for a screen of the given size: three
    /// empty panes and browse mode.
    pub open spec fn initial(width: u16, height: u16) -> SessionModel {
        SessionModel {
            nav: NavModel::initial(width, height),
            input: InputModel::initial(),
            width,
            height,
        }
    }

    /// Both parts are well formed.
    pub open spec fn wf(self) -> bool {
        self.nav.wf() && self.input.wf()
    }

    /// The row of the selected entry of the center pane: as many rows
    /// below the top of the pane as the entry has entries before it, and
    /// never past the last row that can be addressed.
    pub open spec fn cursor_row(self) -> u16 {
        let row = self.nav.ring.center().row + self.nav.ring.cursor_index();
        if row > u16::MAX {
            u16::MAX
        } else {
            row as u16
        }
    }

    /// The bottom row of the screen.
    pub open spec fn bottom_row(self) -> u16 {
        if self.height > 0 {
            (self.height - 1) as u16
        } else {
            0
        }
    }

    /// The move of the cursor to the selected entry of the center pane.
    pub open spec fn cursor_home(self) -> DrawOpModel {
        DrawOpModel::MoveTo { column: self.nav.ring.stride, row: self.cursor_row() }
    }

    /// The operations of a full redraw: the screen is cleared, the three
    /// panes are drawn, and the cursor goes to the selected entry of the
    /// center pane, if that pane shows a directory.
    pub open spec fn render(self) -> Seq<DrawOpModel> {
        let cursor = if self.nav.ring.center().contents is Some {
            seq![self.cursor_home()]
        } else {
            Seq::empty()
        };
        seq![DrawOpModel::ClearAll] + self.nav.ring.render() + cursor
    }

    /// The operations that show browse mode: the cursor goes to the
    /// selected entry and becomes a steady block.
    pub open spec fn browse(self) -> Seq<DrawOpModel> {
        seq![self.cursor_home(), DrawOpModel::SetCursorStyle(CursorStyle::SteadyBlock)]
    }

    /// The operations that show command mode: the prompt `:` on a cleared
    /// bottom row, and a blinking block for a cursor.
    pub open spec fn command(self) -> Seq<DrawOpModel> {
        seq![
            DrawOpModel::MoveTo { column: 0, row: self.bottom_row() },
            DrawOpModel::ClearLine,
            DrawOpModel::SetCursorStyle(CursorStyle::BlinkingBlock),
            DrawOpModel::Text(seq![':']),
        ]
    }

    /// The operations that show the command line again after a character
    /// was removed from it.
    pub open spec fn reprint(self) -> Seq<DrawOpModel> {
        seq![DrawOpModel::ClearLine, DrawOpModel::Text(seq!['\r', ':'] + self.input.buffer)]
    }

    /// The operations that leave the command line for browse mode.
    pub open spec fn dismiss(self) -> Seq<DrawOpModel> {
        seq![DrawOpModel::ClearLine] + self.browse()
    }

    /// The reaction that ends a step of the navigation engine: where a
    /// listing is awaited its directory is to be read, and otherwise the
    /// screen is redrawn in full.
    pub open spec fn settled(self) -> ReactionModel {
        match self.nav.awaited() {
            Some(location) => ReactionModel::read(location),
            None => ReactionModel::draw(self.render()),
        }
    }

    /// The session with another navigation engine.
    pub open spec fn with_nav(self, nav: NavModel) -> SessionModel {
        SessionModel { nav, ..self }
    }

    /// The session with another input state.
    pub open spec fn with_input(self, input: InputModel) -> SessionModel {
        SessionModel { input, ..self }
    }

    /// The step that starts the session in `location`.
    pub open spec fn init(self, location: PathModel) -> (SessionModel, ReactionModel) {
        (self.with_nav(self.nav.open(location)), ReactionModel::read(location))
    }

    /// The step that a request to move the selection causes. Where the
    /// preview was empty and stays so, only the cursor moves; a preview
    /// that is emptied costs a full redraw; a preview that is to be read
    /// is drawn once its listing has come back.
    pub open spec fn move_cursor(self, delta: int) -> (SessionModel, ReactionModel) {
        let next = self.with_nav(self.nav.move_cursor(delta));
        let reposition = seq![DrawOpModel::MoveToRow(next.cursor_row())];
        let reaction = match next.nav.awaited() {
            Some(location) => ReactionModel::read(location),
            None => if self.nav.ring.right().contents is None {
                ReactionModel::draw(reposition)
            } else {
                ReactionModel::draw(next.render() + reposition)
            },
        };
        (next, reaction)
    }

    /// The step that a request to descend causes.
    pub open spec fn descend(self) -> (SessionModel, ReactionModel) {
        if self.nav.can_descend() {
            let next = self.with_nav(self.nav.descend());
            (next, next.settled())
        } else {
            (self, ReactionModel::nothing())
        }
    }

    /// The step that a request to ascend causes.
    pub open spec fn ascend(self) -> (SessionModel, ReactionModel) {
        if self.nav.can_ascend() {
            let next = self.with_nav(self.nav.ascend());
            (next, next.settled())
        } else {
            (self, ReactionModel::nothing())
        }
    }

    /// The step that the session takes for what a key asks.
    pub open spec fn apply(self, intent: Intent) -> (SessionModel, ReactionModel) {
        match intent {
            Intent::Ignore => (self, ReactionModel::nothing()),
            Intent::MoveCursor(delta) => self.move_cursor(delta as int),
            Intent::Descend => self.descend(),
            Intent::Ascend => self.ascend(),
            Intent::Quit => (self, ReactionModel::exit(ExitStatus::Quit)),
            Intent::Interrupt => (self, ReactionModel::exit(ExitStatus::Interrupt)),
            Intent::Prompt => (self, ReactionModel::draw(self.command())),
            Intent::Echo(c) => (self, ReactionModel::draw(seq![DrawOpModel::Text(seq![c])])),
            Intent::Erase => (self, ReactionModel::draw(self.reprint())),
            Intent::Cancel => (self, ReactionModel::draw(self.dismiss())),
            Intent::Submit(Command::Quit) => (self, ReactionModel::exit(ExitStatus::Quit)),
            Intent::Submit(Command::Unrecognized) => (self, ReactionModel::draw(self.dismiss())),
        }
    }

    /// The step that a key press causes. While a listing is awaited, keys
    /// change nothing: an interrupt ends the program, and any other key
    /// asks again for the directory to be read.
    pub open spec fn handle_keypress(self, key: Key) -> (SessionModel, ReactionModel) {
        if self.nav.idle() {
            let (input, intent) = self.input.handle_keypress(key);
            self.with_input(input).apply(intent)
        } else if key.interrupts() {
            (self, ReactionModel::exit(ExitStatus::Interrupt))
        } else {
            (self, self.settled())
        }
    }

    /// The step that a listing causes. The failure to read the directory
    /// to start in ends the program; every other failure empties the pane
    /// that the listing was for.
    pub open spec fn directory_loaded(self, listing: ListingModel) -> (
        SessionModel,
        ReactionModel,
    ) {
        if self.nav.idle() {
            (self, ReactionModel::nothing())
        } else {
            let next = self.with_nav(self.nav.loaded(listing));
            if self.nav.pending is Opening && listing is Err {
                (next, ReactionModel::exit(ExitStatus::StartupFailure(listing->Err_0)))
            } else {
                (next, next.settled())
            }
        }
    }

    /// Every step keeps the session well formed.
    pub proof fn lemma_steps_keep_wf(
        self,
        key: Key,
        location: PathModel,
        listing: ListingModel,
    )
        requires
            self.wf(),
        ensures
            self.init(location).0.wf(),
            self.handle_keypress(key).0.wf(),
            self.directory_loaded(listing).0.wf(),
    {
        self.nav.lemma_loaded_wf(listing);
    }
}

/// One navigation engine and one input state machine for a screen.
#[derive(Debug)]
pub struct Session {
    nav: NavigationEngine,
    input: InputModeController,
    width: u16,
    height: u16,
}

impl View for Session {
    type V = SessionModel;

    closed spec fn view(&self) -> SessionModel {
        SessionModel { nav: self.nav@, input: self.input@, width: self.width, height: self.height }
    }
}

impl Session {
    /// The invariant of the session, stated on its model.
    pub open spec fn wf(&self) -> bool {
        self@.wf()
    }

    /// A session for a screen of the given size: three empty panes, each a
    /// third of the screen wide, and browse mode.
    pub fn new(width: u16, height: u16) -> (session: Session)
        ensures
            session.wf(),
            session@ == SessionModel::initial(width, height),
    {
        Session {
            nav: NavigationEngine::new(width, height),
            input: InputModeController::new(),
            width,
            height,
        }
    }

    /// The navigation engine.
    pub fn navigation(&self) -> (nav: &NavigationEngine)
        ensures
            nav@ == self@.nav,
    {
        &self.nav
    }

    /// The input state machine.
    pub fn input(&self) -> (input: &InputModeController)
        ensures
            input@ == self@.input,
    {
        &self.input
    }

    /// The width of the screen in columns.
    pub fn width(&self) -> (width: u16)
        ensures
            width == self@.width,
    {
        self.width
    }

    /// The height of the screen in rows.
    pub fn height(&self) -> (height: u16)
        ensures
            height == self@.height,
    {
        self.height
    }

    /// The row of the selected entry of the center pane.
    pub fn cursor_row(&self) -> (row: u16)
        requires
            self.wf(),
        ensures
            row == self@.cursor_row(),
    {
        let ring = self.nav.ring();
        let top = ring.center().row();
        let index = ring.cursor_index();
        let room: u16 = u16::MAX - top;
        if index >= room as usize {
            u16::MAX
        } else {
            top + index as u16
        }
    }

    /// The operations of a full redraw: the screen is cleared, the three
    /// panes are drawn, and the cursor goes to the selected entry of the
    /// center pane, if that pane shows a directory.
    pub fn render(&self) -> (ops: Vec<DrawOp>)
        requires
            self.wf(),
        ensures
            ops_model(ops@) == self@.render(),
    {
        let ring = self.nav.ring();
        let mut ops: Vec<DrawOp> = Vec::new();
        ops.push(DrawOp::ClearAll);
        let mut panes = ring.render();
        ops.append(&mut panes);
        if ring.center().contents().is_some() {
            ops.push(DrawOp::MoveTo { column: ring.stride(), row: self.cursor_row() });
        }
        ops
    }

    /// The operations that show browse mode: the cursor goes to the
    /// selected entry of the center pane and becomes a steady block.
    pub fn browse(&self) -> (ops: Vec<DrawOp>)
        requires
            self.wf(),
        ensures
            ops_model(ops@) == self@.browse(),
    {
        let mut ops: Vec<DrawOp> = Vec::new();
        ops.push(DrawOp::MoveTo { column: self.nav.ring().stride(), row: self.cursor_row() });
        ops.push(DrawOp::SetCursorStyle(CursorStyle::SteadyBlock));
        ops
    }

    /// The operations that show command mode: the prompt `:` on a cleared
    /// bottom row, and a blinking block for a cursor.
    pub fn command(&self) -> (ops: Vec<DrawOp>)
        ensures
            ops_model(ops@) == self@.command(),
    {
        let bottom: u16 = if self.height > 0 {
            self.height - 1
        } else {
            0
        };
        let mut prompt: Vec<char> = Vec::new();
        prompt.push(':');
        let mut ops: Vec<DrawOp> = Vec::new();
        ops.push(DrawOp::MoveTo { column: 0, row: bottom });
        ops.push(DrawOp::ClearLine);
        ops.push(DrawOp::SetCursorStyle(CursorStyle::BlinkingBlock));
        ops.push(DrawOp::Text(prompt));
        ops
    }

    /// The operations that show the command line again: the line is
    /// cleared and written anew, prompt first.
    fn reprint(&self) -> (ops: Vec<DrawOp>)
        ensures
            ops_model(ops@) == self@.reprint(),
    {
        let buffer = self.input.command_buffer();
        let mut text: Vec<char> = Vec::new();
        text.push('\r');
        text.push(':');
        let mut i: usize = 0;
        while i < buffer.len()
            invariant
                i <= buffer.len(),
                text@ == seq!['\r', ':'] + buffer@.take(i as int),
            decreases buffer.len() - i,
        {
            text.push(buffer[i]);
            i += 1;
        }
        assert(buffer@.take(i as int) =~= buffer@);
        let mut ops: Vec<DrawOp> = Vec::new();
        ops.push(DrawOp::ClearLine);
        ops.push(DrawOp::Text(text));
        ops
    }

    /// The operations that leave the command line for browse mode.
    fn dismiss(&self) -> (ops: Vec<DrawOp>)
        requires
            self.wf(),
        ensures
            ops_model(ops@) == self@.dismiss(),
    {
        let mut ops: Vec<DrawOp> = Vec::new();
        ops.push(DrawOp::ClearLine);
        let mut rest = self.browse();
        ops.append(&mut rest);
        ops
    }

    /// The reaction that ends a step of the navigation engine.
    fn settle(&self) -> (reaction: Reaction)
        requires
            self.wf(),
        ensures
            reaction@ == self@.settled(),
    {
        match self.nav.awaited() {
            Some(location) => read(location),
            None => draw(self.render()),
        }
    }

    /// Starts the session in the directory `location`: the directory is to
    /// be read, then its parent, then the directory that its first entry
    /// names, and then the screen is drawn.
    pub fn init(&mut self, location: DirectoryPath) -> (reaction: Reaction)
        requires
            old(self).wf(),
        ensures
            final(self).wf(),
            (final(self)@, reaction@) == old(self)@.init(location@),
    {
        let request = self.nav.open(location);
        read(request)
    }

    /// Takes a key press. In browse mode `j` and `k` move the selection,
    /// `l` enters the selected directory, `h` goes to the parent, `:`
    /// starts a command line and `q` quits. In command mode characters are
    /// appended to the command line, backspace removes one, escape abandons
    /// the line, and enter runs it: `q` and `quit` quit, and any other line
    /// is ignored. Control-C interrupts in either mode. Every other key
    /// does nothing.
    pub fn handle_keypress(&mut self, key: Key) -> (reaction: Reaction)
        requires
            old(self).wf(),
        ensures
            final(self).wf(),
            (final(self)@, reaction@) == old(self)@.handle_keypress(key),
    {
        if self.nav.is_idle() {
            let intent = self.input.handle_keypress(key);
            self.apply(intent)
        } else if key.is_interrupt() {
            exit(ExitStatus::Interrupt)
        } else {
            self.settle()
        }
    }

    /// Carries out what a key asked for.
    fn apply(&mut self, intent: Intent) -> (reaction: Reaction)
        requires
            old(self).wf(),
            old(self)@.nav.idle(),
        ensures
            final(self).wf(),
            (final(self)@, reaction@) == old(self)@.apply(intent),
    {
        match intent {
            Intent::Ignore => nothing(),
            Intent::MoveCursor(delta) => self.move_cursor(delta),
            Intent::Descend => self.descend(),
            Intent::Ascend => self.ascend(),
            Intent::Quit => exit(ExitStatus::Quit),
            Intent::Interrupt => exit(ExitStatus::Interrupt),
            Intent::Prompt => draw(self.command()),
            Intent::Echo(c) => {
                let mut text: Vec<char> = Vec::new();
                text.push(c);
                let mut ops: Vec<DrawOp> = Vec::new();
                ops.push(DrawOp::Text(text));
                assert(ops_model(ops@) =~= seq![DrawOpModel::Text(seq![c])]);
                draw(ops)
            },
            Intent::Erase => draw(self.reprint()),
            Intent::Cancel => draw(self.dismiss()),
            Intent::Submit(Command::Quit) => exit(ExitStatus::Quit),
            Intent::Submit(Command::Unrecognized) => draw(self.dismiss()),
        }
    }

    /// Moves the selection of the center pane by `delta` rows, as far as
    /// the listing goes, and brings the preview up to date. Where the
    /// preview was empty and stays so, only the cursor is moved; where it
    /// is emptied, the screen is redrawn; where it is to be read, the
    /// screen is redrawn once the listing has come back.
    pub fn move_cursor(&mut self, delta: isize) -> (reaction: Reaction)
        requires
            old(self).wf(),
        ensures
            final(self).wf(),
            (final(self)@, reaction@) == old(self)@.move_cursor(delta as int),
    {
        let had_preview = self.nav.ring().right().contents().is_some();
        match self.nav.move_cursor(delta) {
            Some(location) => read(location),
            None => {
                let mut ops: Vec<DrawOp> = if had_preview {
                    self.render()
                } else {
                    Vec::new()
                };
                let ghost before = ops@;
                ops.push(DrawOp::MoveToRow(self.cursor_row()));
                proof {
                    lemma_ops_model_push(before, ops@.last());
                    let reposition = seq![DrawOpModel::MoveToRow(self@.cursor_row())];
                    if had_preview {
                        assert(ops_model(ops@) =~= self@.render() + reposition);
                    } else {
                        assert(ops_model(before) =~= Seq::empty());
                    }
                }
                draw(ops)
            },
        }
    }

    /// Enters the directory that the selected entry of the center pane
    /// names: the directory is to be read, and the panes rotate once its
    /// listing has come back. Where the center pane has no selected entry,
    /// or the entry is neither a directory nor a symbolic link, nothing
    /// happens.
    pub fn descend(&mut self) -> (reaction: Reaction)
        requires
            old(self).wf(),
        ensures
            final(self).wf(),
            (final(self)@, reaction@) == old(self)@.descend(),
            !old(self)@.nav.can_descend() ==> final(self)@ == old(self)@,
    {
        match self.nav.descend() {
            Some(location) => read(location),
            None => nothing(),
        }
    }

    /// Goes to the parent directory: the left pane becomes the center
    /// pane. Where the left pane shows nothing, as at the root, nothing
    /// happens.
    pub fn ascend(&mut self) -> (reaction: Reaction)
        requires
            old(self).wf(),
        ensures
            final(self).wf(),
            (final(self)@, reaction@) == old(self)@.ascend(),
            !old(self)@.nav.can_ascend() ==> final(self)@ == old(self)@,
    {
        if self.nav.ascend() {
            self.settle()
        } else {
            nothing()
        }
    }

    /// Takes the listing of the directory that the last reaction asked to
    /// be read, or the error of the read. The pane it was for shows the
    /// directory, or nothing after an error; then the next directory is
    /// asked for, or the screen is redrawn. An error for the directory to
    /// start in ends the program. A listing that was not asked for is
    /// ignored.
    pub fn directory_loaded(&mut self, listing: Listing) -> (reaction: Reaction)
        requires
            old(self).wf(),
        ensures
            final(self).wf(),
            (final(self)@, reaction@) == old(self)@.directory_loaded(listing_model(listing)),
    {
        if self.nav.is_idle() {
            return nothing();
        }
        let failure = match &listing {
            Ok(_) => None,
            Err(error) => Some(*error),
        };
        let opening = self.nav.is_opening();
        self.nav.loaded(listing);
        match failure {
            Some(error) => {
                if opening {
                    exit(ExitStatus::StartupFailure(error))
                } else {
                    self.settle()
                }
            },
            None => self.settle(),
        }
    }
}

/// The reaction that draws nothing and waits.
fn nothing() -> (reaction: Reaction)
    ensures
        reaction@ == ReactionModel::nothing(),
{
    let reaction = Reaction { ops: Vec::new(), next: Next::Wait };
    assert(ops_model(reaction.ops@) =~= Seq::empty());
    reaction
}

/// The reaction that draws and waits.
fn draw(ops: Vec<DrawOp>) -> (reaction: Reaction)
    ensures
        reaction@ == ReactionModel::draw(ops_model(ops@)),
{
    Reaction { ops, next: Next::Wait }
}

/// The reaction that asks for a directory to be read.
fn read(location: DirectoryPath) -> (reaction: Reaction)
    ensures
        reaction@ == ReactionModel::read(location@),
{
    let reaction = Reaction { ops: Vec::new(), next: Next::Read(location) };
    assert(ops_model(reaction.ops@) =~= Seq::empty());
    reaction
}

/// The reaction that ends the program.
fn exit(status: ExitStatus) -> (reaction: Reaction)
    ensures
        reaction@ == ReactionModel::exit(status),
{
    let reaction = Reaction { ops: Vec::new(), next: Next::Exit(status) };
    assert(ops_model(reaction.ops@) =~= Seq::empty());
    reaction
}

} // verus!
