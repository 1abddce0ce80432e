use tripane::draw::{CursorStyle, DrawOp};
use tripane::entry::{Entry, EntryKind};
use tripane::input::Mode;
use tripane::keys::{Key, KeyCode};
use tripane::navigation::NavigationEngine;
use tripane::pane::Pane;
use tripane::path::DirectoryPath;
use tripane::ring::PaneRing;
use tripane::session::{ExitStatus, Next, Reaction, Session};
use tripane::snapshot::LoadError;

fn file(name: &str) -> Entry {
    Entry::new(name.to_string(), EntryKind::Regular)
}

fn folder(name: &str) -> Entry {
    Entry::new(name.to_string(), EntryKind::Directory)
}

fn link(name: &str) -> Entry {
    Entry::new(name.to_string(), EntryKind::Symlink)
}

fn at(parts: &[&str]) -> DirectoryPath {
    DirectoryPath::from_components(parts.iter().map(|part| part.to_string()).collect())
}

fn text(line: &str) -> DrawOp {
    DrawOp::Line(line.to_string())
}

fn typed(line: &str) -> DrawOp {
    DrawOp::Text(line.chars().collect())
}

/// A small tree, read in no particular order:
///
/// /tmp/a/b/d/        (empty)
/// /tmp/a/b/e.txt
/// /tmp/a/c.txt
/// /tmp/a/locked/     (access denied)
/// /tmp/a/s -> c.txt  (a link to a file)
/// /tmp/a/t -> b      (a link to a directory)
fn read(location: &DirectoryPath) -> Result<Vec<Entry>, LoadError> {
    let parts: Vec<&str> = location.components.iter().map(|part| part.as_str()).collect();
    match parts.as_slice() {
        [] => Ok(vec![folder("tmp")]),
        ["tmp"] => Ok(vec![folder("a")]),
        ["tmp", "a"] => {
            Ok(vec![link("t"), file("c.txt"), folder("locked"), link("s"), folder("b")])
        }
        ["tmp", "a", "b"] | ["tmp", "a", "t"] => Ok(vec![file("e.txt"), folder("d")]),
        ["tmp", "a", "b", "d"] | ["tmp", "a", "t", "d"] => Ok(Vec::new()),
        ["tmp", "a", "locked"] => Err(LoadError::AccessDenied),
        ["tmp", "a", "s"] => Err(LoadError::NotADirectory),
        _ => Err(LoadError::NotFound),
    }
}

/// Answers every read that the session asks for, as a front end does, and
/// returns the drawing operations in order, the directories read, and how
/// the step ended.
fn drive(session: &mut Session, first: Reaction) -> (Vec<DrawOp>, Vec<DirectoryPath>, Next) {
    let mut ops = Vec::new();
    let mut reads = Vec::new();
    let mut reaction = first;
    loop {
        ops.extend(reaction.ops);
        match reaction.next {
            Next::Read(location) => {
                let listing = read(&location);
                reads.push(location);
                reaction = session.directory_loaded(listing);
            }
            next => return (ops, reads, next),
        }
    }
}

fn press(session: &mut Session, key: Key) -> (Vec<DrawOp>, Vec<DirectoryPath>, Next) {
    let reaction = session.handle_keypress(key);
    drive(session, reaction)
}

fn type_line(session: &mut Session, line: &str) {
    for c in line.chars() {
        let (_, reads, next) = press(session, Key::char(c));
        assert!(reads.is_empty());
        assert_eq!(next, Next::Wait);
    }
}

fn started(parts: &[&str]) -> Session {
    let mut session = Session::new(90, 30);
    let reaction = session.init(at(parts));
    let (_, _, next) = drive(&mut session, reaction);
    assert_eq!(next, Next::Wait);
    session
}

fn ring(session: &Session) -> &PaneRing {
    session.navigation().ring()
}

fn engine(session: &Session) -> &NavigationEngine {
    session.navigation()
}

fn shows(pane: &Pane) -> Option<DirectoryPath> {
    pane.contents().map(|snapshot| snapshot.location().clone())
}

fn lists(pane: &Pane) -> Option<Vec<String>> {
    pane.contents().map(|snapshot| snapshot.entries().iter().map(|e| e.line()).collect())
}

fn selection(session: &Session) -> usize {
    ring(session).cursor_index()
}

fn listing(names: &[&str]) -> Option<Vec<String>> {
    Some(names.iter().map(|name| name.to_string()).collect())
}

/// The drawing operations of a full redraw at /tmp/a with the given row
/// selected and the given preview lines.
fn redraw_at_home(row: u16, preview: &[&str]) -> Vec<DrawOp> {
    let mut ops = vec![
        DrawOp::ClearAll,
        DrawOp::MoveTo { column: 0, row: 0 },
        DrawOp::MoveToColumn(0),
        text("a/"),
        DrawOp::MoveTo { column: 0, row: 0 },
        DrawOp::MoveTo { column: 30, row: 0 },
    ];
    for line in ["b/", "c.txt", "locked/", "s@", "t@"] {
        ops.push(DrawOp::MoveToColumn(30));
        ops.push(text(line));
    }
    ops.push(DrawOp::MoveTo { column: 30, row: 0 });
    ops.push(DrawOp::MoveTo { column: 60, row: 0 });
    for line in preview {
        ops.push(DrawOp::MoveToColumn(60));
        ops.push(text(line));
    }
    ops.push(DrawOp::MoveTo { column: 60, row: 0 });
    ops.push(DrawOp::MoveTo { column: 30, row });
    ops
}

#[test]
fn exit_codes() {
    assert_eq!(ExitStatus::Quit.code(), 0);
    assert_eq!(ExitStatus::Interrupt.code(), 1);
    for error in [LoadError::NotADirectory, LoadError::AccessDenied, LoadError::NotFound] {
        assert_eq!(ExitStatus::StartupFailure(error).code(), 1);
    }
}

#[test]
fn exit_messages() {
    assert_eq!(ExitStatus::Quit.message(), "");
    assert_eq!(ExitStatus::Interrupt.message(), "SIGINT");
    assert_eq!(
        ExitStatus::StartupFailure(LoadError::NotADirectory).message(),
        "cannot start: not a directory"
    );
    assert_eq!(
        ExitStatus::StartupFailure(LoadError::AccessDenied).message(),
        "cannot start: access denied"
    );
    assert_eq!(
        ExitStatus::StartupFailure(LoadError::NotFound).message(),
        "cannot start: no such directory"
    );
}

#[test]
fn new_session_is_idle_and_empty() {
    let session = Session::new(90, 30);
    assert_eq!((session.width(), session.height()), (90, 30));
    assert_eq!(session.input().mode(), Mode::Browse);
    assert!(session.input().command_buffer().is_empty());
    assert!(engine(&session).is_idle());
    assert!(!engine(&session).is_opening());
    assert_eq!(engine(&session).awaited(), None);
    assert_eq!(ring(&session).stride(), 30);
    assert_eq!(ring(&session).center_slot(), 1);
    for slot in 0..3 {
        assert!(ring(&session).pane(slot).unwrap().contents().is_none());
    }
    assert_eq!(session.cursor_row(), 0);
}

#[test]
fn init_reads_the_directory_its_parent_and_the_preview() {
    let mut session = Session::new(90, 30);
    let reaction = session.init(at(&["tmp", "a"]));
    assert_eq!(reaction, Reaction { ops: Vec::new(), next: Next::Read(at(&["tmp", "a"])) });
    assert!(engine(&session).is_opening());
    assert_eq!(engine(&session).awaited(), Some(at(&["tmp", "a"])));

    let reaction = session.directory_loaded(read(&at(&["tmp", "a"])));
    assert_eq!(reaction, Reaction { ops: Vec::new(), next: Next::Read(at(&["tmp"])) });
    assert_eq!(shows(ring(&session).center()), Some(at(&["tmp", "a"])));

    let reaction = session.directory_loaded(read(&at(&["tmp"])));
    assert_eq!(reaction, Reaction { ops: Vec::new(), next: Next::Read(at(&["tmp", "a", "b"])) });
    assert_eq!(shows(ring(&session).left()), Some(at(&["tmp"])));

    let reaction = session.directory_loaded(read(&at(&["tmp", "a", "b"])));
    assert_eq!(reaction.next, Next::Wait);
    assert_eq!(reaction.ops, redraw_at_home(0, &["d/", "e.txt"]));
    assert!(engine(&session).is_idle());
    assert_eq!(shows(ring(&session).right()), Some(at(&["tmp", "a", "b"])));
    assert_eq!(lists(ring(&session).center()), listing(&["b/", "c.txt", "locked/", "s@", "t@"]));
    assert_eq!(selection(&session), 0);
}

#[test]
fn init_at_the_root_has_no_parent_to_read() {
    let mut session = Session::new(90, 30);
    let reaction = session.init(DirectoryPath::root());
    let (ops, reads, next) = drive(&mut session, reaction);
    assert_eq!(reads, vec![DirectoryPath::root(), at(&["tmp"])]);
    assert_eq!(next, Next::Wait);
    assert_eq!(shows(ring(&session).center()), Some(DirectoryPath::root()));
    assert!(ring(&session).left().contents().is_none());
    assert_eq!(shows(ring(&session).right()), Some(at(&["tmp"])));
    assert_eq!(
        ops,
        vec![
            DrawOp::ClearAll,
            DrawOp::MoveTo { column: 0, row: 0 },
            DrawOp::MoveTo { column: 0, row: 0 },
            DrawOp::MoveTo { column: 30, row: 0 },
            DrawOp::MoveToColumn(30),
            text("tmp/"),
            DrawOp::MoveTo { column: 30, row: 0 },
            DrawOp::MoveTo { column: 60, row: 0 },
            DrawOp::MoveToColumn(60),
            text("a/"),
            DrawOp::MoveTo { column: 60, row: 0 },
            DrawOp::MoveTo { column: 30, row: 0 },
        ]
    );
}

#[test]
fn init_in_an_empty_directory() {
    let mut session = Session::new(90, 30);
    let reaction = session.init(at(&["tmp", "a", "b", "d"]));
    let (_, reads, next) = drive(&mut session, reaction);
    assert_eq!(reads, vec![at(&["tmp", "a", "b", "d"]), at(&["tmp", "a", "b"])]);
    assert_eq!(next, Next::Wait);
    assert_eq!(lists(ring(&session).center()), listing(&[]));
    assert!(ring(&session).right().contents().is_none());
    assert_eq!(selection(&session), 0);
}

#[test]
fn init_fails_when_the_directory_cannot_be_read() {
    for (parts, error) in [
        (vec!["nowhere"], LoadError::NotFound),
        (vec!["tmp", "a", "locked"], LoadError::AccessDenied),
        (vec!["tmp", "a", "s"], LoadError::NotADirectory),
    ] {
        let mut session = Session::new(90, 30);
        let reaction = session.init(at(&parts));
        let (ops, reads, next) = drive(&mut session, reaction);
        assert!(ops.is_empty());
        assert_eq!(reads, vec![at(&parts)]);
        assert_eq!(next, Next::Exit(ExitStatus::StartupFailure(error)));
        assert!(ring(&session).center().contents().is_none());
    }
}

#[test]
fn init_with_an_unreadable_parent_leaves_the_left_pane_empty() {
    let mut session = Session::new(90, 30);
    session.init(at(&["tmp", "a"]));
    session.directory_loaded(read(&at(&["tmp", "a"])));
    let reaction = session.directory_loaded(Err(LoadError::AccessDenied));
    assert_eq!(reaction.next, Next::Read(at(&["tmp", "a", "b"])));
    assert!(ring(&session).left().contents().is_none());
    assert_eq!(shows(ring(&session).center()), Some(at(&["tmp", "a"])));
}

#[test]
fn a_listing_that_was_not_asked_for_is_ignored() {
    let mut session = started(&["tmp", "a"]);
    let reaction = session.directory_loaded(Ok(vec![folder("ghost")]));
    assert_eq!(reaction, Reaction { ops: Vec::new(), next: Next::Wait });
    assert_eq!(lists(ring(&session).center()), listing(&["b/", "c.txt", "locked/", "s@", "t@"]));
    assert_eq!(lists(ring(&session).right()), listing(&["d/", "e.txt"]));
    assert_eq!(lists(ring(&session).left()), listing(&["a/"]));
}

#[test]
fn scenario_moving_over_a_file_empties_the_preview() {
    let mut session = started(&["tmp", "a"]);
    assert_eq!(shows(ring(&session).center()), Some(at(&["tmp", "a"])));
    assert_eq!(selection(&session), 0);
    assert_eq!(ring(&session).center().selected_entry(), Some(&folder("b")));
    assert_eq!(lists(ring(&session).right()), listing(&["d/", "e.txt"]));

    let (ops, reads, next) = press(&mut session, Key::char('j'));
    assert_eq!(selection(&session), 1);
    assert_eq!(ring(&session).center().selected_entry(), Some(&file("c.txt")));
    assert!(ring(&session).right().contents().is_none());
    assert!(reads.is_empty());
    assert_eq!(next, Next::Wait);
    let mut expected = redraw_at_home(1, &[]);
    expected.push(DrawOp::MoveToRow(1));
    assert_eq!(ops, expected);

    let (ops, reads, next) = press(&mut session, Key::char('k'));
    assert_eq!(selection(&session), 0);
    assert_eq!(shows(ring(&session).right()), Some(at(&["tmp", "a", "b"])));
    assert_eq!(lists(ring(&session).right()), listing(&["d/", "e.txt"]));
    assert_eq!(reads, vec![at(&["tmp", "a", "b"])]);
    assert_eq!(next, Next::Wait);
    assert_eq!(ops, redraw_at_home(0, &["d/", "e.txt"]));
}

#[test]
fn scenario_descend_and_ascend() {
    let mut session = started(&["tmp", "a"]);
    let (ops, reads, next) = press(&mut session, Key::char('l'));
    assert_eq!(next, Next::Wait);
    assert_eq!(reads, vec![at(&["tmp", "a", "b"]), at(&["tmp", "a", "b", "d"])]);
    assert_eq!(shows(ring(&session).center()), Some(at(&["tmp", "a", "b"])));
    assert_eq!(shows(ring(&session).left()), Some(at(&["tmp", "a"])));
    assert_eq!(shows(ring(&session).right()), Some(at(&["tmp", "a", "b", "d"])));
    assert_eq!(lists(ring(&session).right()), listing(&[]));
    assert_eq!(ring(&session).center_slot(), 2);
    assert_eq!(
        ops,
        vec![
            DrawOp::ClearAll,
            // The first slot now plays right and previews the empty /tmp/a/b/d.
            DrawOp::MoveTo { column: 60, row: 0 },
            DrawOp::MoveTo { column: 60, row: 0 },
            // The second slot now plays left and still shows /tmp/a.
            DrawOp::MoveTo { column: 0, row: 0 },
            DrawOp::MoveToColumn(0),
            text("b/"),
            DrawOp::MoveToColumn(0),
            text("c.txt"),
            DrawOp::MoveToColumn(0),
            text("locked/"),
            DrawOp::MoveToColumn(0),
            text("s@"),
            DrawOp::MoveToColumn(0),
            text("t@"),
            DrawOp::MoveTo { column: 0, row: 0 },
            // The third slot now plays center and shows /tmp/a/b.
            DrawOp::MoveTo { column: 30, row: 0 },
            DrawOp::MoveToColumn(30),
            text("d/"),
            DrawOp::MoveToColumn(30),
            text("e.txt"),
            DrawOp::MoveTo { column: 30, row: 0 },
            DrawOp::MoveTo { column: 30, row: 0 },
        ]
    );

    let (_, reads, next) = press(&mut session, Key::char('h'));
    assert_eq!(next, Next::Wait);
    assert_eq!(reads, vec![at(&["tmp"]), at(&["tmp", "a", "b"])]);
    assert_eq!(shows(ring(&session).center()), Some(at(&["tmp", "a"])));
    assert_eq!(shows(ring(&session).left()), Some(at(&["tmp"])));
    assert_eq!(shows(ring(&session).right()), Some(at(&["tmp", "a", "b"])));
    assert_eq!(ring(&session).center_slot(), 1);
}

#[test]
fn scenario_quit_command() {
    let mut session = started(&["tmp", "a"]);
    let (ops, _, next) = press(&mut session, Key::char(':'));
    assert_eq!(next, Next::Wait);
    assert_eq!(
        ops,
        vec![
            DrawOp::MoveTo { column: 0, row: 29 },
            DrawOp::ClearLine,
            DrawOp::SetCursorStyle(CursorStyle::BlinkingBlock),
            typed(":"),
        ]
    );
    for c in "quit".chars() {
        let (ops, reads, next) = press(&mut session, Key::char(c));
        assert_eq!(ops, vec![typed(&c.to_string())]);
        assert!(reads.is_empty());
        assert_eq!(next, Next::Wait);
    }
    let (ops, reads, next) = press(&mut session, Key::plain(KeyCode::Enter));
    assert!(ops.is_empty());
    assert!(reads.is_empty());
    assert_eq!(next, Next::Exit(ExitStatus::Quit));
    assert_eq!(ExitStatus::Quit.code(), 0);
    assert_eq!(session.input().mode(), Mode::Browse);
    assert!(session.input().command_buffer().is_empty());
}

#[test]
fn short_quit_command() {
    let mut session = started(&["tmp", "a"]);
    press(&mut session, Key::char(':'));
    type_line(&mut session, "q");
    let (_, _, next) = press(&mut session, Key::plain(KeyCode::Enter));
    assert_eq!(next, Next::Exit(ExitStatus::Quit));
}

#[test]
fn q_quits_from_browse_mode() {
    let mut session = started(&["tmp", "a"]);
    let reaction = session.handle_keypress(Key::char('q'));
    assert_eq!(reaction, Reaction { ops: Vec::new(), next: Next::Exit(ExitStatus::Quit) });
}

#[test]
fn control_c_interrupts_in_both_modes() {
    let mut session = started(&["tmp", "a"]);
    let reaction = session.handle_keypress(Key::ctrl('c'));
    assert_eq!(reaction, Reaction { ops: Vec::new(), next: Next::Exit(ExitStatus::Interrupt) });
    press(&mut session, Key::char(':'));
    type_line(&mut session, "qu");
    let reaction = session.handle_keypress(Key::ctrl('c'));
    assert_eq!(reaction, Reaction { ops: Vec::new(), next: Next::Exit(ExitStatus::Interrupt) });
    assert_ne!(ExitStatus::Interrupt.code(), 0);
}

#[test]
fn unrecognized_commands_are_ignored() {
    for line in ["find", "", "quit now", "Q"] {
        let mut session = started(&["tmp", "a"]);
        press(&mut session, Key::char('j'));
        press(&mut session, Key::char(':'));
        type_line(&mut session, line);
        let (ops, reads, next) = press(&mut session, Key::plain(KeyCode::Enter));
        assert_eq!(next, Next::Wait);
        assert!(reads.is_empty());
        assert_eq!(
            ops,
            vec![
                DrawOp::ClearLine,
                DrawOp::MoveTo { column: 30, row: 1 },
                DrawOp::SetCursorStyle(CursorStyle::SteadyBlock),
            ]
        );
        assert_eq!(session.input().mode(), Mode::Browse);
        assert!(session.input().command_buffer().is_empty());
        assert_eq!(selection(&session), 1);
    }
}

#[test]
fn command_mode_round_trip_keeps_the_selection() {
    let mut session = started(&["tmp", "a"]);
    press(&mut session, Key::char('j'));
    press(&mut session, Key::char('j'));
    assert_eq!(selection(&session), 2);
    press(&mut session, Key::char(':'));
    assert_eq!(session.input().mode(), Mode::Command);
    type_line(&mut session, "jjkhlq");
    assert_eq!(session.input().command_buffer(), &"jjkhlq".chars().collect::<Vec<char>>());
    assert_eq!(selection(&session), 2);
    let (ops, reads, next) = press(&mut session, Key::plain(KeyCode::Esc));
    assert_eq!(next, Next::Wait);
    assert!(reads.is_empty());
    assert_eq!(
        ops,
        vec![
            DrawOp::ClearLine,
            DrawOp::MoveTo { column: 30, row: 2 },
            DrawOp::SetCursorStyle(CursorStyle::SteadyBlock),
        ]
    );
    assert_eq!(session.input().mode(), Mode::Browse);
    assert!(session.input().command_buffer().is_empty());
    assert_eq!(selection(&session), 2);
    assert_eq!(shows(ring(&session).center()), Some(at(&["tmp", "a"])));
    assert_eq!(ring(&session).center_slot(), 1);
}

#[test]
fn backspace_rewrites_the_command_line() {
    let mut session = started(&["tmp", "a"]);
    press(&mut session, Key::char(':'));
    type_line(&mut session, "qx");
    let (ops, _, next) = press(&mut session, Key::plain(KeyCode::Backspace));
    assert_eq!(next, Next::Wait);
    assert_eq!(ops, vec![DrawOp::ClearLine, typed("\r:q")]);
    let (ops, _, _) = press(&mut session, Key::plain(KeyCode::Backspace));
    assert_eq!(ops, vec![DrawOp::ClearLine, typed("\r:")]);
    let (ops, _, next) = press(&mut session, Key::plain(KeyCode::Backspace));
    assert!(ops.is_empty());
    assert_eq!(next, Next::Wait);
    assert_eq!(session.input().mode(), Mode::Command);
}

#[test]
fn prompt_on_a_screen_without_rows() {
    let session = Session::new(90, 0);
    assert_eq!(session.command()[0], DrawOp::MoveTo { column: 0, row: 0 });
    let session = Session::new(90, 1);
    assert_eq!(session.command()[0], DrawOp::MoveTo { column: 0, row: 0 });
    let session = Session::new(90, u16::MAX);
    assert_eq!(session.command()[0], DrawOp::MoveTo { column: 0, row: u16::MAX - 1 });
}

#[test]
fn browse_puts_a_steady_cursor_on_the_selection() {
    let mut session = started(&["tmp", "a"]);
    press(&mut session, Key::char('j'));
    press(&mut session, Key::char('j'));
    press(&mut session, Key::char('j'));
    assert_eq!(session.cursor_row(), 3);
    assert_eq!(
        session.browse(),
        vec![
            DrawOp::MoveTo { column: 30, row: 3 },
            DrawOp::SetCursorStyle(CursorStyle::SteadyBlock),
        ]
    );
    let empty = Session::new(91, 30);
    assert_eq!(
        empty.browse(),
        vec![
            DrawOp::MoveTo { column: 30, row: 0 },
            DrawOp::SetCursorStyle(CursorStyle::SteadyBlock),
        ]
    );
}

#[test]
fn render_of_an_empty_session_only_moves_the_cursor() {
    let session = Session::new(9, 3);
    assert_eq!(
        session.render(),
        vec![
            DrawOp::ClearAll,
            DrawOp::MoveTo { column: 0, row: 0 },
            DrawOp::MoveTo { column: 0, row: 0 },
            DrawOp::MoveTo { column: 3, row: 0 },
            DrawOp::MoveTo { column: 3, row: 0 },
            DrawOp::MoveTo { column: 6, row: 0 },
            DrawOp::MoveTo { column: 6, row: 0 },
        ]
    );
}

#[test]
fn cursor_row_stops_at_the_last_row_there_is() {
    let mut session = Session::new(90, 30);
    session.init(DirectoryPath::root());
    let many: Vec<Entry> = (0..70_000).map(|i| file(&format!("{:05}", i))).collect();
    let reaction = session.directory_loaded(Ok(many));
    assert_eq!(reaction.next, Next::Wait);
    assert_eq!(session.move_cursor(65_534).ops, vec![DrawOp::MoveToRow(65_534)]);
    assert_eq!(session.move_cursor(1).ops, vec![DrawOp::MoveToRow(65_535)]);
    assert_eq!(session.move_cursor(1).ops, vec![DrawOp::MoveToRow(65_535)]);
    assert_eq!(selection(&session), 65_536);
    assert_eq!(session.cursor_row(), u16::MAX);
    assert_eq!(session.move_cursor(isize::MAX).ops, vec![DrawOp::MoveToRow(65_535)]);
    assert_eq!(selection(&session), 69_999);
}

#[test]
fn moves_stay_inside_the_listing() {
    let mut session = started(&["tmp", "a"]);
    for expected in [1, 2, 3, 4, 4, 4] {
        press(&mut session, Key::char('j'));
        assert_eq!(selection(&session), expected);
    }
    for expected in [3, 2, 1, 0, 0, 0] {
        press(&mut session, Key::char('k'));
        assert_eq!(selection(&session), expected);
    }
    assert_eq!(lists(ring(&session).center()), listing(&["b/", "c.txt", "locked/", "s@", "t@"]));
}

#[test]
fn k_on_the_first_entry_keeps_the_center_pane() {
    let mut session = started(&["tmp", "a"]);
    let (_, reads, next) = press(&mut session, Key::char('k'));
    assert_eq!(next, Next::Wait);
    assert_eq!(reads, vec![at(&["tmp", "a", "b"])]);
    assert_eq!(selection(&session), 0);
    assert_eq!(shows(ring(&session).center()), Some(at(&["tmp", "a"])));
    assert_eq!(lists(ring(&session).right()), listing(&["d/", "e.txt"]));
}

#[test]
fn j_on_the_last_entry_keeps_the_center_pane() {
    let mut session = started(&["tmp", "a"]);
    let reaction = session.move_cursor(4);
    drive(&mut session, reaction);
    let (_, reads, next) = press(&mut session, Key::char('j'));
    assert_eq!(next, Next::Wait);
    assert_eq!(reads, vec![at(&["tmp", "a", "t"])]);
    assert_eq!(selection(&session), 4);
    assert_eq!(ring(&session).center().selected_entry(), Some(&link("t")));
}

#[test]
fn moving_between_files_only_moves_the_cursor() {
    let mut session = Session::new(90, 30);
    let reaction = session.init(at(&["files"]));
    assert_eq!(reaction.next, Next::Read(at(&["files"])));
    let reaction = session.directory_loaded(Ok(vec![file("b"), file("a"), file("c")]));
    assert_eq!(reaction.next, Next::Read(DirectoryPath::root()));
    let reaction = session.directory_loaded(read(&DirectoryPath::root()));
    assert_eq!(reaction.next, Next::Wait);
    assert!(ring(&session).right().contents().is_none());

    let reaction = session.handle_keypress(Key::char('j'));
    assert_eq!(reaction, Reaction { ops: vec![DrawOp::MoveToRow(1)], next: Next::Wait });
    let reaction = session.handle_keypress(Key::char('j'));
    assert_eq!(reaction, Reaction { ops: vec![DrawOp::MoveToRow(2)], next: Next::Wait });
    let reaction = session.handle_keypress(Key::char('j'));
    assert_eq!(reaction, Reaction { ops: vec![DrawOp::MoveToRow(2)], next: Next::Wait });
    let reaction = session.handle_keypress(Key::char('k'));
    assert_eq!(reaction, Reaction { ops: vec![DrawOp::MoveToRow(1)], next: Next::Wait });
}

#[test]
fn keys_in_a_session_that_shows_nothing() {
    let mut session = Session::new(90, 30);
    for key in ['j', 'k'] {
        let reaction = session.handle_keypress(Key::char(key));
        assert_eq!(reaction, Reaction { ops: vec![DrawOp::MoveToRow(0)], next: Next::Wait });
    }
    for key in ['h', 'l', 'x'] {
        let reaction = session.handle_keypress(Key::char(key));
        assert_eq!(reaction, Reaction { ops: Vec::new(), next: Next::Wait });
    }
    assert!(engine(&session).is_idle());
}

#[test]
fn preview_of_an_unreadable_directory_is_empty() {
    let mut session = started(&["tmp", "a"]);
    press(&mut session, Key::char('j'));
    let (ops, reads, next) = press(&mut session, Key::char('j'));
    assert_eq!(ring(&session).center().selected_entry(), Some(&folder("locked")));
    assert_eq!(reads, vec![at(&["tmp", "a", "locked"])]);
    assert_eq!(next, Next::Wait);
    assert!(ring(&session).right().contents().is_none());
    assert_eq!(ops, redraw_at_home(2, &[]));
}

#[test]
fn preview_of_a_link_to_a_file_is_empty() {
    let mut session = started(&["tmp", "a"]);
    let reaction = session.move_cursor(3);
    let (_, reads, next) = drive(&mut session, reaction);
    assert_eq!(ring(&session).center().selected_entry(), Some(&link("s")));
    assert_eq!(reads, vec![at(&["tmp", "a", "s"])]);
    assert_eq!(next, Next::Wait);
    assert!(ring(&session).right().contents().is_none());
}

#[test]
fn preview_of_a_link_to_a_directory_shows_it() {
    let mut session = started(&["tmp", "a"]);
    for _ in 0..4 {
        press(&mut session, Key::char('j'));
    }
    assert_eq!(ring(&session).center().selected_entry(), Some(&link("t")));
    assert_eq!(shows(ring(&session).right()), Some(at(&["tmp", "a", "t"])));
    assert_eq!(lists(ring(&session).right()), listing(&["d/", "e.txt"]));
}

#[test]
fn descending_on_a_file_changes_nothing() {
    let mut session = started(&["tmp", "a"]);
    press(&mut session, Key::char('j'));
    assert_eq!(ring(&session).center().selected_entry(), Some(&file("c.txt")));
    let reaction = session.handle_keypress(Key::char('l'));
    assert_eq!(reaction, Reaction { ops: Vec::new(), next: Next::Wait });
    assert!(engine(&session).is_idle());
    assert_eq!(ring(&session).center_slot(), 1);
    assert_eq!(shows(ring(&session).center()), Some(at(&["tmp", "a"])));
    assert_eq!(shows(ring(&session).left()), Some(at(&["tmp"])));
    assert!(ring(&session).right().contents().is_none());
    assert_eq!(selection(&session), 1);
    assert_eq!(session.descend(), Reaction { ops: Vec::new(), next: Next::Wait });
}

#[test]
fn descending_in_an_empty_directory_changes_nothing() {
    let mut session = started(&["tmp", "a", "b", "d"]);
    let reaction = session.handle_keypress(Key::char('l'));
    assert_eq!(reaction, Reaction { ops: Vec::new(), next: Next::Wait });
    assert_eq!(shows(ring(&session).center()), Some(at(&["tmp", "a", "b", "d"])));
    assert_eq!(ring(&session).center_slot(), 1);
}

#[test]
fn descending_into_an_unreadable_directory_shows_an_empty_center() {
    let mut session = started(&["tmp", "a"]);
    press(&mut session, Key::char('j'));
    press(&mut session, Key::char('j'));
    let (_, reads, next) = press(&mut session, Key::char('l'));
    assert_eq!(reads, vec![at(&["tmp", "a", "locked"])]);
    assert_eq!(next, Next::Wait);
    assert!(ring(&session).center().contents().is_none());
    assert_eq!(shows(ring(&session).left()), Some(at(&["tmp", "a"])));
    assert!(ring(&session).right().contents().is_none());

    let (_, reads, next) = press(&mut session, Key::char('h'));
    assert_eq!(next, Next::Wait);
    assert_eq!(reads, vec![at(&["tmp"]), at(&["tmp", "a", "locked"])]);
    assert_eq!(shows(ring(&session).center()), Some(at(&["tmp", "a"])));
    assert_eq!(selection(&session), 2);
}

#[test]
fn descend_then_ascend_restores_the_center() {
    for moves in 0..5 {
        let mut session = started(&["tmp", "a"]);
        for _ in 0..moves {
            press(&mut session, Key::char('j'));
        }
        let traversable =
            ring(&session).center().selected_entry().unwrap().kind.is_traversable();
        let (_, _, next) = press(&mut session, Key::char('l'));
        assert_eq!(next, Next::Wait);
        if traversable {
            assert_ne!(shows(ring(&session).center()), Some(at(&["tmp", "a"])));
            let (_, _, next) = press(&mut session, Key::char('h'));
            assert_eq!(next, Next::Wait);
        }
        assert_eq!(shows(ring(&session).center()), Some(at(&["tmp", "a"])));
        assert_eq!(selection(&session), moves);
        assert_eq!(shows(ring(&session).left()), Some(at(&["tmp"])));
    }
}

#[test]
fn ascending_goes_up_to_the_root_and_stops() {
    let mut session = started(&["tmp", "a"]);
    let (_, reads, _) = press(&mut session, Key::char('h'));
    assert_eq!(reads, vec![DirectoryPath::root(), at(&["tmp", "a"])]);
    assert_eq!(shows(ring(&session).center()), Some(at(&["tmp"])));
    assert_eq!(shows(ring(&session).left()), Some(DirectoryPath::root()));
    assert_eq!(shows(ring(&session).right()), Some(at(&["tmp", "a"])));
    assert_eq!(ring(&session).center_slot(), 0);

    let (_, reads, _) = press(&mut session, Key::char('h'));
    assert_eq!(reads, vec![at(&["tmp"])]);
    assert_eq!(shows(ring(&session).center()), Some(DirectoryPath::root()));
    assert!(ring(&session).left().contents().is_none());
    assert_eq!(shows(ring(&session).right()), Some(at(&["tmp"])));
    assert_eq!(ring(&session).center_slot(), 2);

    let reaction = session.handle_keypress(Key::char('h'));
    assert_eq!(reaction, Reaction { ops: Vec::new(), next: Next::Wait });
    assert_eq!(shows(ring(&session).center()), Some(DirectoryPath::root()));
    assert!(ring(&session).left().contents().is_none());
    assert_eq!(shows(ring(&session).right()), Some(at(&["tmp"])));
    assert_eq!(ring(&session).center_slot(), 2);
    assert_eq!(session.ascend(), Reaction { ops: Vec::new(), next: Next::Wait });
}

#[test]
fn ascending_with_an_unreadable_grandparent_empties_the_left_pane() {
    let mut session = started(&["tmp", "a"]);
    let reaction = session.handle_keypress(Key::char('h'));
    assert_eq!(reaction.next, Next::Read(DirectoryPath::root()));
    let reaction = session.directory_loaded(Err(LoadError::AccessDenied));
    assert_eq!(reaction.next, Next::Read(at(&["tmp", "a"])));
    assert_eq!(shows(ring(&session).center()), Some(at(&["tmp"])));
    assert!(ring(&session).left().contents().is_none());
    let reaction = session.directory_loaded(Err(LoadError::NotFound));
    assert_eq!(reaction.next, Next::Wait);
    assert!(ring(&session).right().contents().is_none());
}

#[test]
fn keys_wait_while_a_listing_is_awaited() {
    let mut session = started(&["tmp", "a"]);
    let reaction = session.handle_keypress(Key::char('l'));
    assert_eq!(reaction.next, Next::Read(at(&["tmp", "a", "b"])));
    for key in [Key::char('j'), Key::char('h'), Key::char(':'), Key::char('q')] {
        let reaction = session.handle_keypress(key);
        assert_eq!(
            reaction,
            Reaction { ops: Vec::new(), next: Next::Read(at(&["tmp", "a", "b"])) }
        );
        assert_eq!(session.input().mode(), Mode::Browse);
        assert_eq!(selection(&session), 0);
    }
    let reaction = session.handle_keypress(Key::ctrl('c'));
    assert_eq!(reaction.next, Next::Exit(ExitStatus::Interrupt));
    let (_, reads, next) = drive(&mut session, Reaction {
        ops: Vec::new(),
        next: Next::Read(at(&["tmp", "a", "b"])),
    });
    assert_eq!(next, Next::Wait);
    assert_eq!(reads, vec![at(&["tmp", "a", "b"]), at(&["tmp", "a", "b", "d"])]);
    assert_eq!(shows(ring(&session).center()), Some(at(&["tmp", "a", "b"])));
}

#[test]
fn engine_steps_one_read_at_a_time() {
    let mut engine = NavigationEngine::new(90, 30);
    assert_eq!(engine.open(at(&["tmp", "a"])), at(&["tmp", "a"]));
    assert!(engine.is_opening());
    assert_eq!(engine.descend(), None);
    assert!(!engine.ascend());
    assert_eq!(engine.move_cursor(1), Some(at(&["tmp", "a"])));
    assert_eq!(engine.refresh_preview(), Some(at(&["tmp", "a"])));
    engine.loaded(read(&at(&["tmp", "a"])));
    assert_eq!(engine.awaited(), Some(at(&["tmp"])));
    engine.loaded(read(&at(&["tmp"])));
    assert_eq!(engine.awaited(), Some(at(&["tmp", "a", "b"])));
    engine.loaded(read(&at(&["tmp", "a", "b"])));
    assert!(engine.is_idle());
    assert_eq!(engine.awaited(), None);

    assert_eq!(engine.move_cursor(1), None);
    assert_eq!(engine.ring().cursor_index(), 1);
    assert_eq!(engine.refresh_preview(), None);
    assert_eq!(engine.descend(), None);
    assert_eq!(engine.move_cursor(-1), Some(at(&["tmp", "a", "b"])));
    engine.loaded(Err(LoadError::AccessDenied));
    assert!(engine.is_idle());
    assert!(engine.ring().right().contents().is_none());

    assert_eq!(engine.refresh_preview(), Some(at(&["tmp", "a", "b"])));
    engine.loaded(read(&at(&["tmp", "a", "b"])));
    assert_eq!(shows(engine.ring().right()), Some(at(&["tmp", "a", "b"])));

    assert_eq!(engine.descend(), Some(at(&["tmp", "a", "b"])));
    assert_eq!(engine.ring().center_slot(), 1);
    engine.loaded(read(&at(&["tmp", "a", "b"])));
    assert_eq!(engine.ring().center_slot(), 2);
    assert_eq!(engine.awaited(), Some(at(&["tmp", "a", "b", "d"])));
    engine.loaded(read(&at(&["tmp", "a", "b", "d"])));
    assert!(engine.is_idle());

    assert!(engine.ascend());
    assert_eq!(engine.awaited(), Some(at(&["tmp"])));
    assert_eq!(engine.ring().center_slot(), 2);
    engine.loaded(read(&at(&["tmp"])));
    assert_eq!(engine.ring().center_slot(), 1);
    assert_eq!(engine.awaited(), Some(at(&["tmp", "a", "b"])));
    engine.loaded(read(&at(&["tmp", "a", "b"])));
    assert!(engine.is_idle());
    assert_eq!(shows(engine.ring().center()), Some(at(&["tmp", "a"])));
}
