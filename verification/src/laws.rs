//! Laws of the browser. Each is stated over the models that the contracts
//! of the library speak of, and holds of every state and every input named.

use vstd::prelude::*;
use crate::entry::EntryKind;
use crate::input::{InputModel, Mode};
use crate::keys::{Key, KeyCode};
use crate::navigation::{FilesystemModel, NavModel};
use crate::ring::{left_of, right_of};
use crate::session::{ReactionModel, SessionModel};
use crate::snapshot::{ListingModel, SnapshotModel};

verus! {

/// Each of the three slots plays one role: the slots that play left, center
/// and right are three different slots. Rotating forward and then backward,
/// or backward and then forward, gives the center role back to the slot
/// that had it, and three rotations one way do the same.
pub proof fn lemma_each_slot_plays_one_role(center: int)
    requires
        0 <= center < 3,
    ensures
        0 <= left_of(center) < 3,
        0 <= right_of(center) < 3,
        left_of(center) != center,
        right_of(center) != center,
        left_of(center) != right_of(center),
        left_of(right_of(center)) == center,
        right_of(left_of(center)) == center,
        right_of(right_of(right_of(center))) == center,
        left_of(left_of(left_of(center))) == center,
{
}

/// A snapshot after a sequence of moves of its selection.
pub open spec fn moved_by(snapshot: SnapshotModel, deltas: Seq<int>) -> SnapshotModel
    decreases deltas.len(),
{
    if deltas.len() == 0 {
        snapshot
    } else {
        moved_by(snapshot, deltas.drop_last()).move_selection(deltas.last())
    }
}

/// Whatever moves are made, the selection stays on an entry of the
/// listing, and the listing stays as it was loaded.
pub proof fn lemma_selection_stays_in_bounds(snapshot: SnapshotModel, deltas: Seq<int>)
    requires
        snapshot.wf(),
    ensures
        moved_by(snapshot, deltas).wf(),
        moved_by(snapshot, deltas).entries == snapshot.entries,
        moved_by(snapshot, deltas).location == snapshot.location,
        snapshot.entries.len() > 0 ==> 0 <= moved_by(snapshot, deltas).selection
            < snapshot.entries.len(),
    decreases deltas.len(),
{
    if deltas.len() > 0 {
        lemma_selection_stays_in_bounds(snapshot, deltas.drop_last());
    }
}

/// A move up from the first entry, a move down from the last entry, and
/// any move in an empty directory change nothing.
pub proof fn lemma_move_at_edge_changes_nothing(snapshot: SnapshotModel, delta: int)
    requires
        snapshot.wf(),
    ensures
        snapshot.selection == 0 && delta <= 0 ==> snapshot.move_selection(delta) == snapshot,
        snapshot.selection == snapshot.entries.len() - 1 && delta >= 0 ==> snapshot.move_selection(
            delta,
        ) == snapshot,
        snapshot.entries.len() == 0 ==> snapshot.move_selection(delta) == snapshot,
{
}

/// An event that a session takes: a key press, or the listing that it
/// asked for.
pub enum EventModel {
    Key(Key),
    Listing(ListingModel),
}

/// The session after one event.
pub open spec fn step(session: SessionModel, event: EventModel) -> SessionModel {
    match event {
        EventModel::Key(key) => session.handle_keypress(key).0,
        EventModel::Listing(listing) => session.directory_loaded(listing).0,
    }
}

/// The session after a sequence of events.
pub open spec fn run(session: SessionModel, events: Seq<EventModel>) -> SessionModel
    decreases events.len(),
{
    if events.len() == 0 {
        session
    } else {
        step(run(session, events.drop_last()), events.last())
    }
}

/// Whatever keys are pressed and whatever the reads give, the session
/// stays well formed: the ring has one pane in each role, every listing
/// shown is sorted, and every selection is on an entry of its listing.
pub proof fn lemma_run_keeps_wf(session: SessionModel, events: Seq<EventModel>)
    requires
        session.wf(),
    ensures
        run(session, events).wf(),
        run(session, events).nav.ring.center().contents matches Some(current) ==> (
        current.entries.len() > 0 ==> 0 <= current.selection < current.entries.len()),
    decreases events.len(),
{
    if events.len() > 0 {
        let before = run(session, events.drop_last());
        lemma_run_keeps_wf(session, events.drop_last());
        match events.last() {
            EventModel::Key(key) => {
                before.lemma_steps_keep_wf(key, Seq::empty(), Ok(Seq::empty()));
            },
            EventModel::Listing(listing) => {
                before.lemma_steps_keep_wf(Key::pressed(KeyCode::Other), Seq::empty(), listing);
            },
        }
    }
}

/// In browse mode, `k` on the first entry and `j` on the last entry leave
/// the center pane as it is.
pub proof fn lemma_key_at_edge_keeps_center(session: SessionModel, key: Key)
    requires
        session.wf(),
        session.input.mode == Mode::Browse,
        session.nav.ring.center().contents matches Some(current) && ({
            ||| key.modifiers.is_none() && key.code == KeyCode::Char('k') && current.selection == 0
            ||| key.modifiers.is_none() && key.code == KeyCode::Char('j') && current.selection
                == current.entries.len() - 1
        }),
    ensures
        session.handle_keypress(key).0.nav.ring.center() == session.nav.ring.center(),
        session.handle_keypress(key).0.input == session.input,
{
}

/// Descending and then ascending at once shows the directory in the center
/// pane that was there before, with the selection where it was, whatever
/// the reads in between give. This holds wherever the descent goes down, or
/// the ascent does not go up either.
pub proof fn lemma_descend_then_ascend_restores_center(
    nav: NavModel,
    below: FilesystemModel,
    above: FilesystemModel,
)
    requires
        nav.wf(),
        nav.idle(),
        nav.can_descend() || !nav.can_ascend(),
    ensures
        nav.descend().settled(below).idle(),
        nav.descend().settled(below).ascend().settled(above).idle(),
        nav.descend().settled(below).ascend().settled(above).ring.center().contents
            == nav.ring.center().contents,
        nav.ring.center().contents matches Some(current) ==> nav.descend().settled(
            below,
        ).ascend().settled(above).ring.center().contents->0.location == current.location,
{
    if nav.can_descend() {
        nav.lemma_descent_settles(below);
        nav.descend().settled(below).lemma_ascent_settles(above);
    }
}

/// A request to ascend that comes before the listing of the directory
/// being entered has come back changes nothing: the center pane still shows
/// the directory that it showed before the descent.
pub proof fn lemma_ascend_during_descent_changes_nothing(nav: NavModel)
    requires
        nav.can_descend(),
    ensures
        nav.descend().ascend() == nav.descend(),
        nav.descend().ring == nav.ring,
{
}

/// Ascending from the filesystem root changes nothing.
pub proof fn lemma_ascend_at_root_changes_nothing(nav: NavModel)
    requires
        nav.wf(),
        nav.ring.center().contents matches Some(current) && current.location.len() == 0,
    ensures
        !nav.can_ascend(),
        nav.ascend() == nav,
{
}

/// In browse mode, `h` at the filesystem root changes nothing and draws
/// nothing.
pub proof fn lemma_h_at_root_changes_nothing(session: SessionModel)
    requires
        session.wf(),
        session.nav.idle(),
        session.input.mode == Mode::Browse,
        session.nav.ring.center().contents matches Some(current) && current.location.len() == 0,
    ensures
        session.handle_keypress(Key::typed('h')) == (session, ReactionModel::nothing()),
{
}

/// Descending while the selected entry is a regular file, or any entry
/// that is neither a directory nor a symbolic link, changes nothing.
pub proof fn lemma_descend_on_file_changes_nothing(nav: NavModel)
    requires
        nav.ring.center().selected() matches Some(entry) && !entry.kind.traversable(),
    ensures
        !nav.can_descend(),
        nav.descend() == nav,
{
}

/// In browse mode, `l` on a regular file changes nothing and draws nothing.
pub proof fn lemma_l_on_file_changes_nothing(session: SessionModel)
    requires
        session.nav.idle(),
        session.input.mode == Mode::Browse,
        session.nav.ring.center().selected() matches Some(entry) && entry.kind
            == EntryKind::Regular,
    ensures
        session.handle_keypress(Key::typed('l')) == (session, ReactionModel::nothing()),
{
}

/// The keys that type `text`, one for each character.
pub open spec fn typing(text: Seq<char>) -> Seq<EventModel> {
    Seq::new(text.len(), |i: int| EventModel::Key(Key::typed(text[i])))
}

/// Entering command mode with `:`, typing any characters, and pressing
/// escape gives the session as it was before: browse mode, an empty command
/// line, the same panes and the same selection. The escape puts the cursor
/// back on the selected entry.
pub proof fn lemma_command_round_trip(session: SessionModel, text: Seq<char>)
    requires
        session.wf(),
        session.nav.idle(),
        session.input.mode == Mode::Browse,
    ensures
        run(
            session,
            seq![EventModel::Key(Key::typed(':'))] + typing(text) + seq![
                EventModel::Key(Key::pressed(KeyCode::Esc)),
            ],
        ) == session,
        session.input == InputModel::browsing(),
        run(session, seq![EventModel::Key(Key::typed(':'))] + typing(text)).handle_keypress(
            Key::pressed(KeyCode::Esc),
        ).1 == ReactionModel::draw(session.dismiss()),
{
    let colon = seq![EventModel::Key(Key::typed(':'))];
    let escape = EventModel::Key(Key::pressed(KeyCode::Esc));
    lemma_typing(session, text);
    let keys = colon + typing(text);
    assert((keys + seq![escape]).drop_last() =~= keys);
    assert(session.input.buffer =~= Seq::empty());
}

/// After `:` and the keys that type `text`, the session is in command mode
/// with `text` on the command line, and is otherwise as it was.
proof fn lemma_typing(session: SessionModel, text: Seq<char>)
    requires
        session.nav.idle(),
        session.input.mode == Mode::Browse,
    ensures
        run(session, seq![EventModel::Key(Key::typed(':'))] + typing(text)) == session.with_input(
            InputModel { mode: Mode::Command, buffer: text },
        ),
    decreases text.len(),
{
    let colon = seq![EventModel::Key(Key::typed(':'))];
    if text.len() == 0 {
        assert(run(session, colon.drop_last()) == session);
        assert(text =~= Seq::empty());
    } else {
        let front = text.drop_last();
        lemma_typing(session, front);
        let keys = colon + typing(text);
        assert(keys.drop_last() =~= colon + typing(front));
        assert(front.push(text.last()) =~= text);
    }
}

} // verus!
