//! The list screen: a snapshot of the collection, a selection cursor,
//! loading/error flags, and an optional pending-delete confirmation.

use vstd::prelude::*;

use crate::components::list::ListItem;
use crate::components::subtitle::{Subtitle, SubtitleItem};
use crate::{Action, Context, Event, Key, Torrent};

verus! {

/// The key legend of the list screen.
pub fn list_view_subtitle() -> (r: Subtitle<4>)
    ensures
        r.items@[0].trigger@ == "ESC"@ && r.items@[0].label@ == "Quit"@,
        r.items@[1].trigger@ == "r"@ && r.items@[1].label@ == "Reload"@,
        r.items@[2].trigger@ == "Enter"@ && r.items@[2].label@ == "Open"@,
        r.items@[3].trigger@ == "d"@ && r.items@[3].label@ == "Delete"@,
{
    Subtitle::new(
        [
            SubtitleItem::new("ESC", "Quit"),
            SubtitleItem::new("r", "Reload"),
            SubtitleItem::new("Enter", "Open"),
            SubtitleItem::new("d", "Delete"),
        ],
    )
}

/// Every torrent row takes four lines: name, status, progress, and sizes.
impl ListItem for Torrent {
    fn height(&self) -> u16 {
        4
    }
}

/// State of the list screen. The fields mirror exactly what the screen
/// owns: the collection snapshot, the cursor, the loading and error flags,
/// and the id awaiting delete confirmation, if any.
#[derive(Debug)]
pub struct ListView {
    pub items: Vec<Torrent>,
    pub selected: Option<usize>,
    pub loading: bool,
    pub error: Option<String>,
    pub pending_delete_id: Option<i64>,
}

/// Where the cursor lands after one Up or Down press on a list of `len`
/// entries, always clamped to the list. Any other key leaves it alone.
/// Moving from no selection, Up picks the first entry and Down the second:
/// the first is implicitly treated as already selected for Down's purpose.
pub open spec fn moved_selection(len: int, sel: Option<usize>, key: Key) -> Option<usize> {
    match key {
        Key::Up => if len == 0 {
            None
        } else {
            match sel {
                Some(i) => Some((if i > 0 { i - 1 } else { 0 }) as usize),
                None => Some(0usize),
            }
        },
        Key::Down => if len == 0 {
            None
        } else {
            match sel {
                Some(i) => Some((if i + 1 < len { i + 1 } else { len - 1 }) as usize),
                None => Some((if 1 < len { 1 } else { len - 1 }) as usize),
            }
        },
        _ => sel,
    }
}

/// The cursor after a whole sequence of key presses.
pub open spec fn selection_after(len: int, sel: Option<usize>, keys: Seq<Key>) -> Option<usize>
    decreases keys.len(),
{
    if keys.len() == 0 {
        sel
    } else {
        selection_after(len, moved_selection(len, sel, keys.first()), keys.drop_first())
    }
}

/// `s` with every snapshot whose id is `id` removed, order preserved.
pub open spec fn without_id(s: Seq<Torrent>, id: i64) -> Seq<Torrent>
    decreases s.len(),
{
    if s.len() == 0 {
        Seq::empty()
    } else {
        let rest = without_id(s.drop_last(), id);
        if s.last().id == id {
            rest
        } else {
            rest.push(s.last())
        }
    }
}

/// The id the delete confirmation would capture: the id of the entry under
/// the cursor, if the cursor points inside the list.
pub open spec fn selected_id(pre: ListView) -> Option<i64> {
    match pre.selected {
        Some(i) => if i < pre.items@.len() {
            Some(pre.items@[i as int].id)
        } else {
            None
        },
        None => None,
    }
}

/// The navigation event Enter produces: open the entry under the cursor,
/// if the cursor points inside the list.
pub open spec fn enter_events(pre: ListView) -> Seq<Event> {
    match pre.selected {
        Some(i) => if i < pre.items@.len() {
            seq![Event::NavigateToItem(pre.items@[i as int].id)]
        } else {
            seq![]
        },
        None => seq![],
    }
}

impl ListView {
    /// A freshly constructed list screen: empty, idle, nothing pending.
    pub open spec fn fresh(self) -> bool {
        &&& self.items@ == Seq::<Torrent>::empty()
        &&& self.selected is None
        &&& self.loading == false
        &&& self.error is None
        &&& self.pending_delete_id is None
    }

    /// How one key press transforms the state. While a delete confirmation
    /// is pending only its cancel/confirm keys act; otherwise the movement,
    /// open, reload and delete keys do.
    pub open spec fn key_state_rel(pre: ListView, key: Key, post: ListView) -> bool {
        if pre.pending_delete_id is Some {
            match key {
                Key::Char(c) => if c == 'c' || c == 'y' || c == 'n' {
                    &&& post.items@ == pre.items@
                    &&& post.selected == pre.selected
                    &&& post.loading == pre.loading
                    &&& post.error == pre.error
                    &&& post.pending_delete_id is None
                } else {
                    post == pre
                },
                _ => post == pre,
            }
        } else {
            match key {
                Key::Up | Key::Down => {
                    &&& post.items@ == pre.items@
                    &&& post.selected == moved_selection(pre.items@.len() as int, pre.selected, key)
                    &&& post.loading == pre.loading
                    &&& post.error == pre.error
                    &&& post.pending_delete_id == pre.pending_delete_id
                },
                Key::Char(c) => if c == 'd' {
                    &&& post.items@ == pre.items@
                    &&& post.selected == pre.selected
                    &&& post.loading == pre.loading
                    &&& post.error == pre.error
                    &&& post.pending_delete_id == selected_id(pre)
                } else {
                    post == pre
                },
                _ => post == pre,
            }
        }
    }

    /// The actions one key press enqueues for the worker.
    pub open spec fn key_actions(pre: ListView, key: Key) -> Seq<Action> {
        match pre.pending_delete_id {
            Some(id) => match key {
                Key::Char(c) => if c == 'y' {
                    seq![Action::DeleteItem(id, true)]
                } else if c == 'n' {
                    seq![Action::DeleteItem(id, false)]
                } else {
                    seq![]
                },
                _ => seq![],
            },
            None => match key {
                Key::Char(c) => if c == 'r' {
                    seq![Action::RefreshList]
                } else {
                    seq![]
                },
                _ => seq![],
            },
        }
    }

    /// The events one key press emits back to the router.
    pub open spec fn key_events(pre: ListView, key: Key) -> Seq<Event> {
        if pre.pending_delete_id is None && key == Key::Enter {
            enter_events(pre)
        } else {
            seq![]
        }
    }

    /// How one incoming event transforms the state.
    pub open spec fn step_rel(pre: ListView, event: Event, post: ListView) -> bool {
        match event {
            Event::InputEvent(key) => Self::key_state_rel(pre, key, post),
            Event::ListUpdateStart | Event::DeleteStart(_) => {
                &&& post.items@ == pre.items@
                &&& post.selected == pre.selected
                &&& post.loading == true
                &&& post.error is None
                &&& post.pending_delete_id == pre.pending_delete_id
            },
            Event::ListUpdate(new_items) => {
                &&& post.items@ == new_items@
                &&& post.selected == (if new_items@.len() == pre.items@.len() {
                    pre.selected
                } else {
                    None::<usize>
                })
                &&& post.loading == false
                &&& post.error == pre.error
                &&& post.pending_delete_id == pre.pending_delete_id
            },
            Event::ListUpdateError(err) => {
                &&& post.items@ == pre.items@
                &&& post.selected == pre.selected
                &&& post.loading == false
                &&& post.error == Some(err)
                &&& post.pending_delete_id == pre.pending_delete_id
            },
            Event::DeleteDone(id) => {
                &&& post.items@ == without_id(pre.items@, id)
                &&& post.selected is None
                &&& post.loading == false
                &&& post.error is None
                &&& post.pending_delete_id is None
            },
            Event::DeleteError(_, err) => {
                &&& post.items@ == pre.items@
                &&& post.selected == pre.selected
                &&& post.loading == true
                &&& post.error == Some(err)
                &&& post.pending_delete_id == pre.pending_delete_id
            },
            _ => post == pre,
        }
    }

    /// The actions one incoming event enqueues: reconciliation refreshes
    /// after either delete outcome, plus whatever a key press asks for.
    pub open spec fn step_actions(pre: ListView, event: Event) -> Seq<Action> {
        match event {
            Event::InputEvent(key) => Self::key_actions(pre, key),
            Event::DeleteDone(_) => seq![Action::RefreshList],
            Event::DeleteError(_, _) => seq![Action::RefreshList],
            _ => seq![],
        }
    }

    /// The events one incoming event emits back to the router.
    pub open spec fn step_events(pre: ListView, event: Event) -> Seq<Event> {
        match event {
            Event::InputEvent(key) => Self::key_events(pre, key),
            _ => seq![],
        }
    }
}

impl Default for ListView {
    fn default() -> (r: Self)
        ensures
            r.fresh(),
    {
        ListView {
            items: Vec::new(),
            selected: None,
            loading: false,
            error: None,
            pending_delete_id: None,
        }
    }
}

impl ListView {
    /// Move the cursor one entry up, clamped at the first entry; from no
    /// selection it picks the first entry; an empty list clears it.
    fn handle_press_up(&mut self)
        ensures
            final(self).selected == moved_selection(
                old(self).items@.len() as int,
                old(self).selected,
                Key::Up,
            ),
            final(self).items@ == old(self).items@,
            final(self).loading == old(self).loading,
            final(self).error == old(self).error,
            final(self).pending_delete_id == old(self).pending_delete_id,
    {
        if self.items.len() == 0 {
            self.selected = None;
        } else {
            match self.selected {
                Some(current) => {
                    if current > 0 {
                        self.selected = Some(current - 1);
                    }
                },
                None => {
                    self.selected = Some(0);
                },
            }
        }
    }

    /// Move the cursor one entry down, clamped at the last entry; from no
    /// selection it picks the second entry (the first counts as already
    /// selected), or the only entry of a one-entry list; an empty list
    /// clears it.
    fn handle_press_down(&mut self)
        ensures
            final(self).selected == moved_selection(
                old(self).items@.len() as int,
                old(self).selected,
                Key::Down,
            ),
            final(self).items@ == old(self).items@,
            final(self).loading == old(self).loading,
            final(self).error == old(self).error,
            final(self).pending_delete_id == old(self).pending_delete_id,
    {
        if self.items.len() == 0 {
            self.selected = None;
        } else {
            match self.selected {
                Some(current) => {
                    let last = self.items.len() - 1;
                    self.selected = Some(if current < last {
                        current + 1
                    } else {
                        last
                    });
                },
                None => {
                    self.selected = Some(if self.items.len() > 1 {
                        1
                    } else {
                        0
                    });
                },
            }
        }
    }

    /// Emit a navigation event for the entry under the cursor, if any.
    fn handle_press_enter(&self, ctx: &mut Context)
        ensures
            final(ctx).actions@ == old(ctx).actions@,
            final(ctx).events@ == old(ctx).events@ + enter_events(*self),
    {
        if let Some(index) = self.selected {
            if index < self.items.len() {
                let id = self.items[index].id;
                ctx.send_event(Event::NavigateToItem(id));
            }
        }
        proof {
            assert(ctx.events@ =~= old(ctx).events@ + enter_events(*self));
        }
    }

    /// The row the rendering layer marks as selected: the cursor, or the
    /// first row when nothing is selected yet.
    pub fn get_selected(&self) -> (r: Option<usize>)
        ensures
            r == Some(match self.selected {
                Some(i) => i,
                None => 0usize,
            }),
    {
        Some(match self.selected {
            Some(i) => i,
            None => 0,
        })
    }

    /// A fresh list screen asks the worker for the collection right away.
    pub fn init(&mut self, ctx: &mut Context)
        ensures
            *final(self) == *old(self),
            final(ctx).actions@ == old(ctx).actions@.push(Action::RefreshList),
            final(ctx).events@ == old(ctx).events@,
    {
        ctx.send_action(Action::RefreshList);
    }

    /// Dispatch one key press, as `key_state_rel`, `key_actions` and
    /// `key_events` describe.
    fn handle_key(&mut self, key: Key, ctx: &mut Context)
        ensures
            ListView::key_state_rel(*old(self), key, *final(self)),
            final(ctx).actions@ == old(ctx).actions@ + ListView::key_actions(*old(self), key),
            final(ctx).events@ == old(ctx).events@ + ListView::key_events(*old(self), key),
    {
        let ghost a0 = old(ctx).actions@;
        let ghost e0 = old(ctx).events@;
        match self.pending_delete_id {
            Some(id) => {
                match key {
                    Key::Char(c) => {
                        if c == 'c' {
                            self.pending_delete_id = None;
                        } else if c == 'y' {
                            self.pending_delete_id = None;
                            ctx.send_action(Action::DeleteItem(id, true));
                        } else if c == 'n' {
                            self.pending_delete_id = None;
                            ctx.send_action(Action::DeleteItem(id, false));
                        }
                    },
                    _ => {},
                }
            },
            None => {
                match key {
                    Key::Up => self.handle_press_up(),
                    Key::Down => self.handle_press_down(),
                    Key::Enter => self.handle_press_enter(ctx),
                    Key::Char(c) => {
                        if c == 'r' {
                            ctx.send_action(Action::RefreshList);
                        } else if c == 'd' {
                            if let Some(index) = self.selected {
                                if index < self.items.len() {
                                    self.pending_delete_id = Some(self.items[index].id);
                                }
                            }
                        }
                    },
                    _ => {},
                }
            },
        }
        proof {
            assert(ctx.actions@ =~= a0 + ListView::key_actions(*old(self), key));
            assert(ctx.events@ =~= e0 + ListView::key_events(*old(self), key));
        }
    }

    /// React to one incoming event, exactly as `step_rel`, `step_actions`
    /// and `step_events` describe. In particular: a new list snapshot whose
    /// length changed resets the cursor, and a finished delete removes the
    /// entry locally and enqueues one reconciling refresh.
    pub fn update(&mut self, event: Event, ctx: &mut Context)
        ensures
            ListView::step_rel(*old(self), event, *final(self)),
            final(ctx).actions@ == old(ctx).actions@ + ListView::step_actions(*old(self), event),
            final(ctx).events@ == old(ctx).events@ + ListView::step_events(*old(self), event),
    {
        let ghost pre = *old(self);
        let ghost a0 = old(ctx).actions@;
        let ghost e0 = old(ctx).events@;
        match event {
            Event::InputEvent(key) => {
                self.handle_key(key, ctx);
            },
            Event::ListUpdateStart | Event::DeleteStart(_) => {
                self.error = None;
                self.loading = true;
            },
            Event::ListUpdate(new_items) => {
                let same_size = self.items.len() == new_items.len();
                self.items = new_items;
                self.loading = false;
                if !same_size {
                    self.selected = None;
                }
            },
            Event::ListUpdateError(err) => {
                self.loading = false;
                self.error = Some(err);
            },
            Event::DeleteDone(id) => {
                self.error = None;
                let ghost orig = self.items@;
                let mut kept: Vec<Torrent> = Vec::new();
                let mut i: usize = 0;
                while i < self.items.len()
                    invariant
                        i <= self.items@.len(),
                        self.items@ == orig,
                        kept@ == without_id(orig.take(i as int), id),
                    decreases self.items@.len() - i,
                {
                    proof {
                        assert(orig.take(i as int + 1).drop_last() =~= orig.take(i as int));
                        assert(orig.take(i as int + 1).last() == orig[i as int]);
                    }
                    if self.items[i].id != id {
                        let t = self.items[i].clone();
                        kept.push(t);
                    }
                    i += 1;
                }
                proof {
                    assert(orig.take(orig.len() as int) =~= orig);
                }
                self.items = kept;
                self.loading = false;
                self.selected = None;
                self.pending_delete_id = None;
                ctx.send_action(Action::RefreshList);
            },
            Event::DeleteError(_, err) => {
                self.error = Some(err);
                self.loading = true;
                ctx.send_action(Action::RefreshList);
            },
            _ => {},
        }
        proof {
            assert(ctx.actions@ =~= a0 + ListView::step_actions(pre, event));
            assert(ctx.events@ =~= e0 + ListView::step_events(pre, event));
        }
    }
}

/// Nothing with the removed id survives `without_id`.
proof fn lemma_without_id_absent(s: Seq<Torrent>, id: i64)
    ensures
        forall|k: int|
            0 <= k < without_id(s, id).len() ==> (#[trigger] without_id(s, id)[k]).id != id,
    decreases s.len(),
{
    if s.len() > 0 {
        lemma_without_id_absent(s.drop_last(), id);
    }
}

/// A list snapshot whose length differs from the current one resets the
/// cursor: stale selections never survive a size change.
pub proof fn lemma_list_update_resets_selection(
    pre: ListView,
    post: ListView,
    new_items: Vec<Torrent>,
)
    requires
        ListView::step_rel(pre, Event::ListUpdate(new_items), post),
        new_items@.len() != pre.items@.len(),
    ensures
        post.selected is None,
{
}

/// After a completed delete is processed, no entry with the deleted id
/// remains, the confirmation sub-state is clear, and exactly one
/// reconciling list refresh is enqueued.
pub proof fn lemma_delete_done_purges(pre: ListView, post: ListView, id: i64)
    requires
        ListView::step_rel(pre, Event::DeleteDone(id), post),
    ensures
        forall|k: int| 0 <= k < post.items@.len() ==> (#[trigger] post.items@[k]).id != id,
        post.pending_delete_id is None,
        ListView::step_actions(pre, Event::DeleteDone(id)) =~= seq![Action::RefreshList],
{
    lemma_without_id_absent(pre.items@, id);
}

/// The screen's data invariant: no event that changes the collection's
/// length leaves a cursor standing, so a surviving cursor always points
/// into the same-sized collection it pointed into before.
pub proof fn lemma_size_change_resets_selection(pre: ListView, post: ListView, event: Event)
    requires
        ListView::step_rel(pre, event, post),
        post.items@.len() != pre.items@.len(),
    ensures
        post.selected is None,
{
}

/// Selection clamp: on a list of any length, any sequence of key presses
/// leaves the cursor absent or inside the list.
pub proof fn lemma_selection_clamp(len: int, sel: Option<usize>, keys: Seq<Key>)
    requires
        0 <= len <= usize::MAX,
        sel matches Some(i) ==> i < len,
    ensures
        selection_after(len, sel, keys) matches Some(i) ==> i < len,
    decreases keys.len(),
{
    if keys.len() > 0 {
        let moved = moved_selection(len, sel, keys.first());
        assert(moved matches Some(i) ==> i < len);
        lemma_selection_clamp(len, moved, keys.drop_first());
    }
}

} // verus!
