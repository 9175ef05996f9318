//! The torrent screen: one entry's id, fixed at construction, with its
//! last-fetched snapshot and loading/error flags.

use vstd::prelude::*;

use crate::components::subtitle::{Subtitle, SubtitleItem};
use crate::{Action, Context, Event, Key, Torrent};

verus! {

/// The key legend of the torrent screen.
pub fn torrent_view_subtitle() -> (r: Subtitle<3>)
    ensures
        r.items@[0].trigger@ == "ESC"@ && r.items@[0].label@ == "Quit"@,
        r.items@[1].trigger@ == "Backspace"@ && r.items@[1].label@ == "Back"@,
        r.items@[2].trigger@ == "r"@ && r.items@[2].label@ == "Reload"@,
{
    Subtitle::new(
        [
            SubtitleItem::new("ESC", "Quit"),
            SubtitleItem::new("Backspace", "Back"),
            SubtitleItem::new("r", "Reload"),
        ],
    )
}

/// State of the single-torrent screen.
#[derive(Debug)]
pub struct TorrentView {
    pub id: i64,
    pub item: Option<Torrent>,
    pub loading: bool,
    pub error: Option<String>,
}

impl TorrentView {
    /// A freshly constructed torrent screen for `id`: no snapshot yet,
    /// idle, no error.
    pub open spec fn fresh_for(self, id: i64) -> bool {
        &&& self.id == id
        &&& self.item is None
        &&& self.loading == false
        &&& self.error is None
    }

    /// How one incoming event transforms the state. The id never changes.
    pub open spec fn step_rel(pre: TorrentView, event: Event, post: TorrentView) -> bool {
        match event {
            Event::ItemUpdateStart => {
                &&& post.id == pre.id
                &&& post.item == pre.item
                &&& post.loading == true
                &&& post.error is None
            },
            Event::ItemUpdate(item) => {
                &&& post.id == pre.id
                &&& post.item == Some(item)
                &&& post.loading == false
                &&& post.error is None
            },
            Event::ItemUpdateError(_, err) => {
                &&& post.id == pre.id
                &&& post.item == pre.item
                &&& post.loading == false
                &&& post.error == Some(err)
            },
            _ => post == pre,
        }
    }

    /// The actions one incoming event enqueues: only the reload key asks
    /// the worker for anything.
    pub open spec fn step_actions(pre: TorrentView, event: Event) -> Seq<Action> {
        match event {
            Event::InputEvent(key) => if key == Key::Char('r') {
                seq![Action::RefreshItem(pre.id)]
            } else {
                seq![]
            },
            _ => seq![],
        }
    }

    /// The events one incoming event emits: only the back key navigates.
    pub open spec fn step_events(pre: TorrentView, event: Event) -> Seq<Event> {
        match event {
            Event::InputEvent(key) => if key == Key::Backspace {
                seq![Event::NavigateToList]
            } else {
                seq![]
            },
            _ => seq![],
        }
    }

    pub fn new(torrent_id: i64) -> (r: Self)
        ensures
            r.fresh_for(torrent_id),
    {
        TorrentView { id: torrent_id, item: None, loading: false, error: None }
    }

    /// A fresh torrent screen asks the worker for its entry right away.
    pub fn init(&mut self, ctx: &mut Context)
        ensures
            *final(self) == *old(self),
            final(ctx).actions@ == old(ctx).actions@.push(Action::RefreshItem(old(self).id)),
            final(ctx).events@ == old(ctx).events@,
    {
        let id = self.id;
        ctx.send_action(Action::RefreshItem(id));
    }

    /// React to one incoming event, exactly as `step_rel`, `step_actions`
    /// and `step_events` describe: reload on `r`, back on Backspace, and
    /// store whatever the worker reports about the entry.
    pub fn update(&mut self, event: Event, ctx: &mut Context)
        ensures
            TorrentView::step_rel(*old(self), event, *final(self)),
            final(ctx).actions@ == old(ctx).actions@ + TorrentView::step_actions(*old(self), event),
            final(ctx).events@ == old(ctx).events@ + TorrentView::step_events(*old(self), event),
    {
        let ghost pre = *old(self);
        let ghost a0 = old(ctx).actions@;
        let ghost e0 = old(ctx).events@;
        match event {
            Event::InputEvent(key) => {
                match key {
                    Key::Char(c) => {
                        if c == 'r' {
                            let id = self.id;
                            ctx.send_action(Action::RefreshItem(id));
                        }
                    },
                    Key::Backspace => {
                        ctx.send_event(Event::NavigateToList);
                    },
                    _ => {},
                }
            },
            Event::ItemUpdateStart => {
                self.error = None;
                self.loading = true;
            },
            Event::ItemUpdate(item) => {
                self.error = None;
                self.item = Some(item);
                self.loading = false;
            },
            Event::ItemUpdateError(_, err) => {
                self.error = Some(err);
                self.loading = false;
            },
            _ => {},
        }
        proof {
            assert(ctx.actions@ =~= a0 + TorrentView::step_actions(pre, event));
            assert(ctx.events@ =~= e0 + TorrentView::step_events(pre, event));
        }
    }
}

} // verus!
