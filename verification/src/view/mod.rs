//! The view router: a finite state machine over the two screens, holding
//! exactly one active screen's state and rebuilding it on navigation.

use vstd::prelude::*;

use crate::{Action, Context, Event};

pub mod list;
pub mod loading;
pub mod torrent;

use list::ListView;
use torrent::TorrentView;

verus! {

/// The active screen. Replaced wholesale on navigation, never mutated in
/// place across a transition; there is no history stack.
#[derive(Debug)]
pub enum Route {
    List(ListView),
    Torrent(TorrentView),
}

impl Default for Route {
    fn default() -> (r: Self)
        ensures
            r matches Route::List(l) && l.fresh(),
    {
        Route::List(ListView::default())
    }
}

/// The view layer: owns the route and forwards every non-navigation event
/// to the active screen.
#[derive(Debug)]
pub struct Router {
    pub inner: Route,
}

impl Default for Router {
    fn default() -> (r: Self)
        ensures
            r.inner matches Route::List(l) && l.fresh(),
    {
        Router { inner: Route::default() }
    }
}

/// The action a screen's `init` enqueues: the list screen asks for the
/// collection, the torrent screen for its one entry.
pub open spec fn init_actions(route: Route) -> Seq<Action> {
    match route {
        Route::List(_) => seq![Action::RefreshList],
        Route::Torrent(t) => seq![Action::RefreshItem(t.id)],
    }
}

/// How one event moves the router: a navigation event replaces the route
/// with a fresh screen; anything else steps the active screen in place.
pub open spec fn router_rel(pre: Router, event: Event, post: Router) -> bool {
    match event {
        Event::NavigateToList => post.inner matches Route::List(l) && l.fresh(),
        Event::NavigateToItem(id) => post.inner matches Route::Torrent(t) && t.fresh_for(id),
        _ => match (pre.inner, post.inner) {
            (Route::List(l0), Route::List(l1)) => ListView::step_rel(l0, event, l1),
            (Route::Torrent(t0), Route::Torrent(t1)) => TorrentView::step_rel(t0, event, t1),
            _ => false,
        },
    }
}

/// The actions one routed event enqueues: the fresh screen's own `init`
/// action on navigation, the active screen's actions otherwise.
pub open spec fn router_actions(pre: Route, event: Event) -> Seq<Action> {
    match event {
        Event::NavigateToList => seq![Action::RefreshList],
        Event::NavigateToItem(id) => seq![Action::RefreshItem(id)],
        _ => match pre {
            Route::List(l) => ListView::step_actions(l, event),
            Route::Torrent(t) => TorrentView::step_actions(t, event),
        },
    }
}

/// The events one routed event emits back onto the queue.
pub open spec fn router_events(pre: Route, event: Event) -> Seq<Event> {
    match event {
        Event::NavigateToList => seq![],
        Event::NavigateToItem(_) => seq![],
        _ => match pre {
            Route::List(l) => ListView::step_events(l, event),
            Route::Torrent(t) => TorrentView::step_events(t, event),
        },
    }
}

impl Router {
    /// Run the active screen's `init`; called once at application start.
    pub fn init(&mut self, ctx: &mut Context)
        ensures
            *final(self) == *old(self),
            final(ctx).actions@ == old(ctx).actions@ + init_actions(old(self).inner),
            final(ctx).events@ == old(ctx).events@,
    {
        let ghost a0 = old(ctx).actions@;
        match &mut self.inner {
            Route::List(inner) => inner.init(ctx),
            Route::Torrent(inner) => inner.init(ctx),
        }
        proof {
            assert(ctx.actions@ =~= a0 + init_actions(old(self).inner));
        }
    }

    /// Route one event: construct and initialize a fresh screen on
    /// navigation, else forward the event to the active screen.
    pub fn update(&mut self, event: Event, ctx: &mut Context)
        ensures
            router_rel(*old(self), event, *final(self)),
            final(ctx).actions@ == old(ctx).actions@ + router_actions(old(self).inner, event),
            final(ctx).events@ == old(ctx).events@ + router_events(old(self).inner, event),
    {
        let ghost pre = *old(self);
        let ghost a0 = old(ctx).actions@;
        let ghost e0 = old(ctx).events@;
        match event {
            Event::NavigateToList => {
                let mut view = ListView::default();
                view.init(ctx);
                self.inner = Route::List(view);
            },
            Event::NavigateToItem(torrent_id) => {
                let mut view = TorrentView::new(torrent_id);
                view.init(ctx);
                self.inner = Route::Torrent(view);
            },
            other => {
                match &mut self.inner {
                    Route::List(inner) => inner.update(other, ctx),
                    Route::Torrent(inner) => inner.update(other, ctx),
                }
            },
        }
        proof {
            assert(ctx.actions@ =~= a0 + router_actions(pre.inner, event));
            assert(ctx.events@ =~= e0 + router_events(pre.inner, event));
        }
    }
}

/// Navigating to the list yields a freshly initialized list screen with its
/// own refresh request — also when the list screen is already the active
/// one, which is replaced rather than mutated.
pub proof fn lemma_navigate_to_list_fresh(pre: Router, post: Router)
    requires
        router_rel(pre, Event::NavigateToList, post),
    ensures
        post.inner matches Route::List(l) && l.fresh(),
        router_actions(pre.inner, Event::NavigateToList) =~= seq![Action::RefreshList],
{
}

} // verus!
