use transmission_tui::view::list::ListView;
use transmission_tui::view::{Route, Router};
use transmission_tui::{Action, Context, Event, Key, Torrent, TorrentStatus};

fn torrent(id: i64) -> Torrent {
    Torrent {
        id,
        name: format!("torrent-{id}"),
        status: TorrentStatus::Seeding,
        progress_permille: 1000,
        downloaded: 200,
        uploaded: 400,
        total_size: 200,
        rate_download: 0,
        rate_upload: 9,
        peers_connected: 4,
        peers_sending_to_us: 0,
        peers_getting_from_us: 4,
    }
}

#[test]
fn router_starts_on_a_fresh_list() {
    let router = Router::default();
    match router.inner {
        Route::List(list) => {
            assert!(list.items.is_empty());
            assert_eq!(list.selected, None);
            assert!(!list.loading);
        }
        Route::Torrent(_) => panic!("expected the list screen"),
    }
}

#[test]
fn init_runs_the_active_screen() {
    let mut router = Router::default();
    let mut ctx = Context::new();
    router.init(&mut ctx);
    assert_eq!(ctx.actions, vec![Action::RefreshList]);
}

#[test]
fn navigate_to_list_reinitializes_even_from_list() {
    let mut list = ListView::default();
    list.items = vec![torrent(1), torrent(2)];
    list.selected = Some(1);
    list.error = Some("stale".to_string());
    let mut router = Router { inner: Route::List(list) };
    let mut ctx = Context::new();

    router.update(Event::NavigateToList, &mut ctx);

    match &router.inner {
        Route::List(fresh) => {
            assert!(fresh.items.is_empty());
            assert_eq!(fresh.selected, None);
            assert_eq!(fresh.error, None);
            assert!(!fresh.loading);
            assert_eq!(fresh.pending_delete_id, None);
        }
        Route::Torrent(_) => panic!("expected the list screen"),
    }
    assert_eq!(ctx.actions, vec![Action::RefreshList]);
}

#[test]
fn enter_then_navigation_opens_the_torrent_screen() {
    let mut list = ListView::default();
    list.items = vec![torrent(42), torrent(43)];
    list.selected = Some(0);
    let mut router = Router { inner: Route::List(list) };
    let mut ctx = Context::new();

    router.update(Event::InputEvent(Key::Enter), &mut ctx);
    assert_eq!(ctx.events, vec![Event::NavigateToItem(42)]);

    let event = ctx.events.remove(0);
    router.update(event, &mut ctx);

    match &router.inner {
        Route::Torrent(screen) => {
            assert_eq!(screen.id, 42);
            assert_eq!(screen.item, None);
            assert!(!screen.loading);
        }
        Route::List(_) => panic!("expected the torrent screen"),
    }
    assert_eq!(ctx.actions, vec![Action::RefreshItem(42)]);
}

#[test]
fn other_events_reach_the_active_screen() {
    let mut router = Router::default();
    let mut ctx = Context::new();
    router.update(Event::ListUpdate(vec![torrent(7)]), &mut ctx);
    match &router.inner {
        Route::List(list) => {
            assert_eq!(list.items.len(), 1);
            assert_eq!(list.items[0].id, 7);
        }
        Route::Torrent(_) => panic!("expected the list screen"),
    }
}

#[test]
fn back_from_torrent_screen_returns_to_a_fresh_list() {
    let mut router = Router::default();
    let mut ctx = Context::new();
    router.update(Event::NavigateToItem(9), &mut ctx);
    assert_eq!(ctx.actions, vec![Action::RefreshItem(9)]);

    router.update(Event::InputEvent(Key::Backspace), &mut ctx);
    assert_eq!(ctx.events, vec![Event::NavigateToList]);

    let event = ctx.events.remove(0);
    router.update(event, &mut ctx);
    match &router.inner {
        Route::List(list) => assert!(list.items.is_empty()),
        Route::Torrent(_) => panic!("expected the list screen"),
    }
    assert_eq!(ctx.actions, vec![Action::RefreshItem(9), Action::RefreshList]);
}
