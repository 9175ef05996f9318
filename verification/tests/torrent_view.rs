use transmission_tui::view::torrent::TorrentView;
use transmission_tui::{Action, Context, Event, Key, Torrent, TorrentStatus};

fn torrent(id: i64) -> Torrent {
    Torrent {
        id,
        name: format!("torrent-{id}"),
        status: TorrentStatus::Verifying,
        progress_permille: 250,
        downloaded: 25,
        uploaded: 0,
        total_size: 100,
        rate_download: 3,
        rate_upload: 0,
        peers_connected: 1,
        peers_sending_to_us: 1,
        peers_getting_from_us: 0,
    }
}

#[test]
fn new_screen_is_fresh() {
    let view = TorrentView::new(9);
    assert_eq!(view.id, 9);
    assert_eq!(view.item, None);
    assert!(!view.loading);
    assert_eq!(view.error, None);
}

#[test]
fn init_asks_for_the_entry() {
    let mut view = TorrentView::new(9);
    let mut ctx = Context::new();
    view.init(&mut ctx);
    assert_eq!(ctx.actions, vec![Action::RefreshItem(9)]);
    assert!(ctx.events.is_empty());
}

#[test]
fn reload_key_asks_again() {
    let mut view = TorrentView::new(9);
    let mut ctx = Context::new();
    view.update(Event::InputEvent(Key::Char('r')), &mut ctx);
    assert_eq!(ctx.actions, vec![Action::RefreshItem(9)]);
}

#[test]
fn back_key_navigates_to_the_list() {
    let mut view = TorrentView::new(9);
    let mut ctx = Context::new();
    view.update(Event::InputEvent(Key::Backspace), &mut ctx);
    assert_eq!(ctx.events, vec![Event::NavigateToList]);
    assert!(ctx.actions.is_empty());
}

#[test]
fn update_start_sets_loading_and_clears_error() {
    let mut view = TorrentView::new(9);
    view.error = Some("old".to_string());
    let mut ctx = Context::new();
    view.update(Event::ItemUpdateStart, &mut ctx);
    assert!(view.loading);
    assert_eq!(view.error, None);
}

#[test]
fn update_stores_the_snapshot() {
    let mut view = TorrentView::new(9);
    view.loading = true;
    let mut ctx = Context::new();
    view.update(Event::ItemUpdate(torrent(9)), &mut ctx);
    assert!(!view.loading);
    assert_eq!(view.error, None);
    let item = view.item.expect("snapshot stored");
    assert_eq!(item.id, 9);
    assert_eq!(item.progress_permille, 250);
}

#[test]
fn update_error_stores_the_message() {
    let mut view = TorrentView::new(9);
    view.loading = true;
    let mut ctx = Context::new();
    view.update(Event::ItemUpdateError(9, "gone".to_string()), &mut ctx);
    assert!(!view.loading);
    assert_eq!(view.error, Some("gone".to_string()));
    assert_eq!(view.item, None);
}

#[test]
fn unrelated_events_leave_the_torrent_screen_alone() {
    let mut view = TorrentView::new(9);
    let mut ctx = Context::new();
    view.update(Event::Noop, &mut ctx);
    view.update(Event::ListUpdateStart, &mut ctx);
    assert_eq!(view.id, 9);
    assert!(!view.loading);
    assert!(ctx.actions.is_empty());
}
