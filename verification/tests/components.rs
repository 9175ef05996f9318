use transmission_tui::components::confirm::Confirm;
use transmission_tui::components::list::{ItemWrapper, List, ListItem};
use transmission_tui::components::subtitle::{Subtitle, SubtitleItem};
use transmission_tui::components::torrent_status_label;
use transmission_tui::view::list::list_view_subtitle;
use transmission_tui::view::loading::LoadingView;
use transmission_tui::view::torrent::torrent_view_subtitle;
use transmission_tui::{
    input_decision, Context, Event, InputDecision, Key, Torrent, TorrentStatus,
};

#[test]
fn status_labels_are_exact() {
    assert_eq!(torrent_status_label(TorrentStatus::Stopped), "Stopped");
    assert_eq!(torrent_status_label(TorrentStatus::QueuedToVerify), "Queued to verify");
    assert_eq!(torrent_status_label(TorrentStatus::Verifying), "Verifying");
    assert_eq!(torrent_status_label(TorrentStatus::QueuedToDownload), "Queued to download");
    assert_eq!(torrent_status_label(TorrentStatus::Downloading), "Downloading");
    assert_eq!(torrent_status_label(TorrentStatus::QueuedToSeed), "Queued to seed");
    assert_eq!(torrent_status_label(TorrentStatus::Seeding), "Seeding");
}

#[test]
fn subtitle_keeps_its_entries() {
    let legend = Subtitle::new([SubtitleItem::new("q", "Quit"), SubtitleItem::new("r", "Reload")]);
    assert_eq!(legend.items[0].trigger, "q");
    assert_eq!(legend.items[0].label, "Quit");
    assert_eq!(legend.items[1].trigger, "r");
    assert_eq!(legend.items[1].label, "Reload");
}

#[test]
fn screen_legends_list_their_keys() {
    let list_legend = list_view_subtitle();
    let triggers: Vec<&str> = list_legend.items.iter().map(|i| i.trigger).collect();
    assert_eq!(triggers, vec!["ESC", "r", "Enter", "d"]);

    let torrent_legend = torrent_view_subtitle();
    let triggers: Vec<&str> = torrent_legend.items.iter().map(|i| i.trigger).collect();
    assert_eq!(triggers, vec!["ESC", "Backspace", "r"]);
}

#[test]
fn confirm_dialog_keeps_its_data() {
    let dialog = Confirm::new(
        " Delete torrent ",
        "Delete the local data?",
        [
            SubtitleItem::new("c", "Cancel"),
            SubtitleItem::new("y", "Yes"),
            SubtitleItem::new("n", "No"),
        ],
        (40, 5),
    );
    assert_eq!(dialog.title, " Delete torrent ");
    assert_eq!(dialog.message, "Delete the local data?");
    assert_eq!(dialog.size, (40, 5));
    assert_eq!(dialog.subtitle.items[1].trigger, "y");
}

#[test]
fn list_widget_builders() {
    let rows = [1u8, 2, 3];
    let widget = List::new(&rows, 0, None)
        .with_offset(1)
        .with_selected(Some(2));
    assert_eq!(widget.offset, 1);
    assert_eq!(widget.selected, Some(2));
    assert_eq!(widget.items, &rows);

    let other_rows = [9u8];
    let widget = widget.with_items(&other_rows);
    assert_eq!(widget.items, &other_rows);
    assert_eq!(widget.offset, 1);

    let mut widget = List::new(&rows, 0, None);
    widget.set_offset(2);
    widget.set_selected(Some(0));
    widget.set_items(&other_rows);
    assert_eq!(widget.offset, 2);
    assert_eq!(widget.selected, Some(0));
    assert_eq!(widget.items, &other_rows);
}

#[test]
fn item_wrapper_keeps_item_and_mark() {
    let wrapped = ItemWrapper::new(7u32, true);
    assert_eq!(wrapped.item, 7);
    assert!(wrapped.selected);
}

#[test]
fn torrent_rows_are_four_lines_tall() {
    let t = Torrent {
        id: 1,
        name: "a".to_string(),
        status: TorrentStatus::Stopped,
        progress_permille: 0,
        downloaded: 0,
        uploaded: 0,
        total_size: 0,
        rate_download: 0,
        rate_upload: 0,
        peers_connected: 0,
        peers_sending_to_us: 0,
        peers_getting_from_us: 0,
    };
    assert_eq!(t.height(), 4);
}

#[test]
fn torrent_constructor_and_clone() {
    let t = Torrent::new(3, "x".to_string(), TorrentStatus::Seeding, 1000, 9, 8, 9, 0, 1, 2, 0, 2);
    assert_eq!(t.id, 3);
    assert_eq!(t.progress_permille, 1000);
    let copy = t.clone();
    assert_eq!(copy, t);
}

#[test]
fn escape_quits_and_other_input_is_forwarded() {
    assert_eq!(input_decision(Ok(Key::Esc)), InputDecision::Quit);
    assert_eq!(
        input_decision(Ok(Key::Char('r'))),
        InputDecision::Forward(Event::InputEvent(Key::Char('r')))
    );
    assert_eq!(
        input_decision(Err("broken pipe".to_string())),
        InputDecision::Forward(Event::InputError("broken pipe".to_string()))
    );
}

#[test]
fn loading_view_is_inert() {
    let mut view = LoadingView::new("starting");
    assert_eq!(view.message, "starting");
    let mut ctx = Context::new();
    view.init(&mut ctx);
    view.update(Event::Noop, &mut ctx);
    assert!(ctx.actions.is_empty());
    assert!(ctx.events.is_empty());
}
