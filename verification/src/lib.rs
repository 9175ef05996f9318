//! Core of an interactive terminal client for a remote torrent collection.
//!
//! The library is the verified heart of the application: the action/event
//! messages that decouple the interface from the network worker, the view
//! state machines that react to those messages, and the decision functions
//! the background worker applies to each action. All terminal drawing and
//! network calls live outside, in the binary that drives these machines.

use vstd::prelude::*;

pub mod components;
pub mod runner;
pub mod view;

verus! {

/// Lifecycle state of a torrent as reported by the daemon.
#[derive(Clone, Copy, Debug, PartialEq, Eq, Structural)]
pub enum TorrentStatus {
    Stopped,
    QueuedToVerify,
    Verifying,
    QueuedToDownload,
    Downloading,
    QueuedToSeed,
    Seeding,
}

/// Value snapshot of one torrent. Immutable once received: a later fetch
/// replaces the whole value, no field-level merge happens.
///
/// The completion ratio is held in parts per thousand so that the core
/// stays in integer arithmetic; the rendering layer converts it back to a
/// fraction when drawing the progress gauge.
#[derive(Debug, PartialEq)]
pub struct Torrent {
    pub id: i64,
    pub name: String,
    pub status: TorrentStatus,
    /// Completion ratio scaled to `[0, 1000]`.
    pub progress_permille: u16,
    pub downloaded: i64,
    pub uploaded: i64,
    pub total_size: i64,
    pub rate_download: i64,
    pub rate_upload: i64,
    pub peers_connected: i64,
    pub peers_sending_to_us: i64,
    pub peers_getting_from_us: i64,
}

impl Torrent {
    /// The completion ratio never exceeds the whole.
    pub open spec fn wf(self) -> bool {
        self.progress_permille <= 1000
    }

    pub fn new(
        id: i64,
        name: String,
        status: TorrentStatus,
        progress_permille: u16,
        downloaded: i64,
        uploaded: i64,
        total_size: i64,
        rate_download: i64,
        rate_upload: i64,
        peers_connected: i64,
        peers_sending_to_us: i64,
        peers_getting_from_us: i64,
    ) -> (r: Self)
        requires
            progress_permille <= 1000,
        ensures
            r.wf(),
            r == (Torrent {
                id,
                name,
                status,
                progress_permille,
                downloaded,
                uploaded,
                total_size,
                rate_download,
                rate_upload,
                peers_connected,
                peers_sending_to_us,
                peers_getting_from_us,
            }),
    {
        Torrent {
            id,
            name,
            status,
            progress_permille,
            downloaded,
            uploaded,
            total_size,
            rate_download,
            rate_upload,
            peers_connected,
            peers_sending_to_us,
            peers_getting_from_us,
        }
    }
}

impl Clone for Torrent {
    fn clone(&self) -> (r: Self)
        ensures
            r == *self,
    {
        Torrent {
            id: self.id,
            name: self.name.clone(),
            status: self.status,
            progress_permille: self.progress_permille,
            downloaded: self.downloaded,
            uploaded: self.uploaded,
            total_size: self.total_size,
            rate_download: self.rate_download,
            rate_upload: self.rate_upload,
            peers_connected: self.peers_connected,
            peers_sending_to_us: self.peers_sending_to_us,
            peers_getting_from_us: self.peers_getting_from_us,
        }
    }
}

/// A request the interface hands to the background worker. Constructed by a
/// screen, consumed exactly once by the worker.
#[derive(Clone, Copy, Debug, PartialEq, Eq, Structural)]
pub enum Action {
    RefreshList,
    RefreshItem(i64),
    DeleteItem(i64, bool),
}

/// A key press, reduced to what the screens distinguish. Everything else
/// (other keys, mouse movement, resizes) arrives as `Other`.
#[derive(Clone, Copy, Debug, PartialEq, Eq, Structural)]
pub enum Key {
    Up,
    Down,
    Enter,
    Backspace,
    Esc,
    Char(char),
    Other,
}

/// A message delivered to the view layer: either a routed input event or the
/// outcome of a worker call. Produced by exactly one source each, consumed
/// exactly once by the view router.
#[derive(Debug, PartialEq)]
pub enum Event {
    Noop,
    InputEvent(Key),
    InputError(String),
    ListUpdateStart,
    ListUpdate(Vec<Torrent>),
    ListUpdateError(String),
    ItemUpdateStart,
    ItemUpdate(Torrent),
    ItemUpdateError(i64, String),
    DeleteStart(i64),
    DeleteDone(i64),
    DeleteError(i64, String),
    NavigateToList,
    NavigateToItem(i64),
}

/// Outbox a screen writes into while it handles one event. The application
/// loop drains `actions` into the worker queue and feeds `events` back into
/// the view router, in order; both queues are FIFO, so order is preserved.
pub struct Context {
    pub actions: Vec<Action>,
    pub events: Vec<Event>,
}

impl Context {
    pub fn new() -> (r: Self)
        ensures
            r.actions@ =~= Seq::<Action>::empty(),
            r.events@ =~= Seq::<Event>::empty(),
    {
        Context { actions: Vec::new(), events: Vec::new() }
    }

    pub fn send_action(&mut self, action: Action)
        ensures
            final(self).actions@ == old(self).actions@.push(action),
            final(self).events@ == old(self).events@,
    {
        self.actions.push(action);
    }

    pub fn send_event(&mut self, event: Event)
        ensures
            final(self).actions@ == old(self).actions@,
            final(self).events@ == old(self).events@.push(event),
    {
        self.events.push(event);
    }
}

/// What the application loop does with one polled input result.
#[derive(Debug, PartialEq)]
pub enum InputDecision {
    /// The global quit key was pressed: cancel and leave the loop.
    Quit,
    /// Hand the wrapped event to the view router.
    Forward(Event),
}

/// Routes one raw input poll result: the escape key quits, any other key is
/// wrapped as an input event for the active screen, and a read failure is
/// forwarded as an input error so a screen could react to it.
pub fn input_decision(input: Result<Key, String>) -> (d: InputDecision)
    ensures
        input matches Ok(k) ==> (if k == Key::Esc {
            d is Quit
        } else {
            d == InputDecision::Forward(Event::InputEvent(k))
        }),
        input matches Err(e) ==> d == InputDecision::Forward(Event::InputError(e)),
{
    match input {
        Ok(Key::Esc) => InputDecision::Quit,
        Ok(key) => InputDecision::Forward(Event::InputEvent(key)),
        Err(err) => InputDecision::Forward(Event::InputError(err)),
    }
}

} // verus!
