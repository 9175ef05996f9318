//! Small building blocks the screens hand to the rendering layer: the raw
//! data of a scrollable list, a key legend, a confirmation dialog, and the
//! label text for each lifecycle status.

use vstd::prelude::*;

use crate::TorrentStatus;

pub mod confirm;
pub mod list;
pub mod subtitle;

verus! {

/// The label shown for a torrent's lifecycle status.
pub fn torrent_status_label(status: TorrentStatus) -> (r: &'static str)
    ensures
        status == TorrentStatus::Stopped ==> r@ == "Stopped"@,
        status == TorrentStatus::QueuedToVerify ==> r@ == "Queued to verify"@,
        status == TorrentStatus::Verifying ==> r@ == "Verifying"@,
        status == TorrentStatus::QueuedToDownload ==> r@ == "Queued to download"@,
        status == TorrentStatus::Downloading ==> r@ == "Downloading"@,
        status == TorrentStatus::QueuedToSeed ==> r@ == "Queued to seed"@,
        status == TorrentStatus::Seeding ==> r@ == "Seeding"@,
{
    match status {
        TorrentStatus::Stopped => "Stopped",
        TorrentStatus::QueuedToVerify => "Queued to verify",
        TorrentStatus::Verifying => "Verifying",
        TorrentStatus::QueuedToDownload => "Queued to download",
        TorrentStatus::Downloading => "Downloading",
        TorrentStatus::QueuedToSeed => "Queued to seed",
        TorrentStatus::Seeding => "Seeding",
    }
}

} // verus!
