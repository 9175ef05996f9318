//! The key legend shown at the bottom of a panel: a fixed set of
//! trigger-key/label pairs. Turning it into styled text is the rendering
//! layer's job; the library only carries the data.

use vstd::prelude::*;

verus! {

/// One legend entry: which key triggers what.
#[derive(Clone, Copy, Debug, PartialEq, Eq)]
pub struct SubtitleItem {
    pub label: &'static str,
    pub trigger: &'static str,
}

impl SubtitleItem {
    pub fn new(trigger: &'static str, label: &'static str) -> (r: Self)
        ensures
            r.trigger == trigger,
            r.label == label,
    {
        SubtitleItem { label, trigger }
    }
}

/// A legend of `N` entries.
#[derive(Clone, Copy, Debug, PartialEq, Eq)]
pub struct Subtitle<const N: usize> {
    pub items: [SubtitleItem; N],
}

impl<const N: usize> Subtitle<N> {
    pub fn new(items: [SubtitleItem; N]) -> (r: Self)
        ensures
            r.items == items,
    {
        Subtitle { items }
    }
}

} // verus!
