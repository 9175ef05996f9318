//! The data of a modal confirmation dialog: a title, a message, the legend
//! of answer keys, and the box size the rendering layer should centre.

use vstd::prelude::*;

use crate::components::subtitle::{Subtitle, SubtitleItem};

verus! {

/// A confirmation dialog with `N` answer keys.
#[derive(Clone, Copy, Debug)]
pub struct Confirm<const N: usize> {
    pub title: &'static str,
    pub message: &'static str,
    pub subtitle: Subtitle<N>,
    pub size: (u16, u16),
}

impl<const N: usize> Confirm<N> {
    pub fn new(
        title: &'static str,
        message: &'static str,
        options: [SubtitleItem; N],
        size: (u16, u16),
    ) -> (r: Self)
        ensures
            r.title == title,
            r.message == message,
            r.subtitle.items == options,
            r.size == size,
    {
        Confirm { title, message, subtitle: Subtitle::new(options), size }
    }
}

} // verus!
