//! A placeholder screen that only shows a message; it issues no actions
//! and reacts to no events.

use vstd::prelude::*;

use crate::{Context, Event};

verus! {

/// A static loading screen around a borrowed message.
#[derive(Debug)]
pub struct LoadingView<'a> {
    pub message: &'a str,
}

impl<'a> LoadingView<'a> {
    pub fn new(message: &'a str) -> (r: Self)
        ensures
            r.message@ == message@,
    {
        LoadingView { message }
    }

    /// This screen has nothing to fetch.
    pub fn init(&mut self, ctx: &mut Context)
        ensures
            *final(self) == *old(self),
            *final(ctx) == *old(ctx),
    {
    }

    /// This screen ignores every event.
    pub fn update(&mut self, event: Event, ctx: &mut Context)
        ensures
            *final(self) == *old(self),
            *final(ctx) == *old(ctx),
    {
        let _ = event;
    }
}

} // verus!
