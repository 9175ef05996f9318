//! The data of a scrollable list widget: the rows, a scroll offset, and
//! the row to mark as selected. Drawing the rows is the rendering layer's
//! job; it asks each row for its height through `ListItem`.

use vstd::prelude::*;

verus! {

/// A row the list widget can lay out: it knows its own height in lines.
pub trait ListItem {
    fn height(&self) -> u16;
}

/// One row paired with whether it is the selected one.
pub struct ItemWrapper<I> {
    pub item: I,
    pub selected: bool,
}

impl<I> ItemWrapper<I> {
    pub fn new(item: I, selected: bool) -> (r: Self)
        ensures
            r.item == item,
            r.selected == selected,
    {
        ItemWrapper { item, selected }
    }
}

/// The list widget's data: a borrowed slice of rows, the index of the
/// first row shown, and the row to mark.
#[derive(Debug)]
pub struct List<'a, I> {
    pub items: &'a [I],
    pub offset: usize,
    pub selected: Option<usize>,
}

impl<'a, I> List<'a, I> {
    pub fn new(items: &'a [I], offset: usize, selected: Option<usize>) -> (r: Self)
        ensures
            r.items == items,
            r.offset == offset,
            r.selected == selected,
    {
        List { items, offset, selected }
    }

    pub fn set_items(&mut self, items: &'a [I])
        ensures
            final(self).items == items,
            final(self).offset == old(self).offset,
            final(self).selected == old(self).selected,
    {
        self.items = items;
    }

    pub fn with_items(self, items: &'a [I]) -> (r: Self)
        ensures
            r.items == items,
            r.offset == self.offset,
            r.selected == self.selected,
    {
        let mut updated = self;
        updated.set_items(items);
        updated
    }

    pub fn set_offset(&mut self, offset: usize)
        ensures
            final(self).items == old(self).items,
            final(self).offset == offset,
            final(self).selected == old(self).selected,
    {
        self.offset = offset;
    }

    pub fn with_offset(self, offset: usize) -> (r: Self)
        ensures
            r.items == self.items,
            r.offset == offset,
            r.selected == self.selected,
    {
        let mut updated = self;
        updated.set_offset(offset);
        updated
    }

    pub fn set_selected(&mut self, selected: Option<usize>)
        ensures
            final(self).items == old(self).items,
            final(self).offset == old(self).offset,
            final(self).selected == selected,
    {
        self.selected = selected;
    }

    pub fn with_selected(self, selected: Option<usize>) -> (r: Self)
        ensures
            r.items == self.items,
            r.offset == self.offset,
            r.selected == selected,
    {
        let mut updated = self;
        updated.set_selected(selected);
        updated
    }
}

} // verus!
