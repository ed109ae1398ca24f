//! Cursors: lazy, finite sequences that are consumed from the front.

use vstd::prelude::*;

verus! {

/// A cursor over a finite sequence of items.
///
/// A cursor yields the items of `remaining()` one by one, in order, and then
/// yields `None` for ever.
pub trait Cursor {
    type Item;

    /// The items that the cursor has yet to yield, in order.
    spec fn remaining(&self) -> Seq<Self::Item>;

    /// Yields the front item, or `None` once the cursor is exhausted.
    fn next(&mut self) -> (item: Option<Self::Item>)
        ensures
            match item {
                Some(v) => {
                    &&& old(self).remaining().len() > 0
                    &&& v == old(self).remaining()[0]
                    &&& final(self).remaining() == old(self).remaining().skip(1)
                },
                None => {
                    &&& old(self).remaining().len() == 0
                    &&& final(self).remaining().len() == 0
                },
            },
    ;
}

/// Runs a cursor to its end and returns what it yielded, in order.
pub fn collect<C: Cursor>(cursor: C) -> (items: Vec<C::Item>)
    ensures
        items@ == cursor.remaining(),
{
    let mut cursor = cursor;
    let ghost all = cursor.remaining();
    let mut items: Vec<C::Item> = Vec::new();
    loop
        invariant_except_break
            all == items@ + cursor.remaining(),
        ensures
            items@ == all,
        decreases cursor.remaining().len(),
    {
        match cursor.next() {
            None => {
                assert(all =~= items@);
                break ;
            },
            Some(item) => {
                items.push(item);
                assert(all =~= items@ + cursor.remaining());
            },
        }
    }
    items
}

/// A cursor over the items of a slice, which it hands out by value.
pub struct SliceCursor<'a, T> {
    items: &'a [T],
    next_idx: usize,
}

impl<'a, T> SliceCursor<'a, T> {
    #[verifier::type_invariant]
    spec fn inv(self) -> bool {
        self.next_idx <= self.items@.len()
    }
}

impl<'a, T: Copy> SliceCursor<'a, T> {
    /// A cursor at the front of `items`.
    pub fn new(items: &'a [T]) -> (cursor: Self)
        ensures
            cursor.remaining() == items@,
    {
        let cursor = SliceCursor { items, next_idx: 0 };
        assert(cursor.remaining() =~= items@);
        cursor
    }
}

impl<'a, T: Copy> Cursor for SliceCursor<'a, T> {
    type Item = T;

    closed spec fn remaining(&self) -> Seq<T> {
        self.items@.skip(self.next_idx as int)
    }

    fn next(&mut self) -> (item: Option<T>) {
        proof {
            use_type_invariant(&*self);
        }
        let idx = self.next_idx;
        if idx >= self.items.len() {
            None
        } else {
            self.next_idx = idx + 1;
            assert(self.remaining() =~= old(self).remaining().skip(1));
            Some(self.items[idx])
        }
    }
}

} // verus!
