//! The item store: to-do items held in insertion order, addressed by their
//! zero-based position.

use crate::item::ItemModel;
use crate::item::TodoItem;
use vstd::prelude::*;

verus! {

/// Why a store operation was refused.
#[derive(Clone, Copy, PartialEq, Eq, Structural, Debug)]
pub enum StoreError {
    /// The given position names no item: it is at or past the current count.
    IndexOutOfRange,
}

/// An ordered collection of to-do items. Items enter at the end, leave by
/// position, and keep their relative order throughout.
pub struct ItemStore {
    items: Vec<TodoItem>,
}

impl View for ItemStore {
    type V = Seq<ItemModel>;

    closed spec fn view(&self) -> Seq<ItemModel> {
        self.items@.map_values(|t: TodoItem| t@)
    }
}

impl ItemStore {
    /// An empty store.
    pub fn new() -> (r: ItemStore)
        ensures
            r@ == Seq::<ItemModel>::empty(),
    {
        let s = ItemStore { items: Vec::new() };
        proof {
            assert(s@ =~= Seq::<ItemModel>::empty());
        }
        s
    }

    /// How many items the store holds.
    pub fn count(&self) -> (r: usize)
        ensures
            r == self@.len(),
    {
        self.items.len()
    }

    /// Appends an item at the end; every item already present stays where it
    /// is.
    pub fn add(&mut self, item: TodoItem)
        ensures
            final(self)@ == old(self)@.push(item@),
    {
        self.items.push(item);
        proof {
            assert(self@ =~= old(self)@.push(item@));
        }
    }

    /// The item at a position.
    pub fn get(&self, index: usize) -> (r: &TodoItem)
        requires
            index < self@.len(),
        ensures
            r@ == self@[index as int],
    {
        &self.items[index]
    }

    /// Removes and returns the item at a position. A position at or past the
    /// current count is refused, and the store then stays exactly as it was;
    /// a position below the count always succeeds, the items after it each
    /// moving down by one.
    pub fn remove_at(&mut self, index: usize) -> (r: Result<TodoItem, StoreError>)
        ensures
            index < old(self)@.len() ==> (r matches Ok(it) && it@ == old(self)@[index as int]
                && final(self)@ == old(self)@.remove(index as int)),
            index >= old(self)@.len() ==> r == Err::<TodoItem, StoreError>(
                StoreError::IndexOutOfRange,
            ) && final(self)@ == old(self)@,
    {
        if index < self.items.len() {
            let it = self.items.remove(index);
            proof {
                assert(self@ =~= old(self)@.remove(index as int));
            }
            Ok(it)
        } else {
            Err(StoreError::IndexOutOfRange)
        }
    }

    /// All items, in insertion order.
    pub fn list(&self) -> (r: &Vec<TodoItem>)
        ensures
            r@.map_values(|t: TodoItem| t@) == self@,
    {
        &self.items
    }
}

/// A sequence of items appended one after another, oldest first.
pub open spec fn push_all(s: Seq<ItemModel>, items: Seq<ItemModel>) -> Seq<ItemModel>
    decreases items.len(),
{
    if items.len() == 0 {
        s
    } else {
        push_all(s.push(items.first()), items.drop_first())
    }
}

/// Adding items one after another appends exactly those items, in the order
/// they were added: the store then holds its old contents followed by the new
/// items, so adding to a store holding none yields exactly the items added.
pub proof fn lemma_adds_in_order(s: Seq<ItemModel>, items: Seq<ItemModel>)
    ensures
        push_all(s, items) == s + items,
        push_all(s, items).len() == s.len() + items.len(),
        forall|i: int|
            0 <= i < items.len() ==> push_all(s, items)[s.len() + i] == items[i],
    decreases items.len(),
{
    if items.len() == 0 {
        assert(push_all(s, items) =~= s + items);
    } else {
        lemma_adds_in_order(s.push(items.first()), items.drop_first());
        assert(s.push(items.first()) + items.drop_first() =~= s + items);
    }
}

/// Removing the item at a valid position shrinks the store by exactly one,
/// and — when no other position holds an equal item — the removed item no
/// longer appears anywhere in the store.
pub proof fn lemma_removed_item_gone(s: Seq<ItemModel>, index: int)
    requires
        0 <= index < s.len(),
        forall|j: int| 0 <= j < s.len() && j != index ==> s[j] != s[index],
    ensures
        s.remove(index).len() == s.len() - 1,
        !s.remove(index).contains(s[index]),
{
    let t = s.remove(index);
    assert forall|j: int| 0 <= j < t.len() implies t[j] != s[index] by {
        if j < index {
            assert(t[j] == s[j]);
        } else {
            assert(t[j] == s[j + 1]);
        }
    }
    assert(!t.contains(s[index]));
}

} // verus!
