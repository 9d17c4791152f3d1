//! A single to-do item: an identifier, a title, a description, a completion
//! flag with its completion date, a creation timestamp, and an optional
//! expiration date.

use crate::clock::now_parts;
use crate::date::Date;
use vstd::prelude::*;

verus! {

/// The mathematical value of a [`TodoItem`]: the same fields, with the texts
/// as character sequences.
#[verifier::ext_equal]
pub ghost struct ItemModel {
    pub id: int,
    pub done: bool,
    pub description: Seq<char>,
    pub title: Seq<char>,
    pub created_at: int,
    pub completed_at: Option<Date>,
    pub expires_at: Option<Date>,
}

impl ItemModel {
    /// The item is well formed: the completion date is present exactly when
    /// the item is done, and every date it carries is a real calendar date.
    pub open spec fn wf(self) -> bool {
        &&& self.completed_at is Some <==> self.done
        &&& (self.completed_at matches Some(d) ==> d.wf())
        &&& (self.expires_at matches Some(d) ==> d.wf())
    }
}

/// What setting the completion flag does to an item: `done` takes the given
/// value, and the completion date becomes today when the flag is raised and
/// absent when it is cleared. Nothing else changes.
pub open spec fn spec_set_completed(m: ItemModel, value: bool, today: Date) -> ItemModel {
    ItemModel {
        done: value,
        completed_at: if value {
            Some(today)
        } else {
            None
        },
        ..m
    }
}

/// What toggling completion does to an item: an item not yet done becomes
/// done as of today; a done item becomes not done, with no completion date.
pub open spec fn spec_toggle(m: ItemModel, today: Date) -> ItemModel {
    spec_set_completed(m, !m.done, today)
}

/// A to-do item.
#[derive(Debug)]
pub struct TodoItem {
    pub id: u128,
    pub done: bool,
    pub description: String,
    pub title: String,
    pub created_at: i64,
    pub completed_at: Option<Date>,
    pub expires_at: Option<Date>,
}

impl View for TodoItem {
    type V = ItemModel;

    open spec fn view(&self) -> ItemModel {
        ItemModel {
            id: self.id as int,
            done: self.done,
            description: self.description@,
            title: self.title@,
            created_at: self.created_at as int,
            completed_at: self.completed_at,
            expires_at: self.expires_at,
        }
    }
}

/// Relies on `uuid::Uuid::new_v4`: a freshly generated random identifier,
/// handed out as its 128-bit value. The value is random, so nothing is said
/// of it.
#[verifier::external_body]
fn fresh_id() -> u128 {
    uuid::Uuid::new_v4().as_u128()
}

impl TodoItem {
    /// Creates an item: not done, no completion date, the given title,
    /// description and expiration date, a freshly generated identifier, and
    /// the clock's timestamp as the creation time.
    pub fn new(title: String, description: String, expires_at: Option<Date>) -> (r: TodoItem)
        requires
            expires_at matches Some(d) ==> d.wf(),
        ensures
            r@.title == title@,
            r@.description == description@,
            r@.done == false,
            r@.completed_at is None,
            r@.expires_at == expires_at,
            r@.wf(),
    {
        let (stamp, _, _, _) = now_parts();
        TodoItem {
            id: fresh_id(),
            done: false,
            description,
            title,
            created_at: stamp,
            completed_at: None,
            expires_at,
        }
    }

    /// Sets the completion flag: raising it stamps today as the completion
    /// date, clearing it removes the completion date. Everything else stays.
    pub fn set_completed(&mut self, value: bool, today: Date)
        requires
            today.wf(),
        ensures
            final(self)@ == spec_set_completed(old(self)@, value, today),
            old(self)@.wf() ==> final(self)@.wf(),
    {
        self.done = value;
        if value {
            self.completed_at = Some(today);
        } else {
            self.completed_at = None;
        }
        proof {
            assert(self@ =~= spec_set_completed(old(self)@, value, today));
        }
    }

    /// Toggles the completion flag: an item not yet done becomes done as of
    /// today; a done item becomes not done, with no completion date.
    pub fn toggle_completed(&mut self, today: Date)
        requires
            today.wf(),
        ensures
            final(self)@ == spec_toggle(old(self)@, today),
            old(self)@.wf() ==> final(self)@.wf(),
    {
        if self.done {
            self.set_completed(false, today)
        } else {
            self.set_completed(true, today)
        }
    }
}

/// Toggling completion, twice, starting from an item that is not done: the
/// first toggle makes the item done with today as its completion date; the
/// second makes it not done again with no completion date. The identifier,
/// texts, creation time and expiration date never change.
pub proof fn lemma_toggle_round_trip(m: ItemModel, d1: Date, d2: Date)
    requires
        !m.done,
    ensures
        spec_toggle(m, d1).done,
        spec_toggle(m, d1).completed_at == Some(d1),
        !spec_toggle(spec_toggle(m, d1), d2).done,
        spec_toggle(spec_toggle(m, d1), d2).completed_at is None,
        spec_toggle(spec_toggle(m, d1), d2) == (ItemModel {
            done: m.done,
            completed_at: None,
            ..m
        }),
{
    assert(spec_toggle(spec_toggle(m, d1), d2) =~= (ItemModel {
        done: m.done,
        completed_at: None,
        ..m
    }));
}

} // verus!
