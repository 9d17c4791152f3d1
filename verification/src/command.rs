//! The command layer: what each menu choice means, and what each command
//! does to the store — the decisions of the read-evaluate-print loop, kept
//! apart from the reading and printing.

use crate::date::format_dmy;
use crate::date::parse_ymd;
use crate::date::spec_format_dmy;
use crate::date::spec_parse_ymd;
use crate::digits::parse_usize;
use crate::digits::render_usize;
use crate::digits::spec_dec;
use crate::digits::spec_parse_usize;
use crate::item::ItemModel;
use crate::item::TodoItem;
use crate::store::ItemStore;
use vstd::prelude::*;
use vstd::string::StringExecFns;

verus! {

/// What a menu choice asks for.
#[derive(Clone, Copy, PartialEq, Eq, Structural, Debug)]
pub enum Choice {
    /// Leave the loop.
    Exit,
    /// Add an item.
    Add,
    /// Remove an item by position.
    Remove,
    /// Show all items.
    Show,
    /// Anything else: not a known choice.
    Invalid,
}

/// Which action a choice string names: `"0"` through `"3"` name the four
/// actions, any other string is invalid.
pub open spec fn spec_parse_choice(s: Seq<char>) -> Choice {
    if s == seq!['0'] {
        Choice::Exit
    } else if s == seq!['1'] {
        Choice::Add
    } else if s == seq!['2'] {
        Choice::Remove
    } else if s == seq!['3'] {
        Choice::Show
    } else {
        Choice::Invalid
    }
}

/// Reads a menu choice: `"0"` exits, `"1"` adds, `"2"` removes, `"3"` shows,
/// and every other string is invalid.
pub fn parse_choice(s: &str) -> (r: Choice)
    ensures
        r == spec_parse_choice(s@),
{
    let n = s.unicode_len();
    if n != 1 {
        return Choice::Invalid;
    }
    let c = s.get_char(0);
    proof {
        if c == '0' {
            assert(s@ =~= seq!['0']);
        }
        if c == '1' {
            assert(s@ =~= seq!['1']);
        }
        if c == '2' {
            assert(s@ =~= seq!['2']);
        }
        if c == '3' {
            assert(s@ =~= seq!['3']);
        }
    }
    match c {
        '0' => Choice::Exit,
        '1' => Choice::Add,
        '2' => Choice::Remove,
        '3' => Choice::Show,
        _ => Choice::Invalid,
    }
}

/// Why a removal was refused.
#[derive(Clone, Copy, PartialEq, Eq, Structural, Debug)]
pub enum RemoveError {
    /// The given text is not an unsigned decimal number.
    NotANumber,
    /// The number names no item: it is at or past the current count.
    IndexOutOfRange,
}

/// Removes the item whose position the given text names. The text must read
/// as an unsigned decimal number — anything else, a negative sign included,
/// is refused as not a number — and the number must lie below the current
/// count, else it is refused as out of range. On either refusal the store
/// stays exactly as it was; otherwise the named item leaves the store and
/// comes back to the caller.
pub fn remove_item(store: &mut ItemStore, input: &str) -> (r: Result<TodoItem, RemoveError>)
    ensures
        spec_parse_usize(input@) is None ==> r == Err::<TodoItem, RemoveError>(
            RemoveError::NotANumber,
        ) && final(store)@ == old(store)@,
        spec_parse_usize(input@) matches Some(i) ==> (if i < old(store)@.len() {
            r matches Ok(it) && it@ == old(store)@[i as int] && final(store)@ == old(
                store,
            )@.remove(i as int)
        } else {
            r == Err::<TodoItem, RemoveError>(RemoveError::IndexOutOfRange) && final(store)@
                == old(store)@
        }),
{
    match parse_usize(input) {
        None => Err(RemoveError::NotANumber),
        Some(index) => match store.remove_at(index) {
            Ok(it) => Ok(it),
            Err(_) => Err(RemoveError::IndexOutOfRange),
        },
    }
}

/// Adds a freshly created item at the end of the store: not done, with the
/// given title and description, and with the expiration date that the given
/// text names — or none, silently, when the text is not a `YYYY-MM-DD`
/// calendar date. Every item already present stays where it is.
pub fn add_todo_item(store: &mut ItemStore, title: String, description: String, expires_input: &str)
    ensures
        final(store)@.len() == old(store)@.len() + 1,
        forall|i: int| 0 <= i < old(store)@.len() ==> final(store)@[i] == old(store)@[i],
        final(store)@.last().title == title@,
        final(store)@.last().description == description@,
        final(store)@.last().done == false,
        final(store)@.last().completed_at is None,
        final(store)@.last().expires_at == spec_parse_ymd(expires_input@),
        final(store)@.last().wf(),
{
    let expires_at = parse_ymd(expires_input);
    let item = TodoItem::new(title, description, expires_at);
    store.add(item);
}

/// The listing line of one item: its position, title, description, and
/// expiration date rendered `DD-MM-YYYY` — or the explicit marker when the
/// item has none.
pub open spec fn spec_item_line(index: nat, m: ItemModel) -> Seq<char> {
    "#"@ + spec_dec(index) + " | ["@ + m.title + "] | "@ + m.description + " | "@ + (
    match m.expires_at {
        Some(d) => spec_format_dmy(d),
        None => "No expiration date"@,
    })
}

/// Renders the listing line of the item at a position.
pub fn format_item_line(index: usize, item: &TodoItem) -> (r: String)
    requires
        item@.expires_at matches Some(d) ==> d.wf(),
    ensures
        r@ == spec_item_line(index as nat, item@),
{
    let mut s = String::from_str("#");
    let rendered = render_usize(index);
    s.append(rendered.as_str());
    s.append(" | [");
    s.append(item.title.as_str());
    s.append("] | ");
    s.append(item.description.as_str());
    s.append(" | ");
    match &item.expires_at {
        Some(d) => {
            let formatted = format_dmy(d);
            s.append(formatted.as_str());
        },
        None => {
            s.append("No expiration date");
        },
    }
    proof {
        assert(s@ =~= spec_item_line(index as nat, item@));
    }
    s
}

/// Renders the whole listing, one line per item, in insertion order.
pub fn show_items(store: &ItemStore) -> (r: Vec<String>)
    requires
        forall|i: int|
            0 <= i < store@.len() ==> (#[trigger] store@[i].expires_at matches Some(d) ==> d.wf()),
    ensures
        r@.len() == store@.len(),
        forall|i: int| 0 <= i < store@.len() ==> #[trigger] r@[i]@ == spec_item_line(
            i as nat,
            store@[i],
        ),
{
    let n = store.count();
    let mut lines: Vec<String> = Vec::new();
    let mut i: usize = 0;
    while i < n
        invariant
            n == store@.len(),
            i <= n,
            lines@.len() == i,
            forall|k: int|
                0 <= k < store@.len() ==> (#[trigger] store@[k].expires_at matches Some(d)
                    ==> d.wf()),
            forall|j: int| 0 <= j < i ==> #[trigger] lines@[j]@ == spec_item_line(
                j as nat,
                store@[j],
            ),
        decreases n - i,
    {
        let item = store.get(i);
        let line = format_item_line(i, item);
        lines.push(line);
        i = i + 1;
    }
    lines
}

} // verus!
