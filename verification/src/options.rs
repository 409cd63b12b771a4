//! The options that the host keeps for the library: their kinds, and how a
//! list is written in one option.

use vstd::prelude::*;
use crate::text::{chars_of, slice_chars, string_of};

verus! {

/// The kind of value that a host option holds.
#[derive(Debug, Clone, Copy, PartialEq, Eq, Structural)]
pub enum XrmOptionType {
    String,
    Integer,
    SignedInteger,
    Boolean,
    Char,
}

/// The number by which the host knows each kind.
pub open spec fn option_type_code(kind: XrmOptionType) -> u32 {
    match kind {
        XrmOptionType::String => 0,
        XrmOptionType::Integer => 1,
        XrmOptionType::SignedInteger => 2,
        XrmOptionType::Boolean => 3,
        XrmOptionType::Char => 4,
    }
}

impl XrmOptionType {
    /// The number by which the host knows the kind.
    pub fn code(&self) -> (code: u32)
        ensures
            code == option_type_code(*self),
    {
        match self {
            XrmOptionType::String => 0,
            XrmOptionType::Integer => 1,
            XrmOptionType::SignedInteger => 2,
            XrmOptionType::Boolean => 3,
            XrmOptionType::Char => 4,
        }
    }
}

/// The items of a list written with `sep` between them. A text without `sep`
/// is a list of one item, the empty text included.
pub open spec fn split_items(text: Seq<char>, sep: char) -> Seq<Seq<char>>
    decreases text.len(),
{
    if text.len() == 0 {
        seq![Seq::empty()]
    } else {
        let before = split_items(text.drop_last(), sep);
        if text.last() == sep {
            before.push(Seq::empty())
        } else {
            before.update(before.len() - 1, before.last().push(text.last()))
        }
    }
}

/// Splitting always gives at least one item.
pub proof fn split_items_is_not_empty(text: Seq<char>, sep: char)
    ensures
        split_items(text, sep).len() > 0,
    decreases text.len(),
{
    if text.len() > 0 {
        split_items_is_not_empty(text.drop_last(), sep);
    }
}

/// Splits a list option into its items.
pub fn split_list(text: &str, sep: char) -> (items: Vec<String>)
    ensures
        items@.map_values(|item: String| item@) == split_items(text@, sep),
{
    let chars = chars_of(text);
    let mut items: Vec<String> = Vec::new();
    let mut start: usize = 0;
    let mut i: usize = 0;
    proof {
        assert(chars@.take(0).len() == 0);
        assert(chars@.subrange(0, 0) =~= Seq::<char>::empty());
        assert(items@.map_values(|item: String| item@).push(chars@.subrange(0, 0)) =~= seq![
            Seq::<char>::empty(),
        ]);
    }
    while i < chars.len()
        invariant
            start <= i <= chars.len(),
            items@.map_values(|item: String| item@).push(chars@.subrange(start as int, i as int))
                == split_items(chars@.take(i as int), sep),
        decreases chars.len() - i,
    {
        let ghost done = items@.map_values(|item: String| item@);
        let ghost upto = chars@.take(i + 1);
        proof {
            assert(upto.drop_last() == chars@.take(i as int));
            assert(upto.last() == chars@[i as int]);
            split_items_is_not_empty(chars@.take(i as int), sep);
        }
        if chars[i] == sep {
            let item = string_of(&slice_chars(&chars, start, i));
            items.push(item);
            assert(items@.map_values(|item: String| item@) == done.push(item@));
            start = i + 1;
            assert(chars@.subrange(start as int, i + 1) == Seq::<char>::empty());
        } else {
            proof {
                let before = done.push(chars@.subrange(start as int, i as int));
                assert(chars@.subrange(start as int, i + 1) == chars@.subrange(
                    start as int,
                    i as int,
                ).push(chars@[i as int]));
                assert(before.update(before.len() - 1, before.last().push(chars@[i as int]))
                    == done.push(chars@.subrange(start as int, i + 1)));
            }
        }
        i += 1;
    }
    let ghost done = items@.map_values(|item: String| item@);
    let item = string_of(&slice_chars(&chars, start, chars.len()));
    items.push(item);
    assert(items@.map_values(|item: String| item@) == done.push(item@));
    assert(chars@.take(chars.len() as int) == chars@);
    items
}

} // verus!
