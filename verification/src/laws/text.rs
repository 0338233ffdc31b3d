//! Joined texts, decimal numbers and removal from a list.

use crate::sequences::without;
use crate::text::{decimal_text, joined, optional_text, texts};
use vstd::prelude::*;

verus! {

/// The number that a text of digits stands for.
pub open spec fn read_decimal(text: Seq<char>) -> int
    decreases text.len(),
{
    if text.len() == 0 {
        0
    } else {
        10 * read_decimal(text.drop_last()) + (text.last() as int - 48)
    }
}

/// A number is written in digits that read as that number, and the first of several digits is
/// not a zero.
pub proof fn decimals_read_as_their_number(n: nat)
    ensures
        decimal_text(n).len() > 0,
        forall|i: int| 0 <= i < decimal_text(n).len() ==> 48 <= (#[trigger] decimal_text(n)[i]) as int
            <= 57,
        read_decimal(decimal_text(n)) == n,
        decimal_text(n).len() > 1 ==> decimal_text(n)[0] as int != 48,
        n > 0 ==> decimal_text(n)[0] as int != 48,
    decreases n,
{
    let text = decimal_text(n);
    if n < 10 {
        assert(text.drop_last() =~= Seq::<char>::empty());
        assert(read_decimal(text.drop_last()) == 0);
    } else {
        decimals_read_as_their_number(n / 10);
        assert(text.drop_last() =~= decimal_text(n / 10));
        assert(text[0] == decimal_text(n / 10)[0]);
        assert forall|i: int| 0 <= i < text.len() implies 48 <= (#[trigger] text[i]) as int
            <= 57 by {
            if i < text.len() - 1 {
                assert(text[i] == decimal_text(n / 10)[i]);
            }
        }
    }
}

/// An optional text is there exactly where the string is, and reads as it does, also where it is
/// empty.
pub proof fn optional_texts_read_as_their_string(text: Option<String>, strings: Seq<String>)
    ensures
        optional_text(text) is Some <==> text is Some,
        text matches Some(string) ==> optional_text(text) == Some(string@),
        texts(strings).len() == strings.len(),
        forall|i: int| 0 <= i < strings.len() ==> #[trigger] texts(strings)[i] == strings[i]@,
{
}

/// Nothing joins to nothing, a first part stands alone, and each further part follows behind one
/// separator.
pub proof fn parts_are_joined_one_by_one(
    parts: Seq<Seq<char>>,
    separator: Seq<char>,
    part: Seq<char>,
)
    ensures
        joined(Seq::empty(), separator) == Seq::<char>::empty(),
        parts.len() == 0 ==> joined(parts.push(part), separator) == part,
        parts.len() > 0 ==> joined(parts.push(part), separator) == joined(parts, separator)
            + separator + part,
{
    assert(parts.push(part).drop_last() =~= parts);
}

/// Removing from an empty list leaves it empty, and an item at the end stays at the end exactly
/// where it is not the one that is removed.
pub proof fn items_are_removed_one_by_one<T>(items: Seq<T>, gone: T, item: T)
    ensures
        without(Seq::<T>::empty(), gone) == Seq::<T>::empty(),
        item == gone ==> without(items.push(item), gone) == without(items, gone),
        item != gone ==> without(items.push(item), gone) == without(items, gone).push(item),
{
    assert(items.push(item).drop_last() =~= items);
}

} // verus!
