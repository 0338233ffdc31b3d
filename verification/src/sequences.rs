//! Facts about sequences of handles.

use vstd::prelude::*;

verus! {

/// `items` without `gone`, in order.
pub open spec fn without<T>(items: Seq<T>, gone: T) -> Seq<T>
    decreases items.len(),
{
    if items.len() == 0 {
        Seq::empty()
    } else {
        let before = without(items.drop_last(), gone);
        if items.last() == gone {
            before
        } else {
            before.push(items.last())
        }
    }
}

pub(crate) proof fn pushed_contains<T>(items: Seq<T>, last: T, item: T)
    ensures
        items.push(last).contains(item) <==> items.contains(item) || last == item,
{
    let pushed = items.push(last);
    assert(pushed[items.len() as int] == last);
    if items.contains(item) {
        let i = choose|i: int| 0 <= i < items.len() && items[i] == item;
        assert(pushed[i] == item);
    }
    if pushed.contains(item) && last != item {
        let i = choose|i: int| 0 <= i < pushed.len() && pushed[i] == item;
        assert(items[i] == item);
    }
}

pub(crate) proof fn without_keeps_the_others<T>(items: Seq<T>, gone: T, other: T)
    ensures
        without(items, gone).contains(other) <==> items.contains(other) && other != gone,
    decreases items.len(),
{
    if items.len() > 0 {
        let before = items.drop_last();
        without_keeps_the_others(before, gone, other);
        assert(before.push(items.last()) =~= items);
        pushed_contains(before, items.last(), other);
        pushed_contains(without(before, gone), items.last(), other);
    }
}

} // verus!
