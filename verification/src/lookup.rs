//! Finding the first item that has a property.

use vstd::prelude::*;

verus! {

/// The index of the first item that has a property.
pub open spec fn first_where<T>(items: Seq<T>, property: spec_fn(T) -> bool) -> Option<int>
    decreases items.len(),
{
    if items.len() == 0 {
        None
    } else {
        match first_where(items.drop_last(), property) {
            Some(index) => Some(index),
            None => if property(items.last()) {
                Some(items.len() - 1)
            } else {
                None
            },
        }
    }
}

/// The first item that has a property.
pub open spec fn item_where<T>(items: Seq<T>, property: spec_fn(T) -> bool) -> Option<T> {
    match first_where(items, property) {
        Some(index) => Some(items[index]),
        None => None,
    }
}

/// A borrowed result that agrees with a value.
pub open spec fn refers<T>(found: Option<&T>, value: Option<T>) -> bool {
    match (found, value) {
        (Some(item), Some(expected)) => *item == expected,
        (None, None) => true,
        _ => false,
    }
}

/// What an index found by `first_where` is: it has the property and none
/// before it has.
pub proof fn lemma_first_where<T>(items: Seq<T>, property: spec_fn(T) -> bool)
    ensures
        match first_where(items, property) {
            Some(index) => {
                &&& 0 <= index < items.len()
                &&& property(items[index])
                &&& forall|i: int| 0 <= i < index ==> !property(#[trigger] items[i])
            },
            None => forall|i: int| 0 <= i < items.len() ==> !property(#[trigger] items[i]),
        },
    decreases items.len(),
{
    if items.len() > 0 {
        lemma_first_where(items.drop_last(), property);
        assert forall|i: int| 0 <= i < items.len() - 1 implies items[i] == #[trigger] items.drop_last()[i] by {}
        match first_where(items.drop_last(), property) {
            Some(index) => {
                assert forall|i: int| 0 <= i < index implies !property(#[trigger] items[i]) by {
                    assert(items[i] == items.drop_last()[i]);
                }
            },
            None => {
                assert forall|i: int| 0 <= i < items.len() - 1 implies !property(
                    #[trigger] items[i],
                ) by {
                    assert(items[i] == items.drop_last()[i]);
                }
            },
        }
    }
}

/// An index that has the property while none before it has is the first.
pub proof fn lemma_is_first<T>(items: Seq<T>, property: spec_fn(T) -> bool, index: int)
    requires
        0 <= index < items.len(),
        property(items[index]),
        forall|i: int| 0 <= i < index ==> !property(#[trigger] items[i]),
    ensures
        first_where(items, property) == Some(index),
{
    lemma_first_where(items, property);
    match first_where(items, property) {
        Some(found) => {
            if found < index {
                assert(!property(items[found]));
            } else if index < found {
                assert(!property(items[index]));
            }
        },
        None => {
            assert(!property(items[index]));
        },
    }
}

/// Where no item has the property there is no first.
pub proof fn lemma_none_is_first<T>(items: Seq<T>, property: spec_fn(T) -> bool)
    requires
        forall|i: int| 0 <= i < items.len() ==> !property(#[trigger] items[i]),
    ensures
        first_where(items, property) is None,
{
    lemma_first_where(items, property);
    match first_where(items, property) {
        Some(found) => {
            assert(!property(items[found]));
        },
        None => {},
    }
}

} // verus!
