//! Walking the keys of a table in ascending order.

use std::collections::BTreeMap;
use std::collections::BTreeSet;
use vstd::prelude::*;

verus! {

/// Numbers in ascending order, each once.
pub open spec fn is_ascending(keys: Seq<u128>) -> bool {
    forall|i: int, j: int| 0 <= i < j < keys.len() ==> #[trigger] keys[i] < #[trigger] keys[j]
}

/// The keys of a table in ascending order.
pub open spec fn lists_keys(keys: Seq<u128>, table: Set<u128>) -> bool {
    &&& is_ascending(keys)
    &&& keys.to_set() == table
}

/// The keys of a table in ascending order.
pub open spec fn in_order(table: Set<u128>) -> Seq<u128> {
    choose|keys: Seq<u128>| lists_keys(keys, table)
}

proof fn lemma_increasing(keys: Seq<&u128>)
    requires
        vstd::std_specs::btree::increasing_seq(keys),
    ensures
        is_ascending(keys.unref()),
{
    broadcast use vstd::laws_cmp::group_laws_cmp;

    assert(vstd::laws_cmp::obeys_cmp::<&u128>());
    let listed = keys.unref();
    assert forall|i: int, j: int| 0 <= i < j < listed.len() implies #[trigger] listed[i]
        < #[trigger] listed[j] by {
        assert(listed[i] == *keys[i]);
        assert(listed[j] == *keys[j]);
        assert(vstd::std_specs::cmp::OrdSpec::cmp_spec(&keys[i], &keys[j]) is Less);
    }
}

/// The keys of a table in ascending order.
pub fn keys_of<V>(table: &BTreeMap<u128, V>) -> (keys: Vec<u128>)
    ensures
        lists_keys(keys@, table@.dom()),
        keys@ == in_order(table@.dom()),
{
    broadcast use vstd::laws_cmp::group_laws_cmp;

    proof {
        lemma_increasing(
            vstd::std_specs::iter::IteratorSpec::remaining(
                &vstd::std_specs::btree::spec_keys_iter(table),
            ),
        );
    }
    let mut keys: Vec<u128> = Vec::new();
    for key in it: table.keys()
        invariant
            keys@ == it.seq().unref().take(it.index()),
            it.index() == it.seq().len() ==> keys@ =~= it.seq().unref(),
            it.seq().unref().to_set() == table@.dom(),
            is_ascending(it.seq().unref()),
    {
        keys.push(*key);
        assert(keys@ =~= it.seq().unref().take(it.index() + 1));
    }
    proof {
        law_key_lists_are_unique(keys@, in_order(table@.dom()), table@.dom());
    }
    keys
}

/// The members of a set of pairs, each once.
pub fn pairs_of(pairs: &BTreeSet<(u64, u128)>) -> (members: Vec<(u64, u128)>)
    ensures
        members@.to_set() == pairs@,
{
    broadcast use vstd::laws_cmp::group_laws_cmp;

    let mut members: Vec<(u64, u128)> = Vec::new();
    for pair in it: pairs.iter()
        invariant
            members@ == it.seq().unref().take(it.index()),
            it.index() == it.seq().len() ==> members@ =~= it.seq().unref(),
            it.seq().unref().to_set() == pairs@,
    {
        members.push(*pair);
        assert(members@ =~= it.seq().unref().take(it.index() + 1));
    }
    members
}

pub proof fn lemma_take_contains(keys: Seq<u128>, count: int, key: u128)
    requires
        0 <= count < keys.len(),
    ensures
        keys.take(count + 1).contains(key) <==> keys.take(count).contains(key) || key
            == keys[count],
{
    let fewer = keys.take(count);
    let more = keys.take(count + 1);
    if fewer.contains(key) {
        let place = choose|place: int| 0 <= place < fewer.len() && fewer[place] == key;
        assert(more[place] == key);
    }
    assert(more[count] == keys[count]);
    if more.contains(key) && key != keys[count] {
        let place = choose|place: int| 0 <= place < more.len() && more[place] == key;
        assert(fewer[place] == key);
    }
}

pub proof fn lemma_push_contains(keys: Seq<u128>, pushed: u128, key: u128)
    ensures
        keys.push(pushed).contains(key) <==> keys.contains(key) || key == pushed,
{
    let more = keys.push(pushed);
    assert(more.take(keys.len() as int) =~= keys);
    assert(more.take(more.len() as int) =~= more);
    lemma_take_contains(more, keys.len() as int, key);
}

/// Removes keys from a table.
pub fn drop_keys<V>(table: &mut BTreeMap<u128, V>, gone: &Vec<u128>)
    ensures
        final(table)@ == old(table)@.remove_keys(gone@.to_set()),
{
    let mut i: usize = 0;
    assert(table@.remove_keys(gone@.take(0).to_set()) =~= table@);
    while i < gone.len()
        invariant
            i <= gone.len(),
            table@ == old(table)@.remove_keys(gone@.take(i as int).to_set()),
        decreases gone.len() - i,
    {
        table.remove(&gone[i]);
        proof {
            assert forall|key: u128| #[trigger]
                gone@.take(i + 1).contains(key) <==> gone@.take(i as int).contains(key) || key
                    == gone@[i as int] by {
                lemma_take_contains(gone@, i as int, key);
            }
            assert(table@ =~= old(table)@.remove_keys(gone@.take(i + 1).to_set()));
        }
        i += 1;
    }
    assert(gone@.take(i as int) =~= gone@);
}

/// Removes a pair from a set; tells whether it was there.
pub fn remove_pair(pairs: &mut BTreeSet<(u64, u128)>, pair: (u64, u128)) -> (removed: bool)
    ensures
        final(pairs)@ == old(pairs)@.remove(pair),
        removed == old(pairs)@.contains(pair),
{
    broadcast use vstd::laws_cmp::group_laws_cmp;

    pairs.remove(&pair)
}

/// Puts a pair in a set.
pub fn insert_pair(pairs: &mut BTreeSet<(u64, u128)>, pair: (u64, u128))
    ensures
        final(pairs)@ == old(pairs)@.insert(pair),
{
    broadcast use vstd::laws_cmp::group_laws_cmp;

    pairs.insert(pair);
}

/// Whether a pair is in a set.
pub fn has_pair(pairs: &BTreeSet<(u64, u128)>, pair: (u64, u128)) -> (there: bool)
    ensures
        there == pairs@.contains(pair),
{
    broadcast use vstd::laws_cmp::group_laws_cmp;

    pairs.contains(&pair)
}

/// A list of keys is the only one of its table.
pub proof fn law_key_lists_are_unique(first: Seq<u128>, second: Seq<u128>, table: Set<u128>)
    requires
        lists_keys(first, table),
        lists_keys(second, table),
    ensures
        first == second,
    decreases first.len(),
{
    if first.len() == 0 {
        if second.len() > 0 {
            assert(table.contains(second[0]));
            assert(first.contains(second[0]));
        }
        assert(first =~= second);
    } else {
        let last = first.last();
        assert(first[first.len() - 1] == last);
        assert(table.contains(last));
        let place = choose|place: int| 0 <= place < second.len() && second[place] == last;
        let other = second.last();
        assert(second[second.len() - 1] == other);
        assert(table.contains(other));
        let other_place = choose|i: int| 0 <= i < first.len() && first[i] == other;
        assert(last == other);
        let rest = table.remove(last);
        lemma_shorter_list(first, table);
        lemma_shorter_list(second, table);
        law_key_lists_are_unique(first.drop_last(), second.drop_last(), rest);
        assert(first =~= first.drop_last().push(last));
        assert(second =~= second.drop_last().push(last));
    }
}

proof fn lemma_shorter_list(keys: Seq<u128>, table: Set<u128>)
    requires
        lists_keys(keys, table),
        keys.len() > 0,
    ensures
        lists_keys(keys.drop_last(), table.remove(keys.last())),
{
    let shorter = keys.drop_last();
    assert forall|key: u128| shorter.to_set().contains(key) <==> table.remove(
        keys.last(),
    ).contains(key) by {
        if shorter.contains(key) {
            let i = choose|i: int| 0 <= i < shorter.len() && shorter[i] == key;
            assert(keys[i] == key);
            assert(keys.to_set().contains(key));
        }
        if table.contains(key) && key != keys.last() {
            assert(keys.to_set().contains(key));
            let i = choose|i: int| 0 <= i < keys.len() && keys[i] == key;
            assert(shorter[i] == key);
        }
    }
    assert(shorter.to_set() =~= table.remove(keys.last()));
}

} // verus!
