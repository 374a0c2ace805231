//! Association lists read as maps.

use vstd::prelude::*;

verus! {

/// The map that a list of name-value pairs stands for. Of two pairs with one
/// name the later one counts.
pub open spec fn to_map<V>(pairs: Seq<(Seq<char>, V)>) -> Map<Seq<char>, V>
    decreases pairs.len(),
{
    if pairs.len() == 0 {
        Map::empty()
    } else {
        to_map(pairs.drop_last()).insert(pairs.last().0, pairs.last().1)
    }
}

/// No name occurs in two pairs of the list.
pub open spec fn distinct_names<V>(pairs: Seq<(Seq<char>, V)>) -> bool {
    forall|i: int, j: int| 0 <= i < j < pairs.len() ==> pairs[i].0 != pairs[j].0
}

/// Some pair of the list has the name.
pub open spec fn has_name<V>(pairs: Seq<(Seq<char>, V)>, name: Seq<char>) -> bool {
    exists|i: int| 0 <= i < pairs.len() && (#[trigger] pairs[i]).0 == name
}

/// A name is in the map exactly if some pair of the list has it.
pub proof fn lemma_to_map_names<V>(pairs: Seq<(Seq<char>, V)>)
    ensures
        forall|name: Seq<char>| #[trigger]
            to_map(pairs).contains_key(name) <==> has_name(pairs, name),
    decreases pairs.len(),
{
    if pairs.len() > 0 {
        let front = pairs.drop_last();
        let last = pairs.last();
        lemma_to_map_names(front);
        assert(to_map(pairs) == to_map(front).insert(last.0, last.1));
        assert forall|name: Seq<char>| #[trigger]
            to_map(pairs).contains_key(name) <==> has_name(pairs, name) by {
            if name == last.0 {
                assert(pairs[pairs.len() - 1].0 == name);
            } else {
                assert(to_map(pairs).contains_key(name) == to_map(front).contains_key(name));
                if has_name(front, name) {
                    let i = choose|i: int| 0 <= i < front.len() && (#[trigger] front[i]).0 == name;
                    assert(pairs[i].0 == name);
                }
                if has_name(pairs, name) {
                    let i = choose|i: int| 0 <= i < pairs.len() && (#[trigger] pairs[i]).0 == name;
                    assert(front[i].0 == name);
                }
            }
        }
    }
}

/// Where no name occurs twice, each pair's name is mapped to that pair's
/// value.
pub proof fn lemma_to_map_at<V>(pairs: Seq<(Seq<char>, V)>, i: int)
    requires
        distinct_names(pairs),
        0 <= i < pairs.len(),
    ensures
        to_map(pairs).contains_key(pairs[i].0),
        to_map(pairs)[pairs[i].0] == pairs[i].1,
    decreases pairs.len(),
{
    if i < pairs.len() - 1 {
        let front = pairs.drop_last();
        assert(front[i] == pairs[i]);
        assert(distinct_names(front)) by {
            assert forall|a: int, b: int| 0 <= a < b < front.len() implies front[a].0
                != front[b].0 by {
                assert(front[a] == pairs[a] && front[b] == pairs[b]);
            }
        }
        lemma_to_map_at(front, i);
    }
}

} // verus!
