//! One row of a query result.

use crate::assoc::{distinct_names, has_name, lemma_to_map_at, lemma_to_map_names, to_map};
use crate::variant::{Variant, VariantModel};
use vstd::prelude::*;

verus! {

/// One row of a query result: a mapping from field names to cells. Each name
/// occurs once.
#[derive(Debug)]
pub struct Record {
    fields: Vec<(String, Variant)>,
}

/// The names and values of a list of fields.
pub open spec fn field_pairs(fields: Seq<(String, Variant)>) -> Seq<(Seq<char>, VariantModel)> {
    Seq::new(fields.len(), |i: int| (fields[i].0@, fields[i].1@))
}

impl View for Record {
    type V = Map<Seq<char>, VariantModel>;

    closed spec fn view(&self) -> Map<Seq<char>, VariantModel> {
        to_map(field_pairs(self.fields@))
    }
}

impl Record {
    #[verifier::type_invariant]
    spec fn names_are_distinct(self) -> bool {
        distinct_names(field_pairs(self.fields@))
    }

    /// A record without fields.
    pub fn new() -> (record: Record)
        ensures
            record@ == Map::<Seq<char>, VariantModel>::empty(),
    {
        Record { fields: Vec::new() }
    }

    /// Sets the field `name` to `value`, whether or not the record had such a
    /// field.
    #[verifier::loop_isolation(false)]
    pub fn insert(&mut self, name: String, value: Variant)
        ensures
            final(self)@ == old(self)@.insert(name@, value@),
    {
        proof {
            use_type_invariant(&*self);
        }
        let mut fields: Vec<(String, Variant)> = Vec::new();
        std::mem::swap(&mut fields, &mut self.fields);
        let ghost before = field_pairs(fields@);
        let ghost key = name@;
        let ghost cell = value@;
        let mut i: usize = 0;
        while i < fields.len()
            invariant
                i <= fields.len(),
                fields@ == old(self).fields@,
                forall|j: int| 0 <= j < i ==> (#[trigger] fields@[j]).0@ != name@,
            decreases fields.len() - i,
        {
            if fields[i].0 == name {
                fields.set(i, (name, value));
                proof {
                    let after = field_pairs(fields@);
                    assert(after =~= before.update(i as int, (key, cell)));
                    lemma_update_keeps_names(before, i as int, cell);
                }
                self.fields = fields;
                return ;
            }
            i = i + 1;
        }
        fields.push((name, value));
        proof {
            let after = field_pairs(fields@);
            assert(after =~= before.push((key, cell)));
            assert(after.drop_last() =~= before);
            assert(distinct_names(after)) by {
                assert forall|a: int, b: int| 0 <= a < b < after.len() implies after[a].0
                    != after[b].0 by {
                    if b == after.len() - 1 {
                        assert(old(self).fields@[a].0@ != key);
                    } else {
                        assert(before[a].0 != before[b].0);
                    }
                }
            }
        }
        self.fields = fields;
    }

    /// The fields, each with its name, in the order in which their names
    /// were first set.
    pub fn fields(&self) -> (fields: &Vec<(String, Variant)>)
        ensures
            distinct_names(field_pairs(fields@)),
            to_map(field_pairs(fields@)) == self@,
    {
        proof {
            use_type_invariant(self);
        }
        &self.fields
    }
}

/// Giving a new value to the pair at `i` keeps the names distinct and maps
/// that pair's name to the new value.
proof fn lemma_update_keeps_names<V>(pairs: Seq<(Seq<char>, V)>, i: int, value: V)
    requires
        distinct_names(pairs),
        0 <= i < pairs.len(),
    ensures
        distinct_names(pairs.update(i, (pairs[i].0, value))),
        to_map(pairs.update(i, (pairs[i].0, value))) == to_map(pairs).insert(pairs[i].0, value),
{
    let updated = pairs.update(i, (pairs[i].0, value));
    assert(distinct_names(updated)) by {
        assert forall|a: int, b: int| 0 <= a < b < updated.len() implies updated[a].0
            != updated[b].0 by {
            assert(updated[a].0 == pairs[a].0 && updated[b].0 == pairs[b].0);
        }
    }
    lemma_to_map_names(pairs);
    lemma_to_map_names(updated);
    let want = to_map(pairs).insert(pairs[i].0, value);
    assert forall|name: Seq<char>| to_map(updated).contains_key(name) <==> want.contains_key(
        name,
    ) by {
        if has_name(updated, name) {
            let k = choose|k: int| 0 <= k < updated.len() && (#[trigger] updated[k]).0 == name;
            assert(pairs[k].0 == name);
        }
        if has_name(pairs, name) {
            let k = choose|k: int| 0 <= k < pairs.len() && (#[trigger] pairs[k]).0 == name;
            assert(updated[k].0 == name);
        }
        if name == pairs[i].0 {
            assert(updated[i].0 == name);
        }
    }
    assert forall|name: Seq<char>| to_map(updated).contains_key(name) implies to_map(
        updated,
    )[name] == want[name] by {
        let k = choose|k: int| 0 <= k < updated.len() && (#[trigger] updated[k]).0 == name;
        lemma_to_map_at(updated, k);
        if k != i {
            lemma_to_map_at(pairs, k);
        }
    }
    assert(to_map(updated) =~= want);
}

} // verus!
