//! The projection of provider cells onto JSON values.

use crate::ieee::{
    double_is_finite, double_is_infinite, double_is_nan, is_finite_double, lemma_widening_keeps_value,
    single_is_finite, single_is_infinite, single_is_nan, widen_single, widened,
};
use crate::assoc::{distinct_names, has_name, lemma_to_map_at, lemma_to_map_names, to_map};
use crate::json::{item_models, member_pairs, JsonModel, JsonNumber, JsonValue, NumberModel};
use crate::record::{field_pairs, Record};
use crate::variant::{cell_models, Variant, VariantModel};
use vstd::prelude::*;

verus! {

/// The JSON number that holds the integer `n` exactly.
pub open spec fn integer(n: int) -> JsonModel {
    JsonModel::Number(NumberModel::Integer(n))
}

/// The JSON value of a cell.
///
/// | cell | JSON value |
/// |---|---|
/// | empty, null | null |
/// | string | the same string |
/// | signed or unsigned integer of any width | the same integer, exactly |
/// | finite 32-bit float | the double of the same value |
/// | finite 64-bit float | the same double |
/// | NaN or infinity of either width | the integer 0 |
/// | boolean | the same boolean |
/// | array | the array of the projected elements, in order |
/// | any other tag | the string that stands for the cell |
///
/// An unsigned 64-bit integer above 2^53 stays a JSON number with all its
/// digits; a reader that takes JSON numbers for doubles rounds it.
pub open spec fn project(cell: VariantModel) -> JsonModel
    decreases cell,
{
    match cell {
        VariantModel::Empty => JsonModel::Null,
        VariantModel::Null => JsonModel::Null,
        VariantModel::String(s) => JsonModel::String(s),
        VariantModel::I1(i) => integer(i as int),
        VariantModel::I2(i) => integer(i as int),
        VariantModel::I4(i) => integer(i as int),
        VariantModel::I8(i) => integer(i as int),
        VariantModel::R4(bits) => if single_is_finite(bits) {
            JsonModel::Number(NumberModel::Double(widened(bits) as u64))
        } else {
            integer(0)
        },
        VariantModel::R8(bits) => if double_is_finite(bits) {
            JsonModel::Number(NumberModel::Double(bits))
        } else {
            integer(0)
        },
        VariantModel::Bool(b) => JsonModel::Bool(b),
        VariantModel::UI1(u) => integer(u as int),
        VariantModel::UI2(u) => integer(u as int),
        VariantModel::UI4(u) => integer(u as int),
        VariantModel::UI8(u) => integer(u as int),
        VariantModel::Array(items) => JsonModel::Array(project_each(items)),
        VariantModel::Other(text) => JsonModel::String(text),
    }
}

/// The JSON values of a list of cells, in its order.
pub open spec fn project_each(cells: Seq<VariantModel>) -> Seq<JsonModel>
    decreases cells,
{
    Seq::new(
        cells.len(),
        |i: int|
            if 0 <= i < cells.len() {
                project(cells[i])
            } else {
                JsonModel::Null
            },
    )
}

/// The JSON object of a row: it has the row's field names, and under each
/// name the JSON value of that field's cell.
pub open spec fn project_fields(fields: Map<Seq<char>, VariantModel>) -> JsonModel {
    JsonModel::Object(
        Map::new(
            |name: Seq<char>| fields.contains_key(name),
            |name: Seq<char>| project(fields[name]),
        ),
    )
}

/// The projection of an array is the array of the projected elements, in
/// the same order.
pub proof fn lemma_project_array(cells: Seq<VariantModel>)
    ensures
        project(VariantModel::Array(cells)) matches JsonModel::Array(values) && values.len()
            == cells.len() && forall|i: int|
            0 <= i < cells.len() ==> #[trigger] values[i] == project(cells[i]),
{
}

/// A float that is a NaN or an infinity, of either width, becomes the number
/// zero.
pub proof fn lemma_non_finite_is_zero(single: u32, double: u64)
    ensures
        single_is_nan(single) || single_is_infinite(single) ==> project(VariantModel::R4(single))
            == integer(0),
        double_is_nan(double) || double_is_infinite(double) ==> project(VariantModel::R8(double))
            == integer(0),
{
}

/// A cell with a tag that has no case of its own becomes a string, the one
/// that stands for the cell.
pub proof fn lemma_other_is_string(text: Seq<char>)
    ensures
        project(VariantModel::Other(text)) == JsonModel::String(text),
{
}

/// Every cell has a JSON value that JSON text can hold: no double in it is a
/// NaN or an infinity.
pub proof fn lemma_project_is_finite(cell: VariantModel)
    ensures
        project(cell).is_finite(),
    decreases cell,
{
    match cell {
        VariantModel::R4(bits) => {
            if single_is_finite(bits) {
                lemma_widening_keeps_value(bits);
            }
        },
        VariantModel::Array(items) => {
            lemma_project_array(items);
            let values = project(cell)->Array_0;
            assert forall|i: int| 0 <= i < values.len() implies (#[trigger] values[i]).is_finite() by {
                lemma_project_is_finite(items[i]);
            }
        },
        _ => {},
    }
}

/// Every field of a row survives into the row's JSON object under its own
/// name, as the JSON value of its cell, and the object has no other member.
pub proof fn lemma_fields_survive(fields: Map<Seq<char>, VariantModel>)
    ensures
        project_fields(fields) matches JsonModel::Object(members) && members.dom() == fields.dom()
            && forall|name: Seq<char>|
            fields.contains_key(name) ==> #[trigger] members[name] == project(fields[name]),
        project_fields(fields).is_finite(),
{
    let members = project_fields(fields)->Object_0;
    assert(members.dom() =~= fields.dom());
    assert forall|name: Seq<char>| members.dom().contains(name) implies (#[trigger] members[name]).is_finite() by {
        lemma_project_is_finite(fields[name]);
    }
}

/// The JSON number of a signed integer.
fn signed(n: i64) -> (number: JsonValue)
    ensures
        number@ == integer(n as int),
        number.well_formed(),
{
    if n < 0 {
        JsonValue::Number(JsonNumber::NegInt(n))
    } else {
        JsonValue::Number(JsonNumber::PosInt(n as u64))
    }
}

/// The JSON number of an unsigned integer.
fn unsigned(n: u64) -> (number: JsonValue)
    ensures
        number@ == integer(n as int),
        number.well_formed(),
{
    JsonValue::Number(JsonNumber::PosInt(n))
}

/// Converts one cell to its JSON value. Never fails: a cell with a tag that
/// has no case of its own becomes a string.
#[verifier::loop_isolation(false)]
pub fn variant_to_json(variant: &Variant) -> (json: JsonValue)
    ensures
        json@ == project(variant@),
        json@.is_finite(),
        json.well_formed(),
    decreases variant,
{
    proof {
        lemma_project_is_finite(variant@);
    }
    match variant {
        Variant::Empty => JsonValue::Null,
        Variant::Null => JsonValue::Null,
        Variant::String(s) => JsonValue::String(s.clone()),
        Variant::I1(i) => signed(*i as i64),
        Variant::I2(i) => signed(*i as i64),
        Variant::I4(i) => signed(*i as i64),
        Variant::I8(i) => signed(*i),
        Variant::R4(bits) => match widen_single(*bits) {
            Some(double) => JsonValue::Number(JsonNumber::Float(double)),
            None => unsigned(0),
        },
        Variant::R8(bits) => if is_finite_double(*bits) {
            JsonValue::Number(JsonNumber::Float(*bits))
        } else {
            unsigned(0)
        },
        Variant::Bool(b) => JsonValue::Bool(*b),
        Variant::UI1(u) => unsigned(*u as u64),
        Variant::UI2(u) => unsigned(*u as u64),
        Variant::UI4(u) => unsigned(*u as u64),
        Variant::UI8(u) => unsigned(*u),
        Variant::Array(items) => {
            let mut values: Vec<JsonValue> = Vec::new();
            let mut i: usize = 0;
            while i < items.len()
                invariant
                    i <= items.len(),
                    values.len() == i,
                    forall|j: int| 0 <= j < i ==> (#[trigger] values@[j])@ == project(items@[j]@),
                    forall|j: int| 0 <= j < i ==> (#[trigger] values@[j]).well_formed(),
                decreases items.len() - i,
            {
                let value = variant_to_json(&items[i]);
                values.push(value);
                i = i + 1;
            }
            let json = JsonValue::Array(values);
            assert(item_models(values@) =~= project_each(cell_models(items@)));
            json
        },
        Variant::Other(text) => JsonValue::String(text.clone()),
    }
}

/// Converts one row to a JSON object: every field is kept under its name,
/// with its cell converted by [`variant_to_json`]. The members stand in the
/// order of the row's fields, and no name occurs twice.
pub fn project_record(record: &Record) -> (json: JsonValue)
    ensures
        json@ == project_fields(record@),
        json@.is_finite(),
        json.well_formed(),
        json is Object,
{
    proof {
        lemma_fields_survive(record@);
    }
    let fields = record.fields();
    let mut members: Vec<(String, JsonValue)> = Vec::new();
    let mut i: usize = 0;
    while i < fields.len()
        invariant
            i <= fields.len(),
            members.len() == i,
            forall|j: int|
                0 <= j < i ==> (#[trigger] members@[j]).0@ == fields@[j].0@ && members@[j].1@
                    == project(fields@[j].1@) && members@[j].1.well_formed(),
        decreases fields.len() - i,
    {
        let value = variant_to_json(&fields[i].1);
        members.push((fields[i].0.clone(), value));
        i = i + 1;
    }
    proof {
        lemma_projected_pairs(field_pairs(fields@), member_pairs(members@));
    }
    JsonValue::Object(members)
}

/// A list of members that has the names of a list of fields, in the same
/// order, and under each name the projected cell, stands for the projected
/// row.
proof fn lemma_projected_pairs(
    fields: Seq<(Seq<char>, VariantModel)>,
    members: Seq<(Seq<char>, JsonModel)>,
)
    requires
        distinct_names(fields),
        members.len() == fields.len(),
        forall|i: int|
            0 <= i < fields.len() ==> (#[trigger] members[i]).0 == fields[i].0 && members[i].1
                == project(fields[i].1),
    ensures
        distinct_names(members),
        JsonModel::Object(to_map(members)) == project_fields(to_map(fields)),
{
    assert(distinct_names(members)) by {
        assert forall|a: int, b: int| 0 <= a < b < members.len() implies members[a].0
            != members[b].0 by {
            assert(members[a].0 == fields[a].0 && members[b].0 == fields[b].0);
        }
    }
    lemma_to_map_names(fields);
    lemma_to_map_names(members);
    let want = project_fields(to_map(fields))->Object_0;
    assert forall|name: Seq<char>| to_map(members).contains_key(name) <==> want.contains_key(
        name,
    ) by {
        if has_name(members, name) {
            let k = choose|k: int| 0 <= k < members.len() && (#[trigger] members[k]).0 == name;
            assert(fields[k].0 == name);
        }
        if has_name(fields, name) {
            let k = choose|k: int| 0 <= k < fields.len() && (#[trigger] fields[k]).0 == name;
            assert(members[k].0 == name);
        }
    }
    assert forall|name: Seq<char>| to_map(members).contains_key(name) implies to_map(
        members,
    )[name] == want[name] by {
        let k = choose|k: int| 0 <= k < members.len() && (#[trigger] members[k]).0 == name;
        lemma_to_map_at(members, k);
        lemma_to_map_at(fields, k);
    }
    assert(to_map(members) =~= want);
}

/// Converts the rows of a query result, in their order, each by
/// [`project_record`].
pub fn project_rows(records: &Vec<Record>) -> (rows: Vec<JsonValue>)
    ensures
        rows.len() == records.len(),
        forall|i: int|
            0 <= i < records.len() ==> (#[trigger] rows@[i])@ == project_fields(records@[i]@),
        forall|i: int| 0 <= i < records.len() ==> (#[trigger] rows@[i])@.is_finite(),
        forall|i: int| 0 <= i < records.len() ==> (#[trigger] rows@[i]).well_formed(),
{
    let mut rows: Vec<JsonValue> = Vec::new();
    let mut i: usize = 0;
    while i < records.len()
        invariant
            i <= records.len(),
            rows.len() == i,
            forall|j: int| 0 <= j < i ==> (#[trigger] rows@[j])@ == project_fields(records@[j]@),
            forall|j: int| 0 <= j < i ==> (#[trigger] rows@[j])@.is_finite(),
            forall|j: int| 0 <= j < i ==> (#[trigger] rows@[j]).well_formed(),
        decreases records.len() - i,
    {
        let row = project_record(&records[i]);
        rows.push(row);
        i = i + 1;
    }
    rows
}

} // verus!
