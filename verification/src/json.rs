//! The JSON value model: null, booleans, numbers, strings, arrays and
//! objects.

use crate::assoc::{distinct_names, to_map};
use crate::ieee::double_is_finite;
use vstd::prelude::*;

verus! {

/// A JSON number: an integer of 64 bits, or a double held as its IEEE 754
/// bit pattern.
#[derive(Clone, Copy, Debug, PartialEq, Eq)]
pub enum JsonNumber {
    PosInt(u64),
    NegInt(i64),
    Float(u64),
}

/// The mathematical value of a [`JsonNumber`].
pub ghost enum NumberModel {
    /// An integer, exactly.
    Integer(int),
    /// A double, as its bit pattern.
    Double(u64),
}

impl JsonNumber {
    /// An integer below zero is `NegInt`, and no other integer is.
    pub open spec fn well_formed(self) -> bool {
        self matches JsonNumber::NegInt(i) ==> i < 0
    }
}

impl View for JsonNumber {
    type V = NumberModel;

    open spec fn view(&self) -> NumberModel {
        match self {
            JsonNumber::PosInt(u) => NumberModel::Integer(*u as int),
            JsonNumber::NegInt(i) => NumberModel::Integer(*i as int),
            JsonNumber::Float(bits) => NumberModel::Double(*bits),
        }
    }
}

/// A JSON value. An object lists its members in the order in which they were
/// added; of two members with one name the later one counts.
#[derive(Debug, PartialEq, Eq)]
pub enum JsonValue {
    Null,
    Bool(bool),
    Number(JsonNumber),
    String(String),
    Array(Vec<JsonValue>),
    Object(Vec<(String, JsonValue)>),
}

/// The mathematical value of a [`JsonValue`]: arrays keep their order,
/// objects are maps from names to values.
pub ghost enum JsonModel {
    Null,
    Bool(bool),
    Number(NumberModel),
    String(Seq<char>),
    Array(Seq<JsonModel>),
    Object(Map<Seq<char>, JsonModel>),
}

impl JsonValue {
    /// The mathematical value.
    pub open spec fn model(self) -> JsonModel
        decreases self,
    {
        match self {
            JsonValue::Null => JsonModel::Null,
            JsonValue::Bool(b) => JsonModel::Bool(b),
            JsonValue::Number(n) => JsonModel::Number(n@),
            JsonValue::String(s) => JsonModel::String(s@),
            JsonValue::Array(items) => JsonModel::Array(item_models(items@)),
            JsonValue::Object(members) => JsonModel::Object(to_map(member_pairs(members@))),
        }
    }

    /// The value is written in one way only: an integer below zero is
    /// `NegInt` and no other is, and no object names a member twice.
    pub open spec fn well_formed(self) -> bool
        decreases self,
    {
        match self {
            JsonValue::Number(n) => n.well_formed(),
            JsonValue::Array(items) => forall|i: int|
                0 <= i < items@.len() ==> (#[trigger] items@[i]).well_formed(),
            JsonValue::Object(members) => distinct_names(member_pairs(members@)) && forall|i: int|
                0 <= i < members@.len() ==> (#[trigger] members@[i]).1.well_formed(),
            _ => true,
        }
    }
}

/// The values of a list of JSON values, in its order.
pub open spec fn item_models(items: Seq<JsonValue>) -> Seq<JsonModel>
    decreases items,
{
    Seq::new(
        items.len(),
        |i: int|
            if 0 <= i < items.len() {
                items[i].model()
            } else {
                JsonModel::Null
            },
    )
}

/// The names and values of a list of members, in its order.
pub open spec fn member_pairs(members: Seq<(String, JsonValue)>) -> Seq<(Seq<char>, JsonModel)>
    decreases members,
{
    Seq::new(
        members.len(),
        |i: int|
            if 0 <= i < members.len() {
                (members[i].0@, members[i].1.model())
            } else {
                (Seq::empty(), JsonModel::Null)
            },
    )
}

impl View for JsonValue {
    type V = JsonModel;

    open spec fn view(&self) -> JsonModel {
        self.model()
    }
}

impl JsonModel {
    /// Every double in the value is finite, so that JSON text can hold the
    /// value.
    pub open spec fn is_finite(self) -> bool
        decreases self,
    {
        match self {
            JsonModel::Number(NumberModel::Double(bits)) => double_is_finite(bits),
            JsonModel::Array(items) => forall|i: int|
                0 <= i < items.len() ==> (#[trigger] items[i]).is_finite(),
            JsonModel::Object(members) => forall|name: Seq<char>|
                members.dom().contains(name) ==> (#[trigger] members[name]).is_finite(),
            _ => true,
        }
    }
}

} // verus!
