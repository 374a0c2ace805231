//! The typed dynamic value that a management provider puts in each cell of a
//! query result.

use vstd::prelude::*;

verus! {

/// One cell of a query result: a tag and the value that goes with it.
///
/// Floating-point cells hold the IEEE 754 bit pattern of their value. A tag
/// that has no case of its own is `Other`, with a textual rendering of the
/// cell.
#[derive(Debug, PartialEq, Eq)]
pub enum Variant {
    Empty,
    Null,
    String(String),
    I1(i8),
    I2(i16),
    I4(i32),
    I8(i64),
    /// A 32-bit float, as its bit pattern.
    R4(u32),
    /// A 64-bit float, as its bit pattern.
    R8(u64),
    Bool(bool),
    UI1(u8),
    UI2(u16),
    UI4(u32),
    UI8(u64),
    Array(Vec<Variant>),
    /// Any other tag, with the text that stands for the cell.
    Other(String),
}

/// The mathematical value of a [`Variant`].
pub ghost enum VariantModel {
    Empty,
    Null,
    String(Seq<char>),
    I1(i8),
    I2(i16),
    I4(i32),
    I8(i64),
    R4(u32),
    R8(u64),
    Bool(bool),
    UI1(u8),
    UI2(u16),
    UI4(u32),
    UI8(u64),
    Array(Seq<VariantModel>),
    Other(Seq<char>),
}

impl Variant {
    /// The mathematical value of the cell.
    pub open spec fn model(self) -> VariantModel
        decreases self,
    {
        match self {
            Variant::Empty => VariantModel::Empty,
            Variant::Null => VariantModel::Null,
            Variant::String(s) => VariantModel::String(s@),
            Variant::I1(i) => VariantModel::I1(i),
            Variant::I2(i) => VariantModel::I2(i),
            Variant::I4(i) => VariantModel::I4(i),
            Variant::I8(i) => VariantModel::I8(i),
            Variant::R4(bits) => VariantModel::R4(bits),
            Variant::R8(bits) => VariantModel::R8(bits),
            Variant::Bool(b) => VariantModel::Bool(b),
            Variant::UI1(u) => VariantModel::UI1(u),
            Variant::UI2(u) => VariantModel::UI2(u),
            Variant::UI4(u) => VariantModel::UI4(u),
            Variant::UI8(u) => VariantModel::UI8(u),
            Variant::Array(items) => VariantModel::Array(cell_models(items@)),
            Variant::Other(text) => VariantModel::Other(text@),
        }
    }
}

/// The values of a list of cells, in its order.
pub open spec fn cell_models(cells: Seq<Variant>) -> Seq<VariantModel>
    decreases cells,
{
    Seq::new(
        cells.len(),
        |i: int|
            if 0 <= i < cells.len() {
                cells[i].model()
            } else {
                VariantModel::Empty
            },
    )
}

impl View for Variant {
    type V = VariantModel;

    open spec fn view(&self) -> VariantModel {
        self.model()
    }
}

} // verus!
