//! Scalar building blocks of the value tree: the categorical type tag, the
//! symbol identifier, and the integer payload.

use vstd::prelude::*;

verus! {

/// A numeric position within a symbol table.
pub type SymbolId = usize;

/// The categorical type of a value.
///
/// Every value carries exactly one of these tags. A typed null carries the
/// tag of the category it is a null of, so `Null` itself is only the tag of
/// the untyped null.
#[derive(Debug, Clone, Copy, PartialEq, Eq, Structural)]
pub enum IonType {
    Null,
    Integer,
    String,
    Symbol,
    SExpression,
    List,
    Struct,
}

/// An integer payload.
///
/// Integer arithmetic is not this layer's business: the payload is plain data
/// that producers store and consumers read back unchanged. It is an enum so
/// that wider representations can be added without touching consumers.
#[derive(Debug, Clone, Copy, PartialEq, Eq, Structural)]
pub enum AnyInt {
    I64(i64),
}

} // verus!
