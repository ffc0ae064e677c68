//! The capability contracts of the value tree.
//!
//! Each capability is a trait with two layers: `spec` functions that name the
//! observable state an implementation must model, and executable readers
//! whose contracts are stated over that state. Algorithms written against
//! these traits hold for every realization that implements them, whatever
//! its storage strategy.

use vstd::prelude::*;

use crate::types::AnyInt;
use crate::types::IonType;
use crate::types::SymbolId;

verus! {

/// The contents of an optional borrowed string, as an optional sequence of
/// characters.
pub open spec fn opt_text(t: Option<&str>) -> Option<Seq<char>> {
    match t {
        Some(s) => Some(s@),
        None => None,
    }
}

/// The value behind an optional reference, as an optional value.
pub open spec fn copied<T>(r: Option<&T>) -> Option<T> {
    match r {
        Some(t) => Some(*t),
        None => None,
    }
}

/// Where an imported symbol's definition comes from: a named shared symbol
/// table and a numeric position within it. Both readers are total; this
/// layer never resolves the reference.
pub trait ImportSource {
    /// The name of the shared symbol table.
    spec fn spec_table(&self) -> Seq<char>;

    /// The numeric position within that table.
    spec fn spec_sid(&self) -> SymbolId;

    fn table(&self) -> (table: &str)
        ensures
            table@ == self.spec_table(),
    ;

    fn sid(&self) -> (sid: SymbolId)
        ensures
            sid == self.spec_sid(),
    ;
}

/// A symbol identity as three independently optional facets: literal text, a
/// local numeric id, and an import source. A token may carry any subset of
/// the three; one with neither text nor local id is "unresolved", which this
/// layer accepts and leaves to downstream consumers.
pub trait SymbolToken {
    type ImportSource: ImportSource;

    /// The literal text facet, as the characters it holds.
    spec fn spec_text(&self) -> Option<Seq<char>>;

    /// The local symbol id facet.
    spec fn spec_local_sid(&self) -> Option<SymbolId>;

    /// The import source facet.
    spec fn spec_source(&self) -> Option<Self::ImportSource>;

    fn text(&self) -> (text: Option<&str>)
        ensures
            opt_text(text) == self.spec_text(),
    ;

    fn local_sid(&self) -> (local_sid: Option<SymbolId>)
        ensures
            local_sid == self.spec_local_sid(),
    ;

    fn source(&self) -> (source: Option<&Self::ImportSource>)
        ensures
            copied(source) == self.spec_source(),
    ;
}

/// An ordered view over child values, used for both list-like and
/// expression-like containers; which of the two a sequence stands for is
/// decided by the value variant that wraps it. Reading is non-consuming:
/// every reader may be called any number of times.
pub trait Sequence {
    type Element;

    /// The children, in construction order.
    spec fn spec_children(&self) -> Seq<Self::Element>;

    fn len(&self) -> (n: usize)
        ensures
            n == self.spec_children().len(),
    ;

    fn get(&self, index: usize) -> (child: &Self::Element)
        requires
            index < self.spec_children().len(),
        ensures
            *child == self.spec_children()[index as int],
    ;

    fn children(&self) -> (children: &Vec<Self::Element>)
        ensures
            children@ == self.spec_children(),
    ;
}

/// A view over named fields: (symbol token, value) pairs in insertion
/// order, duplicate names permitted. Lookup by name is not part of the
/// contract; a consumer that needs it scans the fields.
pub trait Struct {
    type FieldName;
    type Element;

    /// The fields, in insertion order, duplicates included.
    spec fn spec_fields(&self) -> Seq<(Self::FieldName, Self::Element)>;

    fn len(&self) -> (n: usize)
        ensures
            n == self.spec_fields().len(),
    ;

    fn get(&self, index: usize) -> (field: &(Self::FieldName, Self::Element))
        requires
            index < self.spec_fields().len(),
        ensures
            *field == self.spec_fields()[index as int],
    ;

    fn fields(&self) -> (fields: &Vec<(Self::FieldName, Self::Element)>)
        ensures
            fields@ == self.spec_fields(),
    ;
}

/// The unit consumers operate on: a value with a categorical tag, narrowing
/// readers for each payload kind, and an ordered list of annotation tokens.
/// Every reader is total; absence of a payload is an explicit `None`, never
/// a fault.
pub trait Element {
    type SymbolToken: SymbolToken;
    type Sequence: Sequence;
    type Struct: Struct;

    /// The categorical tag of the value.
    spec fn spec_ion_type(&self) -> IonType;

    /// Whether the value is a null of any category.
    spec fn spec_is_null(&self) -> bool;

    /// The annotation tokens, in attachment order.
    spec fn spec_annotations(&self) -> Seq<Self::SymbolToken>;

    /// The integer payload, when the value is an integer.
    spec fn spec_as_any_int(&self) -> Option<AnyInt>;

    /// The string-like text: the characters of a string value, or the text
    /// facet of a symbol value that carries one.
    spec fn spec_as_str(&self) -> Option<Seq<char>>;

    /// The symbol payload, when the value is a symbol.
    spec fn spec_as_sym(&self) -> Option<Self::SymbolToken>;

    /// The ordered payload, when the value is a list or an expression.
    spec fn spec_as_sequence(&self) -> Option<Self::Sequence>;

    /// The struct payload, when the value is a struct.
    spec fn spec_as_struct(&self) -> Option<Self::Struct>;

    fn ion_type(&self) -> (tag: IonType)
        ensures
            tag == self.spec_ion_type(),
    ;

    fn annotations(&self) -> (annotations: &Vec<Self::SymbolToken>)
        ensures
            annotations@ == self.spec_annotations(),
    ;

    fn is_null(&self) -> (null: bool)
        ensures
            null == self.spec_is_null(),
    ;

    fn as_any_int(&self) -> (int_payload: Option<&AnyInt>)
        ensures
            copied(int_payload) == self.spec_as_any_int(),
    ;

    fn as_str(&self) -> (text: Option<&str>)
        ensures
            opt_text(text) == self.spec_as_str(),
    ;

    fn as_sym(&self) -> (symbol: Option<&Self::SymbolToken>)
        ensures
            copied(symbol) == self.spec_as_sym(),
    ;

    fn as_sequence(&self) -> (sequence: Option<&Self::Sequence>)
        ensures
            copied(sequence) == self.spec_as_sequence(),
    ;

    fn as_struct(&self) -> (structure: Option<&Self::Struct>)
        ensures
            copied(structure) == self.spec_as_struct(),
    ;
}

} // verus!
