use ion_rs::capabilities::Element;
use ion_rs::capabilities::ImportSource;
use ion_rs::capabilities::Sequence;
use ion_rs::capabilities::Struct;
use ion_rs::capabilities::SymbolToken;

use ion_rs::borrowed::BorrowedElement;
use ion_rs::borrowed::BorrowedImportSource;
use ion_rs::borrowed::BorrowedSequence;
use ion_rs::borrowed::BorrowedStruct;
use ion_rs::borrowed::BorrowedSymbolToken;
use ion_rs::borrowed::BorrowedValue;
use ion_rs::AnyInt;
use ion_rs::IonType;

fn int_element(n: i64) -> BorrowedElement<'static> {
    BorrowedElement::from_value(BorrowedValue::Integer(AnyInt::I64(n)))
}

#[test]
fn import_source_accessors() {
    let source = BorrowedImportSource::new("shared.table", 42);
    assert_eq!(source.table(), "shared.table");
    assert_eq!(source.sid(), 42);
}

#[test]
fn symbol_token_facets() {
    let source = BorrowedImportSource::new("shared.table", 3);
    let token = BorrowedSymbolToken::new(Some("name"), Some(10), Some(source));
    assert_eq!(token.text(), Some("name"));
    assert_eq!(token.local_sid(), Some(10));
    let got = token.source().expect("source facet should be present");
    assert_eq!(got.table(), "shared.table");
    assert_eq!(got.sid(), 3);
}

#[test]
fn text_token_is_transient() {
    let token = BorrowedSymbolToken::text_token("transient");
    assert_eq!(token.text(), Some("transient"));
    assert_eq!(token.local_sid(), None);
    assert!(token.source().is_none());
}

#[test]
fn unresolved_token_is_permitted() {
    // A token with neither text nor local id is "unresolved": this layer
    // accepts it as-is and leaves its meaning to downstream consumers.
    let token = BorrowedSymbolToken::new(None, None, None);
    assert_eq!(token.text(), None);
    assert_eq!(token.local_sid(), None);
    assert!(token.source().is_none());
}

#[test]
fn ion_type_matches_every_variant() {
    assert_eq!(int_element(1).ion_type(), IonType::Integer);

    let string = BorrowedElement::from_value(BorrowedValue::String("s"));
    assert_eq!(string.ion_type(), IonType::String);

    let symbol = BorrowedElement::from_value(BorrowedValue::Symbol(
        BorrowedSymbolToken::text_token("sym"),
    ));
    assert_eq!(symbol.ion_type(), IonType::Symbol);

    let sexp = BorrowedElement::from_value(BorrowedValue::SExpression(BorrowedSequence::new(
        Vec::new(),
    )));
    assert_eq!(sexp.ion_type(), IonType::SExpression);

    let list = BorrowedElement::from_value(BorrowedValue::List(BorrowedSequence::new(Vec::new())));
    assert_eq!(list.ion_type(), IonType::List);

    let structure =
        BorrowedElement::from_value(BorrowedValue::Struct(BorrowedStruct::new(Vec::new())));
    assert_eq!(structure.ion_type(), IonType::Struct);

    let null = BorrowedElement::from_value(BorrowedValue::Null(IonType::Null));
    assert_eq!(null.ion_type(), IonType::Null);
}

#[test]
fn is_null_iff_null_variant() {
    let tags = vec![
        IonType::Null,
        IonType::Integer,
        IonType::String,
        IonType::Symbol,
        IonType::SExpression,
        IonType::List,
        IonType::Struct,
    ];
    for tag in tags {
        let null = BorrowedElement::from_value(BorrowedValue::Null(tag));
        assert!(null.is_null());
        assert_eq!(null.ion_type(), tag);
    }
    assert!(!int_element(0).is_null());
    let string = BorrowedElement::from_value(BorrowedValue::String("s"));
    assert!(!string.is_null());
}

#[test]
fn as_str_over_all_variants() {
    let string = BorrowedElement::from_value(BorrowedValue::String("hello"));
    assert_eq!(string.as_str(), Some("hello"));

    let symbol = BorrowedElement::from_value(BorrowedValue::Symbol(
        BorrowedSymbolToken::text_token("hello"),
    ));
    assert_eq!(symbol.as_str(), Some("hello"));

    let textless = BorrowedElement::from_value(BorrowedValue::Symbol(BorrowedSymbolToken::new(
        None,
        Some(4),
        None,
    )));
    assert_eq!(textless.as_str(), None);

    assert_eq!(int_element(3).as_str(), None);
    let null = BorrowedElement::from_value(BorrowedValue::Null(IonType::String));
    assert_eq!(null.as_str(), None);
}

#[test]
fn sequence_keeps_construction_order() {
    let children = vec![int_element(10), int_element(20), int_element(30)];
    let sequence = BorrowedSequence::new(children);
    assert_eq!(sequence.len(), 3);
    assert_eq!(sequence.get(0).as_any_int(), Some(&AnyInt::I64(10)));
    assert_eq!(sequence.get(1).as_any_int(), Some(&AnyInt::I64(20)));
    assert_eq!(sequence.get(2).as_any_int(), Some(&AnyInt::I64(30)));
    // Reading is non-consuming: a second pass sees the same children.
    assert_eq!(sequence.get(0).as_any_int(), Some(&AnyInt::I64(10)));
    assert_eq!(sequence.get(1).as_any_int(), Some(&AnyInt::I64(20)));
    assert_eq!(sequence.get(2).as_any_int(), Some(&AnyInt::I64(30)));
    let all: Vec<Option<&AnyInt>> = sequence.children().iter().map(|c| c.as_any_int()).collect();
    assert_eq!(
        all,
        vec![
            Some(&AnyInt::I64(10)),
            Some(&AnyInt::I64(20)),
            Some(&AnyInt::I64(30)),
        ]
    );
}

#[test]
fn empty_sequence() {
    let sequence = BorrowedSequence::new(Vec::new());
    assert_eq!(sequence.len(), 0);
    assert!(sequence.children().is_empty());
}

#[test]
fn struct_keeps_insertion_order_and_duplicates() {
    let fields = vec![
        (BorrowedSymbolToken::text_token("a"), int_element(1)),
        (BorrowedSymbolToken::text_token("a"), int_element(2)),
    ];
    let structure = BorrowedStruct::new(fields);
    assert_eq!(structure.len(), 2);
    let first = structure.get(0);
    assert_eq!(first.0.text(), Some("a"));
    assert_eq!(first.1.as_any_int(), Some(&AnyInt::I64(1)));
    let second = structure.get(1);
    assert_eq!(second.0.text(), Some("a"));
    assert_eq!(second.1.as_any_int(), Some(&AnyInt::I64(2)));
    for (name, _) in structure.fields().iter() {
        assert_eq!(name.text(), Some("a"));
    }
}

#[test]
fn annotations_in_attachment_order() {
    let annotations = vec![
        BorrowedSymbolToken::text_token("first"),
        BorrowedSymbolToken::text_token("second"),
    ];
    let element = BorrowedElement::new(annotations, BorrowedValue::Integer(AnyInt::I64(7)));
    let texts: Vec<Option<&str>> = element.annotations().iter().map(|t| t.text()).collect();
    assert_eq!(texts, vec![Some("first"), Some("second")]);
}

#[test]
fn no_annotations_when_none_attached() {
    assert!(int_element(7).annotations().is_empty());
    let explicit = BorrowedElement::new(Vec::new(), BorrowedValue::String("s"));
    assert!(explicit.annotations().is_empty());
}

#[test]
fn round_trip_annotated_string() {
    let annotations = vec![
        BorrowedSymbolToken::text_token("tag"),
        BorrowedSymbolToken::new(None, Some(5), None),
    ];
    let element = BorrowedElement::new(annotations, BorrowedValue::String("payload"));
    assert_eq!(element.ion_type(), IonType::String);
    assert!(!element.is_null());
    assert_eq!(element.as_str(), Some("payload"));
    assert_eq!(element.annotations().len(), 2);
    assert_eq!(element.annotations()[0].text(), Some("tag"));
    assert_eq!(element.annotations()[1].local_sid(), Some(5));
    assert_eq!(element.as_any_int(), None);
    assert!(element.as_sym().is_none());
    assert!(element.as_sequence().is_none());
    assert!(element.as_struct().is_none());
}

#[test]
fn round_trip_nested_containers() {
    let inner_fields = vec![(BorrowedSymbolToken::text_token("k"), int_element(9))];
    let inner = BorrowedElement::from_value(BorrowedValue::Struct(BorrowedStruct::new(
        inner_fields,
    )));
    let list = BorrowedElement::from_value(BorrowedValue::List(BorrowedSequence::new(vec![
        inner,
    ])));
    assert_eq!(list.ion_type(), IonType::List);
    let sequence = list.as_sequence().expect("list payload should be present");
    assert_eq!(sequence.len(), 1);
    let child = sequence.get(0);
    assert_eq!(child.ion_type(), IonType::Struct);
    let structure = child.as_struct().expect("struct payload should be present");
    assert_eq!(structure.len(), 1);
    let field = structure.get(0);
    assert_eq!(field.0.text(), Some("k"));
    assert_eq!(field.1.as_any_int(), Some(&AnyInt::I64(9)));
}

#[test]
fn sexpression_reads_as_sequence() {
    let sexp = BorrowedElement::from_value(BorrowedValue::SExpression(BorrowedSequence::new(
        vec![int_element(1), int_element(2)],
    )));
    assert_eq!(sexp.ion_type(), IonType::SExpression);
    let sequence = sexp.as_sequence().expect("expression payload should be present");
    assert_eq!(sequence.len(), 2);
}

#[test]
fn clone_preserves_content() {
    let fields = vec![(BorrowedSymbolToken::text_token("k"), int_element(9))];
    let annotations = vec![BorrowedSymbolToken::text_token("tag")];
    let element = BorrowedElement::new(
        annotations,
        BorrowedValue::Struct(BorrowedStruct::new(fields)),
    );
    let copy = element.clone();
    assert_eq!(copy.ion_type(), IonType::Struct);
    assert_eq!(copy.annotations().len(), 1);
    assert_eq!(copy.annotations()[0].text(), Some("tag"));
    let structure = copy.as_struct().expect("struct payload should be present");
    assert_eq!(structure.len(), 1);
    assert_eq!(structure.get(0).0.text(), Some("k"));
    assert_eq!(structure.get(0).1.as_any_int(), Some(&AnyInt::I64(9)));
    // The original is left untouched.
    assert_eq!(element.ion_type(), IonType::Struct);
    assert!(element.as_struct().is_some());
}

#[test]
fn scenario_integer_five() {
    let element = int_element(5);
    assert_eq!(element.ion_type(), IonType::Integer);
    assert!(!element.is_null());
    assert_eq!(element.as_any_int(), Some(&AnyInt::I64(5)));
    assert_eq!(element.as_str(), None);
}

#[test]
fn scenario_symbol_foo() {
    let element = BorrowedElement::from_value(BorrowedValue::Symbol(
        BorrowedSymbolToken::text_token("foo"),
    ));
    assert_eq!(element.as_str(), Some("foo"));
    let token = element.as_sym().expect("symbol payload should be present");
    assert_eq!(token.text(), Some("foo"));
}

#[test]
fn scenario_duplicate_struct_fields() {
    let fields = vec![
        (BorrowedSymbolToken::text_token("a"), int_element(1)),
        (BorrowedSymbolToken::text_token("a"), int_element(2)),
    ];
    let element = BorrowedElement::from_value(BorrowedValue::Struct(BorrowedStruct::new(fields)));
    let structure = element.as_struct().expect("struct payload should be present");
    assert_eq!(structure.len(), 2);
    assert_eq!(structure.get(0).1.as_any_int(), Some(&AnyInt::I64(1)));
    assert_eq!(structure.get(1).1.as_any_int(), Some(&AnyInt::I64(2)));
}

#[test]
fn scenario_typed_null_string() {
    let element = BorrowedElement::from_value(BorrowedValue::Null(IonType::String));
    assert!(element.is_null());
    assert_eq!(element.ion_type(), IonType::String);
    assert_eq!(element.as_str(), None);
}
