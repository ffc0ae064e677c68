//! The borrowed realization of the value tree.
//!
//! Every type here references text through `&str` borrows into an
//! externally-owned buffer and owns only its structural containers, so a
//! tree is usable exactly as long as the buffer it points into. Each type
//! implements its capability trait; the constructors state exactly how the
//! observable state named by those traits is formed from their arguments.
//! Beside the per-reader contracts, every type also has a whole-content
//! view (`deep`) used to state facts about entire trees, such as what
//! `clone` preserves.

use vstd::prelude::*;

use crate::capabilities::copied;
use crate::capabilities::opt_text;
use crate::capabilities::Element;
use crate::capabilities::ImportSource;
use crate::capabilities::Sequence;
use crate::capabilities::Struct;
use crate::capabilities::SymbolToken;
use crate::types::AnyInt;
use crate::types::IonType;
use crate::types::SymbolId;

verus! {

/// The mathematical content of an import source: a table name and a
/// position.
#[verifier::ext_equal]
pub struct SourceView {
    pub table: Seq<char>,
    pub sid: SymbolId,
}

/// The mathematical content of a symbol token: its three optional facets.
#[verifier::ext_equal]
pub struct TokenView {
    pub text: Option<Seq<char>>,
    pub local_sid: Option<SymbolId>,
    pub source: Option<SourceView>,
}

/// The mathematical content of a value: the same variants, with every text
/// payload as a character sequence and every container as a sequence of the
/// contents of its entries.
#[verifier::ext_equal]
pub enum ValueView {
    Null(IonType),
    Integer(AnyInt),
    String(Seq<char>),
    Symbol(TokenView),
    SExpression(Seq<ElementView>),
    List(Seq<ElementView>),
    Struct(Seq<(TokenView, ElementView)>),
}

/// The mathematical content of an element: its annotations and its value.
#[verifier::ext_equal]
pub struct ElementView {
    pub annotations: Seq<TokenView>,
    pub value: ValueView,
}

/// An import source: the name of a shared symbol table together with a
/// position inside it. Purely descriptive; this layer never resolves it.
#[derive(Debug, Clone, Copy)]
pub struct BorrowedImportSource<'val> {
    table: &'val str,
    sid: SymbolId,
}

impl<'val> BorrowedImportSource<'val> {
    pub fn new(table: &'val str, sid: SymbolId) -> (source: Self)
        ensures
            source.spec_table() == table@,
            source.spec_sid() == sid,
    {
        Self { table, sid }
    }
}

impl<'val> ImportSource for BorrowedImportSource<'val> {
    closed spec fn spec_table(&self) -> Seq<char> {
        self.table@
    }

    closed spec fn spec_sid(&self) -> SymbolId {
        self.sid
    }

    fn table(&self) -> (table: &str) {
        self.table
    }

    fn sid(&self) -> (sid: SymbolId) {
        self.sid
    }
}

/// A symbol identity as three independently optional facets: literal text, a
/// local numeric id, and an import source.
///
/// A token with neither text nor local id is "unresolved". This layer
/// neither resolves nor rejects such a token; deciding what it means is left
/// to downstream symbol-table resolution.
#[derive(Debug, Clone, Copy)]
pub struct BorrowedSymbolToken<'val> {
    text: Option<&'val str>,
    local_sid: Option<SymbolId>,
    source: Option<BorrowedImportSource<'val>>,
}

impl<'val> BorrowedSymbolToken<'val> {
    pub fn new(
        text: Option<&'val str>,
        local_sid: Option<SymbolId>,
        source: Option<BorrowedImportSource<'val>>,
    ) -> (token: Self)
        ensures
            token.spec_text() == opt_text(text),
            token.spec_local_sid() == local_sid,
            token.spec_source() == source,
    {
        Self { text, local_sid, source }
    }

    /// A transient symbol: a token built from literal text alone, with no
    /// local id and no import source.
    pub fn text_token(text: &'val str) -> (token: Self)
        ensures
            token.spec_text() == Some(text@),
            token.spec_local_sid() is None,
            token.spec_source() is None,
    {
        Self::new(Some(text), None, None)
    }
}

impl<'val> SymbolToken for BorrowedSymbolToken<'val> {
    type ImportSource = BorrowedImportSource<'val>;

    closed spec fn spec_text(&self) -> Option<Seq<char>> {
        opt_text(self.text)
    }

    closed spec fn spec_local_sid(&self) -> Option<SymbolId> {
        self.local_sid
    }

    closed spec fn spec_source(&self) -> Option<BorrowedImportSource<'val>> {
        self.source
    }

    fn text(&self) -> (text: Option<&str>) {
        self.text
    }

    fn local_sid(&self) -> (local_sid: Option<SymbolId>) {
        self.local_sid
    }

    fn source(&self) -> (source: Option<&BorrowedImportSource<'val>>) {
        match &self.source {
            Some(s) => Some(s),
            None => None,
        }
    }
}

/// An ordered container of child elements, backing both the list-like and
/// the expression-like value variants. Which of the two a sequence stands
/// for is decided one level up, by the value variant that wraps it.
#[derive(Debug)]
pub struct BorrowedSequence<'val> {
    children: Vec<BorrowedElement<'val>>,
}

/// An ordered container of (field name, field value) pairs.
///
/// Iteration order is exactly insertion order, and duplicate field names are
/// kept as they were given. Lookup by name is not offered here; a consumer
/// that needs it scans the fields.
#[derive(Debug)]
pub struct BorrowedStruct<'val> {
    fields: Vec<(BorrowedSymbolToken<'val>, BorrowedElement<'val>)>,
}

/// The payload of an element: exactly one variant is active at a time.
///
/// A null is typed: it embeds the tag of the category it is a null of.
#[derive(Debug)]
pub enum BorrowedValue<'val> {
    Null(IonType),
    Integer(AnyInt),
    String(&'val str),
    Symbol(BorrowedSymbolToken<'val>),
    SExpression(BorrowedSequence<'val>),
    List(BorrowedSequence<'val>),
    Struct(BorrowedStruct<'val>),
}

/// The unit consumers operate on: a value together with an ordered list of
/// annotation tokens.
#[derive(Debug)]
pub struct BorrowedElement<'val> {
    annotations: Vec<BorrowedSymbolToken<'val>>,
    value: BorrowedValue<'val>,
}

impl<'val> BorrowedSequence<'val> {
    pub fn new(children: Vec<BorrowedElement<'val>>) -> (sequence: Self)
        ensures
            sequence.spec_children() == children@,
    {
        Self { children }
    }
}

impl<'val> Sequence for BorrowedSequence<'val> {
    type Element = BorrowedElement<'val>;

    closed spec fn spec_children(&self) -> Seq<BorrowedElement<'val>> {
        self.children@
    }

    fn len(&self) -> (n: usize) {
        self.children.len()
    }

    fn get(&self, index: usize) -> (child: &BorrowedElement<'val>) {
        &self.children[index]
    }

    fn children(&self) -> (children: &Vec<BorrowedElement<'val>>) {
        &self.children
    }
}

impl<'val> BorrowedStruct<'val> {
    pub fn new(fields: Vec<(BorrowedSymbolToken<'val>, BorrowedElement<'val>)>) -> (structure:
        Self)
        ensures
            structure.spec_fields() == fields@,
    {
        Self { fields }
    }
}

impl<'val> Struct for BorrowedStruct<'val> {
    type FieldName = BorrowedSymbolToken<'val>;
    type Element = BorrowedElement<'val>;

    closed spec fn spec_fields(&self) -> Seq<
        (BorrowedSymbolToken<'val>, BorrowedElement<'val>),
    > {
        self.fields@
    }

    fn len(&self) -> (n: usize) {
        self.fields.len()
    }

    fn get(&self, index: usize) -> (field: &(
        BorrowedSymbolToken<'val>,
        BorrowedElement<'val>,
    )) {
        &self.fields[index]
    }

    fn fields(&self) -> (fields: &Vec<(BorrowedSymbolToken<'val>, BorrowedElement<'val>)>) {
        &self.fields
    }
}

impl<'val> BorrowedValue<'val> {
    /// The categorical tag of this value. For a typed null the tag is the
    /// one embedded in the variant; every other variant maps to the tag of
    /// its own category.
    pub open spec fn spec_ion_type(&self) -> IonType {
        match *self {
            BorrowedValue::Null(t) => t,
            BorrowedValue::Integer(_) => IonType::Integer,
            BorrowedValue::String(_) => IonType::String,
            BorrowedValue::Symbol(_) => IonType::Symbol,
            BorrowedValue::SExpression(_) => IonType::SExpression,
            BorrowedValue::List(_) => IonType::List,
            BorrowedValue::Struct(_) => IonType::Struct,
        }
    }

    /// Whether this value is a null of any category.
    pub open spec fn spec_is_null(&self) -> bool {
        *self is Null
    }

    /// The integer payload, when this value is an integer.
    pub open spec fn spec_as_any_int(&self) -> Option<AnyInt> {
        match *self {
            BorrowedValue::Integer(i) => Some(i),
            _ => None,
        }
    }

    /// The string-like text of this value: the characters of a string, or
    /// the text facet of a symbol that carries one.
    pub open spec fn spec_as_str(&self) -> Option<Seq<char>> {
        match *self {
            BorrowedValue::String(s) => Some(s@),
            BorrowedValue::Symbol(sym) => sym.spec_text(),
            _ => None,
        }
    }

    /// The symbol payload, when this value is a symbol.
    pub open spec fn spec_as_sym(&self) -> Option<BorrowedSymbolToken<'val>> {
        match *self {
            BorrowedValue::Symbol(sym) => Some(sym),
            _ => None,
        }
    }

    /// The ordered payload, when this value is a list or an expression.
    pub open spec fn spec_as_sequence(&self) -> Option<BorrowedSequence<'val>> {
        match *self {
            BorrowedValue::SExpression(seq) => Some(seq),
            BorrowedValue::List(seq) => Some(seq),
            _ => None,
        }
    }

    /// The struct payload, when this value is a struct.
    pub open spec fn spec_as_struct(&self) -> Option<BorrowedStruct<'val>> {
        match *self {
            BorrowedValue::Struct(structure) => Some(structure),
            _ => None,
        }
    }
}

impl<'val> BorrowedElement<'val> {
    /// The payload value.
    pub closed spec fn spec_value(&self) -> BorrowedValue<'val> {
        self.value
    }

    /// Builds an element from a fully-formed value and its annotations.
    /// Construction is total: no validation happens at this layer.
    pub fn new(annotations: Vec<BorrowedSymbolToken<'val>>, value: BorrowedValue<'val>) -> (
        element: Self)
        ensures
            element.spec_annotations() == annotations@,
            element.spec_value() == value,
    {
        Self { annotations, value }
    }

    /// An element with no annotations at all.
    pub fn from_value(value: BorrowedValue<'val>) -> (element: Self)
        ensures
            element.spec_annotations() == Seq::<BorrowedSymbolToken<'val>>::empty(),
            element.spec_value() == value,
    {
        Self::new(Vec::new(), value)
    }
}

impl<'val> Element for BorrowedElement<'val> {
    type SymbolToken = BorrowedSymbolToken<'val>;
    type Sequence = BorrowedSequence<'val>;
    type Struct = BorrowedStruct<'val>;

    open spec fn spec_ion_type(&self) -> IonType {
        self.spec_value().spec_ion_type()
    }

    open spec fn spec_is_null(&self) -> bool {
        self.spec_value().spec_is_null()
    }

    closed spec fn spec_annotations(&self) -> Seq<BorrowedSymbolToken<'val>> {
        self.annotations@
    }

    open spec fn spec_as_any_int(&self) -> Option<AnyInt> {
        self.spec_value().spec_as_any_int()
    }

    open spec fn spec_as_str(&self) -> Option<Seq<char>> {
        self.spec_value().spec_as_str()
    }

    open spec fn spec_as_sym(&self) -> Option<BorrowedSymbolToken<'val>> {
        self.spec_value().spec_as_sym()
    }

    open spec fn spec_as_sequence(&self) -> Option<BorrowedSequence<'val>> {
        self.spec_value().spec_as_sequence()
    }

    open spec fn spec_as_struct(&self) -> Option<BorrowedStruct<'val>> {
        self.spec_value().spec_as_struct()
    }

    fn ion_type(&self) -> (tag: IonType) {
        match &self.value {
            BorrowedValue::Null(t) => *t,
            BorrowedValue::Integer(_) => IonType::Integer,
            BorrowedValue::String(_) => IonType::String,
            BorrowedValue::Symbol(_) => IonType::Symbol,
            BorrowedValue::SExpression(_) => IonType::SExpression,
            BorrowedValue::List(_) => IonType::List,
            BorrowedValue::Struct(_) => IonType::Struct,
        }
    }

    fn annotations(&self) -> (annotations: &Vec<BorrowedSymbolToken<'val>>) {
        &self.annotations
    }

    fn is_null(&self) -> (null: bool) {
        match &self.value {
            BorrowedValue::Null(_) => true,
            _ => false,
        }
    }

    fn as_any_int(&self) -> (int_payload: Option<&AnyInt>) {
        match &self.value {
            BorrowedValue::Integer(i) => Some(i),
            _ => None,
        }
    }

    fn as_str(&self) -> (text: Option<&str>) {
        match &self.value {
            BorrowedValue::String(text) => Some(*text),
            BorrowedValue::Symbol(sym) => sym.text(),
            _ => None,
        }
    }

    fn as_sym(&self) -> (symbol: Option<&BorrowedSymbolToken<'val>>) {
        match &self.value {
            BorrowedValue::Symbol(sym) => Some(sym),
            _ => None,
        }
    }

    fn as_sequence(&self) -> (sequence: Option<&BorrowedSequence<'val>>) {
        match &self.value {
            BorrowedValue::SExpression(seq) => Some(seq),
            BorrowedValue::List(seq) => Some(seq),
            _ => None,
        }
    }

    fn as_struct(&self) -> (structure: Option<&BorrowedStruct<'val>>) {
        match &self.value {
            BorrowedValue::Struct(structure) => Some(structure),
            _ => None,
        }
    }
}

impl<'val> BorrowedImportSource<'val> {
    /// The whole content of this source as a mathematical value.
    pub closed spec fn deep(&self) -> SourceView {
        SourceView { table: self.table@, sid: self.sid }
    }
}

impl<'val> BorrowedSymbolToken<'val> {
    /// The whole content of this token as a mathematical value.
    pub closed spec fn deep(&self) -> TokenView {
        TokenView {
            text: opt_text(self.text),
            local_sid: self.local_sid,
            source: match self.source {
                Some(s) => Some(s.deep()),
                None => None,
            },
        }
    }
}

/// The contents of a run of child elements, kept in order.
pub closed spec fn elements_view<'val>(children: Seq<BorrowedElement<'val>>) -> Seq<ElementView>
    decreases children,
{
    if children.len() == 0 {
        Seq::empty()
    } else {
        proof {
            assert(decreases_to!(children => children[0]));
            assert(decreases_to!(children => children.subrange(1, children.len() as int)));
        }
        seq![children[0].deep()] + elements_view(children.subrange(1, children.len() as int))
    }
}

/// The content of a run of child elements, entry by entry: it is exactly as
/// long as the run, and its entries are the contents of the children, in
/// order.
pub proof fn lemma_elements_view<'val>(children: Seq<BorrowedElement<'val>>)
    ensures
        elements_view(children).len() == children.len(),
        forall|i: int|
            0 <= i < children.len() ==> #[trigger] elements_view(children)[i]
                == children[i].deep(),
    decreases children.len(),
{
    if children.len() > 0 {
        let rest = children.subrange(1, children.len() as int);
        lemma_elements_view(rest);
        assert forall|i: int|
            0 <= i < children.len() implies #[trigger] elements_view(children)[i]
            == children[i].deep() by {
            if i > 0 {
                assert(rest[i - 1] == children[i]);
            }
        }
    }
}

impl<'val> BorrowedSequence<'val> {
    /// The whole content of this sequence as a mathematical value: the
    /// contents of the children, in construction order.
    pub closed spec fn deep(&self) -> Seq<ElementView>
        decreases self,
    {
        proof {
            assert(decreases_to!(*self => self.children));
            assert(decreases_to!(self.children => self.children@));
        }
        elements_view(self.children@)
    }
}

/// The content of one struct field: the contents of its name and its value.
pub closed spec fn field_view<'val>(
    field: (BorrowedSymbolToken<'val>, BorrowedElement<'val>),
) -> (TokenView, ElementView)
    decreases field,
{
    proof {
        assert(decreases_to!(field => field.1));
    }
    (field.0.deep(), field.1.deep())
}

/// The contents of a run of struct fields, kept in order.
pub closed spec fn fields_view<'val>(
    fields: Seq<(BorrowedSymbolToken<'val>, BorrowedElement<'val>)>,
) -> Seq<(TokenView, ElementView)>
    decreases fields,
{
    if fields.len() == 0 {
        Seq::empty()
    } else {
        proof {
            assert(decreases_to!(fields => fields[0]));
            assert(decreases_to!(fields => fields.subrange(1, fields.len() as int)));
        }
        seq![field_view(fields[0])] + fields_view(fields.subrange(1, fields.len() as int))
    }
}

/// The content of a run of struct fields, entry by entry: it is exactly as
/// long as the run, and its entries are the contents of the fields, in
/// order.
pub proof fn lemma_fields_view<'val>(
    fields: Seq<(BorrowedSymbolToken<'val>, BorrowedElement<'val>)>,
)
    ensures
        fields_view(fields).len() == fields.len(),
        forall|i: int|
            0 <= i < fields.len() ==> #[trigger] fields_view(fields)[i]
                == field_view(fields[i]),
    decreases fields.len(),
{
    if fields.len() > 0 {
        let rest = fields.subrange(1, fields.len() as int);
        lemma_fields_view(rest);
        assert forall|i: int|
            0 <= i < fields.len() implies #[trigger] fields_view(fields)[i]
            == field_view(fields[i]) by {
            if i > 0 {
                assert(rest[i - 1] == fields[i]);
            }
        }
    }
}

impl<'val> BorrowedStruct<'val> {
    /// The whole content of this struct as a mathematical value: the
    /// contents of the fields, in insertion order, duplicates included.
    pub closed spec fn deep(&self) -> Seq<(TokenView, ElementView)>
        decreases self,
    {
        proof {
            assert(decreases_to!(*self => self.fields));
            assert(decreases_to!(self.fields => self.fields@));
        }
        fields_view(self.fields@)
    }
}

impl<'val> BorrowedValue<'val> {
    /// The whole content of this value as a mathematical value.
    pub closed spec fn deep(&self) -> ValueView
        decreases self,
    {
        match *self {
            BorrowedValue::Null(t) => ValueView::Null(t),
            BorrowedValue::Integer(i) => ValueView::Integer(i),
            BorrowedValue::String(s) => ValueView::String(s@),
            BorrowedValue::Symbol(sym) => ValueView::Symbol(sym.deep()),
            BorrowedValue::SExpression(seq) => ValueView::SExpression(seq.deep()),
            BorrowedValue::List(seq) => ValueView::List(seq.deep()),
            BorrowedValue::Struct(structure) => ValueView::Struct(structure.deep()),
        }
    }
}

impl<'val> BorrowedElement<'val> {
    /// The whole content of this element as a mathematical value.
    pub closed spec fn deep(&self) -> ElementView
        decreases self,
    {
        ElementView {
            annotations: Seq::new(
                self.annotations@.len(),
                |i: int| self.annotations@[i].deep(),
            ),
            value: self.value.deep(),
        }
    }
}

/// The whole content of an import source is its table name and position.
pub proof fn lemma_source_deep<'val>(source: BorrowedImportSource<'val>)
    ensures
        source.deep() == (SourceView { table: source.spec_table(), sid: source.spec_sid() }),
{
}

/// The whole content of a token is its three facets.
pub proof fn lemma_token_deep<'val>(token: BorrowedSymbolToken<'val>)
    ensures
        token.deep().text == token.spec_text(),
        token.deep().local_sid == token.spec_local_sid(),
        token.spec_source() matches Some(s) ==> token.deep().source == Some(s.deep()),
        token.spec_source() is None ==> token.deep().source is None,
{
}

/// The whole content of a value follows its active variant.
pub proof fn lemma_value_deep<'val>(value: BorrowedValue<'val>)
    ensures
        value matches BorrowedValue::Null(t) ==> value.deep() == ValueView::Null(t),
        value matches BorrowedValue::Integer(i) ==> value.deep() == ValueView::Integer(i),
        value matches BorrowedValue::String(s) ==> value.deep() == ValueView::String(s@),
        value matches BorrowedValue::Symbol(sym) ==> value.deep() == ValueView::Symbol(sym.deep()),
        value matches BorrowedValue::SExpression(seq) ==> value.deep()
            == ValueView::SExpression(seq.deep()),
        value matches BorrowedValue::List(seq) ==> value.deep() == ValueView::List(seq.deep()),
        value matches BorrowedValue::Struct(structure) ==> value.deep()
            == ValueView::Struct(structure.deep()),
{
}

/// The whole content of a sequence lines up with its children, index by
/// index.
pub proof fn lemma_sequence_deep<'val>(sequence: BorrowedSequence<'val>)
    ensures
        sequence.deep().len() == sequence.spec_children().len(),
        forall|i: int|
            0 <= i < sequence.spec_children().len() ==> #[trigger] sequence.deep()[i]
                == sequence.spec_children()[i].deep(),
{
    lemma_elements_view(sequence.spec_children());
}

/// The whole content of a struct lines up with its fields, index by index.
pub proof fn lemma_struct_deep<'val>(structure: BorrowedStruct<'val>)
    ensures
        structure.deep().len() == structure.spec_fields().len(),
        forall|i: int|
            0 <= i < structure.spec_fields().len() ==> #[trigger] structure.deep()[i] == (
            structure.spec_fields()[i].0.deep(),
            structure.spec_fields()[i].1.deep(),
            ),
{
    lemma_fields_view(structure.spec_fields());
}

/// The whole content of an element lines up with its annotations and its
/// value.
pub proof fn lemma_element_deep<'val>(element: BorrowedElement<'val>)
    ensures
        element.deep().annotations.len() == element.spec_annotations().len(),
        forall|i: int|
            0 <= i < element.spec_annotations().len() ==> #[trigger] element.deep().annotations[i]
                == element.spec_annotations()[i].deep(),
        element.deep().value == element.spec_value().deep(),
{
}

impl<'val> Clone for BorrowedSequence<'val> {
    /// A deep copy: the clone has the same content as the original, children
    /// included.
    fn clone(&self) -> (res: Self)
        ensures
            res.deep() == self.deep(),
        decreases self,
    {
        let mut children: Vec<BorrowedElement<'val>> = Vec::new();
        let mut i: usize = 0;
        while i < self.children.len()
            invariant
                i <= self.children.len(),
                children@.len() == i as int,
                forall|j: int|
                    0 <= j < i as int ==> #[trigger] children@[j].deep()
                        == self.children@[j].deep(),
            decreases self.children@.len() - i,
        {
            proof {
                assert(decreases_to!(*self => self.children));
                assert(decreases_to!(self.children => self.children[i as int]));
            }
            let child = self.children[i].clone();
            children.push(child);
            i = i + 1;
        }
        let res = BorrowedSequence { children };
        proof {
            lemma_elements_view(children@);
            lemma_elements_view(self.children@);
            assert(res.deep() =~= self.deep());
        }
        res
    }
}

impl<'val> Clone for BorrowedStruct<'val> {
    /// A deep copy: the clone has the same content as the original, fields
    /// included.
    fn clone(&self) -> (res: Self)
        ensures
            res.deep() == self.deep(),
        decreases self,
    {
        let mut fields: Vec<(BorrowedSymbolToken<'val>, BorrowedElement<'val>)> = Vec::new();
        let mut i: usize = 0;
        while i < self.fields.len()
            invariant
                i <= self.fields.len(),
                fields@.len() == i as int,
                forall|j: int|
                    0 <= j < i as int ==> #[trigger] field_view(fields@[j])
                        == field_view(self.fields@[j]),
            decreases self.fields@.len() - i,
        {
            proof {
                assert(decreases_to!(*self => self.fields));
                assert(decreases_to!(self.fields => self.fields[i as int]));
                assert(decreases_to!(self.fields[i as int] => self.fields[i as int].1));
            }
            let name = self.fields[i].0;
            let value = self.fields[i].1.clone();
            fields.push((name, value));
            i = i + 1;
        }
        let res = BorrowedStruct { fields };
        proof {
            lemma_fields_view(fields@);
            lemma_fields_view(self.fields@);
            assert(res.deep() =~= self.deep());
        }
        res
    }
}

impl<'val> Clone for BorrowedValue<'val> {
    /// A deep copy: the clone has the same content as the original, payload
    /// included.
    fn clone(&self) -> (res: Self)
        ensures
            res.deep() == self.deep(),
        decreases self,
    {
        match self {
            BorrowedValue::Null(t) => BorrowedValue::Null(*t),
            BorrowedValue::Integer(i) => BorrowedValue::Integer(*i),
            BorrowedValue::String(s) => BorrowedValue::String(*s),
            BorrowedValue::Symbol(sym) => BorrowedValue::Symbol(*sym),
            BorrowedValue::SExpression(seq) => BorrowedValue::SExpression(seq.clone()),
            BorrowedValue::List(seq) => BorrowedValue::List(seq.clone()),
            BorrowedValue::Struct(structure) => BorrowedValue::Struct(structure.clone()),
        }
    }
}

impl<'val> Clone for BorrowedElement<'val> {
    /// A deep copy: the clone has the same content as the original,
    /// annotations and value included.
    fn clone(&self) -> (res: Self)
        ensures
            res.deep() == self.deep(),
        decreases self,
    {
        let mut annotations: Vec<BorrowedSymbolToken<'val>> = Vec::new();
        let mut i: usize = 0;
        while i < self.annotations.len()
            invariant
                i <= self.annotations.len(),
                annotations@ == self.annotations@.subrange(0, i as int),
            decreases self.annotations@.len() - i,
        {
            annotations.push(self.annotations[i]);
            proof {
                assert(annotations@ =~= self.annotations@.subrange(0, i as int + 1));
            }
            i = i + 1;
        }
        let value = self.value.clone();
        let res = BorrowedElement { annotations, value };
        proof {
            assert(res.deep().annotations =~= self.deep().annotations);
            assert(res.deep() =~= self.deep());
        }
        res
    }
}

/// For every value, the categorical tag is determined by the active variant:
/// a typed null reports its embedded tag, and every other variant reports
/// the tag of its own category.
pub proof fn lemma_ion_type_matches_variant<'val>(value: BorrowedValue<'val>)
    ensures
        value matches BorrowedValue::Null(t) ==> value.spec_ion_type() == t,
        value is Integer ==> value.spec_ion_type() == IonType::Integer,
        value is String ==> value.spec_ion_type() == IonType::String,
        value is Symbol ==> value.spec_ion_type() == IonType::Symbol,
        value is SExpression ==> value.spec_ion_type() == IonType::SExpression,
        value is List ==> value.spec_ion_type() == IonType::List,
        value is Struct ==> value.spec_ion_type() == IonType::Struct,
{
}

/// A value is null exactly when its active variant is the null variant,
/// whatever tag that variant embeds.
pub proof fn lemma_is_null_iff_null_variant<'val>(value: BorrowedValue<'val>)
    ensures
        value.spec_is_null() <==> value is Null,
        forall|tag: IonType| BorrowedValue::Null(tag).spec_is_null(),
{
}

/// String-like access is exhaustive over the variants: a string gives its
/// own characters, a symbol gives its text facet (absent when the symbol
/// carries none), and every other variant gives nothing.
pub proof fn lemma_as_str_by_variant<'val>(value: BorrowedValue<'val>)
    ensures
        value matches BorrowedValue::String(s) ==> value.spec_as_str() == Some(s@),
        value matches BorrowedValue::Symbol(sym) ==> value.spec_as_str() == sym.spec_text(),
        value !is String && value !is Symbol ==> value.spec_as_str() is None,
{
}

/// Round trip: an element reports the tag of the value it was built from,
/// and the accessor matching that value's variant gives back exactly the
/// original payload. The annotation list is kept verbatim by `new` and
/// handed back whole by `annotations`, so the element reproduces all of its
/// construction inputs.
pub proof fn lemma_element_round_trip<'val>(
    element: BorrowedElement<'val>,
    value: BorrowedValue<'val>,
)
    requires
        element.spec_value() == value,
    ensures
        element.spec_value().spec_ion_type() == value.spec_ion_type(),
        value matches BorrowedValue::Null(t) ==> element.spec_value().spec_ion_type() == t
            && element.spec_value().spec_is_null(),
        value matches BorrowedValue::Integer(i) ==> element.spec_value().spec_as_any_int()
            == Some(i),
        value matches BorrowedValue::String(s) ==> element.spec_value().spec_as_str() == Some(s@),
        value matches BorrowedValue::Symbol(sym) ==> element.spec_value().spec_as_sym()
            == Some(sym),
        value matches BorrowedValue::SExpression(seq) ==> element.spec_value().spec_as_sequence()
            == Some(seq),
        value matches BorrowedValue::List(seq) ==> element.spec_value().spec_as_sequence()
            == Some(seq),
        value matches BorrowedValue::Struct(structure) ==> element.spec_value().spec_as_struct()
            == Some(structure),
{
}

} // verus!
