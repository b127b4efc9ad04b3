//! What expressions ask of the engine, and the replies gathered so far.
//!
//! Typing, displaying and identifying an expression rests in places on what only the engine can
//! compute: how two data types combine, how a literal is written, what a function returns. The
//! functions of this crate that need such facts take the `Replies` known so far. Where a fact
//! is missing they stop with `Halt::Ask` and the question; the caller puts the question to the
//! engine, records the reply and calls again.
use vstd::prelude::*;
use vstd::string::*;

use crate::datatypes::{CountMode, DataType, DataTypeView, Field, FieldView, SchemaView};
use crate::error::{DaftError, DaftErrorView};
use crate::expr::{
    refs_view, same_refs, Expr, ExprRef, ExprView, ScalarFunctionView,
};
use crate::functions::{FunctionExpr, FunctionExprView, ScalarFunction};
use crate::lit::{same_floats, FloatWrapper, LiteralValue, LiteralView};
use crate::schema::Schema;
use crate::text::{clone_bytes, clone_strings, strings_view};

verus! {

/// Questions that a truth value answers.
#[derive(Debug)]
pub enum FlagQuery {
    /// Is the type numeric?
    IsNumeric(DataType),
    /// Does the expression compute anything on the underlying data?
    RequiresComputation(ExprRef),
}

/// Questions that a text answers.
#[derive(Debug)]
pub enum TextQuery {
    /// The type as displayed.
    DataType(DataType),
    /// The field as displayed.
    Field(Field),
    /// The count mode as displayed.
    CountMode(CountMode),
    /// The list of percentiles in debug form.
    Percentiles(Vec<FloatWrapper>),
    /// The literal in debug form.
    LiteralDebug(LiteralValue),
    /// The literal as displayed.
    Literal(LiteralValue),
    /// The identifier of a function call on the given arguments over the given schema.
    FunctionId(FunctionExpr, Vec<ExprRef>, Schema),
    /// The function call as displayed.
    Function(FunctionExpr, Vec<ExprRef>),
    /// The identifier of a scalar function call over the given schema.
    ScalarFunctionId(ScalarFunction, Schema),
    /// The scalar function call as displayed.
    ScalarFunction(ScalarFunction),
}

/// Questions that a data type answers.
#[derive(Debug)]
pub enum TypeQuery {
    /// The type of the literal.
    Literal(LiteralValue),
    /// The type of a quantile sketch.
    DDSketch,
    /// The type of a cardinality sketch.
    HyperLogLog,
}

/// Rules that find a type for one type.
#[derive(Debug, Clone, Copy, PartialEq, Eq, Structural)]
pub enum UnaryRule {
    /// The type of a sum.
    Sum,
    /// The type of a mean.
    Mean,
}

/// Rules that find a type for two types.
#[derive(Debug, Clone, Copy, PartialEq, Eq, Structural)]
pub enum BinaryRule {
    /// The type to which both can be cast.
    Supertype,
    /// The type of a membership test.
    Membership,
    /// The type of a logical operation.
    Logical,
    /// The type of a comparison.
    Comparison,
    Plus,
    Minus,
    Multiply,
    TrueDivide,
    Modulus,
    ShiftLeft,
    ShiftRight,
}

/// Questions that a data type or an error answers.
#[derive(Debug)]
pub enum RuleQuery {
    Unary(UnaryRule, DataType),
    Binary(BinaryRule, DataType, DataType),
}

/// Questions that a field or an error answers.
#[derive(Debug)]
pub enum FieldQuery {
    /// The field of lists of what the given field holds.
    ToList(Field),
    /// The field that a function call yields over the given schema.
    Function(FunctionExpr, Vec<ExprRef>, Schema),
    /// The field that a scalar function call yields over the given schema.
    ScalarFunction(ScalarFunction, Schema),
}

/// Questions that an error answers.
#[derive(Debug)]
pub enum ErrorQuery {
    /// The error for a reference to a column that the schema does not have.
    MissingColumn(String, Schema),
}

/// A question to the engine.
#[derive(Debug)]
pub enum Query {
    Flag(FlagQuery),
    Text(TextQuery),
    Type(TypeQuery),
    Rule(RuleQuery),
    Field(FieldQuery),
    Error(ErrorQuery),
    /// The literal as SQL bytes; none where it cannot be written.
    Sql(LiteralValue),
    /// The columns that an expression reads.
    Columns(ExprRef),
}

/// The value of a `FlagQuery`.
#[verifier::ext_equal]
pub enum FlagQueryView {
    IsNumeric(DataTypeView),
    RequiresComputation(ExprView),
}

/// The value of a `TextQuery`.
#[verifier::ext_equal]
pub enum TextQueryView {
    DataType(DataTypeView),
    Field(FieldView),
    CountMode(CountMode),
    Percentiles(Seq<FloatWrapper>),
    LiteralDebug(LiteralView),
    Literal(LiteralView),
    FunctionId(FunctionExprView, Seq<ExprView>, SchemaView),
    Function(FunctionExprView, Seq<ExprView>),
    ScalarFunctionId(ScalarFunctionView, SchemaView),
    ScalarFunction(ScalarFunctionView),
}

/// The value of a `TypeQuery`.
#[verifier::ext_equal]
pub enum TypeQueryView {
    Literal(LiteralView),
    DDSketch,
    HyperLogLog,
}

/// The value of a `RuleQuery`.
#[verifier::ext_equal]
pub enum RuleQueryView {
    Unary(UnaryRule, DataTypeView),
    Binary(BinaryRule, DataTypeView, DataTypeView),
}

/// The value of a `FieldQuery`.
#[verifier::ext_equal]
pub enum FieldQueryView {
    ToList(FieldView),
    Function(FunctionExprView, Seq<ExprView>, SchemaView),
    ScalarFunction(ScalarFunctionView, SchemaView),
}

/// The value of an `ErrorQuery`.
#[verifier::ext_equal]
pub enum ErrorQueryView {
    MissingColumn(Seq<char>, SchemaView),
}

/// The value of a `Query`.
#[verifier::ext_equal]
pub enum QueryView {
    Flag(FlagQueryView),
    Text(TextQueryView),
    Type(TypeQueryView),
    Rule(RuleQueryView),
    Field(FieldQueryView),
    Error(ErrorQueryView),
    Sql(LiteralView),
    Columns(ExprView),
}

impl View for FlagQuery {
    type V = FlagQueryView;

    open spec fn view(&self) -> FlagQueryView {
        match self {
            FlagQuery::IsNumeric(dtype) => FlagQueryView::IsNumeric(dtype@),
            FlagQuery::RequiresComputation(e) => FlagQueryView::RequiresComputation((**e)@),
        }
    }
}

impl View for TextQuery {
    type V = TextQueryView;

    open spec fn view(&self) -> TextQueryView {
        match self {
            TextQuery::DataType(dtype) => TextQueryView::DataType(dtype@),
            TextQuery::Field(field) => TextQueryView::Field(field@),
            TextQuery::CountMode(mode) => TextQueryView::CountMode(*mode),
            TextQuery::Percentiles(list) => TextQueryView::Percentiles(list@),
            TextQuery::LiteralDebug(value) => TextQueryView::LiteralDebug(value@),
            TextQuery::Literal(value) => TextQueryView::Literal(value@),
            TextQuery::FunctionId(func, inputs, schema) => TextQueryView::FunctionId(
                func@,
                refs_view(inputs@),
                schema@,
            ),
            TextQuery::Function(func, inputs) => TextQueryView::Function(func@, refs_view(inputs@)),
            TextQuery::ScalarFunctionId(func, schema) => TextQueryView::ScalarFunctionId(
                func@,
                schema@,
            ),
            TextQuery::ScalarFunction(func) => TextQueryView::ScalarFunction(func@),
        }
    }
}

impl View for TypeQuery {
    type V = TypeQueryView;

    open spec fn view(&self) -> TypeQueryView {
        match self {
            TypeQuery::Literal(value) => TypeQueryView::Literal(value@),
            TypeQuery::DDSketch => TypeQueryView::DDSketch,
            TypeQuery::HyperLogLog => TypeQueryView::HyperLogLog,
        }
    }
}

impl View for RuleQuery {
    type V = RuleQueryView;

    open spec fn view(&self) -> RuleQueryView {
        match self {
            RuleQuery::Unary(rule, dtype) => RuleQueryView::Unary(*rule, dtype@),
            RuleQuery::Binary(rule, left, right) => RuleQueryView::Binary(*rule, left@, right@),
        }
    }
}

impl View for FieldQuery {
    type V = FieldQueryView;

    open spec fn view(&self) -> FieldQueryView {
        match self {
            FieldQuery::ToList(field) => FieldQueryView::ToList(field@),
            FieldQuery::Function(func, inputs, schema) => FieldQueryView::Function(
                func@,
                refs_view(inputs@),
                schema@,
            ),
            FieldQuery::ScalarFunction(func, schema) => FieldQueryView::ScalarFunction(
                func@,
                schema@,
            ),
        }
    }
}

impl View for ErrorQuery {
    type V = ErrorQueryView;

    open spec fn view(&self) -> ErrorQueryView {
        match self {
            ErrorQuery::MissingColumn(name, schema) => ErrorQueryView::MissingColumn(
                name@,
                schema@,
            ),
        }
    }
}

impl View for Query {
    type V = QueryView;

    open spec fn view(&self) -> QueryView {
        match self {
            Query::Flag(q) => QueryView::Flag(q@),
            Query::Text(q) => QueryView::Text(q@),
            Query::Type(q) => QueryView::Type(q@),
            Query::Rule(q) => QueryView::Rule(q@),
            Query::Field(q) => QueryView::Field(q@),
            Query::Error(q) => QueryView::Error(q@),
            Query::Sql(value) => QueryView::Sql(value@),
            Query::Columns(e) => QueryView::Columns((**e)@),
        }
    }
}

/// Why a function stopped before it had a result.
#[derive(Debug)]
pub enum Halt {
    /// The expression is in error.
    Error(DaftError),
    /// The engine has to be asked first.
    Ask(Query),
    /// The expression has no result at all: a call without arguments was asked for its name, or
    /// a floor division for its type.
    Undefined,
}

/// The value of a `Halt`.
#[verifier::ext_equal]
pub enum HaltView {
    Error(DaftErrorView),
    Ask(QueryView),
    Undefined,
}

impl View for Halt {
    type V = HaltView;

    open spec fn view(&self) -> HaltView {
        match self {
            Halt::Error(e) => HaltView::Error(e@),
            Halt::Ask(q) => HaltView::Ask(q@),
            Halt::Undefined => HaltView::Undefined,
        }
    }
}

/// Questions that can be compared.
pub trait Key: View + Sized {
    /// Whether two questions are the same.
    fn same_key(&self, other: &Self) -> (equal: bool)
        ensures
            equal == (self@ == other@),
    ;
}

/// Replies that can be copied.
pub trait Reply: Sized {
    /// What the reply says.
    type Said;

    spec fn said(&self) -> Self::Said;

    /// A reply that says the same.
    fn again(&self) -> (copy: Self)
        ensures
            copy.said() == self.said(),
    ;
}

impl Key for FlagQuery {
    fn same_key(&self, other: &Self) -> (equal: bool) {
        match (self, other) {
            (FlagQuery::IsNumeric(a), FlagQuery::IsNumeric(b)) => a.same(b),
            (FlagQuery::RequiresComputation(a), FlagQuery::RequiresComputation(b)) => a.same(b),
            _ => false,
        }
    }
}

impl Key for TextQuery {
    fn same_key(&self, other: &Self) -> (equal: bool) {
        match (self, other) {
            (TextQuery::DataType(a), TextQuery::DataType(b)) => a.same(b),
            (TextQuery::Field(a), TextQuery::Field(b)) => a.same(b),
            (TextQuery::CountMode(a), TextQuery::CountMode(b)) => *a == *b,
            (TextQuery::Percentiles(a), TextQuery::Percentiles(b)) => same_floats(a, b),
            (TextQuery::LiteralDebug(a), TextQuery::LiteralDebug(b)) => a.same(b),
            (TextQuery::Literal(a), TextQuery::Literal(b)) => a.same(b),
            (TextQuery::FunctionId(f, a, s), TextQuery::FunctionId(g, b, t)) => f.same(g)
                && same_refs(a, b) && s.same(t),
            (TextQuery::Function(f, a), TextQuery::Function(g, b)) => f.same(g) && same_refs(a, b),
            (TextQuery::ScalarFunctionId(f, s), TextQuery::ScalarFunctionId(g, t)) => f.same(g)
                && s.same(t),
            (TextQuery::ScalarFunction(f), TextQuery::ScalarFunction(g)) => f.same(g),
            _ => false,
        }
    }
}

impl Key for TypeQuery {
    fn same_key(&self, other: &Self) -> (equal: bool) {
        match (self, other) {
            (TypeQuery::Literal(a), TypeQuery::Literal(b)) => a.same(b),
            (TypeQuery::DDSketch, TypeQuery::DDSketch) => true,
            (TypeQuery::HyperLogLog, TypeQuery::HyperLogLog) => true,
            _ => false,
        }
    }
}

impl Key for RuleQuery {
    fn same_key(&self, other: &Self) -> (equal: bool) {
        match (self, other) {
            (RuleQuery::Unary(r, a), RuleQuery::Unary(s, b)) => *r == *s && a.same(b),
            (RuleQuery::Binary(r, a, c), RuleQuery::Binary(s, b, d)) => *r == *s && a.same(b)
                && c.same(d),
            _ => false,
        }
    }
}

impl Key for FieldQuery {
    fn same_key(&self, other: &Self) -> (equal: bool) {
        match (self, other) {
            (FieldQuery::ToList(a), FieldQuery::ToList(b)) => a.same(b),
            (FieldQuery::Function(f, a, s), FieldQuery::Function(g, b, t)) => f.same(g)
                && same_refs(a, b) && s.same(t),
            (FieldQuery::ScalarFunction(f, s), FieldQuery::ScalarFunction(g, t)) => f.same(g)
                && s.same(t),
            _ => false,
        }
    }
}

impl Key for ErrorQuery {
    fn same_key(&self, other: &Self) -> (equal: bool) {
        match (self, other) {
            (ErrorQuery::MissingColumn(a, s), ErrorQuery::MissingColumn(b, t)) => *a == *b
                && s.same(t),
        }
    }
}

impl Key for LiteralValue {
    fn same_key(&self, other: &Self) -> (equal: bool) {
        self.same(other)
    }
}

impl Key for ExprRef {
    fn same_key(&self, other: &Self) -> (equal: bool) {
        let a: &Expr = &**self;
        let b: &Expr = &**other;
        a.same(b)
    }
}

impl Reply for bool {
    type Said = bool;

    open spec fn said(&self) -> bool {
        *self
    }

    fn again(&self) -> (copy: Self) {
        *self
    }
}

impl Reply for String {
    type Said = Seq<char>;

    open spec fn said(&self) -> Seq<char> {
        self@
    }

    fn again(&self) -> (copy: Self) {
        self.clone()
    }
}

impl Reply for DataType {
    type Said = DataTypeView;

    open spec fn said(&self) -> DataTypeView {
        self@
    }

    fn again(&self) -> (copy: Self) {
        self.clone()
    }
}

impl Reply for DaftError {
    type Said = DaftErrorView;

    open spec fn said(&self) -> DaftErrorView {
        self@
    }

    fn again(&self) -> (copy: Self) {
        self.clone()
    }
}

impl Reply for Result<DataType, DaftError> {
    type Said = Result<DataTypeView, DaftErrorView>;

    open spec fn said(&self) -> Result<DataTypeView, DaftErrorView> {
        match self {
            Ok(dtype) => Ok(dtype@),
            Err(e) => Err(e@),
        }
    }

    fn again(&self) -> (copy: Self) {
        match self {
            Ok(dtype) => Ok(dtype.clone()),
            Err(e) => Err(e.clone()),
        }
    }
}

impl Reply for Result<Field, DaftError> {
    type Said = Result<FieldView, DaftErrorView>;

    open spec fn said(&self) -> Result<FieldView, DaftErrorView> {
        match self {
            Ok(field) => Ok(field@),
            Err(e) => Err(e@),
        }
    }

    fn again(&self) -> (copy: Self) {
        match self {
            Ok(field) => Ok(field.clone()),
            Err(e) => Err(e.clone()),
        }
    }
}

impl Reply for Option<Vec<u8>> {
    type Said = Option<Seq<u8>>;

    open spec fn said(&self) -> Option<Seq<u8>> {
        match self {
            Some(bytes) => Some(bytes@),
            None => None,
        }
    }

    fn again(&self) -> (copy: Self) {
        match self {
            Some(bytes) => Some(clone_bytes(bytes)),
            None => None,
        }
    }
}

impl Reply for Vec<String> {
    type Said = Seq<Seq<char>>;

    open spec fn said(&self) -> Seq<Seq<char>> {
        strings_view(self@)
    }

    fn again(&self) -> (copy: Self) {
        clone_strings(self)
    }
}

/// Questions with their replies.
pub struct Table<Q: Key, R: Reply> {
    entries: Vec<(Q, R)>,
}

/// What a list of entries says; a later entry replaces an earlier one for the same question.
pub closed spec fn entries_map<Q: Key, R: Reply>(entries: Seq<(Q, R)>) -> Map<Q::V, R::Said>
    decreases entries.len(),
{
    if entries.len() == 0 {
        Map::empty()
    } else {
        entries_map(entries.drop_last()).insert(entries.last().0@, entries.last().1.said())
    }
}

impl<Q: Key, R: Reply> View for Table<Q, R> {
    type V = Map<Q::V, R::Said>;

    closed spec fn view(&self) -> Map<Q::V, R::Said> {
        entries_map(self.entries@)
    }
}

impl<Q: Key, R: Reply> Table<Q, R> {
    /// A table without entries.
    pub fn new() -> (table: Table<Q, R>)
        ensures
            table@ == Map::<Q::V, R::Said>::empty(),
    {
        Table { entries: Vec::new() }
    }

    /// Records the reply to a question.
    pub fn insert(&mut self, question: Q, reply: R)
        ensures
            final(self)@ == old(self)@.insert(question@, reply.said()),
    {
        let ghost before = self.entries@;
        self.entries.push((question, reply));
        proof {
            assert(self.entries@.drop_last() =~= before);
        }
    }

    /// The reply to a question, where it is known.
    pub fn get(&self, question: &Q) -> (reply: Option<R>)
        ensures
            match reply {
                Some(r) => self@.contains_key(question@) && self@[question@] == r.said(),
                None => !self@.contains_key(question@),
            },
    {
        let mut i: usize = self.entries.len();
        proof {
            assert(self.entries@.take(i as int) =~= self.entries@);
        }
        while i > 0
            invariant
                i <= self.entries.len(),
                self@.contains_key(question@) == entries_map(
                    self.entries@.take(i as int),
                ).contains_key(question@),
                self@.contains_key(question@) ==> self@[question@] == entries_map(
                    self.entries@.take(i as int),
                )[question@],
            decreases i,
        {
            i = i - 1;
            proof {
                let upper = self.entries@.take(i + 1);
                assert(upper.drop_last() =~= self.entries@.take(i as int));
                assert(upper.last() == self.entries@[i as int]);
            }
            if self.entries[i].0.same_key(question) {
                return Some(self.entries[i].1.again());
            }
        }
        None
    }
}

} // verus!
