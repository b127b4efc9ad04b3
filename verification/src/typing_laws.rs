//! What typing gives for each kind of expression, from the fields of its parts and the replies of
//! the engine.
use vstd::prelude::*;

use crate::datatypes::{CountMode, DataTypeView, FieldView, SchemaView};
use crate::error::DaftErrorView;
use crate::expr::{AggExprView, ExprView, ScalarFunctionView, SketchType};
use crate::functions::FunctionExprView;
use crate::lit::{FloatWrapper, LiteralView};
use crate::naming::name_of;
use crate::operator::Operator;
use crate::query::{
    BinaryRule, ErrorQueryView, FieldQueryView, FlagQueryView, HaltView, QueryView, RuleQueryView,
    TextQueryView, TypeQueryView, UnaryRule,
};
use crate::replies::RepliesView;
use crate::schema::{law_lookup_finds_by_name, lookup, name_is_free};
use crate::typing::{agg_field_of, field_of, type_of};

verus! {

/// Whether a result is a field of the given name and of the type with which the engine answers a
/// typing rule, or its error, or the question where there is no answer yet.
pub open spec fn rule_decides(
    result: Result<FieldView, HaltView>,
    m: RepliesView,
    q: RuleQueryView,
    name: Seq<char>,
) -> bool {
    if m.rules.contains_key(q) {
        match m.rules[q] {
            Ok(dtype) => result == Ok::<FieldView, HaltView>(FieldView { name, dtype }),
            Err(e) => result == Err::<FieldView, HaltView>(HaltView::Error(e)),
        }
    } else {
        result == Err::<FieldView, HaltView>(HaltView::Ask(QueryView::Rule(q)))
    }
}

/// Whether a result is the field or error with which the engine answers, or the question where
/// there is no answer yet.
pub open spec fn field_decides(
    result: Result<FieldView, HaltView>,
    m: RepliesView,
    q: FieldQueryView,
) -> bool {
    if m.fields.contains_key(q) {
        match m.fields[q] {
            Ok(field) => result == Ok::<FieldView, HaltView>(field),
            Err(e) => result == Err::<FieldView, HaltView>(HaltView::Error(e)),
        }
    } else {
        result == Err::<FieldView, HaltView>(HaltView::Ask(QueryView::Field(q)))
    }
}

/// Whether a result is the type error that shows a field behind the given words, or the question
/// how the field is shown.
pub open spec fn refuses_field(
    result: Result<FieldView, HaltView>,
    m: RepliesView,
    words: Seq<char>,
    field: FieldView,
) -> bool {
    let q = TextQueryView::Field(field);
    if m.texts.contains_key(q) {
        result == Err::<FieldView, HaltView>(
            HaltView::Error(DaftErrorView::TypeError(words + m.texts[q])),
        )
    } else {
        result == Err::<FieldView, HaltView>(HaltView::Ask(QueryView::Text(q)))
    }
}

/// Whether a result is the type error that shows the type and the name of a column behind the
/// given words, or the question how the type is shown.
pub open spec fn refuses_column(
    result: Result<FieldView, HaltView>,
    m: RepliesView,
    words: Seq<char>,
    field: FieldView,
) -> bool {
    let q = TextQueryView::DataType(field.dtype);
    if m.texts.contains_key(q) {
        result == Err::<FieldView, HaltView>(
            HaltView::Error(
                DaftErrorView::TypeError(
                    words + m.texts[q] + " for column \""@ + field.name + "\""@,
                ),
            ),
        )
    } else {
        result == Err::<FieldView, HaltView>(HaltView::Ask(QueryView::Text(q)))
    }
}

/// Whether a result is the field of the first name and of the common type of two fields, or,
/// where they have none, the type error that shows both behind the given words, or the first
/// question that is still open.
pub open spec fn supertype_decides(
    result: Result<FieldView, HaltView>,
    m: RepliesView,
    words: Seq<char>,
    first: FieldView,
    second: FieldView,
) -> bool {
    let q = RuleQueryView::Binary(BinaryRule::Supertype, first.dtype, second.dtype);
    let one = TextQueryView::Field(first);
    let two = TextQueryView::Field(second);
    if !m.rules.contains_key(q) {
        result == Err::<FieldView, HaltView>(HaltView::Ask(QueryView::Rule(q)))
    } else if m.rules[q] is Ok {
        result == Ok::<FieldView, HaltView>(FieldView { name: first.name, dtype: m.rules[q]->Ok_0 })
    } else if !m.texts.contains_key(one) {
        result == Err::<FieldView, HaltView>(HaltView::Ask(QueryView::Text(one)))
    } else if !m.texts.contains_key(two) {
        result == Err::<FieldView, HaltView>(HaltView::Ask(QueryView::Text(two)))
    } else {
        result == Err::<FieldView, HaltView>(
            HaltView::Error(
                DaftErrorView::TypeError(words + m.texts[one] + " and "@ + m.texts[two]),
            ),
        )
    }
}

/// Law: each operator is typed by the rule of its own: the engine's reply to division decides the
/// type of a quotient, its reply to subtraction that of a difference, and so on; the comparisons
/// share one rule, and so do the logical operators. The field has the name of the left operand.
/// Floor division has no type.
pub proof fn law_each_operator_has_its_rule(
    left: ExprView,
    right: ExprView,
    schema: SchemaView,
    m: RepliesView,
)
    requires
        field_of(left, schema, m) is Ok,
        field_of(right, schema, m) is Ok,
    ensures
        ({
            let l = field_of(left, schema, m)->Ok_0;
            let r = field_of(right, schema, m)->Ok_0;
            let typed = |op: Operator|
                field_of(
                    ExprView::BinaryOp { op, left: Box::new(left), right: Box::new(right) },
                    schema,
                    m,
                );
            let rule = |rule: BinaryRule| RuleQueryView::Binary(rule, l.dtype, r.dtype);
            &&& rule_decides(typed(Operator::Plus), m, rule(BinaryRule::Plus), l.name)
            &&& rule_decides(typed(Operator::Minus), m, rule(BinaryRule::Minus), l.name)
            &&& rule_decides(typed(Operator::Multiply), m, rule(BinaryRule::Multiply), l.name)
            &&& rule_decides(typed(Operator::TrueDivide), m, rule(BinaryRule::TrueDivide), l.name)
            &&& rule_decides(typed(Operator::Modulus), m, rule(BinaryRule::Modulus), l.name)
            &&& rule_decides(typed(Operator::ShiftLeft), m, rule(BinaryRule::ShiftLeft), l.name)
            &&& rule_decides(typed(Operator::ShiftRight), m, rule(BinaryRule::ShiftRight), l.name)
            &&& rule_decides(typed(Operator::And), m, rule(BinaryRule::Logical), l.name)
            &&& rule_decides(typed(Operator::Or), m, rule(BinaryRule::Logical), l.name)
            &&& rule_decides(typed(Operator::Xor), m, rule(BinaryRule::Logical), l.name)
            &&& rule_decides(typed(Operator::Eq), m, rule(BinaryRule::Comparison), l.name)
            &&& rule_decides(typed(Operator::NotEq), m, rule(BinaryRule::Comparison), l.name)
            &&& rule_decides(typed(Operator::Lt), m, rule(BinaryRule::Comparison), l.name)
            &&& rule_decides(typed(Operator::LtEq), m, rule(BinaryRule::Comparison), l.name)
            &&& rule_decides(typed(Operator::Gt), m, rule(BinaryRule::Comparison), l.name)
            &&& rule_decides(typed(Operator::GtEq), m, rule(BinaryRule::Comparison), l.name)
            &&& typed(Operator::FloorDivide) == Err::<FieldView, HaltView>(HaltView::Undefined)
        }),
{
}

/// Law: where an engine has replied to all rules, and differently to each rule on the operand
/// types, different arithmetic operators give operations of different types.
pub proof fn law_arithmetic_operators_share_no_rule(
    a: Operator,
    b: Operator,
    left: ExprView,
    right: ExprView,
    schema: SchemaView,
    m: RepliesView,
)
    requires
        a != b,
        a is Plus || a is Minus || a is Multiply || a is TrueDivide || a is Modulus
            || a is ShiftLeft || a is ShiftRight,
        b is Plus || b is Minus || b is Multiply || b is TrueDivide || b is Modulus
            || b is ShiftLeft || b is ShiftRight,
        field_of(left, schema, m) is Ok,
        field_of(right, schema, m) is Ok,
        forall|x: BinaryRule, y: BinaryRule, s: DataTypeView, t: DataTypeView|
            #![trigger m.rules[RuleQueryView::Binary(x, s, t)], m.rules[RuleQueryView::Binary(y, s, t)]]
            x != y ==> m.rules.contains_key(RuleQueryView::Binary(x, s, t))
                && m.rules[RuleQueryView::Binary(x, s, t)] != m.rules[RuleQueryView::Binary(
                y,
                s,
                t,
            )],
    ensures
        field_of(
            ExprView::BinaryOp { op: a, left: Box::new(left), right: Box::new(right) },
            schema,
            m,
        ) != field_of(
            ExprView::BinaryOp { op: b, left: Box::new(left), right: Box::new(right) },
            schema,
            m,
        ),
{
    law_each_operator_has_its_rule(left, right, schema, m);
    let l = field_of(left, schema, m)->Ok_0;
    let r = field_of(right, schema, m)->Ok_0;
    let own = |op: Operator|
        match op {
            Operator::Plus => BinaryRule::Plus,
            Operator::Minus => BinaryRule::Minus,
            Operator::Multiply => BinaryRule::Multiply,
            Operator::TrueDivide => BinaryRule::TrueDivide,
            Operator::Modulus => BinaryRule::Modulus,
            Operator::ShiftLeft => BinaryRule::ShiftLeft,
            _ => BinaryRule::ShiftRight,
        };
    let p = RuleQueryView::Binary(own(a), l.dtype, r.dtype);
    let q = RuleQueryView::Binary(own(b), l.dtype, r.dtype);
    assert(own(a) != own(b));
    assert(m.rules[p] != m.rules[q]);
    assert(m.rules.contains_key(p) && m.rules.contains_key(q));
}

/// The parts that typing looks at, in order, before anything else. A conditional looks at its
/// predicate first and is left out here.
pub open spec fn typed_parts(e: ExprView) -> Seq<ExprView> {
    match e {
        ExprView::Alias(inner, _) => seq![*inner],
        ExprView::Not(inner) => seq![*inner],
        ExprView::FillNull(inner, fill) => seq![*inner, *fill],
        ExprView::IsIn(inner, items) => seq![*inner, *items],
        ExprView::BinaryOp { op: _, left, right } => seq![*left, *right],
        ExprView::Between(inner, lower, upper) => seq![*inner, *lower, *upper],
        ExprView::Agg(agg) => match agg {
            AggExprView::Count(inner, _) => seq![*inner],
            AggExprView::Sum(inner) => seq![*inner],
            AggExprView::ApproxPercentile { child, .. } => seq![*child],
            AggExprView::ApproxCountDistinct(inner) => seq![*inner],
            AggExprView::ApproxSketch(inner, _) => seq![*inner],
            AggExprView::MergeSketch(inner, _) => seq![*inner],
            AggExprView::Mean(inner) => seq![*inner],
            AggExprView::Min(inner) => seq![*inner],
            AggExprView::Max(inner) => seq![*inner],
            AggExprView::AnyValue(inner, _) => seq![*inner],
            AggExprView::List(inner) => seq![*inner],
            AggExprView::Concat(inner) => seq![*inner],
            AggExprView::MapGroups { .. } => seq![],
        },
        _ => seq![],
    }
}

/// Law: the first part that has no field decides why the whole has none.
pub proof fn law_first_part_without_field_counts(
    e: ExprView,
    i: int,
    schema: SchemaView,
    m: RepliesView,
)
    requires
        0 <= i < typed_parts(e).len(),
        forall|j: int| 0 <= j < i ==> field_of(#[trigger] typed_parts(e)[j], schema, m) is Ok,
        field_of(typed_parts(e)[i], schema, m) is Err,
    ensures
        field_of(e, schema, m) == field_of(typed_parts(e)[i], schema, m),
{
    let parts = typed_parts(e);
    if i > 0 {
        assert(field_of(parts[0], schema, m) is Ok);
    }
    if i > 1 {
        assert(field_of(parts[1], schema, m) is Ok);
    }
    if let ExprView::Agg(agg) = e {
        assert(field_of(e, schema, m) == agg_field_of(agg, schema, m));
    }
}

/// Law: the type of an expression is that of its field, and where there is no field, neither is
/// there a type, for the same reason.
pub proof fn law_type_is_that_of_the_field(e: ExprView, schema: SchemaView, m: RepliesView)
    ensures
        field_of(e, schema, m) matches Ok(field) ==> type_of(e, schema, m) == Ok::<
            DataTypeView,
            HaltView,
        >(field.dtype),
        field_of(e, schema, m) matches Err(h) ==> type_of(e, schema, m) == Err::<
            DataTypeView,
            HaltView,
        >(h),
{
}

/// Law: a column has the field of its name in the schema; where there is none, the engine's
/// error.
pub proof fn law_field_of_column(name: Seq<char>, schema: SchemaView, m: RepliesView)
    ensures
        forall|i: int|
            0 <= i < schema.len() && (#[trigger] schema[i]).name == name && (forall|j: int|
                0 <= j < i ==> (#[trigger] schema[j]).name != name) ==> field_of(
                ExprView::Column(name),
                schema,
                m,
            ) == Ok::<FieldView, HaltView>(schema[i]),
        (forall|i: int| 0 <= i < schema.len() ==> (#[trigger] schema[i]).name != name) ==> {
            let q = ErrorQueryView::MissingColumn(name, schema);
            field_of(ExprView::Column(name), schema, m) == Err::<FieldView, HaltView>(
                if m.errors.contains_key(q) {
                    HaltView::Error(m.errors[q])
                } else {
                    HaltView::Ask(QueryView::Error(q))
                },
            )
        },
{
    law_lookup_finds_by_name(schema, name);
    assert forall|i: int|
        0 <= i < schema.len() && (#[trigger] schema[i]).name == name && (forall|j: int|
            0 <= j < i ==> (#[trigger] schema[j]).name != name) implies field_of(
        ExprView::Column(name),
        schema,
        m,
    ) == Ok::<FieldView, HaltView>(schema[i]) by {
        lemma_first_is_found(schema, name, i);
    }
    if forall|i: int| 0 <= i < schema.len() ==> (#[trigger] schema[i]).name != name {
        assert(name_is_free(schema, schema.len() as int, name));
    }
}

/// Looking a name up finds the first column of that name.
proof fn lemma_first_is_found(schema: SchemaView, name: Seq<char>, i: int)
    requires
        0 <= i < schema.len(),
        schema[i].name == name,
        forall|j: int| 0 <= j < i ==> (#[trigger] schema[j]).name != name,
    ensures
        lookup(schema, name) == Some(schema[i]),
    decreases schema.len(),
{
    if i > 0 {
        let rest = schema.drop_first();
        assert(rest[i - 1] == schema[i]);
        assert forall|j: int| 0 <= j < i - 1 implies (#[trigger] rest[j]).name != name by {
            assert(rest[j] == schema[j + 1]);
        }
        assert(schema[0].name != name);
        lemma_first_is_found(rest, name, i - 1);
    }
}

/// Law: an alias gives the field its name and leaves the type.
pub proof fn law_field_of_alias(e: ExprView, name: Seq<char>, schema: SchemaView, m: RepliesView)
    requires
        field_of(e, schema, m) is Ok,
    ensures
        field_of(ExprView::Alias(Box::new(e), name), schema, m) == Ok::<FieldView, HaltView>(
            FieldView { name, dtype: field_of(e, schema, m)->Ok_0.dtype },
        ),
{
}

/// Law: casts and null tests have the name of what is cast or tested and a type that does not
/// depend on it; without a name they have no field.
pub proof fn law_field_of_cast_and_null_test(
    e: ExprView,
    dtype: DataTypeView,
    schema: SchemaView,
    m: RepliesView,
)
    ensures
        name_of(e) matches Some(name) ==> {
            &&& field_of(ExprView::Cast(Box::new(e), dtype), schema, m) == Ok::<
                FieldView,
                HaltView,
            >(FieldView { name, dtype })
            &&& field_of(ExprView::IsNull(Box::new(e)), schema, m) == Ok::<FieldView, HaltView>(
                FieldView { name, dtype: DataTypeView::Boolean },
            )
            &&& field_of(ExprView::NotNull(Box::new(e)), schema, m) == Ok::<FieldView, HaltView>(
                FieldView { name, dtype: DataTypeView::Boolean },
            )
        },
        name_of(e) is None ==> {
            let undefined = Err::<FieldView, HaltView>(HaltView::Undefined);
            &&& field_of(ExprView::Cast(Box::new(e), dtype), schema, m) == undefined
            &&& field_of(ExprView::IsNull(Box::new(e)), schema, m) == undefined
            &&& field_of(ExprView::NotNull(Box::new(e)), schema, m) == undefined
        },
{
}

/// Law: what is boolean can be negated, and the negation is boolean and has its name; nothing
/// else can.
pub proof fn law_field_of_negation(e: ExprView, schema: SchemaView, m: RepliesView)
    requires
        field_of(e, schema, m) is Ok,
    ensures
        ({
            let field = field_of(e, schema, m)->Ok_0;
            let result = field_of(ExprView::Not(Box::new(e)), schema, m);
            if field.dtype == DataTypeView::Boolean {
                result == (match name_of(e) {
                    Some(name) => Ok::<FieldView, HaltView>(
                        FieldView { name, dtype: DataTypeView::Boolean },
                    ),
                    None => Err::<FieldView, HaltView>(HaltView::Undefined),
                })
            } else {
                refuses_field(
                    result,
                    m,
                    "Expected argument to be a Boolean expression, but received "@,
                    field,
                )
            }
        }),
{
}

/// Law: filling nulls gives the common type, and fails where there is none.
pub proof fn law_field_of_fill_null(
    e: ExprView,
    fill: ExprView,
    schema: SchemaView,
    m: RepliesView,
)
    requires
        field_of(e, schema, m) is Ok,
        field_of(fill, schema, m) is Ok,
    ensures
        supertype_decides(
            field_of(ExprView::FillNull(Box::new(e), Box::new(fill)), schema, m),
            m,
            "Expected expr and fill_value arguments for fill_null to be castable to the same supertype, but received "@,
            field_of(e, schema, m)->Ok_0,
            field_of(fill, schema, m)->Ok_0,
        ),
{
}

/// Law: a membership test has the type that the engine finds for it.
pub proof fn law_field_of_membership(
    e: ExprView,
    items: ExprView,
    schema: SchemaView,
    m: RepliesView,
)
    requires
        field_of(e, schema, m) is Ok,
        field_of(items, schema, m) is Ok,
    ensures
        rule_decides(
            field_of(ExprView::IsIn(Box::new(e), Box::new(items)), schema, m),
            m,
            RuleQueryView::Binary(
                BinaryRule::Membership,
                field_of(e, schema, m)->Ok_0.dtype,
                field_of(items, schema, m)->Ok_0.dtype,
            ),
            field_of(e, schema, m)->Ok_0.name,
        ),
{
}

/// Law: a range test is a membership test with the lower bound, one with the upper bound, and one
/// of the first outcome with the second; the first of them that fails decides.
pub proof fn law_field_of_range_test(
    e: ExprView,
    lower: ExprView,
    upper: ExprView,
    schema: SchemaView,
    m: RepliesView,
)
    requires
        field_of(e, schema, m) is Ok,
        field_of(lower, schema, m) is Ok,
        field_of(upper, schema, m) is Ok,
    ensures
        ({
            let value = field_of(e, schema, m)->Ok_0;
            let low = field_of(lower, schema, m)->Ok_0;
            let high = field_of(upper, schema, m)->Ok_0;
            let result = field_of(
                ExprView::Between(Box::new(e), Box::new(lower), Box::new(upper)),
                schema,
                m,
            );
            let p = RuleQueryView::Binary(BinaryRule::Membership, value.dtype, low.dtype);
            let q = RuleQueryView::Binary(BinaryRule::Membership, value.dtype, high.dtype);
            if !(m.rules.contains_key(p) && m.rules[p] is Ok) {
                rule_decides(result, m, p, value.name)
            } else if !(m.rules.contains_key(q) && m.rules[q] is Ok) {
                rule_decides(result, m, q, value.name)
            } else {
                rule_decides(
                    result,
                    m,
                    RuleQueryView::Binary(
                        BinaryRule::Membership,
                        m.rules[p]->Ok_0,
                        m.rules[q]->Ok_0,
                    ),
                    value.name,
                )
            }
        }),
{
}

/// Law: a literal is called `literal` and has the type that the engine gives it.
pub proof fn law_field_of_literal(value: LiteralView, schema: SchemaView, m: RepliesView)
    ensures
        ({
            let q = TypeQueryView::Literal(value);
            let result = field_of(ExprView::Literal(value), schema, m);
            if m.types.contains_key(q) {
                result == Ok::<FieldView, HaltView>(
                    FieldView { name: "literal"@, dtype: m.types[q] },
                )
            } else {
                result == Err::<FieldView, HaltView>(HaltView::Ask(QueryView::Type(q)))
            }
        }),
{
}

/// Law: calls have the field that the engine gives them for their own function, arguments and
/// schema; an aggregation by function has that of the call.
pub proof fn law_field_of_call(
    func: FunctionExprView,
    inputs: Seq<ExprView>,
    scalar: ScalarFunctionView,
    schema: SchemaView,
    m: RepliesView,
)
    ensures
        field_decides(
            field_of(ExprView::Function { func, inputs }, schema, m),
            m,
            FieldQueryView::Function(func, inputs, schema),
        ),
        field_decides(
            agg_field_of(AggExprView::MapGroups { func, inputs }, schema, m),
            m,
            FieldQueryView::Function(func, inputs, schema),
        ),
        field_decides(
            field_of(ExprView::ScalarFunction(scalar), schema, m),
            m,
            FieldQueryView::ScalarFunction(scalar, schema),
        ),
{
}

/// Law: a conditional needs a boolean predicate. A literal predicate chooses an outcome, which
/// keeps the name of the first; otherwise both outcomes need a common type. The predicate is
/// looked at first, then the outcomes in order.
pub proof fn law_field_of_conditional(
    if_true: ExprView,
    if_false: ExprView,
    predicate: ExprView,
    schema: SchemaView,
    m: RepliesView,
)
    ensures
        ({
            let result = field_of(
                ExprView::IfElse {
                    if_true: Box::new(if_true),
                    if_false: Box::new(if_false),
                    predicate: Box::new(predicate),
                },
                schema,
                m,
            );
            let condition = field_of(predicate, schema, m);
            let yes = field_of(if_true, schema, m);
            let no = field_of(if_false, schema, m);
            if condition is Err {
                result == condition
            } else if condition->Ok_0.dtype != DataTypeView::Boolean {
                refuses_field(
                    result,
                    m,
                    "Expected predicate for if_else to be boolean but received "@,
                    condition->Ok_0,
                )
            } else if predicate == ExprView::Literal(LiteralView::Boolean(true)) {
                result == yes
            } else if predicate == ExprView::Literal(LiteralView::Boolean(false)) {
                if no is Err {
                    result == no
                } else {
                    result == (match name_of(if_true) {
                        Some(name) => Ok::<FieldView, HaltView>(
                            FieldView { name, dtype: no->Ok_0.dtype },
                        ),
                        None => Err::<FieldView, HaltView>(HaltView::Undefined),
                    })
                }
            } else if yes is Err {
                result == yes
            } else if no is Err {
                result == no
            } else {
                supertype_decides(
                    result,
                    m,
                    "Expected if_true and if_false arguments for if_else to be castable to the same supertype, but received "@,
                    yes->Ok_0,
                    no->Ok_0,
                )
            }
        }),
{
}

/// Law: an aggregation as an expression has the field of the aggregation.
pub proof fn law_field_of_aggregation(agg: AggExprView, schema: SchemaView, m: RepliesView)
    ensures
        field_of(ExprView::Agg(agg), schema, m) == agg_field_of(agg, schema, m),
{
}

/// Law: counts are unsigned, sums and means have the type that the engine finds, and extremes and
/// any value keep the field; all keep the name.
pub proof fn law_field_of_simple_aggregations(
    e: ExprView,
    mode: CountMode,
    ignore_nulls: bool,
    schema: SchemaView,
    m: RepliesView,
)
    requires
        field_of(e, schema, m) is Ok,
    ensures
        ({
            let field = field_of(e, schema, m)->Ok_0;
            let counted = Ok::<FieldView, HaltView>(
                FieldView { name: field.name, dtype: DataTypeView::UInt64 },
            );
            let kept = Ok::<FieldView, HaltView>(field);
            let sum = RuleQueryView::Unary(UnaryRule::Sum, field.dtype);
            let mean = RuleQueryView::Unary(UnaryRule::Mean, field.dtype);
            &&& agg_field_of(AggExprView::Count(Box::new(e), mode), schema, m) == counted
            &&& agg_field_of(AggExprView::ApproxCountDistinct(Box::new(e)), schema, m) == counted
            &&& agg_field_of(AggExprView::Min(Box::new(e)), schema, m) == kept
            &&& agg_field_of(AggExprView::Max(Box::new(e)), schema, m) == kept
            &&& agg_field_of(AggExprView::AnyValue(Box::new(e), ignore_nulls), schema, m) == kept
            &&& rule_decides(
                agg_field_of(AggExprView::Sum(Box::new(e)), schema, m),
                m,
                sum,
                field.name,
            )
            &&& rule_decides(
                agg_field_of(AggExprView::Mean(Box::new(e)), schema, m),
                m,
                mean,
                field.name,
            )
        }),
{
}

/// Law: percentiles of a numeric column are one float, or a list of as many floats as percentiles
/// were asked for where these are several or a list is forced; of another column there are none.
pub proof fn law_field_of_percentiles(
    e: ExprView,
    percentiles: Seq<FloatWrapper>,
    force_list_output: bool,
    schema: SchemaView,
    m: RepliesView,
)
    requires
        field_of(e, schema, m) is Ok,
    ensures
        ({
            let field = field_of(e, schema, m)->Ok_0;
            let q = FlagQueryView::IsNumeric(field.dtype);
            let result = agg_field_of(
                AggExprView::ApproxPercentile {
                    child: Box::new(e),
                    percentiles,
                    force_list_output,
                },
                schema,
                m,
            );
            if !m.flags.contains_key(q) {
                result == Err::<FieldView, HaltView>(HaltView::Ask(QueryView::Flag(q)))
            } else if !m.flags[q] {
                refuses_column(
                    result,
                    m,
                    "Expected input to approx_percentiles() to be numeric but received dtype "@,
                    field,
                )
            } else if force_list_output || percentiles.len() >= 2 {
                result == Ok::<FieldView, HaltView>(
                    FieldView {
                        name: field.name,
                        dtype: DataTypeView::FixedSizeList(
                            Box::new(DataTypeView::Float64),
                            percentiles.len() as usize,
                        ),
                    },
                )
            } else {
                result == Ok::<FieldView, HaltView>(
                    FieldView { name: field.name, dtype: DataTypeView::Float64 },
                )
            }
        }),
{
}

/// Law: a quantile sketch is made of numeric columns and merged from structs; a cardinality sketch
/// is made of any column and merged into an unsigned number. The types of fresh sketches are the
/// engine's.
pub proof fn law_field_of_sketches(e: ExprView, schema: SchemaView, m: RepliesView)
    requires
        field_of(e, schema, m) is Ok,
    ensures
        ({
            let field = field_of(e, schema, m)->Ok_0;
            let numeric = FlagQueryView::IsNumeric(field.dtype);
            let fresh = |kind: SketchType|
                agg_field_of(AggExprView::ApproxSketch(Box::new(e), kind), schema, m);
            let merged = |kind: SketchType|
                agg_field_of(AggExprView::MergeSketch(Box::new(e), kind), schema, m);
            let of_type = |q: TypeQueryView|
                if m.types.contains_key(q) {
                    Ok::<FieldView, HaltView>(FieldView { name: field.name, dtype: m.types[q] })
                } else {
                    Err::<FieldView, HaltView>(HaltView::Ask(QueryView::Type(q)))
                };
            &&& fresh(SketchType::HyperLogLog) == of_type(TypeQueryView::HyperLogLog)
            &&& if !m.flags.contains_key(numeric) {
                fresh(SketchType::DDSketch) == Err::<FieldView, HaltView>(
                    HaltView::Ask(QueryView::Flag(numeric)),
                )
            } else if m.flags[numeric] {
                fresh(SketchType::DDSketch) == of_type(TypeQueryView::DDSketch)
            } else {
                refuses_column(
                    fresh(SketchType::DDSketch),
                    m,
                    "Expected input to approx_sketch() to be numeric but received dtype "@,
                    field,
                )
            }
            &&& merged(SketchType::HyperLogLog) == Ok::<FieldView, HaltView>(
                FieldView { name: field.name, dtype: DataTypeView::UInt64 },
            )
            &&& if field.dtype is Struct {
                merged(SketchType::DDSketch) == Ok::<FieldView, HaltView>(field)
            } else {
                refuses_column(
                    merged(SketchType::DDSketch),
                    m,
                    "Expected input to merge_sketch() to be struct but received dtype "@,
                    field,
                )
            }
        }),
{
}

/// Law: gathering into a list gives the engine's list field; concatenating keeps the field of a
/// list or of Python values, and fails for every other type.
pub proof fn law_field_of_lists(e: ExprView, schema: SchemaView, m: RepliesView)
    requires
        field_of(e, schema, m) is Ok,
    ensures
        ({
            let field = field_of(e, schema, m)->Ok_0;
            let joined = agg_field_of(AggExprView::Concat(Box::new(e)), schema, m);
            &&& field_decides(
                agg_field_of(AggExprView::List(Box::new(e)), schema, m),
                m,
                FieldQueryView::ToList(field),
            )
            &&& if field.dtype is List || field.dtype is Python {
                joined == Ok::<FieldView, HaltView>(field)
            } else {
                refuses_column(
                    joined,
                    m,
                    "We can only perform List Concat Agg on List or Python Types, got dtype "@,
                    field,
                )
            }
        }),
{
}

} // verus!
