//! Asking ends: an expression asks an engine finitely many questions.
use vstd::prelude::*;
use vstd::set_lib::lemma_len_subset;

use crate::datatypes::{FieldView, SchemaView};
use crate::display::{agg_text_of, law_text_asks_what_is_open, operand_text_of, text_of};
use crate::expr::{AggExprView, ExprView};
use crate::mapping::{law_mapping_asks_what_is_open, mapping_of};
use crate::query::{
    BinaryRule, ErrorQueryView, FieldQueryView, FlagQueryView, HaltView, QueryView, RuleQueryView,
    TextQueryView, TypeQueryView, UnaryRule,
};
use crate::replies::{extends, is_answered, rule_for, RepliesView};
use crate::semantic::{agg_id_of, id_of, law_id_asks_what_is_open};
use crate::sql::{law_sql_asks_what_is_open, sql_of, sql_text_of};
use crate::typing::{
    agg_field_of, aggregand, aggregated, field_of, law_field_asks_what_is_open, law_field_stays,
    operator_rule,
};

verus! {

/// Whether a result asks, if anything, one of the given questions.
pub open spec fn asks_within<T>(result: Result<T, HaltView>, questions: Set<QueryView>) -> bool {
    result matches Err(HaltView::Ask(q)) ==> questions.contains(q)
}

/// The questions that displaying an expression can ask.
proof fn text_questions(e: ExprView) -> (questions: Set<QueryView>)
    ensures
        questions.finite(),
        forall|r: RepliesView| asks_within(#[trigger] text_of(e, r), questions),
    decreases e, 0int,
{
    match e {
        ExprView::Column(_) => Set::empty(),
        ExprView::Literal(value) => Set::empty().insert(
            QueryView::Text(TextQueryView::Literal(value)),
        ),
        ExprView::Function { func, inputs } => Set::empty().insert(
            QueryView::Text(TextQueryView::Function(func, inputs)),
        ),
        ExprView::ScalarFunction(func) => Set::empty().insert(
            QueryView::Text(TextQueryView::ScalarFunction(func)),
        ),
        ExprView::Alias(inner, _)
        | ExprView::Not(inner)
        | ExprView::IsNull(inner)
        | ExprView::NotNull(inner) => {
            let inner_questions = text_questions(*inner);
            let questions = inner_questions;
            assert forall|r: RepliesView| asks_within(#[trigger] text_of(e, r), questions) by {
                assert(asks_within(text_of(*inner, r), inner_questions));
            }
            questions
        },
        ExprView::Cast(inner, dtype) => {
            let inner_questions = text_questions(*inner);
            let questions = inner_questions.insert(QueryView::Text(TextQueryView::DataType(dtype)));
            assert forall|r: RepliesView| asks_within(#[trigger] text_of(e, r), questions) by {
                assert(asks_within(text_of(*inner, r), inner_questions));
            }
            questions
        },
        ExprView::FillNull(inner, other) | ExprView::IsIn(inner, other) => {
            let first = text_questions(*inner);
            let second = text_questions(*other);
            let questions = first.union(second);
            assert forall|r: RepliesView| asks_within(#[trigger] text_of(e, r), questions) by {
                assert(asks_within(text_of(*inner, r), first));
                assert(asks_within(text_of(*other, r), second));
            }
            questions
        },
        ExprView::BinaryOp { op: _, left, right } => {
            let first = operand_questions(*left);
            let second = operand_questions(*right);
            let questions = first.union(second);
            assert forall|r: RepliesView| asks_within(#[trigger] text_of(e, r), questions) by {
                assert(asks_within(operand_text_of(*left, r), first));
                assert(asks_within(operand_text_of(*right, r), second));
            }
            questions
        },
        ExprView::Between(inner, lower, upper) => {
            let first = text_questions(*inner);
            let second = text_questions(*lower);
            let third = text_questions(*upper);
            let questions = first.union(second).union(third);
            assert forall|r: RepliesView| asks_within(#[trigger] text_of(e, r), questions) by {
                assert(asks_within(text_of(*inner, r), first));
                assert(asks_within(text_of(*lower, r), second));
                assert(asks_within(text_of(*upper, r), third));
            }
            questions
        },
        ExprView::IfElse { if_true, if_false, predicate } => {
            let first = text_questions(*if_true);
            let second = text_questions(*if_false);
            let third = text_questions(*predicate);
            let questions = first.union(second).union(third);
            assert forall|r: RepliesView| asks_within(#[trigger] text_of(e, r), questions) by {
                assert(asks_within(text_of(*if_true, r), first));
                assert(asks_within(text_of(*if_false, r), second));
                assert(asks_within(text_of(*predicate, r), third));
            }
            questions
        },
        ExprView::Agg(agg) => {
            let questions = agg_text_questions(agg);
            assert forall|r: RepliesView| asks_within(#[trigger] text_of(e, r), questions) by {
                assert(asks_within(agg_text_of(agg, r), questions));
            }
            questions
        },
    }
}

/// The questions that displaying an operand can ask.
proof fn operand_questions(e: ExprView) -> (questions: Set<QueryView>)
    ensures
        questions.finite(),
        forall|r: RepliesView| asks_within(#[trigger] operand_text_of(e, r), questions),
    decreases e, 1int,
{
    match e {
        ExprView::Alias(inner, _) => {
            let questions = text_questions(*inner);
            assert forall|r: RepliesView| asks_within(#[trigger] operand_text_of(e, r), questions) by {
                assert(asks_within(text_of(*inner, r), questions));
            }
            questions
        },
        _ => {
            let questions = text_questions(e);
            assert forall|r: RepliesView| asks_within(#[trigger] operand_text_of(e, r), questions) by {
                assert(asks_within(text_of(e, r), questions));
            }
            questions
        },
    }
}

/// The questions that displaying an aggregation can ask.
proof fn agg_text_questions(agg: AggExprView) -> (questions: Set<QueryView>)
    ensures
        questions.finite(),
        forall|r: RepliesView| asks_within(#[trigger] agg_text_of(agg, r), questions),
    decreases agg, 0int,
{
    match agg {
        AggExprView::MapGroups { func, inputs } => Set::empty().insert(
            QueryView::Text(TextQueryView::Function(func, inputs)),
        ),
        _ => {
            let child = aggregand(agg)->0;
            let inner_questions = text_questions(child);
            let questions = match agg {
                AggExprView::Count(_, mode) => inner_questions.insert(
                    QueryView::Text(TextQueryView::CountMode(mode)),
                ),
                AggExprView::ApproxPercentile { child: _, percentiles, force_list_output: _ } => {
                    inner_questions.insert(QueryView::Text(TextQueryView::Percentiles(percentiles)))
                },
                _ => inner_questions,
            };
            assert forall|r: RepliesView|
                asks_within(#[trigger] agg_text_of(agg, r), questions) by {
                assert(asks_within(text_of(child, r), inner_questions));
            }
            questions
        },
    }
}

/// The questions that identifying an expression can ask.
proof fn id_questions(e: ExprView, schema: SchemaView) -> (questions: Set<QueryView>)
    ensures
        questions.finite(),
        forall|r: RepliesView| asks_within(#[trigger] id_of(e, schema, r), questions),
    decreases e,
{
    match e {
        ExprView::Column(_) => Set::empty(),
        ExprView::Literal(value) => Set::empty().insert(
            QueryView::Text(TextQueryView::LiteralDebug(value)),
        ),
        ExprView::Function { func, inputs } => Set::empty().insert(
            QueryView::Text(TextQueryView::FunctionId(func, inputs, schema)),
        ),
        ExprView::ScalarFunction(func) => Set::empty().insert(
            QueryView::Text(TextQueryView::ScalarFunctionId(func, schema)),
        ),
        ExprView::Alias(inner, _)
        | ExprView::Not(inner)
        | ExprView::IsNull(inner)
        | ExprView::NotNull(inner) => {
            let inner_questions = id_questions(*inner, schema);
            let questions = inner_questions;
            assert forall|r: RepliesView| asks_within(#[trigger] id_of(e, schema, r), questions) by {
                assert(asks_within(id_of(*inner, schema, r), inner_questions));
            }
            questions
        },
        ExprView::Cast(inner, dtype) => {
            let inner_questions = id_questions(*inner, schema);
            let questions = inner_questions.insert(QueryView::Text(TextQueryView::DataType(dtype)));
            assert forall|r: RepliesView| asks_within(#[trigger] id_of(e, schema, r), questions) by {
                assert(asks_within(id_of(*inner, schema, r), inner_questions));
            }
            questions
        },
        ExprView::FillNull(inner, other) | ExprView::IsIn(inner, other) => {
            let first = id_questions(*inner, schema);
            let second = id_questions(*other, schema);
            let questions = first.union(second);
            assert forall|r: RepliesView| asks_within(#[trigger] id_of(e, schema, r), questions) by {
                assert(asks_within(id_of(*inner, schema, r), first));
                assert(asks_within(id_of(*other, schema, r), second));
            }
            questions
        },
        ExprView::BinaryOp { op: _, left, right } => {
            let first = id_questions(*left, schema);
            let second = id_questions(*right, schema);
            let questions = first.union(second);
            assert forall|r: RepliesView| asks_within(#[trigger] id_of(e, schema, r), questions) by {
                assert(asks_within(id_of(*left, schema, r), first));
                assert(asks_within(id_of(*right, schema, r), second));
            }
            questions
        },
        ExprView::Between(inner, lower, upper) => {
            let first = id_questions(*inner, schema);
            let second = id_questions(*lower, schema);
            let third = id_questions(*upper, schema);
            let questions = first.union(second).union(third);
            assert forall|r: RepliesView| asks_within(#[trigger] id_of(e, schema, r), questions) by {
                assert(asks_within(id_of(*inner, schema, r), first));
                assert(asks_within(id_of(*lower, schema, r), second));
                assert(asks_within(id_of(*upper, schema, r), third));
            }
            questions
        },
        ExprView::IfElse { if_true, if_false, predicate } => {
            let first = id_questions(*if_true, schema);
            let second = id_questions(*if_false, schema);
            let third = id_questions(*predicate, schema);
            let questions = first.union(second).union(third);
            assert forall|r: RepliesView| asks_within(#[trigger] id_of(e, schema, r), questions) by {
                assert(asks_within(id_of(*if_true, schema, r), first));
                assert(asks_within(id_of(*if_false, schema, r), second));
                assert(asks_within(id_of(*predicate, schema, r), third));
            }
            questions
        },
        ExprView::Agg(agg) => {
            let questions = agg_id_questions(agg, schema);
            assert forall|r: RepliesView| asks_within(#[trigger] id_of(e, schema, r), questions) by {
                assert(asks_within(agg_id_of(agg, schema, r), questions));
            }
            questions
        },
    }
}

/// The questions that identifying an aggregation can ask.
proof fn agg_id_questions(agg: AggExprView, schema: SchemaView) -> (questions: Set<QueryView>)
    ensures
        questions.finite(),
        forall|r: RepliesView| asks_within(#[trigger] agg_id_of(agg, schema, r), questions),
    decreases agg,
{
    match agg {
        AggExprView::MapGroups { func, inputs } => Set::empty().insert(
            QueryView::Text(TextQueryView::FunctionId(func, inputs, schema)),
        ),
        _ => {
            let child = aggregand(agg)->0;
            let inner_questions = id_questions(child, schema);
            let questions = match agg {
                AggExprView::Count(_, mode) => inner_questions.insert(
                    QueryView::Text(TextQueryView::CountMode(mode)),
                ),
                AggExprView::ApproxPercentile { child: _, percentiles, force_list_output: _ } => {
                    inner_questions.insert(QueryView::Text(TextQueryView::Percentiles(percentiles)))
                },
                _ => inner_questions,
            };
            assert forall|r: RepliesView|
                asks_within(#[trigger] agg_id_of(agg, schema, r), questions) by {
                assert(asks_within(id_of(child, schema, r), inner_questions));
            }
            questions
        },
    }
}

/// The questions that translating an expression to SQL can ask.
proof fn sql_questions(e: ExprView) -> (questions: Set<QueryView>)
    ensures
        questions.finite(),
        forall|r: RepliesView| asks_within(#[trigger] sql_of(e, r), questions),
    decreases e,
{
    match e {
        ExprView::Literal(value) => Set::empty().insert(QueryView::Sql(value)),
        ExprView::Alias(inner, _)
        | ExprView::Not(inner)
        | ExprView::IsNull(inner)
        | ExprView::NotNull(inner) => {
            let inner_questions = sql_questions(*inner);
            let questions = inner_questions;
            assert forall|r: RepliesView| asks_within(#[trigger] sql_of(e, r), questions) by {
                assert(asks_within(sql_of(*inner, r), inner_questions));
            }
            questions
        },
        ExprView::BinaryOp { op: _, left, right } => {
            let first = sql_questions(*left);
            let second = sql_questions(*right);
            let questions = first.union(second);
            assert forall|r: RepliesView| asks_within(#[trigger] sql_of(e, r), questions) by {
                assert(asks_within(sql_of(*left, r), first));
                assert(asks_within(sql_of(*right, r), second));
            }
            questions
        },
        ExprView::IfElse { if_true, if_false, predicate } => {
            let first = sql_questions(*if_true);
            let second = sql_questions(*if_false);
            let third = sql_questions(*predicate);
            let questions = first.union(second).union(third);
            assert forall|r: RepliesView| asks_within(#[trigger] sql_of(e, r), questions) by {
                assert(asks_within(sql_of(*if_true, r), first));
                assert(asks_within(sql_of(*if_false, r), second));
                assert(asks_within(sql_of(*predicate, r), third));
            }
            questions
        },
        _ => Set::empty(),
    }
}

/// The questions that an aggregation can ask about the field of what it aggregates.
spec fn aggregate_questions(field: FieldView) -> Set<QueryView> {
    set![
        QueryView::Rule(RuleQueryView::Unary(UnaryRule::Sum, field.dtype)),
        QueryView::Rule(RuleQueryView::Unary(UnaryRule::Mean, field.dtype)),
        QueryView::Flag(FlagQueryView::IsNumeric(field.dtype)),
        QueryView::Text(TextQueryView::DataType(field.dtype)),
        QueryView::Type(TypeQueryView::DDSketch),
        QueryView::Type(TypeQueryView::HyperLogLog),
        QueryView::Field(FieldQueryView::ToList(field)),
    ]
}

/// The questions that typing an expression over replies of one engine can ask.
proof fn field_questions(e: ExprView, schema: SchemaView, m: RepliesView) -> (questions: Set<
    QueryView,
>)
    ensures
        questions.finite(),
        forall|r: RepliesView| #[trigger]
            extends(m, r) ==> asks_within(field_of(e, schema, r), questions),
    decreases e,
{
    match e {
        ExprView::Cast(..) | ExprView::IsNull(_) | ExprView::NotNull(_) => Set::empty(),
        ExprView::Column(name) => Set::empty().insert(
            QueryView::Error(ErrorQueryView::MissingColumn(name, schema)),
        ),
        ExprView::Literal(value) => Set::empty().insert(
            QueryView::Type(TypeQueryView::Literal(value)),
        ),
        ExprView::Function { func, inputs } => Set::empty().insert(
            QueryView::Field(FieldQueryView::Function(func, inputs, schema)),
        ),
        ExprView::ScalarFunction(func) => Set::empty().insert(
            QueryView::Field(FieldQueryView::ScalarFunction(func, schema)),
        ),
        ExprView::Alias(inner, _) => {
            let inner_questions = field_questions(*inner, schema, m);
            let questions = inner_questions;
            assert forall|r: RepliesView| #[trigger] extends(m, r) implies asks_within(
                field_of(e, schema, r),
                questions,
            ) by {
                law_field_stays(*inner, schema, r, m);
                assert(asks_within(field_of(*inner, schema, r), inner_questions));
            }
            questions
        },
        ExprView::Not(inner) => {
            let inner_questions = field_questions(*inner, schema, m);
            let f0 = field_of(*inner, schema, m)->Ok_0;
            let questions = inner_questions.insert(
                QueryView::Text(TextQueryView::Field(f0)),
            );
            assert forall|r: RepliesView| #[trigger] extends(m, r) implies asks_within(
                field_of(e, schema, r),
                questions,
            ) by {
                law_field_stays(*inner, schema, r, m);
                assert(asks_within(field_of(*inner, schema, r), inner_questions));
            }
            questions
        },
        ExprView::FillNull(inner, fill) => {
            let first = field_questions(*inner, schema, m);
            let second = field_questions(*fill, schema, m);
            let f0 = field_of(*inner, schema, m)->Ok_0;
            let f1 = field_of(*fill, schema, m)->Ok_0;
            let questions = first.union(second).insert(
                QueryView::Rule(RuleQueryView::Binary(BinaryRule::Supertype, f0.dtype, f1.dtype)),
            ).insert(
                QueryView::Text(TextQueryView::Field(f0)),
            ).insert(
                QueryView::Text(TextQueryView::Field(f1)),
            );
            assert forall|r: RepliesView| #[trigger] extends(m, r) implies asks_within(
                field_of(e, schema, r),
                questions,
            ) by {
                law_field_stays(*inner, schema, r, m);
                law_field_stays(*fill, schema, r, m);
                assert(asks_within(field_of(*inner, schema, r), first));
                assert(asks_within(field_of(*fill, schema, r), second));
            }
            questions
        },
        ExprView::IsIn(inner, items) => {
            let first = field_questions(*inner, schema, m);
            let second = field_questions(*items, schema, m);
            let f0 = field_of(*inner, schema, m)->Ok_0;
            let f1 = field_of(*items, schema, m)->Ok_0;
            let questions = first.union(second).insert(
                QueryView::Rule(RuleQueryView::Binary(BinaryRule::Membership, f0.dtype, f1.dtype)),
            );
            assert forall|r: RepliesView| #[trigger] extends(m, r) implies asks_within(
                field_of(e, schema, r),
                questions,
            ) by {
                law_field_stays(*inner, schema, r, m);
                law_field_stays(*items, schema, r, m);
                assert(asks_within(field_of(*inner, schema, r), first));
                assert(asks_within(field_of(*items, schema, r), second));
            }
            questions
        },
        ExprView::Between(inner, lower, upper) => {
            let first = field_questions(*inner, schema, m);
            let second = field_questions(*lower, schema, m);
            let third = field_questions(*upper, schema, m);
            let f0 = field_of(*inner, schema, m)->Ok_0;
            let f1 = field_of(*lower, schema, m)->Ok_0;
            let f2 = field_of(*upper, schema, m)->Ok_0;
            let above = rule_for(
                m,
                RuleQueryView::Binary(BinaryRule::Membership, f0.dtype, f1.dtype),
            )->Ok_0;
            let below = rule_for(
                m,
                RuleQueryView::Binary(BinaryRule::Membership, f0.dtype, f2.dtype),
            )->Ok_0;
            let questions = first.union(second).union(third).insert(
                QueryView::Rule(RuleQueryView::Binary(BinaryRule::Membership, f0.dtype, f1.dtype)),
            ).insert(
                QueryView::Rule(RuleQueryView::Binary(BinaryRule::Membership, f0.dtype, f2.dtype)),
            ).insert(
                QueryView::Rule(RuleQueryView::Binary(BinaryRule::Membership, above, below)),
            );
            assert forall|r: RepliesView| #[trigger] extends(m, r) implies asks_within(
                field_of(e, schema, r),
                questions,
            ) by {
                law_field_stays(*inner, schema, r, m);
                law_field_stays(*lower, schema, r, m);
                law_field_stays(*upper, schema, r, m);
                assert(asks_within(field_of(*inner, schema, r), first));
                assert(asks_within(field_of(*lower, schema, r), second));
                assert(asks_within(field_of(*upper, schema, r), third));
            }
            questions
        },
        ExprView::BinaryOp { op, left, right } => {
            let first = field_questions(*left, schema, m);
            let second = field_questions(*right, schema, m);
            let f0 = field_of(*left, schema, m)->Ok_0;
            let f1 = field_of(*right, schema, m)->Ok_0;
            let questions = first.union(second).insert(
                QueryView::Rule(RuleQueryView::Binary(operator_rule(op)->0, f0.dtype, f1.dtype)),
            );
            assert forall|r: RepliesView| #[trigger] extends(m, r) implies asks_within(
                field_of(e, schema, r),
                questions,
            ) by {
                law_field_stays(*left, schema, r, m);
                law_field_stays(*right, schema, r, m);
                assert(asks_within(field_of(*left, schema, r), first));
                assert(asks_within(field_of(*right, schema, r), second));
            }
            questions
        },
        ExprView::IfElse { if_true, if_false, predicate } => {
            let first = field_questions(*if_true, schema, m);
            let second = field_questions(*if_false, schema, m);
            let third = field_questions(*predicate, schema, m);
            let f0 = field_of(*if_true, schema, m)->Ok_0;
            let f1 = field_of(*if_false, schema, m)->Ok_0;
            let f2 = field_of(*predicate, schema, m)->Ok_0;
            let questions = first.union(second).union(third).insert(
                QueryView::Rule(RuleQueryView::Binary(BinaryRule::Supertype, f0.dtype, f1.dtype)),
            ).insert(
                QueryView::Text(TextQueryView::Field(f0)),
            ).insert(
                QueryView::Text(TextQueryView::Field(f1)),
            ).insert(
                QueryView::Text(TextQueryView::Field(f2)),
            );
            assert forall|r: RepliesView| #[trigger] extends(m, r) implies asks_within(
                field_of(e, schema, r),
                questions,
            ) by {
                law_field_stays(*if_true, schema, r, m);
                law_field_stays(*if_false, schema, r, m);
                law_field_stays(*predicate, schema, r, m);
                assert(asks_within(field_of(*if_true, schema, r), first));
                assert(asks_within(field_of(*if_false, schema, r), second));
                assert(asks_within(field_of(*predicate, schema, r), third));
            }
            questions
        },
        ExprView::Agg(agg) => {
            let questions = agg_field_questions(agg, schema, m);
            assert forall|r: RepliesView| #[trigger] extends(m, r) implies asks_within(
                field_of(e, schema, r),
                questions,
            ) by {
                assert(asks_within(agg_field_of(agg, schema, r), questions));
            }
            questions
        },
    }
}

/// The questions that typing an aggregation over replies of one engine can ask.
proof fn agg_field_questions(agg: AggExprView, schema: SchemaView, m: RepliesView) -> (questions:
    Set<QueryView>)
    ensures
        questions.finite(),
        forall|r: RepliesView| #[trigger]
            extends(m, r) ==> asks_within(agg_field_of(agg, schema, r), questions),
    decreases agg,
{
    match agg {
        AggExprView::MapGroups { func, inputs } => Set::empty().insert(
            QueryView::Field(FieldQueryView::Function(func, inputs, schema)),
        ),
        _ => {
            let child = aggregand(agg)->0;
            let inner_questions = field_questions(child, schema, m);
            let field = field_of(child, schema, m)->Ok_0;
            let questions = inner_questions.union(aggregate_questions(field));
            assert forall|r: RepliesView| #[trigger] extends(m, r) implies asks_within(
                agg_field_of(agg, schema, r),
                questions,
            ) by {
                law_field_stays(child, schema, r, m);
                assert(asks_within(field_of(child, schema, r), inner_questions));
                assert(asks_within(aggregated(agg, field, r), aggregate_questions(field)));
            }
            questions
        },
    }
}

/// Whether whatever an expression asks over the given replies is one of the given questions.
pub open spec fn all_asks_within(
    e: ExprView,
    schema: SchemaView,
    r: RepliesView,
    questions: Set<QueryView>,
) -> bool {
    &&& asks_within(field_of(e, schema, r), questions)
    &&& asks_within(id_of(e, schema, r), questions)
    &&& asks_within(text_of(e, r), questions)
    &&& asks_within(sql_text_of(e, r), questions)
    &&& asks_within(mapping_of(e, r), questions)
}

/// Law: there are finitely many questions such that, over whatever replies of one engine, an
/// expression asks no others. As nothing is asked that has a reply, asking ends.
pub proof fn law_finitely_many_questions(e: ExprView, schema: SchemaView, engine: RepliesView)
    ensures
        exists|questions: Set<QueryView>|
            {
                &&& questions.finite()
                &&& forall|r: RepliesView| #[trigger]
                    extends(engine, r) ==> all_asks_within(e, schema, r, questions)
            },
{
    let _ = questions_of(e, schema, engine);
}

/// The questions that an expression can ask over replies of one engine.
proof fn questions_of(e: ExprView, schema: SchemaView, engine: RepliesView) -> (questions: Set<
    QueryView,
>)
    ensures
        questions.finite(),
        forall|r: RepliesView| #[trigger]
            extends(engine, r) ==> all_asks_within(e, schema, r, questions),
{
    let typed = field_questions(e, schema, engine);
    let identified = id_questions(e, schema);
    let shown = text_questions(e);
    let translated = sql_questions(e);
    let questions = typed.union(identified).union(shown).union(translated).insert(
        QueryView::Columns(e),
    ).insert(QueryView::Flag(FlagQueryView::RequiresComputation(e)));
    assert forall|r: RepliesView| #[trigger] extends(engine, r) implies all_asks_within(
        e,
        schema,
        r,
        questions,
    ) by {
        assert(asks_within(field_of(e, schema, r), typed));
        assert(asks_within(id_of(e, schema, r), identified));
        assert(asks_within(text_of(e, r), shown));
        assert(asks_within(sql_of(e, r), translated));
    }
    questions
}

/// Whether there are finitely many replies.
pub open spec fn is_finite(r: RepliesView) -> bool {
    exists|questions: Set<QueryView>| #[trigger]
        questions.finite() && forall|q: QueryView| #[trigger]
            is_answered(r, q) ==> questions.contains(q)
}

/// The replies to some questions among all replies.
spec fn replies_to(engine: RepliesView, questions: Set<QueryView>) -> RepliesView {
    RepliesView {
        flags: engine.flags.restrict(Set::new(|q| questions.contains(QueryView::Flag(q)))),
        texts: engine.texts.restrict(Set::new(|q| questions.contains(QueryView::Text(q)))),
        types: engine.types.restrict(Set::new(|q| questions.contains(QueryView::Type(q)))),
        rules: engine.rules.restrict(Set::new(|q| questions.contains(QueryView::Rule(q)))),
        fields: engine.fields.restrict(Set::new(|q| questions.contains(QueryView::Field(q)))),
        errors: engine.errors.restrict(Set::new(|q| questions.contains(QueryView::Error(q)))),
        sql: engine.sql.restrict(Set::new(|q| questions.contains(QueryView::Sql(q)))),
        columns: engine.columns.restrict(Set::new(|q| questions.contains(QueryView::Columns(q)))),
    }
}

/// Law: of an engine that can answer every question, finitely many replies leave nothing to ask
/// of an expression.
pub proof fn law_finite_replies_decide(e: ExprView, schema: SchemaView, engine: RepliesView)
    requires
        forall|q: QueryView| #[trigger] is_answered(engine, q),
    ensures
        exists|r: RepliesView|
            {
                &&& #[trigger] extends(engine, r)
                &&& is_finite(r)
                &&& id_of(e, schema, r) is Ok
                &&& text_of(e, r) is Ok
                &&& sql_text_of(e, r) is Ok
                &&& mapping_of(e, r) is Ok
                &&& !(field_of(e, schema, r) matches Err(HaltView::Ask(_)))
            },
{
    let questions = questions_of(e, schema, engine);
    let r = replies_to(engine, questions);
    assert(extends(engine, r));
    assert forall|q: QueryView| #[trigger] is_answered(r, q) <==> questions.contains(q) by {
        assert(is_answered(engine, q));
    }
    assert(questions.finite());
    assert(is_finite(r));
    assert(all_asks_within(e, schema, r, questions));
    law_id_asks_what_is_open(e, schema, r);
    law_text_asks_what_is_open(e, r);
    law_sql_asks_what_is_open(e, r);
    law_mapping_asks_what_is_open(e, r);
    law_field_asks_what_is_open(e, schema, r);
}

/// Whether an exchange with an engine types an expression: each step asks, and the next step has
/// all replies of this one and the reply to its question.
pub open spec fn is_typing_exchange(
    e: ExprView,
    schema: SchemaView,
    engine: RepliesView,
    steps: Seq<RepliesView>,
) -> bool {
    &&& forall|i: int| 0 <= i < steps.len() ==> extends(engine, #[trigger] steps[i])
    &&& forall|i: int, j: int|
        0 <= i < j < steps.len() ==> #[trigger] extends(steps[j], steps[i])
    &&& forall|i: int|
        0 <= i < steps.len() ==> (field_of(e, schema, #[trigger] steps[i]) matches Err(
            HaltView::Ask(_),
        ))
    &&& forall|i: int, j: int|
        0 <= i < j < steps.len() ==> #[trigger] is_answered(
            steps[j],
            question_at(e, schema, steps[i]),
        )
}

/// The question that typing an expression asks over the given replies.
pub open spec fn question_at(e: ExprView, schema: SchemaView, r: RepliesView) -> QueryView {
    field_of(e, schema, r)->Err_0->Ask_0
}

/// Whether no exchange with an engine that types an expression has more steps than the bound.
pub open spec fn bounds_typing(
    e: ExprView,
    schema: SchemaView,
    engine: RepliesView,
    bound: nat,
) -> bool {
    forall|steps: Seq<RepliesView>| #[trigger]
        is_typing_exchange(e, schema, engine, steps) ==> steps.len() <= bound
}

/// Law: exchanges with one engine to type one expression cannot go on for ever: there is a
/// number that none of them has more steps than.
pub proof fn law_typing_exchanges_end(e: ExprView, schema: SchemaView, engine: RepliesView)
    ensures
        exists|bound: nat| bounds_typing(e, schema, engine, bound),
{
    let questions = questions_of(e, schema, engine);
    assert forall|steps: Seq<RepliesView>| #[trigger]
        is_typing_exchange(e, schema, engine, steps) implies steps.len() <= questions.len() by {
        let asked = steps.map_values(|r: RepliesView| question_at(e, schema, r));
        assert forall|i: int, j: int| 0 <= i < j < asked.len() implies asked[i] != asked[j] by {
            law_field_asks_what_is_open(e, schema, steps[j]);
            assert(is_answered(steps[j], question_at(e, schema, steps[i])));
            assert(field_of(e, schema, steps[j]) matches Err(HaltView::Ask(_)));
        }
        assert(asked.no_duplicates());
        asked.unique_seq_to_set();
        assert forall|q: QueryView| asked.to_set().contains(q) implies questions.contains(q) by {
            let i = choose|i: int| 0 <= i < asked.len() && asked[i] == q;
            assert(extends(engine, steps[i]));
            assert(all_asks_within(e, schema, steps[i], questions));
        }
        lemma_len_subset(asked.to_set(), questions);
    }
    assert(bounds_typing(e, schema, engine, questions.len()));
}

} // verus!
