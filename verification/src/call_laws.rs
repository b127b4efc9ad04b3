//! What calls of the library give back, in terms of the values that the laws speak of.
use vstd::prelude::*;

use crate::builders::{binary_op, col, named_aggregation};
use crate::datatypes::{fields_view, CountMode, DataType, DataTypeView, Field, FieldView};
use crate::display::{agg_text_of, text_of};
use crate::error::{DaftError, DaftErrorView, DaftResult};
use crate::expr::{refs_view, AggExpr, AggExprView, Expr, ExprRef, ExprView};
use crate::functions::FunctionExprView;
use crate::lit::{FloatWrapper, LiteralValue};
use crate::mapping::mapping_of;
use crate::naming::{agg_name_of, all_named, is_partition_compatible, name_of, same_names};
use crate::operator::{operator_token, sql_operator, yields_truth, Operator};
use crate::query::{
    ErrorQuery, ErrorQueryView, FieldQuery, FieldQueryView, FlagQuery, FlagQueryView, Halt,
    HaltView, Query, QueryView, RuleQuery, RuleQueryView, TextQuery, TextQueryView, TypeQuery,
    TypeQueryView,
};
use crate::replies::Replies;
use crate::schema::{law_lookup_finds_by_name, name_is_free, names_differ, FieldID, Schema};
use crate::semantic::{agg_id_of, id_of};
use crate::sql::sql_text_of;
use crate::tree::{
    agg_children_of, agg_with_children, children_of, contains_agg, takes_children, with_children,
};
use crate::typing::{agg_field_of, field_of, type_of};

verus! {

/// Law: `try_to_field` on an expression gives its field, or why it has none.
pub proof fn law_try_to_field_of_expression(
    e: Expr,
    schema: Schema,
    replies: Replies,
    result: Result<Field, Halt>,
)
    requires
        call_ensures(Expr::try_to_field, (&e, &schema, &replies), result),
    ensures
        match result {
            Ok(found) => field_of(e@, schema@, replies@) == Ok::<FieldView, HaltView>(FieldView { name: found.name@, dtype: found.dtype@ }),
            Err(halt) => field_of(e@, schema@, replies@) == Err::<FieldView, HaltView>(halt@),
        },
{
}

/// Law: `to_field` on an expression gives its field, or why it has none.
pub proof fn law_to_field_of_expression(
    e: Expr,
    schema: Schema,
    replies: Replies,
    result: Result<Field, Halt>,
)
    requires
        call_ensures(Expr::to_field, (&e, &schema, &replies), result),
    ensures
        match result {
            Ok(found) => field_of(e@, schema@, replies@) == Ok::<FieldView, HaltView>(FieldView { name: found.name@, dtype: found.dtype@ }),
            Err(halt) => field_of(e@, schema@, replies@) == Err::<FieldView, HaltView>(halt@),
        },
{
}

/// Law: `try_to_field` on an aggregation gives its field, or why it has none.
pub proof fn law_try_to_field_of_aggregation(
    agg: AggExpr,
    schema: Schema,
    replies: Replies,
    result: Result<Field, Halt>,
)
    requires
        call_ensures(AggExpr::try_to_field, (&agg, &schema, &replies), result),
    ensures
        match result {
            Ok(found) => agg_field_of(agg@, schema@, replies@) == Ok::<FieldView, HaltView>(FieldView { name: found.name@, dtype: found.dtype@ }),
            Err(halt) => agg_field_of(agg@, schema@, replies@) == Err::<FieldView, HaltView>(halt@),
        },
{
}

/// Law: `to_field` on an aggregation gives its field, or why it has none.
pub proof fn law_to_field_of_aggregation(
    agg: AggExpr,
    schema: Schema,
    replies: Replies,
    result: Result<Field, Halt>,
)
    requires
        call_ensures(AggExpr::to_field, (&agg, &schema, &replies), result),
    ensures
        match result {
            Ok(found) => agg_field_of(agg@, schema@, replies@) == Ok::<FieldView, HaltView>(FieldView { name: found.name@, dtype: found.dtype@ }),
            Err(halt) => agg_field_of(agg@, schema@, replies@) == Err::<FieldView, HaltView>(halt@),
        },
{
}

/// Law: `try_get_type` gives the type of the field.
pub proof fn law_try_get_type(
    e: Expr,
    schema: Schema,
    replies: Replies,
    result: Result<DataType, Halt>,
)
    requires
        call_ensures(Expr::try_get_type, (&e, &schema, &replies), result),
    ensures
        match result {
            Ok(found) => type_of(e@, schema@, replies@) == Ok::<DataTypeView, HaltView>(found@),
            Err(halt) => type_of(e@, schema@, replies@) == Err::<DataTypeView, HaltView>(halt@),
        },
{
}

/// Law: `get_type` gives the type of the field.
pub proof fn law_get_type(
    e: Expr,
    schema: Schema,
    replies: Replies,
    result: Result<DataType, Halt>,
)
    requires
        call_ensures(Expr::get_type, (&e, &schema, &replies), result),
    ensures
        match result {
            Ok(found) => type_of(e@, schema@, replies@) == Ok::<DataTypeView, HaltView>(found@),
            Err(halt) => type_of(e@, schema@, replies@) == Err::<DataTypeView, HaltView>(halt@),
        },
{
}

/// Law: `semantic_id` on an expression gives its identifier.
pub proof fn law_semantic_id_of_expression(
    e: Expr,
    schema: Schema,
    replies: Replies,
    result: Result<FieldID, Halt>,
)
    requires
        call_ensures(Expr::semantic_id, (&e, &schema, &replies), result),
    ensures
        match result {
            Ok(found) => id_of(e@, schema@, replies@) == Ok::<Seq<char>, HaltView>(found.id@),
            Err(halt) => id_of(e@, schema@, replies@) == Err::<Seq<char>, HaltView>(halt@),
        },
{
}

/// Law: `semantic_id` on an aggregation gives its identifier.
pub proof fn law_semantic_id_of_aggregation(
    agg: AggExpr,
    schema: Schema,
    replies: Replies,
    result: Result<FieldID, Halt>,
)
    requires
        call_ensures(AggExpr::semantic_id, (&agg, &schema, &replies), result),
    ensures
        match result {
            Ok(found) => agg_id_of(agg@, schema@, replies@) == Ok::<Seq<char>, HaltView>(found.id@),
            Err(halt) => agg_id_of(agg@, schema@, replies@) == Err::<Seq<char>, HaltView>(halt@),
        },
{
}

/// Law: `to_text` on an expression gives its displayed form.
pub proof fn law_to_text_of_expression(
    e: Expr,
    replies: Replies,
    result: Result<String, Halt>,
)
    requires
        call_ensures(Expr::to_text, (&e, &replies), result),
    ensures
        match result {
            Ok(found) => text_of(e@, replies@) == Ok::<Seq<char>, HaltView>(found@),
            Err(halt) => text_of(e@, replies@) == Err::<Seq<char>, HaltView>(halt@),
        },
{
}

/// Law: `to_text` on an aggregation gives its displayed form.
pub proof fn law_to_text_of_aggregation(
    agg: AggExpr,
    replies: Replies,
    result: Result<String, Halt>,
)
    requires
        call_ensures(AggExpr::to_text, (&agg, &replies), result),
    ensures
        match result {
            Ok(found) => agg_text_of(agg@, replies@) == Ok::<Seq<char>, HaltView>(found@),
            Err(halt) => agg_text_of(agg@, replies@) == Err::<Seq<char>, HaltView>(halt@),
        },
{
}

/// Law: `to_sql` gives the SQL text.
pub proof fn law_to_sql(
    e: Expr,
    replies: Replies,
    result: Result<Option<String>, Halt>,
)
    requires
        call_ensures(Expr::to_sql, (&e, &replies), result),
    ensures
        match result {
            Ok(Some(found)) => sql_text_of(e@, replies@) == Ok::<Option<Seq<char>>, HaltView>(
                Some(found@),
            ),
            Ok(None) => sql_text_of(e@, replies@) == Ok::<Option<Seq<char>>, HaltView>(None),
            Err(halt) => sql_text_of(e@, replies@) == Err::<Option<Seq<char>>, HaltView>(halt@),
        },
{
}

/// Law: `input_mapping` gives the column that passes through.
pub proof fn law_input_mapping(
    e: ExprRef,
    replies: Replies,
    result: Result<Option<String>, Halt>,
)
    requires
        call_ensures(Expr::input_mapping, (&e, &replies), result),
    ensures
        match result {
            Ok(Some(found)) => mapping_of((*e)@, replies@) == Ok::<Option<Seq<char>>, HaltView>(
                Some(found@),
            ),
            Ok(None) => mapping_of((*e)@, replies@) == Ok::<Option<Seq<char>>, HaltView>(None),
            Err(halt) => mapping_of((*e)@, replies@) == Err::<Option<Seq<char>>, HaltView>(halt@),
        },
{
}

/// Law: `try_name` on an expression gives its name, where it has one.
pub proof fn law_try_name_of_expression(
    e: Expr,
    result: Option<&str>,
)
    requires
        call_ensures(Expr::try_name, (&e,), result),
    ensures
        match result {
            Some(found) => name_of(e@) == Some(found@),
            None => name_of(e@) is None,
        },
{
}

/// Law: `name` on an expression gives its name.
pub proof fn law_name_of_expression(
    e: Expr,
    result: &str,
)
    requires
        name_of(e@) is Some,
        call_ensures(Expr::name, (&e,), result),
    ensures
        name_of(e@) == Some(result@),
{
}

/// Law: `try_name` on an aggregation gives its name, where it has one.
pub proof fn law_try_name_of_aggregation(
    agg: AggExpr,
    result: Option<&str>,
)
    requires
        call_ensures(AggExpr::try_name, (&agg,), result),
    ensures
        match result {
            Some(found) => agg_name_of(agg@) == Some(found@),
            None => agg_name_of(agg@) is None,
        },
{
}

/// Law: `name` on an aggregation gives its name.
pub proof fn law_name_of_aggregation(
    agg: AggExpr,
    result: &str,
)
    requires
        agg_name_of(agg@) is Some,
        call_ensures(AggExpr::name, (&agg,), result),
    ensures
        agg_name_of(agg@) == Some(result@),
{
}

/// Law: `children` on an expression gives its parts, in order.
pub proof fn law_children_of_expression(
    e: Expr,
    result: Vec<ExprRef>,
)
    requires
        call_ensures(Expr::children, (&e,), result),
    ensures
        result@.len() == children_of(e@).len(),
        forall|i: int| 0 <= i < result@.len() ==> (*#[trigger] result@[i])@ == children_of(e@)[i],
{
    assert forall|i: int| 0 <= i < result@.len() implies (*#[trigger] result@[i])@ == children_of(
        e@,
    )[i] by {
        assert(refs_view(result@)[i] == (*result@[i])@);
    }
}

/// Law: `with_new_children` and its total form on an expression give it with the new parts, the
/// total form exactly where it takes so many.
pub proof fn law_with_new_children_of_expression(
    e: Expr,
    parts: Vec<ExprRef>,
    result: Expr,
    tried: Option<Expr>,
)
    requires
        takes_children(e@, parts@.len()),
        call_ensures(Expr::with_new_children, (&e, parts), result),
        call_ensures(Expr::try_with_new_children, (&e, parts), tried),
    ensures
        result@ == with_children(e@, refs_view(parts@)),
        tried is Some,
        tried->0@ == result@,
{
}

/// Law: the total form of `with_new_children` on an expression gives nothing exactly where it does
/// not take so many parts.
pub proof fn law_try_with_new_children_of_expression(
    e: Expr,
    parts: Vec<ExprRef>,
    tried: Option<Expr>,
)
    requires
        call_ensures(Expr::try_with_new_children, (&e, parts), tried),
    ensures
        tried is None <==> !(takes_children(e@, parts@.len())),
{
}

/// Law: `children` on an aggregation gives its parts, in order.
pub proof fn law_children_of_aggregation(
    agg: AggExpr,
    result: Vec<ExprRef>,
)
    requires
        call_ensures(AggExpr::children, (&agg,), result),
    ensures
        result@.len() == agg_children_of(agg@).len(),
        forall|i: int| 0 <= i < result@.len() ==> (*#[trigger] result@[i])@ == agg_children_of(agg@)[i],
{
    assert forall|i: int| 0 <= i < result@.len() implies (*#[trigger] result@[i])@ == agg_children_of(
        agg@,
    )[i] by {
        assert(refs_view(result@)[i] == (*result@[i])@);
    }
}

/// Law: `with_new_children` and its total form on an aggregation give it with the new parts, the
/// total form exactly where it takes so many.
pub proof fn law_with_new_children_of_aggregation(
    agg: AggExpr,
    parts: Vec<ExprRef>,
    result: AggExpr,
    tried: Option<AggExpr>,
)
    requires
        parts@.len() == agg_children_of(agg@).len(),
        call_ensures(AggExpr::with_new_children, (&agg, parts), result),
        call_ensures(AggExpr::try_with_new_children, (&agg, parts), tried),
    ensures
        result@ == agg_with_children(agg@, refs_view(parts@)),
        tried is Some,
        tried->0@ == result@,
{
}

/// Law: the total form of `with_new_children` on an aggregation gives nothing exactly where it does
/// not take so many parts.
pub proof fn law_try_with_new_children_of_aggregation(
    agg: AggExpr,
    parts: Vec<ExprRef>,
    tried: Option<AggExpr>,
)
    requires
        call_ensures(AggExpr::try_with_new_children, (&agg, parts), tried),
    ensures
        tried is None <==> !(parts@.len() == agg_children_of(agg@).len()),
{
}

/// Law: `accepts_children` says how many parts an expression takes.
pub proof fn law_accepts_children(
    e: Expr,
    count: usize,
    result: bool,
)
    requires
        call_ensures(Expr::accepts_children, (&e, count), result),
    ensures
        result == takes_children(e@, count as nat),
{
}

/// Law: `has_agg` says whether an aggregation occurs.
pub proof fn law_has_agg(
    e: Expr,
    result: bool,
)
    requires
        call_ensures(Expr::has_agg, (&e,), result),
    ensures
        result == contains_agg(e@),
{
}

/// Law: `as_literal` gives the literal of a literal and nothing of anything else.
pub proof fn law_as_literal(
    e: Expr,
    result: Option<&LiteralValue>,
)
    requires
        call_ensures(Expr::as_literal, (&e,), result),
    ensures
        match e@ {
            ExprView::Literal(value) => result is Some && result->0@ == value,
            _ => result is None,
        },
{
}

/// Law: `is_partition_compatible` says whether two lists of named columns have the same names.
pub proof fn law_is_partition_compatible(
    a: &[ExprRef],
    b: &[ExprRef],
    result: bool,
)
    requires
        all_named(refs_view(a@)),
        all_named(refs_view(b@)),
        call_ensures(is_partition_compatible, (a, b), result),
    ensures
        result == same_names(refs_view(a@), refs_view(b@)),
{
}

/// Law: `from_name_and_child_expr` gives the aggregation of a name, and refuses a name that stands
/// for none by saying so.
pub proof fn law_from_name_and_child_expr(
    name: &str,
    child: ExprRef,
    result: DaftResult<AggExpr>,
)
    requires
        call_ensures(AggExpr::from_name_and_child_expr, (name, child), result),
    ensures
        match named_aggregation(name@, (*child)@) {
            Some(agg) => result is Ok && result->Ok_0@ == agg,
            None => result is Err && result->Err_0@ == DaftErrorView::ValueError(
                name@ + " not a valid aggregation name"@,
            ),
        },
{
}

/// Law: expressions and aggregations are equal exactly where their values are.
pub proof fn law_equality(
    e: Expr,
    f: Expr,
    agg: AggExpr,
    other: AggExpr,
    p: bool,
    q: bool,
)
    requires
        call_ensures(Expr::same, (&e, &f), p),
        call_ensures(AggExpr::same, (&agg, &other), q),
    ensures
        p == (e@ == f@),
        q == (agg@ == other@),
{
}

/// Law: what an operator says of itself.
pub proof fn law_operator_calls(
    op: Operator,
    token: &'static str,
    text: String,
    sql: Option<&'static str>,
    compared: bool,
    computed: bool,
)
    requires
        call_ensures(Operator::token, (&op,), token),
        call_ensures(Operator::to_text, (&op,), text),
        call_ensures(Operator::sql_token, (&op,), sql),
        call_ensures(Operator::is_comparison, (&op,), compared),
        call_ensures(Operator::is_arithmetic, (&op,), computed),
    ensures
        token@ == operator_token(op),
        text@ == operator_token(op),
        sql is Some <==> sql_operator(op) is Some,
        sql is Some ==> sql_operator(op) == Some(sql->0@),
        compared == yields_truth(op),
        computed == !yields_truth(op),
{
}

/// Law: what `not` builds.
pub proof fn law_built_by_not(
    e: ExprRef,
    result: ExprRef,
)
    requires
        call_ensures(Expr::not, (e,), result),
    ensures
        (*result)@ == ExprView::Not(Box::new((*e)@)),
{
}

/// Law: what `is_null` builds.
pub proof fn law_built_by_is_null(
    e: ExprRef,
    result: ExprRef,
)
    requires
        call_ensures(Expr::is_null, (e,), result),
    ensures
        (*result)@ == ExprView::IsNull(Box::new((*e)@)),
{
}

/// Law: what `not_null` builds.
pub proof fn law_built_by_not_null(
    e: ExprRef,
    result: ExprRef,
)
    requires
        call_ensures(Expr::not_null, (e,), result),
    ensures
        (*result)@ == ExprView::NotNull(Box::new((*e)@)),
{
}

/// Law: what `sum` builds.
pub proof fn law_built_by_sum(
    e: ExprRef,
    result: ExprRef,
)
    requires
        call_ensures(Expr::sum, (e,), result),
    ensures
        (*result)@ == ExprView::Agg(AggExprView::Sum(Box::new((*e)@))),
{
}

/// Law: what `approx_count_distinct` builds.
pub proof fn law_built_by_approx_count_distinct(
    e: ExprRef,
    result: ExprRef,
)
    requires
        call_ensures(Expr::approx_count_distinct, (e,), result),
    ensures
        (*result)@ == ExprView::Agg(AggExprView::ApproxCountDistinct(Box::new((*e)@))),
{
}

/// Law: what `mean` builds.
pub proof fn law_built_by_mean(
    e: ExprRef,
    result: ExprRef,
)
    requires
        call_ensures(Expr::mean, (e,), result),
    ensures
        (*result)@ == ExprView::Agg(AggExprView::Mean(Box::new((*e)@))),
{
}

/// Law: what `min` builds.
pub proof fn law_built_by_min(
    e: ExprRef,
    result: ExprRef,
)
    requires
        call_ensures(Expr::min, (e,), result),
    ensures
        (*result)@ == ExprView::Agg(AggExprView::Min(Box::new((*e)@))),
{
}

/// Law: what `max` builds.
pub proof fn law_built_by_max(
    e: ExprRef,
    result: ExprRef,
)
    requires
        call_ensures(Expr::max, (e,), result),
    ensures
        (*result)@ == ExprView::Agg(AggExprView::Max(Box::new((*e)@))),
{
}

/// Law: what `agg_list` builds.
pub proof fn law_built_by_agg_list(
    e: ExprRef,
    result: ExprRef,
)
    requires
        call_ensures(Expr::agg_list, (e,), result),
    ensures
        (*result)@ == ExprView::Agg(AggExprView::List(Box::new((*e)@))),
{
}

/// Law: what `agg_concat` builds.
pub proof fn law_built_by_agg_concat(
    e: ExprRef,
    result: ExprRef,
)
    requires
        call_ensures(Expr::agg_concat, (e,), result),
    ensures
        (*result)@ == ExprView::Agg(AggExprView::Concat(Box::new((*e)@))),
{
}

/// Law: what `count` builds.
pub proof fn law_built_by_count(
    e: ExprRef,
    mode: CountMode,
    result: ExprRef,
)
    requires
        call_ensures(Expr::count, (e, mode), result),
    ensures
        (*result)@ == ExprView::Agg(AggExprView::Count(Box::new((*e)@), mode)),
{
}

/// Law: what `any_value` builds.
pub proof fn law_built_by_any_value(
    e: ExprRef,
    flag: bool,
    result: ExprRef,
)
    requires
        call_ensures(Expr::any_value, (e, flag), result),
    ensures
        (*result)@ == ExprView::Agg(AggExprView::AnyValue(Box::new((*e)@), flag)),
{
}

/// Law: what `cast` builds.
pub proof fn law_built_by_cast(
    e: ExprRef,
    dtype: DataType,
    result: ExprRef,
)
    requires
        call_ensures(Expr::cast, (e, &dtype), result),
    ensures
        (*result)@ == ExprView::Cast(Box::new((*e)@), dtype@),
{
}

/// Law: what `fill_null` builds.
pub proof fn law_built_by_fill_null(
    e: ExprRef,
    other: ExprRef,
    result: ExprRef,
)
    requires
        call_ensures(Expr::fill_null, (e, other), result),
    ensures
        (*result)@ == ExprView::FillNull(Box::new((*e)@), Box::new((*other)@)),
{
}

/// Law: what `is_in` builds.
pub proof fn law_built_by_is_in(
    e: ExprRef,
    other: ExprRef,
    result: ExprRef,
)
    requires
        call_ensures(Expr::is_in, (e, other), result),
    ensures
        (*result)@ == ExprView::IsIn(Box::new((*e)@), Box::new((*other)@)),
{
}

/// Law: what `between` builds.
pub proof fn law_built_by_between(
    e: ExprRef,
    lower: ExprRef,
    upper: ExprRef,
    result: ExprRef,
)
    requires
        call_ensures(Expr::between, (e, lower, upper), result),
    ensures
        (*result)@ == ExprView::Between(
            Box::new((*e)@),
            Box::new((*lower)@),
            Box::new((*upper)@),
        ),
{
}

/// Law: what `if_else` builds.
pub proof fn law_built_by_if_else(
    e: ExprRef,
    if_true: ExprRef,
    if_false: ExprRef,
    result: ExprRef,
)
    requires
        call_ensures(Expr::if_else, (e, if_true, if_false), result),
    ensures
        (*result)@ == (ExprView::IfElse {
            if_true: Box::new((*if_true)@),
            if_false: Box::new((*if_false)@),
            predicate: Box::new((*e)@),
        }),
{
}

/// Law: what `eq` builds.
pub proof fn law_built_by_eq(
    e: ExprRef,
    other: ExprRef,
    result: ExprRef,
)
    requires
        call_ensures(Expr::eq, (e, other), result),
    ensures
        (*result)@ == (ExprView::BinaryOp {
            op: Operator::Eq,
            left: Box::new((*e)@),
            right: Box::new((*other)@),
        }),
{
}

/// Law: what `not_eq` builds.
pub proof fn law_built_by_not_eq(
    e: ExprRef,
    other: ExprRef,
    result: ExprRef,
)
    requires
        call_ensures(Expr::not_eq, (e, other), result),
    ensures
        (*result)@ == (ExprView::BinaryOp {
            op: Operator::NotEq,
            left: Box::new((*e)@),
            right: Box::new((*other)@),
        }),
{
}

/// Law: what `and` builds.
pub proof fn law_built_by_and(
    e: ExprRef,
    other: ExprRef,
    result: ExprRef,
)
    requires
        call_ensures(Expr::and, (e, other), result),
    ensures
        (*result)@ == (ExprView::BinaryOp {
            op: Operator::And,
            left: Box::new((*e)@),
            right: Box::new((*other)@),
        }),
{
}

/// Law: what `or` builds.
pub proof fn law_built_by_or(
    e: ExprRef,
    other: ExprRef,
    result: ExprRef,
)
    requires
        call_ensures(Expr::or, (e, other), result),
    ensures
        (*result)@ == (ExprView::BinaryOp {
            op: Operator::Or,
            left: Box::new((*e)@),
            right: Box::new((*other)@),
        }),
{
}

/// Law: what `lt` builds.
pub proof fn law_built_by_lt(
    e: ExprRef,
    other: ExprRef,
    result: ExprRef,
)
    requires
        call_ensures(Expr::lt, (e, other), result),
    ensures
        (*result)@ == (ExprView::BinaryOp {
            op: Operator::Lt,
            left: Box::new((*e)@),
            right: Box::new((*other)@),
        }),
{
}

/// Law: what `lt_eq` builds.
pub proof fn law_built_by_lt_eq(
    e: ExprRef,
    other: ExprRef,
    result: ExprRef,
)
    requires
        call_ensures(Expr::lt_eq, (e, other), result),
    ensures
        (*result)@ == (ExprView::BinaryOp {
            op: Operator::LtEq,
            left: Box::new((*e)@),
            right: Box::new((*other)@),
        }),
{
}

/// Law: what `gt` builds.
pub proof fn law_built_by_gt(
    e: ExprRef,
    other: ExprRef,
    result: ExprRef,
)
    requires
        call_ensures(Expr::gt, (e, other), result),
    ensures
        (*result)@ == (ExprView::BinaryOp {
            op: Operator::Gt,
            left: Box::new((*e)@),
            right: Box::new((*other)@),
        }),
{
}

/// Law: what `gt_eq` builds.
pub proof fn law_built_by_gt_eq(
    e: ExprRef,
    other: ExprRef,
    result: ExprRef,
)
    requires
        call_ensures(Expr::gt_eq, (e, other), result),
    ensures
        (*result)@ == (ExprView::BinaryOp {
            op: Operator::GtEq,
            left: Box::new((*e)@),
            right: Box::new((*other)@),
        }),
{
}

/// Law: what `approx_percentiles` builds.
pub proof fn law_built_by_approx_percentiles(
    e: ExprRef,
    percentiles: &[FloatWrapper],
    flag: bool,
    result: ExprRef,
)
    requires
        call_ensures(Expr::approx_percentiles, (e, percentiles, flag), result),
    ensures
        (*result)@ == ExprView::Agg(
            (AggExprView::ApproxPercentile {
                child: Box::new((*e)@),
                percentiles: percentiles@,
                force_list_output: flag,
            }),
        ),
{
}

/// Law: what `sketch_percentile` builds.
pub proof fn law_built_by_sketch_percentile(
    e: ExprRef,
    percentiles: &[FloatWrapper],
    flag: bool,
    result: ExprRef,
)
    requires
        call_ensures(Expr::sketch_percentile, (e, percentiles, flag), result),
    ensures
        (*result)@ == (ExprView::Function {
            func: (FunctionExprView::SketchPercentile {
                percentiles: percentiles@,
                force_list_output: flag,
            }),
            inputs: seq![(*e)@],
        }),
{
}

/// Law: what `binary_op` builds.
pub proof fn law_built_by_binary_op(
    op: Operator,
    left: ExprRef,
    right: ExprRef,
    result: ExprRef,
)
    requires
        call_ensures(binary_op, (op, left, right), result),
    ensures
        (*result)@ == (ExprView::BinaryOp {
            op,
            left: Box::new((*left)@),
            right: Box::new((*right)@),
        }),
{
}

/// Law: what `col` and `alias` build from a text.
pub proof fn law_built_by_col_and_alias(
    e: ExprRef,
    text: String,
    name: &'static str,
    a: ExprRef,
    b: ExprRef,
    c: ExprRef,
    d: ExprRef,
)
    requires
        call_ensures(col::<String>, (text,), a),
        call_ensures(col::<&'static str>, (name,), b),
        call_ensures(Expr::alias::<String>, (&e, text), c),
        call_ensures(Expr::alias::<&'static str>, (&e, name), d),
    ensures
        (*a)@ == ExprView::Column(text@),
        (*b)@ == ExprView::Column(name@),
        (*c)@ == ExprView::Alias(Box::new((*e)@), text@),
        (*d)@ == ExprView::Alias(Box::new((*e)@), name@),
{
}

/// Law: `arced` shares the expression as it is.
pub proof fn law_built_by_arced(
    e: Expr,
    result: ExprRef,
)
    requires
        call_ensures(Expr::arced, (e,), result),
    ensures
        *result == e,
{
}

/// Law: a schema without columns has none, a schema made of columns of different names has those
/// columns, and looking a column up finds it by its name.
pub proof fn law_schema_calls(
    fields: Vec<Field>,
    made: DaftResult<Schema>,
    schema: Schema,
    empty: Schema,
    name: &str,
    found: Option<&Field>,
)
    requires
        call_ensures(Schema::empty, (), empty),
        call_ensures(Schema::new, (fields,), made),
        call_ensures(Schema::get_field, (&schema, name), found),
    ensures
        empty@.len() == 0,
        made is Ok <==> forall|i: int, j: int|
            0 <= i < j < fields@.len() ==> (#[trigger] fields@[i]).name@ != (
            #[trigger] fields@[j]).name@,
        made is Ok ==> made->Ok_0@ == fields_view(fields@),
        found is Some ==> found->0.name@ == name@ && schema@.contains(found->0@),
        found is None ==> forall|i: int| 0 <= i < schema@.len() ==> (#[trigger] schema@[i]).name != name@,
{
    law_lookup_finds_by_name(schema@, name@);
    let all = fields_view(fields@);
    assert forall|i: int| 0 <= i < fields@.len() implies (#[trigger] all[i]).name
        == fields@[i].name@ by {
        assert(all[i] == fields@[i]@);
    }
    if made is Ok {
        assert forall|i: int, j: int| 0 <= i < j < fields@.len() implies (
        #[trigger] fields@[i]).name@ != (#[trigger] fields@[j]).name@ by {
            assert(name_is_free(all, j, all[j].name));
            assert(all[i].name == fields@[i].name@);
            assert(all[j].name == fields@[j].name@);
        }
    }
    if forall|i: int, j: int|
        0 <= i < j < fields@.len() ==> (#[trigger] fields@[i]).name@ != (
        #[trigger] fields@[j]).name@ {
        assert forall|j: int| 0 <= j < all.len() implies #[trigger] name_is_free(
            all,
            j,
            all[j].name,
        ) by {
            assert forall|i: int| 0 <= i < j implies (#[trigger] all[i]).name != all[j].name by {
                assert(fields@[i].name@ != fields@[j].name@);
            }
        }
        assert(names_differ(all, all.len() as int));
    }
}

/// Law: what the recorded replies say is handed out as it is, and what they do not say is asked.
pub proof fn law_reply_calls(
    replies: Replies,
    q: TextQuery,
    text: Result<String, Halt>,
    p: FlagQuery,
    flag: Result<bool, Halt>,
    t: TypeQuery,
    dtype: Result<DataType, Halt>,
)
    requires
        call_ensures(Replies::text, (&replies, q), text),
        call_ensures(Replies::flag, (&replies, p), flag),
        call_ensures(Replies::data_type, (&replies, t), dtype),
    ensures
        replies@.texts.contains_key(q@) ==> text is Ok && text->Ok_0@ == replies@.texts[q@],
        !replies@.texts.contains_key(q@) ==> text is Err && text->Err_0@ == HaltView::Ask(
            QueryView::Text(q@),
        ),
        replies@.flags.contains_key(p@) ==> flag is Ok && flag->Ok_0 == replies@.flags[p@],
        !replies@.flags.contains_key(p@) ==> flag is Err && flag->Err_0@ == HaltView::Ask(
            QueryView::Flag(p@),
        ),
        replies@.types.contains_key(t@) ==> dtype is Ok && dtype->Ok_0@ == replies@.types[t@],
        !replies@.types.contains_key(t@) ==> dtype is Err && dtype->Err_0@ == HaltView::Ask(
            QueryView::Type(t@),
        ),
{
}

/// Law: an aggregation becomes the expression of the aggregation.
pub proof fn law_built_from_aggregation(
    agg: AggExpr,
    result: ExprRef,
)
    requires
        call_ensures(<ExprRef as From<&AggExpr>>::from, (&agg,), result),
    ensures
        (*result)@ == ExprView::Agg(agg@),
{
}

/// Law: a field has the name and the type that it was made of; renaming changes the name alone. An
/// identifier has its text.
pub proof fn law_field_calls(
    name: &str,
    dtype: DataType,
    made: Field,
    field: Field,
    renamed: Field,
    text: String,
    id: FieldID,
)
    requires
        call_ensures(Field::new, (name, dtype), made),
        call_ensures(Field::rename, (&field, name), renamed),
        call_ensures(FieldID::new, (text,), id),
    ensures
        made.name@ == name@ && made.dtype@ == dtype@,
        renamed.name@ == name@ && renamed.dtype@ == field.dtype@,
        id.id@ == text@,
{
}

/// Law: copies have the value of what was copied.
pub proof fn law_copies(
    e: Expr,
    copied: Expr,
    agg: AggExpr,
    agg_copied: AggExpr,
    dtype: DataType,
    dtype_copied: DataType,
    value: LiteralValue,
    value_copied: LiteralValue,
)
    requires
        call_ensures(<Expr as Clone>::clone, (&e,), copied),
        call_ensures(<AggExpr as Clone>::clone, (&agg,), agg_copied),
        call_ensures(<DataType as Clone>::clone, (&dtype,), dtype_copied),
        call_ensures(<LiteralValue as Clone>::clone, (&value,), value_copied),
    ensures
        copied@ == e@,
        agg_copied@ == agg@,
        dtype_copied@ == dtype@,
        value_copied@ == value@,
{
}

/// Law: `==` on expressions, aggregations, types and literals holds exactly where the values are the
/// same.
pub proof fn law_equality_operators(
    e: Expr,
    f: Expr,
    agg: AggExpr,
    other: AggExpr,
    s: DataType,
    t: DataType,
    x: LiteralValue,
    y: LiteralValue,
    on_expressions: bool,
    on_aggregations: bool,
    on_types: bool,
    on_literals: bool,
)
    requires
        call_ensures(<Expr as PartialEq>::eq, (&e, &f), on_expressions),
        call_ensures(<AggExpr as PartialEq>::eq, (&agg, &other), on_aggregations),
        call_ensures(<DataType as PartialEq>::eq, (&s, &t), on_types),
        call_ensures(<LiteralValue as PartialEq>::eq, (&x, &y), on_literals),
    ensures
        on_expressions == (e@ == f@),
        on_aggregations == (agg@ == other@),
        on_types == (s@ == t@),
        on_literals == (x@ == y@),
{
}

/// Law: a question has the value of what it asks, in kind and in all it holds.
pub proof fn law_value_of_question(
    text: TextQuery,
    flag: FlagQuery,
    dtype: TypeQuery,
    rule: RuleQuery,
    field: FieldQuery,
    error: ErrorQuery,
)
    ensures
        match text {
            TextQuery::DataType(x) => text@ == TextQueryView::DataType(x@),
            TextQuery::Field(x) => text@ == TextQueryView::Field(x@),
            TextQuery::CountMode(x) => text@ == TextQueryView::CountMode(x),
            TextQuery::Percentiles(x) => text@ == TextQueryView::Percentiles(x@),
            TextQuery::LiteralDebug(x) => text@ == TextQueryView::LiteralDebug(x@),
            TextQuery::Literal(x) => text@ == TextQueryView::Literal(x@),
            TextQuery::FunctionId(f, x, s) => text@ == TextQueryView::FunctionId(
                f@,
                refs_view(x@),
                s@,
            ),
            TextQuery::Function(f, x) => text@ == TextQueryView::Function(f@, refs_view(x@)),
            TextQuery::ScalarFunctionId(f, s) => text@ == TextQueryView::ScalarFunctionId(f@, s@),
            TextQuery::ScalarFunction(f) => text@ == TextQueryView::ScalarFunction(f@),
        },
        match flag {
            FlagQuery::IsNumeric(x) => flag@ == FlagQueryView::IsNumeric(x@),
            FlagQuery::RequiresComputation(x) => flag@ == FlagQueryView::RequiresComputation(
                (*x)@,
            ),
        },
        match dtype {
            TypeQuery::Literal(x) => dtype@ == TypeQueryView::Literal(x@),
            TypeQuery::DDSketch => dtype@ == TypeQueryView::DDSketch,
            TypeQuery::HyperLogLog => dtype@ == TypeQueryView::HyperLogLog,
        },
        match rule {
            RuleQuery::Unary(r, x) => rule@ == RuleQueryView::Unary(r, x@),
            RuleQuery::Binary(r, x, y) => rule@ == RuleQueryView::Binary(r, x@, y@),
        },
        match field {
            FieldQuery::ToList(x) => field@ == FieldQueryView::ToList(x@),
            FieldQuery::Function(f, x, s) => field@ == FieldQueryView::Function(
                f@,
                refs_view(x@),
                s@,
            ),
            FieldQuery::ScalarFunction(f, s) => field@ == FieldQueryView::ScalarFunction(f@, s@),
        },
        match error {
            ErrorQuery::MissingColumn(x, s) => error@ == ErrorQueryView::MissingColumn(x@, s@),
        },
{
}

/// Law: a reason to stop has the value of its question or error, in kind and in all it holds.
pub proof fn law_value_of_halt(halt: Halt)
    ensures
        match halt {
            Halt::Error(DaftError::TypeError(x)) => halt@ == HaltView::Error(
                DaftErrorView::TypeError(x@),
            ),
            Halt::Error(DaftError::ValueError(x)) => halt@ == HaltView::Error(
                DaftErrorView::ValueError(x@),
            ),
            Halt::Error(DaftError::FieldNotFound(x)) => halt@ == HaltView::Error(
                DaftErrorView::FieldNotFound(x@),
            ),
            Halt::Error(DaftError::Other(x)) => halt@ == HaltView::Error(DaftErrorView::Other(x@)),
            Halt::Ask(Query::Flag(q)) => halt@ == HaltView::Ask(QueryView::Flag(q@)),
            Halt::Ask(Query::Text(q)) => halt@ == HaltView::Ask(QueryView::Text(q@)),
            Halt::Ask(Query::Type(q)) => halt@ == HaltView::Ask(QueryView::Type(q@)),
            Halt::Ask(Query::Rule(q)) => halt@ == HaltView::Ask(QueryView::Rule(q@)),
            Halt::Ask(Query::Field(q)) => halt@ == HaltView::Ask(QueryView::Field(q@)),
            Halt::Ask(Query::Error(q)) => halt@ == HaltView::Ask(QueryView::Error(q@)),
            Halt::Ask(Query::Sql(q)) => halt@ == HaltView::Ask(QueryView::Sql(q@)),
            Halt::Ask(Query::Columns(q)) => halt@ == HaltView::Ask(QueryView::Columns((*q)@)),
            Halt::Undefined => halt@ == HaltView::Undefined,
        },
{
}

} // verus!
