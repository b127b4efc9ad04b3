//! Expressions as they are displayed.
use vstd::prelude::*;
use vstd::string::*;

use crate::expr::{clone_refs, AggExpr, AggExprView, Expr, ExprView};
use crate::lit::clone_floats;
use crate::operator::{operator_token, Operator};
use crate::pieces::{joined, prefixed, suffixed};
use crate::query::{Halt, HaltView, TextQuery, TextQueryView};
use crate::replies::{extends, is_answered, result_view, text_for, Replies, RepliesView};
use crate::semantic::sketch_name;
use crate::text::{bool_str, bool_text};

verus! {

/// An expression as displayed, as far as the replies decide it.
pub open spec fn text_of(e: ExprView, m: RepliesView) -> Result<Seq<char>, HaltView>
    decreases e, 0int,
{
    match e {
        ExprView::Alias(inner, name) => suffixed(text_of(*inner, m), " AS "@ + name),
        ExprView::Agg(agg) => agg_text_of(agg, m),
        ExprView::BinaryOp { op, left, right } => joined(
            operand_text_of(*left, m),
            " "@ + operator_token(op) + " "@,
            operand_text_of(*right, m),
        ),
        ExprView::Cast(inner, dtype) => suffixed(
            joined(
                prefixed("cast("@, text_of(*inner, m)),
                " AS "@,
                text_for(m, TextQueryView::DataType(dtype)),
            ),
            ")"@,
        ),
        ExprView::Column(name) => Ok("col("@ + name + ")"@),
        ExprView::Not(inner) => suffixed(prefixed("not("@, text_of(*inner, m)), ")"@),
        ExprView::IsNull(inner) => suffixed(prefixed("is_null("@, text_of(*inner, m)), ")"@),
        ExprView::NotNull(inner) => suffixed(prefixed("not_null("@, text_of(*inner, m)), ")"@),
        ExprView::FillNull(inner, fill) => suffixed(
            joined(prefixed("fill_null("@, text_of(*inner, m)), ", "@, text_of(*fill, m)),
            ")"@,
        ),
        ExprView::IsIn(inner, items) => joined(text_of(*inner, m), " in "@, text_of(*items, m)),
        ExprView::Between(inner, lower, upper) => suffixed(
            joined(
                joined(text_of(*inner, m), " in ["@, text_of(*lower, m)),
                ","@,
                text_of(*upper, m),
            ),
            "]"@,
        ),
        ExprView::Literal(value) => suffixed(
            prefixed("lit("@, text_for(m, TextQueryView::Literal(value))),
            ")"@,
        ),
        ExprView::Function { func, inputs } => text_for(m, TextQueryView::Function(func, inputs)),
        ExprView::ScalarFunction(func) => text_for(m, TextQueryView::ScalarFunction(func)),
        ExprView::IfElse { if_true, if_false, predicate } => suffixed(
            joined(
                joined(
                    prefixed("if ["@, text_of(*predicate, m)),
                    "] then ["@,
                    text_of(*if_true, m),
                ),
                "] else ["@,
                text_of(*if_false, m),
            ),
            "]"@,
        ),
    }
}

/// An operand of an operation as displayed: an operation stands in brackets, and an alias is
/// not shown.
pub open spec fn operand_text_of(e: ExprView, m: RepliesView) -> Result<Seq<char>, HaltView>
    decreases e, 1int,
{
    match e {
        ExprView::Alias(inner, _) => text_of(*inner, m),
        ExprView::BinaryOp { .. } => suffixed(prefixed("["@, text_of(e, m)), "]"@),
        _ => text_of(e, m),
    }
}

/// An aggregation as displayed, as far as the replies decide it.
pub open spec fn agg_text_of(agg: AggExprView, m: RepliesView) -> Result<Seq<char>, HaltView>
    decreases agg, 0int,
{
    match agg {
        AggExprView::Count(e, mode) => suffixed(
            joined(
                prefixed("count("@, text_of(*e, m)),
                ", "@,
                text_for(m, TextQueryView::CountMode(mode)),
            ),
            ")"@,
        ),
        AggExprView::Sum(e) => suffixed(prefixed("sum("@, text_of(*e, m)), ")"@),
        AggExprView::ApproxPercentile { child, percentiles, force_list_output } => suffixed(
            joined(
                prefixed("approx_percentiles("@, text_of(*child, m)),
                ", percentiles="@,
                text_for(m, TextQueryView::Percentiles(percentiles)),
            ),
            ", force_list_output="@ + bool_text(force_list_output) + ")"@,
        ),
        AggExprView::ApproxCountDistinct(e) => suffixed(
            prefixed("approx_count_distinct("@, text_of(*e, m)),
            ")"@,
        ),
        AggExprView::ApproxSketch(e, kind) => suffixed(
            prefixed("approx_sketch("@, text_of(*e, m)),
            ", sketch_type="@ + sketch_name(kind) + ")"@,
        ),
        AggExprView::MergeSketch(e, kind) => suffixed(
            prefixed("merge_sketch("@, text_of(*e, m)),
            ", sketch_type="@ + sketch_name(kind) + ")"@,
        ),
        AggExprView::Mean(e) => suffixed(prefixed("mean("@, text_of(*e, m)), ")"@),
        AggExprView::Min(e) => suffixed(prefixed("min("@, text_of(*e, m)), ")"@),
        AggExprView::Max(e) => suffixed(prefixed("max("@, text_of(*e, m)), ")"@),
        AggExprView::AnyValue(e, ignore_nulls) => suffixed(
            prefixed("any_value("@, text_of(*e, m)),
            ", ignore_nulls="@ + bool_text(ignore_nulls) + ")"@,
        ),
        AggExprView::List(e) => suffixed(prefixed("list("@, text_of(*e, m)), ")"@),
        AggExprView::Concat(e) => suffixed(prefixed("list("@, text_of(*e, m)), ")"@),
        AggExprView::MapGroups { func, inputs } => text_for(
            m,
            TextQueryView::Function(func, inputs),
        ),
    }
}

/// A text in round brackets behind a word.
fn call_text(word: &str, argument: String) -> (shown: String)
    ensures
        shown@ == word@ + argument@ + ")"@,
{
    let mut shown = word.to_owned();
    shown.append(argument.as_str());
    shown.append(")");
    shown
}

impl AggExpr {
    /// The aggregation as displayed.
    pub fn to_text(&self, replies: &Replies) -> (text: Result<String, Halt>)
        ensures
            result_view(text) == agg_text_of(self@, replies@),
        decreases self, 0int,
    {
        match self {
            AggExpr::Count(e, mode) => {
                let text = e.to_text(replies)?;
                let mode_text = replies.text(TextQuery::CountMode(*mode))?;
                let mut shown = "count(".to_owned();
                shown.append(text.as_str());
                shown.append(", ");
                shown.append(mode_text.as_str());
                shown.append(")");
                Ok(shown)
            },
            AggExpr::Sum(e) => Ok(call_text("sum(", e.to_text(replies)?)),
            AggExpr::ApproxPercentile(params) => {
                let text = params.child.to_text(replies)?;
                let list = replies.text(
                    TextQuery::Percentiles(clone_floats(params.percentiles.as_slice())),
                )?;
                let mut after = ", force_list_output=".to_owned();
                after.append(bool_str(params.force_list_output));
                after.append(")");
                let mut shown = "approx_percentiles(".to_owned();
                shown.append(text.as_str());
                shown.append(", percentiles=");
                shown.append(list.as_str());
                shown.append(after.as_str());
                Ok(shown)
            },
            AggExpr::ApproxCountDistinct(e) => Ok(
                call_text("approx_count_distinct(", e.to_text(replies)?),
            ),
            AggExpr::ApproxSketch(e, kind) => {
                let text = e.to_text(replies)?;
                let mut after = ", sketch_type=".to_owned();
                after.append(kind.sketch_str());
                after.append(")");
                let mut shown = "approx_sketch(".to_owned();
                shown.append(text.as_str());
                shown.append(after.as_str());
                Ok(shown)
            },
            AggExpr::MergeSketch(e, kind) => {
                let text = e.to_text(replies)?;
                let mut after = ", sketch_type=".to_owned();
                after.append(kind.sketch_str());
                after.append(")");
                let mut shown = "merge_sketch(".to_owned();
                shown.append(text.as_str());
                shown.append(after.as_str());
                Ok(shown)
            },
            AggExpr::Mean(e) => Ok(call_text("mean(", e.to_text(replies)?)),
            AggExpr::Min(e) => Ok(call_text("min(", e.to_text(replies)?)),
            AggExpr::Max(e) => Ok(call_text("max(", e.to_text(replies)?)),
            AggExpr::AnyValue(e, ignore_nulls) => {
                let text = e.to_text(replies)?;
                let mut after = ", ignore_nulls=".to_owned();
                after.append(bool_str(*ignore_nulls));
                after.append(")");
                let mut shown = "any_value(".to_owned();
                shown.append(text.as_str());
                shown.append(after.as_str());
                Ok(shown)
            },
            AggExpr::List(e) => Ok(call_text("list(", e.to_text(replies)?)),
            AggExpr::Concat(e) => Ok(call_text("list(", e.to_text(replies)?)),
            AggExpr::MapGroups { func, inputs } => replies.text(
                TextQuery::Function(func.clone(), clone_refs(inputs.as_slice())),
            ),
        }
    }
}

impl Expr {
    /// The expression as displayed where it is an operand of an operation.
    fn operand_text(&self, replies: &Replies) -> (text: Result<String, Halt>)
        ensures
            result_view(text) == operand_text_of(self@, replies@),
        decreases self, 1int,
    {
        match self {
            Expr::Alias(inner, _) => inner.to_text(replies),
            Expr::BinaryOp { .. } => {
                let text = self.to_text(replies)?;
                let mut shown = "[".to_owned();
                shown.append(text.as_str());
                shown.append("]");
                Ok(shown)
            },
            _ => self.to_text(replies),
        }
    }

    /// The expression as displayed.
    pub fn to_text(&self, replies: &Replies) -> (text: Result<String, Halt>)
        ensures
            result_view(text) == text_of(self@, replies@),
        decreases self, 0int,
    {
        match self {
            Expr::Alias(inner, name) => {
                let mut shown = inner.to_text(replies)?;
                let mut after = " AS ".to_owned();
                after.append(&**name);
                shown.append(after.as_str());
                Ok(shown)
            },
            Expr::Agg(agg) => agg.to_text(replies),
            Expr::BinaryOp { op, left, right } => {
                let mut shown = left.operand_text(replies)?;
                let right_text = right.operand_text(replies)?;
                let mut between = " ".to_owned();
                between.append(op.token());
                between.append(" ");
                shown.append(between.as_str());
                shown.append(right_text.as_str());
                Ok(shown)
            },
            Expr::Cast(inner, dtype) => {
                let text = inner.to_text(replies)?;
                let type_text = replies.text(TextQuery::DataType(dtype.clone()))?;
                let mut shown = "cast(".to_owned();
                shown.append(text.as_str());
                shown.append(" AS ");
                shown.append(type_text.as_str());
                shown.append(")");
                Ok(shown)
            },
            Expr::Column(name) => Ok(call_text("col(", (&**name).to_owned())),
            Expr::Not(inner) => Ok(call_text("not(", inner.to_text(replies)?)),
            Expr::IsNull(inner) => Ok(call_text("is_null(", inner.to_text(replies)?)),
            Expr::NotNull(inner) => Ok(call_text("not_null(", inner.to_text(replies)?)),
            Expr::FillNull(inner, fill) => {
                let text = inner.to_text(replies)?;
                let fill_text = fill.to_text(replies)?;
                let mut shown = "fill_null(".to_owned();
                shown.append(text.as_str());
                shown.append(", ");
                shown.append(fill_text.as_str());
                shown.append(")");
                Ok(shown)
            },
            Expr::IsIn(inner, items) => {
                let mut shown = inner.to_text(replies)?;
                let items_text = items.to_text(replies)?;
                shown.append(" in ");
                shown.append(items_text.as_str());
                Ok(shown)
            },
            Expr::Between(inner, lower, upper) => {
                let mut shown = inner.to_text(replies)?;
                let lower_text = lower.to_text(replies)?;
                let upper_text = upper.to_text(replies)?;
                shown.append(" in [");
                shown.append(lower_text.as_str());
                shown.append(",");
                shown.append(upper_text.as_str());
                shown.append("]");
                Ok(shown)
            },
            Expr::Literal(value) => Ok(
                call_text("lit(", replies.text(TextQuery::Literal(value.clone()))?),
            ),
            Expr::Function { func, inputs } => replies.text(
                TextQuery::Function(func.clone(), clone_refs(inputs.as_slice())),
            ),
            Expr::ScalarFunction(func) => replies.text(TextQuery::ScalarFunction(func.clone())),
            Expr::IfElse { if_true, if_false, predicate } => {
                let predicate_text = predicate.to_text(replies)?;
                let true_text = if_true.to_text(replies)?;
                let false_text = if_false.to_text(replies)?;
                let mut shown = "if [".to_owned();
                shown.append(predicate_text.as_str());
                shown.append("] then [");
                shown.append(true_text.as_str());
                shown.append("] else [");
                shown.append(false_text.as_str());
                shown.append("]");
                Ok(shown)
            },
        }
    }
}

/// Law: the alias of an operand is not shown, and neither does it bring the brackets of an
/// operation.
pub proof fn law_operand_shows_no_alias(
    op: Operator,
    left: ExprView,
    name: Seq<char>,
    right: ExprView,
    m: RepliesView,
)
    ensures
        text_of(
            ExprView::BinaryOp {
                op,
                left: Box::new(ExprView::Alias(Box::new(left), name)),
                right: Box::new(right),
            },
            m,
        ) == joined(
            text_of(left, m),
            " "@ + operator_token(op) + " "@,
            operand_text_of(right, m),
        ),
        text_of(
            ExprView::BinaryOp {
                op,
                left: Box::new(right),
                right: Box::new(ExprView::Alias(Box::new(left), name)),
            },
            m,
        ) == joined(
            operand_text_of(right, m),
            " "@ + operator_token(op) + " "@,
            text_of(left, m),
        ),
{
    let alias = ExprView::Alias(Box::new(left), name);
    assert(operand_text_of(alias, m) == text_of(left, m));
}

/// Law: an operation that is an operand of an operation stands in brackets.
pub proof fn law_nested_operation_in_brackets(
    op: Operator,
    inner: ExprView,
    right: ExprView,
    m: RepliesView,
)
    requires
        inner is BinaryOp,
        text_of(inner, m) is Ok,
        operand_text_of(right, m) is Ok,
    ensures
        text_of(
            ExprView::BinaryOp { op, left: Box::new(inner), right: Box::new(right) },
            m,
        ) == Ok::<Seq<char>, HaltView>(
            ("["@ + text_of(inner, m)->Ok_0 + "]"@) + (" "@ + operator_token(op) + " "@)
                + operand_text_of(right, m)->Ok_0,
        ),
{
    assert(operand_text_of(inner, m) == suffixed(prefixed("["@, text_of(inner, m)), "]"@));
}

/// Law: more replies do not change a displayed expression that is already decided.
pub proof fn law_text_stays(e: ExprView, m: RepliesView, more: RepliesView)
    requires
        extends(more, m),
    ensures
        text_of(e, m) is Ok ==> text_of(e, more) == text_of(e, m),
    decreases e, 0int,
{
    match e {
        ExprView::Alias(inner, _)
        | ExprView::Cast(inner, _)
        | ExprView::Not(inner)
        | ExprView::IsNull(inner)
        | ExprView::NotNull(inner) => {
            law_text_stays(*inner, m, more);
        },
        ExprView::BinaryOp { op: _, left, right } => {
            lemma_operand_text_stays(*left, m, more);
            lemma_operand_text_stays(*right, m, more);
        },
        ExprView::FillNull(inner, other) | ExprView::IsIn(inner, other) => {
            law_text_stays(*inner, m, more);
            law_text_stays(*other, m, more);
        },
        ExprView::Between(inner, lower, upper) => {
            law_text_stays(*inner, m, more);
            law_text_stays(*lower, m, more);
            law_text_stays(*upper, m, more);
        },
        ExprView::IfElse { if_true, if_false, predicate } => {
            law_text_stays(*if_true, m, more);
            law_text_stays(*if_false, m, more);
            law_text_stays(*predicate, m, more);
        },
        ExprView::Agg(agg) => {
            law_agg_text_stays(agg, m, more);
        },
        _ => {},
    }
}

/// More replies do not change a displayed operand that is already decided.
proof fn lemma_operand_text_stays(e: ExprView, m: RepliesView, more: RepliesView)
    requires
        extends(more, m),
    ensures
        operand_text_of(e, m) is Ok ==> operand_text_of(e, more) == operand_text_of(e, m),
    decreases e, 1int,
{
    match e {
        ExprView::Alias(inner, _) => {
            law_text_stays(*inner, m, more);
        },
        _ => {
            law_text_stays(e, m, more);
        },
    }
}

/// Law: more replies do not change a displayed aggregation that is already decided.
pub proof fn law_agg_text_stays(agg: AggExprView, m: RepliesView, more: RepliesView)
    requires
        extends(more, m),
    ensures
        agg_text_of(agg, m) is Ok ==> agg_text_of(agg, more) == agg_text_of(agg, m),
    decreases agg, 0int,
{
    match agg {
        AggExprView::Count(e, _)
        | AggExprView::ApproxSketch(e, _)
        | AggExprView::MergeSketch(e, _)
        | AggExprView::AnyValue(e, _)
        | AggExprView::Sum(e)
        | AggExprView::ApproxPercentile { child: e, .. }
        | AggExprView::ApproxCountDistinct(e)
        | AggExprView::Mean(e)
        | AggExprView::Min(e)
        | AggExprView::Max(e)
        | AggExprView::List(e)
        | AggExprView::Concat(e) => {
            law_text_stays(*e, m, more);
        },
        AggExprView::MapGroups { .. } => {},
    }
}

/// Law: displaying an expression fails only by asking, and asks only what has no reply yet.
pub proof fn law_text_asks_what_is_open(e: ExprView, m: RepliesView)
    ensures
        text_of(e, m) matches Err(h) ==> h matches HaltView::Ask(q) && !is_answered(m, q),
    decreases e, 0int,
{
    match e {
        ExprView::Alias(inner, _)
        | ExprView::Cast(inner, _)
        | ExprView::Not(inner)
        | ExprView::IsNull(inner)
        | ExprView::NotNull(inner) => {
            law_text_asks_what_is_open(*inner, m);
        },
        ExprView::BinaryOp { op: _, left, right } => {
            lemma_operand_text_asks_what_is_open(*left, m);
            lemma_operand_text_asks_what_is_open(*right, m);
        },
        ExprView::FillNull(inner, other) | ExprView::IsIn(inner, other) => {
            law_text_asks_what_is_open(*inner, m);
            law_text_asks_what_is_open(*other, m);
        },
        ExprView::Between(inner, lower, upper) => {
            law_text_asks_what_is_open(*inner, m);
            law_text_asks_what_is_open(*lower, m);
            law_text_asks_what_is_open(*upper, m);
        },
        ExprView::IfElse { if_true, if_false, predicate } => {
            law_text_asks_what_is_open(*if_true, m);
            law_text_asks_what_is_open(*if_false, m);
            law_text_asks_what_is_open(*predicate, m);
        },
        ExprView::Agg(agg) => {
            law_agg_text_asks_what_is_open(agg, m);
        },
        _ => {},
    }
}

/// Displaying an operand fails only by asking, and asks only what has no reply yet.
proof fn lemma_operand_text_asks_what_is_open(e: ExprView, m: RepliesView)
    ensures
        operand_text_of(e, m) matches Err(h) ==> h matches HaltView::Ask(q) && !is_answered(m, q),
    decreases e, 1int,
{
    match e {
        ExprView::Alias(inner, _) => {
            law_text_asks_what_is_open(*inner, m);
        },
        _ => {
            law_text_asks_what_is_open(e, m);
        },
    }
}

/// Law: displaying an aggregation fails only by asking, and asks only what has no reply yet.
pub proof fn law_agg_text_asks_what_is_open(agg: AggExprView, m: RepliesView)
    ensures
        agg_text_of(agg, m) matches Err(h) ==> h matches HaltView::Ask(q) && !is_answered(m, q),
    decreases agg, 0int,
{
    match agg {
        AggExprView::Count(e, _)
        | AggExprView::ApproxSketch(e, _)
        | AggExprView::MergeSketch(e, _)
        | AggExprView::AnyValue(e, _)
        | AggExprView::Sum(e)
        | AggExprView::ApproxPercentile { child: e, .. }
        | AggExprView::ApproxCountDistinct(e)
        | AggExprView::Mean(e)
        | AggExprView::Min(e)
        | AggExprView::Max(e)
        | AggExprView::List(e)
        | AggExprView::Concat(e) => {
            law_text_asks_what_is_open(*e, m);
        },
        AggExprView::MapGroups { .. } => {},
    }
}

} // verus!
