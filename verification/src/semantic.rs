//! Identifiers of expressions by what they compute, whatever they are called.
use vstd::prelude::*;
use vstd::string::*;

use crate::datatypes::SchemaView;
use crate::expr::{clone_refs, AggExpr, AggExprView, Expr, ExprView, SketchType};
use crate::lit::clone_floats;
use crate::operator::operator_token;
use crate::pieces::{joined, prefixed, suffixed};
use crate::query::{Halt, HaltView, TextQuery, TextQueryView};
use crate::replies::{extends, is_answered, result_view, text_for, Replies, RepliesView};
use crate::schema::{FieldID, Schema};
use crate::text::{bool_str, bool_text};
use crate::tree::agg_children_of;

verus! {

/// The name of a kind of sketch.
pub open spec fn sketch_name(kind: SketchType) -> Seq<char> {
    match kind {
        SketchType::DDSketch => "DDSketch"@,
        SketchType::HyperLogLog => "HyperLogLog"@,
    }
}

impl SketchType {
    /// The name of the kind of sketch.
    pub fn sketch_str(&self) -> (name: &'static str)
        ensures
            name@ == sketch_name(*self),
    {
        match self {
            SketchType::DDSketch => "DDSketch",
            SketchType::HyperLogLog => "HyperLogLog",
        }
    }
}

/// The identifier of an expression over a schema, as far as the replies decide it.
pub open spec fn id_of(e: ExprView, schema: SchemaView, m: RepliesView) -> Result<
    Seq<char>,
    HaltView,
>
    decreases e,
{
    match e {
        ExprView::Column(name) => Ok(name),
        ExprView::Literal(value) => suffixed(
            prefixed("Literal("@, text_for(m, TextQueryView::LiteralDebug(value))),
            ")"@,
        ),
        ExprView::Cast(inner, dtype) => suffixed(
            joined(
                id_of(*inner, schema, m),
                ".cast("@,
                text_for(m, TextQueryView::DataType(dtype)),
            ),
            ")"@,
        ),
        ExprView::Not(inner) => suffixed(id_of(*inner, schema, m), ".not()"@),
        ExprView::IsNull(inner) => suffixed(id_of(*inner, schema, m), ".is_null()"@),
        ExprView::NotNull(inner) => suffixed(id_of(*inner, schema, m), ".not_null()"@),
        ExprView::FillNull(inner, fill) => suffixed(
            joined(id_of(*inner, schema, m), ".fill_null("@, id_of(*fill, schema, m)),
            ")"@,
        ),
        ExprView::IsIn(inner, items) => suffixed(
            joined(id_of(*inner, schema, m), ".is_in("@, id_of(*items, schema, m)),
            ")"@,
        ),
        ExprView::Between(inner, lower, upper) => suffixed(
            joined(
                joined(id_of(*inner, schema, m), ".between("@, id_of(*lower, schema, m)),
                ","@,
                id_of(*upper, schema, m),
            ),
            ")"@,
        ),
        ExprView::Function { func, inputs } => text_for(
            m,
            TextQueryView::FunctionId(func, inputs, schema),
        ),
        ExprView::BinaryOp { op, left, right } => suffixed(
            joined(
                prefixed("("@, id_of(*left, schema, m)),
                " "@ + operator_token(op) + " "@,
                id_of(*right, schema, m),
            ),
            ")"@,
        ),
        ExprView::IfElse { if_true, if_false, predicate } => suffixed(
            joined(
                joined(
                    prefixed("("@, id_of(*if_true, schema, m)),
                    " if "@,
                    id_of(*predicate, schema, m),
                ),
                " else "@,
                id_of(*if_false, schema, m),
            ),
            ")"@,
        ),
        ExprView::Alias(inner, _) => id_of(*inner, schema, m),
        ExprView::Agg(agg) => agg_id_of(agg, schema, m),
        ExprView::ScalarFunction(func) => text_for(
            m,
            TextQueryView::ScalarFunctionId(func, schema),
        ),
    }
}

/// The identifier of an aggregation over a schema, as far as the replies decide it.
pub open spec fn agg_id_of(agg: AggExprView, schema: SchemaView, m: RepliesView) -> Result<
    Seq<char>,
    HaltView,
>
    decreases agg,
{
    match agg {
        AggExprView::Count(e, mode) => suffixed(
            joined(
                id_of(*e, schema, m),
                ".local_count("@,
                text_for(m, TextQueryView::CountMode(mode)),
            ),
            ")"@,
        ),
        AggExprView::Sum(e) => suffixed(id_of(*e, schema, m), ".local_sum()"@),
        AggExprView::ApproxPercentile { child, percentiles, force_list_output } => suffixed(
            joined(
                id_of(*child, schema, m),
                ".local_approx_percentiles(percentiles="@,
                text_for(m, TextQueryView::Percentiles(percentiles)),
            ),
            ",force_list_output="@ + bool_text(force_list_output) + ")"@,
        ),
        AggExprView::ApproxCountDistinct(e) => suffixed(
            id_of(*e, schema, m),
            ".local_approx_count_distinct()"@,
        ),
        AggExprView::ApproxSketch(e, kind) => suffixed(
            id_of(*e, schema, m),
            ".local_approx_sketch(sketch_type="@ + sketch_name(kind) + ")"@,
        ),
        AggExprView::MergeSketch(e, kind) => suffixed(
            id_of(*e, schema, m),
            ".local_merge_sketch(sketch_type="@ + sketch_name(kind) + ")"@,
        ),
        AggExprView::Mean(e) => suffixed(id_of(*e, schema, m), ".local_mean()"@),
        AggExprView::Min(e) => suffixed(id_of(*e, schema, m), ".local_min()"@),
        AggExprView::Max(e) => suffixed(id_of(*e, schema, m), ".local_max()"@),
        AggExprView::AnyValue(e, ignore_nulls) => suffixed(
            id_of(*e, schema, m),
            ".local_any_value(ignore_nulls="@ + bool_text(ignore_nulls) + ")"@,
        ),
        AggExprView::List(e) => suffixed(id_of(*e, schema, m), ".local_list()"@),
        AggExprView::Concat(e) => suffixed(id_of(*e, schema, m), ".local_concat()"@),
        AggExprView::MapGroups { func, inputs } => text_for(
            m,
            TextQueryView::FunctionId(func, inputs, schema),
        ),
    }
}

impl AggExpr {
    /// The identifier of the aggregation, as text.
    fn id_text(&self, schema: &Schema, replies: &Replies) -> (id: Result<String, Halt>)
        ensures
            result_view(id) == agg_id_of(self@, schema@, replies@),
        decreases self,
    {
        match self {
            AggExpr::Count(e, mode) => {
                let mut id = e.id_text(schema, replies)?;
                let mode_text = replies.text(TextQuery::CountMode(*mode))?;
                id.append(".local_count(");
                id.append(mode_text.as_str());
                id.append(")");
                Ok(id)
            },
            AggExpr::Sum(e) => {
                let mut id = e.id_text(schema, replies)?;
                id.append(".local_sum()");
                Ok(id)
            },
            AggExpr::ApproxPercentile(params) => {
                let mut id = params.child.id_text(schema, replies)?;
                let list = replies.text(
                    TextQuery::Percentiles(clone_floats(params.percentiles.as_slice())),
                )?;
                id.append(".local_approx_percentiles(percentiles=");
                id.append(list.as_str());
                let mut after = ",force_list_output=".to_owned();
                after.append(bool_str(params.force_list_output));
                after.append(")");
                id.append(after.as_str());
                Ok(id)
            },
            AggExpr::ApproxCountDistinct(e) => {
                let mut id = e.id_text(schema, replies)?;
                id.append(".local_approx_count_distinct()");
                Ok(id)
            },
            AggExpr::ApproxSketch(e, kind) => {
                let mut id = e.id_text(schema, replies)?;
                let mut after = ".local_approx_sketch(sketch_type=".to_owned();
                after.append(kind.sketch_str());
                after.append(")");
                id.append(after.as_str());
                Ok(id)
            },
            AggExpr::MergeSketch(e, kind) => {
                let mut id = e.id_text(schema, replies)?;
                let mut after = ".local_merge_sketch(sketch_type=".to_owned();
                after.append(kind.sketch_str());
                after.append(")");
                id.append(after.as_str());
                Ok(id)
            },
            AggExpr::Mean(e) => {
                let mut id = e.id_text(schema, replies)?;
                id.append(".local_mean()");
                Ok(id)
            },
            AggExpr::Min(e) => {
                let mut id = e.id_text(schema, replies)?;
                id.append(".local_min()");
                Ok(id)
            },
            AggExpr::Max(e) => {
                let mut id = e.id_text(schema, replies)?;
                id.append(".local_max()");
                Ok(id)
            },
            AggExpr::AnyValue(e, ignore_nulls) => {
                let mut id = e.id_text(schema, replies)?;
                let mut after = ".local_any_value(ignore_nulls=".to_owned();
                after.append(bool_str(*ignore_nulls));
                after.append(")");
                id.append(after.as_str());
                Ok(id)
            },
            AggExpr::List(e) => {
                let mut id = e.id_text(schema, replies)?;
                id.append(".local_list()");
                Ok(id)
            },
            AggExpr::Concat(e) => {
                let mut id = e.id_text(schema, replies)?;
                id.append(".local_concat()");
                Ok(id)
            },
            AggExpr::MapGroups { func, inputs } => replies.text(
                TextQuery::FunctionId(
                    func.clone(),
                    clone_refs(inputs.as_slice()),
                    schema.clone(),
                ),
            ),
        }
    }

    /// The identifier of the aggregation.
    pub fn semantic_id(&self, schema: &Schema, replies: &Replies) -> (id: Result<FieldID, Halt>)
        ensures
            result_view(id) == agg_id_of(self@, schema@, replies@),
    {
        let text = self.id_text(schema, replies)?;
        Ok(FieldID::new(text))
    }
}

impl Expr {
    /// The identifier of the expression, as text.
    fn id_text(&self, schema: &Schema, replies: &Replies) -> (id: Result<String, Halt>)
        ensures
            result_view(id) == id_of(self@, schema@, replies@),
        decreases self,
    {
        match self {
            Expr::Column(name) => Ok((&**name).to_owned()),
            Expr::Literal(value) => {
                let text = replies.text(TextQuery::LiteralDebug(value.clone()))?;
                let mut id = "Literal(".to_owned();
                id.append(text.as_str());
                id.append(")");
                Ok(id)
            },
            Expr::Cast(inner, dtype) => {
                let mut id = inner.id_text(schema, replies)?;
                let text = replies.text(TextQuery::DataType(dtype.clone()))?;
                id.append(".cast(");
                id.append(text.as_str());
                id.append(")");
                Ok(id)
            },
            Expr::Not(inner) => {
                let mut id = inner.id_text(schema, replies)?;
                id.append(".not()");
                Ok(id)
            },
            Expr::IsNull(inner) => {
                let mut id = inner.id_text(schema, replies)?;
                id.append(".is_null()");
                Ok(id)
            },
            Expr::NotNull(inner) => {
                let mut id = inner.id_text(schema, replies)?;
                id.append(".not_null()");
                Ok(id)
            },
            Expr::FillNull(inner, fill) => {
                let mut id = inner.id_text(schema, replies)?;
                let fill_id = fill.id_text(schema, replies)?;
                id.append(".fill_null(");
                id.append(fill_id.as_str());
                id.append(")");
                Ok(id)
            },
            Expr::IsIn(inner, items) => {
                let mut id = inner.id_text(schema, replies)?;
                let items_id = items.id_text(schema, replies)?;
                id.append(".is_in(");
                id.append(items_id.as_str());
                id.append(")");
                Ok(id)
            },
            Expr::Between(inner, lower, upper) => {
                let mut id = inner.id_text(schema, replies)?;
                let lower_id = lower.id_text(schema, replies)?;
                let upper_id = upper.id_text(schema, replies)?;
                id.append(".between(");
                id.append(lower_id.as_str());
                id.append(",");
                id.append(upper_id.as_str());
                id.append(")");
                Ok(id)
            },
            Expr::Function { func, inputs } => replies.text(
                TextQuery::FunctionId(
                    func.clone(),
                    clone_refs(inputs.as_slice()),
                    schema.clone(),
                ),
            ),
            Expr::BinaryOp { op, left, right } => {
                let left_id = left.id_text(schema, replies)?;
                let right_id = right.id_text(schema, replies)?;
                let mut between = " ".to_owned();
                between.append(op.token());
                between.append(" ");
                let mut id = "(".to_owned();
                id.append(left_id.as_str());
                id.append(between.as_str());
                id.append(right_id.as_str());
                id.append(")");
                Ok(id)
            },
            Expr::IfElse { if_true, if_false, predicate } => {
                let true_id = if_true.id_text(schema, replies)?;
                let predicate_id = predicate.id_text(schema, replies)?;
                let false_id = if_false.id_text(schema, replies)?;
                let mut id = "(".to_owned();
                id.append(true_id.as_str());
                id.append(" if ");
                id.append(predicate_id.as_str());
                id.append(" else ");
                id.append(false_id.as_str());
                id.append(")");
                Ok(id)
            },
            Expr::Alias(inner, _) => inner.id_text(schema, replies),
            Expr::Agg(agg) => agg.id_text(schema, replies),
            Expr::ScalarFunction(func) => replies.text(
                TextQuery::ScalarFunctionId(func.clone(), schema.clone()),
            ),
        }
    }

    /// The identifier of the expression.
    pub fn semantic_id(&self, schema: &Schema, replies: &Replies) -> (id: Result<FieldID, Halt>)
        ensures
            result_view(id) == id_of(self@, schema@, replies@),
    {
        let text = self.id_text(schema, replies)?;
        Ok(FieldID::new(text))
    }
}

/// The expression without its aliases. Aliases inside the arguments of a call stay.
pub open spec fn without_aliases(e: ExprView) -> ExprView
    decreases e,
{
    match e {
        ExprView::Alias(inner, _) => without_aliases(*inner),
        ExprView::Cast(inner, dtype) => ExprView::Cast(Box::new(without_aliases(*inner)), dtype),
        ExprView::Not(inner) => ExprView::Not(Box::new(without_aliases(*inner))),
        ExprView::IsNull(inner) => ExprView::IsNull(Box::new(without_aliases(*inner))),
        ExprView::NotNull(inner) => ExprView::NotNull(Box::new(without_aliases(*inner))),
        ExprView::FillNull(inner, fill) => ExprView::FillNull(
            Box::new(without_aliases(*inner)),
            Box::new(without_aliases(*fill)),
        ),
        ExprView::IsIn(inner, items) => ExprView::IsIn(
            Box::new(without_aliases(*inner)),
            Box::new(without_aliases(*items)),
        ),
        ExprView::Between(inner, lower, upper) => ExprView::Between(
            Box::new(without_aliases(*inner)),
            Box::new(without_aliases(*lower)),
            Box::new(without_aliases(*upper)),
        ),
        ExprView::BinaryOp { op, left, right } => ExprView::BinaryOp {
            op,
            left: Box::new(without_aliases(*left)),
            right: Box::new(without_aliases(*right)),
        },
        ExprView::IfElse { if_true, if_false, predicate } => ExprView::IfElse {
            if_true: Box::new(without_aliases(*if_true)),
            if_false: Box::new(without_aliases(*if_false)),
            predicate: Box::new(without_aliases(*predicate)),
        },
        ExprView::Agg(agg) => ExprView::Agg(agg_without_aliases(agg)),
        ExprView::Column(_)
        | ExprView::Literal(_)
        | ExprView::Function { .. }
        | ExprView::ScalarFunction(_) => e,
    }
}

/// The aggregation without the aliases of what it aggregates.
pub open spec fn agg_without_aliases(agg: AggExprView) -> AggExprView
    decreases agg,
{
    match agg {
        AggExprView::Count(e, mode) => AggExprView::Count(Box::new(without_aliases(*e)), mode),
        AggExprView::Sum(e) => AggExprView::Sum(Box::new(without_aliases(*e))),
        AggExprView::ApproxPercentile { child, percentiles, force_list_output } => {
            AggExprView::ApproxPercentile {
                child: Box::new(without_aliases(*child)),
                percentiles,
                force_list_output,
            }
        },
        AggExprView::ApproxCountDistinct(e) => AggExprView::ApproxCountDistinct(
            Box::new(without_aliases(*e)),
        ),
        AggExprView::ApproxSketch(e, kind) => AggExprView::ApproxSketch(
            Box::new(without_aliases(*e)),
            kind,
        ),
        AggExprView::MergeSketch(e, kind) => AggExprView::MergeSketch(
            Box::new(without_aliases(*e)),
            kind,
        ),
        AggExprView::Mean(e) => AggExprView::Mean(Box::new(without_aliases(*e))),
        AggExprView::Min(e) => AggExprView::Min(Box::new(without_aliases(*e))),
        AggExprView::Max(e) => AggExprView::Max(Box::new(without_aliases(*e))),
        AggExprView::AnyValue(e, ignore_nulls) => AggExprView::AnyValue(
            Box::new(without_aliases(*e)),
            ignore_nulls,
        ),
        AggExprView::List(e) => AggExprView::List(Box::new(without_aliases(*e))),
        AggExprView::Concat(e) => AggExprView::Concat(Box::new(without_aliases(*e))),
        AggExprView::MapGroups { .. } => agg,
    }
}

/// Law: an alias does not change the identifier.
pub proof fn law_id_ignores_alias(
    e: ExprView,
    name: Seq<char>,
    schema: SchemaView,
    m: RepliesView,
)
    ensures
        id_of(ExprView::Alias(Box::new(e), name), schema, m) == id_of(e, schema, m),
{
}

/// Law: an expression and the same expression without its aliases have one identifier.
pub proof fn law_id_ignores_aliases_within(e: ExprView, schema: SchemaView, m: RepliesView)
    ensures
        id_of(without_aliases(e), schema, m) == id_of(e, schema, m),
    decreases e,
{
    match e {
        ExprView::Alias(inner, _)
        | ExprView::Cast(inner, _)
        | ExprView::Not(inner)
        | ExprView::IsNull(inner)
        | ExprView::NotNull(inner) => {
            law_id_ignores_aliases_within(*inner, schema, m);
        },
        ExprView::FillNull(inner, other)
        | ExprView::IsIn(inner, other)
        | ExprView::BinaryOp { op: _, left: inner, right: other } => {
            law_id_ignores_aliases_within(*inner, schema, m);
            law_id_ignores_aliases_within(*other, schema, m);
        },
        ExprView::Between(inner, lower, upper) => {
            law_id_ignores_aliases_within(*inner, schema, m);
            law_id_ignores_aliases_within(*lower, schema, m);
            law_id_ignores_aliases_within(*upper, schema, m);
        },
        ExprView::IfElse { if_true, if_false, predicate } => {
            law_id_ignores_aliases_within(*if_true, schema, m);
            law_id_ignores_aliases_within(*if_false, schema, m);
            law_id_ignores_aliases_within(*predicate, schema, m);
        },
        ExprView::Agg(agg) => {
            lemma_agg_id_ignores_aliases_within(agg, schema, m);
        },
        _ => {},
    }
}

/// An aggregation and the same aggregation without aliases have one identifier.
proof fn lemma_agg_id_ignores_aliases_within(
    agg: AggExprView,
    schema: SchemaView,
    m: RepliesView,
)
    ensures
        agg_id_of(agg_without_aliases(agg), schema, m) == agg_id_of(agg, schema, m),
    decreases agg,
{
    match agg {
        AggExprView::Count(e, _)
        | AggExprView::ApproxSketch(e, _)
        | AggExprView::MergeSketch(e, _)
        | AggExprView::AnyValue(e, _)
        | AggExprView::Sum(e)
        | AggExprView::ApproxPercentile { child: e, .. }
        | AggExprView::ApproxCountDistinct(e)
        | AggExprView::Mean(e)
        | AggExprView::Min(e)
        | AggExprView::Max(e)
        | AggExprView::List(e)
        | AggExprView::Concat(e) => {
            law_id_ignores_aliases_within(*e, schema, m);
        },
        AggExprView::MapGroups { .. } => {},
    }
}

/// Law: expressions that differ in their aliases alone have one identifier.
pub proof fn law_equal_up_to_aliases_have_one_id(
    a: ExprView,
    b: ExprView,
    schema: SchemaView,
    m: RepliesView,
)
    requires
        without_aliases(a) == without_aliases(b),
    ensures
        id_of(a, schema, m) == id_of(b, schema, m),
{
    law_id_ignores_aliases_within(a, schema, m);
    law_id_ignores_aliases_within(b, schema, m);
}

/// What the identifier of an aggregation adds to that of what it aggregates.
spec fn agg_id_ending(agg: AggExprView, m: RepliesView) -> Seq<char> {
    match agg {
        AggExprView::Count(_, mode) => ".local_count("@ + text_for(
            m,
            TextQueryView::CountMode(mode),
        )->Ok_0 + ")"@,
        AggExprView::Sum(_) => ".local_sum()"@,
        AggExprView::ApproxPercentile { child: _, percentiles, force_list_output } => {
            ".local_approx_percentiles(percentiles="@ + text_for(
                m,
                TextQueryView::Percentiles(percentiles),
            )->Ok_0 + (",force_list_output="@ + bool_text(force_list_output) + ")"@)
        },
        AggExprView::ApproxCountDistinct(_) => ".local_approx_count_distinct()"@,
        AggExprView::ApproxSketch(_, kind) => ".local_approx_sketch(sketch_type="@ + sketch_name(
            kind,
        ) + ")"@,
        AggExprView::MergeSketch(_, kind) => ".local_merge_sketch(sketch_type="@ + sketch_name(
            kind,
        ) + ")"@,
        AggExprView::Mean(_) => ".local_mean()"@,
        AggExprView::Min(_) => ".local_min()"@,
        AggExprView::Max(_) => ".local_max()"@,
        AggExprView::AnyValue(_, ignore_nulls) => ".local_any_value(ignore_nulls="@ + bool_text(
            ignore_nulls,
        ) + ")"@,
        AggExprView::List(_) => ".local_list()"@,
        AggExprView::Concat(_) => ".local_concat()"@,
        AggExprView::MapGroups { .. } => Seq::empty(),
    }
}

/// A number for each kind of aggregation.
spec fn agg_kind(agg: AggExprView) -> int {
    match agg {
        AggExprView::Count(..) => 0,
        AggExprView::Sum(_) => 1,
        AggExprView::ApproxPercentile { .. } => 2,
        AggExprView::ApproxCountDistinct(_) => 3,
        AggExprView::ApproxSketch(..) => 4,
        AggExprView::MergeSketch(..) => 5,
        AggExprView::Mean(_) => 6,
        AggExprView::Min(_) => 7,
        AggExprView::Max(_) => 8,
        AggExprView::AnyValue(..) => 9,
        AggExprView::List(_) => 10,
        AggExprView::Concat(_) => 11,
        AggExprView::MapGroups { .. } => 12,
    }
}

/// The kind of aggregation that an ending tells, by the letters in which the kinds differ.
spec fn kind_told(ending: Seq<char>) -> int {
    if ending[7] == 'c' {
        if ending[9] == 'u' {
            0
        } else {
            11
        }
    } else if ending[7] == 's' {
        1
    } else if ending[7] == 'l' {
        10
    } else if ending[7] == 'a' {
        if ending[8] == 'n' {
            9
        } else if ending[14] == 'p' {
            2
        } else if ending[14] == 'c' {
            3
        } else {
            4
        }
    } else if ending[8] == 'i' {
        7
    } else if ending[8] == 'a' {
        8
    } else if ending[9] == 'r' {
        5
    } else {
        6
    }
}

/// The ending of an identifier tells the kind of aggregation.
proof fn lemma_ending_tells_kind(agg: AggExprView, m: RepliesView)
    requires
        !(agg is MapGroups),
    ensures
        kind_told(agg_id_ending(agg, m)) == agg_kind(agg),
{
    match agg {
        AggExprView::Count(..) => {
            reveal_strlit(".local_count(");
        },
        AggExprView::Sum(_) => {
            reveal_strlit(".local_sum()");
        },
        AggExprView::ApproxPercentile { .. } => {
            reveal_strlit(".local_approx_percentiles(percentiles=");
        },
        AggExprView::ApproxCountDistinct(_) => {
            reveal_strlit(".local_approx_count_distinct()");
        },
        AggExprView::ApproxSketch(..) => {
            reveal_strlit(".local_approx_sketch(sketch_type=");
        },
        AggExprView::MergeSketch(..) => {
            reveal_strlit(".local_merge_sketch(sketch_type=");
        },
        AggExprView::Mean(_) => {
            reveal_strlit(".local_mean()");
        },
        AggExprView::Min(_) => {
            reveal_strlit(".local_min()");
        },
        AggExprView::Max(_) => {
            reveal_strlit(".local_max()");
        },
        AggExprView::AnyValue(..) => {
            reveal_strlit(".local_any_value(ignore_nulls=");
        },
        AggExprView::List(_) => {
            reveal_strlit(".local_list()");
        },
        AggExprView::Concat(_) => {
            reveal_strlit(".local_concat()");
        },
        AggExprView::MapGroups { .. } => {},
    }
}

/// Where the first halves of two texts are the same, so are the second halves.
proof fn lemma_same_start(start: Seq<char>, a: Seq<char>, b: Seq<char>)
    requires
        start + a == start + b,
    ensures
        a == b,
{
    assert(a =~= (start + a).skip(start.len() as int));
    assert(b =~= (start + b).skip(start.len() as int));
}

/// Where the second halves of two texts are the same, so are the first halves.
proof fn lemma_same_end(a: Seq<char>, b: Seq<char>, end: Seq<char>)
    requires
        a + end == b + end,
    ensures
        a == b,
{
    assert((a + end).len() == (b + end).len());
    assert(a =~= (a + end).take(a.len() as int));
    assert(b =~= (b + end).take(b.len() as int));
}

/// The identifier of an aggregation is that of what it aggregates, and an ending.
proof fn lemma_agg_id_is_child_id_and_ending(agg: AggExprView, schema: SchemaView, m: RepliesView)
    requires
        !(agg is MapGroups),
        agg_id_of(agg, schema, m) is Ok,
    ensures
        id_of(agg_children_of(agg)[0], schema, m) is Ok,
        agg_id_of(agg, schema, m)->Ok_0 == id_of(agg_children_of(agg)[0], schema, m)->Ok_0
            + agg_id_ending(agg, m),
{
    let child = id_of(agg_children_of(agg)[0], schema, m);
    assert(child is Ok);
    assert(agg_id_of(agg, schema, m)->Ok_0 =~= child->Ok_0 + agg_id_ending(agg, m));
}

/// Whether two aggregations are of one kind, with the same flags and sketch, and the engine
/// writes their count modes or percentiles in the same way. Aggregations by function are left
/// out: the engine identifies them.
pub open spec fn same_aggregation(a: AggExprView, b: AggExprView, m: RepliesView) -> bool {
    match (a, b) {
        (AggExprView::Count(_, x), AggExprView::Count(_, y)) => text_for(
            m,
            TextQueryView::CountMode(x),
        ) == text_for(m, TextQueryView::CountMode(y)),
        (AggExprView::Sum(_), AggExprView::Sum(_)) => true,
        (
            AggExprView::ApproxPercentile { child: _, percentiles: x, force_list_output: f },
            AggExprView::ApproxPercentile { child: _, percentiles: y, force_list_output: g },
        ) => f == g && text_for(m, TextQueryView::Percentiles(x)) == text_for(
            m,
            TextQueryView::Percentiles(y),
        ),
        (AggExprView::ApproxCountDistinct(_), AggExprView::ApproxCountDistinct(_)) => true,
        (AggExprView::ApproxSketch(_, x), AggExprView::ApproxSketch(_, y)) => x == y,
        (AggExprView::MergeSketch(_, x), AggExprView::MergeSketch(_, y)) => x == y,
        (AggExprView::Mean(_), AggExprView::Mean(_)) => true,
        (AggExprView::Min(_), AggExprView::Min(_)) => true,
        (AggExprView::Max(_), AggExprView::Max(_)) => true,
        (AggExprView::AnyValue(_, x), AggExprView::AnyValue(_, y)) => x == y,
        (AggExprView::List(_), AggExprView::List(_)) => true,
        (AggExprView::Concat(_), AggExprView::Concat(_)) => true,
        _ => false,
    }
}

/// Law: the identifier of an aggregation tells its kind, its flags and its sketch: aggregations
/// over what has one identifier that differ in one of these have different identifiers.
pub proof fn law_agg_id_tells_the_aggregation(
    a: AggExprView,
    b: AggExprView,
    schema: SchemaView,
    m: RepliesView,
)
    requires
        !(a is MapGroups),
        !(b is MapGroups),
        id_of(agg_children_of(a)[0], schema, m) == id_of(agg_children_of(b)[0], schema, m),
        agg_id_of(a, schema, m) is Ok,
        agg_id_of(b, schema, m) is Ok,
    ensures
        agg_id_of(a, schema, m) == agg_id_of(b, schema, m) <==> same_aggregation(a, b, m),
{
    lemma_agg_id_is_child_id_and_ending(a, schema, m);
    lemma_agg_id_is_child_id_and_ending(b, schema, m);
    let child = id_of(agg_children_of(a)[0], schema, m)->Ok_0;
    if agg_id_of(a, schema, m) == agg_id_of(b, schema, m) {
        lemma_same_start(child, agg_id_ending(a, m), agg_id_ending(b, m));
        lemma_ending_tells_kind(a, m);
        lemma_ending_tells_kind(b, m);
        lemma_equal_endings(a, b, m);
    }
}

/// Aggregations of one kind with one ending have the same flags, sketch, count mode text and
/// percentiles text.
proof fn lemma_equal_endings(a: AggExprView, b: AggExprView, m: RepliesView)
    requires
        agg_kind(a) == agg_kind(b),
        !(a is MapGroups),
        agg_id_ending(a, m) == agg_id_ending(b, m),
        a matches AggExprView::Count(_, x) ==> text_for(m, TextQueryView::CountMode(x)) is Ok,
        b matches AggExprView::Count(_, y) ==> text_for(m, TextQueryView::CountMode(y)) is Ok,
        a matches AggExprView::ApproxPercentile { child: _, percentiles, .. } ==> text_for(
            m,
            TextQueryView::Percentiles(percentiles),
        ) is Ok,
        b matches AggExprView::ApproxPercentile { child: _, percentiles, .. } ==> text_for(
            m,
            TextQueryView::Percentiles(percentiles),
        ) is Ok,
    ensures
        same_aggregation(a, b, m),
{
    reveal_strlit("true");
    reveal_strlit("false");
    reveal_strlit("DDSketch");
    reveal_strlit("HyperLogLog");
    reveal_strlit(")");
    let s = agg_id_ending(a, m);
    let t = agg_id_ending(b, m);
    match (a, b) {
        (AggExprView::Count(_, x), AggExprView::Count(_, y)) => {
            let p = text_for(m, TextQueryView::CountMode(x))->Ok_0;
            let q = text_for(m, TextQueryView::CountMode(y))->Ok_0;
            lemma_same_end(".local_count("@ + p, ".local_count("@ + q, ")"@);
            lemma_same_start(".local_count("@, p, q);
        },
        (
            AggExprView::ApproxPercentile { child: _, percentiles: x, force_list_output: f },
            AggExprView::ApproxPercentile { child: _, percentiles: y, force_list_output: g },
        ) => {
            let p = text_for(m, TextQueryView::Percentiles(x))->Ok_0;
            let q = text_for(m, TextQueryView::Percentiles(y))->Ok_0;
            let head = ".local_approx_percentiles(percentiles="@;
            assert(s[s.len() - 5] == (if f { 't' } else { 'a' }));
            assert(t[t.len() - 5] == (if g { 't' } else { 'a' }));
            lemma_same_end(
                head + p,
                head + q,
                ",force_list_output="@ + bool_text(f) + ")"@,
            );
            lemma_same_start(head, p, q);
        },
        (AggExprView::AnyValue(_, x), AggExprView::AnyValue(_, y)) => {
            assert(s[s.len() - 5] == (if x { 't' } else { 'a' }));
            assert(t[t.len() - 5] == (if y { 't' } else { 'a' }));
        },
        (AggExprView::ApproxSketch(_, x), AggExprView::ApproxSketch(_, y)) => {
            assert(s.last() == ')' && s[s.len() - 2] == (if x is DDSketch { 'h' } else { 'g' }));
            assert(t.last() == ')' && t[t.len() - 2] == (if y is DDSketch { 'h' } else { 'g' }));
        },
        (AggExprView::MergeSketch(_, x), AggExprView::MergeSketch(_, y)) => {
            assert(s.last() == ')' && s[s.len() - 2] == (if x is DDSketch { 'h' } else { 'g' }));
            assert(t.last() == ')' && t[t.len() - 2] == (if y is DDSketch { 'h' } else { 'g' }));
        },
        _ => {},
    }
}

/// Whether the engine writes different count modes, and different percentiles, of two
/// aggregations differently.
pub open spec fn writes_differently(a: AggExprView, b: AggExprView, m: RepliesView) -> bool {
    match (a, b) {
        (AggExprView::Count(_, x), AggExprView::Count(_, y)) => x != y ==> text_for(
            m,
            TextQueryView::CountMode(x),
        ) != text_for(m, TextQueryView::CountMode(y)),
        (
            AggExprView::ApproxPercentile { child: _, percentiles: x, force_list_output: _ },
            AggExprView::ApproxPercentile { child: _, percentiles: y, force_list_output: _ },
        ) => x != y ==> text_for(m, TextQueryView::Percentiles(x)) != text_for(
            m,
            TextQueryView::Percentiles(y),
        ),
        _ => true,
    }
}

/// Law: different aggregations of one expression have different identifiers, where the engine
/// writes their count modes and percentiles differently if they differ.
pub proof fn law_aggs_of_one_child_differ_in_id(
    a: AggExprView,
    b: AggExprView,
    schema: SchemaView,
    m: RepliesView,
)
    requires
        a != b,
        !(a is MapGroups),
        !(b is MapGroups),
        agg_children_of(a)[0] == agg_children_of(b)[0],
        agg_id_of(a, schema, m) is Ok,
        agg_id_of(b, schema, m) is Ok,
        writes_differently(a, b, m),
    ensures
        agg_id_of(a, schema, m) != agg_id_of(b, schema, m),
{
    law_agg_id_tells_the_aggregation(a, b, schema, m);
}

/// Law: more replies do not change an identifier that is already decided.
pub proof fn law_id_stays(e: ExprView, schema: SchemaView, m: RepliesView, more: RepliesView)
    requires
        extends(more, m),
    ensures
        id_of(e, schema, m) is Ok ==> id_of(e, schema, more) == id_of(e, schema, m),
    decreases e,
{
    match e {
        ExprView::Alias(inner, _)
        | ExprView::Cast(inner, _)
        | ExprView::Not(inner)
        | ExprView::IsNull(inner)
        | ExprView::NotNull(inner) => {
            law_id_stays(*inner, schema, m, more);
        },
        ExprView::FillNull(inner, other)
        | ExprView::IsIn(inner, other)
        | ExprView::BinaryOp { op: _, left: inner, right: other } => {
            law_id_stays(*inner, schema, m, more);
            law_id_stays(*other, schema, m, more);
        },
        ExprView::Between(inner, lower, upper) => {
            law_id_stays(*inner, schema, m, more);
            law_id_stays(*lower, schema, m, more);
            law_id_stays(*upper, schema, m, more);
        },
        ExprView::IfElse { if_true, if_false, predicate } => {
            law_id_stays(*if_true, schema, m, more);
            law_id_stays(*if_false, schema, m, more);
            law_id_stays(*predicate, schema, m, more);
        },
        ExprView::Agg(agg) => {
            law_agg_id_stays(agg, schema, m, more);
        },
        _ => {},
    }
}

/// Law: more replies do not change the identifier of an aggregation that is already decided.
pub proof fn law_agg_id_stays(
    agg: AggExprView,
    schema: SchemaView,
    m: RepliesView,
    more: RepliesView,
)
    requires
        extends(more, m),
    ensures
        agg_id_of(agg, schema, m) is Ok ==> agg_id_of(agg, schema, more) == agg_id_of(
            agg,
            schema,
            m,
        ),
    decreases agg,
{
    match agg {
        AggExprView::Count(e, _)
        | AggExprView::ApproxSketch(e, _)
        | AggExprView::MergeSketch(e, _)
        | AggExprView::AnyValue(e, _)
        | AggExprView::Sum(e)
        | AggExprView::ApproxPercentile { child: e, .. }
        | AggExprView::ApproxCountDistinct(e)
        | AggExprView::Mean(e)
        | AggExprView::Min(e)
        | AggExprView::Max(e)
        | AggExprView::List(e)
        | AggExprView::Concat(e) => {
            law_id_stays(*e, schema, m, more);
        },
        AggExprView::MapGroups { .. } => {},
    }
}

/// Law: identifying an expression fails only by asking, and asks only what has no reply yet.
pub proof fn law_id_asks_what_is_open(e: ExprView, schema: SchemaView, m: RepliesView)
    ensures
        id_of(e, schema, m) matches Err(h) ==> h matches HaltView::Ask(q) && !is_answered(m, q),
    decreases e,
{
    match e {
        ExprView::Alias(inner, _)
        | ExprView::Cast(inner, _)
        | ExprView::Not(inner)
        | ExprView::IsNull(inner)
        | ExprView::NotNull(inner) => {
            law_id_asks_what_is_open(*inner, schema, m);
        },
        ExprView::FillNull(inner, other)
        | ExprView::IsIn(inner, other)
        | ExprView::BinaryOp { op: _, left: inner, right: other } => {
            law_id_asks_what_is_open(*inner, schema, m);
            law_id_asks_what_is_open(*other, schema, m);
        },
        ExprView::Between(inner, lower, upper) => {
            law_id_asks_what_is_open(*inner, schema, m);
            law_id_asks_what_is_open(*lower, schema, m);
            law_id_asks_what_is_open(*upper, schema, m);
        },
        ExprView::IfElse { if_true, if_false, predicate } => {
            law_id_asks_what_is_open(*if_true, schema, m);
            law_id_asks_what_is_open(*if_false, schema, m);
            law_id_asks_what_is_open(*predicate, schema, m);
        },
        ExprView::Agg(agg) => {
            law_agg_id_asks_what_is_open(agg, schema, m);
        },
        _ => {},
    }
}

/// Law: identifying an aggregation fails only by asking, and asks only what has no reply yet.
pub proof fn law_agg_id_asks_what_is_open(agg: AggExprView, schema: SchemaView, m: RepliesView)
    ensures
        agg_id_of(agg, schema, m) matches Err(h) ==> h matches HaltView::Ask(q) && !is_answered(
            m,
            q,
        ),
    decreases agg,
{
    match agg {
        AggExprView::Count(e, _)
        | AggExprView::ApproxSketch(e, _)
        | AggExprView::MergeSketch(e, _)
        | AggExprView::AnyValue(e, _)
        | AggExprView::Sum(e)
        | AggExprView::ApproxPercentile { child: e, .. }
        | AggExprView::ApproxCountDistinct(e)
        | AggExprView::Mean(e)
        | AggExprView::Min(e)
        | AggExprView::Max(e)
        | AggExprView::List(e)
        | AggExprView::Concat(e) => {
            law_id_asks_what_is_open(*e, schema, m);
        },
        AggExprView::MapGroups { .. } => {},
    }
}

} // verus!
