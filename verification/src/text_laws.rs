//! What identifiers and displayed forms say of each kind of expression, from those of its parts
//! and the replies of the engine.
use vstd::prelude::*;

use crate::datatypes::{CountMode, DataTypeView, SchemaView};
use crate::display::{agg_text_of, operand_text_of, text_of};
use crate::expr::{AggExprView, ExprView, ScalarFunctionView, SketchType};
use crate::functions::FunctionExprView;
use crate::lit::{FloatWrapper, LiteralView};
use crate::operator::{law_token_of_each_operator, law_tokens_differ, operator_token, Operator};
use crate::query::{HaltView, QueryView, TextQueryView};
use crate::replies::RepliesView;
use crate::semantic::{agg_id_of, id_of};
use crate::tree::children_of;

verus! {

/// Whether a result is the engine's text between two texts, or the question where there is no
/// such text yet.
pub open spec fn text_decides(
    result: Result<Seq<char>, HaltView>,
    m: RepliesView,
    before: Seq<char>,
    q: TextQueryView,
    after: Seq<char>,
) -> bool {
    if m.texts.contains_key(q) {
        result == Ok::<Seq<char>, HaltView>(before + m.texts[q] + after)
    } else {
        result == Err::<Seq<char>, HaltView>(HaltView::Ask(QueryView::Text(q)))
    }
}

/// Whether a result is the engine's own text, or the question where there is no such text yet.
pub open spec fn text_is_the_reply(
    result: Result<Seq<char>, HaltView>,
    m: RepliesView,
    q: TextQueryView,
) -> bool {
    if m.texts.contains_key(q) {
        result == Ok::<Seq<char>, HaltView>(m.texts[q])
    } else {
        result == Err::<Seq<char>, HaltView>(HaltView::Ask(QueryView::Text(q)))
    }
}

/// Law: a column is identified by its name, a literal by its debug form, a call as the engine
/// says for its own function, arguments and schema.
pub proof fn law_id_of_leaf(
    name: Seq<char>,
    value: LiteralView,
    func: FunctionExprView,
    inputs: Seq<ExprView>,
    scalar: ScalarFunctionView,
    schema: SchemaView,
    m: RepliesView,
)
    ensures
        id_of(ExprView::Column(name), schema, m) == Ok::<Seq<char>, HaltView>(name),
        text_decides(
            id_of(ExprView::Literal(value), schema, m),
            m,
            "Literal("@,
            TextQueryView::LiteralDebug(value),
            ")"@,
        ),
        text_is_the_reply(
            id_of(ExprView::Function { func, inputs }, schema, m),
            m,
            TextQueryView::FunctionId(func, inputs, schema),
        ),
        text_is_the_reply(
            id_of(ExprView::ScalarFunction(scalar), schema, m),
            m,
            TextQueryView::ScalarFunctionId(scalar, schema),
        ),
{
}

/// Law: casts, negations and null tests add their own ending to the identifier of what they
/// apply to.
pub proof fn law_id_of_one_part(
    e: ExprView,
    dtype: DataTypeView,
    schema: SchemaView,
    m: RepliesView,
)
    requires
        id_of(e, schema, m) is Ok,
    ensures
        id_of(ExprView::Not(Box::new(e)), schema, m) == Ok::<Seq<char>, HaltView>(
            id_of(e, schema, m)->Ok_0 + ".not()"@,
        ),
        id_of(ExprView::IsNull(Box::new(e)), schema, m) == Ok::<Seq<char>, HaltView>(
            id_of(e, schema, m)->Ok_0 + ".is_null()"@,
        ),
        id_of(ExprView::NotNull(Box::new(e)), schema, m) == Ok::<Seq<char>, HaltView>(
            id_of(e, schema, m)->Ok_0 + ".not_null()"@,
        ),
        text_decides(
            id_of(ExprView::Cast(Box::new(e), dtype), schema, m),
            m,
            id_of(e, schema, m)->Ok_0 + ".cast("@,
            TextQueryView::DataType(dtype),
            ")"@,
        ),
{
}

/// Law: the identifiers of filled, membership-tested and range-tested expressions and of
/// conditionals hold the identifiers of all parts, each in its place.
pub proof fn law_id_of_several_parts(
    a: ExprView,
    b: ExprView,
    c: ExprView,
    schema: SchemaView,
    m: RepliesView,
)
    requires
        id_of(a, schema, m) is Ok,
        id_of(b, schema, m) is Ok,
        id_of(c, schema, m) is Ok,
    ensures
        ({
            let x = id_of(a, schema, m)->Ok_0;
            let y = id_of(b, schema, m)->Ok_0;
            let z = id_of(c, schema, m)->Ok_0;
            &&& id_of(ExprView::FillNull(Box::new(a), Box::new(b)), schema, m) == Ok::<Seq<char>, HaltView>(
                x + ".fill_null("@ + y + ")"@,
            )
            &&& id_of(ExprView::IsIn(Box::new(a), Box::new(b)), schema, m) == Ok::<Seq<char>, HaltView>(
                x + ".is_in("@ + y + ")"@,
            )
            &&& id_of(ExprView::Between(Box::new(a), Box::new(b), Box::new(c)), schema, m)
                == Ok::<Seq<char>, HaltView>(x + ".between("@ + y + ","@ + z + ")"@)
            &&& id_of(
                ExprView::IfElse {
                    if_true: Box::new(a),
                    if_false: Box::new(b),
                    predicate: Box::new(c),
                },
                schema,
                m,
            ) == Ok::<Seq<char>, HaltView>("("@ + x + " if "@ + z + " else "@ + y + ")"@)
        }),
{
}

/// Law: the identifier of an operation is, whatever the operator, the identifiers of the operands
/// with the operator's token and spaces between them, in round brackets.
pub proof fn law_id_of_operation(
    op: Operator,
    left: ExprView,
    right: ExprView,
    schema: SchemaView,
    m: RepliesView,
)
    requires
        id_of(left, schema, m) is Ok,
        id_of(right, schema, m) is Ok,
    ensures
        id_of(
            ExprView::BinaryOp { op, left: Box::new(left), right: Box::new(right) },
            schema,
            m,
        ) == Ok::<Seq<char>, HaltView>(
            "("@ + id_of(left, schema, m)->Ok_0 + " "@ + operator_token(op) + " "@ + id_of(
                right,
                schema,
                m,
            )->Ok_0 + ")"@,
        ),
{
    let l = id_of(left, schema, m)->Ok_0;
    let r = id_of(right, schema, m)->Ok_0;
    let t = operator_token(op);
    assert("("@ + l + " "@ + t + " "@ + r + ")"@ =~= "("@ + l + (" "@ + t + " "@) + r + ")"@);
}

/// Law: an aggregation without parameters adds its kind to the identifier of what it aggregates;
/// one by function is identified as the engine says.
pub proof fn law_id_of_aggregation_without_parameters(
    e: ExprView,
    func: FunctionExprView,
    inputs: Seq<ExprView>,
    schema: SchemaView,
    m: RepliesView,
)
    requires
        id_of(e, schema, m) is Ok,
    ensures
        ({
            let x = id_of(e, schema, m)->Ok_0;
            &&& agg_id_of(AggExprView::Sum(Box::new(e)), schema, m) == Ok::<Seq<char>, HaltView>(
                x + ".local_sum()"@,
            )
            &&& agg_id_of(AggExprView::ApproxCountDistinct(Box::new(e)), schema, m) == Ok::<Seq<char>, HaltView>(
                x + ".local_approx_count_distinct()"@,
            )
            &&& agg_id_of(AggExprView::Mean(Box::new(e)), schema, m) == Ok::<Seq<char>, HaltView>(
                x + ".local_mean()"@,
            )
            &&& agg_id_of(AggExprView::Min(Box::new(e)), schema, m) == Ok::<Seq<char>, HaltView>(
                x + ".local_min()"@,
            )
            &&& agg_id_of(AggExprView::Max(Box::new(e)), schema, m) == Ok::<Seq<char>, HaltView>(
                x + ".local_max()"@,
            )
            &&& agg_id_of(AggExprView::List(Box::new(e)), schema, m) == Ok::<Seq<char>, HaltView>(
                x + ".local_list()"@,
            )
            &&& agg_id_of(AggExprView::Concat(Box::new(e)), schema, m) == Ok::<Seq<char>, HaltView>(
                x + ".local_concat()"@,
            )
        }),
        text_is_the_reply(
            agg_id_of(AggExprView::MapGroups { func, inputs }, schema, m),
            m,
            TextQueryView::FunctionId(func, inputs, schema),
        ),
{
}

/// Law: the identifiers of counts and percentiles hold the engine's text of their mode or
/// percentiles, and `true` for a forced list exactly where it is forced.
pub proof fn law_id_of_aggregation_with_texts(
    e: ExprView,
    mode: CountMode,
    percentiles: Seq<FloatWrapper>,
    flag: bool,
    schema: SchemaView,
    m: RepliesView,
)
    requires
        id_of(e, schema, m) is Ok,
    ensures
        ({
            let x = id_of(e, schema, m)->Ok_0;
            &&& text_decides(
                agg_id_of(AggExprView::Count(Box::new(e), mode), schema, m),
                m,
                x + ".local_count("@,
                TextQueryView::CountMode(mode),
                ")"@,
            )
            &&& text_decides(
                agg_id_of(
                    AggExprView::ApproxPercentile {
                        child: Box::new(e),
                        percentiles,
                        force_list_output: flag,
                    }, schema, m,
                ),
                m,
                x + ".local_approx_percentiles(percentiles="@,
                TextQueryView::Percentiles(percentiles),
                ",force_list_output="@ + (if flag {
                    "true"@
                } else {
                    "false"@
                }) + ")"@,
            )
        }),
{
}

/// Law: the identifiers of any value and of sketches hold their flag, as `true` exactly where it
/// is set, and their kind.
pub proof fn law_id_of_aggregation_with_parameters(
    e: ExprView,
    flag: bool,
    kind: SketchType,
    schema: SchemaView,
    m: RepliesView,
)
    requires
        id_of(e, schema, m) is Ok,
    ensures
        ({
            let x = id_of(e, schema, m)->Ok_0;
            let shown_flag = if flag {
                "true"@
            } else {
                "false"@
            };
            let shown_kind = if kind is DDSketch {
                "DDSketch"@
            } else {
                "HyperLogLog"@
            };
            &&& agg_id_of(AggExprView::AnyValue(Box::new(e), flag), schema, m) == Ok::<Seq<char>, HaltView>(
                x + ".local_any_value(ignore_nulls="@ + shown_flag + ")"@,
            )
            &&& agg_id_of(AggExprView::ApproxSketch(Box::new(e), kind), schema, m) == Ok::<Seq<char>, HaltView>(
                x + ".local_approx_sketch(sketch_type="@ + shown_kind + ")"@,
            )
            &&& agg_id_of(AggExprView::MergeSketch(Box::new(e), kind), schema, m) == Ok::<Seq<char>, HaltView>(
                x + ".local_merge_sketch(sketch_type="@ + shown_kind + ")"@,
            )
        }),
{
    let x = id_of(e, schema, m)->Ok_0;
    let shown_flag = if flag {
        "true"@
    } else {
        "false"@
    };
    let shown_kind = if kind is DDSketch {
        "DDSketch"@
    } else {
        "HyperLogLog"@
    };
    assert(x + ".local_any_value(ignore_nulls="@ + shown_flag + ")"@ =~= x + (
    ".local_any_value(ignore_nulls="@ + shown_flag + ")"@));
    assert(x + ".local_approx_sketch(sketch_type="@ + shown_kind + ")"@ =~= x + (
    ".local_approx_sketch(sketch_type="@ + shown_kind + ")"@));
    assert(x + ".local_merge_sketch(sketch_type="@ + shown_kind + ")"@ =~= x + (
    ".local_merge_sketch(sketch_type="@ + shown_kind + ")"@));
}

/// Law: an aggregation as an expression has the identifier and the displayed form of the
/// aggregation.
pub proof fn law_texts_of_aggregation(agg: AggExprView, schema: SchemaView, m: RepliesView)
    ensures
        id_of(ExprView::Agg(agg), schema, m) == agg_id_of(agg, schema, m),
        text_of(ExprView::Agg(agg), m) == agg_text_of(agg, m),
{
}

/// Law: an expression that is no call has an identifier, and a displayed form, only where all its
/// parts have one.
pub proof fn law_texts_need_every_part(e: ExprView, i: int, schema: SchemaView, m: RepliesView)
    requires
        0 <= i < children_of(e).len(),
        !(e is Function || e is ScalarFunction),
        !(e matches ExprView::Agg(agg) && agg is MapGroups),
    ensures
        id_of(e, schema, m) is Ok ==> id_of(children_of(e)[i], schema, m) is Ok,
        text_of(e, m) is Ok ==> text_of(children_of(e)[i], m) is Ok || e is BinaryOp,
{
    if let ExprView::Agg(agg) = e {
        assert(id_of(e, schema, m) == agg_id_of(agg, schema, m));
        assert(text_of(e, m) == agg_text_of(agg, m));
    }
}

/// Law: columns and literals show what they are; a call is displayed as the engine says for its
/// own function and arguments.
pub proof fn law_text_of_leaf(
    name: Seq<char>,
    value: LiteralView,
    func: FunctionExprView,
    inputs: Seq<ExprView>,
    scalar: ScalarFunctionView,
    m: RepliesView,
)
    ensures
        text_of(ExprView::Column(name), m) == Ok::<Seq<char>, HaltView>("col("@ + name + ")"@),
        text_decides(
            text_of(ExprView::Literal(value), m),
            m,
            "lit("@,
            TextQueryView::Literal(value),
            ")"@,
        ),
        text_is_the_reply(
            text_of(ExprView::Function { func, inputs }, m),
            m,
            TextQueryView::Function(func, inputs),
        ),
        text_is_the_reply(
            text_of(ExprView::ScalarFunction(scalar), m),
            m,
            TextQueryView::ScalarFunction(scalar),
        ),
{
}

/// Law: aliases, casts, negations and null tests are displayed around what they apply to.
pub proof fn law_text_of_one_part(
    e: ExprView,
    name: Seq<char>,
    dtype: DataTypeView,
    m: RepliesView,
)
    requires
        text_of(e, m) is Ok,
    ensures
        ({
            let x = text_of(e, m)->Ok_0;
            &&& text_of(ExprView::Alias(Box::new(e), name), m) == Ok::<Seq<char>, HaltView>(x + " AS "@ + name)
            &&& text_of(ExprView::Not(Box::new(e)), m) == Ok::<Seq<char>, HaltView>("not("@ + x + ")"@)
            &&& text_of(ExprView::IsNull(Box::new(e)), m) == Ok::<Seq<char>, HaltView>("is_null("@ + x + ")"@)
            &&& text_of(ExprView::NotNull(Box::new(e)), m) == Ok::<Seq<char>, HaltView>("not_null("@ + x + ")"@)
            &&& text_decides(
                text_of(ExprView::Cast(Box::new(e), dtype), m),
                m,
                "cast("@ + x + " AS "@,
                TextQueryView::DataType(dtype),
                ")"@,
            )
        }),
{
    let x = text_of(e, m)->Ok_0;
    assert(x + " AS "@ + name =~= x + (" AS "@ + name));
}

/// Law: filled, membership-tested and range-tested expressions and conditionals show all parts,
/// each in its place.
pub proof fn law_text_of_several_parts(a: ExprView, b: ExprView, c: ExprView, m: RepliesView)
    requires
        text_of(a, m) is Ok,
        text_of(b, m) is Ok,
        text_of(c, m) is Ok,
    ensures
        ({
            let x = text_of(a, m)->Ok_0;
            let y = text_of(b, m)->Ok_0;
            let z = text_of(c, m)->Ok_0;
            &&& text_of(ExprView::FillNull(Box::new(a), Box::new(b)), m) == Ok::<Seq<char>, HaltView>(
                "fill_null("@ + x + ", "@ + y + ")"@,
            )
            &&& text_of(ExprView::IsIn(Box::new(a), Box::new(b)), m) == Ok::<Seq<char>, HaltView>(x + " in "@ + y)
            &&& text_of(ExprView::Between(Box::new(a), Box::new(b), Box::new(c)), m) == Ok::<Seq<char>, HaltView>(
                x + " in ["@ + y + ","@ + z + "]"@,
            )
            &&& text_of(
                ExprView::IfElse {
                    if_true: Box::new(a),
                    if_false: Box::new(b),
                    predicate: Box::new(c),
                },
                m,
            ) == Ok::<Seq<char>, HaltView>("if ["@ + z + "] then ["@ + x + "] else ["@ + y + "]"@)
        }),
{
}

/// How an operand is shown in an operation: without its alias, in square brackets where it is an
/// operation itself, and otherwise as it is displayed.
pub open spec fn shown_operand(e: ExprView, m: RepliesView) -> Result<Seq<char>, HaltView> {
    match e {
        ExprView::Alias(inner, _) => text_of(*inner, m),
        ExprView::BinaryOp { .. } => match text_of(e, m) {
            Ok(text) => Ok::<Seq<char>, HaltView>("["@ + text + "]"@),
            Err(h) => Err(h),
        },
        _ => text_of(e, m),
    }
}

/// Law: an operation shows its operands with the operator's token and spaces between them, and is
/// not decided before its operands are.
pub proof fn law_text_of_operation(op: Operator, left: ExprView, right: ExprView, m: RepliesView)
    ensures
        ({
            let l = shown_operand(left, m);
            let r = shown_operand(right, m);
            let shown = text_of(
                ExprView::BinaryOp { op, left: Box::new(left), right: Box::new(right) },
                m,
            );
            if l is Ok && r is Ok {
                shown == Ok::<Seq<char>, HaltView>(l->Ok_0 + " "@ + operator_token(op) + " "@ + r->Ok_0)
            } else {
                shown is Err
            }
        }),
{
    let l = shown_operand(left, m);
    let r = shown_operand(right, m);
    let t = operator_token(op);
    assert(operand_text_of(left, m) == l);
    assert(operand_text_of(right, m) == r);
    if l is Ok && r is Ok {
        assert(l->Ok_0 + " "@ + t + " "@ + r->Ok_0 =~= l->Ok_0 + (" "@ + t + " "@) + r->Ok_0);
    }
}

/// Law: a displayed aggregation without parameters shows its kind and what it aggregates; one by
/// function is displayed as the engine says.
pub proof fn law_text_of_aggregation_without_parameters(
    e: ExprView,
    func: FunctionExprView,
    inputs: Seq<ExprView>,
    m: RepliesView,
)
    requires
        text_of(e, m) is Ok,
    ensures
        ({
            let x = text_of(e, m)->Ok_0;
            &&& agg_text_of(AggExprView::Sum(Box::new(e)), m) == Ok::<Seq<char>, HaltView>(
                "sum("@ + x + ")"@,
            )
            &&& agg_text_of(AggExprView::ApproxCountDistinct(Box::new(e)), m) == Ok::<Seq<char>, HaltView>(
                "approx_count_distinct("@ + x + ")"@,
            )
            &&& agg_text_of(AggExprView::Mean(Box::new(e)), m) == Ok::<Seq<char>, HaltView>(
                "mean("@ + x + ")"@,
            )
            &&& agg_text_of(AggExprView::Min(Box::new(e)), m) == Ok::<Seq<char>, HaltView>(
                "min("@ + x + ")"@,
            )
            &&& agg_text_of(AggExprView::Max(Box::new(e)), m) == Ok::<Seq<char>, HaltView>(
                "max("@ + x + ")"@,
            )
            &&& agg_text_of(AggExprView::List(Box::new(e)), m) == Ok::<Seq<char>, HaltView>(
                "list("@ + x + ")"@,
            )
            &&& agg_text_of(AggExprView::Concat(Box::new(e)), m) == Ok::<Seq<char>, HaltView>(
                "list("@ + x + ")"@,
            )
        }),
        text_is_the_reply(
            agg_text_of(AggExprView::MapGroups { func, inputs }, m),
            m,
            TextQueryView::Function(func, inputs),
        ),
{
}

/// Law: displayed counts and percentiles show the engine's text of their mode or percentiles, and
/// `true` for a forced list exactly where it is forced.
pub proof fn law_text_of_aggregation_with_texts(
    e: ExprView,
    mode: CountMode,
    percentiles: Seq<FloatWrapper>,
    flag: bool,
    m: RepliesView,
)
    requires
        text_of(e, m) is Ok,
    ensures
        ({
            let x = text_of(e, m)->Ok_0;
            &&& text_decides(
                agg_text_of(AggExprView::Count(Box::new(e), mode), m),
                m,
                "count("@ + x + ", "@,
                TextQueryView::CountMode(mode),
                ")"@,
            )
            &&& text_decides(
                agg_text_of(
                    AggExprView::ApproxPercentile {
                        child: Box::new(e),
                        percentiles,
                        force_list_output: flag,
                    }, m,
                ),
                m,
                "approx_percentiles("@ + x + ", percentiles="@,
                TextQueryView::Percentiles(percentiles),
                ", force_list_output="@ + (if flag {
                    "true"@
                } else {
                    "false"@
                }) + ")"@,
            )
        }),
{
}

/// Law: displayed any values and sketches show their flag, as `true` exactly where it is set, and
/// their kind.
pub proof fn law_text_of_aggregation_with_parameters(
    e: ExprView,
    flag: bool,
    kind: SketchType,
    m: RepliesView,
)
    requires
        text_of(e, m) is Ok,
    ensures
        ({
            let x = text_of(e, m)->Ok_0;
            let shown_flag = if flag {
                "true"@
            } else {
                "false"@
            };
            let shown_kind = if kind is DDSketch {
                "DDSketch"@
            } else {
                "HyperLogLog"@
            };
            &&& agg_text_of(AggExprView::AnyValue(Box::new(e), flag), m) == Ok::<Seq<char>, HaltView>(
                "any_value("@ + x + ", ignore_nulls="@ + shown_flag + ")"@,
            )
            &&& agg_text_of(AggExprView::ApproxSketch(Box::new(e), kind), m) == Ok::<Seq<char>, HaltView>(
                "approx_sketch("@ + x + ", sketch_type="@ + shown_kind + ")"@,
            )
            &&& agg_text_of(AggExprView::MergeSketch(Box::new(e), kind), m) == Ok::<Seq<char>, HaltView>(
                "merge_sketch("@ + x + ", sketch_type="@ + shown_kind + ")"@,
            )
        }),
{
    let x = text_of(e, m)->Ok_0;
    let shown_flag = if flag {
        "true"@
    } else {
        "false"@
    };
    let shown_kind = if kind is DDSketch {
        "DDSketch"@
    } else {
        "HyperLogLog"@
    };
    assert("any_value("@ + x + ", ignore_nulls="@ + shown_flag + ")"@ =~= "any_value("@ + x + (
    ", ignore_nulls="@ + shown_flag + ")"@));
    assert("approx_sketch("@ + x + ", sketch_type="@ + shown_kind + ")"@ =~= "approx_sketch("@ + x + (
    ", sketch_type="@ + shown_kind + ")"@));
    assert("merge_sketch("@ + x + ", sketch_type="@ + shown_kind + ")"@ =~= "merge_sketch("@ + x + (
    ", sketch_type="@ + shown_kind + ")"@));
}

/// The texts of the two truth values and of the two kinds of sketch end in different letters or
/// have different letters in the same place from the end.
proof fn lemma_parameters_differ(head: Seq<char>)
    ensures
        head + "true"@ + ")"@ != head + "false"@ + ")"@,
        head + "DDSketch"@ + ")"@ != head + "HyperLogLog"@ + ")"@,
{
    reveal_strlit("true");
    reveal_strlit("false");
    reveal_strlit("DDSketch");
    reveal_strlit("HyperLogLog");
    assert((head + "true"@ + ")"@).len() != (head + "false"@ + ")"@).len());
    assert((head + "DDSketch"@ + ")"@).len() != (head + "HyperLogLog"@ + ")"@).len());
}

/// Law: displayed aggregations of one expression that differ in a flag or in the kind of sketch
/// differ.
pub proof fn law_shown_parameters_tell_apart(
    e: ExprView,
    percentiles: Seq<FloatWrapper>,
    m: RepliesView,
)
    requires
        text_of(e, m) is Ok,
        m.texts.contains_key(TextQueryView::Percentiles(percentiles)),
    ensures
        agg_text_of(AggExprView::AnyValue(Box::new(e), true), m) != agg_text_of(
            AggExprView::AnyValue(Box::new(e), false),
            m,
        ),
        agg_text_of(
            AggExprView::ApproxPercentile {
                child: Box::new(e),
                percentiles,
                force_list_output: true,
            },
            m,
        ) != agg_text_of(
            AggExprView::ApproxPercentile {
                child: Box::new(e),
                percentiles,
                force_list_output: false,
            },
            m,
        ),
        agg_text_of(AggExprView::ApproxSketch(Box::new(e), SketchType::DDSketch), m)
            != agg_text_of(AggExprView::ApproxSketch(Box::new(e), SketchType::HyperLogLog), m),
        agg_text_of(AggExprView::MergeSketch(Box::new(e), SketchType::DDSketch), m)
            != agg_text_of(AggExprView::MergeSketch(Box::new(e), SketchType::HyperLogLog), m),
{
    let x = text_of(e, m)->Ok_0;
    law_text_of_aggregation_with_parameters(e, true, SketchType::DDSketch, m);
    law_text_of_aggregation_with_parameters(e, false, SketchType::HyperLogLog, m);
    law_text_of_aggregation_with_texts(e, CountMode::All, percentiles, true, m);
    law_text_of_aggregation_with_texts(e, CountMode::All, percentiles, false, m);
    lemma_parameters_differ("any_value("@ + x + ", ignore_nulls="@);
    lemma_parameters_differ("approx_sketch("@ + x + ", sketch_type="@);
    lemma_parameters_differ("merge_sketch("@ + x + ", sketch_type="@);
    let head = "approx_percentiles("@ + x + ", percentiles="@
        + m.texts[TextQueryView::Percentiles(percentiles)];
    reveal_strlit("true");
    reveal_strlit("false");
    assert((head + (", force_list_output="@ + "true"@ + ")"@)).len() != (head + (
    ", force_list_output="@ + "false"@ + ")"@)).len());
}

/// Whether a name holds neither spaces nor round brackets.
pub open spec fn is_plain_name(name: Seq<char>) -> bool {
    forall|i: int|
        0 <= i < name.len() ==> (#[trigger] name[i]) != ' ' && name[i] != '(' && name[i] != ')'
}

/// Whether an expression is made of operations and of columns with plain names alone.
pub open spec fn is_plain_operation(e: ExprView) -> bool
    decreases e,
{
    match e {
        ExprView::Column(name) => is_plain_name(name),
        ExprView::BinaryOp { op: _, left, right } => is_plain_operation(*left)
            && is_plain_operation(*right),
        _ => false,
    }
}

/// By how many the opening brackets among the first `n` characters outnumber the closing ones.
spec fn depth(s: Seq<char>, n: int) -> int
    decreases n,
{
    if n <= 0 {
        0
    } else if s[n - 1] == '(' {
        depth(s, n - 1) + 1
    } else if s[n - 1] == ')' {
        depth(s, n - 1) - 1
    } else {
        depth(s, n - 1)
    }
}

/// Whether the brackets of a text match and each space stands inside some.
spec fn is_closed(s: Seq<char>) -> bool {
    &&& depth(s, s.len() as int) == 0
    &&& forall|k: int| 0 <= k <= s.len() ==> #[trigger] depth(s, k) >= 0
    &&& forall|k: int| 0 <= k < s.len() && #[trigger] s[k] == ' ' ==> depth(s, k) >= 1
}

/// The depth in a text depends on what comes before alone.
proof fn lemma_depth_of_prefix(s: Seq<char>, t: Seq<char>, n: int)
    requires
        0 <= n <= s.len(),
        n <= t.len(),
        forall|k: int| 0 <= k < n ==> s[k] == t[k],
    ensures
        depth(s, n) == depth(t, n),
    decreases n,
{
    if n > 0 {
        assert(s[n - 1] == t[n - 1]);
        lemma_depth_of_prefix(s, t, n - 1);
    }
}

/// The depth inside a text that stands inside another.
proof fn lemma_depth_inside(whole: Seq<char>, start: int, s: Seq<char>, n: int)
    requires
        0 <= start,
        0 <= n <= s.len(),
        start + s.len() <= whole.len(),
        forall|k: int| 0 <= k < s.len() ==> #[trigger] s[k] == whole[start + k],
    ensures
        depth(whole, start + n) == depth(whole, start) + depth(s, n),
    decreases n,
{
    if n > 0 {
        assert(s[n - 1] == whole[start + n - 1]);
        lemma_depth_inside(whole, start, s, n - 1);
    }
}

/// A text without brackets and spaces is closed.
proof fn lemma_plain_name_is_closed(name: Seq<char>, n: int)
    requires
        is_plain_name(name),
        0 <= n <= name.len(),
    ensures
        depth(name, n) == 0,
    decreases n,
{
    if n > 0 {
        assert(name[n - 1] != '(' && name[n - 1] != ')');
        lemma_plain_name_is_closed(name, n - 1);
    }
}

/// A token holds neither spaces nor brackets, and something.
proof fn lemma_tokens_are_plain(op: Operator)
    ensures
        is_plain_name(operator_token(op)),
        operator_token(op).len() > 0,
{
    law_token_of_each_operator(op);
}

/// Two closed texts and a token in brackets, with spaces between them, are closed.
proof fn lemma_operation_is_closed(l: Seq<char>, t: Seq<char>, r: Seq<char>)
    requires
        is_closed(l),
        is_plain_name(t),
        is_closed(r),
    ensures
        is_closed(seq!['('] + l + seq![' '] + t + seq![' '] + r + seq![')']),
{
    let s = seq!['('] + l + seq![' '] + t + seq![' '] + r + seq![')'];
    let a = l.len() as int;
    let b = t.len() as int;
    let c = r.len() as int;
    assert(s.len() == a + b + c + 4);
    assert(s[0] == '(');
    assert(forall|k: int| 0 <= k < a ==> #[trigger] l[k] == s[1 + k]);
    assert(s[1 + a] == ' ');
    assert(forall|k: int| 0 <= k < b ==> #[trigger] t[k] == s[a + 2 + k]);
    assert(s[a + b + 2] == ' ');
    assert(forall|k: int| 0 <= k < c ==> #[trigger] r[k] == s[a + b + 3 + k]);
    assert(s[a + b + c + 3] == ')');
    assert(depth(s, 0) == 0);
    assert(depth(s, 1) == 1);
    lemma_depth_inside(s, 1, l, a);
    assert(depth(s, a + 2) == 1);
    lemma_depth_inside(s, a + 2, t, b);
    lemma_plain_name_is_closed(t, b);
    assert(depth(s, a + b + 3) == 1);
    lemma_depth_inside(s, a + b + 3, r, c);
    assert(depth(s, a + b + c + 3) == 1);
    assert(depth(s, a + b + c + 4) == 0);
    assert forall|k: int| 0 <= k <= s.len() implies #[trigger] depth(s, k) >= 0 && (1 <= k
        < s.len() ==> depth(s, k) >= 1) by {
        if 1 <= k <= a + 1 {
            lemma_depth_inside(s, 1, l, k - 1);
            assert(depth(l, k - 1) >= 0);
        } else if a + 2 <= k <= a + b + 2 {
            lemma_depth_inside(s, a + 2, t, k - a - 2);
            lemma_plain_name_is_closed(t, k - a - 2);
        } else if a + b + 3 <= k <= a + b + c + 3 {
            lemma_depth_inside(s, a + b + 3, r, k - a - b - 3);
            assert(depth(r, k - a - b - 3) >= 0);
        }
    }
    assert forall|k: int| 0 <= k < s.len() && #[trigger] s[k] == ' ' implies depth(s, k) >= 1 by {
        assert(depth(s, k) >= 0);
    }
}

/// What two closed texts before a space have in common with what follows makes them the same.
proof fn lemma_closed_before_space(a: Seq<char>, x: Seq<char>, b: Seq<char>, y: Seq<char>)
    requires
        is_closed(a),
        is_closed(b),
        a + seq![' '] + x == b + seq![' '] + y,
    ensures
        a == b,
        x == y,
{
    let s = a + seq![' '] + x;
    let t = b + seq![' '] + y;
    assert(s[a.len() as int] == ' ');
    assert(t[b.len() as int] == ' ');
    if a.len() < b.len() {
        assert forall|k: int| 0 <= k < a.len() implies a[k] == b[k] by {
            assert(s[k] == t[k]);
        }
        lemma_depth_of_prefix(a, b, a.len() as int);
        assert(b[a.len() as int] == ' ');
    }
    if b.len() < a.len() {
        assert forall|k: int| 0 <= k < b.len() implies b[k] == a[k] by {
            assert(s[k] == t[k]);
        }
        lemma_depth_of_prefix(b, a, b.len() as int);
        assert(a[b.len() as int] == ' ');
    }
    assert(a =~= s.take(a.len() as int));
    assert(b =~= t.take(b.len() as int));
    assert(x =~= s.skip(a.len() as int + 1));
    assert(y =~= t.skip(b.len() as int + 1));
}

/// What an operation was put together from can be read from its text in one way alone.
proof fn lemma_operation_is_read_in_one_way(
    w: Seq<char>,
    u: Seq<char>,
    x: Seq<char>,
    y: Seq<char>,
    v: Seq<char>,
    z: Seq<char>,
)
    requires
        is_closed(w),
        is_closed(y),
        is_plain_name(u),
        is_plain_name(v),
        seq!['('] + w + seq![' '] + u + seq![' '] + x + seq![')'] == seq!['('] + y + seq![' '] + v
            + seq![' '] + z + seq![')'],
    ensures
        w == y,
        u == v,
        x == z,
{
    let s = seq!['('] + w + seq![' '] + u + seq![' '] + x + seq![')'];
    let t = seq!['('] + y + seq![' '] + v + seq![' '] + z + seq![')'];
    assert(s.subrange(1, s.len() - 1) =~= w + seq![' '] + (u + seq![' '] + x));
    assert(t.subrange(1, t.len() - 1) =~= y + seq![' '] + (v + seq![' '] + z));
    lemma_closed_before_space(w, u + seq![' '] + x, y, v + seq![' '] + z);
    assert forall|k: int| 0 <= k <= u.len() implies #[trigger] depth(u, k) == 0 by {
        lemma_plain_name_is_closed(u, k);
    }
    assert forall|k: int| 0 <= k <= v.len() implies #[trigger] depth(v, k) == 0 by {
        lemma_plain_name_is_closed(v, k);
    }
    lemma_closed_before_space(u, x, v, z);
}

/// An operation over columns with plain names has an identifier, with matching brackets.
proof fn lemma_plain_id_is_closed(e: ExprView, schema: SchemaView, m: RepliesView)
    requires
        is_plain_operation(e),
    ensures
        id_of(e, schema, m) is Ok,
        is_closed(id_of(e, schema, m)->Ok_0),
    decreases e,
{
    match e {
        ExprView::Column(name) => {
            assert(id_of(e, schema, m) == Ok::<Seq<char>, HaltView>(name));
            assert forall|k: int| 0 <= k <= name.len() implies #[trigger] depth(name, k) == 0 by {
                lemma_plain_name_is_closed(name, k);
            }
        },
        ExprView::BinaryOp { op, left, right } => {
            lemma_plain_id_is_closed(*left, schema, m);
            lemma_plain_id_is_closed(*right, schema, m);
            lemma_tokens_are_plain(op);
            lemma_operation_id(op, *left, *right, schema, m);
            lemma_operation_is_closed(
                id_of(*left, schema, m)->Ok_0,
                operator_token(op),
                id_of(*right, schema, m)->Ok_0,
            );
        },
        _ => {},
    }
}

/// The identifier of an operation, by characters.
proof fn lemma_operation_id(
    op: Operator,
    left: ExprView,
    right: ExprView,
    schema: SchemaView,
    m: RepliesView,
)
    requires
        id_of(left, schema, m) is Ok,
        id_of(right, schema, m) is Ok,
    ensures
        id_of(
            ExprView::BinaryOp { op, left: Box::new(left), right: Box::new(right) },
            schema,
            m,
        ) == Ok::<Seq<char>, HaltView>(
            seq!['('] + id_of(left, schema, m)->Ok_0 + seq![' '] + operator_token(op) + seq![' ']
                + id_of(right, schema, m)->Ok_0 + seq![')'],
        ),
{
    law_id_of_operation(op, left, right, schema, m);
    reveal_strlit("(");
    reveal_strlit(" ");
    reveal_strlit(")");
    assert("("@ =~= seq!['(']);
    assert(" "@ =~= seq![' ']);
    assert(")"@ =~= seq![')']);
}

/// Law: among operations over columns with plain names, an identifier belongs to one expression:
/// expressions that differ in an operator, in a column or in how the operations are nested have
/// different identifiers.
pub proof fn law_id_tells_operations_apart(
    a: ExprView,
    b: ExprView,
    schema: SchemaView,
    m: RepliesView,
)
    requires
        is_plain_operation(a),
        is_plain_operation(b),
    ensures
        id_of(a, schema, m) is Ok,
        id_of(a, schema, m) == id_of(b, schema, m) <==> a == b,
    decreases a,
{
    lemma_plain_id_is_closed(a, schema, m);
    lemma_plain_id_is_closed(b, schema, m);
    let s = id_of(a, schema, m)->Ok_0;
    let t = id_of(b, schema, m)->Ok_0;
    match (a, b) {
        (
            ExprView::BinaryOp { op: o, left: al, right: ar },
            ExprView::BinaryOp { op: p, left: bl, right: br },
        ) => {
            lemma_plain_id_is_closed(*al, schema, m);
            lemma_plain_id_is_closed(*ar, schema, m);
            lemma_plain_id_is_closed(*bl, schema, m);
            lemma_plain_id_is_closed(*br, schema, m);
            lemma_operation_id(o, *al, *ar, schema, m);
            lemma_operation_id(p, *bl, *br, schema, m);
            law_id_tells_operations_apart(*al, *bl, schema, m);
            law_id_tells_operations_apart(*ar, *br, schema, m);
            if s == t {
                lemma_tokens_are_plain(o);
                lemma_tokens_are_plain(p);
                lemma_operation_is_read_in_one_way(
                    id_of(*al, schema, m)->Ok_0,
                    operator_token(o),
                    id_of(*ar, schema, m)->Ok_0,
                    id_of(*bl, schema, m)->Ok_0,
                    operator_token(p),
                    id_of(*br, schema, m)->Ok_0,
                );
                law_tokens_differ(o, p);
            }
        },
        (ExprView::BinaryOp { op, left, right }, _) => {
            lemma_plain_id_is_closed(*left, schema, m);
            lemma_plain_id_is_closed(*right, schema, m);
            lemma_operation_id(op, *left, *right, schema, m);
            assert(s[0] == '(');
            if s == t {
                assert(t[0] != '(');
            }
        },
        (_, ExprView::BinaryOp { op, left, right }) => {
            lemma_plain_id_is_closed(*left, schema, m);
            lemma_plain_id_is_closed(*right, schema, m);
            lemma_operation_id(op, *left, *right, schema, m);
            assert(t[0] == '(');
            if s == t {
                assert(s[0] != '(');
            }
        },
        _ => {},
    }
}

/// Law: the two ways to nest three columns with plain names in two operations have different
/// identifiers.
pub proof fn law_nesting_shows_in_id(
    x: Seq<char>,
    y: Seq<char>,
    z: Seq<char>,
    inner: Operator,
    outer: Operator,
    schema: SchemaView,
    m: RepliesView,
)
    requires
        is_plain_name(x),
        is_plain_name(y),
        is_plain_name(z),
    ensures
        id_of(
            ExprView::BinaryOp {
                op: outer,
                left: Box::new(
                    ExprView::BinaryOp {
                        op: inner,
                        left: Box::new(ExprView::Column(x)),
                        right: Box::new(ExprView::Column(y)),
                    },
                ),
                right: Box::new(ExprView::Column(z)),
            },
            schema,
            m,
        ) != id_of(
            ExprView::BinaryOp {
                op: inner,
                left: Box::new(ExprView::Column(x)),
                right: Box::new(
                    ExprView::BinaryOp {
                        op: outer,
                        left: Box::new(ExprView::Column(y)),
                        right: Box::new(ExprView::Column(z)),
                    },
                ),
            },
            schema,
            m,
        ),
{
    let (p, q, r) = (ExprView::Column(x), ExprView::Column(y), ExprView::Column(z));
    let first = ExprView::BinaryOp { op: inner, left: Box::new(p), right: Box::new(q) };
    let second = ExprView::BinaryOp { op: outer, left: Box::new(q), right: Box::new(r) };
    let a = ExprView::BinaryOp { op: outer, left: Box::new(first), right: Box::new(r) };
    let b = ExprView::BinaryOp { op: inner, left: Box::new(p), right: Box::new(second) };
    assert(is_plain_operation(p) && is_plain_operation(q) && is_plain_operation(r));
    assert(is_plain_operation(first) && is_plain_operation(second));
    law_id_tells_operations_apart(a, b, schema, m);
}

} // verus!
