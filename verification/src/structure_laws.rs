//! What the parts, the names and the values of expressions are, kind by kind.
use vstd::prelude::*;
use vstd::seq_lib::group_to_multiset_ensures;

use crate::builders::{named_aggregation, operation};
use crate::datatypes::{fields_view, CountMode, DataType, DataTypeView, Field, FieldView};
use crate::expr::{
    agg_expr_view, refs_view, scalar_function_view, AggExpr, AggExprView, Expr, ExprRef, ExprView,
    ScalarFunctionView, SketchType,
};
use crate::functions::{FunctionExpr, FunctionExprView, SketchExpr, StructExpr};
use crate::lit::{FloatWrapper, LiteralValue, LiteralView};
use crate::naming::{agg_name_of, all_named, name_of, names_of, option_text, same_names};
use crate::operator::Operator;
use crate::query::{Halt, HaltView};
use crate::replies::result_view;
use crate::semantic::sketch_name;
use crate::text::{bool_text, strings_view};
use crate::tree::{
    agg_children_of, agg_with_children, children_of, contains_agg, law_agg_is_here_or_below,
    takes_children, with_children,
};

verus! {

/// Law: the parts of each kind of expression that is no aggregation, in order.
pub proof fn law_children_of_each_kind(
    a: ExprView,
    b: ExprView,
    c: ExprView,
    name: Seq<char>,
    dtype: DataTypeView,
    value: LiteralView,
    op: Operator,
    func: FunctionExprView,
    scalar: ScalarFunctionView,
    inputs: Seq<ExprView>,
)
    ensures
        children_of(ExprView::Column(name)) == Seq::<ExprView>::empty(),
        children_of(ExprView::Literal(value)) == Seq::<ExprView>::empty(),
        children_of(ExprView::Not(Box::new(a))) == seq![a],
        children_of(ExprView::IsNull(Box::new(a))) == seq![a],
        children_of(ExprView::NotNull(Box::new(a))) == seq![a],
        children_of(ExprView::Cast(Box::new(a), dtype)) == seq![a],
        children_of(ExprView::Alias(Box::new(a), name)) == seq![a],
        children_of(ExprView::BinaryOp { op, left: Box::new(a), right: Box::new(b) }) == seq![a, b],
        children_of(ExprView::IsIn(Box::new(a), Box::new(b))) == seq![a, b],
        children_of(ExprView::FillNull(Box::new(a), Box::new(b))) == seq![a, b],
        children_of(ExprView::Between(Box::new(a), Box::new(b), Box::new(c))) == seq![a, b, c],
        children_of(
            ExprView::IfElse {
                if_true: Box::new(a),
                if_false: Box::new(b),
                predicate: Box::new(c),
            },
        ) == seq![a, b, c],
        children_of(ExprView::Function { func, inputs }) == inputs,
        children_of(ExprView::ScalarFunction(scalar)) == scalar.inputs,
{
}

/// Law: the part of each kind of aggregation is what it aggregates, and those of one by function
/// are its arguments; as an expression it has the same parts.
pub proof fn law_children_of_each_aggregation(
    a: ExprView,
    mode: CountMode,
    percentiles: Seq<FloatWrapper>,
    flag: bool,
    kind: SketchType,
    func: FunctionExprView,
    inputs: Seq<ExprView>,
    agg: AggExprView,
)
    ensures
        agg_children_of(AggExprView::Count(Box::new(a), mode)) == seq![a],
        agg_children_of(AggExprView::Sum(Box::new(a))) == seq![a],
        agg_children_of(AggExprView::ApproxPercentile {
                child: Box::new(a),
                percentiles,
                force_list_output: flag,
            }) == seq![a],
        agg_children_of(AggExprView::ApproxCountDistinct(Box::new(a))) == seq![a],
        agg_children_of(AggExprView::ApproxSketch(Box::new(a), kind)) == seq![a],
        agg_children_of(AggExprView::MergeSketch(Box::new(a), kind)) == seq![a],
        agg_children_of(AggExprView::Mean(Box::new(a))) == seq![a],
        agg_children_of(AggExprView::Min(Box::new(a))) == seq![a],
        agg_children_of(AggExprView::Max(Box::new(a))) == seq![a],
        agg_children_of(AggExprView::AnyValue(Box::new(a), flag)) == seq![a],
        agg_children_of(AggExprView::List(Box::new(a))) == seq![a],
        agg_children_of(AggExprView::Concat(Box::new(a))) == seq![a],
        agg_children_of(AggExprView::MapGroups { func, inputs }) == inputs,
        children_of(ExprView::Agg(agg)) == agg_children_of(agg),
{
}

/// Law: leaves take no parts; calls and aggregations by function take as many as they have
/// arguments, other aggregations one; every other expression takes at least as many as it has,
/// which is one, two or three by its kind.
pub proof fn law_numbers_of_children(e: ExprView, count: nat)
    ensures
        takes_children(e, count) <==> (match e {
            ExprView::Column(_) | ExprView::Literal(_) => count == 0,
            ExprView::Function { func: _, inputs } => count == inputs.len(),
            ExprView::ScalarFunction(func) => count == func.inputs.len(),
            ExprView::Agg(agg) => match agg {
                AggExprView::MapGroups { func: _, inputs } => count == inputs.len(),
                _ => count == 1,
            },
            ExprView::Not(_)
            | ExprView::IsNull(_)
            | ExprView::NotNull(_)
            | ExprView::Cast(..)
            | ExprView::Alias(..) => count >= 1,
            ExprView::BinaryOp { .. } | ExprView::IsIn(..) | ExprView::FillNull(..) => count >= 2,
            ExprView::Between(..) | ExprView::IfElse { .. } => count >= 3,
        }),
{
}

/// Law: rebuilding puts each new part in the place of the old one and changes nothing else: no
/// name, type, operator, function or literal.
pub proof fn law_rebuilding_changes_the_parts_alone(
    a: ExprView,
    b: ExprView,
    c: ExprView,
    name: Seq<char>,
    dtype: DataTypeView,
    value: LiteralView,
    op: Operator,
    func: FunctionExprView,
    scalar: ScalarFunctionView,
    inputs: Seq<ExprView>,
    parts: Seq<ExprView>,
)
    ensures
        with_children(ExprView::Column(name), parts) == ExprView::Column(name),
        with_children(ExprView::Literal(value), parts) == ExprView::Literal(value),
        with_children(ExprView::Not(Box::new(a)), parts) == ExprView::Not(Box::new(parts[0])),
        with_children(ExprView::IsNull(Box::new(a)), parts) == ExprView::IsNull(Box::new(parts[0])),
        with_children(ExprView::NotNull(Box::new(a)), parts) == ExprView::NotNull(
            Box::new(parts[0]),
        ),
        with_children(ExprView::Cast(Box::new(a), dtype), parts) == ExprView::Cast(
            Box::new(parts[0]),
            dtype,
        ),
        with_children(ExprView::Alias(Box::new(a), name), parts) == ExprView::Alias(
            Box::new(parts[0]),
            name,
        ),
        with_children(
            ExprView::BinaryOp { op, left: Box::new(a), right: Box::new(b) },
            parts,
        ) == (ExprView::BinaryOp { op, left: Box::new(parts[0]), right: Box::new(parts[1]) }),
        with_children(ExprView::IsIn(Box::new(a), Box::new(b)), parts) == ExprView::IsIn(
            Box::new(parts[0]),
            Box::new(parts[1]),
        ),
        with_children(ExprView::FillNull(Box::new(a), Box::new(b)), parts) == ExprView::FillNull(
            Box::new(parts[0]),
            Box::new(parts[1]),
        ),
        with_children(ExprView::Between(Box::new(a), Box::new(b), Box::new(c)), parts)
            == ExprView::Between(Box::new(parts[0]), Box::new(parts[1]), Box::new(parts[2])),
        with_children(
            ExprView::IfElse {
                if_true: Box::new(a),
                if_false: Box::new(b),
                predicate: Box::new(c),
            },
            parts,
        ) == (ExprView::IfElse {
            if_true: Box::new(parts[0]),
            if_false: Box::new(parts[1]),
            predicate: Box::new(parts[2]),
        }),
        with_children(ExprView::Function { func, inputs }, parts) == (ExprView::Function {
            func,
            inputs: parts,
        }),
        with_children(ExprView::ScalarFunction(scalar), parts) == ExprView::ScalarFunction(
            ScalarFunctionView { udf: scalar.udf, inputs: parts },
        ),
{
}

/// Law: rebuilding an aggregation replaces what it aggregates and keeps its kind and parameters.
pub proof fn law_rebuilding_aggregation_changes_the_parts_alone(
    a: ExprView,
    mode: CountMode,
    percentiles: Seq<FloatWrapper>,
    flag: bool,
    kind: SketchType,
    func: FunctionExprView,
    inputs: Seq<ExprView>,
    agg: AggExprView,
    parts: Seq<ExprView>,
)
    ensures
        agg_with_children(AggExprView::Count(Box::new(a), mode), parts) == (AggExprView::Count(Box::new(parts[0]), mode)),
        agg_with_children(AggExprView::Sum(Box::new(a)), parts) == (AggExprView::Sum(Box::new(parts[0]))),
        agg_with_children(AggExprView::ApproxPercentile {
                child: Box::new(a),
                percentiles,
                force_list_output: flag,
            }, parts) == (AggExprView::ApproxPercentile {
                child: Box::new(parts[0]),
                percentiles,
                force_list_output: flag,
            }),
        agg_with_children(AggExprView::ApproxCountDistinct(Box::new(a)), parts) == (AggExprView::ApproxCountDistinct(Box::new(parts[0]))),
        agg_with_children(AggExprView::ApproxSketch(Box::new(a), kind), parts) == (AggExprView::ApproxSketch(Box::new(parts[0]), kind)),
        agg_with_children(AggExprView::MergeSketch(Box::new(a), kind), parts) == (AggExprView::MergeSketch(Box::new(parts[0]), kind)),
        agg_with_children(AggExprView::Mean(Box::new(a)), parts) == (AggExprView::Mean(Box::new(parts[0]))),
        agg_with_children(AggExprView::Min(Box::new(a)), parts) == (AggExprView::Min(Box::new(parts[0]))),
        agg_with_children(AggExprView::Max(Box::new(a)), parts) == (AggExprView::Max(Box::new(parts[0]))),
        agg_with_children(AggExprView::AnyValue(Box::new(a), flag), parts) == (AggExprView::AnyValue(Box::new(parts[0]), flag)),
        agg_with_children(AggExprView::List(Box::new(a)), parts) == (AggExprView::List(Box::new(parts[0]))),
        agg_with_children(AggExprView::Concat(Box::new(a)), parts) == (AggExprView::Concat(Box::new(parts[0]))),
        agg_with_children(AggExprView::MapGroups { func, inputs }, parts) == (
        AggExprView::MapGroups { func, inputs: parts }),
        with_children(ExprView::Agg(agg), parts) == ExprView::Agg(agg_with_children(agg, parts)),
{
}

/// Law: columns have their name, literals are called `literal`, a struct access has the name of
/// the member and a made struct is called `struct`; other calls are named after their first
/// argument, and have no name without one.
pub proof fn law_names_of_leaves_and_calls(
    name: Seq<char>,
    value: LiteralView,
    func: FunctionExprView,
    scalar: ScalarFunctionView,
    inputs: Seq<ExprView>,
)
    ensures
        name_of(ExprView::Column(name)) == Some(name),
        name_of(ExprView::Literal(value)) == Some("literal"@),
        name_of(ExprView::Function { func: FunctionExprView::StructGet(name), inputs })
            == Some(name),
        !(func is StructGet) ==> name_of(ExprView::Function { func, inputs }) == (if inputs.len()
            == 0 {
            None
        } else {
            name_of(inputs[0])
        }),
        scalar.udf.name == "to_struct"@ ==> name_of(ExprView::ScalarFunction(scalar))
            == Some("struct"@),
        scalar.udf.name != "to_struct"@ ==> name_of(ExprView::ScalarFunction(scalar)) == (
        if scalar.inputs.len() == 0 {
            None
        } else {
            name_of(scalar.inputs[0])
        }),
{
}

/// Law: an alias is the name; every other expression with parts of its own has the name of its
/// first part, a conditional that of its first outcome.
pub proof fn law_names_of_composites(
    a: ExprView,
    b: ExprView,
    c: ExprView,
    name: Seq<char>,
    dtype: DataTypeView,
    op: Operator,
    agg: AggExprView,
)
    ensures
        name_of(ExprView::Alias(Box::new(a), name)) == Some(name),
        name_of(ExprView::Not(Box::new(a))) == name_of(a),
        name_of(ExprView::IsNull(Box::new(a))) == name_of(a),
        name_of(ExprView::NotNull(Box::new(a))) == name_of(a),
        name_of(ExprView::Cast(Box::new(a), dtype)) == name_of(a),
        name_of(ExprView::FillNull(Box::new(a), Box::new(b))) == name_of(a),
        name_of(ExprView::IsIn(Box::new(a), Box::new(b))) == name_of(a),
        name_of(ExprView::Between(Box::new(a), Box::new(b), Box::new(c))) == name_of(a),
        name_of(ExprView::BinaryOp { op, left: Box::new(a), right: Box::new(b) }) == name_of(a),
        name_of(
            ExprView::IfElse {
                if_true: Box::new(a),
                if_false: Box::new(b),
                predicate: Box::new(c),
            },
        ) == name_of(a),
        name_of(ExprView::Agg(agg)) == agg_name_of(agg),
{
}

/// Law: an aggregation has the name of what it aggregates, one by function that of its first
/// argument, and no name without one.
pub proof fn law_names_of_aggregations(
    a: ExprView,
    mode: CountMode,
    percentiles: Seq<FloatWrapper>,
    flag: bool,
    kind: SketchType,
    func: FunctionExprView,
    inputs: Seq<ExprView>,
)
    ensures
        agg_name_of(AggExprView::Count(Box::new(a), mode)) == name_of(a),
        agg_name_of(AggExprView::Sum(Box::new(a))) == name_of(a),
        agg_name_of(AggExprView::ApproxPercentile {
                child: Box::new(a),
                percentiles,
                force_list_output: flag,
            }) == name_of(a),
        agg_name_of(AggExprView::ApproxCountDistinct(Box::new(a))) == name_of(a),
        agg_name_of(AggExprView::ApproxSketch(Box::new(a), kind)) == name_of(a),
        agg_name_of(AggExprView::MergeSketch(Box::new(a), kind)) == name_of(a),
        agg_name_of(AggExprView::Mean(Box::new(a))) == name_of(a),
        agg_name_of(AggExprView::Min(Box::new(a))) == name_of(a),
        agg_name_of(AggExprView::Max(Box::new(a))) == name_of(a),
        agg_name_of(AggExprView::AnyValue(Box::new(a), flag)) == name_of(a),
        agg_name_of(AggExprView::List(Box::new(a))) == name_of(a),
        agg_name_of(AggExprView::Concat(Box::new(a))) == name_of(a),
        agg_name_of(AggExprView::MapGroups { func, inputs }) == (if inputs.len() == 0 {
            None
        } else {
            name_of(inputs[0])
        }),
{
}

/// Law: an aggregation is one, leaves hold none, and every other expression holds one exactly
/// where one of its parts does.
pub proof fn law_aggregations_within(
    a: ExprView,
    b: ExprView,
    c: ExprView,
    name: Seq<char>,
    dtype: DataTypeView,
    value: LiteralView,
    op: Operator,
    agg: AggExprView,
    func: FunctionExprView,
    scalar: ScalarFunctionView,
    inputs: Seq<ExprView>,
)
    ensures
        contains_agg(ExprView::Agg(agg)),
        !contains_agg(ExprView::Column(name)),
        !contains_agg(ExprView::Literal(value)),
        contains_agg(ExprView::Alias(Box::new(a), name)) == contains_agg(a),
        contains_agg(ExprView::Cast(Box::new(a), dtype)) == contains_agg(a),
        contains_agg(ExprView::Not(Box::new(a))) == contains_agg(a),
        contains_agg(ExprView::IsNull(Box::new(a))) == contains_agg(a),
        contains_agg(ExprView::NotNull(Box::new(a))) == contains_agg(a),
        contains_agg(ExprView::FillNull(Box::new(a), Box::new(b))) == (contains_agg(a)
            || contains_agg(b)),
        contains_agg(ExprView::IsIn(Box::new(a), Box::new(b))) == (contains_agg(a)
            || contains_agg(b)),
        contains_agg(ExprView::BinaryOp { op, left: Box::new(a), right: Box::new(b) }) == (
        contains_agg(a) || contains_agg(b)),
        contains_agg(ExprView::Between(Box::new(a), Box::new(b), Box::new(c))) == (contains_agg(a)
            || contains_agg(b) || contains_agg(c)),
        contains_agg(
            ExprView::IfElse {
                if_true: Box::new(a),
                if_false: Box::new(b),
                predicate: Box::new(c),
            },
        ) == (contains_agg(a) || contains_agg(b) || contains_agg(c)),
        contains_agg(ExprView::Function { func, inputs }) == exists|i: int|
            0 <= i < inputs.len() && contains_agg(#[trigger] inputs[i]),
        contains_agg(ExprView::ScalarFunction(scalar)) == exists|i: int|
            0 <= i < scalar.inputs.len() && contains_agg(#[trigger] scalar.inputs[i]),
{
    law_agg_is_here_or_below(ExprView::Function { func, inputs });
    law_agg_is_here_or_below(ExprView::ScalarFunction(scalar));
    assert(children_of(ExprView::Function { func, inputs }) == inputs);
    assert(children_of(ExprView::ScalarFunction(scalar)) == scalar.inputs);
}

/// How many expressions of a list have the given name.
pub open spec fn times_named(list: Seq<ExprView>, name: Seq<char>) -> nat
    decreases list.len(),
{
    if list.len() == 0 {
        0
    } else {
        times_named(list.drop_last(), name) + (if name_of(list.last()) == Some(name) {
            1nat
        } else {
            0nat
        })
    }
}

/// Names are counted in the list of names.
proof fn lemma_times_named(list: Seq<ExprView>, name: Seq<char>)
    requires
        all_named(list),
    ensures
        names_of(list).to_multiset().count(name) == times_named(list, name),
    decreases list.len(),
{
    broadcast use group_to_multiset_ensures;

    if list.len() == 0 {
        names_of(list).to_multiset_ensures();
        assert(names_of(list) =~= Seq::<Seq<char>>::empty());
        assert(names_of(list).to_multiset() =~= vstd::multiset::Multiset::empty());
    } else {
        let rest = list.drop_last();
        assert forall|i: int| 0 <= i < rest.len() implies name_of(#[trigger] rest[i]) is Some by {
            assert(rest[i] == list[i]);
        }
        lemma_times_named(rest, name);
        let last = name_of(list.last())->0;
        assert(name_of(list[list.len() - 1]) is Some);
        assert(names_of(list) =~= names_of(rest).push(last));
        names_of(rest).to_multiset_ensures();
        assert(names_of(rest).push(last).to_multiset() =~= names_of(rest).to_multiset().insert(
            last,
        ));
    }
}

/// Law: two lists of named columns are compatible exactly where every name occurs as often in the
/// one as in the other.
pub proof fn law_compatible_exactly_where_names_occur_as_often(
    a: Seq<ExprView>,
    b: Seq<ExprView>,
)
    requires
        forall|i: int| 0 <= i < a.len() ==> name_of(#[trigger] a[i]) is Some,
        forall|i: int| 0 <= i < b.len() ==> name_of(#[trigger] b[i]) is Some,
    ensures
        all_named(a),
        all_named(b),
        same_names(a, b) <==> forall|name: Seq<char>| #[trigger]
            times_named(a, name) == times_named(b, name),
{
    assert forall|name: Seq<char>| #[trigger]
        times_named(a, name) == names_of(a).to_multiset().count(name) && times_named(b, name)
            == names_of(b).to_multiset().count(name) by {
        lemma_times_named(a, name);
        lemma_times_named(b, name);
    }
    if forall|name: Seq<char>| #[trigger] times_named(a, name) == times_named(b, name) {
        assert forall|name: Seq<char>|
            names_of(a).to_multiset().count(name) == names_of(b).to_multiset().count(name) by {
            assert(times_named(a, name) == times_named(b, name));
        }
        assert(names_of(a).to_multiset() =~= names_of(b).to_multiset());
    }
    if same_names(a, b) {
        assert forall|name: Seq<char>| #[trigger] times_named(a, name) == times_named(b, name) by {
        }
    }
}

/// Law: six names stand for aggregations, each for its own; a count by name counts valid values;
/// no other name stands for one.
pub proof fn law_aggregations_by_name(name: Seq<char>, child: ExprView)
    ensures
        named_aggregation("count"@, child) == Some(
            AggExprView::Count(Box::new(child), CountMode::Valid),
        ),
        named_aggregation("sum"@, child) == Some(AggExprView::Sum(Box::new(child))),
        named_aggregation("mean"@, child) == Some(AggExprView::Mean(Box::new(child))),
        named_aggregation("min"@, child) == Some(AggExprView::Min(Box::new(child))),
        named_aggregation("max"@, child) == Some(AggExprView::Max(Box::new(child))),
        named_aggregation("list"@, child) == Some(AggExprView::List(Box::new(child))),
        named_aggregation(name, child) is Some <==> (name == "count"@ || name == "sum"@ || name
            == "mean"@ || name == "min"@ || name == "max"@ || name == "list"@),
{
    reveal_strlit("count");
    reveal_strlit("sum");
    reveal_strlit("mean");
    reveal_strlit("min");
    reveal_strlit("max");
    reveal_strlit("list");
    assert("count"@[0] == 'c' && "sum"@[0] == 's' && "list"@[0] == 'l');
    assert("mean"@[0] == 'm' && "min"@[0] == 'm' && "max"@[0] == 'm');
    assert("mean"@[1] == 'e' && "min"@[1] == 'i' && "max"@[1] == 'a');
}

/// Law: an operation has its operator, its left operand on the left and its right on the right.
pub proof fn law_operation(op: Operator, left: ExprView, right: ExprView)
    ensures
        operation(op, left, right) == (ExprView::BinaryOp {
            op,
            left: Box::new(left),
            right: Box::new(right),
        }),
{
}

/// Law: truth values and kinds of sketch are written in their own words.
pub proof fn law_words_of_parameters(flag: bool, kind: SketchType)
    ensures
        bool_text(flag) == (if flag {
            "true"@
        } else {
            "false"@
        }),
        sketch_name(kind) == (if kind is DDSketch {
            "DDSketch"@
        } else {
            "HyperLogLog"@
        }),
{
}

/// Law: the value of a shared list holds the values of all its expressions, in order.
pub proof fn law_value_of_list(list: Seq<ExprRef>, texts: Seq<String>)
    ensures
        refs_view(list).len() == list.len(),
        forall|i: int| 0 <= i < list.len() ==> (#[trigger] refs_view(list)[i]) == (*list[i])@,
        strings_view(texts).len() == texts.len(),
        forall|i: int| 0 <= i < texts.len() ==> (#[trigger] strings_view(texts)[i]) == texts[i]@,
{
}

/// Law: the value of an expression has its kind and all it holds.
pub proof fn law_value_of_expression(e: Expr)
    ensures
        match e {
            Expr::Alias(inner, name) => e@ == ExprView::Alias(Box::new((*inner)@), (*name)@),
            Expr::Agg(agg) => e@ == ExprView::Agg(agg@),
            Expr::BinaryOp { op, left, right } => e@ == (ExprView::BinaryOp {
                op,
                left: Box::new((*left)@),
                right: Box::new((*right)@),
            }),
            Expr::Cast(inner, dtype) => e@ == ExprView::Cast(Box::new((*inner)@), dtype@),
            Expr::Column(name) => e@ == ExprView::Column((*name)@),
            Expr::Function { func, inputs } => e@ == (ExprView::Function {
                func: func@,
                inputs: refs_view(inputs@),
            }),
            Expr::Not(inner) => e@ == ExprView::Not(Box::new((*inner)@)),
            Expr::IsNull(inner) => e@ == ExprView::IsNull(Box::new((*inner)@)),
            Expr::NotNull(inner) => e@ == ExprView::NotNull(Box::new((*inner)@)),
            Expr::FillNull(inner, fill) => e@ == ExprView::FillNull(
                Box::new((*inner)@),
                Box::new((*fill)@),
            ),
            Expr::IsIn(inner, items) => e@ == ExprView::IsIn(
                Box::new((*inner)@),
                Box::new((*items)@),
            ),
            Expr::Between(inner, lower, upper) => e@ == ExprView::Between(
                Box::new((*inner)@),
                Box::new((*lower)@),
                Box::new((*upper)@),
            ),
            Expr::Literal(value) => e@ == ExprView::Literal(value@),
            Expr::IfElse { if_true, if_false, predicate } => e@ == (ExprView::IfElse {
                if_true: Box::new((*if_true)@),
                if_false: Box::new((*if_false)@),
                predicate: Box::new((*predicate)@),
            }),
            Expr::ScalarFunction(func) => e@ == ExprView::ScalarFunction(
                ScalarFunctionView { udf: func.udf@, inputs: refs_view(func.inputs@) },
            ),
        },
{
    match e {
        Expr::Agg(agg) => {
            assert(e@ == ExprView::Agg(agg_expr_view(agg)));
        },
        Expr::ScalarFunction(func) => {
            assert(e@ == ExprView::ScalarFunction(scalar_function_view(func)));
        },
        _ => {},
    }
}

/// Law: the value of an aggregation has its kind, what it aggregates and all its parameters.
pub proof fn law_value_of_aggregation(agg: AggExpr)
    ensures
        match agg {
            AggExpr::Count(e, mode) => agg@ == AggExprView::Count(Box::new((*e)@), mode),
            AggExpr::Sum(e) => agg@ == AggExprView::Sum(Box::new((*e)@)),
            AggExpr::ApproxPercentile(params) => agg@ == (AggExprView::ApproxPercentile {
                child: Box::new((*params.child)@),
                percentiles: params.percentiles@,
                force_list_output: params.force_list_output,
            }),
            AggExpr::ApproxCountDistinct(e) => agg@ == AggExprView::ApproxCountDistinct(
                Box::new((*e)@),
            ),
            AggExpr::ApproxSketch(e, kind) => agg@ == AggExprView::ApproxSketch(
                Box::new((*e)@),
                kind,
            ),
            AggExpr::MergeSketch(e, kind) => agg@ == AggExprView::MergeSketch(
                Box::new((*e)@),
                kind,
            ),
            AggExpr::Mean(e) => agg@ == AggExprView::Mean(Box::new((*e)@)),
            AggExpr::Min(e) => agg@ == AggExprView::Min(Box::new((*e)@)),
            AggExpr::Max(e) => agg@ == AggExprView::Max(Box::new((*e)@)),
            AggExpr::AnyValue(e, flag) => agg@ == AggExprView::AnyValue(Box::new((*e)@), flag),
            AggExpr::List(e) => agg@ == AggExprView::List(Box::new((*e)@)),
            AggExpr::Concat(e) => agg@ == AggExprView::Concat(Box::new((*e)@)),
            AggExpr::MapGroups { func, inputs } => agg@ == (AggExprView::MapGroups {
                func: func@,
                inputs: refs_view(inputs@),
            }),
        },
{
}

/// Law: literals and functions of one value are the same, in kind and in all they hold.
pub proof fn law_values_of_literals_and_functions(
    a: LiteralValue,
    b: LiteralValue,
    f: FunctionExpr,
    g: FunctionExpr,
)
    ensures
        a@ == b@ ==> (match (a, b) {
            (LiteralValue::Null, LiteralValue::Null) => true,
            (LiteralValue::Boolean(x), LiteralValue::Boolean(y)) => x == y,
            (LiteralValue::Utf8(x), LiteralValue::Utf8(y)) => x@ == y@,
            (LiteralValue::Int32(x), LiteralValue::Int32(y)) => x == y,
            (LiteralValue::UInt32(x), LiteralValue::UInt32(y)) => x == y,
            (LiteralValue::Int64(x), LiteralValue::Int64(y)) => x == y,
            (LiteralValue::UInt64(x), LiteralValue::UInt64(y)) => x == y,
            (LiteralValue::Float64(x), LiteralValue::Float64(y)) => x == y,
            (LiteralValue::Other(x), LiteralValue::Other(y)) => x == y,
            _ => false,
        }),
        f@ == g@ ==> (match (f, g) {
            (
                FunctionExpr::Struct(StructExpr::Get(x)),
                FunctionExpr::Struct(StructExpr::Get(y)),
            ) => x@ == y@,
            (
                FunctionExpr::Sketch(SketchExpr::Percentile { percentiles: x, force_list_output: p }),
                FunctionExpr::Sketch(SketchExpr::Percentile { percentiles: y, force_list_output: q }),
            ) => x@ == y@ && p == q,
            (FunctionExpr::Other(x), FunctionExpr::Other(y)) => x == y,
            _ => false,
        }),
{
}

/// Law: types of one value are of one kind and hold the same.
pub proof fn law_values_of_types(a: DataType, b: DataType)
    requires
        a@ == b@,
    ensures
        match (a, b) {
            (DataType::FixedSizeList(x, m), DataType::FixedSizeList(y, n)) => (*x)@ == (*y)@ && m
                == n,
            (DataType::List(x), DataType::List(y)) => (*x)@ == (*y)@,
            (DataType::Struct(x), DataType::Struct(y)) => fields_view(x@) == fields_view(y@),
            (DataType::Other(x), DataType::Other(y)) => x@ == y@,
            (DataType::Null, DataType::Null)
            | (DataType::Boolean, DataType::Boolean)
            | (DataType::Int8, DataType::Int8)
            | (DataType::Int16, DataType::Int16)
            | (DataType::Int32, DataType::Int32)
            | (DataType::Int64, DataType::Int64)
            | (DataType::UInt8, DataType::UInt8)
            | (DataType::UInt16, DataType::UInt16)
            | (DataType::UInt32, DataType::UInt32)
            | (DataType::UInt64, DataType::UInt64)
            | (DataType::Float32, DataType::Float32)
            | (DataType::Float64, DataType::Float64)
            | (DataType::Date, DataType::Date)
            | (DataType::Binary, DataType::Binary)
            | (DataType::Utf8, DataType::Utf8)
            | (DataType::Python, DataType::Python) => true,
            _ => false,
        },
{
}

/// Law: the value of a type has its kind and all it holds, and the value of a list of fields the
/// name and type of each, in order.
pub proof fn law_value_of_type(
    dtype: DataType,
    size: usize,
    name: String,
    fields: Vec<Field>,
)
    ensures
        DataType::Boolean@ == DataTypeView::Boolean,
        DataType::UInt64@ == DataTypeView::UInt64,
        DataType::Float64@ == DataTypeView::Float64,
        DataType::Python@ == DataTypeView::Python,
        DataType::List(Box::new(dtype))@ == DataTypeView::List(Box::new(dtype@)),
        DataType::FixedSizeList(Box::new(dtype), size)@ == DataTypeView::FixedSizeList(
            Box::new(dtype@),
            size,
        ),
        DataType::Struct(fields)@ == DataTypeView::Struct(fields_view(fields@)),
        DataType::Other(name)@ == DataTypeView::Other(name@),
        fields_view(fields@).len() == fields@.len(),
        forall|i: int|
            0 <= i < fields@.len() ==> (#[trigger] fields_view(fields@)[i]) == (FieldView {
                name: fields@[i].name@,
                dtype: fields@[i].dtype@,
            }),
{
}

/// Law: the value of a result is the value of what it holds.
pub proof fn law_value_of_result(found: Expr, halt: Halt, text: &str)
    ensures
        result_view(Ok::<Expr, Halt>(found)) == Ok::<ExprView, HaltView>(found@),
        result_view(Err::<Expr, Halt>(halt)) == Err::<ExprView, HaltView>(halt@),
        option_text(Some(text)) == Some(text@),
        option_text(None) is None,
{
}

} // verus!
