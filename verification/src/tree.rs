//! Expressions as trees: their parts, and how to replace them.
use vstd::prelude::*;

use crate::expr::{
    clone_refs, refs_view, scalar_function_view, AggExpr, AggExprView, ApproxPercentileParams,
    Expr, ExprRef, ExprView, ScalarFunctionView,
};
use crate::functions::ScalarFunction;
use crate::lit::clone_floats;
use crate::naming::{agg_name_of, name_of};

verus! {

/// The parts of an expression. Those of a conditional are its two outcomes, then its predicate.
pub open spec fn children_of(e: ExprView) -> Seq<ExprView> {
    match e {
        ExprView::Column(_) | ExprView::Literal(_) => seq![],
        ExprView::Not(inner) => seq![*inner],
        ExprView::IsNull(inner) => seq![*inner],
        ExprView::NotNull(inner) => seq![*inner],
        ExprView::Cast(inner, _) => seq![*inner],
        ExprView::Alias(inner, _) => seq![*inner],
        ExprView::Agg(agg) => agg_children_of(agg),
        ExprView::Function { func: _, inputs } => inputs,
        ExprView::BinaryOp { op: _, left, right } => seq![*left, *right],
        ExprView::IsIn(inner, items) => seq![*inner, *items],
        ExprView::Between(inner, lower, upper) => seq![*inner, *lower, *upper],
        ExprView::IfElse { if_true, if_false, predicate } => seq![*if_true, *if_false, *predicate],
        ExprView::FillNull(inner, fill) => seq![*inner, *fill],
        ExprView::ScalarFunction(func) => func.inputs,
    }
}

/// The parts of an aggregation: what it aggregates.
pub open spec fn agg_children_of(agg: AggExprView) -> Seq<ExprView> {
    match agg {
        AggExprView::Count(e, _) => seq![*e],
        AggExprView::Sum(e) => seq![*e],
        AggExprView::ApproxPercentile { child, .. } => seq![*child],
        AggExprView::ApproxCountDistinct(e) => seq![*e],
        AggExprView::ApproxSketch(e, _) => seq![*e],
        AggExprView::MergeSketch(e, _) => seq![*e],
        AggExprView::Mean(e) => seq![*e],
        AggExprView::Min(e) => seq![*e],
        AggExprView::Max(e) => seq![*e],
        AggExprView::AnyValue(e, _) => seq![*e],
        AggExprView::List(e) => seq![*e],
        AggExprView::Concat(e) => seq![*e],
        AggExprView::MapGroups { func: _, inputs } => inputs,
    }
}

/// Whether an expression can be rebuilt from a list of so many parts: calls and aggregations
/// take as many as they have, leaves take none, and other expressions take at least as many as
/// they have.
pub open spec fn takes_children(e: ExprView, count: nat) -> bool {
    match e {
        ExprView::Column(_)
        | ExprView::Literal(_)
        | ExprView::Agg(_)
        | ExprView::Function { .. }
        | ExprView::ScalarFunction(_) => count == children_of(e).len(),
        _ => count >= children_of(e).len(),
    }
}

/// An expression with other parts.
pub open spec fn with_children(e: ExprView, parts: Seq<ExprView>) -> ExprView {
    match e {
        ExprView::Column(_) | ExprView::Literal(_) => e,
        ExprView::Not(_) => ExprView::Not(Box::new(parts[0])),
        ExprView::Alias(_, name) => ExprView::Alias(Box::new(parts[0]), name),
        ExprView::IsNull(_) => ExprView::IsNull(Box::new(parts[0])),
        ExprView::NotNull(_) => ExprView::NotNull(Box::new(parts[0])),
        ExprView::Cast(_, dtype) => ExprView::Cast(Box::new(parts[0]), dtype),
        ExprView::BinaryOp { op, .. } => ExprView::BinaryOp {
            op,
            left: Box::new(parts[0]),
            right: Box::new(parts[1]),
        },
        ExprView::IsIn(..) => ExprView::IsIn(Box::new(parts[0]), Box::new(parts[1])),
        ExprView::Between(..) => ExprView::Between(
            Box::new(parts[0]),
            Box::new(parts[1]),
            Box::new(parts[2]),
        ),
        ExprView::FillNull(..) => ExprView::FillNull(Box::new(parts[0]), Box::new(parts[1])),
        ExprView::IfElse { .. } => ExprView::IfElse {
            if_true: Box::new(parts[0]),
            if_false: Box::new(parts[1]),
            predicate: Box::new(parts[2]),
        },
        ExprView::Agg(agg) => ExprView::Agg(agg_with_children(agg, parts)),
        ExprView::Function { func, .. } => ExprView::Function { func, inputs: parts },
        ExprView::ScalarFunction(func) => ExprView::ScalarFunction(
            ScalarFunctionView { udf: func.udf, inputs: parts },
        ),
    }
}

/// An aggregation with other parts.
pub open spec fn agg_with_children(agg: AggExprView, parts: Seq<ExprView>) -> AggExprView {
    match agg {
        AggExprView::Count(_, mode) => AggExprView::Count(Box::new(parts[0]), mode),
        AggExprView::Sum(_) => AggExprView::Sum(Box::new(parts[0])),
        AggExprView::ApproxPercentile { child: _, percentiles, force_list_output } => {
            AggExprView::ApproxPercentile {
                child: Box::new(parts[0]),
                percentiles,
                force_list_output,
            }
        },
        AggExprView::ApproxCountDistinct(_) => AggExprView::ApproxCountDistinct(Box::new(parts[0])),
        AggExprView::ApproxSketch(_, kind) => AggExprView::ApproxSketch(Box::new(parts[0]), kind),
        AggExprView::MergeSketch(_, kind) => AggExprView::MergeSketch(Box::new(parts[0]), kind),
        AggExprView::Mean(_) => AggExprView::Mean(Box::new(parts[0])),
        AggExprView::Min(_) => AggExprView::Min(Box::new(parts[0])),
        AggExprView::Max(_) => AggExprView::Max(Box::new(parts[0])),
        AggExprView::AnyValue(_, ignore_nulls) => AggExprView::AnyValue(
            Box::new(parts[0]),
            ignore_nulls,
        ),
        AggExprView::List(_) => AggExprView::List(Box::new(parts[0])),
        AggExprView::Concat(_) => AggExprView::Concat(Box::new(parts[0])),
        AggExprView::MapGroups { func, .. } => AggExprView::MapGroups { func, inputs: parts },
    }
}

/// Whether an aggregation occurs in an expression.
pub open spec fn contains_agg(e: ExprView) -> bool
    decreases e,
{
    match e {
        ExprView::Agg(_) => true,
        ExprView::Column(_) | ExprView::Literal(_) => false,
        ExprView::Not(inner) => contains_agg(*inner),
        ExprView::IsNull(inner) => contains_agg(*inner),
        ExprView::NotNull(inner) => contains_agg(*inner),
        ExprView::Cast(inner, _) => contains_agg(*inner),
        ExprView::Alias(inner, _) => contains_agg(*inner),
        ExprView::Function { func: _, inputs } => exists|i: int|
            0 <= i < inputs.len() && contains_agg(#[trigger] inputs[i]),
        ExprView::BinaryOp { op: _, left, right } => contains_agg(*left) || contains_agg(*right),
        ExprView::IsIn(inner, items) => contains_agg(*inner) || contains_agg(*items),
        ExprView::Between(inner, lower, upper) => contains_agg(*inner) || contains_agg(*lower)
            || contains_agg(*upper),
        ExprView::IfElse { if_true, if_false, predicate } => contains_agg(*if_true)
            || contains_agg(*if_false) || contains_agg(*predicate),
        ExprView::FillNull(inner, fill) => contains_agg(*inner) || contains_agg(*fill),
        ExprView::ScalarFunction(func) => exists|i: int|
            0 <= i < func.inputs.len() && contains_agg(#[trigger] func.inputs[i]),
    }
}

/// The list of one shared expression.
fn one(e: &ExprRef) -> (list: Vec<ExprRef>)
    ensures
        refs_view(list@) == seq![(**e)@],
{
    let list = vec![e.clone()];
    assert(refs_view(list@) =~= seq![(**e)@]);
    list
}

/// The list of two shared expressions.
fn two(a: &ExprRef, b: &ExprRef) -> (list: Vec<ExprRef>)
    ensures
        refs_view(list@) == seq![(**a)@, (**b)@],
{
    let list = vec![a.clone(), b.clone()];
    assert(refs_view(list@) =~= seq![(**a)@, (**b)@]);
    list
}

/// The list of three shared expressions.
fn three(a: &ExprRef, b: &ExprRef, c: &ExprRef) -> (list: Vec<ExprRef>)
    ensures
        refs_view(list@) == seq![(**a)@, (**b)@, (**c)@],
{
    let list = vec![a.clone(), b.clone(), c.clone()];
    assert(refs_view(list@) =~= seq![(**a)@, (**b)@, (**c)@]);
    list
}

impl AggExpr {
    /// The parts of the aggregation.
    pub fn children(&self) -> (list: Vec<ExprRef>)
        ensures
            refs_view(list@) == agg_children_of(self@),
    {
        match self {
            AggExpr::Count(e, _) => one(e),
            AggExpr::Sum(e) => one(e),
            AggExpr::ApproxPercentile(params) => one(&params.child),
            AggExpr::ApproxCountDistinct(e) => one(e),
            AggExpr::ApproxSketch(e, _) => one(e),
            AggExpr::MergeSketch(e, _) => one(e),
            AggExpr::Mean(e) => one(e),
            AggExpr::Min(e) => one(e),
            AggExpr::Max(e) => one(e),
            AggExpr::AnyValue(e, _) => one(e),
            AggExpr::List(e) => one(e),
            AggExpr::Concat(e) => one(e),
            AggExpr::MapGroups { func: _, inputs } => clone_refs(inputs.as_slice()),
        }
    }

    /// The aggregation with other parts; none where their number is not that of its own.
    pub fn try_with_new_children(&self, children: Vec<ExprRef>) -> (agg: Option<AggExpr>)
        ensures
            match agg {
                Some(rebuilt) => children.len() == agg_children_of(self@).len() && rebuilt@
                    == agg_with_children(self@, refs_view(children@)),
                None => children.len() != agg_children_of(self@).len(),
            },
    {
        let own = self.children();
        assert(own.len() == agg_children_of(self@).len());
        if children.len() == own.len() {
            Some(self.with_new_children(children))
        } else {
            None
        }
    }

    /// The aggregation with other parts, as many as it has.
    pub fn with_new_children(&self, children: Vec<ExprRef>) -> (agg: AggExpr)
        requires
            children.len() == agg_children_of(self@).len(),
        ensures
            agg@ == agg_with_children(self@, refs_view(children@)),
    {
        match self {
            AggExpr::Count(_, mode) => AggExpr::Count(children[0].clone(), *mode),
            AggExpr::Sum(_) => AggExpr::Sum(children[0].clone()),
            AggExpr::Mean(_) => AggExpr::Mean(children[0].clone()),
            AggExpr::Min(_) => AggExpr::Min(children[0].clone()),
            AggExpr::Max(_) => AggExpr::Max(children[0].clone()),
            AggExpr::AnyValue(_, ignore_nulls) => AggExpr::AnyValue(
                children[0].clone(),
                *ignore_nulls,
            ),
            AggExpr::List(_) => AggExpr::List(children[0].clone()),
            AggExpr::Concat(_) => AggExpr::Concat(children[0].clone()),
            AggExpr::MapGroups { func, inputs: _ } => AggExpr::MapGroups {
                func: func.clone(),
                inputs: children,
            },
            AggExpr::ApproxPercentile(params) => AggExpr::ApproxPercentile(
                ApproxPercentileParams {
                    child: children[0].clone(),
                    percentiles: clone_floats(params.percentiles.as_slice()),
                    force_list_output: params.force_list_output,
                },
            ),
            AggExpr::ApproxCountDistinct(_) => AggExpr::ApproxCountDistinct(children[0].clone()),
            AggExpr::ApproxSketch(_, kind) => AggExpr::ApproxSketch(children[0].clone(), *kind),
            AggExpr::MergeSketch(_, kind) => AggExpr::MergeSketch(children[0].clone(), *kind),
        }
    }
}

impl Expr {
    /// The parts of the expression.
    pub fn children(&self) -> (list: Vec<ExprRef>)
        ensures
            refs_view(list@) == children_of(self@),
    {
        match self {
            Expr::Column(_) | Expr::Literal(_) => {
                let list: Vec<ExprRef> = Vec::new();
                assert(refs_view(list@) =~= seq![]);
                list
            },
            Expr::Not(inner) => one(inner),
            Expr::IsNull(inner) => one(inner),
            Expr::NotNull(inner) => one(inner),
            Expr::Cast(inner, _) => one(inner),
            Expr::Alias(inner, _) => one(inner),
            Expr::Agg(agg) => agg.children(),
            Expr::Function { func: _, inputs } => clone_refs(inputs.as_slice()),
            Expr::BinaryOp { op: _, left, right } => two(left, right),
            Expr::IsIn(inner, items) => two(inner, items),
            Expr::Between(inner, lower, upper) => three(inner, lower, upper),
            Expr::IfElse { if_true, if_false, predicate } => three(if_true, if_false, predicate),
            Expr::FillNull(inner, fill) => two(inner, fill),
            Expr::ScalarFunction(func) => {
                assert(self@ == ExprView::ScalarFunction(scalar_function_view(*func)));
                clone_refs(func.inputs.as_slice())
            },
        }
    }

    /// Whether the expression can be rebuilt from a list of so many parts.
    pub fn accepts_children(&self, count: usize) -> (accepted: bool)
        ensures
            accepted == takes_children(self@, count as nat),
    {
        let own = self.children();
        assert(own.len() == children_of(self@).len());
        match self {
            Expr::Column(_)
            | Expr::Literal(_)
            | Expr::Agg(_)
            | Expr::Function { .. }
            | Expr::ScalarFunction(_) => count == own.len(),
            _ => count >= own.len(),
        }
    }

    /// The expression with other parts; none where it cannot be rebuilt from so many.
    pub fn try_with_new_children(&self, children: Vec<ExprRef>) -> (e: Option<Expr>)
        ensures
            match e {
                Some(rebuilt) => takes_children(self@, children.len() as nat) && rebuilt@
                    == with_children(self@, refs_view(children@)),
                None => !takes_children(self@, children.len() as nat),
            },
    {
        if self.accepts_children(children.len()) {
            Some(self.with_new_children(children))
        } else {
            None
        }
    }

    /// The expression with other parts. What is more than it has parts is not used.
    pub fn with_new_children(&self, children: Vec<ExprRef>) -> (e: Expr)
        requires
            takes_children(self@, children.len() as nat),
        ensures
            e@ == with_children(self@, refs_view(children@)),
    {
        match self {
            Expr::Column(_) | Expr::Literal(_) => self.clone(),
            Expr::Not(_) => Expr::Not(children[0].clone()),
            Expr::Alias(_, name) => Expr::Alias(children[0].clone(), name.clone()),
            Expr::IsNull(_) => Expr::IsNull(children[0].clone()),
            Expr::NotNull(_) => Expr::NotNull(children[0].clone()),
            Expr::Cast(_, dtype) => Expr::Cast(children[0].clone(), dtype.clone()),
            Expr::BinaryOp { op, .. } => Expr::BinaryOp {
                op: *op,
                left: children[0].clone(),
                right: children[1].clone(),
            },
            Expr::IsIn(..) => Expr::IsIn(children[0].clone(), children[1].clone()),
            Expr::Between(..) => Expr::Between(
                children[0].clone(),
                children[1].clone(),
                children[2].clone(),
            ),
            Expr::FillNull(..) => Expr::FillNull(children[0].clone(), children[1].clone()),
            Expr::IfElse { .. } => Expr::IfElse {
                if_true: children[0].clone(),
                if_false: children[1].clone(),
                predicate: children[2].clone(),
            },
            Expr::Agg(agg) => Expr::Agg(agg.with_new_children(children)),
            Expr::Function { func, inputs: _ } => Expr::Function {
                func: func.clone(),
                inputs: children,
            },
            Expr::ScalarFunction(func) => {
                let call = ScalarFunction { udf: func.udf.clone(), inputs: children };
                assert(self@ == ExprView::ScalarFunction(scalar_function_view(*func)));
                assert(call@ == ScalarFunctionView {
                    udf: func.udf@,
                    inputs: refs_view(children@),
                });
                Expr::ScalarFunction(call)
            },
        }
    }
}

impl Expr {
    /// Whether an aggregation occurs in the expression.
    pub fn has_agg(&self) -> (found: bool)
        ensures
            found == contains_agg(self@),
        decreases self,
    {
        match self {
            Expr::Agg(_) => true,
            Expr::Column(_) | Expr::Literal(_) => false,
            Expr::Not(inner) => inner.has_agg(),
            Expr::IsNull(inner) => inner.has_agg(),
            Expr::NotNull(inner) => inner.has_agg(),
            Expr::Cast(inner, _) => inner.has_agg(),
            Expr::Alias(inner, _) => inner.has_agg(),
            Expr::BinaryOp { op: _, left, right } => left.has_agg() || right.has_agg(),
            Expr::IsIn(inner, items) => inner.has_agg() || items.has_agg(),
            Expr::Between(inner, lower, upper) => inner.has_agg() || lower.has_agg()
                || upper.has_agg(),
            Expr::IfElse { if_true, if_false, predicate } => if_true.has_agg()
                || if_false.has_agg() || predicate.has_agg(),
            Expr::FillNull(inner, fill) => inner.has_agg() || fill.has_agg(),
            Expr::Function { func, inputs } => {
                proof {
                    assert(self@ == ExprView::Function {
                        func: func@,
                        inputs: refs_view(inputs@),
                    });
                    assert(decreases_to!(*self => self->Function_inputs));
                    law_agg_is_here_or_below(self@);
                    assert(children_of(self@) == refs_view(inputs@));
                }
                any_has_agg(inputs)
            },
            Expr::ScalarFunction(func) => {
                proof {
                    assert(self@ == ExprView::ScalarFunction(scalar_function_view(*func)));
                    assert(decreases_to!(self->ScalarFunction_0 => self->ScalarFunction_0.inputs));
                    assert(decreases_to!(*self => self->ScalarFunction_0));
                    law_agg_is_here_or_below(self@);
                    assert(children_of(self@) == refs_view(func.inputs@));
                }
                any_has_agg(&func.inputs)
            },
        }
    }
}

/// Whether an aggregation occurs in one of the expressions of a list.
fn any_has_agg(list: &Vec<ExprRef>) -> (found: bool)
    ensures
        found == exists|i: int|
            0 <= i < refs_view(list@).len() && contains_agg(#[trigger] refs_view(list@)[i]),
    decreases list,
{
    let mut i: usize = 0;
    while i < list.len()
        invariant
            i <= list.len(),
            forall|k: int| 0 <= k < i ==> !contains_agg(#[trigger] refs_view(list@)[k]),
        decreases list.len() - i,
    {
        proof {
            assert(decreases_to!(*list => list@));
            assert(decreases_to!(list@ => list@[i as int]));
            assert(refs_view(list@)[i as int] == (*list@[i as int])@);
        }
        if list[i].has_agg() {
            return true;
        }
        i = i + 1;
    }
    false
}

/// Law: an expression takes as many parts as it has.
pub proof fn law_own_children_are_taken(e: ExprView)
    ensures
        takes_children(e, children_of(e).len()),
{
}

/// Law: an aggregation takes exactly as many parts as it has: as many as it has arguments where
/// it is one by function, and one otherwise.
pub proof fn law_agg_takes_exactly_its_children(agg: AggExprView, count: nat)
    ensures
        takes_children(ExprView::Agg(agg), count) <==> count == agg_children_of(agg).len(),
        agg matches AggExprView::MapGroups { func: _, inputs } ==> agg_children_of(agg).len()
            == inputs.len(),
        !(agg is MapGroups) ==> agg_children_of(agg).len() == 1,
{
}

/// Law: an expression rebuilt from its own parts is the same expression.
pub proof fn law_rebuilding_changes_nothing(e: ExprView)
    ensures
        with_children(e, children_of(e)) == e,
{
}

/// Law: an aggregation rebuilt from its own parts is the same aggregation.
pub proof fn law_rebuilding_agg_changes_nothing(agg: AggExprView)
    ensures
        agg_with_children(agg, agg_children_of(agg)) == agg,
{
}

/// Law: the parts of a rebuilt expression are the parts it was given, as far as it has use for
/// them.
pub proof fn law_new_children_are_the_children(e: ExprView, parts: Seq<ExprView>)
    requires
        takes_children(e, parts.len()),
    ensures
        children_of(with_children(e, parts)) == parts.take(children_of(e).len() as int),
{
    assert(children_of(with_children(e, parts)) =~= parts.take(children_of(e).len() as int));
}

/// Law: the parts of a rebuilt aggregation are the parts it was given.
pub proof fn law_new_children_are_the_agg_children(agg: AggExprView, parts: Seq<ExprView>)
    requires
        parts.len() == agg_children_of(agg).len(),
    ensures
        agg_children_of(agg_with_children(agg, parts)) == parts,
{
    assert(agg_children_of(agg_with_children(agg, parts)) =~= parts);
}

/// Law: of two replacements of the parts, the second alone counts.
pub proof fn law_last_children_count(e: ExprView, first: Seq<ExprView>, second: Seq<ExprView>)
    requires
        takes_children(e, first.len()),
        takes_children(e, second.len()),
    ensures
        takes_children(with_children(e, first), second.len()),
        with_children(with_children(e, first), second) == with_children(e, second),
{
}

/// Law: an aggregation occurs in an expression exactly where the expression is one or where one
/// occurs in a part of it.
pub proof fn law_agg_is_here_or_below(e: ExprView)
    ensures
        contains_agg(e) <==> (e is Agg || exists|i: int|
            0 <= i < children_of(e).len() && contains_agg(#[trigger] children_of(e)[i])),
{
    let c = children_of(e);
    match e {
        ExprView::Column(_)
        | ExprView::Literal(_)
        | ExprView::Agg(_)
        | ExprView::Function { .. }
        | ExprView::ScalarFunction(_) => {},
        ExprView::Not(_)
        | ExprView::IsNull(_)
        | ExprView::NotNull(_)
        | ExprView::Cast(..)
        | ExprView::Alias(..) => {
            assert(contains_agg(e) == contains_agg(c[0]));
        },
        ExprView::BinaryOp { .. } | ExprView::IsIn(..) | ExprView::FillNull(..) => {
            assert(contains_agg(e) == (contains_agg(c[0]) || contains_agg(c[1])));
        },
        ExprView::Between(..) | ExprView::IfElse { .. } => {
            assert(contains_agg(e) == (contains_agg(c[0]) || contains_agg(c[1]) || contains_agg(
                c[2],
            )));
        },
    }
}

/// Law: replacing parts by parts without aggregations leaves none, except in an aggregation
/// itself.
pub proof fn law_agg_free_parts_make_agg_free(e: ExprView, parts: Seq<ExprView>)
    requires
        takes_children(e, parts.len()),
        !(e is Agg),
        forall|i: int| 0 <= i < parts.len() ==> !contains_agg(#[trigger] parts[i]),
    ensures
        !contains_agg(with_children(e, parts)),
{
    law_agg_is_here_or_below(with_children(e, parts));
    law_new_children_are_the_children(e, parts);
}

/// Whether an expression brings its own name: an alias, a column, a literal, a struct access or
/// the making of a struct.
pub open spec fn names_itself(e: ExprView) -> bool {
    match e {
        ExprView::Alias(..) | ExprView::Column(_) | ExprView::Literal(_) => true,
        ExprView::Function { func, inputs: _ } => func is StructGet,
        ExprView::ScalarFunction(func) => func.udf.name == "to_struct"@,
        _ => false,
    }
}

/// Law: an expression that does not bring its own name has the name of its first part, and no
/// name exactly where there is no such part or it has none.
pub proof fn law_named_after_first_child(e: ExprView)
    requires
        !names_itself(e),
    ensures
        name_of(e) == (if children_of(e).len() == 0 {
            None
        } else {
            name_of(children_of(e)[0])
        }),
{
    if let ExprView::Agg(agg) = e {
        assert(name_of(e) == agg_name_of(agg));
    }
}

/// Law: an alias is the name.
pub proof fn law_alias_is_the_name(e: ExprView, name: Seq<char>)
    ensures
        name_of(ExprView::Alias(Box::new(e), name)) == Some(name),
{
}

} // verus!
