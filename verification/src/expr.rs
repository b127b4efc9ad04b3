//! Expressions over the columns of a table, and the functions that build them.
use std::sync::Arc;
use vstd::prelude::*;

use crate::datatypes::{CountMode, DataType, DataTypeView};
use crate::functions::{
    FunctionExpr, FunctionExprView, ScalarFunction, ScalarUDFView,
};
use crate::lit::{clone_floats, same_floats, FloatWrapper, LiteralValue, LiteralView};
use crate::operator::Operator;

verus! {

/// A shared expression.
pub type ExprRef = Arc<Expr>;

/// An expression.
#[derive(Debug, Hash)]
pub enum Expr {
    Alias(ExprRef, Arc<str>),
    Agg(AggExpr),
    BinaryOp { op: Operator, left: ExprRef, right: ExprRef },
    Cast(ExprRef, DataType),
    Column(Arc<str>),
    Function { func: FunctionExpr, inputs: Vec<ExprRef> },
    Not(ExprRef),
    IsNull(ExprRef),
    NotNull(ExprRef),
    FillNull(ExprRef, ExprRef),
    IsIn(ExprRef, ExprRef),
    Between(ExprRef, ExprRef, ExprRef),
    Literal(LiteralValue),
    IfElse { if_true: ExprRef, if_false: ExprRef, predicate: ExprRef },
    ScalarFunction(ScalarFunction),
}

/// What an approximate percentile aggregation computes.
#[derive(Debug, Hash)]
pub struct ApproxPercentileParams {
    pub child: ExprRef,
    pub percentiles: Vec<FloatWrapper>,
    pub force_list_output: bool,
}

/// An aggregation over the rows of a table or of a group.
#[derive(Debug, Hash)]
pub enum AggExpr {
    Count(ExprRef, CountMode),
    Sum(ExprRef),
    ApproxPercentile(ApproxPercentileParams),
    ApproxCountDistinct(ExprRef),
    ApproxSketch(ExprRef, SketchType),
    MergeSketch(ExprRef, SketchType),
    Mean(ExprRef),
    Min(ExprRef),
    Max(ExprRef),
    AnyValue(ExprRef, bool),
    List(ExprRef),
    Concat(ExprRef),
    MapGroups { func: FunctionExpr, inputs: Vec<ExprRef> },
}

/// The kinds of sketch.
#[derive(Debug, Clone, Copy, PartialEq, Eq, Structural, Hash)]
pub enum SketchType {
    DDSketch,
    HyperLogLog,
}

/// The value of an `Expr`.
#[verifier::ext_equal]
pub enum ExprView {
    Alias(Box<ExprView>, Seq<char>),
    Agg(AggExprView),
    BinaryOp { op: Operator, left: Box<ExprView>, right: Box<ExprView> },
    Cast(Box<ExprView>, DataTypeView),
    Column(Seq<char>),
    Function { func: FunctionExprView, inputs: Seq<ExprView> },
    Not(Box<ExprView>),
    IsNull(Box<ExprView>),
    NotNull(Box<ExprView>),
    FillNull(Box<ExprView>, Box<ExprView>),
    IsIn(Box<ExprView>, Box<ExprView>),
    Between(Box<ExprView>, Box<ExprView>, Box<ExprView>),
    Literal(LiteralView),
    IfElse { if_true: Box<ExprView>, if_false: Box<ExprView>, predicate: Box<ExprView> },
    ScalarFunction(ScalarFunctionView),
}

/// The value of an `AggExpr`.
#[verifier::ext_equal]
pub enum AggExprView {
    Count(Box<ExprView>, CountMode),
    Sum(Box<ExprView>),
    ApproxPercentile {
        child: Box<ExprView>,
        percentiles: Seq<FloatWrapper>,
        force_list_output: bool,
    },
    ApproxCountDistinct(Box<ExprView>),
    ApproxSketch(Box<ExprView>, SketchType),
    MergeSketch(Box<ExprView>, SketchType),
    Mean(Box<ExprView>),
    Min(Box<ExprView>),
    Max(Box<ExprView>),
    AnyValue(Box<ExprView>, bool),
    List(Box<ExprView>),
    Concat(Box<ExprView>),
    MapGroups { func: FunctionExprView, inputs: Seq<ExprView> },
}

/// The value of a `ScalarFunction`.
#[verifier::ext_equal]
pub struct ScalarFunctionView {
    pub udf: ScalarUDFView,
    pub inputs: Seq<ExprView>,
}

impl View for Expr {
    type V = ExprView;

    open spec fn view(&self) -> ExprView {
        expr_view(*self)
    }
}

impl View for AggExpr {
    type V = AggExprView;

    open spec fn view(&self) -> AggExprView {
        agg_expr_view(*self)
    }
}

impl View for ScalarFunction {
    type V = ScalarFunctionView;

    open spec fn view(&self) -> ScalarFunctionView {
        scalar_function_view(*self)
    }
}

/// The value of an expression.
pub open spec fn expr_view(e: Expr) -> ExprView
    decreases e,
{
    match e {
        Expr::Alias(inner, name) => ExprView::Alias(Box::new(expr_view(*inner)), (*name)@),
        Expr::Agg(agg) => ExprView::Agg(agg_expr_view(agg)),
        Expr::BinaryOp { op, left, right } => ExprView::BinaryOp {
            op,
            left: Box::new(expr_view(*left)),
            right: Box::new(expr_view(*right)),
        },
        Expr::Cast(inner, dtype) => ExprView::Cast(Box::new(expr_view(*inner)), dtype@),
        Expr::Column(name) => ExprView::Column((*name)@),
        Expr::Function { func, inputs } => ExprView::Function {
            func: func@,
            inputs: refs_view(inputs@),
        },
        Expr::Not(inner) => ExprView::Not(Box::new(expr_view(*inner))),
        Expr::IsNull(inner) => ExprView::IsNull(Box::new(expr_view(*inner))),
        Expr::NotNull(inner) => ExprView::NotNull(Box::new(expr_view(*inner))),
        Expr::FillNull(inner, fill) => ExprView::FillNull(
            Box::new(expr_view(*inner)),
            Box::new(expr_view(*fill)),
        ),
        Expr::IsIn(inner, items) => ExprView::IsIn(
            Box::new(expr_view(*inner)),
            Box::new(expr_view(*items)),
        ),
        Expr::Between(inner, lower, upper) => ExprView::Between(
            Box::new(expr_view(*inner)),
            Box::new(expr_view(*lower)),
            Box::new(expr_view(*upper)),
        ),
        Expr::Literal(value) => ExprView::Literal(value@),
        Expr::IfElse { if_true, if_false, predicate } => ExprView::IfElse {
            if_true: Box::new(expr_view(*if_true)),
            if_false: Box::new(expr_view(*if_false)),
            predicate: Box::new(expr_view(*predicate)),
        },
        Expr::ScalarFunction(func) => ExprView::ScalarFunction(scalar_function_view(func)),
    }
}

/// The value of an aggregation.
pub open spec fn agg_expr_view(agg: AggExpr) -> AggExprView
    decreases agg,
{
    match agg {
        AggExpr::Count(e, mode) => AggExprView::Count(Box::new(expr_view(*e)), mode),
        AggExpr::Sum(e) => AggExprView::Sum(Box::new(expr_view(*e))),
        AggExpr::ApproxPercentile(params) => AggExprView::ApproxPercentile {
            child: Box::new(expr_view(*params.child)),
            percentiles: params.percentiles@,
            force_list_output: params.force_list_output,
        },
        AggExpr::ApproxCountDistinct(e) => AggExprView::ApproxCountDistinct(
            Box::new(expr_view(*e)),
        ),
        AggExpr::ApproxSketch(e, kind) => AggExprView::ApproxSketch(Box::new(expr_view(*e)), kind),
        AggExpr::MergeSketch(e, kind) => AggExprView::MergeSketch(Box::new(expr_view(*e)), kind),
        AggExpr::Mean(e) => AggExprView::Mean(Box::new(expr_view(*e))),
        AggExpr::Min(e) => AggExprView::Min(Box::new(expr_view(*e))),
        AggExpr::Max(e) => AggExprView::Max(Box::new(expr_view(*e))),
        AggExpr::AnyValue(e, ignore_nulls) => AggExprView::AnyValue(
            Box::new(expr_view(*e)),
            ignore_nulls,
        ),
        AggExpr::List(e) => AggExprView::List(Box::new(expr_view(*e))),
        AggExpr::Concat(e) => AggExprView::Concat(Box::new(expr_view(*e))),
        AggExpr::MapGroups { func, inputs } => AggExprView::MapGroups {
            func: func@,
            inputs: refs_view(inputs@),
        },
    }
}

/// The value of a scalar function call.
pub open spec fn scalar_function_view(func: ScalarFunction) -> ScalarFunctionView
    decreases func,
{
    ScalarFunctionView { udf: func.udf@, inputs: refs_view(func.inputs@) }
}

/// The values of a list of expressions.
pub open spec fn refs_view(refs: Seq<ExprRef>) -> Seq<ExprView>
    decreases refs,
{
    Seq::new(
        refs.len(),
        |i: int|
            if 0 <= i < refs.len() {
                expr_view(*refs[i])
            } else {
                arbitrary()
            },
    )
}

/// A copy of a list of shared expressions.
pub fn clone_refs(refs: &[ExprRef]) -> (copy: Vec<ExprRef>)
    ensures
        copy@ == refs@,
{
    let mut copy: Vec<ExprRef> = Vec::new();
    let mut i: usize = 0;
    while i < refs.len()
        invariant
            i <= refs.len(),
            copy@ == refs@.take(i as int),
        decreases refs.len() - i,
    {
        copy.push(refs[i].clone());
        proof {
            assert(refs@.take(i + 1) =~= refs@.take(i as int).push(refs@[i as int]));
        }
        i = i + 1;
    }
    proof {
        assert(refs@.take(i as int) =~= refs@);
    }
    copy
}

impl Clone for ScalarFunction {
    fn clone(&self) -> (copy: Self)
        ensures
            copy@ == self@,
    {
        ScalarFunction { udf: self.udf.clone(), inputs: clone_refs(self.inputs.as_slice()) }
    }
}

impl Clone for ApproxPercentileParams {
    fn clone(&self) -> (copy: Self)
        ensures
            copy.child == self.child,
            copy.percentiles@ == self.percentiles@,
            copy.force_list_output == self.force_list_output,
    {
        ApproxPercentileParams {
            child: self.child.clone(),
            percentiles: clone_floats(self.percentiles.as_slice()),
            force_list_output: self.force_list_output,
        }
    }
}

impl Clone for AggExpr {
    fn clone(&self) -> (copy: Self)
        ensures
            copy@ == self@,
    {
        match self {
            AggExpr::Count(e, mode) => AggExpr::Count(e.clone(), *mode),
            AggExpr::Sum(e) => AggExpr::Sum(e.clone()),
            AggExpr::ApproxPercentile(params) => AggExpr::ApproxPercentile(params.clone()),
            AggExpr::ApproxCountDistinct(e) => AggExpr::ApproxCountDistinct(e.clone()),
            AggExpr::ApproxSketch(e, kind) => AggExpr::ApproxSketch(e.clone(), *kind),
            AggExpr::MergeSketch(e, kind) => AggExpr::MergeSketch(e.clone(), *kind),
            AggExpr::Mean(e) => AggExpr::Mean(e.clone()),
            AggExpr::Min(e) => AggExpr::Min(e.clone()),
            AggExpr::Max(e) => AggExpr::Max(e.clone()),
            AggExpr::AnyValue(e, ignore_nulls) => AggExpr::AnyValue(e.clone(), *ignore_nulls),
            AggExpr::List(e) => AggExpr::List(e.clone()),
            AggExpr::Concat(e) => AggExpr::Concat(e.clone()),
            AggExpr::MapGroups { func, inputs } => AggExpr::MapGroups {
                func: func.clone(),
                inputs: clone_refs(inputs.as_slice()),
            },
        }
    }
}

impl Clone for Expr {
    fn clone(&self) -> (copy: Self)
        ensures
            copy@ == self@,
    {
        match self {
            Expr::Alias(inner, name) => Expr::Alias(inner.clone(), name.clone()),
            Expr::Agg(agg) => Expr::Agg(agg.clone()),
            Expr::BinaryOp { op, left, right } => Expr::BinaryOp {
                op: *op,
                left: left.clone(),
                right: right.clone(),
            },
            Expr::Cast(inner, dtype) => Expr::Cast(inner.clone(), dtype.clone()),
            Expr::Column(name) => Expr::Column(name.clone()),
            Expr::Function { func, inputs } => Expr::Function {
                func: func.clone(),
                inputs: clone_refs(inputs.as_slice()),
            },
            Expr::Not(inner) => Expr::Not(inner.clone()),
            Expr::IsNull(inner) => Expr::IsNull(inner.clone()),
            Expr::NotNull(inner) => Expr::NotNull(inner.clone()),
            Expr::FillNull(inner, fill) => Expr::FillNull(inner.clone(), fill.clone()),
            Expr::IsIn(inner, items) => Expr::IsIn(inner.clone(), items.clone()),
            Expr::Between(inner, lower, upper) => Expr::Between(
                inner.clone(),
                lower.clone(),
                upper.clone(),
            ),
            Expr::Literal(value) => Expr::Literal(value.clone()),
            Expr::IfElse { if_true, if_false, predicate } => Expr::IfElse {
                if_true: if_true.clone(),
                if_false: if_false.clone(),
                predicate: predicate.clone(),
            },
            Expr::ScalarFunction(func) => Expr::ScalarFunction(func.clone()),
        }
    }
}

/// Whether two lists hold the same expressions.
pub fn same_refs(a: &Vec<ExprRef>, b: &Vec<ExprRef>) -> (equal: bool)
    ensures
        equal == (refs_view(a@) == refs_view(b@)),
    decreases a,
{
    if a.len() != b.len() {
        proof {
            assert(refs_view(a@).len() != refs_view(b@).len());
        }
        return false;
    }
    let mut i: usize = 0;
    while i < a.len()
        invariant
            a.len() == b.len(),
            i <= a.len(),
            forall|k: int| 0 <= k < i ==> expr_view(*#[trigger] a@[k]) == expr_view(*b@[k]),
        decreases a.len() - i,
    {
        proof {
            assert(decreases_to!(*a => a@));
            assert(decreases_to!(a@ => a@[i as int]));
        }
        if !a[i].same(&b[i]) {
            proof {
                assert(refs_view(a@)[i as int] != refs_view(b@)[i as int]);
            }
            return false;
        }
        i = i + 1;
    }
    proof {
        assert(refs_view(a@) =~= refs_view(b@));
    }
    true
}

impl ScalarFunction {
    /// Whether two scalar function calls are the same.
    pub fn same(&self, other: &ScalarFunction) -> (equal: bool)
        ensures
            equal == (self@ == other@),
        decreases self,
    {
        self.udf.same(&other.udf) && same_refs(&self.inputs, &other.inputs)
    }
}

impl AggExpr {
    /// Whether two aggregations are the same.
    pub fn same(&self, other: &AggExpr) -> (equal: bool)
        ensures
            equal == (self@ == other@),
        decreases self,
    {
        match (self, other) {
            (AggExpr::Count(a, m), AggExpr::Count(b, n)) => *m == *n && a.same(b),
            (AggExpr::Sum(a), AggExpr::Sum(b)) => a.same(b),
            (AggExpr::ApproxPercentile(p), AggExpr::ApproxPercentile(q)) => {
                p.force_list_output == q.force_list_output && same_floats(
                    &p.percentiles,
                    &q.percentiles,
                ) && p.child.same(&q.child)
            },
            (AggExpr::ApproxCountDistinct(a), AggExpr::ApproxCountDistinct(b)) => a.same(b),
            (AggExpr::ApproxSketch(a, s), AggExpr::ApproxSketch(b, t)) => *s == *t && a.same(b),
            (AggExpr::MergeSketch(a, s), AggExpr::MergeSketch(b, t)) => *s == *t && a.same(b),
            (AggExpr::Mean(a), AggExpr::Mean(b)) => a.same(b),
            (AggExpr::Min(a), AggExpr::Min(b)) => a.same(b),
            (AggExpr::Max(a), AggExpr::Max(b)) => a.same(b),
            (AggExpr::AnyValue(a, s), AggExpr::AnyValue(b, t)) => *s == *t && a.same(b),
            (AggExpr::List(a), AggExpr::List(b)) => a.same(b),
            (AggExpr::Concat(a), AggExpr::Concat(b)) => a.same(b),
            (
                AggExpr::MapGroups { func: f, inputs: a },
                AggExpr::MapGroups { func: g, inputs: b },
            ) => f.same(g) && same_refs(a, b),
            _ => false,
        }
    }
}

impl Expr {
    /// Whether two expressions are the same.
    pub fn same(&self, other: &Expr) -> (equal: bool)
        ensures
            equal == (self@ == other@),
        decreases self,
    {
        match (self, other) {
            (Expr::Alias(a, s), Expr::Alias(b, t)) => **s == **t && a.same(b),
            (Expr::Agg(a), Expr::Agg(b)) => a.same(b),
            (
                Expr::BinaryOp { op: o, left: a, right: c },
                Expr::BinaryOp { op: p, left: b, right: d },
            ) => *o == *p && a.same(b) && c.same(d),
            (Expr::Cast(a, s), Expr::Cast(b, t)) => s.same(t) && a.same(b),
            (Expr::Column(s), Expr::Column(t)) => **s == **t,
            (
                Expr::Function { func: f, inputs: a },
                Expr::Function { func: g, inputs: b },
            ) => f.same(g) && same_refs(a, b),
            (Expr::Not(a), Expr::Not(b)) => a.same(b),
            (Expr::IsNull(a), Expr::IsNull(b)) => a.same(b),
            (Expr::NotNull(a), Expr::NotNull(b)) => a.same(b),
            (Expr::FillNull(a, c), Expr::FillNull(b, d)) => a.same(b) && c.same(d),
            (Expr::IsIn(a, c), Expr::IsIn(b, d)) => a.same(b) && c.same(d),
            (Expr::Between(a, c, x), Expr::Between(b, d, y)) => a.same(b) && c.same(d) && x.same(y),
            (Expr::Literal(a), Expr::Literal(b)) => a.same(b),
            (
                Expr::IfElse { if_true: a, if_false: c, predicate: x },
                Expr::IfElse { if_true: b, if_false: d, predicate: y },
            ) => a.same(b) && c.same(d) && x.same(y),
            (Expr::ScalarFunction(a), Expr::ScalarFunction(b)) => a.same(b),
            _ => false,
        }
    }
}

impl PartialEq for Expr {
    fn eq(&self, other: &Self) -> (equal: bool) {
        self.same(other)
    }
}

impl vstd::std_specs::cmp::PartialEqSpecImpl for Expr {
    open spec fn obeys_eq_spec() -> bool {
        true
    }

    open spec fn eq_spec(&self, other: &Self) -> bool {
        self@ == other@
    }
}

impl Eq for Expr {

}

impl PartialEq for AggExpr {
    fn eq(&self, other: &Self) -> (equal: bool) {
        self.same(other)
    }
}

impl vstd::std_specs::cmp::PartialEqSpecImpl for AggExpr {
    open spec fn obeys_eq_spec() -> bool {
        true
    }

    open spec fn eq_spec(&self, other: &Self) -> bool {
        self@ == other@
    }
}

impl Eq for AggExpr {

}

impl PartialEq for ScalarFunction {
    fn eq(&self, other: &Self) -> (equal: bool) {
        self.same(other)
    }
}

impl vstd::std_specs::cmp::PartialEqSpecImpl for ScalarFunction {
    open spec fn obeys_eq_spec() -> bool {
        true
    }

    open spec fn eq_spec(&self, other: &Self) -> bool {
        self@ == other@
    }
}

impl Eq for ScalarFunction {

}

impl PartialEq for ApproxPercentileParams {
    fn eq(&self, other: &Self) -> (equal: bool) {
        self.force_list_output == other.force_list_output && same_floats(
            &self.percentiles,
            &other.percentiles,
        ) && self.child.same(&other.child)
    }
}

impl vstd::std_specs::cmp::PartialEqSpecImpl for ApproxPercentileParams {
    open spec fn obeys_eq_spec() -> bool {
        true
    }

    open spec fn eq_spec(&self, other: &Self) -> bool {
        &&& (*self.child)@ == (*other.child)@
        &&& self.percentiles@ == other.percentiles@
        &&& self.force_list_output == other.force_list_output
    }
}

impl Eq for ApproxPercentileParams {

}

} // verus!
