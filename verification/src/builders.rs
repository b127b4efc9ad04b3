//! Functions that build expressions.
use std::sync::Arc;
use vstd::prelude::*;
use vstd::string::*;

use crate::datatypes::{CountMode, DataType};
use crate::error::{DaftError, DaftErrorView, DaftResult};
use crate::expr::{
    refs_view, AggExpr, AggExprView, ApproxPercentileParams, Expr, ExprRef, ExprView,
};
use crate::functions::{FunctionExpr, FunctionExprView, SketchExpr};
use crate::lit::{clone_floats, FloatWrapper, LiteralValue};
use crate::operator::Operator;

verus! {

/// A reference to the column of the given name.
pub fn col<S: Into<Arc<str>>>(name: S) -> (e: ExprRef)
    ensures
        exists|shared: Arc<str>|
            #[trigger] call_ensures(S::into, (name,), shared) && (*e)@ == ExprView::Column(
                (*shared)@,
            ),
{
    let shared: Arc<str> = name.into();
    Arc::new(Expr::Column(shared))
}

/// The value of an operation on two operands.
pub open spec fn operation(op: Operator, left: ExprView, right: ExprView) -> ExprView {
    ExprView::BinaryOp { op, left: Box::new(left), right: Box::new(right) }
}

/// An operation on two operands.
pub fn binary_op(op: Operator, left: ExprRef, right: ExprRef) -> (e: ExprRef)
    ensures
        (*e)@ == operation(op, (*left)@, (*right)@),
{
    Arc::new(Expr::BinaryOp { op, left, right })
}

/// The aggregation of the given name over an expression, where there is one of that name.
pub open spec fn named_aggregation(name: Seq<char>, child: ExprView) -> Option<AggExprView> {
    if name == "count"@ {
        Some(AggExprView::Count(Box::new(child), CountMode::Valid))
    } else if name == "sum"@ {
        Some(AggExprView::Sum(Box::new(child)))
    } else if name == "mean"@ {
        Some(AggExprView::Mean(Box::new(child)))
    } else if name == "min"@ {
        Some(AggExprView::Min(Box::new(child)))
    } else if name == "max"@ {
        Some(AggExprView::Max(Box::new(child)))
    } else if name == "list"@ {
        Some(AggExprView::List(Box::new(child)))
    } else {
        None
    }
}

impl AggExpr {
    /// The aggregation of the given name over an expression.
    pub fn from_name_and_child_expr(name: &str, child: ExprRef) -> (agg: DaftResult<AggExpr>)
        ensures
            match agg {
                Ok(found) => named_aggregation(name@, (*child)@) == Some(found@),
                Err(e) => named_aggregation(name@, (*child)@) is None && e@
                    == DaftErrorView::ValueError(name@ + " not a valid aggregation name"@),
            },
    {
        if *name == *"count" {
            Ok(AggExpr::Count(child, CountMode::Valid))
        } else if *name == *"sum" {
            Ok(AggExpr::Sum(child))
        } else if *name == *"mean" {
            Ok(AggExpr::Mean(child))
        } else if *name == *"min" {
            Ok(AggExpr::Min(child))
        } else if *name == *"max" {
            Ok(AggExpr::Max(child))
        } else if *name == *"list" {
            Ok(AggExpr::List(child))
        } else {
            let mut text = name.to_owned();
            text.append(" not a valid aggregation name");
            Err(DaftError::ValueError(text))
        }
    }
}

/// An aggregation as a shared expression.
fn aggregation(agg: AggExpr) -> (e: ExprRef)
    ensures
        (*e)@ == ExprView::Agg(agg@),
{
    Arc::new(Expr::Agg(agg))
}

impl From<&AggExpr> for ExprRef {
    fn from(agg_expr: &AggExpr) -> (e: ExprRef)
        ensures
            (*e)@ == ExprView::Agg(agg_expr@),
    {
        aggregation(agg_expr.clone())
    }
}

// A copied aggregation has the value of the one it was copied from, which `from` states; its
// lists are lists of their own.
impl vstd::std_specs::convert::FromSpecImpl<&AggExpr> for ExprRef {
    open spec fn obeys_from_spec() -> bool {
        false
    }

    open spec fn from_spec(agg_expr: &AggExpr) -> ExprRef {
        Arc::new(Expr::Agg(*agg_expr))
    }
}

impl AsRef<Expr> for Expr {
    fn as_ref(&self) -> (e: &Expr)
        ensures
            *e == *self,
    {
        self
    }
}

impl Expr {
    /// The expression, shared.
    pub fn arced(self) -> (e: ExprRef)
        ensures
            *e == self,
    {
        Arc::new(self)
    }

    /// The expression under another name.
    pub fn alias<S: Into<Arc<str>>>(self: &ExprRef, name: S) -> (e: ExprRef)
        ensures
            exists|shared: Arc<str>|
                #[trigger] call_ensures(S::into, (name,), shared) && (*e)@ == ExprView::Alias(
                    Box::new((**self)@),
                    (*shared)@,
                ),
    {
        let shared: Arc<str> = name.into();
        Arc::new(Expr::Alias(self.clone(), shared))
    }

    /// The conditional with this expression as its predicate.
    pub fn if_else(self: ExprRef, if_true: ExprRef, if_false: ExprRef) -> (e: ExprRef)
        ensures
            (*e)@ == (ExprView::IfElse {
                if_true: Box::new((*if_true)@),
                if_false: Box::new((*if_false)@),
                predicate: Box::new((*self)@),
            }),
    {
        Arc::new(Expr::IfElse { if_true, if_false, predicate: self })
    }

    /// The expression, cast to a type.
    pub fn cast(self: ExprRef, dtype: &DataType) -> (e: ExprRef)
        ensures
            (*e)@ == ExprView::Cast(Box::new((*self)@), dtype@),
    {
        Arc::new(Expr::Cast(self, dtype.clone()))
    }

    /// The number of rows, counted in the given mode.
    pub fn count(self: ExprRef, mode: CountMode) -> (e: ExprRef)
        ensures
            (*e)@ == ExprView::Agg(AggExprView::Count(Box::new((*self)@), mode)),
    {
        aggregation(AggExpr::Count(self, mode))
    }

    /// The sum.
    pub fn sum(self: ExprRef) -> (e: ExprRef)
        ensures
            (*e)@ == ExprView::Agg(AggExprView::Sum(Box::new((*self)@))),
    {
        aggregation(AggExpr::Sum(self))
    }

    /// The approximate number of distinct values.
    pub fn approx_count_distinct(self: ExprRef) -> (e: ExprRef)
        ensures
            (*e)@ == ExprView::Agg(AggExprView::ApproxCountDistinct(Box::new((*self)@))),
    {
        aggregation(AggExpr::ApproxCountDistinct(self))
    }

    /// The approximate values at the given percentiles.
    pub fn approx_percentiles(
        self: ExprRef,
        percentiles: &[FloatWrapper],
        force_list_output: bool,
    ) -> (e: ExprRef)
        ensures
            (*e)@ == ExprView::Agg(
                (AggExprView::ApproxPercentile {
                    child: Box::new((*self)@),
                    percentiles: percentiles@,
                    force_list_output,
                }),
            ),
    {
        aggregation(
            AggExpr::ApproxPercentile(
                ApproxPercentileParams {
                    child: self,
                    percentiles: clone_floats(percentiles),
                    force_list_output,
                },
            ),
        )
    }

    /// The approximate values of a sketch at the given percentiles.
    pub fn sketch_percentile(
        self: ExprRef,
        percentiles: &[FloatWrapper],
        force_list_output: bool,
    ) -> (e: ExprRef)
        ensures
            (*e)@ == (ExprView::Function {
                func: (FunctionExprView::SketchPercentile {
                    percentiles: percentiles@,
                    force_list_output,
                }),
                inputs: seq![(*self)@],
            }),
    {
        let ghost child = (*self)@;
        let inputs = vec![self];
        assert(refs_view(inputs@) =~= seq![child]);
        Arc::new(
            Expr::Function {
                func: FunctionExpr::Sketch(
                    SketchExpr::Percentile {
                        percentiles: clone_floats(percentiles),
                        force_list_output,
                    },
                ),
                inputs,
            },
        )
    }

    /// The mean.
    pub fn mean(self: ExprRef) -> (e: ExprRef)
        ensures
            (*e)@ == ExprView::Agg(AggExprView::Mean(Box::new((*self)@))),
    {
        aggregation(AggExpr::Mean(self))
    }

    /// The least value.
    pub fn min(self: ExprRef) -> (e: ExprRef)
        ensures
            (*e)@ == ExprView::Agg(AggExprView::Min(Box::new((*self)@))),
    {
        aggregation(AggExpr::Min(self))
    }

    /// The greatest value.
    pub fn max(self: ExprRef) -> (e: ExprRef)
        ensures
            (*e)@ == ExprView::Agg(AggExprView::Max(Box::new((*self)@))),
    {
        aggregation(AggExpr::Max(self))
    }

    /// Any one value; a null only where nulls are not ignored or there is nothing else.
    pub fn any_value(self: ExprRef, ignore_nulls: bool) -> (e: ExprRef)
        ensures
            (*e)@ == ExprView::Agg(AggExprView::AnyValue(Box::new((*self)@), ignore_nulls)),
    {
        aggregation(AggExpr::AnyValue(self, ignore_nulls))
    }

    /// The list of all values.
    pub fn agg_list(self: ExprRef) -> (e: ExprRef)
        ensures
            (*e)@ == ExprView::Agg(AggExprView::List(Box::new((*self)@))),
    {
        aggregation(AggExpr::List(self))
    }

    /// The concatenation of all values.
    pub fn agg_concat(self: ExprRef) -> (e: ExprRef)
        ensures
            (*e)@ == ExprView::Agg(AggExprView::Concat(Box::new((*self)@))),
    {
        aggregation(AggExpr::Concat(self))
    }

    /// The negation.
    pub fn not(self: ExprRef) -> (e: ExprRef)
        ensures
            (*e)@ == ExprView::Not(Box::new((*self)@)),
    {
        Arc::new(Expr::Not(self))
    }

    /// Whether the value is null.
    pub fn is_null(self: ExprRef) -> (e: ExprRef)
        ensures
            (*e)@ == ExprView::IsNull(Box::new((*self)@)),
    {
        Arc::new(Expr::IsNull(self))
    }

    /// Whether the value is not null.
    pub fn not_null(self: ExprRef) -> (e: ExprRef)
        ensures
            (*e)@ == ExprView::NotNull(Box::new((*self)@)),
    {
        Arc::new(Expr::NotNull(self))
    }

    /// The value, or another in place of null.
    pub fn fill_null(self: ExprRef, fill_value: ExprRef) -> (e: ExprRef)
        ensures
            (*e)@ == ExprView::FillNull(Box::new((*self)@), Box::new((*fill_value)@)),
    {
        Arc::new(Expr::FillNull(self, fill_value))
    }

    /// Whether the value is one of the items.
    pub fn is_in(self: ExprRef, items: ExprRef) -> (e: ExprRef)
        ensures
            (*e)@ == ExprView::IsIn(Box::new((*self)@), Box::new((*items)@)),
    {
        Arc::new(Expr::IsIn(self, items))
    }

    /// Whether the value lies between two bounds.
    pub fn between(self: ExprRef, lower: ExprRef, upper: ExprRef) -> (e: ExprRef)
        ensures
            (*e)@ == ExprView::Between(
                Box::new((*self)@),
                Box::new((*lower)@),
                Box::new((*upper)@),
            ),
    {
        Arc::new(Expr::Between(self, lower, upper))
    }

    /// Whether two values are equal.
    pub fn eq(self: ExprRef, other: ExprRef) -> (e: ExprRef)
        ensures
            (*e)@ == operation(Operator::Eq, (*self)@, (*other)@),
    {
        binary_op(Operator::Eq, self, other)
    }

    /// Whether two values differ.
    pub fn not_eq(self: ExprRef, other: ExprRef) -> (e: ExprRef)
        ensures
            (*e)@ == operation(Operator::NotEq, (*self)@, (*other)@),
    {
        binary_op(Operator::NotEq, self, other)
    }

    /// Whether both hold.
    pub fn and(self: ExprRef, other: ExprRef) -> (e: ExprRef)
        ensures
            (*e)@ == operation(Operator::And, (*self)@, (*other)@),
    {
        binary_op(Operator::And, self, other)
    }

    /// Whether at least one holds.
    pub fn or(self: ExprRef, other: ExprRef) -> (e: ExprRef)
        ensures
            (*e)@ == operation(Operator::Or, (*self)@, (*other)@),
    {
        binary_op(Operator::Or, self, other)
    }

    /// Whether the value is less than another.
    pub fn lt(self: ExprRef, other: ExprRef) -> (e: ExprRef)
        ensures
            (*e)@ == operation(Operator::Lt, (*self)@, (*other)@),
    {
        binary_op(Operator::Lt, self, other)
    }

    /// Whether the value is at most another.
    pub fn lt_eq(self: ExprRef, other: ExprRef) -> (e: ExprRef)
        ensures
            (*e)@ == operation(Operator::LtEq, (*self)@, (*other)@),
    {
        binary_op(Operator::LtEq, self, other)
    }

    /// Whether the value is greater than another.
    pub fn gt(self: ExprRef, other: ExprRef) -> (e: ExprRef)
        ensures
            (*e)@ == operation(Operator::Gt, (*self)@, (*other)@),
    {
        binary_op(Operator::Gt, self, other)
    }

    /// Whether the value is at least another.
    pub fn gt_eq(self: ExprRef, other: ExprRef) -> (e: ExprRef)
        ensures
            (*e)@ == operation(Operator::GtEq, (*self)@, (*other)@),
    {
        binary_op(Operator::GtEq, self, other)
    }

    /// The literal, where the expression is one.
    pub fn as_literal(&self) -> (value: Option<&LiteralValue>)
        ensures
            match value {
                Some(found) => self@ == ExprView::Literal(found@),
                None => !(self@ is Literal),
            },
    {
        match self {
            Expr::Literal(value) => Some(value),
            _ => None,
        }
    }
}

} // verus!
