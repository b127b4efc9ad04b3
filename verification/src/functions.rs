//! Functions that an expression can call.
use vstd::prelude::*;
use vstd::string::*;

use crate::expr::ExprRef;
use crate::lit::{clone_floats, same_floats, FloatWrapper};

verus! {

/// Functions on struct columns.
#[derive(Debug, Hash)]
pub enum StructExpr {
    Get(String),
}

/// Functions on sketches.
#[derive(Debug, Hash)]
pub enum SketchExpr {
    Percentile { percentiles: Vec<FloatWrapper>, force_list_output: bool },
}

/// A built-in function. `Other` stands for every function that expressions only pass along; the
/// engine finds it again by its handle.
#[derive(Debug, Hash)]
pub enum FunctionExpr {
    Struct(StructExpr),
    Sketch(SketchExpr),
    Other(u64),
}

/// A scalar function of the engine: its name, and the handle by which the engine finds it again.
#[derive(Debug, Hash)]
pub struct ScalarUDF {
    pub name: String,
    pub handle: u64,
}

/// A scalar function together with its arguments.
#[derive(Debug, Hash)]
pub struct ScalarFunction {
    pub udf: ScalarUDF,
    pub inputs: Vec<ExprRef>,
}

/// The value of a `FunctionExpr`.
#[verifier::ext_equal]
pub enum FunctionExprView {
    StructGet(Seq<char>),
    SketchPercentile { percentiles: Seq<FloatWrapper>, force_list_output: bool },
    Other(u64),
}

/// The value of a `ScalarUDF`.
#[verifier::ext_equal]
pub struct ScalarUDFView {
    pub name: Seq<char>,
    pub handle: u64,
}

impl View for FunctionExpr {
    type V = FunctionExprView;

    open spec fn view(&self) -> FunctionExprView {
        match self {
            FunctionExpr::Struct(StructExpr::Get(name)) => FunctionExprView::StructGet(name@),
            FunctionExpr::Sketch(
                SketchExpr::Percentile { percentiles, force_list_output },
            ) => FunctionExprView::SketchPercentile {
                percentiles: percentiles@,
                force_list_output: *force_list_output,
            },
            FunctionExpr::Other(handle) => FunctionExprView::Other(*handle),
        }
    }
}

impl View for ScalarUDF {
    type V = ScalarUDFView;

    open spec fn view(&self) -> ScalarUDFView {
        ScalarUDFView { name: self.name@, handle: self.handle }
    }
}

impl Clone for FunctionExpr {
    fn clone(&self) -> (copy: Self)
        ensures
            copy@ == self@,
    {
        match self {
            FunctionExpr::Struct(StructExpr::Get(name)) => FunctionExpr::Struct(
                StructExpr::Get(name.clone()),
            ),
            FunctionExpr::Sketch(
                SketchExpr::Percentile { percentiles, force_list_output },
            ) => FunctionExpr::Sketch(
                SketchExpr::Percentile {
                    percentiles: clone_floats(percentiles.as_slice()),
                    force_list_output: *force_list_output,
                },
            ),
            FunctionExpr::Other(handle) => FunctionExpr::Other(*handle),
        }
    }
}

impl Clone for ScalarUDF {
    fn clone(&self) -> (copy: Self)
        ensures
            copy@ == self@,
    {
        ScalarUDF { name: self.name.clone(), handle: self.handle }
    }
}

impl FunctionExpr {
    /// Whether two functions are the same.
    pub fn same(&self, other: &FunctionExpr) -> (equal: bool)
        ensures
            equal == (self@ == other@),
    {
        match (self, other) {
            (
                FunctionExpr::Struct(StructExpr::Get(a)),
                FunctionExpr::Struct(StructExpr::Get(b)),
            ) => *a == *b,
            (
                FunctionExpr::Sketch(SketchExpr::Percentile { percentiles: a, force_list_output: f }),
                FunctionExpr::Sketch(SketchExpr::Percentile { percentiles: b, force_list_output: g }),
            ) => *f == *g && same_floats(a, b),
            (FunctionExpr::Other(a), FunctionExpr::Other(b)) => *a == *b,
            _ => false,
        }
    }
}

impl ScalarUDF {
    /// Whether two scalar functions are the same.
    pub fn same(&self, other: &ScalarUDF) -> (equal: bool)
        ensures
            equal == (self@ == other@),
    {
        self.handle == other.handle && self.name == other.name
    }
}

impl ScalarFunction {
    /// The name of the function.
    pub fn name(&self) -> (name: &str)
        ensures
            name@ == self.udf@.name,
    {
        self.udf.name.as_str()
    }
}

impl PartialEq for FunctionExpr {
    fn eq(&self, other: &Self) -> (equal: bool) {
        self.same(other)
    }
}

impl vstd::std_specs::cmp::PartialEqSpecImpl for FunctionExpr {
    open spec fn obeys_eq_spec() -> bool {
        true
    }

    open spec fn eq_spec(&self, other: &Self) -> bool {
        self@ == other@
    }
}

impl Eq for FunctionExpr {

}

} // verus!
