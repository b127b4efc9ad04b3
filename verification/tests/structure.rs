//! The structure of expressions: how they are built, their parts and their names.
use std::sync::Arc;

use daft_dsl::builders::{binary_op, col};
use daft_dsl::datatypes::{CountMode, DataType};
use daft_dsl::error::DaftError;
use daft_dsl::expr::{AggExpr, ApproxPercentileParams, Expr, ExprRef, SketchType};
use daft_dsl::functions::{FunctionExpr, ScalarFunction, ScalarUDF, SketchExpr, StructExpr};
use daft_dsl::lit::{FloatWrapper, LiteralValue};
use daft_dsl::naming::is_partition_compatible;
use daft_dsl::operator::Operator;
use daft_dsl::query::{FlagQuery, Halt, Query};
use daft_dsl::replies::Replies;

fn number(n: i32) -> ExprRef {
    Expr::Literal(LiteralValue::Int32(n)).arced()
}

fn scalar(name: &str, inputs: Vec<ExprRef>) -> Expr {
    Expr::ScalarFunction(ScalarFunction {
        udf: ScalarUDF {
            name: name.to_string(),
            handle: 1,
        },
        inputs,
    })
}

fn function(inputs: Vec<ExprRef>) -> Expr {
    Expr::Function {
        func: FunctionExpr::Other(4),
        inputs,
    }
}

fn groups(inputs: Vec<ExprRef>) -> Expr {
    Expr::Agg(AggExpr::MapGroups {
        func: FunctionExpr::Other(4),
        inputs,
    })
}

fn samples() -> Vec<(Expr, Vec<ExprRef>)> {
    let (a, b, c) = (col("a"), col("b"), col("c"));
    let half = FloatWrapper { bits: 0.5f64.to_bits() };
    let inner = |e: ExprRef| (*e).clone();
    vec![
        (inner(a.clone()), vec![]),
        (inner(number(1)), vec![]),
        (inner(a.alias("z")), vec![a.clone()]),
        (inner(a.clone().not()), vec![a.clone()]),
        (inner(a.clone().is_null()), vec![a.clone()]),
        (inner(a.clone().not_null()), vec![a.clone()]),
        (inner(a.clone().cast(&DataType::Utf8)), vec![a.clone()]),
        (
            inner(binary_op(Operator::Plus, a.clone(), b.clone())),
            vec![a.clone(), b.clone()],
        ),
        (inner(a.clone().is_in(b.clone())), vec![a.clone(), b.clone()]),
        (
            inner(a.clone().fill_null(b.clone())),
            vec![a.clone(), b.clone()],
        ),
        (
            inner(a.clone().between(b.clone(), c.clone())),
            vec![a.clone(), b.clone(), c.clone()],
        ),
        (
            inner(a.clone().if_else(b.clone(), c.clone())),
            vec![b.clone(), c.clone(), a.clone()],
        ),
        (function(vec![a.clone(), b.clone()]), vec![a.clone(), b.clone()]),
        (scalar("abs", vec![a.clone()]), vec![a.clone()]),
        (groups(vec![b.clone(), a.clone()]), vec![b.clone(), a.clone()]),
        (inner(a.clone().count(CountMode::All)), vec![a.clone()]),
        (inner(a.clone().sum()), vec![a.clone()]),
        (inner(a.clone().mean()), vec![a.clone()]),
        (inner(a.clone().min()), vec![a.clone()]),
        (inner(a.clone().max()), vec![a.clone()]),
        (inner(a.clone().any_value(true)), vec![a.clone()]),
        (inner(a.clone().agg_list()), vec![a.clone()]),
        (inner(a.clone().agg_concat()), vec![a.clone()]),
        (inner(a.clone().approx_count_distinct()), vec![a.clone()]),
        (
            inner(a.clone().approx_percentiles(&[half], true)),
            vec![a.clone()],
        ),
        (
            inner(a.clone().sketch_percentile(&[half], false)),
            vec![a.clone()],
        ),
        (
            Expr::Agg(AggExpr::ApproxSketch(a.clone(), SketchType::DDSketch)),
            vec![a.clone()],
        ),
        (
            Expr::Agg(AggExpr::MergeSketch(a.clone(), SketchType::HyperLogLog)),
            vec![a],
        ),
    ]
}

#[test]
fn children_of_every_kind() {
    for (e, parts) in samples() {
        assert_eq!(e.children(), parts);
        assert!(e.accepts_children(parts.len()));
    }
}

#[test]
fn rebuilding_from_own_children_changes_nothing() {
    for (e, parts) in samples() {
        assert_eq!(e.with_new_children(parts), e);
    }
}

#[test]
fn new_children_are_the_children() {
    for (e, parts) in samples() {
        let fresh: Vec<ExprRef> = (0..parts.len()).map(|i| col(format!("f{}", i))).collect();
        let rebuilt = e.with_new_children(fresh.clone());
        assert_eq!(rebuilt.children(), fresh);
        assert_eq!(rebuilt.with_new_children(parts), e);
    }
}

#[test]
fn how_many_children_are_taken() {
    let a = col("a");
    assert!(!a.accepts_children(1));
    assert!(!number(1).accepts_children(2));
    let not = a.clone().not();
    assert!(!not.accepts_children(0));
    assert!(not.accepts_children(3));
    assert_eq!(
        not.with_new_children(vec![col("b"), col("c")]),
        *col("b").not()
    );
    assert!(!a.clone().lt(number(1)).accepts_children(1));
    assert!(a.clone().lt(number(1)).accepts_children(5));
    assert!(!a.clone().between(number(1), number(2)).accepts_children(2));
    assert!(!a.clone().sum().accepts_children(2));
    assert!(!function(vec![a.clone()]).accepts_children(2));
    assert!(!scalar("abs", vec![a.clone()]).accepts_children(0));
    assert!(!groups(vec![a]).accepts_children(2));
}

#[test]
fn children_of_aggregations() {
    let agg = AggExpr::ApproxPercentile(ApproxPercentileParams {
        child: col("a"),
        percentiles: vec![FloatWrapper { bits: 1 }],
        force_list_output: false,
    });
    assert_eq!(agg.children(), vec![col("a")]);
    let other = agg.with_new_children(vec![col("b")]);
    assert_eq!(other.children(), vec![col("b")]);
    assert_ne!(other, agg);
    assert_eq!(other.with_new_children(vec![col("a")]), agg);
}

#[test]
fn rebuilding_is_refused_for_a_wrong_number_of_children() {
    for (e, parts) in samples() {
        assert_eq!(e.try_with_new_children(parts.clone()), Some(e.clone()));
        let more = vec![col("x"); parts.len() + 1];
        assert_eq!(
            e.try_with_new_children(more.clone()).is_some(),
            e.accepts_children(more.len())
        );
        if let Expr::Agg(agg) = &e {
            assert_eq!(agg.try_with_new_children(more), None);
            assert_eq!(agg.try_with_new_children(vec![]), None);
            assert_eq!(agg.try_with_new_children(parts), Some(agg.clone()));
        }
    }
    assert_eq!(col("a").not().try_with_new_children(vec![]), None);
    let empty = AggExpr::MapGroups {
        func: FunctionExpr::Other(4),
        inputs: vec![],
    };
    assert_eq!(empty.try_with_new_children(vec![]), Some(empty.clone()));
    assert_eq!(empty.try_with_new_children(vec![col("a")]), None);
}

#[test]
fn aggregations_are_found_anywhere() {
    let a = col("a");
    let sum = a.clone().sum();
    assert!(!a.has_agg());
    assert!(!number(1).has_agg());
    assert!(sum.has_agg());
    assert!(sum.alias("s").has_agg());
    assert!(sum.clone().not().has_agg());
    assert!(sum.clone().is_null().has_agg());
    assert!(sum.clone().not_null().has_agg());
    assert!(sum.clone().cast(&DataType::Utf8).has_agg());
    assert!(a.clone().lt(sum.clone()).has_agg());
    assert!(sum.clone().lt(a.clone()).has_agg());
    assert!(a.clone().is_in(sum.clone()).has_agg());
    assert!(a.clone().fill_null(sum.clone()).has_agg());
    assert!(a.clone().between(number(1), sum.clone()).has_agg());
    assert!(a.clone().if_else(number(1), sum.clone()).has_agg());
    assert!(sum.clone().if_else(number(1), number(2)).has_agg());
    assert!(function(vec![a.clone(), sum.clone()]).has_agg());
    assert!(scalar("abs", vec![a.clone(), sum.clone()]).has_agg());
    assert!(groups(vec![]).has_agg());
    assert!(!function(vec![a.clone(), a.clone()]).has_agg());
    assert!(!scalar("abs", vec![a.clone()]).has_agg());
    assert!(!a.clone().between(number(1), number(2)).has_agg());
    assert!(!a.clone().if_else(number(1), a).has_agg());
}

#[test]
fn names_of_expressions() {
    let a = col("a");
    assert_eq!(a.name(), "a");
    assert_eq!(a.alias("z").name(), "z");
    assert_eq!(number(1).name(), "literal");
    assert_eq!(a.alias("z").not().is_null().name(), "z");
    assert_eq!(binary_op(Operator::Plus, col("l"), col("r")).name(), "l");
    assert_eq!(a.clone().if_else(col("t"), col("f")).name(), "t");
    assert_eq!(a.clone().between(col("b"), col("c")).name(), "a");
    assert_eq!(a.clone().sum().name(), "a");
    assert_eq!(AggExpr::Max(col("m")).name(), "m");
    assert_eq!(function(vec![col("first"), col("second")]).name(), "first");
    assert_eq!(scalar("abs", vec![col("first")]).name(), "first");
    assert_eq!(scalar("to_struct", vec![]).name(), "struct");
    let get = Expr::Function {
        func: FunctionExpr::Struct(StructExpr::Get("member".to_string())),
        inputs: vec![a],
    };
    assert_eq!(get.name(), "member");
}

#[test]
fn calls_without_arguments_have_no_name() {
    assert_eq!(function(vec![]).try_name(), None);
    assert_eq!(scalar("abs", vec![]).try_name(), None);
    assert_eq!(groups(vec![]).try_name(), None);
    assert_eq!(function(vec![]).arced().not().try_name(), None);
    assert_eq!(function(vec![]).arced().alias("f").try_name(), Some("f"));
}

#[test]
fn partitions_are_compatible_up_to_order() {
    let ab = [col("a"), col("b")];
    let ba = [col("b"), col("x").alias("a")];
    assert!(is_partition_compatible(&ab, &ba));
    assert!(is_partition_compatible(&ba, &ab));
    assert!(is_partition_compatible(&ab, &ab));
    assert!(is_partition_compatible(&[], &[]));
    assert!(!is_partition_compatible(&ab, &[col("a")]));
    assert!(!is_partition_compatible(&ab, &[col("a"), col("c")]));
    assert!(!is_partition_compatible(
        &[col("a"), col("a"), col("b")],
        &[col("a"), col("b"), col("b")]
    ));
    assert!(is_partition_compatible(
        &[col("b"), col("a"), col("c")],
        &[col("c"), col("b"), col("a")]
    ));
}

#[test]
fn built_expressions() {
    let (a, b) = (col("a"), col("b"));
    let op = |op: Operator| {
        Expr::BinaryOp {
            op,
            left: col("a"),
            right: col("b"),
        }
        .arced()
    };
    assert_eq!(*a, Expr::Column(Arc::from("a")));
    assert_eq!(col("a".to_string()), a);
    assert_eq!(col(Arc::<str>::from("a")), a);
    assert_eq!(a.alias(Arc::<str>::from("z")), a.alias("z"));
    assert_eq!(a.clone().eq(b.clone()), op(Operator::Eq));
    assert_eq!(a.clone().not_eq(b.clone()), op(Operator::NotEq));
    assert_eq!(a.clone().and(b.clone()), op(Operator::And));
    assert_eq!(a.clone().or(b.clone()), op(Operator::Or));
    assert_eq!(a.clone().lt(b.clone()), op(Operator::Lt));
    assert_eq!(a.clone().lt_eq(b.clone()), op(Operator::LtEq));
    assert_eq!(a.clone().gt(b.clone()), op(Operator::Gt));
    assert_eq!(a.clone().gt_eq(b.clone()), op(Operator::GtEq));
    assert_eq!(*a.clone().sum(), Expr::Agg(AggExpr::Sum(a.clone())));
    assert_eq!(
        *a.clone().if_else(b.clone(), number(1)),
        Expr::IfElse {
            if_true: b,
            if_false: number(1),
            predicate: a.clone(),
        }
    );
    let half = FloatWrapper { bits: 0.5f64.to_bits() };
    assert_eq!(
        *a.clone().sketch_percentile(&[half], true),
        Expr::Function {
            func: FunctionExpr::Sketch(SketchExpr::Percentile {
                percentiles: vec![half],
                force_list_output: true,
            }),
            inputs: vec![a.clone()],
        }
    );
    let agg = AggExpr::Min(a);
    assert_eq!(ExprRef::from(&agg), Expr::Agg(agg).arced());
}

#[test]
fn expressions_refer_to_themselves() {
    let e = col("a").not();
    let inner: &Expr = AsRef::<Expr>::as_ref(&*e);
    assert_eq!(inner, &*e);
}

#[test]
fn equal_expressions_are_equal_in_every_part() {
    assert_ne!(col("a"), col("b"));
    assert_ne!(col("a").not(), col("a").is_null());
    assert_ne!(
        col("a").cast(&DataType::List(Box::new(DataType::Int8))),
        col("a").cast(&DataType::List(Box::new(DataType::Int16)))
    );
    assert_ne!(scalar("abs", vec![]), scalar("sign", vec![]));
    assert_ne!(function(vec![col("a")]), function(vec![col("a"), col("a")]));
    let copies: Vec<Expr> = samples().into_iter().map(|(e, _)| e).collect();
    for (i, (e, _)) in samples().iter().enumerate() {
        for (j, copy) in copies.iter().enumerate() {
            assert_eq!(e == copy, i == j);
        }
    }
}

#[test]
fn aggregations_by_name() {
    let a = col("a");
    let named = |name: &str| AggExpr::from_name_and_child_expr(name, col("a"));
    assert_eq!(
        named("count"),
        Ok(AggExpr::Count(a.clone(), CountMode::Valid))
    );
    assert_eq!(named("sum"), Ok(AggExpr::Sum(a.clone())));
    assert_eq!(named("mean"), Ok(AggExpr::Mean(a.clone())));
    assert_eq!(named("min"), Ok(AggExpr::Min(a.clone())));
    assert_eq!(named("max"), Ok(AggExpr::Max(a.clone())));
    assert_eq!(named("list"), Ok(AggExpr::List(a)));
    assert_eq!(
        named("concat"),
        Err(DaftError::ValueError(
            "concat not a valid aggregation name".to_string()
        ))
    );
}

#[test]
fn literals_are_recognised() {
    assert_eq!(number(3).as_literal(), Some(&LiteralValue::Int32(3)));
    assert_eq!(col("a").as_literal(), None);
    assert_eq!(number(3).alias("a").as_literal(), None);
}

fn mapping(e: &ExprRef, columns: &[&str], computes: bool) -> Option<String> {
    let mut replies = Replies::new();
    loop {
        match e.input_mapping(&replies) {
            Ok(column) => return column,
            Err(Halt::Ask(Query::Columns(q))) => {
                assert_eq!(q, *e);
                replies.record_columns(q, columns.iter().map(|c| c.to_string()).collect());
            }
            Err(Halt::Ask(Query::Flag(FlagQuery::RequiresComputation(q)))) => {
                assert_eq!(q, *e);
                replies.record_flag(FlagQuery::RequiresComputation(q), computes);
            }
            Err(halt) => panic!("{:?}", halt),
        }
    }
}

#[test]
fn one_untouched_column_passes_through() {
    let e = col("a").alias("z");
    assert_eq!(mapping(&e, &["a"], false), Some("a".to_string()));
    assert_eq!(mapping(&e, &["a"], true), None);
    assert_eq!(mapping(&e, &[], false), None);
    assert_eq!(mapping(&e, &["a", "b"], false), None);
}
