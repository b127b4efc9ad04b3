//! Texts of expressions: as displayed, as identifiers, as SQL.
use daft_dsl::builders::{binary_op, col};
use daft_dsl::datatypes::{CountMode, DataType};
use daft_dsl::expr::{AggExpr, Expr, ExprRef, SketchType};
use daft_dsl::functions::{FunctionExpr, ScalarFunction, ScalarUDF};
use daft_dsl::lit::{FloatWrapper, LiteralValue};
use daft_dsl::operator::Operator;
use daft_dsl::query::{Halt, Query, TextQuery};
use daft_dsl::replies::Replies;
use daft_dsl::schema::Schema;

fn number(n: i32) -> ExprRef {
    Expr::Literal(LiteralValue::Int32(n)).arced()
}

fn other(handle: u64) -> ExprRef {
    Expr::Literal(LiteralValue::Other(handle)).arced()
}

fn literal_text(value: &LiteralValue) -> String {
    match value {
        LiteralValue::Int32(n) => format!("{}", n),
        LiteralValue::Utf8(s) => format!("\"{}\"", s),
        _ => "?".to_string(),
    }
}

fn answer(question: Query, replies: &mut Replies) {
    match question {
        Query::Text(q) => {
            let reply = match &q {
                TextQuery::DataType(dtype) => format!("{:?}", dtype),
                TextQuery::Field(field) => field.name.clone(),
                TextQuery::CountMode(mode) => format!("{:?}", mode),
                TextQuery::Percentiles(list) => {
                    let list: Vec<f64> = list.iter().map(|p| f64::from_bits(p.bits)).collect();
                    format!("{:?}", list)
                }
                TextQuery::LiteralDebug(value) => format!("{:?}", value),
                TextQuery::Literal(value) => literal_text(value),
                TextQuery::FunctionId(func, inputs, _) => {
                    format!("id of {:?} on {}", func, inputs.len())
                }
                TextQuery::Function(func, inputs) => format!("{:?} on {}", func, inputs.len()),
                TextQuery::ScalarFunctionId(func, _) => format!("id of {}", func.name()),
                TextQuery::ScalarFunction(func) => format!("{}()", func.name()),
            };
            replies.record_text(q, reply);
        }
        Query::Sql(value) => {
            let reply = match &value {
                LiteralValue::Int32(_) | LiteralValue::Utf8(_) => {
                    Some(literal_text(&value).into_bytes())
                }
                LiteralValue::Other(_) => Some(vec![0xff]),
                _ => None,
            };
            replies.record_sql(value, reply);
        }
        _ => panic!("an unexpected question"),
    }
}

fn shown(e: &Expr) -> String {
    let mut replies = Replies::new();
    loop {
        match e.to_text(&replies) {
            Ok(text) => return text,
            Err(Halt::Ask(question)) => answer(question, &mut replies),
            Err(halt) => panic!("{:?}", halt),
        }
    }
}

fn id(e: &Expr) -> String {
    let mut replies = Replies::new();
    loop {
        match e.semantic_id(&Schema::empty(), &replies) {
            Ok(id) => return id.id,
            Err(Halt::Ask(question)) => answer(question, &mut replies),
            Err(halt) => panic!("{:?}", halt),
        }
    }
}

fn sql(e: &Expr) -> Option<String> {
    let mut replies = Replies::new();
    loop {
        match e.to_sql(&replies) {
            Ok(text) => return text,
            Err(Halt::Ask(question)) => answer(question, &mut replies),
            Err(halt) => panic!("{:?}", halt),
        }
    }
}

fn percentile(x: f64) -> FloatWrapper {
    FloatWrapper { bits: x.to_bits() }
}

fn call() -> Expr {
    Expr::Function {
        func: FunctionExpr::Other(4),
        inputs: vec![col("a"), col("b")],
    }
}

fn scalar_call() -> Expr {
    Expr::ScalarFunction(ScalarFunction {
        udf: ScalarUDF {
            name: "abs".to_string(),
            handle: 1,
        },
        inputs: vec![col("a")],
    })
}

#[test]
fn displayed_expressions() {
    let a = col("a");
    assert_eq!(shown(&a), "col(a)");
    assert_eq!(shown(&a.alias("z")), "col(a) AS z");
    assert_eq!(shown(&number(3)), "lit(3)");
    assert_eq!(
        shown(&a.clone().cast(&DataType::Int8)),
        "cast(col(a) AS Int8)"
    );
    assert_eq!(shown(&a.clone().not()), "not(col(a))");
    assert_eq!(shown(&a.clone().is_null()), "is_null(col(a))");
    assert_eq!(shown(&a.clone().not_null()), "not_null(col(a))");
    assert_eq!(
        shown(&a.clone().fill_null(number(0))),
        "fill_null(col(a), lit(0))"
    );
    assert_eq!(shown(&a.clone().is_in(col("b"))), "col(a) in col(b)");
    assert_eq!(
        shown(&a.clone().between(number(1), number(2))),
        "col(a) in [lit(1),lit(2)]"
    );
    assert_eq!(
        shown(&a.if_else(col("b"), col("c"))),
        "if [col(a)] then [col(b)] else [col(c)]"
    );
    assert_eq!(shown(&call()), "Other(4) on 2");
    assert_eq!(shown(&scalar_call()), "abs()");
}

#[test]
fn displayed_operations() {
    let sum = binary_op(Operator::Plus, col("a"), col("b"));
    assert_eq!(shown(&sum), "col(a) + col(b)");
    assert_eq!(
        shown(&binary_op(Operator::Multiply, sum.clone(), col("c"))),
        "[col(a) + col(b)] * col(c)"
    );
    assert_eq!(
        shown(&binary_op(Operator::Multiply, col("c"), sum.clone())),
        "col(c) * [col(a) + col(b)]"
    );
    assert_eq!(
        shown(&binary_op(Operator::Lt, sum.alias("s"), col("a").alias("t"))),
        "col(a) + col(b) < col(a)"
    );
    assert_eq!(
        shown(&col("a").alias("s").alias("t").eq(number(1))),
        "col(a) AS s == lit(1)"
    );
}

#[test]
fn displayed_aggregations() {
    let a = col("a");
    assert_eq!(
        shown(&a.clone().count(CountMode::Valid)),
        "count(col(a), Valid)"
    );
    assert_eq!(shown(&a.clone().sum()), "sum(col(a))");
    assert_eq!(
        shown(&a.clone().approx_percentiles(&[percentile(0.5)], true)),
        "approx_percentiles(col(a), percentiles=[0.5], force_list_output=true)"
    );
    assert_eq!(
        shown(&a.clone().approx_count_distinct()),
        "approx_count_distinct(col(a))"
    );
    assert_eq!(
        shown(&Expr::Agg(AggExpr::ApproxSketch(
            a.clone(),
            SketchType::DDSketch
        ))),
        "approx_sketch(col(a), sketch_type=DDSketch)"
    );
    assert_eq!(
        shown(&Expr::Agg(AggExpr::MergeSketch(
            a.clone(),
            SketchType::HyperLogLog
        ))),
        "merge_sketch(col(a), sketch_type=HyperLogLog)"
    );
    assert_eq!(shown(&a.clone().mean()), "mean(col(a))");
    assert_eq!(shown(&a.clone().min()), "min(col(a))");
    assert_eq!(shown(&a.clone().max()), "max(col(a))");
    assert_eq!(
        shown(&a.clone().any_value(false)),
        "any_value(col(a), ignore_nulls=false)"
    );
    assert_eq!(shown(&a.clone().agg_list()), "list(col(a))");
    assert_eq!(shown(&a.clone().agg_concat()), "list(col(a))");
    assert_eq!(
        shown(&Expr::Agg(AggExpr::MapGroups {
            func: FunctionExpr::Other(9),
            inputs: vec![a],
        })),
        "Other(9) on 1"
    );
}

#[test]
fn displayed_operators() {
    let all = [
        (Operator::Eq, "=="),
        (Operator::NotEq, "!="),
        (Operator::Lt, "<"),
        (Operator::LtEq, "<="),
        (Operator::Gt, ">"),
        (Operator::GtEq, ">="),
        (Operator::Plus, "+"),
        (Operator::Minus, "-"),
        (Operator::Multiply, "*"),
        (Operator::TrueDivide, "/"),
        (Operator::FloorDivide, "//"),
        (Operator::Modulus, "%"),
        (Operator::And, "&"),
        (Operator::Or, "|"),
        (Operator::Xor, "^"),
        (Operator::ShiftLeft, "<<"),
        (Operator::ShiftRight, ">>"),
    ];
    for (op, token) in all {
        assert_eq!(op.to_text(), token);
        assert_eq!(op.token(), token);
        assert_ne!(op.is_comparison(), op.is_arithmetic());
        assert_eq!(
            shown(&binary_op(op, col("a"), col("b"))),
            format!("col(a) {} col(b)", token)
        );
    }
    assert!(Operator::Xor.is_comparison());
    assert!(Operator::ShiftLeft.is_arithmetic());
}

#[test]
fn identifiers_of_expressions() {
    let a = col("a");
    assert_eq!(id(&a), "a");
    assert_eq!(id(&number(3)), "Literal(Int32(3))");
    assert_eq!(id(&a.clone().cast(&DataType::Int8)), "a.cast(Int8)");
    assert_eq!(id(&a.clone().not()), "a.not()");
    assert_eq!(id(&a.clone().is_null()), "a.is_null()");
    assert_eq!(id(&a.clone().not_null()), "a.not_null()");
    assert_eq!(id(&a.clone().fill_null(col("b"))), "a.fill_null(b)");
    assert_eq!(id(&a.clone().is_in(col("b"))), "a.is_in(b)");
    assert_eq!(
        id(&a.clone().between(col("b"), col("c"))),
        "a.between(b,c)"
    );
    assert_eq!(id(&a.clone().gt_eq(col("b"))), "(a >= b)");
    assert_eq!(id(&a.if_else(col("b"), col("c"))), "(b if a else c)");
    assert_eq!(id(&call()), "id of Other(4) on 2");
    assert_eq!(id(&scalar_call()), "id of abs");
}

#[test]
fn identifiers_ignore_aliases() {
    let plain = binary_op(Operator::Plus, col("a"), col("b"));
    let named = binary_op(Operator::Plus, col("a").alias("x"), col("b")).alias("y");
    assert_eq!(id(&plain), id(&named));
    assert_eq!(id(&plain.sum()), id(&named.sum()));
}

#[test]
fn identifiers_tell_aggregations_apart() {
    let a = col("a");
    let half = percentile(0.5);
    let agg = |agg: AggExpr| Expr::Agg(agg).arced();
    let all = [
        a.clone().count(CountMode::All),
        a.clone().count(CountMode::Valid),
        a.clone().count(CountMode::Null),
        a.clone().sum(),
        a.clone().approx_percentiles(&[half], false),
        a.clone().approx_percentiles(&[half], true),
        a.clone().approx_percentiles(&[half, half], true),
        a.clone().approx_count_distinct(),
        agg(AggExpr::ApproxSketch(a.clone(), SketchType::DDSketch)),
        agg(AggExpr::ApproxSketch(a.clone(), SketchType::HyperLogLog)),
        agg(AggExpr::MergeSketch(a.clone(), SketchType::DDSketch)),
        agg(AggExpr::MergeSketch(a.clone(), SketchType::HyperLogLog)),
        a.clone().mean(),
        a.clone().min(),
        a.clone().max(),
        a.clone().any_value(false),
        a.clone().any_value(true),
        a.clone().agg_list(),
        a.agg_concat(),
    ];
    for (i, one) in all.iter().enumerate() {
        for (j, two) in all.iter().enumerate() {
            assert_eq!(id(one) == id(two), i == j);
        }
    }
}

#[test]
fn identifiers_of_aggregations() {
    let a = col("a");
    assert_eq!(
        id(&a.clone().count(CountMode::Null)),
        "a.local_count(Null)"
    );
    assert_eq!(id(&a.clone().sum()), "a.local_sum()");
    assert_eq!(
        id(&a
            .clone()
            .approx_percentiles(&[percentile(0.25), percentile(0.75)], false)),
        "a.local_approx_percentiles(percentiles=[0.25, 0.75],force_list_output=false)"
    );
    assert_eq!(
        id(&a.clone().approx_count_distinct()),
        "a.local_approx_count_distinct()"
    );
    assert_eq!(
        id(&Expr::Agg(AggExpr::ApproxSketch(
            a.clone(),
            SketchType::HyperLogLog
        ))),
        "a.local_approx_sketch(sketch_type=HyperLogLog)"
    );
    assert_eq!(
        id(&Expr::Agg(AggExpr::MergeSketch(
            a.clone(),
            SketchType::DDSketch
        ))),
        "a.local_merge_sketch(sketch_type=DDSketch)"
    );
    assert_eq!(id(&a.clone().mean()), "a.local_mean()");
    assert_eq!(id(&a.clone().min()), "a.local_min()");
    assert_eq!(id(&a.clone().max()), "a.local_max()");
    assert_eq!(
        id(&a.clone().any_value(true)),
        "a.local_any_value(ignore_nulls=true)"
    );
    assert_eq!(id(&a.clone().agg_list()), "a.local_list()");
    assert_eq!(id(&a.clone().agg_concat()), "a.local_concat()");
    let grouped = AggExpr::MapGroups {
        func: FunctionExpr::Other(9),
        inputs: vec![a],
    };
    assert_eq!(id(&Expr::Agg(grouped)), "id of Other(9) on 1");
}

#[test]
fn sql_of_expressions() {
    let a = col("a");
    assert_eq!(sql(&a), Some("a".to_string()));
    assert_eq!(sql(&col("größe")), Some("größe".to_string()));
    assert_eq!(sql(&number(7)), Some("7".to_string()));
    assert_eq!(sql(&a.alias("z")), Some("a".to_string()));
    assert_eq!(sql(&a.clone().not()), Some("NOT (a)".to_string()));
    assert_eq!(sql(&a.clone().is_null()), Some("(a) IS NULL".to_string()));
    assert_eq!(
        sql(&a.clone().not_null()),
        Some("(a) IS NOT NULL".to_string())
    );
    assert_eq!(
        sql(&a.clone().if_else(number(1), number(2))),
        Some("CASE WHEN a THEN 1 ELSE 2 END".to_string())
    );
    assert_eq!(
        sql(&a.clone().lt(number(1)).or(a.gt(number(5)).not())),
        Some("a < 1 OR NOT (a > 5)".to_string())
    );
}

#[test]
fn sql_ignores_aliases() {
    let plain = col("a").lt(number(1)).or(col("b").is_null()).not();
    let named = col("a")
        .alias("x")
        .lt(number(1).alias("y"))
        .alias("z")
        .or(col("b").alias("w").is_null())
        .not()
        .alias("v");
    assert_eq!(sql(&named), sql(&plain));
    assert_eq!(
        sql(&named),
        Some("NOT (a < 1 OR (b) IS NULL)".to_string())
    );
}

#[test]
fn only_the_literals_of_the_expression_matter() {
    let mut replies = Replies::new();
    replies.record_sql(LiteralValue::Other(1), Some(vec![0xff]));
    replies.record_sql(LiteralValue::Int32(2), Some(b"2".to_vec()));
    let e = col("a").eq(number(2));
    assert_eq!(e.to_sql(&replies).unwrap(), Some("a = 2".to_string()));
}

#[test]
fn sql_operators() {
    let supported = [
        (Operator::Eq, "="),
        (Operator::NotEq, "!="),
        (Operator::Lt, "<"),
        (Operator::LtEq, "<="),
        (Operator::Gt, ">"),
        (Operator::GtEq, ">="),
        (Operator::And, "AND"),
        (Operator::Or, "OR"),
        (Operator::ShiftLeft, "<<"),
        (Operator::ShiftRight, ">>"),
    ];
    for (op, token) in supported {
        assert_eq!(
            sql(&binary_op(op, col("a"), col("b"))),
            Some(format!("a {} b", token))
        );
    }
    let unsupported = [
        Operator::Plus,
        Operator::Minus,
        Operator::Multiply,
        Operator::TrueDivide,
        Operator::FloorDivide,
        Operator::Modulus,
        Operator::Xor,
    ];
    for op in unsupported {
        assert_eq!(sql(&binary_op(op, col("a"), col("b"))), None);
    }
}

#[test]
fn what_sql_cannot_express() {
    let a = col("a");
    assert_eq!(sql(&a.clone().sum()), None);
    assert_eq!(sql(&a.clone().cast(&DataType::Int8)), None);
    assert_eq!(sql(&a.clone().is_in(col("b"))), None);
    assert_eq!(sql(&a.clone().between(number(1), number(2))), None);
    assert_eq!(sql(&a.clone().fill_null(number(1))), None);
    assert_eq!(sql(&call()), None);
    assert_eq!(sql(&scalar_call()), None);
    assert_eq!(
        sql(&Expr::Literal(LiteralValue::Boolean(true))),
        None
    );
    assert_eq!(sql(&a.clone().sum().not()), None);
    assert_eq!(sql(&a.clone().and(a.clone().sum())), None);
    assert_eq!(sql(&a.if_else(number(1), col("b").sum())), None);
}

#[test]
fn sql_that_is_no_text() {
    assert_eq!(sql(&other(1)), None);
    assert_eq!(sql(&col("a").eq(other(1))), None);
}

#[test]
fn texts_ask_what_is_open_and_stay() {
    let e = number(1).eq(number(2));
    let mut replies = Replies::new();
    let mut asked = 0;
    while let Err(Halt::Ask(question)) = e.to_text(&replies) {
        asked += 1;
        answer(question, &mut replies);
    }
    assert_eq!(asked, 2);
    let decided = e.to_text(&replies).unwrap();
    assert_eq!(decided, "lit(1) == lit(2)");
    answer(
        Query::Text(TextQuery::Literal(LiteralValue::Int32(5))),
        &mut replies,
    );
    assert_eq!(e.to_text(&replies).unwrap(), decided);
}
