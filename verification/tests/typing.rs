//! Types of expressions, with a small engine that answers what the library asks.
use std::sync::Arc;

use daft_dsl::builders::{binary_op, col};
use daft_dsl::datatypes::{CountMode, DataType, Field};
use daft_dsl::error::{DaftError, DaftResult};
use daft_dsl::expr::{AggExpr, Expr, ExprRef, SketchType};
use daft_dsl::functions::{FunctionExpr, ScalarFunction, ScalarUDF, StructExpr};
use daft_dsl::lit::{FloatWrapper, LiteralValue};
use daft_dsl::operator::Operator;
use daft_dsl::query::{
    BinaryRule, ErrorQuery, FieldQuery, FlagQuery, Halt, Query, RuleQuery, TextQuery, TypeQuery,
    UnaryRule,
};
use daft_dsl::replies::Replies;
use daft_dsl::schema::Schema;

fn float(x: f64) -> ExprRef {
    Expr::Literal(LiteralValue::Float64(FloatWrapper { bits: x.to_bits() })).arced()
}

fn number(n: i32) -> ExprRef {
    Expr::Literal(LiteralValue::Int32(n)).arced()
}

fn truth(b: bool) -> ExprRef {
    Expr::Literal(LiteralValue::Boolean(b)).arced()
}

fn is_float(dtype: &DataType) -> bool {
    matches!(dtype, DataType::Float32 | DataType::Float64)
}

fn is_number(dtype: &DataType) -> bool {
    is_float(dtype)
        || matches!(
            dtype,
            DataType::Int8
                | DataType::Int16
                | DataType::Int32
                | DataType::Int64
                | DataType::UInt8
                | DataType::UInt16
                | DataType::UInt32
                | DataType::UInt64
        )
}

fn type_text(dtype: &DataType) -> String {
    format!("{:?}", dtype)
}

fn supertype(left: &DataType, right: &DataType) -> Result<DataType, DaftError> {
    if left == right {
        Ok(left.clone())
    } else if *left == DataType::Null {
        Ok(right.clone())
    } else if *right == DataType::Null {
        Ok(left.clone())
    } else if is_number(left) && is_number(right) {
        if is_float(left) || is_float(right) {
            Ok(DataType::Float64)
        } else {
            Ok(DataType::Int64)
        }
    } else {
        Err(DaftError::TypeError(format!(
            "no supertype of {} and {}",
            type_text(left),
            type_text(right)
        )))
    }
}

fn binary(rule: BinaryRule, left: &DataType, right: &DataType) -> Result<DataType, DaftError> {
    match rule {
        BinaryRule::Supertype => supertype(left, right),
        BinaryRule::Comparison | BinaryRule::Membership => {
            supertype(left, right).map(|_| DataType::Boolean)
        }
        BinaryRule::Logical => {
            if *left == DataType::Boolean && *right == DataType::Boolean {
                Ok(DataType::Boolean)
            } else {
                Err(DaftError::TypeError("not boolean".to_string()))
            }
        }
        BinaryRule::TrueDivide => supertype(left, right).map(|_| DataType::Float64),
        BinaryRule::Plus
        | BinaryRule::Minus
        | BinaryRule::Multiply
        | BinaryRule::Modulus
        | BinaryRule::ShiftLeft
        | BinaryRule::ShiftRight => supertype(left, right),
    }
}

fn missing(name: &str, schema: &Schema) -> DaftError {
    let known = ["n", "x", "b"]
        .iter()
        .filter(|c| schema.get_field(c).is_some())
        .count();
    DaftError::FieldNotFound(format!("no column {} beside {}", name, known))
}

fn answer(question: Query, replies: &mut Replies) {
    match question {
        Query::Type(q) => {
            let reply = match &q {
                TypeQuery::Literal(LiteralValue::Float64(_)) => DataType::Float64,
                TypeQuery::Literal(LiteralValue::Int32(_)) => DataType::Int32,
                TypeQuery::Literal(LiteralValue::Boolean(_)) => DataType::Boolean,
                TypeQuery::Literal(_) => DataType::Null,
                TypeQuery::DDSketch => DataType::Struct(vec![]),
                TypeQuery::HyperLogLog => DataType::Other("FixedSizeBinary".to_string()),
            };
            replies.record_type(q, reply);
        }
        Query::Rule(q) => {
            let reply = match &q {
                RuleQuery::Binary(rule, left, right) => binary(*rule, left, right),
                RuleQuery::Unary(rule, dtype) => {
                    if !is_number(dtype) {
                        Err(DaftError::TypeError(format!(
                            "{:?} of {}",
                            rule,
                            type_text(dtype)
                        )))
                    } else {
                        match rule {
                            UnaryRule::Sum => Ok(if is_float(dtype) {
                                DataType::Float64
                            } else {
                                DataType::Int64
                            }),
                            UnaryRule::Mean => Ok(DataType::Float64),
                        }
                    }
                }
            };
            replies.record_rule(q, reply);
        }
        Query::Flag(q) => {
            let reply = match &q {
                FlagQuery::IsNumeric(dtype) => is_number(dtype),
                FlagQuery::RequiresComputation(_) => true,
            };
            replies.record_flag(q, reply);
        }
        Query::Text(q) => {
            let reply = match &q {
                TextQuery::DataType(dtype) => type_text(dtype),
                TextQuery::Field(field) => format!("{}#{}", field.name, type_text(&field.dtype)),
                _ => "?".to_string(),
            };
            replies.record_text(q, reply);
        }
        Query::Field(q) => {
            let reply = match &q {
                FieldQuery::ToList(field) => Ok(Field::new(
                    &field.name,
                    DataType::List(Box::new(field.dtype.clone())),
                )),
                FieldQuery::Function(..) => Ok(Field::new("called", DataType::Utf8)),
                FieldQuery::ScalarFunction(func, _) => Err(DaftError::ValueError(format!(
                    "{} takes no such arguments",
                    func.name()
                ))),
            };
            replies.record_field(q, reply);
        }
        Query::Error(q) => {
            let reply = match &q {
                ErrorQuery::MissingColumn(name, schema) => missing(name, schema),
            };
            replies.record_error(q, reply);
        }
        Query::Sql(value) => replies.record_sql(value, None),
        Query::Columns(e) => replies.record_columns(e, vec![]),
    }
}

fn field_of(e: &Expr, schema: &Schema) -> DaftResult<Field> {
    let mut replies = Replies::new();
    loop {
        match e.try_to_field(schema, &replies) {
            Ok(field) => {
                assert_eq!(e.to_field(schema, &replies).unwrap(), field);
                return Ok(field);
            }
            Err(Halt::Error(error)) => return Err(error),
            Err(Halt::Ask(question)) => answer(question, &mut replies),
            Err(Halt::Undefined) => panic!("no type"),
        }
    }
}

fn type_of(e: &Expr, schema: &Schema) -> DaftResult<DataType> {
    let mut replies = Replies::new();
    loop {
        match e.try_to_field(schema, &replies) {
            Err(Halt::Ask(question)) => answer(question, &mut replies),
            Err(Halt::Error(error)) => return Err(error),
            Err(Halt::Undefined) => panic!("no type"),
            Ok(_) => return Ok(e.get_type(schema, &replies).unwrap()),
        }
    }
}

fn table() -> Schema {
    Schema::new(vec![
        Field::new("n", DataType::Int32),
        Field::new("x", DataType::Float64),
        Field::new("b", DataType::Boolean),
        Field::new("s", DataType::Utf8),
        Field::new("l", DataType::List(Box::new(DataType::Int32))),
        Field::new("p", DataType::Python),
        Field::new("st", DataType::Struct(vec![Field::new("m", DataType::Int8)])),
    ])
    .unwrap()
}

fn type_error<T>(text: &str) -> Result<T, DaftError> {
    Err(DaftError::TypeError(text.to_string()))
}

#[test]
fn check_comparison_type() -> DaftResult<()> {
    let x = float(10.);
    let y = number(12);
    let schema = Schema::empty();

    let z = Expr::BinaryOp {
        left: x,
        right: y,
        op: Operator::Lt,
    };
    assert_eq!(type_of(&z, &schema)?, DataType::Boolean);
    Ok(())
}

#[test]
fn check_alias_type() -> DaftResult<()> {
    let a = col("a");
    let b = a.alias("b");
    match &*b {
        Expr::Alias(..) => Ok(()),
        other => Err(DaftError::ValueError(format!(
            "expected expression to be a alias, got {other:?}"
        ))),
    }
}

#[test]
fn check_arithmetic_type() -> DaftResult<()> {
    let x = float(10.);
    let y = number(12);
    let schema = Schema::empty();

    let z = Expr::BinaryOp {
        left: x,
        right: y,
        op: Operator::Plus,
    };
    assert_eq!(type_of(&z, &schema)?, DataType::Float64);

    let x = float(10.);
    let y = number(12);

    let z = Expr::BinaryOp {
        left: y,
        right: x,
        op: Operator::Plus,
    };
    assert_eq!(type_of(&z, &schema)?, DataType::Float64);

    Ok(())
}

#[test]
fn check_arithmetic_type_with_columns() -> DaftResult<()> {
    let x = col("x");
    let y = col("y");
    let schema = Schema::new(vec![
        Field::new("x", DataType::Float64),
        Field::new("y", DataType::Int64),
    ])?;

    let z = Expr::BinaryOp {
        left: x,
        right: y,
        op: Operator::Plus,
    };
    assert_eq!(type_of(&z, &schema)?, DataType::Float64);

    let x = col("x");
    let y = col("y");

    let z = Expr::BinaryOp {
        left: y,
        right: x,
        op: Operator::Plus,
    };
    assert_eq!(type_of(&z, &schema)?, DataType::Float64);

    Ok(())
}

#[test]
fn columns_are_looked_up() {
    assert_eq!(
        field_of(&col("s"), &table()),
        Ok(Field::new("s", DataType::Utf8))
    );
    assert_eq!(
        field_of(&col("missing"), &table()),
        Err(DaftError::FieldNotFound(
            "no column missing beside 3".to_string()
        ))
    );
    assert_eq!(
        field_of(&col("missing"), &Schema::empty()),
        Err(DaftError::FieldNotFound(
            "no column missing beside 0".to_string()
        ))
    );
}

#[test]
fn schemas_refuse_a_repeated_name() {
    let twice = Schema::new(vec![
        Field::new("a", DataType::Int8),
        Field::new("b", DataType::Int8),
        Field::new("a", DataType::Utf8),
    ]);
    assert_eq!(
        twice,
        Err(DaftError::ValueError("duplicate field name: a".to_string()))
    );
    assert!(Schema::empty().get_field("a").is_none());
}

#[test]
fn aliases_rename_and_keep_the_type() {
    let e = col("n").alias("renamed");
    assert_eq!(
        field_of(&e, &table()),
        Ok(Field::new("renamed", DataType::Int32))
    );
}

#[test]
fn casts_and_null_tests_do_not_look_below() {
    let missing = col("missing");
    assert_eq!(
        field_of(&missing.clone().cast(&DataType::Utf8), &table()),
        Ok(Field::new("missing", DataType::Utf8))
    );
    assert_eq!(
        field_of(&missing.clone().is_null(), &table()),
        Ok(Field::new("missing", DataType::Boolean))
    );
    assert_eq!(
        field_of(&missing.not_null(), &table()),
        Ok(Field::new("missing", DataType::Boolean))
    );
}

#[test]
fn negation_wants_a_boolean() {
    assert_eq!(
        field_of(&col("b").not(), &table()),
        Ok(Field::new("b", DataType::Boolean))
    );
    assert_eq!(
        field_of(&col("n").not(), &table()),
        type_error("Expected argument to be a Boolean expression, but received n#Int32")
    );
}

#[test]
fn fill_null_takes_the_common_type() {
    assert_eq!(
        field_of(&col("n").fill_null(float(0.5)), &table()),
        Ok(Field::new("n", DataType::Float64))
    );
    assert_eq!(
        field_of(&col("n").fill_null(col("s")), &table()),
        type_error(
            "Expected expr and fill_value arguments for fill_null to be castable to the same supertype, but received n#Int32 and s#Utf8"
        )
    );
}

#[test]
fn membership_and_range_tests() {
    assert_eq!(
        field_of(&col("n").is_in(col("x")), &table()),
        Ok(Field::new("n", DataType::Boolean))
    );
    assert_eq!(
        field_of(&col("n").between(number(1), float(2.0)), &table()),
        Ok(Field::new("n", DataType::Boolean))
    );
    assert_eq!(
        field_of(&col("n").between(number(1), col("s")), &table()),
        type_error("no supertype of Int32 and Utf8")
    );
}

#[test]
fn operations_are_named_after_the_left_operand() {
    assert_eq!(
        field_of(&binary_op(Operator::TrueDivide, col("n"), col("x")), &table()),
        Ok(Field::new("n", DataType::Float64))
    );
    assert_eq!(
        field_of(&col("b").and(col("b").not()), &table()),
        Ok(Field::new("b", DataType::Boolean))
    );
    assert_eq!(
        field_of(&col("n").and(col("b")), &table()),
        type_error("not boolean")
    );
}

#[test]
fn the_first_error_counts() {
    let e = binary_op(Operator::Plus, col("first"), col("second"));
    assert_eq!(
        field_of(&e, &table()),
        Err(DaftError::FieldNotFound(
            "no column first beside 3".to_string()
        ))
    );
}

#[test]
fn floor_division_has_no_type() {
    let replies = Replies::new();
    let e = binary_op(Operator::FloorDivide, col("n"), col("x"));
    assert!(matches!(
        e.try_to_field(&table(), &replies),
        Err(Halt::Undefined)
    ));
}

#[test]
fn a_call_without_arguments_has_no_cast_type() {
    let replies = Replies::new();
    let call = Expr::Function {
        func: FunctionExpr::Other(1),
        inputs: vec![],
    };
    let e = call.arced().cast(&DataType::Utf8);
    assert!(matches!(
        e.try_to_field(&table(), &replies),
        Err(Halt::Undefined)
    ));
}

#[test]
fn conditionals() {
    assert_eq!(
        field_of(&col("b").if_else(col("n"), col("x")), &table()),
        Ok(Field::new("n", DataType::Float64))
    );
    assert_eq!(
        field_of(&col("n").if_else(col("n"), col("x")), &table()),
        type_error("Expected predicate for if_else to be boolean but received n#Int32")
    );
    assert_eq!(
        field_of(&col("b").if_else(col("n"), col("s")), &table()),
        type_error(
            "Expected if_true and if_false arguments for if_else to be castable to the same supertype, but received n#Int32 and s#Utf8"
        )
    );
}

#[test]
fn literal_conditions_choose() {
    assert_eq!(
        field_of(&truth(true).if_else(col("n"), col("s")), &table()),
        Ok(Field::new("n", DataType::Int32))
    );
    assert_eq!(
        field_of(&truth(false).if_else(col("n"), col("s")), &table()),
        Ok(Field::new("n", DataType::Utf8))
    );
    assert_eq!(
        field_of(&truth(true).if_else(col("n"), col("missing")), &table()),
        Ok(Field::new("n", DataType::Int32))
    );
}

#[test]
fn literals_are_called_literal() {
    assert_eq!(
        field_of(&number(3), &Schema::empty()),
        Ok(Field::new("literal", DataType::Int32))
    );
}

#[test]
fn counts_and_sums() {
    let table = table();
    assert_eq!(
        field_of(&col("s").count(CountMode::All), &table),
        Ok(Field::new("s", DataType::UInt64))
    );
    assert_eq!(
        field_of(&col("s").approx_count_distinct(), &table),
        Ok(Field::new("s", DataType::UInt64))
    );
    assert_eq!(
        field_of(&col("n").sum(), &table),
        Ok(Field::new("n", DataType::Int64))
    );
    assert_eq!(
        field_of(&col("n").mean(), &table),
        Ok(Field::new("n", DataType::Float64))
    );
    assert_eq!(field_of(&col("s").sum(), &table), type_error("Sum of Utf8"));
    assert_eq!(field_of(&col("s").mean(), &table), type_error("Mean of Utf8"));
}

#[test]
fn extremes_keep_the_field() {
    let table = table();
    let kept = Ok(Field::new("s", DataType::Utf8));
    assert_eq!(field_of(&col("s").min(), &table), kept);
    assert_eq!(field_of(&col("s").max(), &table), kept);
    assert_eq!(field_of(&col("s").any_value(true), &table), kept);
}

#[test]
fn percentiles_come_as_a_list_or_alone() {
    let table = table();
    let half = FloatWrapper { bits: 0.5f64.to_bits() };
    let most = FloatWrapper { bits: 0.9f64.to_bits() };
    assert_eq!(
        field_of(&col("n").approx_percentiles(&[half], false), &table),
        Ok(Field::new("n", DataType::Float64))
    );
    assert_eq!(
        field_of(&col("n").approx_percentiles(&[half], true), &table),
        Ok(Field::new(
            "n",
            DataType::FixedSizeList(Box::new(DataType::Float64), 1)
        ))
    );
    assert_eq!(
        field_of(&col("n").approx_percentiles(&[half, most], false), &table),
        Ok(Field::new(
            "n",
            DataType::FixedSizeList(Box::new(DataType::Float64), 2)
        ))
    );
    assert_eq!(
        field_of(&col("s").approx_percentiles(&[half], false), &table),
        type_error(
            "Expected input to approx_percentiles() to be numeric but received dtype Utf8 for column \"s\""
        )
    );
}

#[test]
fn sketches() {
    let table = table();
    let sketch = |name: &str, kind: SketchType| Expr::Agg(AggExpr::ApproxSketch(col(name), kind));
    let merge = |name: &str, kind: SketchType| Expr::Agg(AggExpr::MergeSketch(col(name), kind));
    assert_eq!(
        field_of(&sketch("n", SketchType::DDSketch), &table),
        Ok(Field::new("n", DataType::Struct(vec![])))
    );
    assert_eq!(
        field_of(&sketch("s", SketchType::DDSketch), &table),
        type_error(
            "Expected input to approx_sketch() to be numeric but received dtype Utf8 for column \"s\""
        )
    );
    assert_eq!(
        field_of(&sketch("s", SketchType::HyperLogLog), &table),
        Ok(Field::new(
            "s",
            DataType::Other("FixedSizeBinary".to_string())
        ))
    );
    assert_eq!(
        field_of(&merge("st", SketchType::DDSketch), &table),
        field_of(&col("st"), &table)
    );
    assert_eq!(
        field_of(&merge("n", SketchType::DDSketch), &table),
        type_error(
            "Expected input to merge_sketch() to be struct but received dtype Int32 for column \"n\""
        )
    );
    assert_eq!(
        field_of(&merge("n", SketchType::HyperLogLog), &table),
        Ok(Field::new("n", DataType::UInt64))
    );
}

#[test]
fn lists_and_their_concatenation() {
    let table = table();
    assert_eq!(
        field_of(&col("n").agg_list(), &table),
        Ok(Field::new("n", DataType::List(Box::new(DataType::Int32))))
    );
    assert_eq!(
        field_of(&col("l").agg_concat(), &table),
        field_of(&col("l"), &table)
    );
    assert_eq!(
        field_of(&col("p").agg_concat(), &table),
        Ok(Field::new("p", DataType::Python))
    );
    assert_eq!(
        field_of(&col("n").agg_concat(), &table),
        type_error(
            "We can only perform List Concat Agg on List or Python Types, got dtype Int32 for column \"n\""
        )
    );
}

#[test]
fn calls_are_typed_by_the_engine() {
    let table = table();
    let get = || FunctionExpr::Struct(StructExpr::Get("m".to_string()));
    let call = Expr::Function {
        func: get(),
        inputs: vec![col("st")],
    };
    assert_eq!(
        field_of(&call, &table),
        Ok(Field::new("called", DataType::Utf8))
    );
    let grouped = Expr::Agg(AggExpr::MapGroups {
        func: get(),
        inputs: vec![col("st")],
    });
    assert_eq!(
        field_of(&grouped, &table),
        Ok(Field::new("called", DataType::Utf8))
    );
    let scalar = Expr::ScalarFunction(ScalarFunction {
        udf: ScalarUDF {
            name: "abs".to_string(),
            handle: 7,
        },
        inputs: vec![col("s")],
    });
    assert_eq!(
        field_of(&scalar, &table),
        Err(DaftError::ValueError(
            "abs takes no such arguments".to_string()
        ))
    );
}

#[test]
fn typing_asks_and_then_stays() {
    let e = number(1).lt(float(2.0));
    let schema = Schema::empty();
    let mut replies = Replies::new();
    let mut asked = 0;
    while let Err(Halt::Ask(question)) = e.try_to_field(&schema, &replies) {
        asked += 1;
        answer(question, &mut replies);
    }
    assert_eq!(asked, 3);
    let decided = e.try_to_field(&schema, &replies).unwrap();
    answer(
        Query::Type(TypeQuery::Literal(LiteralValue::Null)),
        &mut replies,
    );
    assert_eq!(e.try_to_field(&schema, &replies).unwrap(), decided);
}

#[test]
fn types_are_asked_for_directly_too() {
    let e = number(1).lt(float(2.0));
    let mut replies = Replies::new();
    let dtype = loop {
        match e.try_get_type(&Schema::empty(), &replies) {
            Err(Halt::Ask(question)) => answer(question, &mut replies),
            other => break other.unwrap(),
        }
    };
    assert_eq!(dtype, DataType::Boolean);
    let floor = binary_op(Operator::FloorDivide, col("n"), col("x"));
    assert!(matches!(
        floor.try_get_type(&table(), &replies),
        Err(Halt::Undefined)
    ));
}

#[test]
fn aggregations_are_typed_alone_too() {
    let agg = AggExpr::Sum(col("x"));
    let mut replies = Replies::new();
    let field = loop {
        match agg.try_to_field(&table(), &replies) {
            Err(Halt::Ask(question)) => answer(question, &mut replies),
            other => break other.unwrap(),
        }
    };
    assert_eq!(field, Field::new("x", DataType::Float64));
    assert_eq!(agg.to_field(&table(), &replies).unwrap(), field);
    let shared: ExprRef = Arc::from(Expr::Agg(agg));
    assert_eq!(field_of(&shared, &table()), Ok(field));
}

#[test]
fn fields_have_the_names_of_their_expressions() {
    let table = table();
    let all = [
        col("n"),
        col("n").alias("z"),
        col("x").cast(&DataType::Utf8),
        col("b").not(),
        col("s").is_null(),
        col("n").fill_null(number(1)),
        col("n").is_in(col("x")),
        col("n").between(number(1), number(2)),
        col("x").lt(col("n")),
        col("b").if_else(col("n"), col("x")),
        truth(false).if_else(col("n").alias("t"), col("s")),
        col("n").sum(),
        col("l").agg_concat(),
        col("n").agg_list(),
        number(4),
    ];
    for e in all {
        assert_eq!(field_of(&e, &table).unwrap().name, e.name());
    }
}

#[test]
fn symmetric_rules_make_symmetric_operations() {
    let table = table();
    let one = binary_op(Operator::Multiply, col("n"), col("x"));
    let other = binary_op(Operator::Multiply, col("x"), col("n"));
    assert_eq!(type_of(&one, &table), type_of(&other, &table));
    assert_eq!(type_of(&one, &table), Ok(DataType::Float64));
}
