//! The fields that expressions compute: their names and types over a schema.
use vstd::prelude::*;
use vstd::string::*;

use crate::builders::operation;
use crate::datatypes::{DataType, DataTypeView, Field, FieldView, SchemaView};
use crate::error::{DaftError, DaftErrorView};
use crate::expr::{
    clone_refs, AggExpr, AggExprView, Expr, ExprView, ScalarFunctionView, SketchType,
};
use crate::functions::FunctionExprView;
use crate::lit::{LiteralValue, LiteralView};
use crate::naming::{agg_name_of, name_of};
use crate::operator::{combines_truths, compares, Operator};
use crate::query::{
    BinaryRule, ErrorQuery, ErrorQueryView, FieldQuery, FieldQueryView, FlagQuery, FlagQueryView,
    Halt, HaltView, RuleQuery, RuleQueryView, TextQuery, TextQueryView, TypeQuery, TypeQueryView,
    UnaryRule,
};
use crate::replies::{
    error_for, extends, field_for, flag_for, is_answered, result_view, rule_for, text_for, type_for,
    verdict_for, Replies, RepliesView,
};
use crate::schema::{law_lookup_finds_by_name, lookup, Schema};

verus! {

/// The typing rule of an operator; floor division has none.
pub open spec fn operator_rule(op: Operator) -> Option<BinaryRule> {
    match op {
        Operator::And | Operator::Or | Operator::Xor => Some(BinaryRule::Logical),
        Operator::Lt
        | Operator::Gt
        | Operator::Eq
        | Operator::NotEq
        | Operator::LtEq
        | Operator::GtEq => Some(BinaryRule::Comparison),
        Operator::Plus => Some(BinaryRule::Plus),
        Operator::Minus => Some(BinaryRule::Minus),
        Operator::Multiply => Some(BinaryRule::Multiply),
        Operator::TrueDivide => Some(BinaryRule::TrueDivide),
        Operator::Modulus => Some(BinaryRule::Modulus),
        Operator::ShiftLeft => Some(BinaryRule::ShiftLeft),
        Operator::ShiftRight => Some(BinaryRule::ShiftRight),
        Operator::FloorDivide => None,
    }
}

/// Stops with the type error that names a type and a column behind the given words.
pub open spec fn wrong_type(m: RepliesView, words: Seq<char>, field: FieldView) -> HaltView {
    match text_for(m, TextQueryView::DataType(field.dtype)) {
        Err(h) => h,
        Ok(dtype) => HaltView::Error(
            DaftErrorView::TypeError(
                words + dtype + " for column \""@ + field.name + "\""@,
            ),
        ),
    }
}

/// Stops with the type error that names a field behind the given words.
pub open spec fn wrong_field(m: RepliesView, words: Seq<char>, field: FieldView) -> HaltView {
    match text_for(m, TextQueryView::Field(field)) {
        Err(h) => h,
        Ok(text) => HaltView::Error(DaftErrorView::TypeError(words + text)),
    }
}

/// Stops with the type error that names two fields behind the given words.
pub open spec fn wrong_pair(
    m: RepliesView,
    words: Seq<char>,
    first: FieldView,
    second: FieldView,
) -> HaltView {
    match text_for(m, TextQueryView::Field(first)) {
        Err(h) => h,
        Ok(one) => match text_for(m, TextQueryView::Field(second)) {
            Err(h) => h,
            Ok(two) => HaltView::Error(DaftErrorView::TypeError(words + one + " and "@ + two)),
        },
    }
}

/// Stops with the engine's error for a column that the schema does not have.
pub open spec fn missing_column(m: RepliesView, name: Seq<char>, schema: SchemaView) -> HaltView {
    match error_for(m, ErrorQueryView::MissingColumn(name, schema)) {
        Ok(e) => HaltView::Error(e),
        Err(h) => h,
    }
}

/// The field of the given name and type.
pub open spec fn named(name: Seq<char>, dtype: DataTypeView) -> FieldView {
    FieldView { name, dtype }
}

/// The field of the given type under the name of an expression.
pub open spec fn named_after(e: ExprView, dtype: DataTypeView) -> Result<FieldView, HaltView> {
    match name_of(e) {
        Some(name) => Ok(named(name, dtype)),
        None => Err(HaltView::Undefined),
    }
}

/// The field of the given name and of the type that a rule finds for two types.
pub open spec fn ruled(
    m: RepliesView,
    name: Seq<char>,
    rule: BinaryRule,
    left: DataTypeView,
    right: DataTypeView,
) -> Result<FieldView, HaltView> {
    match rule_for(m, RuleQueryView::Binary(rule, left, right)) {
        Err(h) => Err(h),
        Ok(dtype) => Ok(named(name, dtype)),
    }
}

/// The field of the first field's name and of the type to which the types of both fields can be
/// cast; the error behind the given words where there is no such type.
pub open spec fn common(
    m: RepliesView,
    words: Seq<char>,
    first: FieldView,
    second: FieldView,
) -> Result<FieldView, HaltView> {
    match verdict_for(m, RuleQueryView::Binary(BinaryRule::Supertype, first.dtype, second.dtype)) {
        Err(h) => Err(h),
        Ok(Ok(dtype)) => Ok(named(first.name, dtype)),
        Ok(Err(_)) => Err(wrong_pair(m, words, first, second)),
    }
}

/// The field of a range test: both bounds must allow a membership test with the value, and the
/// two outcomes one with each other.
pub open spec fn range_test(
    m: RepliesView,
    value: FieldView,
    lower: FieldView,
    upper: FieldView,
) -> Result<FieldView, HaltView> {
    match rule_for(m, RuleQueryView::Binary(BinaryRule::Membership, value.dtype, lower.dtype)) {
        Err(h) => Err(h),
        Ok(above) => match rule_for(
            m,
            RuleQueryView::Binary(BinaryRule::Membership, value.dtype, upper.dtype),
        ) {
            Err(h) => Err(h),
            Ok(below) => ruled(m, value.name, BinaryRule::Membership, above, below),
        },
    }
}

/// The field that an expression computes over a schema, as far as the replies decide it.
pub open spec fn field_of(e: ExprView, schema: SchemaView, m: RepliesView) -> Result<
    FieldView,
    HaltView,
>
    decreases e,
{
    match e {
        ExprView::Alias(inner, name) => match field_of(*inner, schema, m) {
            Err(h) => Err(h),
            Ok(field) => Ok(named(name, field.dtype)),
        },
        ExprView::Agg(agg) => agg_field_of(agg, schema, m),
        ExprView::Cast(inner, dtype) => named_after(*inner, dtype),
        ExprView::Column(name) => match lookup(schema, name) {
            Some(field) => Ok(field),
            None => Err(missing_column(m, name, schema)),
        },
        ExprView::Not(inner) => match field_of(*inner, schema, m) {
            Err(h) => Err(h),
            Ok(field) => if field.dtype is Boolean {
                named_after(*inner, DataTypeView::Boolean)
            } else {
                Err(
                    wrong_field(
                        m,
                        "Expected argument to be a Boolean expression, but received "@,
                        field,
                    ),
                )
            },
        },
        ExprView::IsNull(inner) => named_after(*inner, DataTypeView::Boolean),
        ExprView::NotNull(inner) => named_after(*inner, DataTypeView::Boolean),
        ExprView::FillNull(inner, fill) => match field_of(*inner, schema, m) {
            Err(h) => Err(h),
            Ok(field) => match field_of(*fill, schema, m) {
                Err(h) => Err(h),
                Ok(fill_field) => common(
                    m,
                    "Expected expr and fill_value arguments for fill_null to be castable to the same supertype, but received "@,
                    field,
                    fill_field,
                ),
            },
        },
        ExprView::IsIn(inner, items) => match field_of(*inner, schema, m) {
            Err(h) => Err(h),
            Ok(field) => match field_of(*items, schema, m) {
                Err(h) => Err(h),
                Ok(items_field) => ruled(
                    m,
                    field.name,
                    BinaryRule::Membership,
                    field.dtype,
                    items_field.dtype,
                ),
            },
        },
        ExprView::Between(inner, lower, upper) => match field_of(*inner, schema, m) {
            Err(h) => Err(h),
            Ok(field) => match field_of(*lower, schema, m) {
                Err(h) => Err(h),
                Ok(lower_field) => match field_of(*upper, schema, m) {
                    Err(h) => Err(h),
                    Ok(upper_field) => range_test(m, field, lower_field, upper_field),
                },
            },
        },
        ExprView::Literal(value) => match type_for(m, TypeQueryView::Literal(value)) {
            Err(h) => Err(h),
            Ok(dtype) => Ok(named("literal"@, dtype)),
        },
        ExprView::Function { func, inputs } => field_for(
            m,
            FieldQueryView::Function(func, inputs, schema),
        ),
        ExprView::ScalarFunction(func) => field_for(
            m,
            FieldQueryView::ScalarFunction(func, schema),
        ),
        ExprView::BinaryOp { op, left, right } => match field_of(*left, schema, m) {
            Err(h) => Err(h),
            Ok(left_field) => match field_of(*right, schema, m) {
                Err(h) => Err(h),
                Ok(right_field) => match operator_rule(op) {
                    None => Err(HaltView::Undefined),
                    Some(rule) => ruled(
                        m,
                        left_field.name,
                        rule,
                        left_field.dtype,
                        right_field.dtype,
                    ),
                },
            },
        },
        ExprView::IfElse { if_true, if_false, predicate } => match field_of(*predicate, schema, m) {
            Err(h) => Err(h),
            Ok(condition) => if !(condition.dtype is Boolean) {
                Err(
                    wrong_field(
                        m,
                        "Expected predicate for if_else to be boolean but received "@,
                        condition,
                    ),
                )
            } else if *predicate == ExprView::Literal(LiteralView::Boolean(true)) {
                field_of(*if_true, schema, m)
            } else if *predicate == ExprView::Literal(LiteralView::Boolean(false)) {
                match field_of(*if_false, schema, m) {
                    Err(h) => Err(h),
                    Ok(field) => named_after(*if_true, field.dtype),
                }
            } else {
                match field_of(*if_true, schema, m) {
                    Err(h) => Err(h),
                    Ok(true_field) => match field_of(*if_false, schema, m) {
                        Err(h) => Err(h),
                        Ok(false_field) => common(
                            m,
                            "Expected if_true and if_false arguments for if_else to be castable to the same supertype, but received "@,
                            true_field,
                            false_field,
                        ),
                    },
                }
            },
        },
    }
}

/// The type of an approximate percentile aggregation over a numeric column.
pub open spec fn percentiles_type(count: nat, force_list_output: bool) -> DataTypeView {
    if count > 1 || force_list_output {
        DataTypeView::FixedSizeList(Box::new(DataTypeView::Float64), count as usize)
    } else {
        DataTypeView::Float64
    }
}

/// The field that an aggregation computes, given the field of what it aggregates. An aggregation
/// by function does not come here.
pub open spec fn aggregated(
    agg: AggExprView,
    field: FieldView,
    m: RepliesView,
) -> Result<FieldView, HaltView> {
    match agg {
        AggExprView::Count(..) | AggExprView::ApproxCountDistinct(_) => Ok(
            named(field.name, DataTypeView::UInt64),
        ),
        AggExprView::Sum(_) => match rule_for(
            m,
            RuleQueryView::Unary(UnaryRule::Sum, field.dtype),
        ) {
            Err(h) => Err(h),
            Ok(dtype) => Ok(named(field.name, dtype)),
        },
        AggExprView::ApproxPercentile { child: _, percentiles, force_list_output } => match flag_for(
            m,
            FlagQueryView::IsNumeric(field.dtype),
        ) {
            Err(h) => Err(h),
            Ok(numeric) => if numeric {
                Ok(named(field.name, percentiles_type(percentiles.len(), force_list_output)))
            } else {
                Err(
                    wrong_type(
                        m,
                        "Expected input to approx_percentiles() to be numeric but received dtype "@,
                        field,
                    ),
                )
            },
        },
        AggExprView::ApproxSketch(_, SketchType::DDSketch) => match flag_for(
            m,
            FlagQueryView::IsNumeric(field.dtype),
        ) {
            Err(h) => Err(h),
            Ok(numeric) => if numeric {
                match type_for(m, TypeQueryView::DDSketch) {
                    Err(h) => Err(h),
                    Ok(dtype) => Ok(named(field.name, dtype)),
                }
            } else {
                Err(
                    wrong_type(
                        m,
                        "Expected input to approx_sketch() to be numeric but received dtype "@,
                        field,
                    ),
                )
            },
        },
        AggExprView::ApproxSketch(_, SketchType::HyperLogLog) => match type_for(
            m,
            TypeQueryView::HyperLogLog,
        ) {
            Err(h) => Err(h),
            Ok(dtype) => Ok(named(field.name, dtype)),
        },
        AggExprView::MergeSketch(_, SketchType::DDSketch) => if field.dtype is Struct {
            Ok(field)
        } else {
            Err(
                wrong_type(
                    m,
                    "Expected input to merge_sketch() to be struct but received dtype "@,
                    field,
                ),
            )
        },
        AggExprView::MergeSketch(_, SketchType::HyperLogLog) => Ok(
            named(field.name, DataTypeView::UInt64),
        ),
        AggExprView::Mean(_) => match rule_for(
            m,
            RuleQueryView::Unary(UnaryRule::Mean, field.dtype),
        ) {
            Err(h) => Err(h),
            Ok(dtype) => Ok(named(field.name, dtype)),
        },
        AggExprView::Min(_) | AggExprView::Max(_) | AggExprView::AnyValue(..) => Ok(field),
        AggExprView::List(_) => field_for(m, FieldQueryView::ToList(field)),
        AggExprView::Concat(_) => if field.dtype is List || field.dtype is Python {
            Ok(field)
        } else {
            Err(
                wrong_type(
                    m,
                    "We can only perform List Concat Agg on List or Python Types, got dtype "@,
                    field,
                ),
            )
        },
        AggExprView::MapGroups { .. } => Err(HaltView::Undefined),
    }
}

/// What an aggregation aggregates; none for an aggregation by function.
pub open spec fn aggregand(agg: AggExprView) -> Option<ExprView> {
    match agg {
        AggExprView::Count(e, _) => Some(*e),
        AggExprView::Sum(e) => Some(*e),
        AggExprView::ApproxPercentile { child, .. } => Some(*child),
        AggExprView::ApproxCountDistinct(e) => Some(*e),
        AggExprView::ApproxSketch(e, _) => Some(*e),
        AggExprView::MergeSketch(e, _) => Some(*e),
        AggExprView::Mean(e) => Some(*e),
        AggExprView::Min(e) => Some(*e),
        AggExprView::Max(e) => Some(*e),
        AggExprView::AnyValue(e, _) => Some(*e),
        AggExprView::List(e) => Some(*e),
        AggExprView::Concat(e) => Some(*e),
        AggExprView::MapGroups { .. } => None,
    }
}

/// The field that an aggregation computes over a schema, as far as the replies decide it.
pub open spec fn agg_field_of(agg: AggExprView, schema: SchemaView, m: RepliesView) -> Result<
    FieldView,
    HaltView,
>
    decreases agg,
{
    match agg {
        AggExprView::MapGroups { func, inputs } => field_for(
            m,
            FieldQueryView::Function(func, inputs, schema),
        ),
        _ => match aggregand(agg) {
            Some(e) => match field_of(e, schema, m) {
                Err(h) => Err(h),
                Ok(field) => aggregated(agg, field, m),
            },
            None => Err(HaltView::Undefined),
        },
    }
}

/// The typing rule of an operator.
fn rule_of(op: Operator) -> (rule: Option<BinaryRule>)
    ensures
        rule == operator_rule(op),
{
    match op {
        Operator::And | Operator::Or | Operator::Xor => Some(BinaryRule::Logical),
        Operator::Lt
        | Operator::Gt
        | Operator::Eq
        | Operator::NotEq
        | Operator::LtEq
        | Operator::GtEq => Some(BinaryRule::Comparison),
        Operator::Plus => Some(BinaryRule::Plus),
        Operator::Minus => Some(BinaryRule::Minus),
        Operator::Multiply => Some(BinaryRule::Multiply),
        Operator::TrueDivide => Some(BinaryRule::TrueDivide),
        Operator::Modulus => Some(BinaryRule::Modulus),
        Operator::ShiftLeft => Some(BinaryRule::ShiftLeft),
        Operator::ShiftRight => Some(BinaryRule::ShiftRight),
        Operator::FloorDivide => None,
    }
}

impl Replies {
    /// The type error that names a type and a column.
    fn wrong_type(&self, words: &str, field: &Field) -> (halt: Halt)
        ensures
            halt@ == wrong_type(self@, words@, field@),
    {
        match self.text(TextQuery::DataType(field.dtype.clone())) {
            Err(h) => h,
            Ok(dtype) => {
                let mut text = words.to_owned();
                text.append(dtype.as_str());
                text.append(" for column \"");
                text.append(field.name.as_str());
                text.append("\"");
                Halt::Error(DaftError::TypeError(text))
            },
        }
    }

    /// The type error that names a field.
    fn wrong_field(&self, words: &str, field: &Field) -> (halt: Halt)
        ensures
            halt@ == wrong_field(self@, words@, field@),
    {
        match self.text(TextQuery::Field(field.clone())) {
            Err(h) => h,
            Ok(shown) => {
                let mut text = words.to_owned();
                text.append(shown.as_str());
                Halt::Error(DaftError::TypeError(text))
            },
        }
    }

    /// The type error that names two fields.
    fn wrong_pair(&self, words: &str, first: &Field, second: &Field) -> (halt: Halt)
        ensures
            halt@ == wrong_pair(self@, words@, first@, second@),
    {
        match self.text(TextQuery::Field(first.clone())) {
            Err(h) => h,
            Ok(one) => match self.text(TextQuery::Field(second.clone())) {
                Err(h) => h,
                Ok(two) => {
                    let mut text = words.to_owned();
                    text.append(one.as_str());
                    text.append(" and ");
                    text.append(two.as_str());
                    Halt::Error(DaftError::TypeError(text))
                },
            },
        }
    }

    /// The engine's error for a column that the schema does not have.
    fn missing_column(&self, name: &str, schema: &Schema) -> (halt: Halt)
        ensures
            halt@ == missing_column(self@, name@, schema@),
    {
        match self.error(ErrorQuery::MissingColumn(name.to_owned(), schema.clone())) {
            Ok(e) => Halt::Error(e),
            Err(h) => h,
        }
    }

    /// The type that a rule finds for two types.
    fn combined(&self, rule: BinaryRule, left: &DataType, right: &DataType) -> (dtype: Result<
        DataType,
        Halt,
    >)
        ensures
            result_view(dtype) == rule_for(self@, RuleQueryView::Binary(rule, left@, right@)),
    {
        self.rule(RuleQuery::Binary(rule, left.clone(), right.clone()))
    }

    /// The field of the type to which the types of both fields can be cast.
    fn common(&self, words: &str, first: &Field, second: &Field) -> (field: Result<Field, Halt>)
        ensures
            result_view(field) == common(self@, words@, first@, second@),
    {
        match self.verdict(
            RuleQuery::Binary(BinaryRule::Supertype, first.dtype.clone(), second.dtype.clone()),
        ) {
            Err(h) => Err(h),
            Ok(Ok(dtype)) => Ok(Field::new(first.name.as_str(), dtype)),
            Ok(Err(_)) => Err(self.wrong_pair(words, first, second)),
        }
    }

    /// The field of a range test.
    fn range_test(&self, value: &Field, lower: &Field, upper: &Field) -> (field: Result<
        Field,
        Halt,
    >)
        ensures
            result_view(field) == range_test(self@, value@, lower@, upper@),
    {
        let above = self.combined(BinaryRule::Membership, &value.dtype, &lower.dtype)?;
        let below = self.combined(BinaryRule::Membership, &value.dtype, &upper.dtype)?;
        let dtype = self.combined(BinaryRule::Membership, &above, &below)?;
        Ok(Field::new(value.name.as_str(), dtype))
    }
}

/// The field of the given type under the name of an expression.
fn field_named_after(e: &Expr, dtype: DataType) -> (field: Result<Field, Halt>)
    ensures
        result_view(field) == named_after(e@, dtype@),
{
    match e.try_name() {
        Some(name) => Ok(Field::new(name, dtype)),
        None => Err(Halt::Undefined),
    }
}

impl AggExpr {
    /// The field that the aggregation computes, given the field of what it aggregates.
    fn aggregate(&self, field: Field, replies: &Replies) -> (result: Result<Field, Halt>)
        ensures
            result_view(result) == aggregated(self@, field@, replies@),
    {
        match self {
            AggExpr::Count(..) => Ok(Field::new(field.name.as_str(), DataType::UInt64)),
            AggExpr::ApproxCountDistinct(_) => Ok(
                Field::new(field.name.as_str(), DataType::UInt64),
            ),
            AggExpr::Sum(_) => {
                let dtype = replies.rule(RuleQuery::Unary(UnaryRule::Sum, field.dtype.clone()))?;
                Ok(Field::new(field.name.as_str(), dtype))
            },
            AggExpr::ApproxPercentile(params) => {
                if replies.flag(FlagQuery::IsNumeric(field.dtype.clone()))? {
                    let item = DataType::Float64;
                    assert(item@ == DataTypeView::Float64);
                    let dtype = if params.percentiles.len() > 1 || params.force_list_output {
                        DataType::FixedSizeList(Box::new(item), params.percentiles.len())
                    } else {
                        item
                    };
                    Ok(Field::new(field.name.as_str(), dtype))
                } else {
                    Err(
                        replies.wrong_type(
                            "Expected input to approx_percentiles() to be numeric but received dtype ",
                            &field,
                        ),
                    )
                }
            },
            AggExpr::ApproxSketch(_, SketchType::DDSketch) => {
                if replies.flag(FlagQuery::IsNumeric(field.dtype.clone()))? {
                    let dtype = replies.data_type(TypeQuery::DDSketch)?;
                    Ok(Field::new(field.name.as_str(), dtype))
                } else {
                    Err(
                        replies.wrong_type(
                            "Expected input to approx_sketch() to be numeric but received dtype ",
                            &field,
                        ),
                    )
                }
            },
            AggExpr::ApproxSketch(_, SketchType::HyperLogLog) => {
                let dtype = replies.data_type(TypeQuery::HyperLogLog)?;
                Ok(Field::new(field.name.as_str(), dtype))
            },
            AggExpr::MergeSketch(_, SketchType::DDSketch) => {
                if let DataType::Struct(..) = field.dtype {
                    Ok(field)
                } else {
                    Err(
                        replies.wrong_type(
                            "Expected input to merge_sketch() to be struct but received dtype ",
                            &field,
                        ),
                    )
                }
            },
            AggExpr::MergeSketch(_, SketchType::HyperLogLog) => Ok(
                Field::new(field.name.as_str(), DataType::UInt64),
            ),
            AggExpr::Mean(_) => {
                let dtype = replies.rule(RuleQuery::Unary(UnaryRule::Mean, field.dtype.clone()))?;
                Ok(Field::new(field.name.as_str(), dtype))
            },
            AggExpr::Min(_) | AggExpr::Max(_) | AggExpr::AnyValue(_, _) => Ok(field),
            AggExpr::List(_) => replies.field(FieldQuery::ToList(field)),
            AggExpr::Concat(_) => match field.dtype {
                DataType::List(..) | DataType::Python => Ok(field),
                _ => Err(
                    replies.wrong_type(
                        "We can only perform List Concat Agg on List or Python Types, got dtype ",
                        &field,
                    ),
                ),
            },
            AggExpr::MapGroups { .. } => Err(Halt::Undefined),
        }
    }

    /// The field that the aggregation computes over a schema; `Halt::Undefined` where it has none.
    pub fn try_to_field(&self, schema: &Schema, replies: &Replies) -> (field: Result<Field, Halt>)
        ensures
            result_view(field) == agg_field_of(self@, schema@, replies@),
        decreases self,
    {
        let child = match self {
            AggExpr::Count(e, _) => e,
            AggExpr::Sum(e) => e,
            AggExpr::ApproxPercentile(params) => &params.child,
            AggExpr::ApproxCountDistinct(e) => e,
            AggExpr::ApproxSketch(e, _) => e,
            AggExpr::MergeSketch(e, _) => e,
            AggExpr::Mean(e) => e,
            AggExpr::Min(e) => e,
            AggExpr::Max(e) => e,
            AggExpr::AnyValue(e, _) => e,
            AggExpr::List(e) => e,
            AggExpr::Concat(e) => e,
            AggExpr::MapGroups { func, inputs } => {
                return replies.field(
                    FieldQuery::Function(
                        func.clone(),
                        clone_refs(inputs.as_slice()),
                        schema.clone(),
                    ),
                );
            },
        };
        proof {
            assert(aggregand(self@) == Some((**child)@));
        }
        let field = child.try_to_field(schema, replies)?;
        self.aggregate(field, replies)
    }

    /// The field that the aggregation computes over a schema.
    pub fn to_field(&self, schema: &Schema, replies: &Replies) -> (field: Result<Field, Halt>)
        requires
            agg_field_of(self@, schema@, replies@) != Err::<FieldView, HaltView>(
                HaltView::Undefined,
            ),
        ensures
            result_view(field) == agg_field_of(self@, schema@, replies@),
    {
        self.try_to_field(schema, replies)
    }
}

impl Expr {
    /// The field that the expression computes over a schema; `Halt::Undefined` where it has none.
    pub fn try_to_field(&self, schema: &Schema, replies: &Replies) -> (field: Result<Field, Halt>)
        ensures
            result_view(field) == field_of(self@, schema@, replies@),
        decreases self,
    {
        match self {
            Expr::Alias(inner, name) => {
                let field = inner.try_to_field(schema, replies)?;
                Ok(Field::new(&**name, field.dtype))
            },
            Expr::Agg(agg) => agg.try_to_field(schema, replies),
            Expr::Cast(inner, dtype) => field_named_after(inner, dtype.clone()),
            Expr::Column(name) => match schema.get_field(&**name) {
                Some(field) => Ok(field.clone()),
                None => Err(replies.missing_column(&**name, schema)),
            },
            Expr::Not(inner) => {
                let field = inner.try_to_field(schema, replies)?;
                match field.dtype {
                    DataType::Boolean => field_named_after(inner, DataType::Boolean),
                    _ => Err(
                        replies.wrong_field(
                            "Expected argument to be a Boolean expression, but received ",
                            &field,
                        ),
                    ),
                }
            },
            Expr::IsNull(inner) => field_named_after(inner, DataType::Boolean),
            Expr::NotNull(inner) => field_named_after(inner, DataType::Boolean),
            Expr::FillNull(inner, fill) => {
                let field = inner.try_to_field(schema, replies)?;
                let fill_field = fill.try_to_field(schema, replies)?;
                replies.common(
                    "Expected expr and fill_value arguments for fill_null to be castable to the same supertype, but received ",
                    &field,
                    &fill_field,
                )
            },
            Expr::IsIn(inner, items) => {
                let field = inner.try_to_field(schema, replies)?;
                let items_field = items.try_to_field(schema, replies)?;
                let dtype = replies.combined(
                    BinaryRule::Membership,
                    &field.dtype,
                    &items_field.dtype,
                )?;
                Ok(Field::new(field.name.as_str(), dtype))
            },
            Expr::Between(inner, lower, upper) => {
                let field = inner.try_to_field(schema, replies)?;
                let lower_field = lower.try_to_field(schema, replies)?;
                let upper_field = upper.try_to_field(schema, replies)?;
                replies.range_test(&field, &lower_field, &upper_field)
            },
            Expr::Literal(value) => {
                let dtype = replies.data_type(TypeQuery::Literal(value.clone()))?;
                Ok(Field::new("literal", dtype))
            },
            Expr::Function { func, inputs } => replies.field(
                FieldQuery::Function(func.clone(), clone_refs(inputs.as_slice()), schema.clone()),
            ),
            Expr::ScalarFunction(func) => replies.field(
                FieldQuery::ScalarFunction(func.clone(), schema.clone()),
            ),
            Expr::BinaryOp { op, left, right } => {
                let left_field = left.try_to_field(schema, replies)?;
                let right_field = right.try_to_field(schema, replies)?;
                match rule_of(*op) {
                    None => Err(Halt::Undefined),
                    Some(rule) => {
                        let dtype = replies.combined(rule, &left_field.dtype, &right_field.dtype)?;
                        Ok(Field::new(left_field.name.as_str(), dtype))
                    },
                }
            },
            Expr::IfElse { if_true, if_false, predicate } => {
                let condition = predicate.try_to_field(schema, replies)?;
                match condition.dtype {
                    DataType::Boolean => {},
                    _ => {
                        return Err(
                            replies.wrong_field(
                                "Expected predicate for if_else to be boolean but received ",
                                &condition,
                            ),
                        );
                    },
                }
                match &**predicate {
                    Expr::Literal(LiteralValue::Boolean(true)) => if_true.try_to_field(
                        schema,
                        replies,
                    ),
                    Expr::Literal(LiteralValue::Boolean(false)) => {
                        let field = if_false.try_to_field(schema, replies)?;
                        match if_true.try_name() {
                            Some(name) => Ok(field.rename(name)),
                            None => Err(Halt::Undefined),
                        }
                    },
                    _ => {
                        let true_field = if_true.try_to_field(schema, replies)?;
                        let false_field = if_false.try_to_field(schema, replies)?;
                        replies.common(
                            "Expected if_true and if_false arguments for if_else to be castable to the same supertype, but received ",
                            &true_field,
                            &false_field,
                        )
                    },
                }
            },
        }
    }

    /// The field that the expression computes over a schema.
    pub fn to_field(&self, schema: &Schema, replies: &Replies) -> (field: Result<Field, Halt>)
        requires
            field_of(self@, schema@, replies@) != Err::<FieldView, HaltView>(HaltView::Undefined),
        ensures
            result_view(field) == field_of(self@, schema@, replies@),
    {
        self.try_to_field(schema, replies)
    }

    /// The type of what the expression computes over a schema; `Halt::Undefined` where it has none.
    pub fn try_get_type(&self, schema: &Schema, replies: &Replies) -> (dtype: Result<
        DataType,
        Halt,
    >)
        ensures
            result_view(dtype) == type_of(self@, schema@, replies@),
    {
        let field = self.try_to_field(schema, replies)?;
        Ok(field.dtype)
    }

    /// The type of what the expression computes over a schema.
    pub fn get_type(&self, schema: &Schema, replies: &Replies) -> (dtype: Result<DataType, Halt>)
        requires
            field_of(self@, schema@, replies@) != Err::<FieldView, HaltView>(HaltView::Undefined),
        ensures
            result_view(dtype) == type_of(self@, schema@, replies@),
    {
        self.try_get_type(schema, replies)
    }
}

/// The type of what an expression computes over a schema.
pub open spec fn type_of(e: ExprView, schema: SchemaView, m: RepliesView) -> Result<
    DataTypeView,
    HaltView,
> {
    match field_of(e, schema, m) {
        Ok(field) => Ok(field.dtype),
        Err(h) => Err(h),
    }
}

/// Law: floor division alone has no typing rule, and the operators that yield truth values are
/// those under the rules for comparisons and for logical operations.
pub proof fn law_rules_of_operators(op: Operator)
    ensures
        operator_rule(op) is None <==> op is FloorDivide,
        compares(op) <==> operator_rule(op) == Some(BinaryRule::Comparison),
        combines_truths(op) <==> operator_rule(op) == Some(BinaryRule::Logical),
{
}

/// Law: more replies do not change a field that is already decided, nor an error.
pub proof fn law_field_stays(e: ExprView, schema: SchemaView, m: RepliesView, more: RepliesView)
    requires
        extends(more, m),
    ensures
        field_of(e, schema, m) matches Err(HaltView::Ask(_)) || field_of(e, schema, more)
            == field_of(e, schema, m),
    decreases e, 0int,
{
    match e {
        ExprView::Alias(inner, _) | ExprView::Not(inner) => {
            law_field_stays(*inner, schema, m, more);
        },
        ExprView::FillNull(inner, other)
        | ExprView::IsIn(inner, other)
        | ExprView::BinaryOp { op: _, left: inner, right: other } => {
            law_field_stays(*inner, schema, m, more);
            law_field_stays(*other, schema, m, more);
        },
        ExprView::Between(inner, lower, upper) => {
            law_field_stays(*inner, schema, m, more);
            law_field_stays(*lower, schema, m, more);
            law_field_stays(*upper, schema, m, more);
        },
        ExprView::IfElse { if_true, if_false, predicate } => {
            law_field_stays(*if_true, schema, m, more);
            law_field_stays(*if_false, schema, m, more);
            law_field_stays(*predicate, schema, m, more);
        },
        ExprView::Agg(agg) => {
            law_agg_field_stays(agg, schema, m, more);
        },
        _ => {},
    }
}

/// Law: more replies do not change the field of an aggregation that is already decided, nor an
/// error.
pub proof fn law_agg_field_stays(
    agg: AggExprView,
    schema: SchemaView,
    m: RepliesView,
    more: RepliesView,
)
    requires
        extends(more, m),
    ensures
        agg_field_of(agg, schema, m) matches Err(HaltView::Ask(_)) || agg_field_of(
            agg,
            schema,
            more,
        ) == agg_field_of(agg, schema, m),
    decreases agg, 0int,
{
    if let Some(child) = aggregand(agg) {
        law_field_stays(child, schema, m, more);
    }
}

/// Law: typing an expression asks only what has no reply yet.
pub proof fn law_field_asks_what_is_open(e: ExprView, schema: SchemaView, m: RepliesView)
    ensures
        field_of(e, schema, m) matches Err(HaltView::Ask(q)) ==> !is_answered(m, q),
    decreases e, 0int,
{
    match e {
        ExprView::Alias(inner, _) | ExprView::Not(inner) => {
            law_field_asks_what_is_open(*inner, schema, m);
        },
        ExprView::FillNull(inner, other)
        | ExprView::IsIn(inner, other)
        | ExprView::BinaryOp { op: _, left: inner, right: other } => {
            law_field_asks_what_is_open(*inner, schema, m);
            law_field_asks_what_is_open(*other, schema, m);
        },
        ExprView::Between(inner, lower, upper) => {
            law_field_asks_what_is_open(*inner, schema, m);
            law_field_asks_what_is_open(*lower, schema, m);
            law_field_asks_what_is_open(*upper, schema, m);
        },
        ExprView::IfElse { if_true, if_false, predicate } => {
            law_field_asks_what_is_open(*if_true, schema, m);
            law_field_asks_what_is_open(*if_false, schema, m);
            law_field_asks_what_is_open(*predicate, schema, m);
        },
        ExprView::Agg(agg) => {
            law_agg_field_asks_what_is_open(agg, schema, m);
        },
        _ => {},
    }
}

/// Law: typing an aggregation asks only what has no reply yet.
pub proof fn law_agg_field_asks_what_is_open(
    agg: AggExprView,
    schema: SchemaView,
    m: RepliesView,
)
    ensures
        agg_field_of(agg, schema, m) matches Err(HaltView::Ask(q)) ==> !is_answered(m, q),
    decreases agg, 0int,
{
    if let Some(child) = aggregand(agg) {
        law_field_asks_what_is_open(child, schema, m);
    }
}

/// Law: an operation has the type that the rule of its operator finds for the types of its
/// operands.
pub proof fn law_operation_has_the_ruled_type(
    op: Operator,
    left: ExprView,
    right: ExprView,
    schema: SchemaView,
    m: RepliesView,
)
    requires
        operator_rule(op) is Some,
        type_of(left, schema, m) is Ok,
        type_of(right, schema, m) is Ok,
    ensures
        type_of(operation(op, left, right), schema, m) == rule_for(
            m,
            RuleQueryView::Binary(
                operator_rule(op)->0,
                type_of(left, schema, m)->Ok_0,
                type_of(right, schema, m)->Ok_0,
            ),
        ),
{
}

/// Law: where a rule finds one type for two types in either order, the operands of an operation
/// under that rule can change places without changing its type.
pub proof fn law_symmetric_rule_makes_symmetric_operation(
    op: Operator,
    left: ExprView,
    right: ExprView,
    schema: SchemaView,
    m: RepliesView,
)
    requires
        operator_rule(op) is Some,
        type_of(left, schema, m) is Ok,
        type_of(right, schema, m) is Ok,
        forall|a: DataTypeView, b: DataTypeView|
            #![trigger rule_for(m, RuleQueryView::Binary(operator_rule(op)->0, a, b))]
            rule_for(m, RuleQueryView::Binary(operator_rule(op)->0, a, b)) == rule_for(
                m,
                RuleQueryView::Binary(operator_rule(op)->0, b, a),
            ),
    ensures
        type_of(operation(op, left, right), schema, m) == type_of(
            operation(op, right, left),
            schema,
            m,
        ),
{
    law_operation_has_the_ruled_type(op, left, right, schema, m);
    law_operation_has_the_ruled_type(op, right, left, schema, m);
}

/// Law: where the engine answers every comparison with booleans, comparisons that have a type
/// are boolean.
pub proof fn law_comparisons_are_boolean(
    op: Operator,
    left: ExprView,
    right: ExprView,
    schema: SchemaView,
    m: RepliesView,
)
    requires
        compares(op),
        forall|a: DataTypeView, b: DataTypeView|
            #![trigger rule_for(m, RuleQueryView::Binary(BinaryRule::Comparison, a, b))]
            rule_for(m, RuleQueryView::Binary(BinaryRule::Comparison, a, b)) matches Ok(dtype)
                ==> dtype == DataTypeView::Boolean,
    ensures
        type_of(operation(op, left, right), schema, m) matches Ok(dtype) ==> dtype
            == DataTypeView::Boolean,
{
    if type_of(left, schema, m) is Ok && type_of(right, schema, m) is Ok {
        law_operation_has_the_ruled_type(op, left, right, schema, m);
    }
}

/// Law: an alias renames the field and keeps its type.
pub proof fn law_alias_renames(e: ExprView, name: Seq<char>, schema: SchemaView, m: RepliesView)
    ensures
        type_of(ExprView::Alias(Box::new(e), name), schema, m) == type_of(e, schema, m),
        field_of(ExprView::Alias(Box::new(e), name), schema, m) matches Ok(field) ==> field.name
            == name,
{
}

/// Law: a cast has the type that it names, whatever is cast.
pub proof fn law_cast_has_its_type(
    e: ExprView,
    dtype: DataTypeView,
    schema: SchemaView,
    m: RepliesView,
)
    requires
        name_of(e) is Some,
    ensures
        type_of(ExprView::Cast(Box::new(e), dtype), schema, m) == Ok::<DataTypeView, HaltView>(
            dtype,
        ),
{
}

/// Law: null tests are boolean, whatever is tested; a negation that has a type is boolean.
pub proof fn law_truth_tests_are_boolean(e: ExprView, schema: SchemaView, m: RepliesView)
    ensures
        name_of(e) is Some ==> type_of(ExprView::IsNull(Box::new(e)), schema, m) == Ok::<
            DataTypeView,
            HaltView,
        >(DataTypeView::Boolean),
        name_of(e) is Some ==> type_of(ExprView::NotNull(Box::new(e)), schema, m) == Ok::<
            DataTypeView,
            HaltView,
        >(DataTypeView::Boolean),
        type_of(ExprView::Not(Box::new(e)), schema, m) matches Ok(dtype) ==> dtype
            == DataTypeView::Boolean,
{
}

/// Whether the engine gives a list field the name of the field it was made from.
pub open spec fn lists_keep_names(m: RepliesView) -> bool {
    forall|field: FieldView|
        #![trigger m.fields[FieldQueryView::ToList(field)]]
        m.fields.contains_key(FieldQueryView::ToList(field)) ==> (m.fields[FieldQueryView::ToList(
            field,
        )] matches Ok(list) ==> list.name == field.name)
}

/// Whether the engine gives the field of a call the name of the call.
pub open spec fn calls_keep_names(m: RepliesView) -> bool {
    &&& forall|func: FunctionExprView, inputs: Seq<ExprView>, schema: SchemaView|
        #![trigger m.fields[FieldQueryView::Function(func, inputs, schema)]]
        m.fields.contains_key(FieldQueryView::Function(func, inputs, schema)) ==> (
        m.fields[FieldQueryView::Function(func, inputs, schema)] matches Ok(field) ==> name_of(
            ExprView::Function { func, inputs },
        ) == Some(field.name))
    &&& forall|func: ScalarFunctionView, schema: SchemaView|
        #![trigger m.fields[FieldQueryView::ScalarFunction(func, schema)]]
        m.fields.contains_key(FieldQueryView::ScalarFunction(func, schema)) ==> (
        m.fields[FieldQueryView::ScalarFunction(func, schema)] matches Ok(field) ==> name_of(
            ExprView::ScalarFunction(func),
        ) == Some(field.name))
}

/// Whether an expression holds no call: neither a function nor an aggregation by function.
pub open spec fn is_call_free(e: ExprView) -> bool
    decreases e,
{
    match e {
        ExprView::Column(_) | ExprView::Literal(_) => true,
        ExprView::Alias(inner, _) => is_call_free(*inner),
        ExprView::Cast(inner, _) => is_call_free(*inner),
        ExprView::Not(inner) => is_call_free(*inner),
        ExprView::IsNull(inner) => is_call_free(*inner),
        ExprView::NotNull(inner) => is_call_free(*inner),
        ExprView::FillNull(inner, fill) => is_call_free(*inner) && is_call_free(*fill),
        ExprView::IsIn(inner, items) => is_call_free(*inner) && is_call_free(*items),
        ExprView::Between(inner, lower, upper) => is_call_free(*inner) && is_call_free(*lower)
            && is_call_free(*upper),
        ExprView::BinaryOp { op: _, left, right } => is_call_free(*left) && is_call_free(*right),
        ExprView::IfElse { if_true, if_false, predicate } => is_call_free(*if_true)
            && is_call_free(*if_false) && is_call_free(*predicate),
        ExprView::Agg(agg) => agg_is_call_free(agg),
        ExprView::Function { .. } | ExprView::ScalarFunction(_) => false,
    }
}

/// Whether an aggregation is not one by function and holds no call.
pub open spec fn agg_is_call_free(agg: AggExprView) -> bool
    decreases agg,
{
    match agg {
        AggExprView::Count(e, _) => is_call_free(*e),
        AggExprView::Sum(e) => is_call_free(*e),
        AggExprView::ApproxPercentile { child, .. } => is_call_free(*child),
        AggExprView::ApproxCountDistinct(e) => is_call_free(*e),
        AggExprView::ApproxSketch(e, _) => is_call_free(*e),
        AggExprView::MergeSketch(e, _) => is_call_free(*e),
        AggExprView::Mean(e) => is_call_free(*e),
        AggExprView::Min(e) => is_call_free(*e),
        AggExprView::Max(e) => is_call_free(*e),
        AggExprView::AnyValue(e, _) => is_call_free(*e),
        AggExprView::List(e) => is_call_free(*e),
        AggExprView::Concat(e) => is_call_free(*e),
        AggExprView::MapGroups { .. } => false,
    }
}

/// Whether an expression takes its field from an aggregation into lists.
pub open spec fn takes_field_from_list(e: ExprView) -> bool
    decreases e,
{
    match e {
        ExprView::Agg(agg) => agg_takes_field_from_list(agg),
        ExprView::FillNull(inner, _) => takes_field_from_list(*inner),
        ExprView::IsIn(inner, _) => takes_field_from_list(*inner),
        ExprView::Between(inner, _, _) => takes_field_from_list(*inner),
        ExprView::BinaryOp { op: _, left, right: _ } => takes_field_from_list(*left),
        ExprView::IfElse { if_true, if_false: _, predicate: _ } => takes_field_from_list(*if_true),
        _ => false,
    }
}

/// Whether an aggregation takes its field from an aggregation into lists.
pub open spec fn agg_takes_field_from_list(agg: AggExprView) -> bool
    decreases agg,
{
    match agg {
        AggExprView::Count(e, _) => takes_field_from_list(*e),
        AggExprView::Sum(e) => takes_field_from_list(*e),
        AggExprView::ApproxPercentile { child, .. } => takes_field_from_list(*child),
        AggExprView::ApproxCountDistinct(e) => takes_field_from_list(*e),
        AggExprView::ApproxSketch(e, _) => takes_field_from_list(*e),
        AggExprView::MergeSketch(e, _) => takes_field_from_list(*e),
        AggExprView::Mean(e) => takes_field_from_list(*e),
        AggExprView::Min(e) => takes_field_from_list(*e),
        AggExprView::Max(e) => takes_field_from_list(*e),
        AggExprView::AnyValue(e, _) => takes_field_from_list(*e),
        AggExprView::List(_) => true,
        AggExprView::Concat(e) => takes_field_from_list(*e),
        AggExprView::MapGroups { .. } => false,
    }
}

/// Law: in an expression without calls the field has the name of the expression, whatever the
/// schema. Of the engine it needs only that lists keep names, and that only where the field
/// comes from an aggregation into lists.
pub proof fn law_call_free_field_has_the_name(e: ExprView, schema: SchemaView, m: RepliesView)
    requires
        takes_field_from_list(e) ==> lists_keep_names(m),
        is_call_free(e),
    ensures
        field_of(e, schema, m) matches Ok(field) ==> name_of(e) == Some(field.name),
    decreases e, 0int,
{
    match e {
        ExprView::Column(name) => {
            law_lookup_finds_by_name(schema, name);
        },
        ExprView::FillNull(inner, _)
        | ExprView::IsIn(inner, _)
        | ExprView::Between(inner, _, _)
        | ExprView::BinaryOp { op: _, left: inner, right: _ }
        | ExprView::IfElse { if_true: inner, if_false: _, predicate: _ } => {
            law_call_free_field_has_the_name(*inner, schema, m);
        },
        ExprView::Agg(agg) => {
            law_call_free_agg_field_has_the_name(agg, schema, m);
        },
        _ => {},
    }
}

/// Law: in an aggregation without calls the field has the name of the aggregation, whatever the
/// schema. Of the engine it needs only that lists keep names, and that only where the field
/// comes from an aggregation into lists.
pub proof fn law_call_free_agg_field_has_the_name(
    agg: AggExprView,
    schema: SchemaView,
    m: RepliesView,
)
    requires
        agg_takes_field_from_list(agg) ==> lists_keep_names(m),
        agg_is_call_free(agg),
    ensures
        agg_field_of(agg, schema, m) matches Ok(field) ==> agg_name_of(agg) == Some(field.name),
    decreases agg, 0int,
{
    if let Some(child) = aggregand(agg) {
        law_call_free_field_has_the_name(child, schema, m);
    }
}

/// Whether an expression takes its field from a struct access applied to groups. Such an
/// aggregation is named after its first argument, its field after the member.
pub open spec fn accesses_struct_by_group(e: ExprView) -> bool
    decreases e,
{
    match e {
        ExprView::Agg(agg) => agg_accesses_struct_by_group(agg),
        ExprView::FillNull(inner, _) => accesses_struct_by_group(*inner),
        ExprView::IsIn(inner, _) => accesses_struct_by_group(*inner),
        ExprView::Between(inner, _, _) => accesses_struct_by_group(*inner),
        ExprView::BinaryOp { op: _, left, right: _ } => accesses_struct_by_group(*left),
        ExprView::IfElse { if_true, if_false: _, predicate: _ } => accesses_struct_by_group(
            *if_true,
        ),
        _ => false,
    }
}

/// Whether an aggregation takes its field from a struct access applied to groups.
pub open spec fn agg_accesses_struct_by_group(agg: AggExprView) -> bool
    decreases agg,
{
    match agg {
        AggExprView::Count(e, _) => accesses_struct_by_group(*e),
        AggExprView::Sum(e) => accesses_struct_by_group(*e),
        AggExprView::ApproxPercentile { child, .. } => accesses_struct_by_group(*child),
        AggExprView::ApproxCountDistinct(e) => accesses_struct_by_group(*e),
        AggExprView::ApproxSketch(e, _) => accesses_struct_by_group(*e),
        AggExprView::MergeSketch(e, _) => accesses_struct_by_group(*e),
        AggExprView::Mean(e) => accesses_struct_by_group(*e),
        AggExprView::Min(e) => accesses_struct_by_group(*e),
        AggExprView::Max(e) => accesses_struct_by_group(*e),
        AggExprView::AnyValue(e, _) => accesses_struct_by_group(*e),
        AggExprView::List(e) => accesses_struct_by_group(*e),
        AggExprView::Concat(e) => accesses_struct_by_group(*e),
        AggExprView::MapGroups { func, inputs: _ } => func is StructGet,
    }
}

/// Law: the field that an expression computes has the name of the expression.
pub proof fn law_field_has_the_name(e: ExprView, schema: SchemaView, m: RepliesView)
    requires
        lists_keep_names(m),
        calls_keep_names(m),
        !accesses_struct_by_group(e),
    ensures
        field_of(e, schema, m) matches Ok(field) ==> name_of(e) == Some(field.name),
    decreases e, 0int,
{
    match e {
        ExprView::Column(name) => {
            law_lookup_finds_by_name(schema, name);
        },
        ExprView::FillNull(inner, _)
        | ExprView::IsIn(inner, _)
        | ExprView::Between(inner, _, _)
        | ExprView::BinaryOp { op: _, left: inner, right: _ }
        | ExprView::IfElse { if_true: inner, if_false: _, predicate: _ } => {
            law_field_has_the_name(*inner, schema, m);
        },
        ExprView::Agg(agg) => {
            law_agg_field_has_the_name(agg, schema, m);
        },
        _ => {},
    }
}

/// Law: the field that an aggregation computes has the name of the aggregation.
pub proof fn law_agg_field_has_the_name(agg: AggExprView, schema: SchemaView, m: RepliesView)
    requires
        lists_keep_names(m),
        calls_keep_names(m),
        !agg_accesses_struct_by_group(agg),
    ensures
        agg_field_of(agg, schema, m) matches Ok(field) ==> agg_name_of(agg) == Some(field.name),
    decreases agg, 0int,
{
    if let Some(child) = aggregand(agg) {
        law_field_has_the_name(child, schema, m);
    }
}

/// Whether the type of an expression is defined whatever the engine replies: every call has an
/// argument to be named after, and there is no floor division.
pub open spec fn is_regular(e: ExprView) -> bool
    decreases e,
{
    match e {
        ExprView::Column(_) | ExprView::Literal(_) => true,
        ExprView::Alias(inner, _) => is_regular(*inner),
        ExprView::Cast(inner, _) => is_regular(*inner),
        ExprView::Not(inner) => is_regular(*inner),
        ExprView::IsNull(inner) => is_regular(*inner),
        ExprView::NotNull(inner) => is_regular(*inner),
        ExprView::FillNull(inner, fill) => is_regular(*inner) && is_regular(*fill),
        ExprView::IsIn(inner, items) => is_regular(*inner) && is_regular(*items),
        ExprView::Between(inner, lower, upper) => is_regular(*inner) && is_regular(*lower)
            && is_regular(*upper),
        ExprView::BinaryOp { op, left, right } => !(op is FloorDivide) && is_regular(*left)
            && is_regular(*right),
        ExprView::IfElse { if_true, if_false, predicate } => is_regular(*if_true) && is_regular(
            *if_false,
        ) && is_regular(*predicate),
        ExprView::Agg(agg) => agg_is_regular(agg),
        ExprView::Function { func: _, inputs } => inputs.len() > 0 && is_regular(inputs[0]),
        ExprView::ScalarFunction(func) => func.inputs.len() > 0 && is_regular(func.inputs[0]),
    }
}

/// Whether the type of an aggregation is defined whatever the engine replies.
pub open spec fn agg_is_regular(agg: AggExprView) -> bool
    decreases agg,
{
    match agg {
        AggExprView::Count(e, _) => is_regular(*e),
        AggExprView::Sum(e) => is_regular(*e),
        AggExprView::ApproxPercentile { child, .. } => is_regular(*child),
        AggExprView::ApproxCountDistinct(e) => is_regular(*e),
        AggExprView::ApproxSketch(e, _) => is_regular(*e),
        AggExprView::MergeSketch(e, _) => is_regular(*e),
        AggExprView::Mean(e) => is_regular(*e),
        AggExprView::Min(e) => is_regular(*e),
        AggExprView::Max(e) => is_regular(*e),
        AggExprView::AnyValue(e, _) => is_regular(*e),
        AggExprView::List(e) => is_regular(*e),
        AggExprView::Concat(e) => is_regular(*e),
        AggExprView::MapGroups { func: _, inputs } => inputs.len() > 0 && is_regular(inputs[0]),
    }
}

/// Law: a regular expression has a name.
pub proof fn law_regular_has_a_name(e: ExprView)
    requires
        is_regular(e),
    ensures
        name_of(e) is Some,
    decreases e, 0int,
{
    match e {
        ExprView::Cast(inner, _)
        | ExprView::Not(inner)
        | ExprView::IsNull(inner)
        | ExprView::NotNull(inner)
        | ExprView::FillNull(inner, _)
        | ExprView::IsIn(inner, _)
        | ExprView::Between(inner, _, _)
        | ExprView::BinaryOp { op: _, left: inner, right: _ }
        | ExprView::IfElse { if_true: inner, if_false: _, predicate: _ } => {
            law_regular_has_a_name(*inner);
        },
        ExprView::Agg(agg) => {
            law_regular_agg_has_a_name(agg);
        },
        ExprView::Function { func: _, inputs } => {
            law_regular_has_a_name(inputs[0]);
        },
        ExprView::ScalarFunction(func) => {
            law_regular_has_a_name(func.inputs[0]);
        },
        _ => {},
    }
}

/// Law: a regular aggregation has a name.
pub proof fn law_regular_agg_has_a_name(agg: AggExprView)
    requires
        agg_is_regular(agg),
    ensures
        agg_name_of(agg) is Some,
    decreases agg, 0int,
{
    match agg {
        AggExprView::MapGroups { func: _, inputs } => {
            law_regular_has_a_name(inputs[0]);
        },
        _ => {
            law_regular_has_a_name(aggregand(agg)->0);
        },
    }
}

/// Law: typing a regular expression yields a field, an error or a question, whatever the engine
/// has replied.
pub proof fn law_regular_has_a_type(e: ExprView, schema: SchemaView, m: RepliesView)
    requires
        is_regular(e),
    ensures
        field_of(e, schema, m) != Err::<FieldView, HaltView>(HaltView::Undefined),
    decreases e, 0int,
{
    match e {
        ExprView::Alias(inner, _) => {
            law_regular_has_a_type(*inner, schema, m);
        },
        ExprView::Cast(inner, _)
        | ExprView::Not(inner)
        | ExprView::IsNull(inner)
        | ExprView::NotNull(inner) => {
            law_regular_has_a_name(*inner);
            law_regular_has_a_type(*inner, schema, m);
        },
        ExprView::FillNull(inner, other)
        | ExprView::IsIn(inner, other)
        | ExprView::BinaryOp { op: _, left: inner, right: other } => {
            law_regular_has_a_type(*inner, schema, m);
            law_regular_has_a_type(*other, schema, m);
        },
        ExprView::Between(inner, lower, upper) => {
            law_regular_has_a_type(*inner, schema, m);
            law_regular_has_a_type(*lower, schema, m);
            law_regular_has_a_type(*upper, schema, m);
        },
        ExprView::IfElse { if_true, if_false, predicate } => {
            law_regular_has_a_name(*if_true);
            law_regular_has_a_type(*if_true, schema, m);
            law_regular_has_a_type(*if_false, schema, m);
            law_regular_has_a_type(*predicate, schema, m);
        },
        ExprView::Agg(agg) => {
            law_regular_agg_has_a_type(agg, schema, m);
        },
        _ => {},
    }
}

/// Law: typing a regular aggregation yields a field, an error or a question, whatever the engine
/// has replied.
pub proof fn law_regular_agg_has_a_type(agg: AggExprView, schema: SchemaView, m: RepliesView)
    requires
        agg_is_regular(agg),
    ensures
        agg_field_of(agg, schema, m) != Err::<FieldView, HaltView>(HaltView::Undefined),
    decreases agg, 0int,
{
    if let Some(child) = aggregand(agg) {
        law_regular_has_a_type(child, schema, m);
    }
}

/// Law: the type of an expression that is chosen by a literal condition is that of the chosen
/// outcome, under the name of the first.
pub proof fn law_literal_condition_chooses(
    chosen: bool,
    if_true: ExprView,
    if_false: ExprView,
    schema: SchemaView,
    m: RepliesView,
)
    requires
        type_for(m, TypeQueryView::Literal(LiteralView::Boolean(chosen))) == Ok::<
            DataTypeView,
            HaltView,
        >(DataTypeView::Boolean),
        name_of(if_true) is Some,
    ensures
        type_of(
            ExprView::IfElse {
                if_true: Box::new(if_true),
                if_false: Box::new(if_false),
                predicate: Box::new(ExprView::Literal(LiteralView::Boolean(chosen))),
            },
            schema,
            m,
        ) == type_of(
            if chosen {
                if_true
            } else {
                if_false
            },
            schema,
            m,
        ),
{
    let predicate = ExprView::Literal(LiteralView::Boolean(chosen));
    assert(field_of(predicate, schema, m) == Ok::<FieldView, HaltView>(
        named("literal"@, DataTypeView::Boolean),
    ));
}

} // verus!
