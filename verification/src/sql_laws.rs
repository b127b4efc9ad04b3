//! What SQL says of each kind of expression, from the SQL of its parts and the replies of the
//! engine.
use vstd::prelude::*;
use vstd::utf8::{
    decode_utf8, decode_utf8_encode_utf8, encode_utf8, encode_utf8_decode_utf8,
    encode_utf8_valid_utf8, valid_utf8,
};

use crate::datatypes::DataTypeView;
use crate::expr::{AggExprView, ExprView, ScalarFunctionView};
use crate::functions::FunctionExprView;
use crate::lit::LiteralView;
use crate::operator::{law_operators_of_sql, sql_operator, Operator};
use crate::query::{HaltView, QueryView};
use crate::replies::RepliesView;
use crate::sql::{lemma_encode_concat, sql_of, sql_text_of};

verus! {

/// Law: the SQL bytes of a literal are the bytes that the engine writes for it, whatever the kind
/// of literal; it has none where the engine writes none, and the engine is asked where it has not
/// said.
pub proof fn law_sql_of_literal_is_what_the_engine_writes(value: LiteralView, m: RepliesView)
    ensures
        m.sql.contains_key(value) ==> sql_of(ExprView::Literal(value), m) == Ok::<
            Option<Seq<u8>>,
            HaltView,
        >(m.sql[value]),
        !m.sql.contains_key(value) ==> sql_of(ExprView::Literal(value), m) == Err::<
            Option<Seq<u8>>,
            HaltView,
        >(HaltView::Ask(QueryView::Sql(value))),
{
}

/// Law: a literal that the engine writes as a text has that text as its SQL.
pub proof fn law_sql_of_literal_text(value: LiteralView, text: Seq<char>, m: RepliesView)
    requires
        m.sql.contains_key(value),
        m.sql[value] == Some(encode_utf8(text)),
    ensures
        sql_text_of(ExprView::Literal(value), m) == Ok::<Option<Seq<char>>, HaltView>(Some(text)),
{
    broadcast use {encode_utf8_valid_utf8, encode_utf8_decode_utf8};

    law_sql_of_literal_is_what_the_engine_writes(value, m);
}

/// Law: literals that the engine writes differently stand differently beside the same column.
pub proof fn law_sql_tells_literals_apart(
    a: LiteralView,
    b: LiteralView,
    x: Seq<char>,
    y: Seq<char>,
    m: RepliesView,
)
    requires
        m.sql.contains_key(a),
        m.sql.contains_key(b),
        m.sql[a] == Some(encode_utf8(x)),
        m.sql[b] == Some(encode_utf8(y)),
        x != y,
    ensures
        sql_text_of(ExprView::Literal(a), m) != sql_text_of(ExprView::Literal(b), m),
{
    law_sql_of_literal_text(a, x, m);
    law_sql_of_literal_text(b, y, m);
}

/// Law: the SQL text is the text of the SQL bytes; bytes that are no text give none.
pub proof fn law_sql_text_is_that_of_the_bytes(e: ExprView, m: RepliesView)
    ensures
        sql_of(e, m) matches Ok(Some(bytes)) ==> sql_text_of(e, m) == Ok::<
            Option<Seq<char>>,
            HaltView,
        >(
            if valid_utf8(bytes) {
                Some(decode_utf8(bytes))
            } else {
                None
            },
        ),
        sql_of(e, m) matches Ok(None) ==> sql_text_of(e, m) == Ok::<Option<Seq<char>>, HaltView>(
            None,
        ),
        sql_of(e, m) matches Err(h) ==> sql_text_of(e, m) == Err::<Option<Seq<char>>, HaltView>(h),
{
}

/// Law: columns stand by their name and aliases do not show.
pub proof fn law_sql_bytes_of_column_and_alias(
    e: ExprView,
    name: Seq<char>,
    m: RepliesView,
)
    ensures
        sql_of(ExprView::Column(name), m) == Ok::<Option<Seq<u8>>, HaltView>(
            Some(encode_utf8(name)),
        ),
        sql_of(ExprView::Alias(Box::new(e), name), m) == sql_of(e, m),
{
}

/// Law: negations and null tests stand around what they apply to, and have no SQL where it has
/// none.
pub proof fn law_sql_of_one_part(e: ExprView, m: RepliesView)
    ensures
        match sql_of(e, m) {
            Ok(Some(bytes)) => {
                &&& sql_of(ExprView::Not(Box::new(e)), m) == Ok::<Option<Seq<u8>>, HaltView>(
                    Some(encode_utf8("NOT ("@) + bytes + encode_utf8(")"@)),
                )
                &&& sql_of(ExprView::IsNull(Box::new(e)), m) == Ok::<Option<Seq<u8>>, HaltView>(
                    Some(encode_utf8("("@) + bytes + encode_utf8(") IS NULL"@)),
                )
                &&& sql_of(ExprView::NotNull(Box::new(e)), m) == Ok::<Option<Seq<u8>>, HaltView>(
                    Some(encode_utf8("("@) + bytes + encode_utf8(") IS NOT NULL"@)),
                )
            },
            other => {
                &&& sql_of(ExprView::Not(Box::new(e)), m) == other
                &&& sql_of(ExprView::IsNull(Box::new(e)), m) == other
                &&& sql_of(ExprView::NotNull(Box::new(e)), m) == other
            },
        },
{
}

/// Law: an operation stands as its operands with the token of SQL between them; it has no SQL
/// where an operand has none or SQL has no such operator.
pub proof fn law_sql_bytes_of_operation(
    op: Operator,
    left: ExprView,
    right: ExprView,
    m: RepliesView,
)
    ensures
        ({
            let l = sql_of(left, m);
            let r = sql_of(right, m);
            let whole = sql_of(
                ExprView::BinaryOp { op, left: Box::new(left), right: Box::new(right) },
                m,
            );
            let nothing = Ok::<Option<Seq<u8>>, HaltView>(None);
            if l is Err {
                whole == l
            } else if l == nothing || sql_operator(op) is None {
                whole == nothing
            } else if !(r matches Ok(Some(_))) {
                whole == r
            } else {
                whole == Ok::<Option<Seq<u8>>, HaltView>(
                    Some(
                        l->Ok_0->0 + encode_utf8(" "@ + sql_operator(op)->0 + " "@) + r->Ok_0->0,
                    ),
                )
            }
        }),
{
}

/// Law: a conditional stands as predicate, first outcome and second outcome, each in its place,
/// and has no SQL where one of them has none; the first that has none decides.
pub proof fn law_sql_of_conditional(
    if_true: ExprView,
    if_false: ExprView,
    predicate: ExprView,
    m: RepliesView,
)
    ensures
        ({
            let p = sql_of(predicate, m);
            let t = sql_of(if_true, m);
            let f = sql_of(if_false, m);
            let whole = sql_of(
                ExprView::IfElse {
                    if_true: Box::new(if_true),
                    if_false: Box::new(if_false),
                    predicate: Box::new(predicate),
                },
                m,
            );
            if !(p matches Ok(Some(_))) {
                whole == p
            } else if !(t matches Ok(Some(_))) {
                whole == t
            } else if !(f matches Ok(Some(_))) {
                whole == f
            } else {
                whole == Ok::<Option<Seq<u8>>, HaltView>(
                    Some(
                        encode_utf8("CASE WHEN "@) + p->Ok_0->0 + encode_utf8(" THEN "@)
                            + t->Ok_0->0 + encode_utf8(" ELSE "@) + f->Ok_0->0 + encode_utf8(
                            " END"@,
                        ),
                    ),
                )
            }
        }),
{
    let p = sql_of(predicate, m);
    let t = sql_of(if_true, m);
    let f = sql_of(if_false, m);
    if p matches Ok(Some(_)) && t matches Ok(Some(_)) && f matches Ok(Some(_)) {
        let (x, y, z) = (p->Ok_0->0, t->Ok_0->0, f->Ok_0->0);
        let (a, b, c, d) = (
            encode_utf8("CASE WHEN "@),
            encode_utf8(" THEN "@),
            encode_utf8(" ELSE "@),
            encode_utf8(" END"@),
        );
        assert(a + x + b + y + c + z + d =~= a + (x + b + y + c + z) + d);
    }
}

/// Law: aggregations, casts, membership and range tests, filled expressions and calls have no SQL.
pub proof fn law_no_sql(
    agg: AggExprView,
    e: ExprView,
    other: ExprView,
    third: ExprView,
    dtype: DataTypeView,
    func: FunctionExprView,
    inputs: Seq<ExprView>,
    scalar: ScalarFunctionView,
    m: RepliesView,
)
    ensures
        ({
            let nothing = Ok::<Option<Seq<u8>>, HaltView>(None);
            &&& sql_of(ExprView::Agg(agg), m) == nothing
            &&& sql_of(ExprView::Cast(Box::new(e), dtype), m) == nothing
            &&& sql_of(ExprView::IsIn(Box::new(e), Box::new(other)), m) == nothing
            &&& sql_of(ExprView::Between(Box::new(e), Box::new(other), Box::new(third)), m)
                == nothing
            &&& sql_of(ExprView::FillNull(Box::new(e), Box::new(other)), m) == nothing
            &&& sql_of(ExprView::Function { func, inputs }, m) == nothing
            &&& sql_of(ExprView::ScalarFunction(scalar), m) == nothing
        }),
{
}

/// Law: a comparison of a column with a literal stands as the name, the token and the text that
/// the engine writes for the literal.
pub proof fn law_sql_of_column_against_literal(
    op: Operator,
    name: Seq<char>,
    value: LiteralView,
    text: Seq<char>,
    m: RepliesView,
)
    requires
        sql_operator(op) is Some,
        m.sql.contains_key(value),
        m.sql[value] == Some(encode_utf8(text)),
    ensures
        sql_text_of(
            ExprView::BinaryOp {
                op,
                left: Box::new(ExprView::Column(name)),
                right: Box::new(ExprView::Literal(value)),
            },
            m,
        ) == Ok::<Option<Seq<char>>, HaltView>(
            Some(name + (" "@ + sql_operator(op)->0 + " "@) + text),
        ),
{
    broadcast use {encode_utf8_valid_utf8, encode_utf8_decode_utf8, decode_utf8_encode_utf8};

    let (left, right) = (ExprView::Column(name), ExprView::Literal(value));
    let between = " "@ + sql_operator(op)->0 + " "@;
    law_operators_of_sql(op);
    law_sql_bytes_of_column_and_alias(left, name, m);
    law_sql_of_literal_is_what_the_engine_writes(value, m);
    law_sql_bytes_of_operation(op, left, right, m);
    lemma_encode_concat(name, between);
    lemma_encode_concat(name + between, text);
}

} // verus!
