//! Expressions as SQL.
use vstd::prelude::*;
use vstd::string::*;
use vstd::utf8::{
    decode_utf8, decode_utf8_encode_utf8, encode_utf8, encode_utf8_decode_utf8,
    encode_utf8_valid_utf8, valid_utf8, valid_utf8_concat,
};

use crate::expr::{Expr, ExprView};
use crate::operator::{sql_operator, Operator};
use crate::query::{Halt, HaltView, Reply};
use crate::replies::{extends, is_answered, sql_for, Replies, RepliesView};
use crate::semantic::without_aliases;
use crate::text::{append_bytes, string_from_utf8};

verus! {

/// The SQL bytes of a piece of an expression between two texts.
pub open spec fn sql_around(
    before: Seq<char>,
    inner: Result<Option<Seq<u8>>, HaltView>,
    after: Seq<char>,
) -> Result<Option<Seq<u8>>, HaltView> {
    match inner {
        Ok(Some(bytes)) => Ok(Some(encode_utf8(before) + bytes + encode_utf8(after))),
        _ => inner,
    }
}

/// The SQL bytes of two pieces of an expression with a text between them.
pub open spec fn sql_joined(
    first: Result<Option<Seq<u8>>, HaltView>,
    between: Seq<char>,
    second: Result<Option<Seq<u8>>, HaltView>,
) -> Result<Option<Seq<u8>>, HaltView> {
    match first {
        Ok(Some(bytes)) => match second {
            Ok(Some(more)) => Ok(Some(bytes + encode_utf8(between) + more)),
            _ => second,
        },
        _ => first,
    }
}

/// The SQL bytes of an expression, as far as the replies decide them; none where the expression
/// has no form in SQL.
pub open spec fn sql_of(e: ExprView, m: RepliesView) -> Result<Option<Seq<u8>>, HaltView>
    decreases e,
{
    match e {
        ExprView::Column(name) => Ok(Some(encode_utf8(name))),
        ExprView::Literal(value) => sql_for(m, value),
        ExprView::Alias(inner, _) => sql_of(*inner, m),
        ExprView::BinaryOp { op, left, right } => match sql_operator(op) {
            Some(token) => sql_joined(
                sql_of(*left, m),
                " "@ + token + " "@,
                sql_of(*right, m),
            ),
            None => match sql_of(*left, m) {
                Err(h) => Err(h),
                Ok(_) => Ok(None),
            },
        },
        ExprView::Not(inner) => sql_around("NOT ("@, sql_of(*inner, m), ")"@),
        ExprView::IsNull(inner) => sql_around("("@, sql_of(*inner, m), ") IS NULL"@),
        ExprView::NotNull(inner) => sql_around("("@, sql_of(*inner, m), ") IS NOT NULL"@),
        ExprView::IfElse { if_true, if_false, predicate } => sql_around(
            "CASE WHEN "@,
            sql_joined(
                sql_joined(sql_of(*predicate, m), " THEN "@, sql_of(*if_true, m)),
                " ELSE "@,
                sql_of(*if_false, m),
            ),
            " END"@,
        ),
        ExprView::Agg(_)
        | ExprView::Cast(..)
        | ExprView::IsIn(..)
        | ExprView::Between(..)
        | ExprView::Function { .. }
        | ExprView::FillNull(..)
        | ExprView::ScalarFunction(_) => Ok(None),
    }
}

/// The SQL text of an expression: its bytes, where they are well-formed UTF-8.
pub open spec fn sql_text_of(e: ExprView, m: RepliesView) -> Result<Option<Seq<char>>, HaltView> {
    match sql_of(e, m) {
        Err(h) => Err(h),
        Ok(None) => Ok(None),
        Ok(Some(bytes)) => if valid_utf8(bytes) {
            Ok(Some(decode_utf8(bytes)))
        } else {
            Ok(None)
        },
    }
}

/// Whether the outcome of writing SQL at the end of a buffer is the one described: all of it was
/// written, or there is nothing to write, or the writing stopped.
spec fn writes(
    outcome: Result<bool, Halt>,
    before: Seq<u8>,
    after: Seq<u8>,
    sql: Result<Option<Seq<u8>>, HaltView>,
) -> bool {
    match sql {
        Ok(Some(bytes)) => outcome == Ok::<bool, Halt>(true) && after == before + bytes,
        Ok(None) => outcome == Ok::<bool, Halt>(false),
        Err(h) => outcome matches Err(found) && found@ == h,
    }
}

/// The bytes of two texts, one after the other, are the bytes of their concatenation.
pub proof fn lemma_encode_concat(a: Seq<char>, b: Seq<char>)
    ensures
        encode_utf8(a + b) == encode_utf8(a) + encode_utf8(b),
    decreases a.len(),
{
    if a.len() == 0 {
        assert(a + b =~= b);
        assert(encode_utf8(a) + encode_utf8(b) =~= encode_utf8(b));
    } else {
        assert((a + b).drop_first() =~= a.drop_first() + b);
        assert((a + b)[0] == a[0]);
        lemma_encode_concat(a.drop_first(), b);
        assert(encode_utf8(a + b) =~= encode_utf8(a) + encode_utf8(b));
    }
}

/// Writing the pieces of a conditional one by one writes the conditional.
proof fn lemma_case(
    start: Seq<u8>,
    case_when: Seq<u8>,
    predicate: Seq<u8>,
    then_word: Seq<u8>,
    if_true: Seq<u8>,
    else_word: Seq<u8>,
    if_false: Seq<u8>,
    end_word: Seq<u8>,
)
    ensures
        start + case_when + predicate + then_word + if_true + else_word + if_false + end_word
            == start + (case_when + (predicate + then_word + if_true + else_word + if_false)
            + end_word),
{
    assert(start + case_when + predicate + then_word + if_true + else_word + if_false + end_word
        =~= start + (case_when + (predicate + then_word + if_true + else_word + if_false)
        + end_word));
}

/// Writes a text at the end of a buffer.
fn write_text(buffer: &mut Vec<u8>, text: &str)
    ensures
        final(buffer)@ == old(buffer)@ + encode_utf8(text@),
{
    append_bytes(buffer, text.as_bytes());
}

/// Writes an expression as SQL between two texts at the end of a buffer; says whether SQL can
/// express it.
fn write_around(
    before: &str,
    e: &Expr,
    after: &str,
    buffer: &mut Vec<u8>,
    replies: &Replies,
) -> (outcome: Result<bool, Halt>)
    ensures
        writes(
            outcome,
            old(buffer)@,
            final(buffer)@,
            sql_around(before@, sql_of(e@, replies@), after@),
        ),
    decreases e, 1int,
{
    let ghost start = buffer@;
    write_text(buffer, before);
    if !write_sql(e, buffer, replies)? {
        return Ok(false);
    }
    write_text(buffer, after);
    assert(buffer@ =~= start + sql_around(before@, sql_of(e@, replies@), after@)->Ok_0->0);
    Ok(true)
}

/// Writes an expression as SQL at the end of a buffer; says whether SQL can express it.
fn write_sql(e: &Expr, buffer: &mut Vec<u8>, replies: &Replies) -> (outcome: Result<bool, Halt>)
    ensures
        writes(outcome, old(buffer)@, final(buffer)@, sql_of(e@, replies@)),
    decreases e, 0int,
{
    let ghost before = buffer@;
    match e {
        Expr::Column(name) => {
            write_text(buffer, &**name);
            Ok(true)
        },
        Expr::Literal(value) => {
            match replies.sql(value)? {
                Some(bytes) => {
                    append_bytes(buffer, bytes.as_slice());
                    Ok(true)
                },
                None => Ok(false),
            }
        },
        Expr::Alias(inner, _) => write_sql(inner, buffer, replies),
        Expr::BinaryOp { op, left, right } => {
            if !write_sql(left, buffer, replies)? {
                return Ok(false);
            }
            match op.sql_token() {
                Some(token) => {
                    let ghost middle = buffer@;
                    write_text(buffer, " ");
                    write_text(buffer, token);
                    write_text(buffer, " ");
                    proof {
                        lemma_encode_concat(" "@, token@);
                        lemma_encode_concat(" "@ + token@, " "@);
                        assert(buffer@ =~= middle + encode_utf8(" "@ + token@ + " "@));
                    }
                    let outcome = write_sql(right, buffer, replies);
                    proof {
                        if let Ok(Some(more)) = sql_of(right@, replies@) {
                            let bytes = sql_of(left@, replies@)->Ok_0->0;
                            assert(buffer@ =~= before + (bytes + encode_utf8(
                                " "@ + token@ + " "@,
                            ) + more));
                        }
                    }
                    outcome
                },
                None => Ok(false),
            }
        },
        Expr::Not(inner) => write_around("NOT (", inner, ")", buffer, replies),
        Expr::IsNull(inner) => write_around("(", inner, ") IS NULL", buffer, replies),
        Expr::NotNull(inner) => write_around("(", inner, ") IS NOT NULL", buffer, replies),
        Expr::IfElse { if_true, if_false, predicate } => {
            write_text(buffer, "CASE WHEN ");
            if !write_sql(predicate, buffer, replies)? {
                return Ok(false);
            }
            write_text(buffer, " THEN ");
            if !write_sql(if_true, buffer, replies)? {
                return Ok(false);
            }
            write_text(buffer, " ELSE ");
            if !write_sql(if_false, buffer, replies)? {
                return Ok(false);
            }
            write_text(buffer, " END");
            proof {
                lemma_case(
                    before,
                    encode_utf8("CASE WHEN "@),
                    sql_of(predicate@, replies@)->Ok_0->0,
                    encode_utf8(" THEN "@),
                    sql_of(if_true@, replies@)->Ok_0->0,
                    encode_utf8(" ELSE "@),
                    sql_of(if_false@, replies@)->Ok_0->0,
                    encode_utf8(" END"@),
                );
            }
            Ok(true)
        },
        Expr::Agg(_)
        | Expr::Cast(..)
        | Expr::IsIn(..)
        | Expr::Between(..)
        | Expr::Function { .. }
        | Expr::FillNull(..)
        | Expr::ScalarFunction(_) => Ok(false),
    }
}

impl Expr {
    /// The expression as SQL text; none where SQL cannot express it.
    pub fn to_sql(&self, replies: &Replies) -> (sql: Result<Option<String>, Halt>)
        ensures
            match sql {
                Ok(Some(text)) => sql_text_of(self@, replies@) == Ok::<
                    Option<Seq<char>>,
                    HaltView,
                >(Some(text@)),
                Ok(None) => sql_text_of(self@, replies@) == Ok::<Option<Seq<char>>, HaltView>(None),
                Err(h) => sql_text_of(self@, replies@) == Err::<Option<Seq<char>>, HaltView>(h@),
            },
    {
        let mut buffer: Vec<u8> = Vec::new();
        if write_sql(self, &mut buffer, replies)? {
            assert(Seq::<u8>::empty() + buffer@ =~= buffer@);
            Ok(string_from_utf8(buffer))
        } else {
            Ok(None)
        }
    }
}

/// Whether SQL can express an expression: it is made of columns, literals that SQL can write,
/// aliases, operators of SQL, negations, null tests and conditionals.
pub open spec fn has_sql(e: ExprView, m: RepliesView) -> bool
    decreases e,
{
    match e {
        ExprView::Column(_) => true,
        ExprView::Literal(value) => m.sql.contains_key(value) && m.sql[value] is Some,
        ExprView::Alias(inner, _) => has_sql(*inner, m),
        ExprView::BinaryOp { op, left, right } => sql_operator(op) is Some && has_sql(*left, m)
            && has_sql(*right, m),
        ExprView::Not(inner) => has_sql(*inner, m),
        ExprView::IsNull(inner) => has_sql(*inner, m),
        ExprView::NotNull(inner) => has_sql(*inner, m),
        ExprView::IfElse { if_true, if_false, predicate } => has_sql(*if_true, m) && has_sql(
            *if_false,
            m,
        ) && has_sql(*predicate, m),
        _ => false,
    }
}

/// Whether what the engine writes for the literals of an expression is text. Literals in parts
/// that have no form in SQL do not count.
pub open spec fn literals_are_text(e: ExprView, m: RepliesView) -> bool
    decreases e,
{
    match e {
        ExprView::Literal(value) => m.sql.contains_key(value) && m.sql[value] is Some
            ==> valid_utf8(m.sql[value]->0),
        ExprView::Alias(inner, _) => literals_are_text(*inner, m),
        ExprView::BinaryOp { op: _, left, right } => literals_are_text(*left, m)
            && literals_are_text(*right, m),
        ExprView::Not(inner) => literals_are_text(*inner, m),
        ExprView::IsNull(inner) => literals_are_text(*inner, m),
        ExprView::NotNull(inner) => literals_are_text(*inner, m),
        ExprView::IfElse { if_true, if_false, predicate } => literals_are_text(*if_true, m)
            && literals_are_text(*if_false, m) && literals_are_text(*predicate, m),
        _ => true,
    }
}

/// Law: an expression has SQL bytes exactly where each of its parts has a form in SQL.
pub proof fn law_sql_bytes_exactly_for_supported(e: ExprView, m: RepliesView)
    ensures
        sql_of(e, m) matches Ok(Some(_)) <==> has_sql(e, m),
    decreases e,
{
    match e {
        ExprView::Alias(inner, _)
        | ExprView::Not(inner)
        | ExprView::IsNull(inner)
        | ExprView::NotNull(inner) => {
            law_sql_bytes_exactly_for_supported(*inner, m);
        },
        ExprView::BinaryOp { op: _, left, right } => {
            law_sql_bytes_exactly_for_supported(*left, m);
            law_sql_bytes_exactly_for_supported(*right, m);
        },
        ExprView::IfElse { if_true, if_false, predicate } => {
            law_sql_bytes_exactly_for_supported(*if_true, m);
            law_sql_bytes_exactly_for_supported(*if_false, m);
            law_sql_bytes_exactly_for_supported(*predicate, m);
        },
        _ => {},
    }
}

/// Whether SQL bytes, where there are any, are text.
spec fn is_text(sql: Result<Option<Seq<u8>>, HaltView>) -> bool {
    sql matches Ok(Some(bytes)) ==> valid_utf8(bytes)
}

/// Text between two texts is text.
proof fn lemma_around_is_text(
    before: Seq<char>,
    inner: Result<Option<Seq<u8>>, HaltView>,
    after: Seq<char>,
)
    requires
        is_text(inner),
    ensures
        is_text(sql_around(before, inner, after)),
{
    if let Ok(Some(bytes)) = inner {
        encode_utf8_valid_utf8(before);
        encode_utf8_valid_utf8(after);
        valid_utf8_concat(encode_utf8(before), bytes);
        valid_utf8_concat(encode_utf8(before) + bytes, encode_utf8(after));
    }
}

/// Two texts with a text between them are text.
proof fn lemma_joined_is_text(
    first: Result<Option<Seq<u8>>, HaltView>,
    between: Seq<char>,
    second: Result<Option<Seq<u8>>, HaltView>,
)
    requires
        is_text(first),
        is_text(second),
    ensures
        is_text(sql_joined(first, between, second)),
{
    if let Ok(Some(bytes)) = first {
        if let Ok(Some(more)) = second {
            encode_utf8_valid_utf8(between);
            valid_utf8_concat(bytes, encode_utf8(between));
            valid_utf8_concat(bytes + encode_utf8(between), more);
        }
    }
}

/// Law: where the engine writes the literals of an expression as text, its SQL bytes are text.
pub proof fn law_sql_bytes_are_text(e: ExprView, m: RepliesView)
    requires
        literals_are_text(e, m),
    ensures
        sql_of(e, m) matches Ok(Some(bytes)) ==> valid_utf8(bytes),
    decreases e,
{
    match e {
        ExprView::Column(name) => {
            encode_utf8_valid_utf8(name);
        },
        ExprView::Alias(inner, _) => {
            law_sql_bytes_are_text(*inner, m);
        },
        ExprView::BinaryOp { op, left, right } => {
            law_sql_bytes_are_text(*left, m);
            law_sql_bytes_are_text(*right, m);
            if let Some(token) = sql_operator(op) {
                lemma_joined_is_text(sql_of(*left, m), " "@ + token + " "@, sql_of(*right, m));
            }
        },
        ExprView::Not(inner) => {
            law_sql_bytes_are_text(*inner, m);
            lemma_around_is_text("NOT ("@, sql_of(*inner, m), ")"@);
        },
        ExprView::IsNull(inner) => {
            law_sql_bytes_are_text(*inner, m);
            lemma_around_is_text("("@, sql_of(*inner, m), ") IS NULL"@);
        },
        ExprView::NotNull(inner) => {
            law_sql_bytes_are_text(*inner, m);
            lemma_around_is_text("("@, sql_of(*inner, m), ") IS NOT NULL"@);
        },
        ExprView::IfElse { if_true, if_false, predicate } => {
            law_sql_bytes_are_text(*if_true, m);
            law_sql_bytes_are_text(*if_false, m);
            law_sql_bytes_are_text(*predicate, m);
            let condition = sql_joined(sql_of(*predicate, m), " THEN "@, sql_of(*if_true, m));
            lemma_joined_is_text(sql_of(*predicate, m), " THEN "@, sql_of(*if_true, m));
            lemma_joined_is_text(condition, " ELSE "@, sql_of(*if_false, m));
            lemma_around_is_text(
                "CASE WHEN "@,
                sql_joined(condition, " ELSE "@, sql_of(*if_false, m)),
                " END"@,
            );
        },
        _ => {},
    }
}

/// Law: where the engine writes the literals of an expression as text, it has SQL text exactly
/// where each of its parts has a form in SQL.
pub proof fn law_sql_text_exactly_for_supported(e: ExprView, m: RepliesView)
    requires
        literals_are_text(e, m),
    ensures
        sql_text_of(e, m) matches Ok(Some(_)) <==> has_sql(e, m),
{
    law_sql_bytes_exactly_for_supported(e, m);
    law_sql_bytes_are_text(e, m);
}

/// Law: the SQL text of a column is its name.
pub proof fn law_sql_of_column(name: Seq<char>, m: RepliesView)
    ensures
        sql_text_of(ExprView::Column(name), m) == Ok::<Option<Seq<char>>, HaltView>(Some(name)),
{
    broadcast use {encode_utf8_valid_utf8, encode_utf8_decode_utf8};

    assert(sql_of(ExprView::Column(name), m) == Ok::<Option<Seq<u8>>, HaltView>(
        Some(encode_utf8(name)),
    ));
}

/// Law: an alias does not show in SQL.
pub proof fn law_sql_ignores_alias(e: ExprView, name: Seq<char>, m: RepliesView)
    ensures
        sql_text_of(ExprView::Alias(Box::new(e), name), m) == sql_text_of(e, m),
{
    assert(sql_of(ExprView::Alias(Box::new(e), name), m) == sql_of(e, m));
}

/// Law: no alias shows in SQL, however deep it stands.
pub proof fn law_sql_ignores_aliases_within(e: ExprView, m: RepliesView)
    ensures
        sql_of(without_aliases(e), m) == sql_of(e, m),
        sql_text_of(without_aliases(e), m) == sql_text_of(e, m),
    decreases e,
{
    match e {
        ExprView::Alias(inner, _)
        | ExprView::Not(inner)
        | ExprView::IsNull(inner)
        | ExprView::NotNull(inner) => {
            law_sql_ignores_aliases_within(*inner, m);
        },
        ExprView::BinaryOp { op: _, left, right } => {
            law_sql_ignores_aliases_within(*left, m);
            law_sql_ignores_aliases_within(*right, m);
        },
        ExprView::IfElse { if_true, if_false, predicate } => {
            law_sql_ignores_aliases_within(*if_true, m);
            law_sql_ignores_aliases_within(*if_false, m);
            law_sql_ignores_aliases_within(*predicate, m);
        },
        _ => {},
    }
}

/// Law: expressions that differ in their aliases alone have one SQL form.
pub proof fn law_equal_up_to_aliases_have_one_sql(a: ExprView, b: ExprView, m: RepliesView)
    requires
        without_aliases(a) == without_aliases(b),
    ensures
        sql_of(a, m) == sql_of(b, m),
        sql_text_of(a, m) == sql_text_of(b, m),
{
    law_sql_ignores_aliases_within(a, m);
    law_sql_ignores_aliases_within(b, m);
}

/// Law: the SQL text of an operation is that of its operands with the operator's token between
/// them.
pub proof fn law_sql_of_operation(
    op: Operator,
    left: ExprView,
    right: ExprView,
    m: RepliesView,
)
    requires
        sql_operator(op) is Some,
        sql_text_of(left, m) matches Ok(Some(_)),
        sql_text_of(right, m) matches Ok(Some(_)),
    ensures
        sql_text_of(
            ExprView::BinaryOp { op, left: Box::new(left), right: Box::new(right) },
            m,
        ) == Ok::<Option<Seq<char>>, HaltView>(
            Some(
                sql_text_of(left, m)->Ok_0->0 + (" "@ + sql_operator(op)->0 + " "@) + sql_text_of(
                    right,
                    m,
                )->Ok_0->0,
            ),
        ),
{
    broadcast use {encode_utf8_valid_utf8, encode_utf8_decode_utf8, decode_utf8_encode_utf8};

    let e = ExprView::BinaryOp { op, left: Box::new(left), right: Box::new(right) };
    let a = sql_text_of(left, m)->Ok_0->0;
    let b = sql_text_of(right, m)->Ok_0->0;
    let between = " "@ + sql_operator(op)->0 + " "@;
    assert(sql_of(left, m)->Ok_0->0 == encode_utf8(a));
    assert(sql_of(right, m)->Ok_0->0 == encode_utf8(b));
    lemma_encode_concat(a, between);
    lemma_encode_concat(a + between, b);
    assert(sql_of(e, m) == Ok::<Option<Seq<u8>>, HaltView>(Some(encode_utf8(a + between + b))));
}

/// Law: more replies do not change SQL that is already decided.
pub proof fn law_sql_stays(e: ExprView, m: RepliesView, more: RepliesView)
    requires
        extends(more, m),
        !(sql_text_of(e, m) matches Err(HaltView::Ask(_))),
    ensures
        sql_text_of(e, more) == sql_text_of(e, m),
{
    lemma_sql_stays(e, m, more);
}

/// More replies do not change SQL bytes that are already decided.
proof fn lemma_sql_stays(e: ExprView, m: RepliesView, more: RepliesView)
    requires
        extends(more, m),
    ensures
        sql_of(e, m) matches Err(HaltView::Ask(_)) || sql_of(e, more) == sql_of(e, m),
    decreases e,
{
    match e {
        ExprView::Alias(inner, _)
        | ExprView::Not(inner)
        | ExprView::IsNull(inner)
        | ExprView::NotNull(inner) => {
            lemma_sql_stays(*inner, m, more);
        },
        ExprView::BinaryOp { op: _, left, right } => {
            lemma_sql_stays(*left, m, more);
            lemma_sql_stays(*right, m, more);
        },
        ExprView::IfElse { if_true, if_false, predicate } => {
            lemma_sql_stays(*if_true, m, more);
            lemma_sql_stays(*if_false, m, more);
            lemma_sql_stays(*predicate, m, more);
        },
        _ => {},
    }
}

/// Law: translating to SQL fails only by asking, and asks only what has no reply yet.
pub proof fn law_sql_asks_what_is_open(e: ExprView, m: RepliesView)
    ensures
        sql_text_of(e, m) matches Err(h) ==> h matches HaltView::Ask(q) && !is_answered(m, q),
    decreases e,
{
    match e {
        ExprView::Alias(inner, _)
        | ExprView::Not(inner)
        | ExprView::IsNull(inner)
        | ExprView::NotNull(inner) => {
            law_sql_asks_what_is_open(*inner, m);
        },
        ExprView::BinaryOp { op: _, left, right } => {
            law_sql_asks_what_is_open(*left, m);
            law_sql_asks_what_is_open(*right, m);
        },
        ExprView::IfElse { if_true, if_false, predicate } => {
            law_sql_asks_what_is_open(*if_true, m);
            law_sql_asks_what_is_open(*if_false, m);
            law_sql_asks_what_is_open(*predicate, m);
        },
        _ => {},
    }
}

} // verus!
