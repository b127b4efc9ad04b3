//! Binary operators.
use vstd::prelude::*;
use vstd::string::*;

verus! {

/// The operators that a binary expression can apply.
#[derive(Debug, Copy, Clone, PartialEq, Eq, Structural, Hash)]
pub enum Operator {
    Eq,
    NotEq,
    Lt,
    LtEq,
    Gt,
    GtEq,
    Plus,
    Minus,
    Multiply,
    TrueDivide,
    FloorDivide,
    Modulus,
    And,
    Or,
    Xor,
    ShiftLeft,
    ShiftRight,
}

/// The token of an operator in displayed expressions.
pub open spec fn operator_token(op: Operator) -> Seq<char> {
    match op {
        Operator::Eq => "=="@,
        Operator::NotEq => "!="@,
        Operator::Lt => "<"@,
        Operator::LtEq => "<="@,
        Operator::Gt => ">"@,
        Operator::GtEq => ">="@,
        Operator::Plus => "+"@,
        Operator::Minus => "-"@,
        Operator::Multiply => "*"@,
        Operator::TrueDivide => "/"@,
        Operator::FloorDivide => "//"@,
        Operator::Modulus => "%"@,
        Operator::And => "&"@,
        Operator::Or => "|"@,
        Operator::Xor => "^"@,
        Operator::ShiftLeft => "<<"@,
        Operator::ShiftRight => ">>"@,
    }
}

/// Whether an operator yields a truth value: a comparison or a logical operator.
pub open spec fn yields_truth(op: Operator) -> bool {
    ||| compares(op)
    ||| combines_truths(op)
}

/// Whether an operator compares its operands.
pub open spec fn compares(op: Operator) -> bool {
    op is Eq || op is NotEq || op is Lt || op is LtEq || op is Gt || op is GtEq
}

/// Whether an operator combines truth values.
pub open spec fn combines_truths(op: Operator) -> bool {
    op is And || op is Or || op is Xor
}

/// The token of an operator in SQL, where SQL has it.
pub open spec fn sql_operator(op: Operator) -> Option<Seq<char>> {
    match op {
        Operator::Eq => Some("="@),
        Operator::NotEq => Some("!="@),
        Operator::Lt => Some("<"@),
        Operator::LtEq => Some("<="@),
        Operator::Gt => Some(">"@),
        Operator::GtEq => Some(">="@),
        Operator::And => Some("AND"@),
        Operator::Or => Some("OR"@),
        Operator::ShiftLeft => Some("<<"@),
        Operator::ShiftRight => Some(">>"@),
        _ => None,
    }
}

impl Operator {
    /// The token under which displayed expressions show the operator.
    pub fn token(&self) -> (text: &'static str)
        ensures
            text@ == operator_token(*self),
    {
        match self {
            Operator::Eq => "==",
            Operator::NotEq => "!=",
            Operator::Lt => "<",
            Operator::LtEq => "<=",
            Operator::Gt => ">",
            Operator::GtEq => ">=",
            Operator::Plus => "+",
            Operator::Minus => "-",
            Operator::Multiply => "*",
            Operator::TrueDivide => "/",
            Operator::FloorDivide => "//",
            Operator::Modulus => "%",
            Operator::And => "&",
            Operator::Or => "|",
            Operator::Xor => "^",
            Operator::ShiftLeft => "<<",
            Operator::ShiftRight => ">>",
        }
    }

    /// The operator as text.
    pub fn to_text(&self) -> (text: String)
        ensures
            text@ == operator_token(*self),
    {
        self.token().to_owned()
    }

    /// The token of the operator in SQL; none where SQL has no such operator.
    pub fn sql_token(&self) -> (text: Option<&'static str>)
        ensures
            text is Some <==> sql_operator(*self) is Some,
            text matches Some(t) ==> sql_operator(*self) == Some(t@),
    {
        match self {
            Operator::Eq => Some("="),
            Operator::NotEq => Some("!="),
            Operator::Lt => Some("<"),
            Operator::LtEq => Some("<="),
            Operator::Gt => Some(">"),
            Operator::GtEq => Some(">="),
            Operator::And => Some("AND"),
            Operator::Or => Some("OR"),
            Operator::ShiftLeft => Some("<<"),
            Operator::ShiftRight => Some(">>"),
            _ => None,
        }
    }

    /// Whether the operator yields a truth value.
    pub fn is_comparison(&self) -> (answer: bool)
        ensures
            answer == yields_truth(*self),
    {
        matches!(
            self,
            Operator::Eq
                | Operator::NotEq
                | Operator::Lt
                | Operator::LtEq
                | Operator::Gt
                | Operator::GtEq
                | Operator::And
                | Operator::Or
                | Operator::Xor
        )
    }

    /// Whether the operator computes a value other than a truth value.
    pub fn is_arithmetic(&self) -> (answer: bool)
        ensures
            answer == !yields_truth(*self),
    {
        !self.is_comparison()
    }
}

/// Law: different operators are shown under different tokens, so that a displayed token tells
/// which operator it stands for.
pub proof fn law_tokens_differ(a: Operator, b: Operator)
    requires
        operator_token(a) == operator_token(b),
    ensures
        a == b,
{
    reveal_tokens();
    let s = operator_token(a);
    let t = operator_token(b);
    assert(s.len() == t.len());
    assert(s[0] == t[0]);
    if s.len() == 2 {
        assert(s[1] == t[1]);
    }
}

/// Law: the token of each operator, character by character.
pub proof fn law_token_of_each_operator(op: Operator)
    ensures
        operator_token(op) == (match op {
            Operator::Eq => seq!['=', '='],
            Operator::NotEq => seq!['!', '='],
            Operator::Lt => seq!['<'],
            Operator::LtEq => seq!['<', '='],
            Operator::Gt => seq!['>'],
            Operator::GtEq => seq!['>', '='],
            Operator::Plus => seq!['+'],
            Operator::Minus => seq!['-'],
            Operator::Multiply => seq!['*'],
            Operator::TrueDivide => seq!['/'],
            Operator::FloorDivide => seq!['/', '/'],
            Operator::Modulus => seq!['%'],
            Operator::And => seq!['&'],
            Operator::Or => seq!['|'],
            Operator::Xor => seq!['^'],
            Operator::ShiftLeft => seq!['<', '<'],
            Operator::ShiftRight => seq!['>', '>'],
        }),
{
    reveal_tokens();
}

/// Law: SQL has the comparisons, `And`, `Or` and the shifts, and no other operator. It writes
/// equality, `And` and `Or` in its own way and the others as they are displayed.
pub proof fn law_operators_of_sql(op: Operator)
    ensures
        sql_operator(op) is None <==> (op is Plus || op is Minus || op is Multiply
            || op is TrueDivide || op is FloorDivide || op is Modulus || op is Xor),
        op is Eq ==> sql_operator(op) == Some(seq!['=']),
        op is And ==> sql_operator(op) == Some(seq!['A', 'N', 'D']),
        op is Or ==> sql_operator(op) == Some(seq!['O', 'R']),
        !(op is Eq || op is And || op is Or) && sql_operator(op) is Some ==> sql_operator(op)
            == Some(operator_token(op)),
{
    reveal_strlit("=");
    reveal_strlit("AND");
    reveal_strlit("OR");
    assert("="@ =~= seq!['=']);
    assert("AND"@ =~= seq!['A', 'N', 'D']);
    assert("OR"@ =~= seq!['O', 'R']);
}

/// Law: six operators compare, three combine truth values, and these nine yield truth values.
pub proof fn law_kinds_of_operators(op: Operator)
    ensures
        compares(op) <==> (op is Eq || op is NotEq || op is Lt || op is LtEq || op is Gt
            || op is GtEq),
        combines_truths(op) <==> (op is And || op is Or || op is Xor),
        yields_truth(op) <==> !(op is Plus || op is Minus || op is Multiply || op is TrueDivide
            || op is FloorDivide || op is Modulus || op is ShiftLeft || op is ShiftRight),
{
}

/// What the token literals hold.
proof fn reveal_tokens()
    ensures
        "=="@ == seq!['=', '='],
        "!="@ == seq!['!', '='],
        "<"@ == seq!['<'],
        "<="@ == seq!['<', '='],
        ">"@ == seq!['>'],
        ">="@ == seq!['>', '='],
        "+"@ == seq!['+'],
        "-"@ == seq!['-'],
        "*"@ == seq!['*'],
        "/"@ == seq!['/'],
        "//"@ == seq!['/', '/'],
        "%"@ == seq!['%'],
        "&"@ == seq!['&'],
        "|"@ == seq!['|'],
        "^"@ == seq!['^'],
        "<<"@ == seq!['<', '<'],
        ">>"@ == seq!['>', '>'],
{
    reveal_strlit("==");
    reveal_strlit("!=");
    reveal_strlit("<");
    reveal_strlit("<=");
    reveal_strlit(">");
    reveal_strlit(">=");
    reveal_strlit("+");
    reveal_strlit("-");
    reveal_strlit("*");
    reveal_strlit("/");
    reveal_strlit("//");
    reveal_strlit("%");
    reveal_strlit("&");
    reveal_strlit("|");
    reveal_strlit("^");
    reveal_strlit("<<");
    reveal_strlit(">>");
    assert("=="@ =~= seq!['=', '=']);
    assert("!="@ =~= seq!['!', '=']);
    assert("<"@ =~= seq!['<']);
    assert("<="@ =~= seq!['<', '=']);
    assert(">"@ =~= seq!['>']);
    assert(">="@ =~= seq!['>', '=']);
    assert("+"@ =~= seq!['+']);
    assert("-"@ =~= seq!['-']);
    assert("*"@ =~= seq!['*']);
    assert("/"@ =~= seq!['/']);
    assert("//"@ =~= seq!['/', '/']);
    assert("%"@ =~= seq!['%']);
    assert("&"@ =~= seq!['&']);
    assert("|"@ =~= seq!['|']);
    assert("^"@ =~= seq!['^']);
    assert("<<"@ =~= seq!['<', '<']);
    assert(">>"@ =~= seq!['>', '>']);
}

} // verus!
