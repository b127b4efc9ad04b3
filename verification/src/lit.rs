//! Literal values.
use vstd::prelude::*;
use vstd::string::*;

verus! {

/// A floating-point number, held by its bits so that it can be compared and hashed: two are equal
/// exactly where their bits are.
#[derive(Debug, Copy, Clone, PartialEq, Eq, Structural, Hash)]
pub struct FloatWrapper {
    pub bits: u64,
}

/// A constant in an expression. `Other` stands for every literal that expressions only pass
/// along; the engine finds it again by its handle.
#[derive(Debug, Hash)]
pub enum LiteralValue {
    Null,
    Boolean(bool),
    Utf8(String),
    Int32(i32),
    UInt32(u32),
    Int64(i64),
    UInt64(u64),
    Float64(FloatWrapper),
    Other(u64),
}

/// The value of a `LiteralValue`.
#[verifier::ext_equal]
pub enum LiteralView {
    Null,
    Boolean(bool),
    Utf8(Seq<char>),
    Int32(i32),
    UInt32(u32),
    Int64(i64),
    UInt64(u64),
    Float64(FloatWrapper),
    Other(u64),
}

impl View for LiteralValue {
    type V = LiteralView;

    open spec fn view(&self) -> LiteralView {
        match self {
            LiteralValue::Null => LiteralView::Null,
            LiteralValue::Boolean(b) => LiteralView::Boolean(*b),
            LiteralValue::Utf8(s) => LiteralView::Utf8(s@),
            LiteralValue::Int32(n) => LiteralView::Int32(*n),
            LiteralValue::UInt32(n) => LiteralView::UInt32(*n),
            LiteralValue::Int64(n) => LiteralView::Int64(*n),
            LiteralValue::UInt64(n) => LiteralView::UInt64(*n),
            LiteralValue::Float64(x) => LiteralView::Float64(*x),
            LiteralValue::Other(handle) => LiteralView::Other(*handle),
        }
    }
}

impl Clone for LiteralValue {
    fn clone(&self) -> (copy: Self)
        ensures
            copy@ == self@,
    {
        match self {
            LiteralValue::Null => LiteralValue::Null,
            LiteralValue::Boolean(b) => LiteralValue::Boolean(*b),
            LiteralValue::Utf8(s) => LiteralValue::Utf8(s.clone()),
            LiteralValue::Int32(n) => LiteralValue::Int32(*n),
            LiteralValue::UInt32(n) => LiteralValue::UInt32(*n),
            LiteralValue::Int64(n) => LiteralValue::Int64(*n),
            LiteralValue::UInt64(n) => LiteralValue::UInt64(*n),
            LiteralValue::Float64(x) => LiteralValue::Float64(*x),
            LiteralValue::Other(handle) => LiteralValue::Other(*handle),
        }
    }
}

impl LiteralValue {
    /// Whether two literals are the same.
    pub fn same(&self, other: &LiteralValue) -> (equal: bool)
        ensures
            equal == (self@ == other@),
    {
        match (self, other) {
            (LiteralValue::Null, LiteralValue::Null) => true,
            (LiteralValue::Boolean(a), LiteralValue::Boolean(b)) => *a == *b,
            (LiteralValue::Utf8(a), LiteralValue::Utf8(b)) => *a == *b,
            (LiteralValue::Int32(a), LiteralValue::Int32(b)) => *a == *b,
            (LiteralValue::UInt32(a), LiteralValue::UInt32(b)) => *a == *b,
            (LiteralValue::Int64(a), LiteralValue::Int64(b)) => *a == *b,
            (LiteralValue::UInt64(a), LiteralValue::UInt64(b)) => *a == *b,
            (LiteralValue::Float64(a), LiteralValue::Float64(b)) => *a == *b,
            (LiteralValue::Other(a), LiteralValue::Other(b)) => *a == *b,
            _ => false,
        }
    }
}

impl PartialEq for LiteralValue {
    fn eq(&self, other: &Self) -> (equal: bool) {
        self.same(other)
    }
}

impl vstd::std_specs::cmp::PartialEqSpecImpl for LiteralValue {
    open spec fn obeys_eq_spec() -> bool {
        true
    }

    open spec fn eq_spec(&self, other: &Self) -> bool {
        self@ == other@
    }
}

impl Eq for LiteralValue {

}

/// A copy of a list of numbers.
pub fn clone_floats(list: &[FloatWrapper]) -> (copy: Vec<FloatWrapper>)
    ensures
        copy@ == list@,
{
    let mut copy: Vec<FloatWrapper> = Vec::new();
    let mut i: usize = 0;
    while i < list.len()
        invariant
            i <= list.len(),
            copy@ == list@.take(i as int),
        decreases list.len() - i,
    {
        copy.push(list[i]);
        proof {
            assert(list@.take(i + 1) =~= list@.take(i as int).push(list@[i as int]));
        }
        i = i + 1;
    }
    proof {
        assert(list@.take(i as int) =~= list@);
    }
    copy
}

/// Whether two lists hold the same numbers, bit for bit.
pub fn same_floats(a: &Vec<FloatWrapper>, b: &Vec<FloatWrapper>) -> (equal: bool)
    ensures
        equal == (a@ == b@),
{
    if a.len() != b.len() {
        return false;
    }
    let mut i: usize = 0;
    while i < a.len()
        invariant
            a.len() == b.len(),
            i <= a.len(),
            forall|k: int| 0 <= k < i ==> a@[k] == b@[k],
        decreases a.len() - i,
    {
        if a[i].bits != b[i].bits {
            return false;
        }
        i = i + 1;
    }
    proof {
        assert(a@ =~= b@);
    }
    true
}

} // verus!
