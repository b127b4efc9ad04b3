//! Text primitives: what the crate relies on from `str`, `String` and `Arc<str>`.
use std::sync::Arc;
use vstd::prelude::*;
use vstd::string::*;
use vstd::utf8::{decode_utf8, valid_utf8};

verus! {

/// `<str as PartialEq>::eq`: two string slices are equal exactly when they hold the same
/// characters in the same order.
pub assume_specification[ <str as PartialEq>::eq ](a: &str, b: &str) -> (equal: bool)
    ensures
        equal == (a@ == b@),
;

/// `<Arc<str> as From<&str>>::from`: the shared string holds a copy of the characters of the
/// slice. Building a column reference or an alias from a `&str` makes this call.
pub assume_specification<'a>[ <Arc<str> as From<&'a str>>::from ](text: &str) -> (shared: Arc<str>)
    ensures
        (*shared)@ == text@,
;

/// `<Arc<str> as From<String>>::from`: the shared string holds the characters of the string.
/// Building a column reference or an alias from a `String` makes this call.
pub assume_specification[ <Arc<str> as From<String>>::from ](text: String) -> (shared: Arc<str>)
    ensures
        (*shared)@ == text@,
;

/// `<T as From<T>>::from`: the argument itself. Building a column reference or an alias from an
/// `Arc<str>` makes this call.
pub assume_specification<Value>[ <Value as From<Value>>::from ](value: Value) -> (same: Value)
    ensures
        same == value,
;

/// `String::from_utf8`: bytes that form well-formed UTF-8 become the text they encode; other
/// bytes are refused.
#[verifier::external_body]
pub(crate) fn string_from_utf8(bytes: Vec<u8>) -> (text: Option<String>)
    ensures
        text is Some <==> valid_utf8(bytes@),
        text matches Some(t) ==> t@ == decode_utf8(bytes@),
{
    String::from_utf8(bytes).ok()
}

/// The text of a boolean.
pub open spec fn bool_text(b: bool) -> Seq<char> {
    if b {
        "true"@
    } else {
        "false"@
    }
}

/// The text of a boolean, as `bool_text` gives it.
pub fn bool_str(b: bool) -> (text: &'static str)
    ensures
        text@ == bool_text(b),
{
    if b {
        "true"
    } else {
        "false"
    }
}

/// The characters of each string of a list.
pub open spec fn strings_view(list: Seq<String>) -> Seq<Seq<char>> {
    list.map_values(|s: String| s@)
}

/// A copy of a list of strings.
pub fn clone_strings(list: &Vec<String>) -> (copy: Vec<String>)
    ensures
        copy@ == list@,
{
    let mut copy: Vec<String> = Vec::new();
    let mut i: usize = 0;
    while i < list.len()
        invariant
            i <= list.len(),
            copy@ == list@.take(i as int),
        decreases list.len() - i,
    {
        copy.push(list[i].clone());
        proof {
            assert(list@.take(i + 1) =~= list@.take(i as int).push(list@[i as int]));
        }
        i = i + 1;
    }
    proof {
        assert(list@.take(i as int) =~= list@);
    }
    copy
}

/// A copy of a list of bytes.
pub fn clone_bytes(list: &Vec<u8>) -> (copy: Vec<u8>)
    ensures
        copy@ == list@,
{
    let mut copy: Vec<u8> = Vec::new();
    append_bytes(&mut copy, list);
    copy
}

/// Writes a list of bytes at the end of a buffer.
pub fn append_bytes(buffer: &mut Vec<u8>, bytes: &[u8])
    ensures
        final(buffer)@ == old(buffer)@ + bytes@,
{
    let ghost before = buffer@;
    let mut i: usize = 0;
    while i < bytes.len()
        invariant
            i <= bytes.len(),
            buffer@ == before + bytes@.take(i as int),
        decreases bytes.len() - i,
    {
        buffer.push(bytes[i]);
        proof {
            assert(before + bytes@.take(i + 1) =~= (before + bytes@.take(i as int)).push(
                bytes@[i as int],
            ));
        }
        i = i + 1;
    }
    proof {
        assert(bytes@.take(i as int) =~= bytes@);
    }
}

} // verus!
