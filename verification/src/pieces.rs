//! Texts put together from pieces, of which some may still be open.
use vstd::prelude::*;

use crate::query::HaltView;

verus! {

/// A piece behind a text.
pub open spec fn prefixed(before: Seq<char>, piece: Result<Seq<char>, HaltView>) -> Result<
    Seq<char>,
    HaltView,
> {
    match piece {
        Ok(text) => Ok(before + text),
        Err(h) => Err(h),
    }
}

/// A piece before a text.
pub open spec fn suffixed(piece: Result<Seq<char>, HaltView>, after: Seq<char>) -> Result<
    Seq<char>,
    HaltView,
> {
    match piece {
        Ok(text) => Ok(text + after),
        Err(h) => Err(h),
    }
}

/// Two pieces with a text between them.
pub open spec fn joined(
    first: Result<Seq<char>, HaltView>,
    between: Seq<char>,
    second: Result<Seq<char>, HaltView>,
) -> Result<Seq<char>, HaltView> {
    match first {
        Ok(text) => match second {
            Ok(more) => Ok(text + between + more),
            Err(h) => Err(h),
        },
        Err(h) => Err(h),
    }
}

} // verus!
