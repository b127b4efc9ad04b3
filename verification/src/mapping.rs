//! Which columns pass through an expression unchanged.
use vstd::prelude::*;
use vstd::string::*;

use crate::expr::{Expr, ExprRef, ExprView};
use crate::query::{FlagQuery, FlagQueryView, Halt, HaltView, QueryView};
use crate::replies::{columns_for, extends, flag_for, is_answered, Replies, RepliesView};

verus! {

/// The column that an expression passes through: the only one that it reads, where it computes
/// nothing on it.
pub open spec fn mapping_of(e: ExprView, m: RepliesView) -> Result<Option<Seq<char>>, HaltView> {
    match columns_for(m, e) {
        Err(h) => Err(h),
        Ok(columns) => match flag_for(m, FlagQueryView::RequiresComputation(e)) {
            Err(h) => Err(h),
            Ok(computes) => if columns.len() == 1 && !computes {
                Ok(Some(columns[0]))
            } else {
                Ok(None)
            },
        },
    }
}

impl Expr {
    /// The column that the expression passes through unchanged, where there is one.
    pub fn input_mapping(self: &ExprRef, replies: &Replies) -> (column: Result<
        Option<String>,
        Halt,
    >)
        ensures
            match column {
                Ok(Some(name)) => mapping_of((**self)@, replies@) == Ok::<
                    Option<Seq<char>>,
                    HaltView,
                >(Some(name@)),
                Ok(None) => mapping_of((**self)@, replies@) == Ok::<Option<Seq<char>>, HaltView>(
                    None,
                ),
                Err(h) => mapping_of((**self)@, replies@) == Err::<Option<Seq<char>>, HaltView>(h@),
            },
    {
        let columns = replies.columns(self)?;
        let computes = replies.flag(FlagQuery::RequiresComputation(self.clone()))?;
        if columns.len() == 1 && !computes {
            Ok(Some(columns[0].clone()))
        } else {
            Ok(None)
        }
    }
}

/// Law: whatever the kind of expression, the mapping is the column that the engine says it reads,
/// where it says that this is the only one and that nothing is computed, and otherwise there is
/// none. The engine is asked for the columns first and for the computation then.
pub proof fn law_mapping_is_the_only_uncomputed_column(e: ExprView, m: RepliesView)
    ensures
        ({
            let q = FlagQueryView::RequiresComputation(e);
            let mapping = mapping_of(e, m);
            if !m.columns.contains_key(e) {
                mapping == Err::<Option<Seq<char>>, HaltView>(
                    HaltView::Ask(QueryView::Columns(e)),
                )
            } else if !m.flags.contains_key(q) {
                mapping == Err::<Option<Seq<char>>, HaltView>(HaltView::Ask(QueryView::Flag(q)))
            } else {
                &&& mapping is Ok
                &&& forall|column: Seq<char>|
                    mapping == Ok::<Option<Seq<char>>, HaltView>(Some(column)) <==> (!m.flags[q]
                        && m.columns[e] == seq![column])
            }
        }),
{
    if m.columns.contains_key(e) {
        let columns = m.columns[e];
        if columns.len() == 1 {
            assert(columns =~= seq![columns[0]]);
        }
        assert forall|column: Seq<char>| columns == seq![column] implies columns.len() == 1
            && columns[0] == column by {
            assert(seq![column].len() == 1 && seq![column][0] == column);
        }
    }
}

/// Law: the mapping depends on the two replies alone: expressions of which the engine says the
/// same have the same mapping.
pub proof fn law_same_replies_same_mapping(a: ExprView, b: ExprView, m: RepliesView)
    requires
        m.columns.contains_key(a),
        m.columns.contains_key(b),
        m.columns[a] == m.columns[b],
        m.flags.contains_key(FlagQueryView::RequiresComputation(a)),
        m.flags.contains_key(FlagQueryView::RequiresComputation(b)),
        m.flags[FlagQueryView::RequiresComputation(a)]
            == m.flags[FlagQueryView::RequiresComputation(b)],
    ensures
        mapping_of(a, m) == mapping_of(b, m),
{
}

/// Law: more replies do not change a mapping that is already decided.
pub proof fn law_mapping_stays(e: ExprView, m: RepliesView, more: RepliesView)
    requires
        extends(more, m),
        mapping_of(e, m) is Ok,
    ensures
        mapping_of(e, more) == mapping_of(e, m),
{
}

/// Law: finding the mapping fails only by asking, and asks only what has no reply yet.
pub proof fn law_mapping_asks_what_is_open(e: ExprView, m: RepliesView)
    ensures
        mapping_of(e, m) matches Err(h) ==> h matches HaltView::Ask(q) && !is_answered(m, q),
{
}

} // verus!
