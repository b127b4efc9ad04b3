//! Laws that span the modules.
use vstd::prelude::*;

use crate::datatypes::SchemaView;
use crate::display::{law_text_asks_what_is_open, text_of};
use crate::expr::ExprView;
use crate::mapping::{law_mapping_asks_what_is_open, mapping_of};
use crate::naming::name_of;
use crate::query::{HaltView, QueryView};
use crate::replies::{is_answered, RepliesView};
use crate::semantic::{id_of, law_id_asks_what_is_open};
use crate::sql::{law_sql_asks_what_is_open, law_sql_ignores_alias, sql_text_of};
use crate::tree::contains_agg;
use crate::typing::{field_of, law_field_asks_what_is_open, type_of};

verus! {

/// Law: with a reply to every question nothing is asked. Identifiers, displayed forms, SQL and
/// mappings are there; typing ends in a field, in an error, or has no result.
pub proof fn law_full_replies_decide(e: ExprView, schema: SchemaView, m: RepliesView)
    requires
        forall|q: QueryView| #[trigger] is_answered(m, q),
    ensures
        id_of(e, schema, m) is Ok,
        text_of(e, m) is Ok,
        sql_text_of(e, m) is Ok,
        mapping_of(e, m) is Ok,
        !(field_of(e, schema, m) matches Err(HaltView::Ask(_))),
{
    law_id_asks_what_is_open(e, schema, m);
    law_text_asks_what_is_open(e, m);
    law_sql_asks_what_is_open(e, m);
    law_mapping_asks_what_is_open(e, m);
    law_field_asks_what_is_open(e, schema, m);
}

/// Law: an alias gives an expression its name and changes neither its type, nor its identifier,
/// nor its SQL, nor whether it aggregates.
pub proof fn law_alias_changes_the_name_alone(
    e: ExprView,
    name: Seq<char>,
    schema: SchemaView,
    m: RepliesView,
)
    ensures
        name_of(ExprView::Alias(Box::new(e), name)) == Some(name),
        type_of(ExprView::Alias(Box::new(e), name), schema, m) == type_of(e, schema, m),
        id_of(ExprView::Alias(Box::new(e), name), schema, m) == id_of(e, schema, m),
        sql_text_of(ExprView::Alias(Box::new(e), name), m) == sql_text_of(e, m),
        contains_agg(ExprView::Alias(Box::new(e), name)) == contains_agg(e),
{
    law_sql_ignores_alias(e, name, m);
}

} // verus!
