//! The replies of the engine, gathered by question.
use vstd::prelude::*;

use crate::datatypes::{DataType, DataTypeView, Field, FieldView};
use crate::error::{DaftError, DaftErrorView};
use crate::expr::{ExprRef, ExprView};
use crate::lit::{LiteralValue, LiteralView};
use crate::query::{
    ErrorQuery, ErrorQueryView, FieldQuery, FieldQueryView, FlagQuery, FlagQueryView, Halt,
    HaltView, Query, QueryView, Reply, RuleQuery, RuleQueryView, Table, TextQuery, TextQueryView,
    TypeQuery, TypeQueryView,
};
use crate::text::strings_view;

verus! {

/// What the engine has replied so far.
pub struct Replies {
    flags: Table<FlagQuery, bool>,
    texts: Table<TextQuery, String>,
    types: Table<TypeQuery, DataType>,
    rules: Table<RuleQuery, Result<DataType, DaftError>>,
    fields: Table<FieldQuery, Result<Field, DaftError>>,
    errors: Table<ErrorQuery, DaftError>,
    sql: Table<LiteralValue, Option<Vec<u8>>>,
    columns: Table<ExprRef, Vec<String>>,
}

/// The value of a `Replies`: the engine as far as it is known. A value that has a reply to every
/// question stands for the engine as a whole.
#[verifier::ext_equal]
pub struct RepliesView {
    pub flags: Map<FlagQueryView, bool>,
    pub texts: Map<TextQueryView, Seq<char>>,
    pub types: Map<TypeQueryView, DataTypeView>,
    pub rules: Map<RuleQueryView, Result<DataTypeView, DaftErrorView>>,
    pub fields: Map<FieldQueryView, Result<FieldView, DaftErrorView>>,
    pub errors: Map<ErrorQueryView, DaftErrorView>,
    pub sql: Map<LiteralView, Option<Seq<u8>>>,
    pub columns: Map<ExprView, Seq<Seq<char>>>,
}

impl View for Replies {
    type V = RepliesView;

    closed spec fn view(&self) -> RepliesView {
        RepliesView {
            flags: self.flags@,
            texts: self.texts@,
            types: self.types@,
            rules: self.rules@,
            fields: self.fields@,
            errors: self.errors@,
            sql: self.sql@,
            columns: self.columns@,
        }
    }
}

/// Whether a question has a reply.
pub open spec fn is_answered(m: RepliesView, q: QueryView) -> bool {
    match q {
        QueryView::Flag(q) => m.flags.contains_key(q),
        QueryView::Text(q) => m.texts.contains_key(q),
        QueryView::Type(q) => m.types.contains_key(q),
        QueryView::Rule(q) => m.rules.contains_key(q),
        QueryView::Field(q) => m.fields.contains_key(q),
        QueryView::Error(q) => m.errors.contains_key(q),
        QueryView::Sql(value) => m.sql.contains_key(value),
        QueryView::Columns(e) => m.columns.contains_key(e),
    }
}

/// Whether every reply of `m` is also a reply of `more`.
pub open spec fn extends(more: RepliesView, m: RepliesView) -> bool {
    &&& m.flags.submap_of(more.flags)
    &&& m.texts.submap_of(more.texts)
    &&& m.types.submap_of(more.types)
    &&& m.rules.submap_of(more.rules)
    &&& m.fields.submap_of(more.fields)
    &&& m.errors.submap_of(more.errors)
    &&& m.sql.submap_of(more.sql)
    &&& m.columns.submap_of(more.columns)
}

/// The truth value that answers a question.
pub open spec fn flag_for(m: RepliesView, q: FlagQueryView) -> Result<bool, HaltView> {
    if m.flags.contains_key(q) {
        Ok(m.flags[q])
    } else {
        Err(HaltView::Ask(QueryView::Flag(q)))
    }
}

/// The text that answers a question.
pub open spec fn text_for(m: RepliesView, q: TextQueryView) -> Result<Seq<char>, HaltView> {
    if m.texts.contains_key(q) {
        Ok(m.texts[q])
    } else {
        Err(HaltView::Ask(QueryView::Text(q)))
    }
}

/// The type that answers a question.
pub open spec fn type_for(m: RepliesView, q: TypeQueryView) -> Result<DataTypeView, HaltView> {
    if m.types.contains_key(q) {
        Ok(m.types[q])
    } else {
        Err(HaltView::Ask(QueryView::Type(q)))
    }
}

/// The type or error with which a typing rule answers.
pub open spec fn verdict_for(m: RepliesView, q: RuleQueryView) -> Result<
    Result<DataTypeView, DaftErrorView>,
    HaltView,
> {
    if m.rules.contains_key(q) {
        Ok(m.rules[q])
    } else {
        Err(HaltView::Ask(QueryView::Rule(q)))
    }
}

/// The type that a typing rule finds; its error ends the computation.
pub open spec fn rule_for(m: RepliesView, q: RuleQueryView) -> Result<DataTypeView, HaltView> {
    match verdict_for(m, q) {
        Ok(Ok(dtype)) => Ok(dtype),
        Ok(Err(e)) => Err(HaltView::Error(e)),
        Err(h) => Err(h),
    }
}

/// The field that answers a question; an error in its place ends the computation.
pub open spec fn field_for(m: RepliesView, q: FieldQueryView) -> Result<FieldView, HaltView> {
    if m.fields.contains_key(q) {
        match m.fields[q] {
            Ok(field) => Ok(field),
            Err(e) => Err(HaltView::Error(e)),
        }
    } else {
        Err(HaltView::Ask(QueryView::Field(q)))
    }
}

/// The error that answers a question.
pub open spec fn error_for(m: RepliesView, q: ErrorQueryView) -> Result<DaftErrorView, HaltView> {
    if m.errors.contains_key(q) {
        Ok(m.errors[q])
    } else {
        Err(HaltView::Ask(QueryView::Error(q)))
    }
}

/// The SQL bytes of a literal, where it can be written.
pub open spec fn sql_for(m: RepliesView, value: LiteralView) -> Result<Option<Seq<u8>>, HaltView> {
    if m.sql.contains_key(value) {
        Ok(m.sql[value])
    } else {
        Err(HaltView::Ask(QueryView::Sql(value)))
    }
}

/// The columns that an expression reads.
pub open spec fn columns_for(m: RepliesView, e: ExprView) -> Result<Seq<Seq<char>>, HaltView> {
    if m.columns.contains_key(e) {
        Ok(m.columns[e])
    } else {
        Err(HaltView::Ask(QueryView::Columns(e)))
    }
}

/// The values of a result.
pub open spec fn result_view<T: View>(result: Result<T, Halt>) -> Result<T::V, HaltView> {
    match result {
        Ok(value) => Ok(value@),
        Err(h) => Err(h@),
    }
}

impl Replies {
    /// No replies.
    pub fn new() -> (replies: Replies)
        ensures
            forall|q: QueryView| !is_answered(replies@, q),
            replies@.flags == Map::<FlagQueryView, bool>::empty(),
            replies@.texts == Map::<TextQueryView, Seq<char>>::empty(),
            replies@.types == Map::<TypeQueryView, DataTypeView>::empty(),
            replies@.rules == Map::<RuleQueryView, Result<DataTypeView, DaftErrorView>>::empty(),
            replies@.fields == Map::<FieldQueryView, Result<FieldView, DaftErrorView>>::empty(),
            replies@.errors == Map::<ErrorQueryView, DaftErrorView>::empty(),
            replies@.sql == Map::<LiteralView, Option<Seq<u8>>>::empty(),
            replies@.columns == Map::<ExprView, Seq<Seq<char>>>::empty(),
    {
        Replies {
            flags: Table::new(),
            texts: Table::new(),
            types: Table::new(),
            rules: Table::new(),
            fields: Table::new(),
            errors: Table::new(),
            sql: Table::new(),
            columns: Table::new(),
        }
    }

    /// Records a truth value.
    pub fn record_flag(&mut self, question: FlagQuery, reply: bool)
        ensures
            final(self)@ == (RepliesView {
                flags: old(self)@.flags.insert(question@, reply),
                ..old(self)@
            }),
            is_answered(final(self)@, QueryView::Flag(question@)),
            !is_answered(old(self)@, QueryView::Flag(question@)) ==> extends(final(self)@, old(self)@),
    {
        self.flags.insert(question, reply);
    }

    /// Records a text.
    pub fn record_text(&mut self, question: TextQuery, reply: String)
        ensures
            final(self)@ == (RepliesView {
                texts: old(self)@.texts.insert(question@, reply@),
                ..old(self)@
            }),
            is_answered(final(self)@, QueryView::Text(question@)),
            !is_answered(old(self)@, QueryView::Text(question@)) ==> extends(final(self)@, old(self)@),
    {
        self.texts.insert(question, reply);
    }

    /// Records a type.
    pub fn record_type(&mut self, question: TypeQuery, reply: DataType)
        ensures
            final(self)@ == (RepliesView {
                types: old(self)@.types.insert(question@, reply@),
                ..old(self)@
            }),
            is_answered(final(self)@, QueryView::Type(question@)),
            !is_answered(old(self)@, QueryView::Type(question@)) ==> extends(final(self)@, old(self)@),
    {
        self.types.insert(question, reply);
    }

    /// Records what a typing rule found.
    pub fn record_rule(&mut self, question: RuleQuery, reply: Result<DataType, DaftError>)
        ensures
            final(self)@ == (RepliesView {
                rules: old(self)@.rules.insert(question@, reply.said()),
                ..old(self)@
            }),
            is_answered(final(self)@, QueryView::Rule(question@)),
            !is_answered(old(self)@, QueryView::Rule(question@)) ==> extends(final(self)@, old(self)@),
    {
        self.rules.insert(question, reply);
    }

    /// Records a field.
    pub fn record_field(&mut self, question: FieldQuery, reply: Result<Field, DaftError>)
        ensures
            final(self)@ == (RepliesView {
                fields: old(self)@.fields.insert(question@, reply.said()),
                ..old(self)@
            }),
            is_answered(final(self)@, QueryView::Field(question@)),
            !is_answered(old(self)@, QueryView::Field(question@)) ==> extends(final(self)@, old(self)@),
    {
        self.fields.insert(question, reply);
    }

    /// Records an error.
    pub fn record_error(&mut self, question: ErrorQuery, reply: DaftError)
        ensures
            final(self)@ == (RepliesView {
                errors: old(self)@.errors.insert(question@, reply@),
                ..old(self)@
            }),
            is_answered(final(self)@, QueryView::Error(question@)),
            !is_answered(old(self)@, QueryView::Error(question@)) ==> extends(
                final(self)@,
                old(self)@,
            ),
    {
        self.errors.insert(question, reply);
    }

    /// Records the SQL bytes of a literal.
    pub fn record_sql(&mut self, value: LiteralValue, reply: Option<Vec<u8>>)
        ensures
            final(self)@ == (RepliesView {
                sql: old(self)@.sql.insert(value@, reply.said()),
                ..old(self)@
            }),
            is_answered(final(self)@, QueryView::Sql(value@)),
            !is_answered(old(self)@, QueryView::Sql(value@)) ==> extends(final(self)@, old(self)@),
    {
        self.sql.insert(value, reply);
    }

    /// Records the columns that an expression reads.
    pub fn record_columns(&mut self, e: ExprRef, reply: Vec<String>)
        ensures
            final(self)@ == (RepliesView {
                columns: old(self)@.columns.insert((*e)@, strings_view(reply@)),
                ..old(self)@
            }),
            is_answered(final(self)@, QueryView::Columns((*e)@)),
            !is_answered(old(self)@, QueryView::Columns((*e)@)) ==> extends(final(self)@, old(self)@),
    {
        self.columns.insert(e, reply);
    }

    /// The truth value that answers a question.
    pub fn flag(&self, question: FlagQuery) -> (reply: Result<bool, Halt>)
        ensures
            result_view(reply) == flag_for(self@, question@),
    {
        match self.flags.get(&question) {
            Some(flag) => Ok(flag),
            None => Err(Halt::Ask(Query::Flag(question))),
        }
    }

    /// The text that answers a question.
    pub fn text(&self, question: TextQuery) -> (reply: Result<String, Halt>)
        ensures
            result_view(reply) == text_for(self@, question@),
    {
        match self.texts.get(&question) {
            Some(text) => Ok(text),
            None => Err(Halt::Ask(Query::Text(question))),
        }
    }

    /// The type that answers a question.
    pub fn data_type(&self, question: TypeQuery) -> (reply: Result<DataType, Halt>)
        ensures
            result_view(reply) == type_for(self@, question@),
    {
        match self.types.get(&question) {
            Some(dtype) => Ok(dtype),
            None => Err(Halt::Ask(Query::Type(question))),
        }
    }

    /// The type or error with which a typing rule answers.
    pub fn verdict(&self, question: RuleQuery) -> (reply: Result<
        Result<DataType, DaftError>,
        Halt,
    >)
        ensures
            match reply {
                Ok(found) => verdict_for(self@, question@) == Ok::<
                    Result<DataTypeView, DaftErrorView>,
                    HaltView,
                >(found.said()),
                Err(h) => verdict_for(self@, question@) == Err::<
                    Result<DataTypeView, DaftErrorView>,
                    HaltView,
                >(h@),
            },
    {
        match self.rules.get(&question) {
            Some(found) => Ok(found),
            None => Err(Halt::Ask(Query::Rule(question))),
        }
    }

    /// The type that a typing rule finds.
    pub fn rule(&self, question: RuleQuery) -> (reply: Result<DataType, Halt>)
        ensures
            result_view(reply) == rule_for(self@, question@),
    {
        match self.verdict(question) {
            Ok(Ok(dtype)) => Ok(dtype),
            Ok(Err(e)) => Err(Halt::Error(e)),
            Err(h) => Err(h),
        }
    }

    /// The field that answers a question.
    pub fn field(&self, question: FieldQuery) -> (reply: Result<Field, Halt>)
        ensures
            result_view(reply) == field_for(self@, question@),
    {
        match self.fields.get(&question) {
            Some(Ok(field)) => Ok(field),
            Some(Err(e)) => Err(Halt::Error(e)),
            None => Err(Halt::Ask(Query::Field(question))),
        }
    }

    /// The error that answers a question.
    pub fn error(&self, question: ErrorQuery) -> (reply: Result<DaftError, Halt>)
        ensures
            result_view(reply) == error_for(self@, question@),
    {
        match self.errors.get(&question) {
            Some(e) => Ok(e),
            None => Err(Halt::Ask(Query::Error(question))),
        }
    }

    /// The SQL bytes of a literal.
    pub fn sql(&self, value: &LiteralValue) -> (reply: Result<Option<Vec<u8>>, Halt>)
        ensures
            match reply {
                Ok(bytes) => sql_for(self@, value@) == Ok::<Option<Seq<u8>>, HaltView>(bytes.said()),
                Err(h) => sql_for(self@, value@) == Err::<Option<Seq<u8>>, HaltView>(h@),
            },
    {
        match self.sql.get(value) {
            Some(bytes) => Ok(bytes),
            None => Err(Halt::Ask(Query::Sql(value.clone()))),
        }
    }

    /// The columns that an expression reads.
    pub fn columns(&self, e: &ExprRef) -> (reply: Result<Vec<String>, Halt>)
        ensures
            match reply {
                Ok(list) => columns_for(self@, (**e)@) == Ok::<Seq<Seq<char>>, HaltView>(
                    strings_view(list@),
                ),
                Err(h) => columns_for(self@, (**e)@) == Err::<Seq<Seq<char>>, HaltView>(h@),
            },
    {
        match self.columns.get(e) {
            Some(list) => Ok(list),
            None => Err(Halt::Ask(Query::Columns(e.clone()))),
        }
    }
}

} // verus!
