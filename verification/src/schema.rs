//! Schemas: the columns that an expression can refer to.
use vstd::prelude::*;
use vstd::string::*;

use crate::datatypes::{field_view, fields_view, Field, FieldView, SchemaView};
use crate::error::{DaftError, DaftErrorView, DaftResult};

verus! {

/// The columns of a table, in order. No two of them have the same name.
#[derive(Debug, Hash)]
pub struct Schema {
    fields: Vec<Field>,
}

/// Identifies the column that an expression computes: expressions of the same identifier
/// compute the same column.
#[derive(Debug, Hash)]
pub struct FieldID {
    pub id: String,
}

impl View for FieldID {
    type V = Seq<char>;

    open spec fn view(&self) -> Seq<char> {
        self.id@
    }
}

impl FieldID {
    /// The identifier with the given text.
    pub fn new(id: String) -> (field_id: FieldID)
        ensures
            field_id@ == id@,
    {
        FieldID { id }
    }
}

/// Whether the first `n` fields of a schema leave the name free.
pub open spec fn name_is_free(schema: SchemaView, n: int, name: Seq<char>) -> bool {
    forall|i: int| 0 <= i < n ==> (#[trigger] schema[i]).name != name
}

/// Whether the names of the first `n` fields are all different.
pub open spec fn names_differ(schema: SchemaView, n: int) -> bool {
    forall|i: int| 0 <= i < n ==> #[trigger] name_is_free(schema, i, schema[i].name)
}

/// The field of the given name, where there is one.
pub open spec fn lookup(schema: SchemaView, name: Seq<char>) -> Option<FieldView>
    decreases schema.len(),
{
    if schema.len() == 0 {
        None
    } else if schema[0].name == name {
        Some(schema[0])
    } else {
        lookup(schema.drop_first(), name)
    }
}

impl View for Schema {
    type V = SchemaView;

    closed spec fn view(&self) -> SchemaView {
        fields_view(self.fields@)
    }
}

impl Schema {
    #[verifier::type_invariant]
    spec fn distinct(self) -> bool {
        names_differ(fields_view(self.fields@), self.fields@.len() as int)
    }

    /// A schema without columns.
    pub fn empty() -> (schema: Schema)
        ensures
            schema@ == Seq::<FieldView>::empty(),
    {
        let schema = Schema { fields: Vec::new() };
        proof {
            assert(fields_view(schema.fields@) =~= Seq::<FieldView>::empty());
        }
        schema
    }

    /// A schema of the given columns. The first column whose name an earlier one has is refused;
    /// the text of that error is this crate's own.
    pub fn new(fields: Vec<Field>) -> (schema: DaftResult<Schema>)
        ensures
            schema is Ok <==> names_differ(fields_view(fields@), fields@.len() as int),
            schema matches Ok(s) ==> s@ == fields_view(fields@),
            schema matches Err(e) ==> exists|i: int|
                0 <= i < fields@.len() && names_differ(fields_view(fields@), i) && !name_is_free(
                    fields_view(fields@),
                    i,
                    fields@[i].name@,
                ) && e@ == #[trigger] repeated_name(fields@[i]@),
    {
        let ghost all = fields_view(fields@);
        let mut i: usize = 0;
        while i < fields.len()
            invariant
                i <= fields.len(),
                all == fields_view(fields@),
                names_differ(all, i as int),
            decreases fields.len() - i,
        {
            let mut j: usize = 0;
            while j < i
                invariant
                    i < fields.len(),
                    j <= i,
                    all == fields_view(fields@),
                    names_differ(all, i as int),
                    name_is_free(all, j as int, fields@[i as int].name@),
                decreases i - j,
            {
                if fields[j].name == fields[i].name {
                    let mut text = "duplicate field name: ".to_owned();
                    text.append(fields[i].name.as_str());
                    proof {
                        assert(all[j as int].name == fields@[i as int].name@);
                        assert(!name_is_free(all, i as int, fields@[i as int].name@));
                        assert(!name_is_free(all, i as int, all[i as int].name));
                        assert(DaftErrorView::ValueError(text@) == repeated_name(
                            fields@[i as int]@,
                        ));
                    }
                    return Err(DaftError::ValueError(text));
                }
                j = j + 1;
            }
            i = i + 1;
        }
        Ok(Schema { fields })
    }

    /// The column of the given name, where there is one.
    pub fn get_field(&self, name: &str) -> (field: Option<&Field>)
        ensures
            match field {
                Some(f) => lookup(self@, name@) == Some(f@),
                None => lookup(self@, name@) is None,
            },
    {
        let mut i: usize = 0;
        proof {
            assert(self@.skip(0) =~= self@);
        }
        while i < self.fields.len()
            invariant
                i <= self.fields.len(),
                self@ == fields_view(self.fields@),
                lookup(self@, name@) == lookup(self@.skip(i as int), name@),
            decreases self.fields.len() - i,
        {
            proof {
                assert(self@.skip(i as int)[0] == field_view(self.fields@[i as int]));
                assert(self@.skip(i as int).drop_first() =~= self@.skip(i + 1));
            }
            if *self.fields[i].name.as_str() == *name {
                return Some(&self.fields[i]);
            }
            i = i + 1;
        }
        None
    }

    /// Whether two schemas are the same.
    pub fn same(&self, other: &Schema) -> (equal: bool)
        ensures
            equal == (self@ == other@),
    {
        if self.fields.len() != other.fields.len() {
            proof {
                assert(self@.len() != other@.len());
            }
            return false;
        }
        let mut i: usize = 0;
        while i < self.fields.len()
            invariant
                self.fields.len() == other.fields.len(),
                i <= self.fields.len(),
                forall|k: int|
                    0 <= k < i ==> (#[trigger] self.fields@[k])@ == other.fields@[k]@,
            decreases self.fields.len() - i,
        {
            if !self.fields[i].same(&other.fields[i]) {
                proof {
                    assert(self@[i as int] != other@[i as int]);
                }
                return false;
            }
            i = i + 1;
        }
        proof {
            assert(self@ =~= other@);
        }
        true
    }
}

/// The error for a schema in which a name occurs again, in this crate's own words.
pub open spec fn repeated_name(field: FieldView) -> DaftErrorView {
    DaftErrorView::ValueError("duplicate field name: "@ + field.name)
}

impl Clone for Schema {
    fn clone(&self) -> (copy: Self)
        ensures
            copy@ == self@,
    {
        proof {
            use_type_invariant(self);
        }
        let mut copy: Vec<Field> = Vec::new();
        let mut i: usize = 0;
        while i < self.fields.len()
            invariant
                i <= self.fields.len(),
                copy.len() == i,
                forall|k: int| 0 <= k < i ==> (#[trigger] copy@[k])@ == self.fields@[k]@,
            decreases self.fields.len() - i,
        {
            copy.push(self.fields[i].clone());
            i = i + 1;
        }
        proof {
            assert(fields_view(copy@) =~= fields_view(self.fields@));
        }
        Schema { fields: copy }
    }
}

impl PartialEq for Schema {
    fn eq(&self, other: &Self) -> (equal: bool) {
        self.same(other)
    }
}

impl vstd::std_specs::cmp::PartialEqSpecImpl for Schema {
    open spec fn obeys_eq_spec() -> bool {
        true
    }

    open spec fn eq_spec(&self, other: &Self) -> bool {
        self@ == other@
    }
}

impl Eq for Schema {

}

impl PartialEq for FieldID {
    fn eq(&self, other: &Self) -> (equal: bool) {
        self.id == other.id
    }
}

impl vstd::std_specs::cmp::PartialEqSpecImpl for FieldID {
    open spec fn obeys_eq_spec() -> bool {
        true
    }

    open spec fn eq_spec(&self, other: &Self) -> bool {
        self@ == other@
    }
}

impl Eq for FieldID {

}

/// Law: looking a column up finds a column of that name, and finds none only where there is
/// none.
pub proof fn law_lookup_finds_by_name(schema: SchemaView, name: Seq<char>)
    ensures
        lookup(schema, name) matches Some(field) ==> field.name == name && schema.contains(field),
        lookup(schema, name) is None <==> name_is_free(schema, schema.len() as int, name),
    decreases schema.len(),
{
    if schema.len() > 0 && schema[0].name != name {
        let rest = schema.drop_first();
        law_lookup_finds_by_name(rest, name);
        if let Some(field) = lookup(rest, name) {
            let k = rest.index_of(field);
            assert(rest[k] == field);
            assert(schema[k + 1] == field);
        }
        if name_is_free(rest, rest.len() as int, name) {
            assert forall|i: int| 0 <= i < schema.len() implies (#[trigger] schema[i]).name
                != name by {
                if i > 0 {
                    assert(rest[i - 1] == schema[i]);
                }
            }
        }
        if name_is_free(schema, schema.len() as int, name) {
            assert forall|i: int| 0 <= i < rest.len() implies (#[trigger] rest[i]).name != name by {
                assert(rest[i] == schema[i + 1]);
            }
        }
    }
}

} // verus!
