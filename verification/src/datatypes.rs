//! Data types and fields: the vocabulary that expressions are typed in.
use vstd::prelude::*;
use vstd::string::*;

verus! {

/// How a count aggregation treats nulls.
#[derive(Debug, Clone, Copy, PartialEq, Eq, Structural, Hash)]
pub enum CountMode {
    All,
    Valid,
    Null,
}

/// The type of a column. `Other` stands for every type that expressions only pass along; it
/// carries the name under which the type is known to the engine.
#[derive(Debug, Hash)]
pub enum DataType {
    Null,
    Boolean,
    Int8,
    Int16,
    Int32,
    Int64,
    UInt8,
    UInt16,
    UInt32,
    UInt64,
    Float32,
    Float64,
    Date,
    Binary,
    Utf8,
    FixedSizeList(Box<DataType>, usize),
    List(Box<DataType>),
    Struct(Vec<Field>),
    Python,
    Other(String),
}

/// A named, typed column.
#[derive(Debug, Hash)]
pub struct Field {
    pub name: String,
    pub dtype: DataType,
}

/// The value of a `DataType`.
#[verifier::ext_equal]
pub enum DataTypeView {
    Null,
    Boolean,
    Int8,
    Int16,
    Int32,
    Int64,
    UInt8,
    UInt16,
    UInt32,
    UInt64,
    Float32,
    Float64,
    Date,
    Binary,
    Utf8,
    FixedSizeList(Box<DataTypeView>, usize),
    List(Box<DataTypeView>),
    Struct(Seq<FieldView>),
    Python,
    Other(Seq<char>),
}

/// The value of a `Field`.
#[verifier::ext_equal]
pub struct FieldView {
    pub name: Seq<char>,
    pub dtype: DataTypeView,
}

/// The value of a `Schema`: its fields, in order.
pub type SchemaView = Seq<FieldView>;

impl View for DataType {
    type V = DataTypeView;

    open spec fn view(&self) -> DataTypeView {
        data_type_view(*self)
    }
}

impl View for Field {
    type V = FieldView;

    open spec fn view(&self) -> FieldView {
        field_view(*self)
    }
}

/// The value of a data type.
pub open spec fn data_type_view(dtype: DataType) -> DataTypeView
    decreases dtype,
{
    match dtype {
        DataType::Null => DataTypeView::Null,
        DataType::Boolean => DataTypeView::Boolean,
        DataType::Int8 => DataTypeView::Int8,
        DataType::Int16 => DataTypeView::Int16,
        DataType::Int32 => DataTypeView::Int32,
        DataType::Int64 => DataTypeView::Int64,
        DataType::UInt8 => DataTypeView::UInt8,
        DataType::UInt16 => DataTypeView::UInt16,
        DataType::UInt32 => DataTypeView::UInt32,
        DataType::UInt64 => DataTypeView::UInt64,
        DataType::Float32 => DataTypeView::Float32,
        DataType::Float64 => DataTypeView::Float64,
        DataType::Date => DataTypeView::Date,
        DataType::Binary => DataTypeView::Binary,
        DataType::Utf8 => DataTypeView::Utf8,
        DataType::FixedSizeList(inner, n) => DataTypeView::FixedSizeList(
            Box::new(data_type_view(*inner)),
            n,
        ),
        DataType::List(inner) => DataTypeView::List(Box::new(data_type_view(*inner))),
        DataType::Struct(fields) => DataTypeView::Struct(fields_view(fields@)),
        DataType::Python => DataTypeView::Python,
        DataType::Other(name) => DataTypeView::Other(name@),
    }
}

/// The value of a field.
pub open spec fn field_view(field: Field) -> FieldView
    decreases field,
{
    FieldView { name: field.name@, dtype: data_type_view(field.dtype) }
}

/// The values of a list of fields.
pub open spec fn fields_view(fields: Seq<Field>) -> Seq<FieldView>
    decreases fields,
{
    Seq::new(
        fields.len(),
        |i: int|
            if 0 <= i < fields.len() {
                field_view(fields[i])
            } else {
                arbitrary()
            },
    )
}

impl Clone for DataType {
    fn clone(&self) -> (copy: Self)
        ensures
            copy@ == self@,
        decreases self,
    {
        match self {
            DataType::Null => DataType::Null,
            DataType::Boolean => DataType::Boolean,
            DataType::Int8 => DataType::Int8,
            DataType::Int16 => DataType::Int16,
            DataType::Int32 => DataType::Int32,
            DataType::Int64 => DataType::Int64,
            DataType::UInt8 => DataType::UInt8,
            DataType::UInt16 => DataType::UInt16,
            DataType::UInt32 => DataType::UInt32,
            DataType::UInt64 => DataType::UInt64,
            DataType::Float32 => DataType::Float32,
            DataType::Float64 => DataType::Float64,
            DataType::Date => DataType::Date,
            DataType::Binary => DataType::Binary,
            DataType::Utf8 => DataType::Utf8,
            DataType::FixedSizeList(inner, n) => DataType::FixedSizeList(
                Box::new((&**inner).clone()),
                *n,
            ),
            DataType::List(inner) => DataType::List(Box::new((&**inner).clone())),
            DataType::Struct(fields) => {
                let mut copy: Vec<Field> = Vec::new();
                let mut i: usize = 0;
                while i < fields.len()
                    invariant
                        *self == DataType::Struct(*fields),
                        i <= fields.len(),
                        copy.len() == i,
                        forall|k: int| 0 <= k < i ==> (#[trigger] copy@[k])@ == fields@[k]@,
                    decreases fields.len() - i,
                {
                    proof {
                        assert(decreases_to!(self->Struct_0 => self->Struct_0@));
                        assert(decreases_to!(self->Struct_0@ => self->Struct_0@[i as int]));
                        assert(decreases_to!(*self => self->Struct_0));
                    }
                    copy.push(fields[i].clone());
                    i = i + 1;
                }
                proof {
                    assert(fields_view(copy@) =~= fields_view(fields@));
                }
                DataType::Struct(copy)
            },
            DataType::Python => DataType::Python,
            DataType::Other(name) => DataType::Other(name.clone()),
        }
    }
}

impl Clone for Field {
    fn clone(&self) -> (copy: Self)
        ensures
            copy@ == self@,
        decreases self,
    {
        Field { name: self.name.clone(), dtype: self.dtype.clone() }
    }
}

impl DataType {
    /// Whether two data types are the same.
    pub fn same(&self, other: &DataType) -> (equal: bool)
        ensures
            equal == (self@ == other@),
        decreases self,
    {
        match (self, other) {
            (DataType::Null, DataType::Null) => true,
            (DataType::Boolean, DataType::Boolean) => true,
            (DataType::Int8, DataType::Int8) => true,
            (DataType::Int16, DataType::Int16) => true,
            (DataType::Int32, DataType::Int32) => true,
            (DataType::Int64, DataType::Int64) => true,
            (DataType::UInt8, DataType::UInt8) => true,
            (DataType::UInt16, DataType::UInt16) => true,
            (DataType::UInt32, DataType::UInt32) => true,
            (DataType::UInt64, DataType::UInt64) => true,
            (DataType::Float32, DataType::Float32) => true,
            (DataType::Float64, DataType::Float64) => true,
            (DataType::Date, DataType::Date) => true,
            (DataType::Binary, DataType::Binary) => true,
            (DataType::Utf8, DataType::Utf8) => true,
            (DataType::FixedSizeList(a, n), DataType::FixedSizeList(b, m)) => *n == *m && a.same(b),
            (DataType::List(a), DataType::List(b)) => a.same(b),
            (DataType::Struct(a), DataType::Struct(b)) => {
                if a.len() != b.len() {
                    proof {
                        assert(fields_view(a@).len() != fields_view(b@).len());
                    }
                    return false;
                }
                let mut i: usize = 0;
                while i < a.len()
                    invariant
                        *self == DataType::Struct(*a),
                        *other == DataType::Struct(*b),
                        a.len() == b.len(),
                        i <= a.len(),
                        forall|k: int| 0 <= k < i ==> (#[trigger] a@[k])@ == b@[k]@,
                    decreases a.len() - i,
                {
                    proof {
                        assert(decreases_to!(self->Struct_0 => self->Struct_0@));
                        assert(decreases_to!(self->Struct_0@ => self->Struct_0@[i as int]));
                        assert(decreases_to!(*self => self->Struct_0));
                    }
                    if !a[i].same(&b[i]) {
                        proof {
                            assert(fields_view(a@)[i as int] != fields_view(b@)[i as int]);
                        }
                        return false;
                    }
                    i = i + 1;
                }
                proof {
                    assert(fields_view(a@) =~= fields_view(b@));
                }
                true
            },
            (DataType::Python, DataType::Python) => true,
            (DataType::Other(a), DataType::Other(b)) => *a == *b,
            _ => false,
        }
    }
}

impl Field {
    /// A field of the given name and type.
    pub fn new(name: &str, dtype: DataType) -> (field: Field)
        ensures
            field@ == (FieldView { name: name@, dtype: dtype@ }),
    {
        Field { name: name.to_owned(), dtype }
    }

    /// The same type under another name.
    pub fn rename(&self, name: &str) -> (field: Field)
        ensures
            field@ == (FieldView { name: name@, dtype: self@.dtype }),
    {
        Field { name: name.to_owned(), dtype: self.dtype.clone() }
    }

    /// Whether two fields are the same.
    pub fn same(&self, other: &Field) -> (equal: bool)
        ensures
            equal == (self@ == other@),
        decreases self,
    {
        self.name == other.name && self.dtype.same(&other.dtype)
    }
}

impl PartialEq for DataType {
    fn eq(&self, other: &Self) -> (equal: bool) {
        self.same(other)
    }
}

impl vstd::std_specs::cmp::PartialEqSpecImpl for DataType {
    open spec fn obeys_eq_spec() -> bool {
        true
    }

    open spec fn eq_spec(&self, other: &Self) -> bool {
        self@ == other@
    }
}

impl Eq for DataType {

}

impl PartialEq for Field {
    fn eq(&self, other: &Self) -> (equal: bool) {
        self.same(other)
    }
}

impl vstd::std_specs::cmp::PartialEqSpecImpl for Field {
    open spec fn obeys_eq_spec() -> bool {
        true
    }

    open spec fn eq_spec(&self, other: &Self) -> bool {
        self@ == other@
    }
}

impl Eq for Field {

}

} // verus!
