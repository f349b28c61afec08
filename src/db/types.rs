//! The primitive types that a model field can name.
use vstd::prelude::*;

verus! {

/// How a value of a type is stored.
#[derive(Clone, Copy, Debug, PartialEq, Eq, Structural)]
pub enum DataType {
    UUID,
    String,
    DateTime,
}

/// A type that a model field can have.
pub trait Type {
    fn data_type(&self) -> DataType;
}

#[derive(Clone, Copy, Debug)]
pub struct UuidType;

#[derive(Clone, Copy, Debug)]
pub struct StringType;

#[derive(Clone, Copy, Debug)]
pub struct DateTimeType;

/// Text stored encrypted: kept as a string.
#[derive(Clone, Copy, Debug)]
pub struct EncryptedType;

impl Type for UuidType {
    fn data_type(&self) -> DataType {
        DataType::UUID
    }
}

impl Type for StringType {
    fn data_type(&self) -> DataType {
        DataType::String
    }
}

impl Type for DateTimeType {
    fn data_type(&self) -> DataType {
        DataType::DateTime
    }
}

impl Type for EncryptedType {
    fn data_type(&self) -> DataType {
        DataType::String
    }
}

/// One of the built-in types, as a field of a validated model holds it.
#[derive(Clone, Copy, Debug, PartialEq, Eq, Structural)]
pub enum BuiltinType {
    Uuid,
    String,
    DateTime,
    Encrypted,
}

/// How a value of the built-in type `t` is stored.
pub open spec fn data_type_of(t: BuiltinType) -> DataType {
    match t {
        BuiltinType::Uuid => DataType::UUID,
        BuiltinType::String => DataType::String,
        BuiltinType::DateTime => DataType::DateTime,
        BuiltinType::Encrypted => DataType::String,
    }
}

impl BuiltinType {
    pub fn data_type(&self) -> (r: DataType)
        ensures
            r == data_type_of(*self),
    {
        match self {
            BuiltinType::Uuid => DataType::UUID,
            BuiltinType::String => DataType::String,
            BuiltinType::DateTime => DataType::DateTime,
            BuiltinType::Encrypted => DataType::String,
        }
    }
}

/// A table from type names to types.
#[verifier::external_body]
pub struct TypeTable {
    inner: hashbrown::HashMap<String, BuiltinType>,
}

pub uninterp spec fn type_table_contents(t: TypeTable) -> Map<Seq<char>, BuiltinType>;

impl TypeTable {
    /// Relies on hashbrown::HashMap::new: the table starts empty.
    #[verifier::external_body]
    pub fn new() -> (r: TypeTable)
        ensures
            (type_table_contents(r) == Map::<Seq<char>, BuiltinType>::empty()),
    {
        TypeTable { inner: hashbrown::HashMap::new() }
    }

    /// Relies on hashbrown::HashMap::insert: the name maps to the type afterwards.
    #[verifier::external_body]
    pub fn insert(&mut self, k: String, v: BuiltinType)
        ensures
            type_table_contents(*final(self)) == type_table_contents(*old(self)).insert(k@, v),
    {
        self.inner.insert(k, v);
    }

    /// Relies on hashbrown::HashMap::get: the type the name maps to.
    #[verifier::external_body]
    pub fn get(&self, k: &str) -> (r: Option<BuiltinType>)
        ensures
            type_table_contents(*self).contains_key(k@) <==> r is Some,
            r is Some ==> r->0 == type_table_contents(*self)[k@],
    {
        self.inner.get(k).copied()
    }
}

/// The registry of the types that model fields can name.
pub struct TypeStore {
    inner: TypeTable,
}

/// The built-in types by name.
pub open spec fn builtin_types() -> Map<Seq<char>, BuiltinType> {
    map![
        "UUID"@ => BuiltinType::Uuid,
        "String"@ => BuiltinType::String,
        "DateTime"@ => BuiltinType::DateTime,
        "Encrypted"@ => BuiltinType::Encrypted,
    ]
}

impl TypeStore {
    pub closed spec fn types(&self) -> Map<Seq<char>, BuiltinType> {
        type_table_contents(self.inner)
    }

    pub fn empty() -> (r: TypeStore)
        ensures
            r.types() == Map::<Seq<char>, BuiltinType>::empty(),
    {
        TypeStore { inner: TypeTable::new() }
    }

    pub fn get(&self, name: &str) -> (r: Option<BuiltinType>)
        ensures
            self.types().contains_key(name@) <==> r is Some,
            r is Some ==> r->0 == self.types()[name@],
    {
        self.inner.get(name)
    }
}

impl Default for TypeStore {
    fn default() -> (r: TypeStore)
        ensures
            r.types() == builtin_types(),
    {
        let mut out = Self::empty();
        out.inner.insert(String::from_str("UUID"), BuiltinType::Uuid);
        out.inner.insert(String::from_str("String"), BuiltinType::String);
        out.inner.insert(String::from_str("DateTime"), BuiltinType::DateTime);
        out.inner.insert(String::from_str("Encrypted"), BuiltinType::Encrypted);
        proof {
            assert(out.types() =~= builtin_types());
        }
        out
    }
}

} // verus!
