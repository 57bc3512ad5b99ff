//! The table of recognized types and the classification it gives.
//!
//! A written type is looked up by its shape. The table is data: a caller may
//! start from the standard table and register further types, or build a
//! table of its own. A shape that no row recognizes is unknown.

use vstd::prelude::*;
use vstd::string::*;
use crate::types::{Ownership, Shape, TypeRef};

verus! {

/// The classes a written type can fall into.
#[derive(Clone, Copy, Debug, PartialEq, Eq, Structural)]
pub enum TypeClass {
    /// Can be built from parts of an incoming request.
    KnownExtractor,
    /// Handed to the handler as it is, without extraction.
    KnownSpecialArgument,
    /// Can be turned into an outgoing response.
    KnownResponseType,
    /// Nothing in the table recognizes it.
    Unknown,
}

/// Where in a signature a type is written.
#[derive(Clone, Copy, Debug, PartialEq, Eq, Structural)]
pub enum Role {
    Parameter,
    Return,
}

/// What a row of the table says of the shape it names.
#[derive(Clone, Copy, Debug, PartialEq, Eq, Structural)]
pub enum Recognition {
    /// An extractor that leaves the request body alone.
    Extractor,
    /// An extractor that consumes the entire request body.
    BodyExtractor,
    /// A special argument.
    SpecialArgument,
    /// A response type.
    ResponseType,
}

impl Recognition {
    /// The class that this recognition puts a type into.
    pub open spec fn class(self) -> TypeClass {
        match self {
            Recognition::Extractor => TypeClass::KnownExtractor,
            Recognition::BodyExtractor => TypeClass::KnownExtractor,
            Recognition::SpecialArgument => TypeClass::KnownSpecialArgument,
            Recognition::ResponseType => TypeClass::KnownResponseType,
        }
    }

    /// Whether this recognition speaks of a type written in `role`.
    pub open spec fn fits(self, role: Role) -> bool {
        match role {
            Role::Parameter => self != Recognition::ResponseType,
            Role::Return => self == Recognition::ResponseType,
        }
    }

    /// The class that this recognition puts a type into.
    pub fn type_class(&self) -> (class: TypeClass)
        ensures
            class == self.class(),
    {
        match self {
            Recognition::Extractor => TypeClass::KnownExtractor,
            Recognition::BodyExtractor => TypeClass::KnownExtractor,
            Recognition::SpecialArgument => TypeClass::KnownSpecialArgument,
            Recognition::ResponseType => TypeClass::KnownResponseType,
        }
    }

    /// Whether this recognition speaks of a type written in `role`.
    pub fn fits_role(&self, role: Role) -> (fits: bool)
        ensures
            fits == self.fits(role),
    {
        match role {
            Role::Parameter => !matches!(self, Recognition::ResponseType),
            Role::Return => matches!(self, Recognition::ResponseType),
        }
    }
}

/// One row of the table, as a mathematical value.
pub struct TableRow {
    pub shape: Shape,
    pub recognition: Recognition,
}

/// One row of the table.
#[derive(Debug, PartialEq, Eq)]
pub struct TableEntry {
    pub name: String,
    pub ownership: Ownership,
    pub arity: usize,
    pub recognition: Recognition,
}

impl View for TableEntry {
    type V = TableRow;

    open spec fn view(&self) -> TableRow {
        row(self.name@, self.ownership, self.arity as nat, self.recognition)
    }
}

impl TableEntry {
    /// Whether this row names the shape of `t`.
    pub fn names(&self, t: &TypeRef) -> (same: bool)
        ensures
            same == (self@.shape == t.shape()),
    {
        let same_name = self.name == t.name;
        same_name && self.ownership == t.ownership && self.arity == t.generic_args.len()
    }
}

/// The row that recognizes the shape `name`, `ownership`, `arity` as `recognition`.
pub open spec fn row(
    name: Seq<char>,
    ownership: Ownership,
    arity: nat,
    recognition: Recognition,
) -> TableRow {
    TableRow { shape: Shape { name: name, ownership: ownership, arity: arity }, recognition: recognition }
}

/// What the first row of `rows` that names `shape` and fits `role` says, if
/// there is such a row.
pub open spec fn recognized(rows: Seq<TableRow>, shape: Shape, role: Role) -> Option<Recognition>
    decreases rows.len(),
{
    if rows.len() == 0 {
        None
    } else if rows[0].shape == shape && rows[0].recognition.fits(role) {
        Some(rows[0].recognition)
    } else {
        recognized(rows.skip(1), shape, role)
    }
}

/// The class of a type of shape `shape` written in `role`.
pub open spec fn class_of(rows: Seq<TableRow>, shape: Shape, role: Role) -> TypeClass {
    match recognized(rows, shape, role) {
        Some(recognition) => recognition.class(),
        None => TypeClass::Unknown,
    }
}

/// Whether a parameter of shape `shape` consumes the entire request body.
pub open spec fn takes_body(rows: Seq<TableRow>, shape: Shape) -> bool {
    recognized(rows, shape, Role::Parameter) == Some(Recognition::BodyExtractor)
}

/// The rows of the standard table: the framework's own extractors, the
/// request parts it hands over as they are, and the response types it
/// converts, in the order in which they are consulted.
pub open spec fn standard_rows() -> Seq<TableRow> {
    Seq::<TableRow>::empty()
        .push(row("String"@, Ownership::Owned, 0, Recognition::BodyExtractor))
        .push(row("Bytes"@, Ownership::Owned, 0, Recognition::BodyExtractor))
        .push(row("Json"@, Ownership::Owned, 1, Recognition::BodyExtractor))
        .push(row("Form"@, Ownership::Owned, 1, Recognition::BodyExtractor))
        .push(row("Multipart"@, Ownership::Owned, 0, Recognition::BodyExtractor))
        .push(row("BodyStream"@, Ownership::Owned, 0, Recognition::BodyExtractor))
        .push(row("RawBody"@, Ownership::Owned, 1, Recognition::BodyExtractor))
        .push(row("Request"@, Ownership::Owned, 1, Recognition::BodyExtractor))
        .push(row("Path"@, Ownership::Owned, 1, Recognition::Extractor))
        .push(row("Query"@, Ownership::Owned, 1, Recognition::Extractor))
        .push(row("Extension"@, Ownership::Owned, 1, Recognition::Extractor))
        .push(row("TypedHeader"@, Ownership::Owned, 1, Recognition::Extractor))
        .push(row("ConnectInfo"@, Ownership::Owned, 1, Recognition::Extractor))
        .push(row("RawQuery"@, Ownership::Owned, 0, Recognition::Extractor))
        .push(row("MatchedPath"@, Ownership::Owned, 0, Recognition::Extractor))
        .push(row("OriginalUri"@, Ownership::Owned, 0, Recognition::Extractor))
        .push(row("Method"@, Ownership::Owned, 0, Recognition::SpecialArgument))
        .push(row("Uri"@, Ownership::Owned, 0, Recognition::SpecialArgument))
        .push(row("Version"@, Ownership::Owned, 0, Recognition::SpecialArgument))
        .push(row("HeaderMap"@, Ownership::Owned, 0, Recognition::SpecialArgument))
        .push(row("()"@, Ownership::Owned, 0, Recognition::ResponseType))
        .push(row("str"@, Ownership::Shared, 0, Recognition::ResponseType))
        .push(row("String"@, Ownership::Owned, 0, Recognition::ResponseType))
        .push(row("bool"@, Ownership::Owned, 0, Recognition::ResponseType))
        .push(row("Bytes"@, Ownership::Owned, 0, Recognition::ResponseType))
        .push(row("Json"@, Ownership::Owned, 1, Recognition::ResponseType))
        .push(row("Html"@, Ownership::Owned, 1, Recognition::ResponseType))
        .push(row("StatusCode"@, Ownership::Owned, 0, Recognition::ResponseType))
        .push(row("HeaderMap"@, Ownership::Owned, 0, Recognition::ResponseType))
        .push(row("Response"@, Ownership::Owned, 1, Recognition::ResponseType))
}

/// The table of recognized types.
#[derive(Debug, PartialEq, Eq)]
pub struct TypeTable {
    pub entries: Vec<TableEntry>,
}

impl View for TypeTable {
    type V = Seq<TableRow>;

    open spec fn view(&self) -> Seq<TableRow> {
        self.entries@.map_values(|e: TableEntry| e@)
    }
}

impl TypeTable {
    /// The table that recognizes nothing.
    pub fn new() -> (table: TypeTable)
        ensures
            table@ == Seq::<TableRow>::empty(),
    {
        let table = TypeTable { entries: Vec::new() };
        assert(table@ =~= Seq::<TableRow>::empty());
        table
    }

    /// The standard table.
    pub fn standard() -> (table: TypeTable)
        ensures
            table@ == standard_rows(),
    {
        let mut table = TypeTable::new();
        table.register("String", Ownership::Owned, 0, Recognition::BodyExtractor);
        table.register("Bytes", Ownership::Owned, 0, Recognition::BodyExtractor);
        table.register("Json", Ownership::Owned, 1, Recognition::BodyExtractor);
        table.register("Form", Ownership::Owned, 1, Recognition::BodyExtractor);
        table.register("Multipart", Ownership::Owned, 0, Recognition::BodyExtractor);
        table.register("BodyStream", Ownership::Owned, 0, Recognition::BodyExtractor);
        table.register("RawBody", Ownership::Owned, 1, Recognition::BodyExtractor);
        table.register("Request", Ownership::Owned, 1, Recognition::BodyExtractor);
        table.register("Path", Ownership::Owned, 1, Recognition::Extractor);
        table.register("Query", Ownership::Owned, 1, Recognition::Extractor);
        table.register("Extension", Ownership::Owned, 1, Recognition::Extractor);
        table.register("TypedHeader", Ownership::Owned, 1, Recognition::Extractor);
        table.register("ConnectInfo", Ownership::Owned, 1, Recognition::Extractor);
        table.register("RawQuery", Ownership::Owned, 0, Recognition::Extractor);
        table.register("MatchedPath", Ownership::Owned, 0, Recognition::Extractor);
        table.register("OriginalUri", Ownership::Owned, 0, Recognition::Extractor);
        table.register("Method", Ownership::Owned, 0, Recognition::SpecialArgument);
        table.register("Uri", Ownership::Owned, 0, Recognition::SpecialArgument);
        table.register("Version", Ownership::Owned, 0, Recognition::SpecialArgument);
        table.register("HeaderMap", Ownership::Owned, 0, Recognition::SpecialArgument);
        table.register("()", Ownership::Owned, 0, Recognition::ResponseType);
        table.register("str", Ownership::Shared, 0, Recognition::ResponseType);
        table.register("String", Ownership::Owned, 0, Recognition::ResponseType);
        table.register("bool", Ownership::Owned, 0, Recognition::ResponseType);
        table.register("Bytes", Ownership::Owned, 0, Recognition::ResponseType);
        table.register("Json", Ownership::Owned, 1, Recognition::ResponseType);
        table.register("Html", Ownership::Owned, 1, Recognition::ResponseType);
        table.register("StatusCode", Ownership::Owned, 0, Recognition::ResponseType);
        table.register("HeaderMap", Ownership::Owned, 0, Recognition::ResponseType);
        table.register("Response", Ownership::Owned, 1, Recognition::ResponseType);
        table
    }

    /// Adds a row after the rows that are there. Earlier rows win.
    pub fn register(
        &mut self,
        name: &str,
        ownership: Ownership,
        arity: usize,
        recognition: Recognition,
    )
        ensures
            final(self)@ == old(self)@.push(row(name@, ownership, arity as nat, recognition)),
    {
        let entry = TableEntry {
            name: String::from_str(name),
            ownership: ownership,
            arity: arity,
            recognition: recognition,
        };
        self.entries.push(entry);
        assert(self@ =~= old(self)@.push(row(name@, ownership, arity as nat, recognition)));
    }

    /// What the table says of `t` written in `role`.
    pub fn recognize(&self, t: &TypeRef, role: Role) -> (found: Option<Recognition>)
        ensures
            found == recognized(self@, t.shape(), role),
    {
        let mut i: usize = 0;
        assert(self@.skip(0) =~= self@);
        while i < self.entries.len()
            invariant
                i <= self.entries.len(),
                recognized(self@, t.shape(), role) == recognized(
                    self@.skip(i as int),
                    t.shape(),
                    role,
                ),
            decreases self.entries.len() - i,
        {
            let entry = &self.entries[i];
            assert(self@.skip(i as int)[0] == entry@);
            if entry.names(t) && entry.recognition.fits_role(role) {
                return Some(entry.recognition);
            }
            assert(self@.skip(i as int).skip(1) =~= self@.skip(i + 1));
            i += 1;
        }
        None
    }

    /// The class of `t` written in `role`.
    pub fn classify(&self, t: &TypeRef, role: Role) -> (class: TypeClass)
        ensures
            class == class_of(self@, t.shape(), role),
    {
        match self.recognize(t, role) {
            Some(recognition) => recognition.type_class(),
            None => TypeClass::Unknown,
        }
    }

    /// Whether `t`, written as a parameter, consumes the entire request body.
    pub fn consumes_body(&self, t: &TypeRef) -> (consumes: bool)
        ensures
            consumes == takes_body(self@, t.shape()),
    {
        match self.recognize(t, Role::Parameter) {
            Some(Recognition::BodyExtractor) => true,
            _ => false,
        }
    }
}

} // verus!
