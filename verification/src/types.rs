//! Syntactic descriptions of types.
//!
//! The analysis never resolves a type. It looks at how the type is written:
//! the name it ends in, whether it is written behind a reference, and how
//! many generic arguments it is given.

use vstd::prelude::*;
use vstd::string::*;

verus! {

/// How a type is held where it is written.
#[derive(Clone, Copy, Debug, PartialEq, Eq, Structural)]
pub enum Ownership {
    /// Written plainly, as in `String`.
    Owned,
    /// Written behind `&`, as in `&str`.
    Shared,
    /// Written behind `&mut`.
    Exclusive,
}

/// A type as it is written in a signature.
#[derive(Debug, PartialEq, Eq)]
pub struct TypeRef {
    /// The last segment of the type's path; `()` for the unit type.
    pub name: String,
    /// The generic arguments, in the order written.
    pub generic_args: Vec<TypeRef>,
    /// Whether the type is written behind a reference.
    pub ownership: Ownership,
}

/// What the classification reads of a written type.
pub struct Shape {
    pub name: Seq<char>,
    pub ownership: Ownership,
    pub arity: nat,
}

impl TypeRef {
    /// The part of the written type that decides its classification.
    pub open spec fn shape(&self) -> Shape {
        Shape {
            name: self.name@,
            ownership: self.ownership,
            arity: self.generic_args@.len(),
        }
    }

    /// The owned type `name`, without generic arguments.
    pub fn named(name: &str) -> (t: TypeRef)
        ensures
            t.name@ == name@,
            t.generic_args@.len() == 0,
            t.ownership == Ownership::Owned,
    {
        TypeRef {
            name: String::from_str(name),
            generic_args: Vec::new(),
            ownership: Ownership::Owned,
        }
    }

    /// The owned type `name` applied to `generic_args`.
    pub fn generic(name: &str, generic_args: Vec<TypeRef>) -> (t: TypeRef)
        ensures
            t.name@ == name@,
            t.generic_args == generic_args,
            t.ownership == Ownership::Owned,
    {
        TypeRef {
            name: String::from_str(name),
            generic_args: generic_args,
            ownership: Ownership::Owned,
        }
    }

    /// The same type written behind a shared reference.
    pub fn behind_shared(self) -> (t: TypeRef)
        ensures
            t.name == self.name,
            t.generic_args == self.generic_args,
            t.ownership == Ownership::Shared,
    {
        TypeRef { name: self.name, generic_args: self.generic_args, ownership: Ownership::Shared }
    }

    /// The same type written behind an exclusive reference.
    pub fn behind_exclusive(self) -> (t: TypeRef)
        ensures
            t.name == self.name,
            t.generic_args == self.generic_args,
            t.ownership == Ownership::Exclusive,
    {
        TypeRef {
            name: self.name,
            generic_args: self.generic_args,
            ownership: Ownership::Exclusive,
        }
    }

    /// The unit type.
    pub fn unit() -> (t: TypeRef)
        ensures
            t.shape() == unit_shape(),
    {
        TypeRef::named("()")
    }
}

/// The shape of the unit type.
pub open spec fn unit_shape() -> Shape {
    Shape { name: "()"@, ownership: Ownership::Owned, arity: 0 }
}

} // verus!
