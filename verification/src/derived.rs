//! Implementations of the duplication contract written in exactly the shape
//! that the synthesis facility emits, one per supported shape: a record with
//! named fields, a record with positional fields, an empty record, a tagged
//! union, and their generic forms. They show, verified, that the emitted
//! pattern meets the contract: every field is duplicated in declaration
//! order, the first failure short-circuits, and a union value keeps its
//! variant.

use vstd::prelude::*;
use vstd::utf8::encode_utf8;
use crate::error::AllocError;
use crate::try_clone::TryClone;

verus! {

/// A record of two trivial named fields.
#[derive(Debug, PartialEq, Eq)]
pub struct Named {
    pub a: i32,
    pub b: i64,
}

impl TryClone for Named {
    open spec fn clones_to(self, other: Named) -> bool {
        other.a == self.a && other.b == self.b
    }

    open spec fn infallible(self) -> bool {
        true
    }

    fn try_clone(&self) -> (r: Result<Named, AllocError>)
        ensures
            r matches Ok(c) && c.a == self.a && c.b == self.b,
    {
        Ok(
            Named {
                a: TryClone::try_clone(&self.a)?,
                b: TryClone::try_clone(&self.b)?,
            },
        )
    }
}

/// A record of two trivial positional fields.
#[derive(Debug, PartialEq, Eq)]
pub struct Unnamed(pub i32, pub i64);

impl TryClone for Unnamed {
    open spec fn clones_to(self, other: Unnamed) -> bool {
        other.0 == self.0 && other.1 == self.1
    }

    open spec fn infallible(self) -> bool {
        true
    }

    fn try_clone(&self) -> (r: Result<Unnamed, AllocError>)
        ensures
            r matches Ok(c) && c.0 == self.0 && c.1 == self.1,
    {
        Ok(Unnamed(TryClone::try_clone(&self.0)?, TryClone::try_clone(&self.1)?))
    }
}

/// An empty record.
#[derive(Debug, PartialEq, Eq)]
pub struct Unit;

impl TryClone for Unit {
    open spec fn clones_to(self, other: Unit) -> bool {
        true
    }

    open spec fn infallible(self) -> bool {
        true
    }

    fn try_clone(&self) -> (r: Result<Unit, AllocError>)
        ensures
            r is Ok,
    {
        Ok(Unit)
    }
}

/// A generic record: a trivial field, a type-parameterized field, and a
/// borrowed view, under a lifetime and a compile-time constant parameter. Its
/// duplication is available exactly when the parameter's type is itself
/// duplicable.
#[derive(Debug, PartialEq, Eq)]
pub struct NamedGeneric<'a, T, const N: bool> where T: TryClone {
    pub a: i32,
    pub b: T,
    pub c: &'a i64,
}

impl<'a, T, const N: bool> TryClone for NamedGeneric<'a, T, N> where T: TryClone {
    open spec fn clones_to(self, other: NamedGeneric<'a, T, N>) -> bool {
        other.a == self.a && self.b.clones_to(other.b) && other.c == self.c
    }

    open spec fn infallible(self) -> bool {
        self.b.infallible()
    }

    fn try_clone(&self) -> (r: Result<NamedGeneric<'a, T, N>, AllocError>) {
        Ok(
            NamedGeneric {
                a: TryClone::try_clone(&self.a)?,
                b: TryClone::try_clone(&self.b)?,
                c: TryClone::try_clone(&self.c)?,
            },
        )
    }
}

/// A tagged union of the three record sub-shapes.
#[derive(Debug, PartialEq, Eq)]
pub enum Tagged {
    Named { a: i32, b: i64 },
    Unnamed(i32, i64),
    Unit,
}

impl TryClone for Tagged {
    open spec fn clones_to(self, other: Tagged) -> bool {
        match self {
            Tagged::Named { a, b } => other matches Tagged::Named { a: a2, b: b2 } && a2 == a
                && b2 == b,
            Tagged::Unnamed(x, y) => other matches Tagged::Unnamed(x2, y2) && x2 == x && y2 == y,
            Tagged::Unit => other is Unit,
        }
    }

    open spec fn infallible(self) -> bool {
        true
    }

    fn try_clone(&self) -> (r: Result<Tagged, AllocError>)
        ensures
            r matches Ok(c) && (*self).clones_to(c),
    {
        Ok(
            match self {
                Tagged::Named { a, b } => Tagged::Named {
                    a: TryClone::try_clone(a)?,
                    b: TryClone::try_clone(b)?,
                },
                Tagged::Unnamed(f0, f1) => Tagged::Unnamed(
                    TryClone::try_clone(f0)?,
                    TryClone::try_clone(f1)?,
                ),
                Tagged::Unit => Tagged::Unit,
            },
        )
    }
}

/// A generic tagged union: a type-parameterized variant, a variant holding a
/// borrowed view, and an empty variant.
#[derive(Debug, PartialEq, Eq)]
pub enum TaggedGeneric<'a, T, const N: bool> where T: TryClone {
    Named(T),
    Unnamed(i32, &'a i64),
    Unit,
}

impl<'a, T, const N: bool> TryClone for TaggedGeneric<'a, T, N> where T: TryClone {
    open spec fn clones_to(self, other: TaggedGeneric<'a, T, N>) -> bool {
        match self {
            TaggedGeneric::Named(t) => other matches TaggedGeneric::Named(t2) && t.clones_to(t2),
            TaggedGeneric::Unnamed(x, y) => other matches TaggedGeneric::Unnamed(x2, y2) && x2 == x
                && y2 == y,
            TaggedGeneric::Unit => other is Unit,
        }
    }

    open spec fn infallible(self) -> bool {
        match self {
            TaggedGeneric::Named(t) => t.infallible(),
            TaggedGeneric::Unnamed(x, y) => true,
            TaggedGeneric::Unit => true,
        }
    }

    fn try_clone(&self) -> (r: Result<TaggedGeneric<'a, T, N>, AllocError>) {
        Ok(
            match self {
                TaggedGeneric::Named(f0) => TaggedGeneric::Named(TryClone::try_clone(f0)?),
                TaggedGeneric::Unnamed(f0, f1) => TaggedGeneric::Unnamed(
                    TryClone::try_clone(f0)?,
                    TryClone::try_clone(f1)?,
                ),
                TaggedGeneric::Unit => TaggedGeneric::Unit,
            },
        )
    }
}

/// A record of two fallible text fields, in declaration order. Duplication
/// fails exactly with the failure of one of its fields, unchanged: the record
/// never reports a descriptor of its own making, and a failed duplication
/// returns no value at all.
#[derive(Debug, PartialEq, Eq)]
pub struct TextPair {
    pub first: String,
    pub second: String,
}

impl TryClone for TextPair {
    open spec fn clones_to(self, other: TextPair) -> bool {
        other.first@ == self.first@ && other.second@ == self.second@
    }

    open spec fn infallible(self) -> bool {
        self.first@.len() == 0 && self.second@.len() == 0
    }

    fn try_clone(&self) -> (r: Result<TextPair, AllocError>)
        ensures
            r matches Err(e) ==> (e == (AllocError {
                size: #[verifier::truncate] (encode_utf8(self.first@).len() as usize),
                align: 1,
            }) || e == (AllocError {
                size: #[verifier::truncate] (encode_utf8(self.second@).len() as usize),
                align: 1,
            })),
    {
        Ok(
            TextPair {
                first: TryClone::try_clone(&self.first)?,
                second: TryClone::try_clone(&self.second)?,
            },
        )
    }
}

/// Law: a duplicate of a tagged-union value holds the very variant of its
/// source; a cross-variant result never counts as a duplicate.
pub proof fn lemma_tagged_clone_keeps_variant(v: Tagged, c: Tagged)
    requires
        v.clones_to(c),
    ensures
        v is Named <==> c is Named,
        v is Unnamed <==> c is Unnamed,
        v is Unit <==> c is Unit,
{
}

/// Law: the generic tagged union keeps its variant under duplication as well,
/// whatever the parameter's type.
pub proof fn lemma_tagged_generic_clone_keeps_variant<'a, T: TryClone, const N: bool>(
    v: TaggedGeneric<'a, T, N>,
    c: TaggedGeneric<'a, T, N>,
)
    requires
        v.clones_to(c),
    ensures
        v is Named <==> c is Named,
        v is Unnamed <==> c is Unnamed,
        v is Unit <==> c is Unit,
{
}

} // verus!
