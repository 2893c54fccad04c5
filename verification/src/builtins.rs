//! Built-in implementations of the duplication contract: trivial values,
//! borrowed views, optional containers, growable text buffers, and
//! shared-ownership handles.

use vstd::prelude::*;
use vstd::utf8::encode_utf8;
use std::sync::Arc;
use std::sync::Weak;
use crate::error::AllocError;
use crate::try_clone::TryClone;

verus! {

impl TryClone for bool {
    open spec fn clones_to(self, c: bool) -> bool {
        c == self
    }

    open spec fn infallible(self) -> bool {
        true
    }

    fn try_clone(&self) -> (r: Result<bool, AllocError>)
        ensures
            r matches Ok(c) && c == *self,
    {
        Ok(*self)
    }

    fn try_clone_from(&mut self, source: &bool) -> (r: Result<(), AllocError>)
        ensures
            r is Ok && *final(self) == *source,
    {
        *self = *source;
        Ok(())
    }
}

impl TryClone for u8 {
    open spec fn clones_to(self, c: u8) -> bool {
        c == self
    }

    open spec fn infallible(self) -> bool {
        true
    }

    fn try_clone(&self) -> (r: Result<u8, AllocError>)
        ensures
            r matches Ok(c) && c == *self,
    {
        Ok(*self)
    }

    fn try_clone_from(&mut self, source: &u8) -> (r: Result<(), AllocError>)
        ensures
            r is Ok && *final(self) == *source,
    {
        *self = *source;
        Ok(())
    }
}

impl TryClone for u16 {
    open spec fn clones_to(self, c: u16) -> bool {
        c == self
    }

    open spec fn infallible(self) -> bool {
        true
    }

    fn try_clone(&self) -> (r: Result<u16, AllocError>)
        ensures
            r matches Ok(c) && c == *self,
    {
        Ok(*self)
    }

    fn try_clone_from(&mut self, source: &u16) -> (r: Result<(), AllocError>)
        ensures
            r is Ok && *final(self) == *source,
    {
        *self = *source;
        Ok(())
    }
}

impl TryClone for u32 {
    open spec fn clones_to(self, c: u32) -> bool {
        c == self
    }

    open spec fn infallible(self) -> bool {
        true
    }

    fn try_clone(&self) -> (r: Result<u32, AllocError>)
        ensures
            r matches Ok(c) && c == *self,
    {
        Ok(*self)
    }

    fn try_clone_from(&mut self, source: &u32) -> (r: Result<(), AllocError>)
        ensures
            r is Ok && *final(self) == *source,
    {
        *self = *source;
        Ok(())
    }
}

impl TryClone for u64 {
    open spec fn clones_to(self, c: u64) -> bool {
        c == self
    }

    open spec fn infallible(self) -> bool {
        true
    }

    fn try_clone(&self) -> (r: Result<u64, AllocError>)
        ensures
            r matches Ok(c) && c == *self,
    {
        Ok(*self)
    }

    fn try_clone_from(&mut self, source: &u64) -> (r: Result<(), AllocError>)
        ensures
            r is Ok && *final(self) == *source,
    {
        *self = *source;
        Ok(())
    }
}

impl TryClone for u128 {
    open spec fn clones_to(self, c: u128) -> bool {
        c == self
    }

    open spec fn infallible(self) -> bool {
        true
    }

    fn try_clone(&self) -> (r: Result<u128, AllocError>)
        ensures
            r matches Ok(c) && c == *self,
    {
        Ok(*self)
    }

    fn try_clone_from(&mut self, source: &u128) -> (r: Result<(), AllocError>)
        ensures
            r is Ok && *final(self) == *source,
    {
        *self = *source;
        Ok(())
    }
}

impl TryClone for usize {
    open spec fn clones_to(self, c: usize) -> bool {
        c == self
    }

    open spec fn infallible(self) -> bool {
        true
    }

    fn try_clone(&self) -> (r: Result<usize, AllocError>)
        ensures
            r matches Ok(c) && c == *self,
    {
        Ok(*self)
    }

    fn try_clone_from(&mut self, source: &usize) -> (r: Result<(), AllocError>)
        ensures
            r is Ok && *final(self) == *source,
    {
        *self = *source;
        Ok(())
    }
}

impl TryClone for i8 {
    open spec fn clones_to(self, c: i8) -> bool {
        c == self
    }

    open spec fn infallible(self) -> bool {
        true
    }

    fn try_clone(&self) -> (r: Result<i8, AllocError>)
        ensures
            r matches Ok(c) && c == *self,
    {
        Ok(*self)
    }

    fn try_clone_from(&mut self, source: &i8) -> (r: Result<(), AllocError>)
        ensures
            r is Ok && *final(self) == *source,
    {
        *self = *source;
        Ok(())
    }
}

impl TryClone for i16 {
    open spec fn clones_to(self, c: i16) -> bool {
        c == self
    }

    open spec fn infallible(self) -> bool {
        true
    }

    fn try_clone(&self) -> (r: Result<i16, AllocError>)
        ensures
            r matches Ok(c) && c == *self,
    {
        Ok(*self)
    }

    fn try_clone_from(&mut self, source: &i16) -> (r: Result<(), AllocError>)
        ensures
            r is Ok && *final(self) == *source,
    {
        *self = *source;
        Ok(())
    }
}

impl TryClone for i32 {
    open spec fn clones_to(self, c: i32) -> bool {
        c == self
    }

    open spec fn infallible(self) -> bool {
        true
    }

    fn try_clone(&self) -> (r: Result<i32, AllocError>)
        ensures
            r matches Ok(c) && c == *self,
    {
        proof {
            assert((*self).clones_to(*self));
        }
        Ok(*self)
    }

    fn try_clone_from(&mut self, source: &i32) -> (r: Result<(), AllocError>)
        ensures
            r is Ok && *final(self) == *source,
    {
        *self = *source;
        Ok(())
    }
}

impl TryClone for i64 {
    open spec fn clones_to(self, c: i64) -> bool {
        c == self
    }

    open spec fn infallible(self) -> bool {
        true
    }

    fn try_clone(&self) -> (r: Result<i64, AllocError>)
        ensures
            r matches Ok(c) && c == *self,
    {
        proof {
            assert((*self).clones_to(*self));
        }
        Ok(*self)
    }

    fn try_clone_from(&mut self, source: &i64) -> (r: Result<(), AllocError>)
        ensures
            r is Ok && *final(self) == *source,
    {
        *self = *source;
        Ok(())
    }
}

impl TryClone for i128 {
    open spec fn clones_to(self, c: i128) -> bool {
        c == self
    }

    open spec fn infallible(self) -> bool {
        true
    }

    fn try_clone(&self) -> (r: Result<i128, AllocError>)
        ensures
            r matches Ok(c) && c == *self,
    {
        Ok(*self)
    }

    fn try_clone_from(&mut self, source: &i128) -> (r: Result<(), AllocError>)
        ensures
            r is Ok && *final(self) == *source,
    {
        *self = *source;
        Ok(())
    }
}

impl TryClone for isize {
    open spec fn clones_to(self, c: isize) -> bool {
        c == self
    }

    open spec fn infallible(self) -> bool {
        true
    }

    fn try_clone(&self) -> (r: Result<isize, AllocError>)
        ensures
            r matches Ok(c) && c == *self,
    {
        Ok(*self)
    }

    fn try_clone_from(&mut self, source: &isize) -> (r: Result<(), AllocError>)
        ensures
            r is Ok && *final(self) == *source,
    {
        *self = *source;
        Ok(())
    }
}

/// A borrowed view is duplicated by copying the reference itself, never the
/// referent.
impl<'a, T: ?Sized> TryClone for &'a T {
    open spec fn clones_to(self, c: &'a T) -> bool {
        c == self
    }

    open spec fn infallible(self) -> bool {
        true
    }

    fn try_clone(&self) -> (r: Result<&'a T, AllocError>)
        ensures
            r matches Ok(c) && c == *self,
    {
        proof {
            assert((*self).clones_to(*self));
        }
        Ok(*self)
    }

    fn try_clone_from(&mut self, source: &&'a T) -> (r: Result<(), AllocError>)
        ensures
            r is Ok && *final(self) == *source,
    {
        *self = *source;
        Ok(())
    }
}

/// An absent value duplicates to an absent value; a present value delegates
/// to the contained value's own implementation, propagating its failure.
impl<T: TryClone> TryClone for Option<T> {
    open spec fn clones_to(self, c: Option<T>) -> bool {
        match self {
            Option::None => c is None,
            Option::Some(s) => c matches Option::Some(d) && s.clones_to(d),
        }
    }

    open spec fn infallible(self) -> bool {
        match self {
            Option::None => true,
            Option::Some(s) => s.infallible(),
        }
    }

    fn try_clone(&self) -> (r: Result<Option<T>, AllocError>) {
        match self {
            Some(s) => match s.try_clone() {
                Ok(c) => Ok(Some(c)),
                Err(e) => Err(e),
            },
            None => Ok(None),
        }
    }

    /// Reuses the destination's present value, when there is one, as the
    /// destination of the contained value's own `try_clone_from`.
    fn try_clone_from(&mut self, source: &Option<T>) -> (r: Result<(), AllocError>) {
        match source {
            None => {
                *self = None;
                Ok(())
            },
            Some(src) => match self {
                None => match src.try_clone() {
                    Ok(c) => {
                        *self = Some(c);
                        Ok(())
                    },
                    Err(e) => Err(e),
                },
                Some(dest) => dest.try_clone_from(src),
            },
        }
    }
}

/// Relies on `String::try_reserve`: it asks the allocator for room for at
/// least `additional` more bytes, reports whether that succeeded, and leaves
/// the contents of the buffer unchanged either way.
#[verifier::external_body]
fn string_try_reserve(s: &mut String, additional: usize) -> (r: bool)
    ensures
        final(s)@ == old(s)@,
{
    s.try_reserve(additional).is_ok()
}

/// Relies on `String::clear`: it removes all contents and keeps the already
/// allocated backing storage.
#[verifier::external_body]
fn string_clear(s: &mut String)
    ensures
        final(s)@ == Seq::<char>::empty(),
{
    s.clear()
}

/// A growable text buffer duplicates by allocating fresh backing storage
/// sized to the source's length; its `try_clone_from` reuses the
/// destination's storage, allocating only when the capacity does not suffice.
impl TryClone for String {
    open spec fn clones_to(self, c: String) -> bool {
        c@ == self@
    }

    open spec fn infallible(self) -> bool {
        self@.len() == 0
    }

    fn try_clone(&self) -> (r: Result<String, AllocError>)
        ensures
            r matches Ok(c) ==> c@ == self@,
            self@.len() == 0 ==> r is Ok,
            r matches Err(e) ==> e == (AllocError {
                size: #[verifier::truncate] (encode_utf8(self@).len() as usize),
                align: 1,
            }),
    {
        let mut s = String::new();
        if self.as_str().is_empty() {
            proof {
                assert(self@ =~= Seq::<char>::empty());
                assert((*self).clones_to(s));
            }
            return Ok(s);
        }
        let bytes: usize = self.as_str().len();
        if !string_try_reserve(&mut s, bytes) {
            proof {
                assert(!(*self).infallible());
            }
            return Err(AllocError::new(bytes, 1));
        }
        s.append(self.as_str());
        proof {
            assert(s@ =~= self@);
            assert((*self).clones_to(s));
        }
        Ok(s)
    }

    fn try_clone_from(&mut self, source: &String) -> (r: Result<(), AllocError>)
        ensures
            r is Ok ==> final(self)@ == source@,
            source@.len() == 0 ==> r is Ok,
            r matches Err(e) ==> e == (AllocError {
                size: #[verifier::truncate] (encode_utf8(source@).len() as usize),
                align: 1,
            }),
    {
        string_clear(self);
        if source.as_str().is_empty() {
            proof {
                assert(source@ =~= self@);
                assert((*source).clones_to(*self));
            }
            return Ok(());
        }
        let bytes: usize = source.as_str().len();
        if !string_try_reserve(self, bytes) {
            proof {
                assert(!(*source).infallible());
            }
            return Err(AllocError::new(bytes, 1));
        }
        self.append(source.as_str());
        proof {
            assert(self@ =~= source@);
            assert((*source).clones_to(*self));
        }
        Ok(())
    }
}

/// Relies on `Arc::clone`: the new handle shares the same referent as the
/// source, adjusting only the atomic strong count; nothing is allocated.
#[verifier::external_body]
fn arc_clone<T: ?Sized>(a: &Arc<T>) -> (r: Arc<T>)
    ensures
        r == *a,
{
    Arc::clone(a)
}

/// A shared-ownership handle duplicates by sharing the referent: the clone is
/// a handle to the very same storage, so duplication cannot fail.
impl<T: ?Sized> TryClone for Arc<T> {
    open spec fn clones_to(self, c: Arc<T>) -> bool {
        c == self
    }

    open spec fn infallible(self) -> bool {
        true
    }

    fn try_clone(&self) -> (r: Result<Arc<T>, AllocError>)
        ensures
            r matches Ok(c) && c == *self,
    {
        Ok(arc_clone(self))
    }
}

/// A weak back-reference to the referent of a shared-ownership handle: it
/// does not keep the referent alive on its own. It holds the standard
/// library's `Weak` behind an opaque field, because that type's allocator
/// parameter cannot be declared here.
#[verifier::external_body]
#[verifier::reject_recursive_types(T)]
pub struct WeakRef<T: ?Sized> {
    ptr: Weak<T>,
}

impl<T: ?Sized> WeakRef<T> {
    /// Relies on `Arc::downgrade`: creates a weak back-reference to the
    /// handle's referent without affecting the strong count.
    #[verifier::external_body]
    pub fn downgrade(a: &Arc<T>) -> (r: WeakRef<T>) {
        WeakRef { ptr: Arc::downgrade(a) }
    }

    /// Relies on `Weak::upgrade`: returns a shared-ownership handle to the
    /// referent when it is still alive, and nothing once it was dropped.
    #[verifier::external_body]
    pub fn upgrade(&self) -> (r: Option<Arc<T>>) {
        self.ptr.upgrade()
    }

    /// Relies on `Weak::clone`: the duplicate points to the same allocation
    /// as the source, adjusting only the atomic weak count; nothing is
    /// allocated.
    #[verifier::external_body]
    fn clone_ref(&self) -> (r: WeakRef<T>) {
        WeakRef { ptr: Weak::clone(&self.ptr) }
    }
}

/// A weak back-reference duplicates like a shared-ownership handle, adjusting
/// a reference count, but carries nothing that the model can observe.
impl<T: ?Sized> TryClone for WeakRef<T> {
    open spec fn clones_to(self, c: WeakRef<T>) -> bool {
        true
    }

    open spec fn infallible(self) -> bool {
        true
    }

    fn try_clone(&self) -> (r: Result<WeakRef<T>, AllocError>)
        ensures
            r is Ok,
    {
        Ok(self.clone_ref())
    }
}

} // verus!
