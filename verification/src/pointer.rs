//! Addresses as the library sees them.
//!
//! The library never follows an address. A nullable address is a plain
//! `usize` with zero for null; an address known not to be null is a
//! [`Handle`]; the address of an extent array travels together with a
//! borrowed view of the array behind it, as an [`ArrayPtr`].

use vstd::prelude::*;

verus! {

/// An opaque address that is not null.
#[derive(Debug, Clone, Copy, PartialEq, Eq, Hash)]
pub struct Handle {
    addr: usize,
}

impl View for Handle {
    type V = usize;

    closed spec fn view(&self) -> usize {
        self.addr
    }
}

impl Handle {
    #[verifier::type_invariant]
    closed spec fn inv(self) -> bool {
        self.addr != 0
    }

    /// What every handle that a program holds satisfies: its address is not
    /// null.
    pub open spec fn is_valid(self) -> bool {
        self@ != 0
    }

    /// The handle for `addr`, or nothing when `addr` is null.
    pub closed spec fn of_addr(addr: usize) -> Option<Handle> {
        if addr == 0 {
            None
        } else {
            Some(Handle { addr })
        }
    }

    /// Null gives no handle; any other address gives the valid handle that
    /// holds it.
    pub proof fn lemma_of_addr(addr: usize)
        ensures
            addr == 0 <==> Self::of_addr(addr) is None,
            Self::of_addr(addr) matches Some(h) ==> h@ == addr && h.is_valid(),
    {
    }

    /// A handle is the address it holds: two handles with one address are
    /// one handle.
    pub proof fn lemma_same_addr(a: Handle, b: Handle)
        ensures
            a@ == b@ ==> a == b,
    {
    }

    /// The handle for `addr`, or nothing when `addr` is null.
    pub fn new(addr: usize) -> (handle: Option<Handle>)
        ensures
            handle == Self::of_addr(addr),
            addr == 0 <==> handle is None,
            handle matches Some(h) ==> h@ == addr && h.is_valid(),
    {
        if addr == 0 {
            None
        } else {
            Some(Handle { addr })
        }
    }

    /// The address held, never null.
    pub fn addr(&self) -> (addr: usize)
        ensures
            addr == self@,
            addr != 0,
            self.is_valid(),
    {
        proof {
            use_type_invariant(self);
        }
        self.addr
    }
}

/// The nullable address that stands for an optional handle: zero for none.
pub open spec fn spec_nullable(handle: Option<Handle>) -> usize {
    match handle {
        Some(h) => h@,
        None => 0,
    }
}

/// An optional valid handle is found again from its nullable address.
pub proof fn lemma_nullable_round_trip(handle: Option<Handle>)
    requires
        handle matches Some(h) ==> h.is_valid(),
    ensures
        Handle::of_addr(spec_nullable(handle)) == handle,
{
    Handle::lemma_of_addr(spec_nullable(handle));
    if let Some(h) = handle {
        Handle::lemma_same_addr(Handle::of_addr(h@).unwrap(), h);
    }
}

/// A nullable address is found again from its optional handle.
pub proof fn lemma_addr_round_trip(addr: usize)
    ensures
        spec_nullable(Handle::of_addr(addr)) == addr,
{
    Handle::lemma_of_addr(addr);
}

/// The nullable address that stands for an optional handle: zero for none.
pub fn nullable(handle: Option<Handle>) -> (addr: usize)
    ensures
        addr == spec_nullable(handle),
        addr == 0 <==> handle is None,
        handle matches Some(h) ==> h.is_valid(),
{
    match handle {
        Some(h) => h.addr(),
        None => 0,
    }
}

/// A pointer to an array of extents, with the array it points to.
///
/// `addr` is the address found in a record, zero for null. `items` is what
/// the holder of the record has borrowed of the memory behind it, for as
/// long as `'a` lasts; it is empty where nothing may be read.
#[derive(Debug, Clone, Copy, PartialEq, Eq)]
pub struct ArrayPtr<'a> {
    pub addr: usize,
    pub items: &'a [usize],
}

impl<'a> ArrayPtr<'a> {
    /// A pointer to the array `items` at `addr`.
    pub fn new(addr: usize, items: &'a [usize]) -> (ptr: ArrayPtr<'a>)
        ensures
            ptr == (ArrayPtr { addr, items }),
    {
        ArrayPtr { addr, items }
    }

    /// The null pointer: no address, no array.
    pub fn null() -> (ptr: ArrayPtr<'a>)
        ensures
            ptr.addr == 0,
            ptr.items@.len() == 0,
    {
        ArrayPtr { addr: 0, items: &[] }
    }

    pub fn is_null(&self) -> (null: bool)
        ensures
            null == (self.addr == 0),
    {
        self.addr == 0
    }
}

} // verus!
