//! The handle model: a handle is an address in the host's memory and nothing
//! else.

use vstd::prelude::*;

verus! {

/// A handle to an object that the host owns. A handle holds one address, is
/// identified by it, and owns nothing: the address `0` refers to no object.
pub trait Ptr: Sized {
    /// The address that the handle holds.
    spec fn addr(&self) -> usize;

    /// The handle that holds the address `ptr`.
    spec fn at(ptr: usize) -> Self;

    /// The handle at an address holds that address.
    proof fn lemma_at_addr(ptr: usize)
        ensures
            Self::at(ptr).addr() == ptr,
    ;

    /// A handle is the handle at its address: handles with one address are
    /// equal.
    proof fn lemma_addr_at(h: Self)
        ensures
            Self::at(h.addr()) == h,
    ;

    /// Wraps an address. Nothing is checked: the address may be `0`.
    fn from_ptr(ptr: usize) -> (h: Self)
        ensures
            h == Self::at(ptr),
            h.addr() == ptr,
    ;

    /// The address of the handle.
    fn to_ptr(&self) -> (ptr: usize)
        ensures
            ptr == self.addr(),
    ;

    /// Tells whether the handle refers to no object.
    fn is_invalid(&self) -> (invalid: bool)
        ensures
            invalid == (self.addr() == 0),
    {
        self.to_ptr() == 0
    }

    /// Wraps an address that the host returned, where `0` means that it found
    /// nothing.
    fn from_ptr_safe(ptr: usize) -> (h: Option<Self>)
        ensures
            ptr == 0 ==> h is None,
            ptr != 0 ==> h == Some(Self::at(ptr)) && h->0.addr() == ptr,
    {
        if ptr == 0 {
            None
        } else {
            Some(Self::from_ptr(ptr))
        }
    }
}

/// The handle at `ptr`, or nothing for the address `0`.
pub open spec fn checked_at<H: Ptr>(ptr: usize) -> Option<H> {
    if ptr == 0 {
        None
    } else {
        Some(H::at(ptr))
    }
}

/// Taking a handle's address and wrapping it again gives the handle back.
pub proof fn lemma_from_ptr_to_ptr<H: Ptr>(h: H)
    ensures
        H::at(h.addr()) == h,
{
    H::lemma_addr_at(h);
}

/// Wrapping an address and taking the handle's address gives the address
/// back.
pub proof fn lemma_to_ptr_from_ptr<H: Ptr>(ptr: usize)
    ensures
        H::at(ptr).addr() == ptr,
{
    H::lemma_at_addr(ptr);
}

/// The checked wrapping is empty exactly for the address `0`, and otherwise
/// holds what the unchecked wrapping gives.
pub proof fn lemma_from_ptr_safe<H: Ptr>(ptr: usize)
    ensures
        ptr == 0 ==> checked_at::<H>(ptr) is None,
        ptr != 0 ==> checked_at::<H>(ptr) == Some(H::at(ptr)),
        checked_at::<H>(ptr) matches Some(h) ==> h.addr() == ptr && h.addr() != 0,
{
    H::lemma_at_addr(ptr);
}

} // verus!
