//! Class descriptors and the checked downcast.
//!
//! The host alone knows an object's class. A handle type that is bound to a
//! class names the key under which the host's registry holds the class
//! descriptor; whether an object is of a class is asked of the host on every
//! cast and never remembered.

use vstd::prelude::*;
use crate::api::handle::UClass;
use crate::api::ptr::{Ptr, checked_at};
use crate::api::table::{TableSlot, resolved};

verus! {

/// A handle type that is bound to a class of the host.
pub trait StaticClass: Ptr {
    /// The key under which the host's registry holds the class descriptor.
    spec fn class_key() -> Seq<char>;

    /// The key under which the host's registry holds the class descriptor.
    fn class_path() -> (key: &'static str)
        ensures
            key@ == Self::class_key(),
    ;

    /// The class descriptor, from the address `found` that the registry
    /// returned for the key: nothing if the registry does not know the key.
    fn static_class_safe(found: usize) -> (class: Option<UClass>)
        ensures
            found == 0 ==> class is None,
            found != 0 ==> class == Some(UClass::at(found)),
    {
        UClass::from_ptr_safe(found)
    }

    /// The class descriptor of a class that the registry knows.
    fn static_class(found: usize) -> (class: UClass)
        requires
            found != 0,
        ensures
            class == UClass::at(found),
    {
        UClass::from_ptr(found)
    }
}

/// The slot that caches the class descriptor of one handle type. The
/// registry is asked until it knows the class, and not again after that.
/// Only the descriptor is kept: whether an object is of the class is never
/// remembered.
#[derive(Debug)]
pub struct ClassSlot {
    slot: TableSlot,
}

impl View for ClassSlot {
    type V = usize;

    /// The address of the cached descriptor, `0` while the slot is empty.
    closed spec fn view(&self) -> usize {
        self.slot@
    }
}

impl ClassSlot {
    /// An empty slot.
    pub fn new() -> (slot: Self)
        ensures
            slot@ == 0,
    {
        ClassSlot { slot: TableSlot::new() }
    }

    /// The cached descriptor, if the registry knew the class before.
    pub fn get(&self) -> (class: Option<UClass>)
        ensures
            class == checked_at::<UClass>(self@),
    {
        match self.slot.get() {
            Some(found) => Some(UClass::from_ptr(found)),
            None => None,
        }
    }

    /// Looks the class up where the registry returns `found` for its key: an
    /// empty slot takes `found`, a filled slot stays as it is. Returns the
    /// descriptor in the slot, or nothing while the registry does not know
    /// the class.
    pub fn resolve(&mut self, found: usize) -> (class: Option<UClass>)
        ensures
            final(self)@ == resolved(old(self)@, found),
            class == checked_at::<UClass>(final(self)@),
    {
        let address = self.slot.initialize(found);
        UClass::from_ptr_safe(address)
    }

    /// Looks the class up, asking the registry only if the slot is empty.
    pub fn resolve_with<F: FnOnce() -> usize>(&mut self, lookup: F) -> (class: Option<UClass>)
        requires
            old(self)@ == 0 ==> call_requires(lookup, ()),
        ensures
            old(self)@ != 0 ==> final(self)@ == old(self)@,
            old(self)@ == 0 ==> call_ensures(lookup, (), final(self)@),
            class == checked_at::<UClass>(final(self)@),
    {
        let address = self.slot.initialize_with(lookup);
        UClass::from_ptr_safe(address)
    }
}

/// The result of casting the object at `object` to the handle type `T`,
/// where `is_a` is the host's answer to whether the object is of the class
/// that `T` is bound to.
pub open spec fn cast_to<T: StaticClass>(object: usize, is_a: bool) -> Option<T> {
    if is_a {
        Some(T::at(object))
    } else {
        None
    }
}

/// A cast succeeds exactly when the host reports that the object is of the
/// class. A successful cast keeps the address; a cast of an object that is
/// not of the class is always empty.
pub proof fn lemma_cast_follows_is_a<T: StaticClass>(object: usize, is_a: bool)
    ensures
        cast_to::<T>(object, is_a) is Some <==> is_a,
        is_a ==> cast_to::<T>(object, is_a)->0.addr() == object,
        !is_a ==> cast_to::<T>(object, is_a) is None,
{
    T::lemma_at_addr(object);
}

} // verus!
