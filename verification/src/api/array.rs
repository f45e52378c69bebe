//! The host's dynamic array.
//!
//! The host hands out arrays as a descriptor of three values: the address of
//! the buffer, the number of elements in use, and the number of elements the
//! buffer has room for. The buffer belongs to the host's allocator, and at
//! most one descriptor owns it. The owner either gives the buffer back to
//! that allocator, once, or takes the three values over into a collection of
//! its own, once; after a take the descriptor is empty and gives nothing
//! back. A copy of a descriptor reads the same buffer and owns nothing.

use vstd::prelude::*;
use core::marker::PhantomData;

verus! {

/// The three values of a buffer as a local collection takes them over.
#[derive(Clone, Copy, Debug, PartialEq, Eq, Structural)]
pub struct RawParts {
    pub data: usize,
    pub len: usize,
    pub capacity: usize,
}

/// The descriptor of an array of `T` in a buffer of the host's allocator.
#[derive(Debug)]
pub struct TArray<T> {
    data: usize,
    count: i32,
    capacity: i32,
    owner: bool,
    item: PhantomData<T>,
}

impl<T> Clone for TArray<T> {
    /// Copies the three values and not the buffer. The copy reads the buffer
    /// of the descriptor it was made from and does not own it: giving the
    /// copy up frees nothing.
    fn clone(&self) -> (copy: Self)
        ensures
            copy == self.shared(),
            copy.data() == self.data(),
            copy.count() == self.count(),
            copy.capacity() == self.capacity(),
            !copy.owns(),
            copy.freed() is None,
    {
        TArray {
            data: self.data,
            count: self.count,
            capacity: self.capacity,
            owner: false,
            item: PhantomData,
        }
    }
}

impl<T> TArray<T> {
    /// The address of the buffer, `0` for none.
    pub closed spec fn data(&self) -> usize {
        self.data
    }

    /// The number of elements in use.
    pub closed spec fn count(&self) -> i32 {
        self.count
    }

    /// The number of elements that the buffer has room for.
    pub closed spec fn capacity(&self) -> i32 {
        self.capacity
    }

    /// True when the descriptor owns its buffer.
    pub closed spec fn owns(&self) -> bool {
        self.owner
    }

    /// The descriptor that owns the buffer with the three values given.
    pub closed spec fn of(data: usize, count: i32, capacity: i32) -> Self {
        TArray { data, count, capacity, owner: true, item: PhantomData }
    }

    /// The descriptor with the three values given that owns nothing.
    pub closed spec fn shared_of(data: usize, count: i32, capacity: i32) -> Self {
        TArray { data, count, capacity, owner: false, item: PhantomData }
    }

    /// The copy of the descriptor: the same three values, owning nothing.
    pub open spec fn shared(&self) -> Self {
        Self::shared_of(self.data(), self.count(), self.capacity())
    }

    /// The empty descriptor: no buffer, no elements, no room.
    pub open spec fn vacant() -> Self {
        Self::of(0, 0, 0)
    }

    /// True when the array holds no element: its count is zero or it has no
    /// buffer.
    pub open spec fn is_empty(&self) -> bool {
        self.count() == 0 || self.data() == 0
    }

    /// The address behind the bytes in use, counting the elements as bytes;
    /// `0` for an array without a buffer.
    pub open spec fn end_of(&self) -> int {
        if self.data() == 0 {
            0
        } else {
            self.data() + self.count()
        }
    }

    /// What giving the descriptor up frees: the buffer, if the descriptor
    /// has one and owns it.
    pub open spec fn freed(&self) -> Option<usize> {
        if self.owns() && self.data() != 0 {
            Some(self.data())
        } else {
            None
        }
    }

    /// True when the three values can be taken over as they are: the
    /// descriptor owns the buffer, and the count is not negative and not
    /// above the capacity.
    pub open spec fn takeable(&self) -> bool {
        self.owns() && 0 <= self.count() <= self.capacity()
    }

    /// The three values as a local collection takes them over.
    pub open spec fn parts(&self) -> RawParts {
        RawParts {
            data: self.data(),
            len: self.count() as usize,
            capacity: self.capacity() as usize,
        }
    }

    /// What taking the buffer over gives and leaves: the three values, and
    /// the empty descriptor in place of this one.
    pub open spec fn taken(&self) -> (RawParts, Self) {
        (self.parts(), Self::vacant())
    }

    /// The three values of a descriptor and whether it owns the buffer
    /// determine it.
    pub proof fn lemma_of_values(&self)
        ensures
            self.owns() ==> *self == Self::of(self.data(), self.count(), self.capacity()),
            !self.owns() ==> *self == self.shared(),
    {
    }

    /// The values of the descriptor made of three values are those values;
    /// the one owns the buffer, the other does not.
    pub proof fn lemma_values_of(data: usize, count: i32, capacity: i32)
        ensures
            Self::of(data, count, capacity).data() == data,
            Self::of(data, count, capacity).count() == count,
            Self::of(data, count, capacity).capacity() == capacity,
            Self::of(data, count, capacity).owns(),
            Self::shared_of(data, count, capacity).data() == data,
            Self::shared_of(data, count, capacity).count() == count,
            Self::shared_of(data, count, capacity).capacity() == capacity,
            !Self::shared_of(data, count, capacity).owns(),
    {
    }

    /// The empty descriptor.
    pub fn new() -> (array: Self)
        ensures
            array == Self::vacant(),
            array.data() == 0,
            array.count() == 0,
            array.capacity() == 0,
    {
        TArray { data: 0, count: 0, capacity: 0, owner: true, item: PhantomData }
    }

    /// The descriptor of a buffer that the host handed over: it owns the
    /// buffer.
    pub fn from_raw_parts(data: usize, count: i32, capacity: i32) -> (array: Self)
        ensures
            array == Self::of(data, count, capacity),
            array.data() == data,
            array.count() == count,
            array.capacity() == capacity,
            array.owns(),
    {
        TArray { data, count, capacity, owner: true, item: PhantomData }
    }

    /// Tells whether the descriptor owns its buffer.
    pub fn is_owner(&self) -> (yes: bool)
        ensures
            yes == self.owns(),
    {
        self.owner
    }

    /// The number of elements in use.
    pub fn len(&self) -> (count: i32)
        ensures
            count == self.count(),
    {
        self.count
    }

    /// The address of the first element.
    pub fn begin(&self) -> (first: usize)
        ensures
            first == self.data(),
    {
        self.data
    }

    /// The address of the first element, for writing.
    pub fn begin_mut(&mut self) -> (first: usize)
        ensures
            first == old(self).data(),
            *final(self) == *old(self),
    {
        self.data
    }

    /// The address behind the bytes in use, `0` for an array without a
    /// buffer.
    pub fn end(&self) -> (last: usize)
        requires
            self.data() != 0 ==> 0 <= self.count() && self.data() + self.count() <= usize::MAX,
        ensures
            last == self.end_of(),
    {
        if self.data == 0 {
            0
        } else {
            self.data + (self.count as usize)
        }
    }

    /// The address behind the bytes in use, for writing.
    pub fn end_mut(&mut self) -> (last: usize)
        requires
            old(self).data() != 0 ==> 0 <= old(self).count() && old(self).data() + old(
                self,
            ).count() <= usize::MAX,
        ensures
            last == old(self).end_of(),
            *final(self) == *old(self),
    {
        self.end()
    }

    /// Tells whether the array holds no element.
    pub fn empty(&self) -> (none: bool)
        ensures
            none == self.is_empty(),
    {
        self.count == 0 || self.data == 0
    }

    /// Tells whether the three values can be taken over as they are.
    pub fn can_take(&self) -> (ok: bool)
        ensures
            ok == self.takeable(),
    {
        self.owner && 0 <= self.count && self.count <= self.capacity
    }

    /// What giving the descriptor up must free through the host's allocator:
    /// the buffer, or nothing for a descriptor without one or one that does
    /// not own it.
    pub fn free_request(&self) -> (buffer: Option<usize>)
        ensures
            buffer == self.freed(),
    {
        if self.owner && self.data != 0 {
            Some(self.data)
        } else {
            None
        }
    }

    /// Takes the buffer over: returns the three values and leaves the
    /// descriptor empty, so that giving the descriptor up afterwards frees
    /// nothing.
    pub fn take(&mut self) -> (parts: RawParts)
        requires
            old(self).takeable(),
        ensures
            (parts, *final(self)) == old(self).taken(),
            final(self).freed() is None,
            final(self).is_empty(),
    {
        let parts = RawParts {
            data: self.data,
            len: self.count as usize,
            capacity: self.capacity as usize,
        };
        self.data = 0;
        self.count = 0;
        self.capacity = 0;
        self.owner = true;
        parts
    }

    /// Turns the descriptor into the three values of a local collection. The
    /// descriptor is used up: the buffer now belongs to the collection.
    pub fn to_vec(self) -> (parts: RawParts)
        requires
            self.takeable(),
        ensures
            parts == self.taken().0,
    {
        let mut array = self;
        array.take()
    }
}

/// An array without a buffer, such as the empty descriptor, holds no element
/// and frees nothing when it is given up.
pub proof fn lemma_null_array_is_empty<T>(array: TArray<T>)
    requires
        array.data() == 0,
    ensures
        array.is_empty(),
        array.freed() is None,
        array.end_of() == 0,
{
}

/// The empty descriptor has no buffer, no elements and no room.
pub proof fn lemma_vacant<T>()
    ensures
        TArray::<T>::vacant().data() == 0,
        TArray::<T>::vacant().count() == 0,
        TArray::<T>::vacant().capacity() == 0,
        TArray::<T>::vacant().is_empty(),
        TArray::<T>::vacant().freed() is None,
{
    TArray::<T>::lemma_values_of(0, 0, 0);
}

/// The owner of a buffer frees exactly that buffer when it is given up.
pub proof fn lemma_owner_frees_its_buffer<T>(array: TArray<T>)
    requires
        array.owns(),
        array.data() != 0,
    ensures
        array.freed() == Some(array.data()),
{
}

/// A buffer is never freed twice by copying: a copy has the values of the
/// descriptor it was made from and frees nothing, and so does a copy of a
/// copy. Of a descriptor and its copy at most one frees the buffer.
pub proof fn lemma_copy_frees_nothing<T>(array: TArray<T>)
    ensures
        array.shared().data() == array.data(),
        array.shared().count() == array.count(),
        array.shared().capacity() == array.capacity(),
        array.shared().freed() is None,
        array.shared().shared() == array.shared(),
        !(array.freed() is Some && array.shared().freed() is Some),
        !array.shared().takeable(),
{
    TArray::<T>::lemma_values_of(array.data(), array.count(), array.capacity());
}

/// A buffer that was taken over is not given back by the descriptor it was
/// taken from: what a take leaves behind holds no element and frees nothing,
/// while the buffer's address went to the values taken.
pub proof fn lemma_taken_array_frees_nothing<T>(array: TArray<T>)
    ensures
        array.taken().1.freed() is None,
        array.taken().1.is_empty(),
        array.taken().0.data == array.data(),
{
    lemma_vacant::<T>();
}

} // verus!
