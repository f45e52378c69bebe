//! Finding the live objects of a class, and casting what was found.

use vstd::prelude::*;
use crate::api::class::{StaticClass, cast_to};
use crate::api::fetch::objects_at;
use crate::api::handle::{UClass, UObject};
use crate::api::ptr::Ptr;

verus! {

/// The objects of a class, from the addresses that the host wrote into the
/// buffer.
pub fn get_objects_by_class(handles: &Vec<usize>) -> (objects: Vec<UObject>)
    ensures
        objects@ == objects_at(handles@),
{
    UClass::get_objects_matching_raw(handles)
}

/// The first object of a class, from the address that the host returned.
pub fn get_first_object_by_class(found: usize) -> (object: Option<UObject>)
    ensures
        found == 0 ==> object is None,
        found != 0 ==> object == Some(UObject::at(found)),
{
    UClass::get_first_object_matching_raw(found)
}

/// Those of `objects` that cast to `T`, as `T`, in order: the object at each
/// position casts by the host's answer at that position of `verdicts`.
pub open spec fn matching<T: StaticClass>(objects: Seq<UObject>, verdicts: Seq<bool>) -> Seq<T>
    decreases objects.len(),
{
    if objects.len() == 0 || verdicts.len() == 0 {
        Seq::empty()
    } else {
        matching::<T>(objects.drop_last(), verdicts.drop_last()) + (match cast_to::<T>(
            objects.last().addr(),
            verdicts.last(),
        ) {
            Some(t) => seq![t],
            None => Seq::empty(),
        })
    }
}

/// The objects at the addresses of `objects`, read as `T` with no check.
pub open spec fn reinterpreted<T: Ptr>(objects: Seq<UObject>) -> Seq<T> {
    Seq::new(objects.len(), |i: int| T::at(objects[i].addr()))
}

impl UClass {
    /// Those of the objects of a class that are of the class of `T`, as `T`.
    /// `verdicts` holds, for each object, the host's answer to whether it is
    /// of that class.
    pub fn get_objects_matching<T: StaticClass>(objects: &Vec<UObject>, verdicts: &Vec<bool>) -> (found:
        Vec<T>)
        requires
            objects@.len() == verdicts@.len(),
        ensures
            found@ == matching::<T>(objects@, verdicts@),
    {
        let mut found: Vec<T> = Vec::new();
        let mut i: usize = 0;
        while i < objects.len()
            invariant
                objects@.len() == verdicts@.len(),
                i <= objects@.len(),
                found@ == matching::<T>(objects@.take(i as int), verdicts@.take(i as int)),
            decreases objects@.len() - i,
        {
            let ghost before = found@;
            let cast: Option<T> = objects[i].cast::<T>(verdicts[i]);
            match cast {
                Some(t) => {
                    found.push(t);
                },
                None => {},
            }
            proof {
                let o = objects@.take(i as int + 1);
                let v = verdicts@.take(i as int + 1);
                assert(o.drop_last() =~= objects@.take(i as int));
                assert(v.drop_last() =~= verdicts@.take(i as int));
                assert(o.last() == objects@[i as int]);
                assert(v.last() == verdicts@[i as int]);
            }
            i += 1;
        }
        assert(objects@.take(i as int) =~= objects@);
        assert(verdicts@.take(i as int) =~= verdicts@);
        found
    }

    /// The objects of a class read as `T`, with no check.
    pub fn get_objects_matching_unsafe<T: Ptr>(objects: &Vec<UObject>) -> (found: Vec<T>)
        ensures
            found@ == reinterpreted::<T>(objects@),
    {
        let mut found: Vec<T> = Vec::new();
        let mut i: usize = 0;
        while i < objects.len()
            invariant
                i <= objects@.len(),
                found@ == reinterpreted::<T>(objects@.take(i as int)),
            decreases objects@.len() - i,
        {
            found.push(objects[i].unsafe_cast::<T>());
            assert(found@ =~= reinterpreted::<T>(objects@.take(i as int + 1)));
            i += 1;
        }
        assert(objects@.take(i as int) =~= objects@);
        found
    }

    /// The first object of a class as `T`, if the host found one and says
    /// that it is of the class of `T`.
    pub fn get_first_object_matching<T: StaticClass>(object: Option<UObject>, is_a: bool) -> (found:
        Option<T>)
        ensures
            found == match object {
                Some(o) => cast_to::<T>(o.addr(), is_a),
                None => None,
            },
    {
        match object {
            Some(o) => o.cast::<T>(is_a),
            None => None,
        }
    }

    /// The first object of a class read as `T`, with no check.
    pub fn get_first_object_matching_unsafe<T: Ptr>(object: Option<UObject>) -> (found: Option<T>)
        ensures
            found == match object {
                Some(o) => Some(T::at(o.addr())),
                None => None,
            },
    {
        match object {
            Some(o) => Some(o.unsafe_cast::<T>()),
            None => None,
        }
    }
}

/// Where the host denies every object, nothing matches.
pub proof fn lemma_matching_none<T: StaticClass>(objects: Seq<UObject>, verdicts: Seq<bool>)
    requires
        objects.len() == verdicts.len(),
        forall|i: int| 0 <= i < verdicts.len() ==> !verdicts[i],
    ensures
        matching::<T>(objects, verdicts) == Seq::<T>::empty(),
    decreases objects.len(),
{
    if objects.len() > 0 {
        lemma_matching_none::<T>(objects.drop_last(), verdicts.drop_last());
    }
}

/// No more objects match than there are.
pub proof fn lemma_matching_len<T: StaticClass>(objects: Seq<UObject>, verdicts: Seq<bool>)
    requires
        objects.len() == verdicts.len(),
    ensures
        matching::<T>(objects, verdicts).len() <= objects.len(),
    decreases objects.len(),
{
    if objects.len() > 0 {
        lemma_matching_len::<T>(objects.drop_last(), verdicts.drop_last());
    }
}

/// Where the host affirms every object, every object matches, in order, and
/// keeps its address.
pub proof fn lemma_matching_all<T: StaticClass>(objects: Seq<UObject>, verdicts: Seq<bool>)
    requires
        objects.len() == verdicts.len(),
        forall|i: int| 0 <= i < verdicts.len() ==> verdicts[i],
    ensures
        matching::<T>(objects, verdicts) == reinterpreted::<T>(objects),
    decreases objects.len(),
{
    if objects.len() > 0 {
        lemma_matching_all::<T>(objects.drop_last(), verdicts.drop_last());
        assert(matching::<T>(objects, verdicts) =~= reinterpreted::<T>(objects));
    } else {
        assert(matching::<T>(objects, verdicts) =~= reinterpreted::<T>(objects));
    }
}

} // verus!
