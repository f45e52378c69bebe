//! Fetching results of unknown size from the host.
//!
//! The host returns a list or a text in two calls: the first, without a
//! buffer, tells the size; the second fills a buffer of that size. A size of
//! zero means that there is nothing to fetch, and no second call is made.

use vstd::prelude::*;
use vstd::string::*;
use crate::api::handle::{FName, UClass, UObject};
use crate::api::ptr::Ptr;
use crate::api::state::API;
use crate::util::{
    decode_wstr,
    is_utf16,
    lemma_utf16_text,
    string_from_utf16_lossy,
    utf16_lossy,
    utf16_text,
};

verus! {

/// What the second call is made with: a buffer of `len` elements, and the
/// number `limit` of elements that the host is told it may write.
#[derive(Clone, Copy, Debug, PartialEq, Eq, Structural)]
pub struct FillRequest {
    pub len: usize,
    pub limit: u32,
}

/// The second call for a result of the size `size`, where the host is told
/// `slack` elements more than the buffer has: none for the size zero.
pub open spec fn fill_for(size: int, slack: int) -> Option<FillRequest> {
    if size == 0 {
        None
    } else {
        Some(FillRequest { len: size as usize, limit: (size + slack) as u32 })
    }
}

/// The handles of the objects at the addresses `handles`, in order.
pub open spec fn objects_at(handles: Seq<usize>) -> Seq<UObject> {
    Seq::new(handles.len(), |i: int| UObject::at(handles[i]))
}

impl UClass {
    /// The second call that fetches the objects of a class, of which the
    /// host reported `size`.
    pub fn objects_request(size: i32) -> (request: Option<FillRequest>)
        requires
            size >= 0,
        ensures
            request == fill_for(size as int, 0),
    {
        if size == 0 {
            None
        } else {
            Some(FillRequest { len: size as usize, limit: size as u32 })
        }
    }

    /// The objects of a class, from the addresses that the host wrote into
    /// the buffer. Each address is wrapped as it is, in order.
    pub fn get_objects_matching_raw(handles: &Vec<usize>) -> (objects: Vec<UObject>)
        ensures
            objects@ == objects_at(handles@),
    {
        let mut objects: Vec<UObject> = Vec::new();
        let mut i: usize = 0;
        while i < handles.len()
            invariant
                i <= handles@.len(),
                objects@ == objects_at(handles@.take(i as int)),
            decreases handles@.len() - i,
        {
            objects.push(UObject::from_handle(handles[i]));
            assert(objects@ =~= objects_at(handles@.take(i as int + 1)));
            i += 1;
        }
        assert(handles@.take(i as int) =~= handles@);
        objects
    }

    /// The first object of a class, from the address that the host returned:
    /// nothing if the host found none.
    pub fn get_first_object_matching_raw(found: usize) -> (object: Option<UObject>)
        ensures
            found == 0 ==> object is None,
            found != 0 ==> object == Some(UObject::at(found)),
    {
        UObject::from_handle_safe(found)
    }
}

impl FName {
    /// The second call that fetches the text of a name, of which the host
    /// reported `size` code units.
    pub fn text_request(size: u32) -> (request: Option<FillRequest>)
        ensures
            request == fill_for(size as int, 0),
    {
        if size == 0 {
            None
        } else {
            Some(FillRequest { len: size as usize, limit: size })
        }
    }

    /// The text of a name, from the code units that the host wrote into the
    /// buffer, or from no buffer where the host reported the size zero. A
    /// name of size zero is the empty text. Code units that encode no text
    /// give nothing.
    pub fn to_string(filled: Option<&Vec<u16>>) -> (text: Option<String>)
        ensures
            match filled {
                None => text matches Some(s) && s@ == Seq::<char>::empty(),
                Some(units) => match text {
                    Some(s) => utf16_text(units@) == Some(s@),
                    None => utf16_text(units@) is None,
                },
            },
    {
        match filled {
            None => Some(String::new()),
            Some(units) => decode_wstr(units),
        }
    }
}

impl API {
    /// The path of the persistent directory, from the code units that the
    /// host wrote into the buffer, or from no buffer where the host reported
    /// the size zero: then the path is empty. Units that encode a text give
    /// that text; units that encode no character are replaced.
    pub fn get_persistent_dir(filled: Option<&Vec<u16>>) -> (path: String)
        ensures
            filled is None ==> path@ == Seq::<char>::empty(),
            filled matches Some(units) ==> path@ == utf16_lossy(units@),
            filled matches Some(units) ==> (utf16_text(units@) matches Some(text) ==> path@
                == text),
    {
        match filled {
            None => String::new(),
            Some(units) => {
                let path = string_from_utf16_lossy(units);
                proof {
                    if is_utf16(units@) {
                        lemma_utf16_text(path@);
                    }
                }
                path
            },
        }
    }

    /// The second call that fetches the path of the persistent directory, of
    /// which the host reported `size` code units. The host is told one unit
    /// more than the buffer has.
    pub fn persistent_dir_request(size: u32) -> (request: Option<FillRequest>)
        requires
            size < u32::MAX,
        ensures
            request == fill_for(size as int, 1),
    {
        if size == 0 {
            None
        } else {
            Some(FillRequest { len: size as usize, limit: size + 1 })
        }
    }
}

} // verus!
