//! What the host is called with, where the layer decides it.
//!
//! Most calls hand the host a handle and plain values as they are. The calls
//! here choose a default, encode a text, or are not made at all.

use vstd::prelude::*;
use crate::api::handle::{FName, IConsoleVariable, UFunction, UObject};
use crate::api::ptr::Ptr;
use crate::util::{encode_wstr, wstr_of};

verus! {

/// How the host looks a name up: it only finds a name that exists, or it adds
/// the name if it is new.
#[derive(Clone, Copy, Debug, PartialEq, Eq, Structural)]
pub enum EFindName {
    Find,
    Add,
}

impl EFindName {
    /// The number by which the host knows the way of looking up.
    pub open spec fn code_of(self) -> u32 {
        match self {
            EFindName::Find => 0,
            EFindName::Add => 1,
        }
    }

    /// The number by which the host knows the way of looking up.
    pub fn code(&self) -> (code: u32)
        ensures
            code == self.code_of(),
    {
        match self {
            EFindName::Find => 0,
            EFindName::Add => 1,
        }
    }
}

/// The way of looking up that a choice stands for: the one chosen, or adding
/// where none was chosen.
pub open spec fn find_type_of(chosen: Option<EFindName>) -> EFindName {
    match chosen {
        Some(way) => way,
        None => EFindName::Add,
    }
}

/// The flags that a console variable is set with where none were chosen: the
/// variable is set by code.
pub const SET_BY_CODE: u32 = 0x8000_0000;

/// The flags that a choice stands for.
pub open spec fn flags_of(chosen: Option<u32>) -> u32 {
    match chosen {
        Some(flags) => flags,
        None => SET_BY_CODE,
    }
}

/// What the host's name constructor is called with: the name as a wide
/// string and the number of the way of looking up.
#[derive(Debug, PartialEq, Eq)]
pub struct NameCall {
    pub name: Vec<u16>,
    pub find_type: u32,
}

/// What the host sets a console variable with: the value as a wide string
/// and the flags.
#[derive(Debug, PartialEq, Eq)]
pub struct SetCall {
    pub value: Vec<u16>,
    pub flags: u32,
}

/// What the host dispatches an event with: the object and the function.
#[derive(Clone, Copy, Debug, PartialEq, Eq, Structural)]
pub struct EventCall {
    pub object: usize,
    pub function: usize,
}

impl FName {
    /// The call that makes the name `name`: the name is added if it is new,
    /// unless `find_type` says otherwise.
    pub fn new(name: &str, find_type: Option<EFindName>) -> (call: NameCall)
        ensures
            call.name@ == wstr_of(name@),
            call.find_type == find_type_of(find_type).code_of(),
    {
        let way = match find_type {
            Some(way) => way,
            None => EFindName::Add,
        };
        NameCall { name: encode_wstr(name), find_type: way.code() }
    }
}

impl IConsoleVariable {
    /// The call that sets the variable to `value`, by code unless `flags`
    /// says otherwise.
    pub fn set_ex(value: &str, flags: Option<u32>) -> (call: SetCall)
        ensures
            call.value@ == wstr_of(value@),
            call.flags == flags_of(flags),
    {
        let flags = match flags {
            Some(flags) => flags,
            None => SET_BY_CODE,
        };
        SetCall { value: encode_wstr(value), flags }
    }
}

impl UFunction {
    /// The call that runs the function on `object`, or nothing where the
    /// handle refers to no object: then the host is not called.
    pub fn call(&self, object: &UObject) -> (event: Option<EventCall>)
        ensures
            event == if object.addr() == 0 {
                None
            } else {
                Some(EventCall { object: object.addr(), function: self.addr() })
            },
    {
        if object.is_invalid() {
            None
        } else {
            Some(EventCall { object: object.to_ptr(), function: self.to_ptr() })
        }
    }
}

} // verus!
