//! Records that the host keeps in its own memory, as the values read from
//! them.

use vstd::prelude::*;

verus! {

/// The size and alignment of a script struct.
#[derive(Clone, Copy, Debug, PartialEq, Eq, Structural)]
pub struct StructOpts {
    pub size: i32,
    pub alignment: i32,
}

/// One entry of the host's array of all objects.
#[derive(Clone, Copy, Debug, PartialEq, Eq, Structural)]
pub struct FUObjectItem {
    pub object: usize,
    pub flags: i32,
    pub cluster_index: i32,
    pub serial_number: i32,
}

/// One entry of the console manager's table: the address of the entry's
/// name and the address of the console object, each followed by two values
/// that the layer does not interpret.
#[derive(Clone, Copy, Debug, PartialEq, Eq)]
pub struct ConsoleObjectElement {
    pub key: usize,
    pub unk: [i32; 2],
    pub value: usize,
    pub unk2: [i32; 2],
}

} // verus!
