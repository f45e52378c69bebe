//! Lazily resolved function tables.
//!
//! Every handle type with behaviour of its own reaches the host through one
//! table of function pointers. The host may fill in the table's address only
//! after the layer is loaded, so the address is looked up on first use and
//! kept from then on.

use vstd::prelude::*;

verus! {

/// Where the address of a function table is read from: the field `field` of
/// the host's data block, or, where `outer` is set, of the block that the
/// data block's field `outer` points to.
#[derive(Clone, Copy, Debug, PartialEq, Eq)]
pub struct TableSource {
    pub outer: Option<&'static str>,
    pub field: &'static str,
}

/// The slot that caches the address of one function table. It starts empty,
/// is filled by the first resolution that finds a table, and never changes
/// after that.
#[derive(Debug)]
pub struct TableSlot {
    table: usize,
}

/// The table that a resolution returns, and leaves in the slot, when the
/// slot holds `cached` and the source reads `source`: the cached table if
/// there is one, else what the source reads.
pub open spec fn resolved(cached: usize, source: usize) -> usize {
    if cached == 0 {
        source
    } else {
        cached
    }
}

impl View for TableSlot {
    type V = usize;

    /// The cached address, `0` while the slot is empty.
    closed spec fn view(&self) -> usize {
        self.table
    }
}

impl TableSlot {
    /// An empty slot.
    pub fn new() -> (slot: Self)
        ensures
            slot@ == 0,
    {
        TableSlot { table: 0 }
    }

    /// The cached table, if the slot was filled.
    pub fn get(&self) -> (table: Option<usize>)
        ensures
            table == if self@ == 0 {
                None
            } else {
                Some(self@)
            },
    {
        if self.table == 0 {
            None
        } else {
            Some(self.table)
        }
    }

    /// Resolves the table where the source currently reads `source`: an
    /// empty slot takes `source`, a filled slot stays as it is. Returns the
    /// slot's table, which is `0` only if the slot was empty and the host has
    /// not published the table yet.
    pub fn initialize(&mut self, source: usize) -> (table: usize)
        ensures
            final(self)@ == resolved(old(self)@, source),
            table == final(self)@,
    {
        if self.table == 0 {
            self.table = source;
        }
        self.table
    }

    /// Resolves the table, reading the source only if the slot is empty.
    pub fn initialize_with<F: FnOnce() -> usize>(&mut self, read: F) -> (table: usize)
        requires
            old(self)@ == 0 ==> call_requires(read, ()),
        ensures
            old(self)@ != 0 ==> final(self)@ == old(self)@,
            old(self)@ == 0 ==> call_ensures(read, (), final(self)@),
            table == final(self)@,
    {
        if self.table == 0 {
            self.table = read();
        }
        self.table
    }
}

/// A filled slot is never reassigned: whatever the source reads later, the
/// resolution returns the cached table and leaves it in place.
pub proof fn lemma_resolved_stays(cached: usize, source: usize)
    requires
        cached != 0,
    ensures
        resolved(cached, source) == cached,
{
}

/// Resolution is idempotent: once a resolution has found a table, every later
/// resolution gives that table again, whatever the source reads by then.
pub proof fn lemma_resolved_idempotent(cached: usize, first: usize, later: usize)
    requires
        resolved(cached, first) != 0,
    ensures
        resolved(resolved(cached, first), later) == resolved(cached, first),
{
}

/// Two first resolutions that read the same source find the same table,
/// whichever of them fills the slot.
pub proof fn lemma_first_resolutions_agree(source: usize)
    ensures
        resolved(0, source) == source,
        resolved(resolved(0, source), source) == resolved(0, source),
{
}

} // verus!
