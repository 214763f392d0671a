//! One observed write to a storage slot.

use vstd::prelude::*;

verus! {

/// A write to a storage slot, reduced to what the scan reads: the bytes written.
#[derive(Clone, Debug)]
pub struct StorageChange {
    pub new_value: Vec<u8>,
}

impl StorageChange {
    /// A change that wrote `new_value`.
    pub fn new(new_value: Vec<u8>) -> (r: StorageChange)
        ensures
            r.new_value@ == new_value@,
    {
        StorageChange { new_value }
    }
}

/// The bytes written by each change, in order.
pub open spec fn new_values(changes: Seq<StorageChange>) -> Seq<Seq<u8>> {
    changes.map_values(|c: StorageChange| c.new_value@)
}

} // verus!
