use vstd::prelude::*;

verus! {

/// Why an operation on a list or on its cursor was refused. A refused
/// operation leaves every shard and the cursor as they were.
#[derive(Clone, Copy, Debug, PartialEq, Eq, Structural)]
pub enum ListError {
    /// A count of elements lies beyond what three levels can address.
    AddressOverflow,
    /// A shard would hold more than its 256 entries.
    CapacityExceeded,
    /// A batch spills past the one new leaf that a rollover creates.
    RolloverTooLarge,
    /// A rollover needs a new branch, which a list does not grow.
    BranchFull,
    /// A shard that the operation refers to was not supplied.
    AccountMissing,
    /// The caller is not the authority of the list.
    AuthorityMismatch,
    /// A page holds more elements than the list has left to walk.
    PageExceedsAvailable,
}

} // verus!
