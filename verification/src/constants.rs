use vstd::prelude::*;

verus! {

/// The number of entries that one shard can hold.
pub const MAX_LIST_VECTOR_SIZE: usize = 256;

/// The number of elements that the leaves of one branch hold together.
pub const BRANCH_SPAN: u32 = 65_536;

/// The number of elements that a whole list can hold: 256 branches of 256
/// leaves of 256 elements.
pub const MAX_TOTAL_ELEMENTS: u32 = 16_777_216;

/// The size of the first page that a freshly started cursor walks.
pub const INITIAL_PAGE_SIZE: usize = 20;

/// The period, in seconds, of the trigger that advances a cursor.
pub const TRIGGER_PERIOD_SECONDS: u64 = 30;

/// The lamports handed to each element of a page.
pub const PAYOUT_LAMPORTS: u64 = 100_000;

/// The lamports that fund the recurring job when it is started.
pub const THREAD_FUNDING_LAMPORTS: u64 = 5_000_000_000;

} // verus!
