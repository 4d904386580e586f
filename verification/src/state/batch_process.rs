use vstd::prelude::*;
use anchor_lang::prelude::Pubkey;
use crate::utils::{branch_of, leaf_of, offset_of};

verus! {

/// Whether a cursor has walked a page yet.
#[derive(Debug, Clone, Copy, PartialEq, Eq, Structural)]
pub enum BatchProcessStatus {
    Ready,
    Processing,
}

/// The cursor of the job that walks a list page by page.
#[derive(Clone, Debug, PartialEq, Eq)]
pub struct BatchProcess {
    pub status: BatchProcessStatus,
    /// The key of the root of the list that the cursor walks.
    pub big_list: Pubkey,
    /// The number of elements walked so far.
    pub total_processed: u32,
    /// Branch, leaf and offset of the element walked last.
    pub position: [u8; 3],
    pub authority: Pubkey,
}

impl BatchProcess {
    /// Whether the position of the cursor is the one that follows from the
    /// number of elements it has walked.
    pub open spec fn position_follows_total(self) -> bool {
        &&& self.position@[0] == branch_of(self.total_processed as nat)
        &&& self.position@[1] == leaf_of(self.total_processed as nat)
        &&& self.position@[2] == offset_of(self.total_processed as nat)
    }

    /// Whether the cursor is one that has walked nothing yet of the list with
    /// the root `big_list`, for `authority`.
    pub open spec fn is_ready_for(self, big_list: Pubkey, authority: Pubkey) -> bool {
        &&& self.status == BatchProcessStatus::Ready
        &&& self.big_list == big_list
        &&& self.authority == authority
        &&& self.total_processed == 0
        &&& self.position@ == seq![0u8, 0u8, 0u8]
    }

    /// A cursor that has walked nothing yet of the list with the root
    /// `big_list`, for `authority`.
    pub fn new(big_list: Pubkey, authority: Pubkey) -> (cursor: BatchProcess)
        ensures
            cursor.is_ready_for(big_list, authority),
            cursor.position_follows_total(),
    {
        BatchProcess {
            status: BatchProcessStatus::Ready,
            big_list,
            total_processed: 0,
            position: [0, 0, 0],
            authority,
        }
    }
}

} // verus!
