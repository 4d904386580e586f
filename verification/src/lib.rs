//! An append-only list of account keys, sharded over a fixed three-level
//! hierarchy (root, branch, leaf), together with a cursor that walks the list
//! in pages.
//!
//! Every shard holds at most 256 entries. The root refers to branches, a
//! branch refers to leaves, and only leaves hold elements. The position of an
//! element follows from the number of elements before it alone, so a shard can
//! be found without walking the hierarchy.
//!
//! - [`utils`] translates a count of elements into branch, leaf and offset.
//! - [`state`] holds the records: the shard and the cursor.
//! - [`instructions`] holds the operations on them: making a list, appending
//!   to a leaf, appending across the end of a leaf, starting the walk and
//!   walking one page. [`append`] chooses between the two ways to append.
//! - [`continuation`] describes the next step of the walk to a scheduler.
//!
//! The library keeps no storage and calls no other program. Its operations
//! work on records that the caller has read, and say what the caller is to
//! write, pay and schedule.

use vstd::prelude::*;
use anchor_lang::prelude::Pubkey;
use crate::errors::ListError;
use crate::instructions::append::{extend_verdict, is_tail, shards_within_capacity};
use crate::instructions::append_rollover_k::{rollover_verdict, room_left};
use crate::state::big_list::BigList;

pub mod constants;
pub mod continuation;
pub mod errors;
pub mod instructions;
pub mod keys;
pub mod state;
pub mod utils;

verus! {

/// How an append went through.
#[derive(Clone, Debug, PartialEq, Eq)]
pub enum AppendOutcome {
    /// The whole batch went into the leaf.
    Extended,
    /// The batch filled the leaf, and the rest went into this new leaf.
    RolledOver(BigList),
}

impl AppendOutcome {
    /// The last leaf of the list after the append, where `leaf` is the leaf
    /// that the batch was appended at.
    pub open spec fn last_leaf(self, leaf: BigList) -> BigList {
        match self {
            AppendOutcome::Extended => leaf,
            AppendOutcome::RolledOver(new_leaf) => new_leaf,
        }
    }

    /// The number of elements that went into a new leaf.
    pub open spec fn spilled(self) -> nat {
        match self {
            AppendOutcome::Extended => 0,
            AppendOutcome::RolledOver(new_leaf) => new_leaf.total_elements as nat,
        }
    }
}

/// Why a batch of `batch_len` elements cannot be appended at `leaf`, or `None`
/// where it can. A batch that the leaf has room for is judged as an extension
/// of the leaf. One that crosses the end of the leaf needs the record of a new
/// leaf, and is then judged as a rollover.
pub open spec fn append_verdict(
    root: BigList,
    branch: BigList,
    leaf: BigList,
    has_next_leaf: bool,
    batch_len: nat,
) -> Option<ListError> {
    if !shards_within_capacity(root, branch, leaf) {
        Some(ListError::CapacityExceeded)
    } else if leaf.len + batch_len <= 256 {
        extend_verdict(root, branch, leaf, batch_len)
    } else if !has_next_leaf {
        Some(ListError::AccountMissing)
    } else {
        rollover_verdict(root, branch, leaf, batch_len)
    }
}

/// Appends `addresses`, in order, to the list whose root is `big_list`, at the
/// leaf `big_list_k` of the branch `big_list_j`.
///
/// A batch that the leaf has room for goes into the leaf. A batch that crosses
/// the end of the leaf fills it, and the rest goes into one new leaf of the
/// same branch: `next_leaf` holds the key and the fresh record of that leaf,
/// and the filled record comes back in the outcome. `next_leaf` is not looked
/// at where the leaf has room for the batch. Where the append is refused, the
/// three shards are left as they were.
pub fn append(
    big_list: &mut BigList,
    big_list_j: &mut BigList,
    big_list_k: &mut BigList,
    next_leaf: Option<(Pubkey, BigList)>,
    addresses: Vec<Pubkey>,
) -> (res: Result<AppendOutcome, ListError>)
    ensures
        match append_verdict(
            *old(big_list),
            *old(big_list_j),
            *old(big_list_k),
            next_leaf is Some,
            addresses@.len(),
        ) {
            Some(error) => {
                &&& res == Err::<AppendOutcome, ListError>(error)
                &&& *final(big_list) == *old(big_list)
                &&& *final(big_list_j) == *old(big_list_j)
                &&& *final(big_list_k) == *old(big_list_k)
            },
            None => if old(big_list_k).len + addresses@.len() <= 256 {
                &&& res == Ok::<AppendOutcome, ListError>(AppendOutcome::Extended)
                &&& final(big_list).counted_from(*old(big_list), addresses@.len())
                &&& final(big_list_j).counted_from(*old(big_list_j), addresses@.len())
                &&& final(big_list_k).extended_from(*old(big_list_k), addresses@)
            } else {
                &&& res matches Ok(AppendOutcome::RolledOver(new_leaf))
                &&& next_leaf matches Some((next_key, fresh))
                &&& final(big_list).counted_from(*old(big_list), addresses@.len())
                &&& final(big_list_j).with_leaf_from(*old(big_list_j), next_key, addresses@.len())
                &&& final(big_list_k).extended_from(
                    *old(big_list_k),
                    addresses@.subrange(0, room_left(*old(big_list_k)) as int),
                )
                &&& final(big_list_k).len == 256
                &&& new_leaf.filled_from(
                    fresh,
                    old(big_list_j).len as nat,
                    addresses@.subrange(
                        room_left(*old(big_list_k)) as int,
                        addresses@.len() as int,
                    ),
                )
            },
        },
        res is Ok ==> final(big_list).total_elements == old(big_list).total_elements
            + addresses@.len(),
        res is Ok ==> final(big_list_j).total_elements == old(big_list_j).total_elements
            + addresses@.len(),
        res matches Ok(outcome) ==> final(big_list_k).total_elements + outcome.spilled()
            == old(big_list_k).total_elements + addresses@.len(),
        res matches Ok(outcome) ==> {
            &&& final(big_list).keeps_shape_of(*old(big_list))
            &&& final(big_list_j).keeps_shape_of(*old(big_list_j))
            &&& final(big_list_k).keeps_shape_of(*old(big_list_k))
            &&& outcome matches AppendOutcome::RolledOver(new_leaf) ==> new_leaf.within_capacity()
                && new_leaf.normalized()
        },
        res matches Ok(outcome) ==> (is_tail(*old(big_list), *old(big_list_j), *old(big_list_k))
            ==> is_tail(
                *final(big_list),
                *final(big_list_j),
                outcome.last_leaf(*final(big_list_k)),
            )),
        addresses@.len() == 0 ==> {
            &&& final(big_list).same_as(*old(big_list))
            &&& final(big_list_j).same_as(*old(big_list_j))
            &&& final(big_list_k).same_as(*old(big_list_k))
        },
{
    if big_list_k.len > 256 {
        return Err(ListError::CapacityExceeded);
    }
    if addresses.len() <= 256 - big_list_k.len as usize {
        match crate::instructions::append::process(big_list, big_list_j, big_list_k, addresses) {
            Ok(()) => Ok(AppendOutcome::Extended),
            Err(error) => Err(error),
        }
    } else {
        if crate::instructions::append::assert_list_does_not_exced_max_len(big_list).is_err()
            || crate::instructions::append::assert_list_does_not_exced_max_len(big_list_j).is_err()
            || crate::instructions::append::assert_list_does_not_exced_max_len(big_list_k).is_err() {
            return Err(ListError::CapacityExceeded);
        }
        match next_leaf {
            None => Err(ListError::AccountMissing),
            Some((next_key, fresh)) => {
                let mut new_leaf = fresh;
                match crate::instructions::append_rollover_k::process(
                    big_list,
                    big_list_j,
                    big_list_k,
                    &mut new_leaf,
                    next_key,
                    addresses,
                ) {
                    Ok(()) => Ok(AppendOutcome::RolledOver(new_leaf)),
                    Err(error) => Err(error),
                }
            },
        }
    }
}

} // verus!
