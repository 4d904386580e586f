//! Appending a batch that crosses the end of its leaf: the leaf is filled, and
//! what is left goes into one new leaf of the same branch.

use vstd::prelude::*;
use anchor_lang::prelude::Pubkey;
use crate::constants::{MAX_LIST_VECTOR_SIZE, MAX_TOTAL_ELEMENTS};
use crate::errors::ListError;
pub use crate::instructions::append::assert_list_does_not_exced_max_len;
use crate::instructions::append::{is_tail, shards_within_capacity, totals_fit};
use crate::state::big_list::BigList;
use crate::utils::lemma_rollover_lands_in_next_leaf;

verus! {

/// The number of entries that `leaf` still has room for, by its counter.
pub open spec fn room_left(leaf: BigList) -> nat {
    if leaf.len <= 256 {
        (256 - leaf.len) as nat
    } else {
        0
    }
}

/// Why a batch of `batch_len` elements that crosses the end of `leaf` cannot
/// roll over into one new leaf of `branch`, or `None` where it can. In order:
/// a shard beyond its capacity; a batch that would spill past the new leaf; a
/// branch with no room for another leaf; a leaf whose entries would go beyond
/// its capacity; a total beyond what can be addressed.
pub open spec fn rollover_verdict(
    root: BigList,
    branch: BigList,
    leaf: BigList,
    batch_len: nat,
) -> Option<ListError> {
    if !shards_within_capacity(root, branch, leaf) {
        Some(ListError::CapacityExceeded)
    } else if batch_len - room_left(leaf) > 256 {
        Some(ListError::RolloverTooLarge)
    } else if branch.len >= 256 || branch.elements@.len() >= 256 {
        Some(ListError::BranchFull)
    } else if leaf.elements@.len() + room_left(leaf) > 256 {
        Some(ListError::CapacityExceeded)
    } else if !totals_fit(root, branch, leaf, batch_len, room_left(leaf)) {
        Some(ListError::AddressOverflow)
    } else {
        None
    }
}

/// Appends `addresses` across the end of the leaf `big_list_k`: the leaf takes
/// as many as it has room for, and the record `big_list_k_next` becomes the
/// next leaf of the branch `big_list_j`, holding the rest. The branch gets
/// `k_next_key` as the reference to the new leaf, and branch and root count
/// the whole batch. Where the append is refused, the four shards are left as
/// they were.
pub fn process(
    big_list: &mut BigList,
    big_list_j: &mut BigList,
    big_list_k: &mut BigList,
    big_list_k_next: &mut BigList,
    k_next_key: Pubkey,
    addresses: Vec<Pubkey>,
) -> (res: Result<(), ListError>)
    requires
        old(big_list_k).len + addresses@.len() > 256,
    ensures
        match rollover_verdict(
            *old(big_list),
            *old(big_list_j),
            *old(big_list_k),
            addresses@.len(),
        ) {
            Some(error) => {
                &&& res == Err::<(), ListError>(error)
                &&& *final(big_list) == *old(big_list)
                &&& *final(big_list_j) == *old(big_list_j)
                &&& *final(big_list_k) == *old(big_list_k)
                &&& *final(big_list_k_next) == *old(big_list_k_next)
            },
            None => {
                &&& res == Ok::<(), ListError>(())
                &&& final(big_list).counted_from(*old(big_list), addresses@.len())
                &&& final(big_list_j).with_leaf_from(
                    *old(big_list_j),
                    k_next_key,
                    addresses@.len(),
                )
                &&& final(big_list_k).extended_from(
                    *old(big_list_k),
                    addresses@.subrange(0, room_left(*old(big_list_k)) as int),
                )
                &&& final(big_list_k).len == 256
                &&& final(big_list_k_next).filled_from(
                    *old(big_list_k_next),
                    old(big_list_j).len as nat,
                    addresses@.subrange(
                        room_left(*old(big_list_k)) as int,
                        addresses@.len() as int,
                    ),
                )
            },
        },
        res is Ok ==> {
            &&& final(big_list).keeps_shape_of(*old(big_list))
            &&& final(big_list_j).keeps_shape_of(*old(big_list_j))
            &&& final(big_list_k).keeps_shape_of(*old(big_list_k))
            &&& final(big_list_k_next).within_capacity()
            &&& final(big_list_k_next).normalized()
        },
        res is Ok && is_tail(*old(big_list), *old(big_list_j), *old(big_list_k)) ==> is_tail(
            *final(big_list),
            *final(big_list_j),
            *final(big_list_k_next),
        ),
{
    let mut addresses = addresses;
    let addresses_len: usize = addresses.len();

    if assert_list_does_not_exced_max_len(big_list).is_err()
        || assert_list_does_not_exced_max_len(big_list_j).is_err()
        || assert_list_does_not_exced_max_len(big_list_k).is_err() {
        return Err(ListError::CapacityExceeded);
    }
    let remaining_k_space: usize = MAX_LIST_VECTOR_SIZE - big_list_k.len as usize;
    if addresses_len - remaining_k_space > MAX_LIST_VECTOR_SIZE {
        return Err(ListError::RolloverTooLarge);
    }
    if big_list_j.len >= 256 || big_list_j.elements.len() >= MAX_LIST_VECTOR_SIZE {
        return Err(ListError::BranchFull);
    }
    if big_list_k.elements.len() + remaining_k_space > MAX_LIST_VECTOR_SIZE {
        return Err(ListError::CapacityExceeded);
    }
    let added: u32 = addresses_len as u32;
    let k_added: u32 = remaining_k_space as u32;
    if big_list.total_elements > MAX_TOTAL_ELEMENTS - added
        || big_list_j.total_elements > MAX_TOTAL_ELEMENTS - added
        || big_list_k.total_elements > MAX_TOTAL_ELEMENTS - k_added {
        return Err(ListError::AddressOverflow);
    }

    proof {
        if is_tail(*old(big_list), *old(big_list_j), *old(big_list_k)) {
            lemma_rollover_lands_in_next_leaf(
                old(big_list).total_elements as nat,
                addresses@.len(),
            );
        }
    }
    let k_next_addresses: Vec<Pubkey> = addresses.split_off(remaining_k_space);
    let k_next_len: usize = k_next_addresses.len();

    big_list.total_elements += added;

    big_list_k.total_elements += k_added;
    big_list_k.len += remaining_k_space as u16;
    big_list_k.elements.append(&mut addresses);

    big_list_k_next.depth = 2;
    big_list_k_next.index = big_list_j.len as u8;
    big_list_k_next.total_elements = k_next_len as u32;
    big_list_k_next.len = k_next_len as u16;
    big_list_k_next.elements = k_next_addresses;

    big_list_j.elements.push(k_next_key);
    big_list_j.len += 1;
    big_list_j.total_elements += added;

    Ok(())
}

} // verus!
