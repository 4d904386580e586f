//! Appending a batch to a leaf that has room for all of it.

use vstd::prelude::*;
use anchor_lang::prelude::Pubkey;
use crate::constants::{MAX_LIST_VECTOR_SIZE, MAX_TOTAL_ELEMENTS};
use crate::errors::ListError;
use crate::state::big_list::BigList;
use crate::utils::{
    addressable,
    branch_of,
    last_leaf_len,
    leaf_of,
    lemma_extension_stays_in_leaf,
};

verus! {

/// Whether the root, the branch and the leaf of an append are each within the
/// capacity of a shard.
pub open spec fn shards_within_capacity(root: BigList, branch: BigList, leaf: BigList) -> bool {
    root.within_capacity() && branch.within_capacity() && leaf.within_capacity()
}

/// Whether `branch` and `leaf` are the last branch and the last leaf of the
/// list with the root `root`, where the list was filled leaf by leaf: the
/// shards stand at the depth and index at which the last element lies, the
/// leaf holds as many elements as its offset says, the branch counts the
/// leaves up to this one and the elements in them.
pub open spec fn is_tail(root: BigList, branch: BigList, leaf: BigList) -> bool {
    let total = root.total_elements as nat;
    &&& addressable(total)
    &&& root.depth == 0
    &&& branch.depth == 1
    &&& leaf.depth == 2
    &&& branch.index == branch_of(total)
    &&& leaf.index == leaf_of(total)
    &&& branch.len == leaf_of(total) + 1
    &&& branch.total_elements == leaf_of(total) * 256 + last_leaf_len(total)
    &&& leaf.len == last_leaf_len(total)
    &&& leaf.total_elements == last_leaf_len(total)
}

/// Whether the totals stay within what three levels address when `batch_len`
/// elements come under the root and the branch, `leaf_share` of them into the
/// leaf.
pub open spec fn totals_fit(
    root: BigList,
    branch: BigList,
    leaf: BigList,
    batch_len: nat,
    leaf_share: nat,
) -> bool {
    &&& root.total_elements + batch_len <= 16_777_216
    &&& branch.total_elements + batch_len <= 16_777_216
    &&& leaf.total_elements + leaf_share <= 16_777_216
}

/// Why a batch of `batch_len` elements cannot simply go behind the entries of
/// `leaf`, or `None` where it can. A shard beyond its capacity, before the
/// append or by it, comes first; a total beyond what can be addressed second.
pub open spec fn extend_verdict(
    root: BigList,
    branch: BigList,
    leaf: BigList,
    batch_len: nat,
) -> Option<ListError> {
    if !shards_within_capacity(root, branch, leaf) {
        Some(ListError::CapacityExceeded)
    } else if leaf.len + batch_len > 256 || leaf.elements@.len() + batch_len > 256 {
        Some(ListError::CapacityExceeded)
    } else if !totals_fit(root, branch, leaf, batch_len, batch_len) {
        Some(ListError::AddressOverflow)
    } else {
        None
    }
}

/// Refuses a shard whose counter or whose entries go beyond the capacity of a
/// shard.
pub fn assert_list_does_not_exced_max_len(big_list: &BigList) -> (res: Result<(), ListError>)
    ensures
        big_list.within_capacity() ==> res == Ok::<(), ListError>(()),
        !big_list.within_capacity() ==> res == Err::<(), ListError>(ListError::CapacityExceeded),
{
    if big_list.len > 256 || big_list.elements.len() > MAX_LIST_VECTOR_SIZE {
        Err(ListError::CapacityExceeded)
    } else {
        Ok(())
    }
}

/// Appends `addresses`, in order, to the leaf `big_list_k`, and counts them in
/// the leaf, in its branch `big_list_j` and in the root `big_list`. The leaf
/// must have room for the whole batch: nothing rolls over into a new leaf.
/// Where the append is refused, the three shards are left as they were.
pub fn process(
    big_list: &mut BigList,
    big_list_j: &mut BigList,
    big_list_k: &mut BigList,
    addresses: Vec<Pubkey>,
) -> (res: Result<(), ListError>)
    ensures
        match extend_verdict(*old(big_list), *old(big_list_j), *old(big_list_k), addresses@.len()) {
            Some(error) => {
                &&& res == Err::<(), ListError>(error)
                &&& *final(big_list) == *old(big_list)
                &&& *final(big_list_j) == *old(big_list_j)
                &&& *final(big_list_k) == *old(big_list_k)
            },
            None => {
                &&& res == Ok::<(), ListError>(())
                &&& final(big_list).counted_from(*old(big_list), addresses@.len())
                &&& final(big_list_j).counted_from(*old(big_list_j), addresses@.len())
                &&& final(big_list_k).extended_from(*old(big_list_k), addresses@)
            },
        },
        res is Ok ==> {
            &&& final(big_list).keeps_shape_of(*old(big_list))
            &&& final(big_list_j).keeps_shape_of(*old(big_list_j))
            &&& final(big_list_k).keeps_shape_of(*old(big_list_k))
        },
        res is Ok && is_tail(*old(big_list), *old(big_list_j), *old(big_list_k)) ==> is_tail(
            *final(big_list),
            *final(big_list_j),
            *final(big_list_k),
        ),
        addresses@.len() == 0 ==> {
            &&& final(big_list).same_as(*old(big_list))
            &&& final(big_list_j).same_as(*old(big_list_j))
            &&& final(big_list_k).same_as(*old(big_list_k))
        },
{
    let mut addresses = addresses;
    let addresses_len: usize = addresses.len();

    if assert_list_does_not_exced_max_len(big_list).is_err()
        || assert_list_does_not_exced_max_len(big_list_j).is_err()
        || assert_list_does_not_exced_max_len(big_list_k).is_err() {
        return Err(ListError::CapacityExceeded);
    }
    if addresses_len > MAX_LIST_VECTOR_SIZE
        || big_list_k.len as usize + addresses_len > MAX_LIST_VECTOR_SIZE
        || big_list_k.elements.len() + addresses_len > MAX_LIST_VECTOR_SIZE {
        return Err(ListError::CapacityExceeded);
    }
    let added: u32 = addresses_len as u32;
    if big_list.total_elements > MAX_TOTAL_ELEMENTS - added
        || big_list_j.total_elements > MAX_TOTAL_ELEMENTS - added
        || big_list_k.total_elements > MAX_TOTAL_ELEMENTS - added {
        return Err(ListError::AddressOverflow);
    }

    proof {
        if is_tail(*old(big_list), *old(big_list_j), *old(big_list_k)) {
            lemma_extension_stays_in_leaf(old(big_list).total_elements as nat, addresses@.len());
        }
    }
    big_list_k.len += addresses_len as u16;
    big_list.total_elements += added;
    big_list_j.total_elements += added;
    big_list_k.total_elements += added;
    big_list_k.elements.append(&mut addresses);
    Ok(())
}

} // verus!
