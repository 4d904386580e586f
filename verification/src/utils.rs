//! Where an element lies: from a count of elements to the branch, the leaf
//! and the offset of the last of them.

use vstd::prelude::*;
use crate::constants::{BRANCH_SPAN, MAX_TOTAL_ELEMENTS};
use crate::errors::ListError;

verus! {

/// Whether three levels can address `total` elements.
pub open spec fn addressable(total: nat) -> bool {
    total <= 16_777_216
}

/// The index of the branch that holds the last of `total` elements.
pub open spec fn branch_of(total: nat) -> nat {
    if total == 0 {
        0
    } else {
        ((total - 1) / 65_536) as nat
    }
}

/// The index, within its branch, of the leaf that holds the last of `total`
/// elements.
pub open spec fn leaf_of(total: nat) -> nat {
    if total == 0 {
        0
    } else {
        (((total - 1) % 65_536) / 256) as nat
    }
}

/// The offset, within its leaf, of the last of `total` elements.
pub open spec fn offset_of(total: nat) -> nat {
    if total == 0 {
        0
    } else {
        ((total - 1) % 256) as nat
    }
}

/// Branch, leaf and offset of the last of `total` elements; all zero for an
/// empty list.
pub open spec fn coordinates_of(total: nat) -> (nat, nat, nat) {
    (branch_of(total), leaf_of(total), offset_of(total))
}

/// The three coordinates, read as the digits of a number in base 256.
pub open spec fn position_rank(position: (nat, nat, nat)) -> nat {
    position.0 * 65_536 + position.1 * 256 + position.2
}

/// The coordinates of a count spell the index of its last element: from the
/// coordinates the count is found again. Leaf and offset are digits in base
/// 256, and so is the branch where the count can be addressed.
pub proof fn lemma_coordinates_spell_index(total: nat)
    requires
        0 < total,
    ensures
        addressable(total) ==> branch_of(total) < 256,
        leaf_of(total) < 256,
        offset_of(total) < 256,
        position_rank(coordinates_of(total)) == total - 1,
{
    let index = (total - 1) as int;
    let in_branch = index % 65_536;
    assert(index == 65_536 * (index / 65_536) + in_branch);
    assert(in_branch == 256 * (in_branch / 256) + in_branch % 256);
    assert(in_branch % 256 == index % 256);
}

/// A longer list never ends at an earlier position.
pub proof fn lemma_coordinates_monotonic(shorter: nat, longer: nat)
    requires
        shorter <= longer,
    ensures
        position_rank(coordinates_of(shorter)) <= position_rank(coordinates_of(longer)),
{
    if shorter > 0 {
        lemma_coordinates_spell_index(shorter);
        lemma_coordinates_spell_index(longer);
    }
}

/// The number of elements in the last leaf of a list of `total` elements that
/// was filled leaf by leaf.
pub open spec fn last_leaf_len(total: nat) -> nat {
    if total == 0 {
        0
    } else {
        offset_of(total) + 1
    }
}

/// A batch that the last leaf has room for ends in that same leaf, which then
/// holds the batch more.
pub proof fn lemma_extension_stays_in_leaf(total: nat, batch_len: nat)
    requires
        last_leaf_len(total) + batch_len <= 256,
    ensures
        branch_of(total + batch_len) == branch_of(total),
        leaf_of(total + batch_len) == leaf_of(total),
        last_leaf_len(total + batch_len) == last_leaf_len(total) + batch_len,
{
    if total > 0 && batch_len > 0 {
        let first = (total - 1) as int;
        let last = first + batch_len;
        assert(first == 256 * (first / 256) + first % 256);
        assert(last == 256 * (first / 256) + (first % 256 + batch_len));
        assert(last / 256 == first / 256 && last % 256 == first % 256 + batch_len);
        lemma_leaf_counted_across_branches(first);
        lemma_leaf_counted_across_branches(last);
    }
}

/// A batch that crosses the end of the last leaf, and does not spill past one
/// leaf more, ends in the leaf behind it, which holds what the last leaf had
/// no room for. The leaf behind it is the next of the same branch, unless the
/// last leaf closes its branch.
pub proof fn lemma_rollover_lands_in_next_leaf(total: nat, batch_len: nat)
    requires
        256 < last_leaf_len(total) + batch_len <= 512,
    ensures
        last_leaf_len(total + batch_len) == batch_len - (256 - last_leaf_len(total)),
        leaf_of(total) < 255 ==> branch_of(total + batch_len) == branch_of(total) && leaf_of(
            total + batch_len,
        ) == leaf_of(total) + 1,
        leaf_of(total) == 255 ==> branch_of(total + batch_len) == branch_of(total) + 1 && leaf_of(
            total + batch_len,
        ) == 0,
{
    let last = (total + batch_len - 1) as int;
    if total > 0 {
        let first = (total - 1) as int;
        assert(first == 256 * (first / 256) + first % 256);
        assert(last == 256 * (first / 256 + 1) + (first % 256 + batch_len - 256));
        assert(last / 256 == first / 256 + 1 && last % 256 == first % 256 + batch_len - 256);
        lemma_leaf_counted_across_branches(first);
        lemma_leaf_counted_across_branches(last);
    } else {
        assert(last == 256 * 1 + (batch_len - 257));
        assert(last / 256 == 1 && last % 256 == batch_len - 257);
    }
}

/// Counting leaves across all branches: the branch is the count of leaves
/// before the element divided by 256, the leaf within the branch is the rest.
proof fn lemma_leaf_counted_across_branches(index: int)
    requires
        0 <= index,
    ensures
        index / 65_536 == (index / 256) / 256,
        (index % 65_536) / 256 == (index / 256) % 256,
{
    let leaves = index / 256;
    assert(index == 256 * leaves + index % 256);
    assert(leaves == 256 * (leaves / 256) + leaves % 256);
    assert(index == 65_536 * (leaves / 256) + (256 * (leaves % 256) + index % 256));
    assert(index / 65_536 == leaves / 256 && index % 65_536 == 256 * (leaves % 256) + index % 256);
}

/// The index of the branch that holds the last of `total` elements.
pub fn get_j(total: u32) -> (j: u8)
    requires
        addressable(total as nat),
    ensures
        j == branch_of(total as nat),
{
    if total == 0 {
        return 0;
    }
    let input: u32 = total - 1;
    (input / BRANCH_SPAN) as u8
}

/// The index, within its branch, of the leaf that holds the last of `total`
/// elements.
pub fn get_k(total: u32) -> (k: u8)
    requires
        addressable(total as nat),
    ensures
        k == leaf_of(total as nat),
{
    if total == 0 {
        return 0;
    }
    let input: u32 = total - 1;
    (input % BRANCH_SPAN / 256) as u8
}

/// The offset, within its leaf, of the last of `total` elements.
pub fn get_l(total: u32) -> (l: u8)
    requires
        addressable(total as nat),
    ensures
        l == offset_of(total as nat),
{
    if total == 0 {
        return 0;
    }
    let input: u32 = total - 1;
    (input % 256) as u8
}

/// Branch, leaf and offset of the last of `total_elements` elements.
pub fn get_current_indices(total_elements: u32) -> (indices: (u8, u8, u8))
    requires
        addressable(total_elements as nat),
    ensures
        indices.0 == branch_of(total_elements as nat),
        indices.1 == leaf_of(total_elements as nat),
        indices.2 == offset_of(total_elements as nat),
{
    (get_j(total_elements), get_k(total_elements), get_l(total_elements))
}

/// Branch, leaf and offset of the last of `total` elements, or
/// `AddressOverflow` where the count is beyond what three levels address.
pub fn coordinates(total: u32) -> (res: Result<(u8, u8, u8), ListError>)
    ensures
        addressable(total as nat) ==> res == Ok::<(u8, u8, u8), ListError>(
            (
                branch_of(total as nat) as u8,
                leaf_of(total as nat) as u8,
                offset_of(total as nat) as u8,
            ),
        ),
        !addressable(total as nat) ==> res == Err::<(u8, u8, u8), ListError>(
            ListError::AddressOverflow,
        ),
{
    if total > MAX_TOTAL_ELEMENTS {
        return Err(ListError::AddressOverflow);
    }
    Ok(get_current_indices(total))
}

} // verus!
