//! Making a list: its root, its first branch and its first leaf, all empty.

use vstd::prelude::*;
use anchor_lang::prelude::Pubkey;
use crate::instructions::append::is_tail;
use crate::state::big_list::BigList;

verus! {

/// Makes the three records the root, the first branch and the first leaf of
/// an empty list of `authority`, made at `now`. The root refers to the branch
/// by `j_key`, the branch to the leaf by `k_key`, and the leaf holds nothing.
pub fn process(
    big_list: &mut BigList,
    big_list_j: &mut BigList,
    big_list_k: &mut BigList,
    authority: Pubkey,
    j_key: Pubkey,
    k_key: Pubkey,
    now: i64,
)
    ensures
        final(big_list).is_fresh(0, 0, authority, now, seq![j_key]),
        final(big_list_j).is_fresh(1, 0, authority, now, seq![k_key]),
        final(big_list_k).is_fresh(2, 0, authority, now, Seq::<Pubkey>::empty()),
        is_tail(*final(big_list), *final(big_list_j), *final(big_list_k)),
{
    big_list.init(0, 0, authority, now, Some(j_key));
    big_list_j.init(1, 0, authority, now, Some(k_key));
    big_list_k.init(2, 0, authority, now, None);
    big_list.total_elements = 0;
    big_list_j.total_elements = 0;
    big_list_k.total_elements = 0;
}

} // verus!
