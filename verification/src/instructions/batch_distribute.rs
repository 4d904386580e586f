//! One step of the job: the cursor walks one page, each element of the page
//! is paid once, and the step after this one is prepared.

use vstd::prelude::*;
use anchor_lang::prelude::Pubkey;
use crate::constants::{MAX_TOTAL_ELEMENTS, PAYOUT_LAMPORTS};
use crate::continuation::{distribute_step, element_refs, sighash_of, Continuation, JobAccounts};
use crate::errors::ListError;
use crate::keys::copy_keys;
use crate::state::batch_process::{BatchProcess, BatchProcessStatus};
use crate::state::big_list::BigList;
use crate::utils::{addressable, branch_of, coordinates, get_current_indices, leaf_of, offset_of};

verus! {

/// What one element of a page is owed.
#[derive(Clone, Copy, Debug, PartialEq, Eq)]
pub struct Payout {
    /// The position of the element in the list, counted from zero.
    pub index: u32,
    pub recipient: Pubkey,
    pub lamports: u64,
}

/// What one step of the job leaves to be done by the caller.
#[derive(Clone, Debug, PartialEq, Eq)]
pub struct AdvanceOutcome {
    /// One payout for each element of the page, in the order of the list.
    pub payouts: Vec<Payout>,
    /// Branch, leaf and offset of the first element of the next page, where
    /// the list has an element behind this page.
    pub next_position: Option<(u8, u8, u8)>,
    /// The step after this one.
    pub next_instruction: Continuation,
}

/// Why a cursor that has walked `walked` elements cannot walk `page_len` more
/// of a list of `available` elements, or `None` where it can. A page that
/// reaches beyond the list comes first, a count beyond what can be addressed
/// second.
pub open spec fn advance_verdict(walked: nat, available: nat, page_len: nat) -> Option<ListError> {
    if walked + page_len > available {
        Some(ListError::PageExceedsAvailable)
    } else if !addressable(walked + page_len) {
        Some(ListError::AddressOverflow)
    } else {
        None
    }
}

/// The number of elements walked after one step: `page_len` more where the
/// step goes through, as many as before where it is refused.
pub open spec fn walked_after(walked: nat, available: nat, page_len: nat) -> nat {
    if advance_verdict(walked, available, page_len) is None {
        walked + page_len
    } else {
        walked
    }
}

/// The number of elements walked after a run of steps, each given as what the
/// list held at its time and the length of its page.
pub open spec fn walked_after_all(walked: nat, steps: Seq<(nat, nat)>) -> nat
    decreases steps.len(),
{
    if steps.len() == 0 {
        walked
    } else {
        walked_after_all(walked_after(walked, steps[0].0, steps[0].1), steps.drop_first())
    }
}

/// A step never takes the cursor back, and one that goes through never takes
/// it beyond what the list held at the time.
pub proof fn lemma_advance_monotonic(walked: nat, available: nat, page_len: nat)
    ensures
        walked <= walked_after(walked, available, page_len),
        advance_verdict(walked, available, page_len) is None ==> walked_after(
            walked,
            available,
            page_len,
        ) <= available,
        walked <= available ==> walked_after(walked, available, page_len) <= available,
{
}

/// Over any run of steps the cursor never goes back: it ends no earlier than
/// it began, and no earlier than after any shorter run of the same steps.
pub proof fn lemma_successive_advances_monotonic(walked: nat, steps: Seq<(nat, nat)>, shorter: int)
    requires
        0 <= shorter <= steps.len(),
    ensures
        walked <= walked_after_all(walked, steps.subrange(0, shorter)),
        walked_after_all(walked, steps.subrange(0, shorter)) <= walked_after_all(walked, steps),
    decreases steps.len(),
{
    if steps.len() == 0 {
        assert(steps.subrange(0, shorter) == steps);
    } else if shorter == 0 {
        assert(steps.subrange(0, 0).len() == 0);
        let next = walked_after(walked, steps[0].0, steps[0].1);
        lemma_successive_advances_monotonic(next, steps.drop_first(), 0);
        assert(steps.drop_first().subrange(0, 0).len() == 0);
    } else {
        let next = walked_after(walked, steps[0].0, steps[0].1);
        let prefix = steps.subrange(0, shorter);
        assert(prefix[0] == steps[0]);
        assert(prefix.drop_first() == steps.drop_first().subrange(0, shorter - 1));
        lemma_successive_advances_monotonic(next, steps.drop_first(), shorter - 1);
    }
}

/// The payouts for a page that begins behind the first `walked` elements: one
/// for each element, in order, each of the same amount.
pub open spec fn payouts_of(walked: nat, page: Seq<Pubkey>) -> Seq<Payout> {
    Seq::new(
        page.len(),
        |i: int| Payout { index: (walked + i) as u32, recipient: page[i], lamports: 100_000 },
    )
}

/// Branch, leaf and offset of the element behind the first `walked`, where a
/// list of `available` elements has one.
pub open spec fn next_start(walked: nat, available: nat) -> Option<(u8, u8, u8)> {
    if walked < available && addressable(walked + 1) {
        Some(
            (
                branch_of(walked + 1) as u8,
                leaf_of(walked + 1) as u8,
                offset_of(walked + 1) as u8,
            ),
        )
    } else {
        None
    }
}

/// The entries of a leaf that the next page covers: those from the offset of
/// the element behind the first `walked` on, at most `page_len` of them, no
/// more than the list of `available` elements has left, and none beyond the
/// end of the leaf.
pub open spec fn next_window(
    entries: Seq<Pubkey>,
    walked: nat,
    available: nat,
    page_len: nat,
) -> Seq<Pubkey> {
    let left = if walked <= available {
        available - walked
    } else {
        0
    };
    let wanted = if page_len <= left {
        page_len as int
    } else {
        left
    };
    let from = if walked % 256 <= entries.len() {
        (walked % 256) as int
    } else {
        entries.len() as int
    };
    let to = if from + wanted <= entries.len() {
        from + wanted
    } else {
        entries.len() as int
    };
    entries.subrange(from, to)
}

/// Moves the cursor over a page of `page_len` elements of a list that holds
/// `available` elements. Where the step is refused, the cursor is left as it
/// was.
pub fn advance_cursor(
    batch_process: &mut BatchProcess,
    available: u32,
    page_len: usize,
) -> (res: Result<(), ListError>)
    ensures
        match advance_verdict(
            old(batch_process).total_processed as nat,
            available as nat,
            page_len as nat,
        ) {
            Some(error) => {
                &&& res == Err::<(), ListError>(error)
                &&& *final(batch_process) == *old(batch_process)
            },
            None => {
                &&& res == Ok::<(), ListError>(())
                &&& final(batch_process).status == BatchProcessStatus::Processing
                &&& final(batch_process).total_processed == old(batch_process).total_processed
                    + page_len
                &&& final(batch_process).position_follows_total()
                &&& final(batch_process).big_list == old(batch_process).big_list
                &&& final(batch_process).authority == old(batch_process).authority
            },
        },
        final(batch_process).total_processed == walked_after(
            old(batch_process).total_processed as nat,
            available as nat,
            page_len as nat,
        ),
        old(batch_process).status == BatchProcessStatus::Processing
            ==> final(batch_process).status == BatchProcessStatus::Processing,
        final(batch_process).total_processed >= old(batch_process).total_processed,
        res is Ok ==> final(batch_process).total_processed <= available,
        old(batch_process).total_processed <= available
            ==> final(batch_process).total_processed <= available,
{
    if batch_process.total_processed > available {
        return Err(ListError::PageExceedsAvailable);
    }
    let left: u32 = available - batch_process.total_processed;
    if page_len > left as usize {
        return Err(ListError::PageExceedsAvailable);
    }
    let next_total: u32 = batch_process.total_processed + page_len as u32;
    if next_total > MAX_TOTAL_ELEMENTS {
        return Err(ListError::AddressOverflow);
    }
    let next_position = get_current_indices(next_total);
    batch_process.status = BatchProcessStatus::Processing;
    batch_process.total_processed = next_total;
    batch_process.position = [next_position.0, next_position.1, next_position.2];
    Ok(())
}

/// The payouts for `page`, whose first element is the one behind the first
/// `walked` elements of the list.
pub fn plan_payouts(walked: u32, page: &Vec<Pubkey>) -> (payouts: Vec<Payout>)
    requires
        walked + page@.len() <= u32::MAX,
    ensures
        payouts@ == payouts_of(walked as nat, page@),
{
    let mut payouts: Vec<Payout> = Vec::new();
    let mut i: usize = 0;
    while i < page.len()
        invariant
            i <= page@.len(),
            walked + page@.len() <= u32::MAX,
            payouts@ == payouts_of(walked as nat, page@.subrange(0, i as int)),
        decreases page@.len() - i,
    {
        payouts.push(
            Payout { index: walked + i as u32, recipient: page[i], lamports: PAYOUT_LAMPORTS },
        );
        i += 1;
    }
    payouts
}

/// Branch, leaf and offset of the element behind the first `walked`, where a
/// list of `available` elements has one.
pub fn locate_next(walked: u32, available: u32) -> (position: Option<(u8, u8, u8)>)
    ensures
        position == next_start(walked as nat, available as nat),
{
    if walked < available {
        match coordinates(walked + 1) {
            Ok(position) => Some(position),
            Err(_) => None,
        }
    } else {
        None
    }
}

/// The elements of the page behind the first `walked` elements, as far as the
/// leaf `big_list_k` holds them.
pub fn next_page(
    big_list_k: &BigList,
    walked: u32,
    available: u32,
    page_len: usize,
) -> (page: Vec<Pubkey>)
    ensures
        page@ == next_window(
            big_list_k.elements@,
            walked as nat,
            available as nat,
            page_len as nat,
        ),
{
    let left: usize = if walked <= available {
        (available - walked) as usize
    } else {
        0
    };
    let wanted: usize = if page_len <= left {
        page_len
    } else {
        left
    };
    let entries: usize = big_list_k.elements.len();
    let offset: usize = (walked % 256) as usize;
    let from: usize = if offset <= entries {
        offset
    } else {
        entries
    };
    let to: usize = if wanted <= entries - from {
        from + wanted
    } else {
        entries
    };
    copy_keys(&big_list_k.elements, from, to)
}

/// One step of the job over the page `remaining_accounts`.
///
/// The cursor moves over the page; `big_list` is the root of the list, whose
/// total bounds the walk. The outcome holds one payout for each element of the
/// page, in order, and the step after this one: for a page of the same length
/// behind this one, with the elements that the leaf `big_list_k` holds of it.
/// `big_list_k` is taken to be the leaf in which the next page begins; the
/// outcome says where that is. Where the step is refused, the cursor is left
/// as it was.
pub fn process(
    batch_process: &mut BatchProcess,
    big_list: &BigList,
    big_list_k: &BigList,
    accounts: &JobAccounts,
    remaining_accounts: Vec<Pubkey>,
) -> (res: Result<AdvanceOutcome, ListError>)
    ensures
        match advance_verdict(
            old(batch_process).total_processed as nat,
            big_list.total_elements as nat,
            remaining_accounts@.len(),
        ) {
            Some(error) => {
                &&& res == Err::<AdvanceOutcome, ListError>(error)
                &&& *final(batch_process) == *old(batch_process)
            },
            None => {
                &&& res matches Ok(outcome)
                &&& final(batch_process).status == BatchProcessStatus::Processing
                &&& final(batch_process).total_processed == old(batch_process).total_processed
                    + remaining_accounts@.len()
                &&& final(batch_process).position_follows_total()
                &&& final(batch_process).big_list == old(batch_process).big_list
                &&& final(batch_process).authority == old(batch_process).authority
                &&& outcome.payouts@ == payouts_of(
                    old(batch_process).total_processed as nat,
                    remaining_accounts@,
                )
                &&& outcome.next_position == next_start(
                    final(batch_process).total_processed as nat,
                    big_list.total_elements as nat,
                )
                &&& outcome.next_instruction.program_id == accounts.program_id
                &&& outcome.next_instruction.accounts@ == accounts.fixed_refs() + element_refs(
                    next_window(
                        big_list_k.elements@,
                        final(batch_process).total_processed as nat,
                        big_list.total_elements as nat,
                        remaining_accounts@.len(),
                    ),
                )
                &&& outcome.next_instruction.data@ == sighash_of("batch_distribute"@)
            },
        },
        final(batch_process).total_processed == walked_after(
            old(batch_process).total_processed as nat,
            big_list.total_elements as nat,
            remaining_accounts@.len(),
        ),
        old(batch_process).status == BatchProcessStatus::Processing
            ==> final(batch_process).status == BatchProcessStatus::Processing,
        final(batch_process).total_processed >= old(batch_process).total_processed,
        res is Ok ==> final(batch_process).total_processed <= big_list.total_elements,
        old(batch_process).total_processed <= big_list.total_elements
            ==> final(batch_process).total_processed <= big_list.total_elements,
{
    let walked: u32 = batch_process.total_processed;
    let page_len: usize = remaining_accounts.len();
    match advance_cursor(batch_process, big_list.total_elements, page_len) {
        Err(error) => Err(error),
        Ok(()) => {
            let payouts = plan_payouts(walked, &remaining_accounts);
            let page = next_page(
                big_list_k,
                batch_process.total_processed,
                big_list.total_elements,
                page_len,
            );
            let next_position = locate_next(
                batch_process.total_processed,
                big_list.total_elements,
            );
            let next_instruction = distribute_step(accounts, &page);
            Ok(AdvanceOutcome { payouts, next_position, next_instruction })
        },
    }
}

} // verus!
