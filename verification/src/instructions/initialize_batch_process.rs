//! Starting the job that walks a list: the cursor is made, walks its first
//! page at once, and the recurring trigger is planned.

use vstd::prelude::*;
use anchor_lang::prelude::Pubkey;
use crate::constants::{INITIAL_PAGE_SIZE, THREAD_FUNDING_LAMPORTS, TRIGGER_PERIOD_SECONDS};
use crate::continuation::{element_refs, sighash_of, JobAccounts};
use crate::instructions::batch_distribute::{
    next_page,
    next_start,
    next_window,
    payouts_of,
    AdvanceOutcome,
};
use crate::state::batch_process::{BatchProcess, BatchProcessStatus};
use crate::state::big_list::BigList;

verus! {

/// When the scheduler is to invoke the job again.
#[derive(Clone, Copy, Debug, PartialEq, Eq, Structural)]
pub struct TriggerPlan {
    /// The seconds from one invocation to the next.
    pub period_seconds: u64,
    /// Whether an invocation that was missed may be left out.
    pub skippable: bool,
}

/// What starting the job leaves to be done by the caller.
#[derive(Clone, Debug, PartialEq, Eq)]
pub struct StartOutcome {
    /// The payouts of the first page and the step behind it.
    pub first_step: AdvanceOutcome,
    /// The trigger to arm.
    pub trigger: TriggerPlan,
    /// The lamports to hand to the thread, to cover its fees.
    pub funding_lamports: u64,
}

/// The first page of a list of `available` elements whose first leaf holds
/// `entries`: the first twenty elements, or all where there are fewer.
pub open spec fn initial_page(entries: Seq<Pubkey>, available: nat) -> Seq<Pubkey> {
    next_window(entries, 0, available, 20)
}

/// Starts the job over the list with the root `big_list` and the first leaf
/// `big_list_k`.
///
/// `batch_process` becomes a cursor of that list that has walked the first
/// page. The outcome holds the payouts of that page and the step behind it, as
/// one step of the job gives them, and the trigger to arm: every thirty
/// seconds, no invocation left out.
pub fn process(
    batch_process: &mut BatchProcess,
    big_list: &BigList,
    big_list_k: &BigList,
    accounts: &JobAccounts,
) -> (outcome: StartOutcome)
    ensures
        final(batch_process).status == BatchProcessStatus::Processing,
        final(batch_process).big_list == accounts.big_list,
        final(batch_process).authority == accounts.authority,
        final(batch_process).total_processed == initial_page(
            big_list_k.elements@,
            big_list.total_elements as nat,
        ).len(),
        final(batch_process).total_processed <= 20,
        final(batch_process).total_processed <= big_list.total_elements,
        final(batch_process).position_follows_total(),
        outcome.first_step.payouts@ == payouts_of(
            0,
            initial_page(big_list_k.elements@, big_list.total_elements as nat),
        ),
        outcome.first_step.next_position == next_start(
            final(batch_process).total_processed as nat,
            big_list.total_elements as nat,
        ),
        outcome.first_step.next_instruction.program_id == accounts.program_id,
        outcome.first_step.next_instruction.accounts@ == accounts.fixed_refs() + element_refs(
            next_window(
                big_list_k.elements@,
                final(batch_process).total_processed as nat,
                big_list.total_elements as nat,
                final(batch_process).total_processed as nat,
            ),
        ),
        outcome.first_step.next_instruction.data@ == sighash_of("batch_distribute"@),
        outcome.trigger == (TriggerPlan { period_seconds: 30, skippable: false }),
        outcome.funding_lamports == 5_000_000_000,
{
    let mut cursor = BatchProcess::new(accounts.big_list, accounts.authority);
    let first_page = next_page(big_list_k, 0, big_list.total_elements, INITIAL_PAGE_SIZE);
    match crate::instructions::batch_distribute::process(
        &mut cursor,
        big_list,
        big_list_k,
        accounts,
        first_page,
    ) {
        Ok(first_step) => {
            *batch_process = cursor;
            StartOutcome {
                first_step,
                trigger: TriggerPlan { period_seconds: TRIGGER_PERIOD_SECONDS, skippable: false },
                funding_lamports: THREAD_FUNDING_LAMPORTS,
            }
        },
        // The first page never reaches beyond the list: the step is not refused.
        Err(_) => vstd::pervasive::unreached(),
    }
}

} // verus!
