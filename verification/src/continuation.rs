//! What the scheduler needs to invoke the next step of the job: the accounts
//! to pass and the data that selects the step.

use vstd::prelude::*;
use anchor_lang::prelude::Pubkey;

verus! {

/// An account as one step of the job refers to it.
#[derive(Clone, Copy, Debug, PartialEq, Eq)]
pub struct AccountRef {
    pub pubkey: Pubkey,
    /// Whether the step needs a signature for the account.
    pub is_signer: bool,
    /// Whether the step may write to the account.
    pub is_writable: bool,
}

impl AccountRef {
    /// A reference to an account that the step may write to.
    pub fn new(pubkey: Pubkey, is_signer: bool) -> (account: AccountRef)
        ensures
            account == (AccountRef { pubkey, is_signer, is_writable: true }),
    {
        AccountRef { pubkey, is_signer, is_writable: true }
    }

    /// A reference to an account that the step only reads.
    pub fn new_readonly(pubkey: Pubkey, is_signer: bool) -> (account: AccountRef)
        ensures
            account == (AccountRef { pubkey, is_signer, is_writable: false }),
    {
        AccountRef { pubkey, is_signer, is_writable: false }
    }
}

/// The keys of the accounts that every step of the job is given, and of the
/// program that runs the step.
#[derive(Clone, Copy, Debug, PartialEq, Eq)]
pub struct JobAccounts {
    pub program_id: Pubkey,
    pub batch_process: Pubkey,
    pub big_list: Pubkey,
    pub big_list_j: Pubkey,
    pub big_list_k: Pubkey,
    pub authority: Pubkey,
    pub batch_processor_thread: Pubkey,
    pub thread_program: Pubkey,
    pub system_program: Pubkey,
}

impl JobAccounts {
    /// The references that stand first in every step: the cursor, which the
    /// step writes; root, branch, leaf and authority, which it reads; the
    /// thread, which signs and pays; the thread program and the system
    /// program.
    pub open spec fn fixed_refs(self) -> Seq<AccountRef> {
        seq![
            AccountRef { pubkey: self.batch_process, is_signer: false, is_writable: true },
            AccountRef { pubkey: self.big_list, is_signer: false, is_writable: false },
            AccountRef { pubkey: self.big_list_j, is_signer: false, is_writable: false },
            AccountRef { pubkey: self.big_list_k, is_signer: false, is_writable: false },
            AccountRef { pubkey: self.authority, is_signer: false, is_writable: false },
            AccountRef { pubkey: self.batch_processor_thread, is_signer: true, is_writable: true },
            AccountRef { pubkey: self.thread_program, is_signer: false, is_writable: false },
            AccountRef { pubkey: self.system_program, is_signer: false, is_writable: false },
        ]
    }
}

/// The references to the elements of a page, in order: each can be written
/// to, none signs.
pub open spec fn element_refs(page: Seq<Pubkey>) -> Seq<AccountRef> {
    Seq::new(
        page.len(),
        |i: int| AccountRef { pubkey: page[i], is_signer: false, is_writable: true },
    )
}

/// What the scheduler is handed to invoke a step of the job.
#[derive(Clone, Debug, PartialEq, Eq)]
pub struct Continuation {
    pub program_id: Pubkey,
    /// The accounts of the step: the fixed ones, then the elements of its page.
    pub accounts: Vec<AccountRef>,
    /// The bytes by which the program selects the step.
    pub data: Vec<u8>,
}

/// The first eight bytes of the SHA-256 hash of `global:` followed by `name`:
/// the bytes by which an Anchor program selects the instruction of that name.
pub uninterp spec fn sighash_of(name: Seq<char>) -> Seq<u8>;

/// Calls `clockwork_sdk::utils::anchor_sighash`, which hashes a text made of
/// `name` alone and returns the first eight bytes of the hash: the result
/// depends on nothing but `name`, and is eight bytes long.
#[verifier::external_body]
fn anchor_sighash(name: &str) -> (sighash: Vec<u8>)
    ensures
        sighash@ == sighash_of(name@),
        sighash@.len() == 8,
{
    clockwork_sdk::utils::anchor_sighash(name).to_vec()
}

/// The step that walks `page`, for the program and the accounts of
/// `accounts`, selected by `data`.
pub fn build_continuation(
    accounts: &JobAccounts,
    page: &Vec<Pubkey>,
    data: Vec<u8>,
) -> (step: Continuation)
    ensures
        step.program_id == accounts.program_id,
        step.accounts@ == accounts.fixed_refs() + element_refs(page@),
        step.data@ == data@,
{
    let mut refs: Vec<AccountRef> = Vec::new();
    refs.push(AccountRef::new(accounts.batch_process, false));
    refs.push(AccountRef::new_readonly(accounts.big_list, false));
    refs.push(AccountRef::new_readonly(accounts.big_list_j, false));
    refs.push(AccountRef::new_readonly(accounts.big_list_k, false));
    refs.push(AccountRef::new_readonly(accounts.authority, false));
    refs.push(AccountRef::new(accounts.batch_processor_thread, true));
    refs.push(AccountRef::new_readonly(accounts.thread_program, false));
    refs.push(AccountRef::new_readonly(accounts.system_program, false));

    let mut i: usize = 0;
    while i < page.len()
        invariant
            i <= page@.len(),
            refs@ == accounts.fixed_refs() + element_refs(page@.subrange(0, i as int)),
        decreases page@.len() - i,
    {
        refs.push(AccountRef::new(page[i], false));
        i += 1;
    }
    Continuation { program_id: accounts.program_id, accounts: refs, data }
}

/// The step of the job that distributes to `page`: `build_continuation` with
/// the bytes that select the instruction `batch_distribute`.
pub fn distribute_step(accounts: &JobAccounts, page: &Vec<Pubkey>) -> (step: Continuation)
    ensures
        step.program_id == accounts.program_id,
        step.accounts@ == accounts.fixed_refs() + element_refs(page@),
        step.data@ == sighash_of("batch_distribute"@),
        step.data@.len() == 8,
{
    let data = anchor_sighash("batch_distribute");
    build_continuation(accounts, page, data)
}

} // verus!
