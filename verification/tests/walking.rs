use anchor_lang::prelude::Pubkey;
use big_list::append;
use big_list::continuation::{build_continuation, distribute_step, AccountRef, JobAccounts};
use big_list::errors::ListError;
use big_list::instructions::batch_distribute::{
    advance_cursor, locate_next, next_page, plan_payouts, process as advance, Payout,
};
use big_list::instructions::initialize;
use big_list::keys::copy_keys;
use big_list::instructions::initialize_batch_process::{process as start, TriggerPlan};
use big_list::state::batch_process::{BatchProcess, BatchProcessStatus};
use big_list::state::big_list::{BigList, IndexType};
use big_list::utils::coordinates;
use big_list::AppendOutcome;

fn key(n: u32) -> Pubkey {
    let mut bytes = [0u8; 32];
    bytes[..4].copy_from_slice(&n.to_le_bytes());
    bytes[31] = 1;
    Pubkey::new_from_array(bytes)
}

fn keys(from: u32, to: u32) -> Vec<Pubkey> {
    (from..to).map(key).collect()
}

fn shard(depth: u8, index: u8, entries: Vec<Pubkey>, total: u32) -> BigList {
    BigList {
        version: 0,
        index_type: IndexType::GrowableIndex,
        authority: key(9000),
        len: entries.len() as u16,
        depth,
        index,
        total_elements: total,
        elements: entries,
        created_at: 86400,
    }
}

fn job_accounts() -> JobAccounts {
    JobAccounts {
        program_id: key(8000),
        batch_process: key(8001),
        big_list: key(8002),
        big_list_j: key(8003),
        big_list_k: key(8004),
        authority: key(9000),
        batch_processor_thread: key(8005),
        thread_program: key(8006),
        system_program: key(8007),
    }
}

fn fixed_refs() -> Vec<AccountRef> {
    vec![
        AccountRef { pubkey: key(8001), is_signer: false, is_writable: true },
        AccountRef { pubkey: key(8002), is_signer: false, is_writable: false },
        AccountRef { pubkey: key(8003), is_signer: false, is_writable: false },
        AccountRef { pubkey: key(8004), is_signer: false, is_writable: false },
        AccountRef { pubkey: key(9000), is_signer: false, is_writable: false },
        AccountRef { pubkey: key(8005), is_signer: true, is_writable: true },
        AccountRef { pubkey: key(8006), is_signer: false, is_writable: false },
        AccountRef { pubkey: key(8007), is_signer: false, is_writable: false },
    ]
}

fn refs_with(page: &[Pubkey]) -> Vec<AccountRef> {
    let mut refs = fixed_refs();
    for k in page {
        refs.push(AccountRef { pubkey: *k, is_signer: false, is_writable: true });
    }
    refs
}

const BATCH_DISTRIBUTE_SIGHASH: [u8; 8] = [157, 84, 192, 0, 200, 98, 51, 103];

#[test]
fn a_new_cursor_is_ready_at_the_origin() {
    let cursor = BatchProcess::new(key(1), key(2));
    assert_eq!(
        cursor,
        BatchProcess {
            status: BatchProcessStatus::Ready,
            big_list: key(1),
            total_processed: 0,
            position: [0, 0, 0],
            authority: key(2),
        }
    );
}

#[test]
fn account_refs_are_writable_or_read_only() {
    assert_eq!(
        AccountRef::new(key(1), true),
        AccountRef { pubkey: key(1), is_signer: true, is_writable: true }
    );
    assert_eq!(
        AccountRef::new_readonly(key(1), false),
        AccountRef { pubkey: key(1), is_signer: false, is_writable: false }
    );
}

#[test]
fn a_continuation_lists_the_fixed_accounts_and_then_the_page() {
    let step = build_continuation(&job_accounts(), &keys(0, 3), vec![1, 2, 3]);
    assert_eq!(step.program_id, key(8000));
    assert_eq!(step.accounts, refs_with(&keys(0, 3)));
    assert_eq!(step.data, vec![1, 2, 3]);

    let bare = build_continuation(&job_accounts(), &vec![], vec![]);
    assert_eq!(bare.accounts, fixed_refs());
    assert_eq!(bare.data, Vec::<u8>::new());
}

#[test]
fn the_distribute_step_is_selected_by_the_sighash_of_its_name() {
    let step = distribute_step(&job_accounts(), &keys(0, 2));
    assert_eq!(step.data, BATCH_DISTRIBUTE_SIGHASH.to_vec());
    assert_eq!(step.data, clockwork_sdk::utils::anchor_sighash("batch_distribute").to_vec());
    assert_eq!(step.accounts, refs_with(&keys(0, 2)));
    assert_eq!(step.program_id, key(8000));
}

#[test]
fn advance_moves_the_cursor_by_one_page() {
    let mut cursor = BatchProcess::new(key(8002), key(9000));
    assert_eq!(advance_cursor(&mut cursor, 300, 20), Ok(()));
    assert_eq!(cursor.status, BatchProcessStatus::Processing);
    assert_eq!(cursor.total_processed, 20);
    assert_eq!(cursor.position, [0, 0, 19]);
    assert_eq!(cursor.big_list, key(8002));
    assert_eq!(cursor.authority, key(9000));

    cursor.total_processed = 240;
    assert_eq!(advance_cursor(&mut cursor, 300, 20), Ok(()));
    assert_eq!(cursor.total_processed, 260);
    assert_eq!(cursor.position, [0, 1, 3]);
}

#[test]
fn advance_over_an_empty_page_makes_the_cursor_processing() {
    let mut cursor = BatchProcess::new(key(8002), key(9000));
    assert_eq!(advance_cursor(&mut cursor, 0, 0), Ok(()));
    assert_eq!(cursor.status, BatchProcessStatus::Processing);
    assert_eq!(cursor.total_processed, 0);
    assert_eq!(cursor.position, [0, 0, 0]);
}

#[test]
fn a_page_beyond_the_list_is_refused() {
    let mut cursor = BatchProcess::new(key(8002), key(9000));
    cursor.total_processed = 290;
    cursor.position = [0, 1, 33];
    let before = cursor.clone();
    assert_eq!(advance_cursor(&mut cursor, 300, 11), Err(ListError::PageExceedsAvailable));
    assert_eq!(cursor, before);
    assert_eq!(cursor.status, BatchProcessStatus::Ready);

    let root = shard(0, 0, vec![key(9001)], 300);
    let leaf = shard(2, 1, keys(256, 300), 44);
    assert_eq!(
        advance(&mut cursor, &root, &leaf, &job_accounts(), keys(290, 301)),
        Err(ListError::PageExceedsAvailable)
    );
    assert_eq!(cursor, before);

    assert_eq!(advance_cursor(&mut cursor, 300, 10), Ok(()));
    assert_eq!(cursor.total_processed, 300);
}

#[test]
fn a_cursor_ahead_of_a_stale_total_is_refused() {
    let mut cursor = BatchProcess::new(key(8002), key(9000));
    cursor.total_processed = 50;
    let before = cursor.clone();
    assert_eq!(advance_cursor(&mut cursor, 40, 0), Err(ListError::PageExceedsAvailable));
    assert_eq!(cursor, before);
}

#[test]
fn a_walk_beyond_three_levels_is_refused() {
    let mut cursor = BatchProcess::new(key(8002), key(9000));
    cursor.total_processed = 16_777_210;
    let before = cursor.clone();
    assert_eq!(advance_cursor(&mut cursor, 16_777_300, 7), Err(ListError::AddressOverflow));
    assert_eq!(cursor, before);
    assert_eq!(advance_cursor(&mut cursor, 16_777_300, 6), Ok(()));
    assert_eq!(cursor.total_processed, 16_777_216);
    assert_eq!(cursor.position, [255, 255, 255]);
}

#[test]
fn keys_are_copied_from_a_range() {
    assert_eq!(copy_keys(&keys(0, 10), 3, 6), keys(3, 6));
    assert_eq!(copy_keys(&keys(0, 10), 0, 10), keys(0, 10));
    assert_eq!(copy_keys(&keys(0, 10), 10, 10), vec![]);
    assert_eq!(copy_keys(&vec![], 0, 0), vec![]);
}

#[test]
fn payouts_follow_the_page_in_order() {
    assert_eq!(
        plan_payouts(40, &keys(40, 43)),
        vec![
            Payout { index: 40, recipient: key(40), lamports: 100_000 },
            Payout { index: 41, recipient: key(41), lamports: 100_000 },
            Payout { index: 42, recipient: key(42), lamports: 100_000 },
        ]
    );
    assert_eq!(plan_payouts(7, &vec![]), vec![]);
}

#[test]
fn the_next_page_is_cut_at_the_end_of_the_leaf_and_of_the_list() {
    let leaf = shard(2, 0, keys(0, 256), 256);
    assert_eq!(next_page(&leaf, 20, 300, 20), keys(20, 40));
    assert_eq!(next_page(&leaf, 240, 300, 20), keys(240, 256));
    assert_eq!(next_page(&leaf, 240, 250, 20), keys(240, 250));
    assert_eq!(next_page(&leaf, 256, 300, 20), keys(0, 20));
    assert_eq!(next_page(&leaf, 20, 10, 20), vec![]);
    assert_eq!(next_page(&leaf, 20, 300, 0), vec![]);

    let second = shard(2, 1, keys(256, 300), 44);
    assert_eq!(next_page(&second, 260, 300, 20), keys(260, 280));
    assert_eq!(next_page(&second, 290, 300, 20), keys(290, 300));
    assert_eq!(next_page(&second, 300, 300, 20), vec![]);
    assert_eq!(next_page(&second, 310, 400, 20), vec![]);
}

#[test]
fn the_next_position_is_that_of_the_first_element_not_yet_walked() {
    assert_eq!(locate_next(0, 300), Some((0, 0, 0)));
    assert_eq!(locate_next(20, 300), Some((0, 0, 20)));
    assert_eq!(locate_next(255, 300), Some((0, 0, 255)));
    assert_eq!(locate_next(256, 300), Some((0, 1, 0)));
    assert_eq!(locate_next(65536, 70000), Some((1, 0, 0)));
    assert_eq!(locate_next(300, 300), None);
    assert_eq!(locate_next(301, 300), None);
    assert_eq!(locate_next(16_777_215, 16_777_216), Some((255, 255, 255)));
    assert_eq!(locate_next(16_777_216, 16_777_300), None);
}

#[test]
fn one_step_pays_the_page_and_prepares_the_next() {
    let root = shard(0, 0, vec![key(9001)], 100);
    let leaf = shard(2, 0, keys(0, 100), 100);
    let mut cursor = BatchProcess::new(key(8002), key(9000));
    let outcome = advance(&mut cursor, &root, &leaf, &job_accounts(), keys(0, 3)).unwrap();
    assert_eq!(cursor.status, BatchProcessStatus::Processing);
    assert_eq!(cursor.total_processed, 3);
    assert_eq!(cursor.position, [0, 0, 2]);
    assert_eq!(
        outcome.payouts,
        vec![
            Payout { index: 0, recipient: key(0), lamports: 100_000 },
            Payout { index: 1, recipient: key(1), lamports: 100_000 },
            Payout { index: 2, recipient: key(2), lamports: 100_000 },
        ]
    );
    assert_eq!(outcome.next_position, Some((0, 0, 3)));
    assert_eq!(outcome.next_instruction.program_id, key(8000));
    assert_eq!(outcome.next_instruction.accounts, refs_with(&keys(3, 6)));
    assert_eq!(outcome.next_instruction.data, BATCH_DISTRIBUTE_SIGHASH.to_vec());
}

#[test]
fn successive_steps_never_take_the_cursor_back() {
    let leaf = shard(2, 0, keys(0, 256), 256);
    let mut cursor = BatchProcess::new(key(8002), key(9000));
    let mut last = 0;
    let steps: [(u32, u32); 7] = [(50, 20), (50, 20), (50, 20), (40, 5), (60, 10), (60, 1), (200, 140)];
    let expected: [u32; 7] = [20, 40, 40, 40, 50, 51, 191];
    for (i, (available, page_len)) in steps.iter().enumerate() {
        let root = shard(0, 0, vec![key(9001)], *available);
        let page = keys(cursor.total_processed, cursor.total_processed + page_len);
        let res = advance(&mut cursor, &root, &leaf, &job_accounts(), page);
        assert!(cursor.total_processed >= last);
        if res.is_ok() {
            assert!(cursor.total_processed <= *available);
        }
        assert_eq!(cursor.total_processed, expected[i]);
        last = cursor.total_processed;
    }
}

#[test]
fn starting_the_job_walks_the_first_twenty_elements() {
    let root = shard(0, 0, vec![key(9001)], 100);
    let leaf = shard(2, 0, keys(0, 100), 100);
    let mut cursor = BatchProcess::new(key(1), key(2));
    cursor.total_processed = 77;
    let outcome = start(&mut cursor, &root, &leaf, &job_accounts());
    assert_eq!(
        cursor,
        BatchProcess {
            status: BatchProcessStatus::Processing,
            big_list: key(8002),
            total_processed: 20,
            position: [0, 0, 19],
            authority: key(9000),
        }
    );
    assert_eq!(outcome.first_step.payouts.len(), 20);
    assert_eq!(outcome.first_step.payouts[0], Payout { index: 0, recipient: key(0), lamports: 100_000 });
    assert_eq!(outcome.first_step.payouts[19], Payout { index: 19, recipient: key(19), lamports: 100_000 });
    assert_eq!(outcome.first_step.next_position, Some((0, 0, 20)));
    assert_eq!(outcome.first_step.next_instruction.accounts, refs_with(&keys(20, 40)));
    assert_eq!(outcome.first_step.next_instruction.data, BATCH_DISTRIBUTE_SIGHASH.to_vec());
    assert_eq!(outcome.trigger, TriggerPlan { period_seconds: 30, skippable: false });
    assert_eq!(outcome.funding_lamports, 5_000_000_000);
}

#[test]
fn starting_the_job_on_a_short_list_walks_all_of_it() {
    let root = shard(0, 0, vec![key(9001)], 7);
    let leaf = shard(2, 0, keys(0, 7), 7);
    let mut cursor = BatchProcess::new(key(1), key(2));
    let outcome = start(&mut cursor, &root, &leaf, &job_accounts());
    assert_eq!(cursor.total_processed, 7);
    assert_eq!(cursor.position, [0, 0, 6]);
    assert_eq!(outcome.first_step.payouts.len(), 7);
    assert_eq!(outcome.first_step.next_instruction.accounts, refs_with(&[]));

    let empty_root = shard(0, 0, vec![key(9001)], 0);
    let empty_leaf = shard(2, 0, vec![], 0);
    let mut cursor = BatchProcess::new(key(1), key(2));
    let outcome = start(&mut cursor, &empty_root, &empty_leaf, &job_accounts());
    assert_eq!(cursor.status, BatchProcessStatus::Processing);
    assert_eq!(cursor.total_processed, 0);
    assert_eq!(cursor.position, [0, 0, 0]);
    assert_eq!(outcome.first_step.payouts, vec![]);
}

#[test]
fn three_hundred_elements_are_walked_in_fifteen_pages_of_twenty() {
    let blank = BigList {
        version: 0,
        index_type: IndexType::GrowableIndex,
        authority: Pubkey::default(),
        len: 0,
        depth: 0,
        index: 0,
        total_elements: 0,
        elements: vec![],
        created_at: 0,
    };
    let (mut root, mut branch, mut first) = (blank.clone(), blank.clone(), blank.clone());
    initialize::process(&mut root, &mut branch, &mut first, key(9000), key(9001), key(9002), 86400);
    let outcome = append(&mut root, &mut branch, &mut first, Some((key(9003), blank)), keys(0, 300));
    let second = match outcome {
        Ok(AppendOutcome::RolledOver(second)) => second,
        other => panic!("no rollover: {:?}", other),
    };
    assert_eq!((first.len, second.len), (256, 44));
    assert_eq!(branch.len, 2);
    assert_eq!(root.total_elements, 300);

    let mut cursor = BatchProcess::new(key(8002), key(9000));
    let mut paid: Vec<Pubkey> = vec![];
    for page_number in 0..15u32 {
        let from = page_number * 20;
        let page = keys(from, from + 20);
        let leaf = if from + 20 < 256 { &first } else { &second };
        let outcome = advance(&mut cursor, &root, leaf, &job_accounts(), page).unwrap();
        assert_eq!(cursor.total_processed, from + 20);
        for (i, payout) in outcome.payouts.iter().enumerate() {
            assert_eq!(payout.index, from + i as u32);
            paid.push(payout.recipient);
        }
    }
    assert_eq!(cursor.total_processed, 300);
    assert_eq!(locate_next(cursor.total_processed, root.total_elements), None);
    let (j, k, l) = coordinates(300).unwrap();
    assert_eq!(cursor.position, [j, k, l]);
    assert_eq!(cursor.position, [0, 1, 43]);
    assert_eq!(cursor.status, BatchProcessStatus::Processing);
    assert_eq!(paid, keys(0, 300));

    let before = cursor.clone();
    assert_eq!(
        advance(&mut cursor, &root, &second, &job_accounts(), keys(300, 301)),
        Err(ListError::PageExceedsAvailable)
    );
    assert_eq!(cursor, before);
}
