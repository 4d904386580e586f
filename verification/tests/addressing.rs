use anchor_lang::prelude::Pubkey;
use big_list::errors::ListError;
use big_list::state::big_list::{BigList, IndexType};
use big_list::utils::{coordinates, get_current_indices, get_j, get_k, get_l};

pub fn gen_big_list(total_elements: u32) -> BigList {
    BigList {
        version: 0,
        index_type: IndexType::GrowableIndex,
        authority: Pubkey::default(),
        len: 0,
        depth: 0,
        index: 0,
        created_at: 86400 as i64,
        total_elements: total_elements,
        elements: vec![
            Pubkey::default(),
            Pubkey::default(),
            Pubkey::default(),
            Pubkey::default(),
        ],
    }
}

#[test]
pub fn it_returns_the_expected_indices() {
    let total_elements = gen_big_list(256).total_elements;
    let (j, k, l) = get_current_indices(total_elements);
    assert_eq!(j, 0);
    assert_eq!(k, 0);
    assert_eq!(l, 255);

    let total_elements = gen_big_list(257).total_elements;
    let (j, k, l) = get_current_indices(total_elements);
    assert_eq!(j, 0);
    assert_eq!(k, 1);
    assert_eq!(l, 0);

    let total_elements = gen_big_list(255).total_elements;
    let (j, k, l) = get_current_indices(total_elements);
    assert_eq!(j, 0);
    assert_eq!(k, 0);
    assert_eq!(l, 254);

    let total_elements = gen_big_list(10000).total_elements;
    let (j, k, l) = get_current_indices(total_elements);
    assert_eq!(j, 0);
    assert_eq!(k, 39);
    assert_eq!(l, 15);

    // Max
    let total_elements = gen_big_list(16777216).total_elements;
    let (j, k, l) = get_current_indices(total_elements);
    assert_eq!(j, 255);
    assert_eq!(k, 255);
    assert_eq!(l, 255);
}

#[test]
fn coordinates_of_an_empty_list_are_zero() {
    assert_eq!(coordinates(0), Ok((0, 0, 0)));
    assert_eq!(get_current_indices(0), (0, 0, 0));
}

#[test]
fn coordinates_match_the_reference_vectors() {
    assert_eq!(coordinates(256), Ok((0, 0, 255)));
    assert_eq!(coordinates(257), Ok((0, 1, 0)));
    assert_eq!(coordinates(255), Ok((0, 0, 254)));
    assert_eq!(coordinates(10000), Ok((0, 39, 15)));
    assert_eq!(coordinates(16777216), Ok((255, 255, 255)));
}

#[test]
fn coordinates_beyond_three_levels_overflow() {
    assert_eq!(coordinates(16777217), Err(ListError::AddressOverflow));
    assert_eq!(coordinates(u32::MAX), Err(ListError::AddressOverflow));
}

#[test]
fn single_coordinates_agree_with_the_triple() {
    for total in [0u32, 1, 255, 256, 257, 10000, 65536, 65537, 131072, 16777216] {
        let (j, k, l) = get_current_indices(total);
        assert_eq!(get_j(total), j);
        assert_eq!(get_k(total), k);
        assert_eq!(get_l(total), l);
    }
}

#[test]
fn coordinates_spell_the_index_of_the_last_element() {
    for total in [1u32, 2, 256, 257, 65536, 65537, 70000, 16777216] {
        let (j, k, l) = get_current_indices(total);
        assert_eq!(j as u32 * 65536 + k as u32 * 256 + l as u32, total - 1);
    }
    assert_eq!(get_current_indices(65536), (0, 255, 255));
    assert_eq!(get_current_indices(65537), (1, 0, 0));
}
