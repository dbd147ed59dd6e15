use anchor_lang::prelude::Pubkey;
use std::collections::HashSet;
use std::str::FromStr;
use votingapplication::{
    candidate_seeds, find_candidate_address, find_poll_address, poll_seeds, program_id,
    seed_chunk, Address, MAX_SEEDS, MAX_SEED_LEN,
};

fn id() -> Pubkey {
    Pubkey::new_from_array(program_id().bytes)
}

#[test]
fn program_id_matches_its_base58_text() {
    let expected = Pubkey::from_str("coUnmi3oBUtwtd9fjeAvSsJssXh5A5xyPbhpewyzRVF").unwrap();
    assert_eq!(program_id().bytes, expected.to_bytes());
}

#[test]
fn poll_seeds_are_the_id_in_little_endian() {
    assert_eq!(poll_seeds(1), vec![vec![1u8, 0, 0, 0, 0, 0, 0, 0]]);
    assert_eq!(
        poll_seeds(0x0102_0304_0506_0708),
        vec![vec![8u8, 7, 6, 5, 4, 3, 2, 1]]
    );
    assert_eq!(poll_seeds(u64::MAX), vec![vec![255u8; 8]]);
}

#[test]
fn candidate_seeds_are_the_id_then_the_name() {
    assert_eq!(
        candidate_seeds(1, "Alice"),
        vec![vec![1u8, 0, 0, 0, 0, 0, 0, 0], vec![65u8, 108, 105, 99, 101]]
    );
    assert_eq!(
        candidate_seeds(258, "é"),
        vec![vec![2u8, 1, 0, 0, 0, 0, 0, 0], vec![0xc3u8, 0xa9]]
    );
    assert_eq!(
        candidate_seeds(0, ""),
        vec![vec![0u8; 8], Vec::<u8>::new()]
    );
}

#[test]
fn poll_address_is_the_program_address_of_the_id_bytes() {
    let (expected, bump) = Pubkey::find_program_address(&[&7u64.to_le_bytes()], &id());
    let (address, found_bump) = find_poll_address(7).unwrap();
    assert_eq!(address.bytes, expected.to_bytes());
    assert_eq!(found_bump, bump);
    assert_ne!(address, program_id());
    assert_ne!(address.bytes[..8], 7u64.to_le_bytes());
}

#[test]
fn candidate_address_is_the_program_address_of_id_and_name() {
    let (expected, bump) =
        Pubkey::find_program_address(&[&7u64.to_le_bytes(), "Alice".as_bytes()], &id());
    let (address, found_bump) = find_candidate_address(7, "Alice").unwrap();
    assert_eq!(address.bytes, expected.to_bytes());
    assert_eq!(found_bump, bump);
}

#[test]
fn derived_address_with_its_bump_is_off_the_curve() {
    let (address, bump) = find_poll_address(42).unwrap();
    let made =
        Pubkey::create_program_address(&[&42u64.to_le_bytes(), &[bump]], &id()).unwrap();
    assert_eq!(made.to_bytes(), address.bytes);
    assert!(!made.is_on_curve());
}

#[test]
fn deriving_twice_gives_the_same_poll_address() {
    for poll_id in [0u64, 1, 2, 1000, u64::MAX] {
        assert_eq!(find_poll_address(poll_id), find_poll_address(poll_id));
        assert!(find_poll_address(poll_id).is_some());
    }
}

#[test]
fn deriving_twice_gives_the_same_candidate_address() {
    assert_eq!(
        find_candidate_address(1, "Alice"),
        find_candidate_address(1, "Alice")
    );
    assert!(find_candidate_address(1, "Alice").is_some());
}

#[test]
fn distinct_poll_ids_give_distinct_addresses() {
    let mut seen: HashSet<[u8; 32]> = HashSet::new();
    for poll_id in 0u64..2000 {
        let (address, _) = find_poll_address(poll_id).unwrap();
        assert!(seen.insert(address.bytes));
    }
    for shift in 0u32..64 {
        let (address, _) = find_poll_address((1u64 << shift) + 5000).unwrap();
        assert!(seen.insert(address.bytes));
    }
    assert_eq!(seen.len(), 2064);
}

#[test]
fn distinct_candidates_give_distinct_addresses() {
    let alice = find_candidate_address(1, "Alice").unwrap().0;
    let bob = find_candidate_address(1, "Bob").unwrap().0;
    let alice_elsewhere = find_candidate_address(2, "Alice").unwrap().0;
    let poll = find_poll_address(1).unwrap().0;
    assert_ne!(alice, bob);
    assert_ne!(alice, alice_elsewhere);
    assert_ne!(alice, poll);
    assert_ne!(bob, poll);
}

#[test]
fn candidate_without_a_name_shares_the_address_of_its_poll() {
    assert_eq!(find_candidate_address(9, ""), find_poll_address(9));
}

#[test]
fn name_of_32_bytes_is_one_seed() {
    let name = "a".repeat(32);
    assert_eq!(candidate_seeds(1, &name), vec![vec![1u8, 0, 0, 0, 0, 0, 0, 0], vec![97u8; 32]]);
    let (expected, bump) =
        Pubkey::find_program_address(&[&1u64.to_le_bytes(), name.as_bytes()], &id());
    let (address, found_bump) = find_candidate_address(1, &name).unwrap();
    assert_eq!(address.bytes, expected.to_bytes());
    assert_eq!(found_bump, bump);
}

#[test]
fn longer_names_are_cut_into_seeds_of_32_bytes() {
    let id_bytes = vec![1u8, 0, 0, 0, 0, 0, 0, 0];
    assert_eq!(
        candidate_seeds(1, &"a".repeat(33)),
        vec![id_bytes.clone(), vec![97u8; 32], vec![97u8; 1]]
    );
    assert_eq!(
        candidate_seeds(1, &"a".repeat(64)),
        vec![id_bytes.clone(), vec![97u8; 32], vec![97u8; 32]]
    );
    assert_eq!(
        candidate_seeds(1, &"a".repeat(65)),
        vec![id_bytes.clone(), vec![97u8; 32], vec![97u8; 32], vec![97u8; 1]]
    );
    let mixed: String = ('a'..='z').chain('A'..='Z').collect();
    assert_eq!(
        candidate_seeds(1, &mixed),
        vec![id_bytes, mixed.as_bytes()[..32].to_vec(), mixed.as_bytes()[32..].to_vec()]
    );
}

#[test]
fn names_of_33_and_64_bytes_have_addresses() {
    for len in [33usize, 48, 63, 64] {
        let name: String = ('a'..='z').cycle().take(len).collect();
        let bytes = name.as_bytes();
        let (expected, bump) = Pubkey::find_program_address(
            &[&7u64.to_le_bytes(), &bytes[..32], &bytes[32..]],
            &id(),
        );
        let (address, found_bump) = find_candidate_address(7, &name).unwrap();
        assert_eq!(address.bytes, expected.to_bytes());
        assert_eq!(found_bump, bump);
    }
}

#[test]
fn long_names_that_differ_late_have_different_addresses() {
    let first = format!("{}x", "a".repeat(63));
    let second = format!("{}y", "a".repeat(63));
    let third = "a".repeat(63);
    let a = find_candidate_address(1, &first).unwrap().0;
    let b = find_candidate_address(1, &second).unwrap().0;
    let c = find_candidate_address(1, &third).unwrap().0;
    assert_ne!(a, b);
    assert_ne!(a, c);
    assert_ne!(b, c);
}

#[test]
fn text_of_fifteen_seeds_has_an_address_and_one_of_sixteen_has_none() {
    assert_eq!(candidate_seeds(1, &"a".repeat(448)).len(), 15);
    assert!(find_candidate_address(1, &"a".repeat(448)).is_some());
    assert_eq!(candidate_seeds(1, &"a".repeat(449)).len(), 16);
    assert_eq!(find_candidate_address(1, &"a".repeat(449)), None);
}

#[test]
fn seed_chunk_is_the_next_32_bytes_or_what_is_left() {
    let text: String = ('a'..='z').cycle().take(70).collect();
    let bytes = text.as_bytes();
    assert_eq!(seed_chunk(&text, 0), &bytes[..32]);
    assert_eq!(seed_chunk(&text, 1), &bytes[32..64]);
    assert_eq!(seed_chunk(&text, 2), &bytes[64..]);
    assert_eq!(seed_chunk(&text, 3), &bytes[..0]);
    assert_eq!(seed_chunk(&text, usize::MAX), &bytes[..0]);
    assert_eq!(seed_chunk("Alice", 0), "Alice".as_bytes());
    assert_eq!(seed_chunk("Alice", 1), "".as_bytes());
    assert_eq!(seed_chunk("", 0), "".as_bytes());
    assert_eq!(seed_chunk(&"a".repeat(32), 1), "".as_bytes());
    assert_eq!(seed_chunk(&"a".repeat(64), 1), "a".repeat(32).as_bytes());
}

#[test]
fn an_empty_seed_at_the_end_leaves_the_address_as_it_is() {
    let (expected, _) = Pubkey::find_program_address(
        &[&7u64.to_le_bytes(), seed_chunk("Alice", 0), seed_chunk("Alice", 1)],
        &id(),
    );
    assert_eq!(find_candidate_address(7, "Alice").unwrap().0.bytes, expected.to_bytes());
}

#[test]
fn seed_limits_are_those_of_the_derivation() {
    assert_eq!(MAX_SEED_LEN, anchor_lang::solana_program::pubkey::MAX_SEED_LEN);
    assert_eq!(MAX_SEEDS, anchor_lang::solana_program::pubkey::MAX_SEEDS);
}

#[test]
fn addresses_are_the_same_when_their_bytes_are() {
    let mut bytes = [7u8; 32];
    let a = Address { bytes };
    let b = Address { bytes };
    assert!(a.same(&b));
    bytes[31] = 8;
    let c = Address { bytes };
    assert!(!a.same(&c));
    assert!(!c.same(&a));
    bytes[31] = 7;
    bytes[0] = 0;
    assert!(!a.same(&Address { bytes }));
}
