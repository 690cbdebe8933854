use stake_pool_cli::address::{
    address_order, same_address, same_optional_address, unique_signers, AddressOrder,
};
use solana_program::pubkey::Pubkey;

#[test]
fn addresses_are_ordered_by_their_first_difference() {
    let mut a = [7u8; 32];
    let mut b = [7u8; 32];
    assert_eq!(address_order(&a, &b), AddressOrder::Same);
    a[31] = 6;
    assert_eq!(address_order(&a, &b), AddressOrder::Before);
    assert_eq!(address_order(&b, &a), AddressOrder::After);
    b[0] = 1;
    a[31] = 9;
    assert_eq!(address_order(&a, &b), AddressOrder::After);
    assert!(Pubkey::from(b) < Pubkey::from(a));
}

#[test]
fn equal_addresses_are_the_same() {
    assert!(same_address(&[3; 32], &[3; 32]));
    assert!(!same_address(&[3; 32], &[4; 32]));
    assert!(same_optional_address(&None, &None));
    assert!(same_optional_address(&Some([1; 32]), &Some([1; 32])));
    assert!(!same_optional_address(&Some([1; 32]), &None));
    assert!(!same_optional_address(&Some([1; 32]), &Some([2; 32])));
}

#[test]
fn signers_are_sorted_and_repeated_ones_dropped() {
    let listed = vec![[5u8; 32], [1; 32], [5; 32], [3; 32], [1; 32]];
    assert_eq!(unique_signers(&listed), vec![[1u8; 32], [3; 32], [5; 32]]);
    let mut keys: Vec<Pubkey> = listed.iter().map(|a| Pubkey::from(*a)).collect();
    keys.sort();
    keys.dedup();
    let bytes: Vec<[u8; 32]> = keys.iter().map(|k| k.to_bytes()).collect();
    assert_eq!(unique_signers(&listed), bytes);
    assert_eq!(unique_signers(&vec![]), Vec::<[u8; 32]>::new());
}

#[test]
fn the_order_in_which_signers_are_listed_does_not_matter() {
    let first = vec![[9u8; 32], [2; 32], [4; 32]];
    let second = vec![[4u8; 32], [9; 32], [2; 32], [2; 32]];
    assert_eq!(unique_signers(&first), unique_signers(&second));
}

#[test]
fn the_order_of_addresses_is_total_and_transitive() {
    let a = [1u8; 32];
    let mut b = [1u8; 32];
    b[16] = 2;
    let c = [2u8; 32];
    assert_eq!(address_order(&a, &b), AddressOrder::Before);
    assert_eq!(address_order(&b, &c), AddressOrder::Before);
    assert_eq!(address_order(&a, &c), AddressOrder::Before);
    assert_eq!(address_order(&c, &a), AddressOrder::After);
}
