use ic_carnage_backend::bytes::same_bytes;
use ic_carnage_backend::error::Error;
use ic_carnage_backend::identity::{AccountIdentifier, MAX_IDENTIFIER_BYTES};

#[test]
fn text_of_management_canister_has_no_bytes() {
    let id = AccountIdentifier::from_text("aaaaa-aa").unwrap();
    assert_eq!(id.as_bytes(), &Vec::<u8>::new());
}

#[test]
fn text_decodes_to_principal_bytes() {
    let id = AccountIdentifier::from_text("2chl6-4hpzw-vqaaa-aaaaa-c").unwrap();
    assert_eq!(id.as_bytes(), &vec![0xef, 0xcd, 0xab, 0, 0, 0, 0, 0, 1]);
}

#[test]
fn text_is_read_as_candid_reads_it() {
    let text = "uxrrr-q7777-77774-qaaaq-cai";
    let id = AccountIdentifier::from_text(text).unwrap();
    let principal = candid::Principal::from_text(text).unwrap();
    assert_eq!(id.as_bytes().as_slice(), principal.as_slice());
    assert_eq!(id.as_bytes().len(), 10);
}

#[test]
fn upper_case_text_is_accepted() {
    let lower = AccountIdentifier::from_text("2chl6-4hpzw-vqaaa-aaaaa-c").unwrap();
    let upper = AccountIdentifier::from_text("2CHL6-4HPZW-VQAAA-AAAAA-C").unwrap();
    assert!(lower.same_as(&upper));
}

#[test]
fn text_that_spells_no_principal_is_invalid() {
    assert_eq!(AccountIdentifier::from_text(""), Err(Error::InvalidIdentifier));
    assert_eq!(AccountIdentifier::from_text("not a principal"), Err(Error::InvalidIdentifier));
    assert_eq!(AccountIdentifier::from_text("aaaaa-ab"), Err(Error::InvalidIdentifier));
    assert_eq!(
        AccountIdentifier::from_text("2chl64hpzwvqaaaaaaaac"),
        Err(Error::InvalidIdentifier)
    );
}

#[test]
fn bytes_up_to_the_maximum_are_identifiers() {
    assert_eq!(MAX_IDENTIFIER_BYTES, 29);
    let longest = AccountIdentifier::from_bytes(vec![7; 29]).unwrap();
    assert_eq!(longest.as_bytes(), &vec![7; 29]);
    let empty = AccountIdentifier::from_bytes(Vec::new()).unwrap();
    assert_eq!(empty.as_bytes().len(), 0);
}

#[test]
fn too_many_bytes_are_no_identifier() {
    assert_eq!(AccountIdentifier::from_bytes(vec![7; 30]), Err(Error::InvalidIdentifier));
    assert_eq!(AccountIdentifier::from_bytes(vec![0; 100]), Err(Error::InvalidIdentifier));
}

#[test]
fn same_as_compares_bytes() {
    let a = AccountIdentifier::from_bytes(vec![1, 2, 3]).unwrap();
    let b = AccountIdentifier::from_bytes(vec![1, 2, 3]).unwrap();
    let c = AccountIdentifier::from_bytes(vec![1, 2, 4]).unwrap();
    let d = AccountIdentifier::from_bytes(vec![1, 2]).unwrap();
    assert!(a.same_as(&b));
    assert!(a.same_as(&a));
    assert!(!a.same_as(&c));
    assert!(!a.same_as(&d));
    assert!(!d.same_as(&a));
}

#[test]
fn clone_keeps_the_bytes() {
    let a = AccountIdentifier::from_bytes(vec![5, 6]).unwrap();
    let b = a.clone();
    assert!(a.same_as(&b));
    assert_eq!(a, b);
}

#[test]
fn identifiers_are_ordered_as_their_bytes() {
    let mut ids = vec![
        AccountIdentifier::from_bytes(vec![2]).unwrap(),
        AccountIdentifier::from_bytes(vec![1, 9]).unwrap(),
        AccountIdentifier::from_bytes(vec![]).unwrap(),
        AccountIdentifier::from_bytes(vec![1]).unwrap(),
    ];
    ids.sort();
    let bytes: Vec<Vec<u8>> = ids.iter().map(|id| id.as_bytes().clone()).collect();
    assert_eq!(bytes, vec![vec![], vec![1], vec![1, 9], vec![2]]);
}

#[test]
fn byte_strings_are_compared_in_full() {
    assert!(same_bytes(&vec![], &vec![]));
    assert!(same_bytes(&vec![1, 2, 3], &vec![1, 2, 3]));
    assert!(!same_bytes(&vec![1, 2, 3], &vec![1, 2]));
    assert!(!same_bytes(&vec![1, 2], &vec![1, 2, 3]));
    assert!(!same_bytes(&vec![1, 2, 3], &vec![1, 2, 4]));
    assert!(!same_bytes(&vec![0, 2, 3], &vec![1, 2, 3]));
}
