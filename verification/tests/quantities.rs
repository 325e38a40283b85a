use ic_carnage_backend::quantity::Quantity;

#[test]
fn small_numbers_go_round() {
    assert_eq!(Quantity::from_u64(0).to_u64(), Some(0));
    assert_eq!(Quantity::from_u64(7).to_u64(), Some(7));
    assert_eq!(Quantity::from_u64(256).to_u64(), Some(256));
    assert_eq!(Quantity::from_u64(u64::MAX).to_u64(), Some(u64::MAX));
}

#[test]
fn bytes_are_big_endian() {
    assert_eq!(Quantity::from_u64(0x0102).as_be_bytes(), &vec![1, 2]);
    assert_eq!(Quantity::from_u64(u64::MAX).as_be_bytes(), &vec![0xff; 8]);
    assert_eq!(Quantity::from_be_bytes(vec![1, 0]).to_u64(), Some(256));
    assert_eq!(Quantity::from_be_bytes(vec![4, 101]).to_u64(), Some(1125));
}

#[test]
fn zero_has_no_bytes() {
    assert_eq!(Quantity::from_u64(0).as_be_bytes(), &Vec::<u8>::new());
    assert_eq!(Quantity::from_be_bytes(vec![0]).as_be_bytes(), &Vec::<u8>::new());
    assert_eq!(Quantity::from_be_bytes(Vec::new()).to_u64(), Some(0));
    assert_eq!(Quantity::from_be_bytes(vec![0, 0, 0]).to_u64(), Some(0));
}

#[test]
fn leading_zeros_are_dropped() {
    let padded = Quantity::from_be_bytes(vec![0, 0, 1, 0]);
    assert_eq!(padded.as_be_bytes(), &vec![1, 0]);
    assert_eq!(padded, Quantity::from_u64(256));
    assert_eq!(Quantity::from_be_bytes(vec![0, 0, 0, 0, 0, 0, 0, 0, 0, 9]).to_u64(), Some(9));
}

#[test]
fn numbers_beyond_64_bits_do_not_narrow() {
    let two_to_64 = Quantity::from_be_bytes(vec![1, 0, 0, 0, 0, 0, 0, 0, 0]);
    assert_eq!(two_to_64.to_u64(), None);
    let just_below = Quantity::from_be_bytes(vec![0xff; 8]);
    assert_eq!(just_below.to_u64(), Some(u64::MAX));
    let huge = Quantity::from_be_bytes(vec![0xab; 40]);
    assert_eq!(huge.to_u64(), None);
}

#[test]
fn bytes_agree_with_candid_nat() {
    for value in [1u64, 255, 256, 65_535, 400_000_000, u64::MAX - 1] {
        let nat = candid::Nat::from(value);
        assert_eq!(Quantity::from_u64(value).as_be_bytes(), &nat.0.to_bytes_be());
    }
}

#[test]
fn clone_keeps_the_number() {
    let q = Quantity::from_u64(123_456_789);
    assert_eq!(q.clone(), q);
    assert_eq!(q.clone().to_u64(), Some(123_456_789));
}

#[test]
fn same_as_compares_the_numbers() {
    let a = Quantity::from_u64(300);
    let b = Quantity::from_be_bytes(vec![0, 1, 44]);
    let c = Quantity::from_u64(301);
    let d = Quantity::from_be_bytes(vec![1, 44, 0]);
    assert!(a.same_as(&b));
    assert!(a.same_as(&a));
    assert!(!a.same_as(&c));
    assert!(!a.same_as(&d));
    assert!(!d.same_as(&a));
    assert!(Quantity::from_u64(0).same_as(&Quantity::from_be_bytes(vec![0, 0])));
    assert!(!Quantity::from_u64(0).same_as(&Quantity::from_u64(1)));
}
