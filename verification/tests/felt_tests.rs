use saya_core::felt::{copy_bytes, copy_felts, short_string_felt, Felt};

#[test]
fn zero_is_thirty_two_zero_bytes() {
    let z = Felt::zero();
    assert_eq!(z.be, vec![0u8; 32]);
}

#[test]
fn from_u64_is_big_endian_right_aligned() {
    let f = Felt::from_u64(0x0102030405060708);
    assert_eq!(f.be.len(), 32);
    assert_eq!(&f.be[..24], &[0u8; 24]);
    assert_eq!(&f.be[24..], &[1u8, 2, 3, 4, 5, 6, 7, 8]);
}

#[test]
fn from_u64_zero_and_max() {
    assert_eq!(Felt::from_u64(0).be, vec![0u8; 32]);
    let f = Felt::from_u64(u64::MAX);
    assert_eq!(&f.be[..24], &[0u8; 24]);
    assert_eq!(&f.be[24..], &[0xffu8; 8]);
}

#[test]
fn u64_roundtrip() {
    let f = Felt::from_u64(123_456_789_012_345);
    assert!(f.fits_u64());
    assert_eq!(f.as_u64(), 123_456_789_012_345);
}

#[test]
fn large_value_does_not_fit_u64() {
    let mut be = vec![0u8; 32];
    be[23] = 1;
    let f = Felt { be };
    assert!(!f.fits_u64());
}

#[test]
fn short_string_is_ascii_right_aligned() {
    let f = short_string_felt(b"stone6");
    let mut expected = vec![0u8; 26];
    expected.extend_from_slice(b"stone6");
    assert_eq!(f.be, expected);
}

#[test]
fn copies_are_exact() {
    let v = vec![1u8, 2, 3];
    assert_eq!(copy_bytes(&v), v);
    let fs = vec![Felt::from_u64(1), Felt::from_u64(2)];
    let cs = copy_felts(&fs);
    assert_eq!(cs.len(), 2);
    assert_eq!(cs[0].be, fs[0].be);
    assert_eq!(cs[1].be, fs[1].be);
}
