use qubit_codec::util::bytes::compare_bytes;
use qubit_codec::util::bytes::ByteComparison;
use qubit_codec::util::copy_nonoverlapping_unchecked;
use qubit_codec::util::has_units;
use qubit_codec::util::mut_unchecked;
use qubit_codec::util::read_unchecked;
use qubit_codec::util::ref_unchecked;
use qubit_codec::util::required_index;
use qubit_codec::util::write_unchecked;

#[test]
fn has_units_checks_without_overflow() {
    assert!(has_units(10, 3, 7));
    assert!(!has_units(10, 3, 8));
    assert!(!has_units(10, usize::MAX, 1));
    assert!(has_units(0, 0, 0));
}

#[test]
fn required_index_saturates() {
    assert_eq!(7, required_index(3, 4));
    assert_eq!(usize::MAX, required_index(usize::MAX, 1));
}

#[test]
fn byte_strings_compare_lexicographically() {
    assert_eq!(ByteComparison::Less, compare_bytes(b"ab", b"abc"));
    assert_eq!(ByteComparison::Greater, compare_bytes(b"b", b"abc"));
    assert_eq!(ByteComparison::Equal, compare_bytes(b"abc", b"abc"));
    assert_eq!(ByteComparison::Less, compare_bytes(b"", b"a"));
    assert_eq!(ByteComparison::Less, compare_bytes(b"Z", b"a"));
}

#[test]
fn slice_helpers_read_write_and_copy() {
    let mut data = [1u8, 2, 3, 4];
    assert_eq!(3, read_unchecked(&data, 2));
    assert_eq!(&4, ref_unchecked(&data, 3));
    write_unchecked(&mut data, 0, 9);
    *mut_unchecked(&mut data, 1) = 8;
    assert_eq!([9, 8, 3, 4], data);
    let mut target = [0u8; 5];
    copy_nonoverlapping_unchecked(&data, 1, &mut target, 2, 3);
    assert_eq!([0, 0, 8, 3, 4], target);
}
