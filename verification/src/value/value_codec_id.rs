//! Validated, process-independent value-codec identifiers.

use vstd::prelude::*;

use super::value_codec_id_error::ValueCodecIdError;
use vstd::string::StringSliceAdditionalSpecFns;

verus! {

/// The byte `.` that separates ID segments.
pub open spec fn is_separator(byte: u8) -> bool {
    byte == 46
}

/// An ASCII letter.
pub open spec fn is_ascii_letter(byte: u8) -> bool {
    (65 <= byte && byte <= 90) || (97 <= byte && byte <= 122)
}

/// A byte allowed after the first byte of a segment: an ASCII letter or
/// digit, or `_`.
pub open spec fn is_segment_byte(byte: u8) -> bool {
    is_ascii_letter(byte) || (48 <= byte && byte <= 57) || byte == 95
}

/// `bytes[start..end]` is a valid segment: non-empty, starting with an ASCII
/// letter, followed by ASCII letters, digits or `_`.
pub open spec fn segment_ok(bytes: Seq<u8>, start: int, end: int) -> bool {
    &&& start < end
    &&& is_ascii_letter(bytes[start])
    &&& forall|k: int| start < k < end ==> is_segment_byte(#[trigger] bytes[k])
}

/// Scans `bytes` from `index`, where the current segment began at `start`,
/// and answers the first protocol violation met from left to right.
pub open spec fn scan_id(bytes: Seq<u8>, start: int, index: int) -> Result<(), ValueCodecIdError>
    decreases bytes.len() - index,
{
    if index >= bytes.len() {
        if segment_ok(bytes, start, bytes.len() as int) {
            Ok(())
        } else {
            Err(ValueCodecIdError::InvalidSegment)
        }
    } else if is_separator(bytes[index]) {
        if start == index || index + 1 == bytes.len() {
            Err(ValueCodecIdError::EmptySegment)
        } else if !segment_ok(bytes, start, index) {
            Err(ValueCodecIdError::InvalidSegment)
        } else {
            scan_id(bytes, index + 1, index + 1)
        }
    } else {
        scan_id(bytes, start, index + 1)
    }
}

/// What validating the ID bytes answers.
pub open spec fn spec_validate_id(bytes: Seq<u8>) -> Result<(), ValueCodecIdError> {
    if bytes.len() == 0 {
        Err(ValueCodecIdError::Empty)
    } else {
        scan_id(bytes, 0, 0)
    }
}

/// The rule one byte position of a well-formed ID obeys: a separator is
/// never last, a segment starts with an ASCII letter, and every other byte is
/// a letter, digit or `_`.
pub open spec fn byte_position_ok(bytes: Seq<u8>, i: int) -> bool {
    &&& is_separator(bytes[i]) ==> i + 1 < bytes.len()
    &&& (i == 0 || is_separator(bytes[i - 1])) ==> is_ascii_letter(bytes[i])
    &&& is_separator(bytes[i]) || is_segment_byte(bytes[i])
}

/// A well-formed ID: non-empty point-separated segments, each an ASCII
/// letter followed by ASCII letters, digits or `_`.
pub open spec fn well_formed_id(bytes: Seq<u8>) -> bool {
    &&& bytes.len() > 0
    &&& forall|i: int| 0 <= i < bytes.len() ==> #[trigger] byte_position_ok(bytes, i)
}

proof fn lemma_scan_ok(bytes: Seq<u8>, start: int, index: int)
    requires
        0 <= start <= index <= bytes.len(),
        start < bytes.len(),
        start == 0 || is_separator(bytes[start - 1]),
        forall|k: int| start <= k < index ==> !is_separator(#[trigger] bytes[k]),
    ensures
        scan_id(bytes, start, index) is Ok <==> forall|i: int|
            start <= i < bytes.len() ==> #[trigger] byte_position_ok(bytes, i),
    decreases bytes.len() - index,
{
    if index >= bytes.len() {
        if segment_ok(bytes, start, bytes.len() as int) {
            assert forall|i: int| start <= i < bytes.len() implies #[trigger] byte_position_ok(
                bytes,
                i,
            ) by {
                if i > start {
                    assert(!is_separator(bytes[i - 1]));
                }
            }
        } else {
            if !is_ascii_letter(bytes[start]) {
                assert(!byte_position_ok(bytes, start));
            } else {
                let k = choose|k: int| start < k < bytes.len() && !is_segment_byte(bytes[k]);
                assert(!byte_position_ok(bytes, k));
            }
        }
    } else if is_separator(bytes[index]) {
        if start == index {
            assert(!byte_position_ok(bytes, start));
        } else if index + 1 == bytes.len() {
            assert(!byte_position_ok(bytes, index));
        } else if !segment_ok(bytes, start, index) {
            if !is_ascii_letter(bytes[start]) {
                assert(!byte_position_ok(bytes, start));
            } else {
                let k = choose|k: int| start < k < index && !is_segment_byte(bytes[k]);
                assert(!byte_position_ok(bytes, k));
            }
        } else {
            lemma_scan_ok(bytes, index + 1, index + 1);
            if scan_id(bytes, index + 1, index + 1) is Ok {
                assert forall|i: int| start <= i < bytes.len() implies #[trigger] byte_position_ok(
                    bytes,
                    i,
                ) by {
                    if i > start && i <= index {
                        assert(!is_separator(bytes[i - 1]));
                    }
                }
            } else {
                let k = choose|k: int| index + 1 <= k < bytes.len() && !byte_position_ok(bytes, k);
                assert(!byte_position_ok(bytes, k));
            }
        }
    } else {
        lemma_scan_ok(bytes, start, index + 1);
    }
}

/// An ID passes validation exactly when it is well formed.
pub proof fn lemma_validate_accepts_exactly_well_formed(bytes: Seq<u8>)
    ensures
        spec_validate_id(bytes) is Ok <==> well_formed_id(bytes),
{
    if bytes.len() > 0 {
        lemma_scan_ok(bytes, 0, 0);
    }
}

/// Tests for an ASCII letter.
fn ascii_letter(byte: u8) -> (result: bool)
    ensures
        result == is_ascii_letter(byte),
{
    (65 <= byte && byte <= 90) || (97 <= byte && byte <= 122)
}

/// Tests for an ASCII letter, digit or `_`.
fn segment_byte(byte: u8) -> (result: bool)
    ensures
        result == is_segment_byte(byte),
{
    ascii_letter(byte) || (48 <= byte && byte <= 57) || byte == 95
}

/// Validates one segment `bytes[start..end]`.
fn validate_segment(bytes: &[u8], start: usize, end: usize) -> (result: Result<
    (),
    ValueCodecIdError,
>)
    requires
        start <= end <= bytes@.len(),
    ensures
        result == (if segment_ok(bytes@, start as int, end as int) {
            Ok::<(), ValueCodecIdError>(())
        } else {
            Err(ValueCodecIdError::InvalidSegment)
        }),
{
    if start == end {
        return Err(ValueCodecIdError::InvalidSegment);
    }
    let first = bytes[start];
    if !ascii_letter(first) {
        return Err(ValueCodecIdError::InvalidSegment);
    }
    let mut index = start + 1;
    while index < end
        invariant
            start < index <= end <= bytes@.len(),
            is_ascii_letter(bytes@[start as int]),
            forall|k: int| start < k < index ==> is_segment_byte(#[trigger] bytes@[k]),
        decreases end - index,
    {
        let byte = bytes[index];
        if !segment_byte(byte) {
            return Err(ValueCodecIdError::InvalidSegment);
        }
        index = index + 1;
    }
    Ok(())
}

/// Validates one point-separated ASCII identifier.
fn validate(value: &str) -> (result: Result<(), ValueCodecIdError>)
    ensures
        result == spec_validate_id(value.spec_bytes()),
{
    let bytes = value.as_bytes();
    if bytes.len() == 0 {
        return Err(ValueCodecIdError::Empty);
    }
    let mut start: usize = 0;
    let mut index: usize = 0;
    while index < bytes.len()
        invariant
            bytes@ == value.spec_bytes(),
            bytes@.len() > 0,
            start <= index <= bytes@.len(),
            scan_id(bytes@, 0, 0) == scan_id(bytes@, start as int, index as int),
        decreases bytes@.len() - index,
    {
        if bytes[index] == 46 {
            if start == index || index + 1 == bytes.len() {
                return Err(ValueCodecIdError::EmptySegment);
            }
            match validate_segment(bytes, start, index) {
                Ok(()) => {},
                Err(error) => {
                    return Err(error);
                },
            }
            start = index + 1;
        }
        index = index + 1;
    }
    validate_segment(bytes, start, bytes.len())
}

/// A validated, process-independent value-codec identifier.
#[derive(Clone, Copy, Debug, PartialEq, Eq, Hash, PartialOrd, Ord)]
pub struct ValueCodecId(&'static str);

impl ValueCodecId {
    /// The complete stable ID.
    pub closed spec fn spec_str(self) -> &'static str {
        self.0
    }

    /// The bytes of the complete stable ID.
    pub open spec fn spec_id_bytes(self) -> Seq<u8> {
        self.spec_str().spec_bytes()
    }

    /// Every constructed ID is well formed.
    pub open spec fn wf(self) -> bool {
        spec_validate_id(self.spec_id_bytes()) is Ok
    }

    /// Creates an ID from a static string that follows the point-separated
    /// ASCII protocol.
    pub fn new(value: &'static str) -> (id: Self)
        requires
            spec_validate_id(value.spec_bytes()) is Ok,
        ensures
            id.spec_str() == value,
            id.wf(),
    {
        ValueCodecId(value)
    }

    /// Validates and creates an ID, reporting the first protocol violation
    /// met from left to right.
    pub fn try_new(value: &'static str) -> (result: Result<Self, ValueCodecIdError>)
        ensures
            match spec_validate_id(value.spec_bytes()) {
                Ok(()) => result matches Ok(id) && id.spec_str() == value && id.wf(),
                Err(error) => result == Err::<Self, ValueCodecIdError>(error),
            },
    {
        match validate(value) {
            Ok(()) => Ok(ValueCodecId(value)),
            Err(error) => Err(error),
        }
    }

    /// Returns the complete stable ID.
    pub fn as_str(self) -> (value: &'static str)
        ensures
            value == self.spec_str(),
    {
        self.0
    }
}

/// `a` and `b` are the same string.
pub open spec fn same_str(a: &str, b: &str) -> bool {
    a == b
}

impl core::borrow::Borrow<str> for ValueCodecId {
    /// Borrows the complete stable ID.
    fn borrow(&self) -> (value: &str)
        ensures
            same_str(value, self.spec_str()),
    {
        self.0
    }
}

} // verus!
