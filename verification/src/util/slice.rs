//! Checked index arithmetic for slice ranges.

use vstd::prelude::*;

verus! {

/// Whether `index + required_units` fits within a slice of length `len`,
/// computed without overflow.
pub open spec fn spec_has_units(len: usize, index: usize, required_units: usize) -> bool {
    index + required_units <= len
}

/// Returns whether a slice of length `len` has at least `required_units`
/// units from `index`.
///
/// Returns `true` exactly when `index + required_units <= len`; an addition
/// that would overflow `usize` answers `false`.
pub fn has_units(len: usize, index: usize, required_units: usize) -> (result: bool)
    ensures
        result == spec_has_units(len, index, required_units),
{
    match index.checked_add(required_units) {
        Some(end) => len >= end,
        None => false,
    }
}

/// Returns `index + required_units`, saturating overflow to `usize::MAX`.
pub fn required_index(index: usize, required_units: usize) -> (result: usize)
    ensures
        result == (if index + required_units <= usize::MAX {
            (index + required_units) as usize
        } else {
            usize::MAX
        }),
{
    match index.checked_add(required_units) {
        Some(required) => required,
        None => usize::MAX,
    }
}

/// Reads `input[index]`; the caller proves the index in bounds.
pub fn read_unchecked<T: Copy>(input: &[T], index: usize) -> (value: T)
    requires
        index < input@.len(),
    ensures
        value == input@[index as int],
{
    input[index]
}

/// Writes `value` at `output[index]`; the caller proves the index in bounds.
pub fn write_unchecked<T: Copy>(output: &mut [T], index: usize, value: T)
    requires
        index < old(output)@.len(),
    ensures
        final(output)@ == old(output)@.update(index as int, value),
{
    output[index] = value;
}

/// Borrows `input[index]`; the caller proves the index in bounds.
pub fn ref_unchecked<T>(input: &[T], index: usize) -> (value: &T)
    requires
        index < input@.len(),
    ensures
        *value == input@[index as int],
{
    &input[index]
}

/// Mutably borrows `output[index]`; the caller proves the index in bounds.
pub fn mut_unchecked<T>(output: &mut [T], index: usize) -> (value: &mut T)
    requires
        index < old(output)@.len(),
    ensures
        *value == old(output)@[index as int],
        final(output)@ == old(output)@.update(index as int, *final(value)),
{
    &mut output[index]
}

/// Copies `source[source_index..source_index + count]` into
/// `destination[destination_index..destination_index + count]`; the caller
/// proves both ranges in bounds.
pub fn copy_nonoverlapping_unchecked<T: Copy>(
    source: &[T],
    source_index: usize,
    destination: &mut [T],
    destination_index: usize,
    count: usize,
)
    requires
        source_index + count <= source@.len(),
        destination_index + count <= old(destination)@.len(),
    ensures
        final(destination)@.len() == old(destination)@.len(),
        forall|k: int|
            0 <= k < final(destination)@.len() ==> #[trigger] final(destination)@[k] == if destination_index
                <= k < destination_index + count {
                source@[source_index + k - destination_index]
            } else {
                old(destination)@[k]
            },
{
    let source_len = source.len();
    let destination_len = destination.len();
    let mut copied: usize = 0;
    while copied < count
        invariant
            copied <= count,
            source_len == source@.len(),
            destination_len == destination@.len(),
            source_index + count <= source@.len(),
            destination_index + count <= destination@.len(),
            destination@.len() == old(destination)@.len(),
            forall|k: int|
                0 <= k < destination@.len() ==> #[trigger] destination@[k] == if destination_index
                    <= k < destination_index + copied {
                    source@[source_index + k - destination_index]
                } else {
                    old(destination)@[k]
                },
        decreases count - copied,
    {
        destination[destination_index + copied] = source[source_index + copied];
        copied = copied + 1;
    }
}

/// Returns whether `count` items from `start` fit in a slice of `len`
/// items, that is whether `start + count <= len` without overflow.
pub(crate) fn range_fits(len: usize, start: usize, count: usize) -> (result: bool)
    ensures
        result == (start + count <= len),
{
    match checked_range_end(len, start, count) {
        Some(_) => true,
        None => false,
    }
}

/// Returns the exclusive end `start + count` of a range in a slice of `len`
/// items, or `None` when the addition overflows or the end passes `len`.
pub(crate) fn checked_range_end(len: usize, start: usize, count: usize) -> (end: Option<usize>)
    ensures
        end == (if start + count <= len {
            Some((start + count) as usize)
        } else {
            None::<usize>
        }),
{
    match start.checked_add(count) {
        Some(end) => if end <= len {
            Some(end)
        } else {
            None
        },
        None => None,
    }
}

} // verus!
