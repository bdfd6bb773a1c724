//! Units a scratch read loaded but the codec did not consume, kept as the
//! next unread window of a decode input.

use vstd::prelude::*;

verus! {

/// Scratch-owned unread units, read from the front.
pub struct ScratchWindow<T> {
    units: Vec<T>,
    position: usize,
}

impl<T> View for ScratchWindow<T> {
    type V = Seq<T>;

    /// The unread units, oldest first.
    closed spec fn view(&self) -> Seq<T> {
        self.units@.subrange(self.position as int, self.units@.len() as int)
    }
}

impl<T> ScratchWindow<T> {
    /// The read position never passes the stored units.
    #[verifier::type_invariant]
    closed spec fn wf(self) -> bool {
        self.position <= self.units@.len()
    }
}

impl<T: Copy> ScratchWindow<T> {
    /// Creates an empty window.
    pub fn new() -> (window: Self)
        ensures
            window@ == Seq::<T>::empty(),
    {
        ScratchWindow { units: Vec::new(), position: 0 }
    }

    /// Returns whether unread units remain.
    pub fn has_unread(&self) -> (result: bool)
        ensures
            result == (self@.len() > 0),
    {
        proof {
            use_type_invariant(self);
        }
        self.position < self.units.len()
    }

    /// Returns the number of unread units.
    pub fn unread_len(&self) -> (len: usize)
        ensures
            len == self@.len(),
    {
        proof {
            use_type_invariant(self);
        }
        self.units.len() - self.position
    }

    /// Returns the unread units.
    pub fn unread(&self) -> (units: &[T])
        ensures
            units@ == self@,
    {
        proof {
            use_type_invariant(self);
        }
        vstd::slice::slice_subrange(self.units.as_slice(), self.position, self.units.len())
    }

    /// Drops every unread unit.
    pub fn clear(&mut self)
        ensures
            final(self)@ == Seq::<T>::empty(),
    {
        *self = ScratchWindow { units: Vec::new(), position: 0 };
    }

    /// Consumes `count` unread units from the front, releasing the storage
    /// once none remain.
    pub fn consume(&mut self, count: usize)
        requires
            count <= old(self)@.len(),
        ensures
            final(self)@ == old(self)@.subrange(count as int, old(self)@.len() as int),
    {
        proof {
            use_type_invariant(&*self);
            assert(self@.len() == self.units@.len() - self.position);
        }
        let len = self.units.len();
        let position = self.position + count;
        if position == len {
            self.clear();
        } else {
            self.position = position;
        }
    }

    /// Puts `units[start..]` back in front of the unread units, so that a
    /// tail a read loaded but did not consume is read again first; nothing
    /// is put back when `start` is past the end.
    pub fn store_tail(&mut self, units: &[T], start: usize)
        ensures
            final(self)@ == (if start < units@.len() {
                units@.subrange(start as int, units@.len() as int)
            } else {
                Seq::<T>::empty()
            }) + old(self)@,
    {
        proof {
            use_type_invariant(&*self);
        }
        let mut joined: Vec<T> = Vec::new();
        let mut index = start;
        while index < units.len()
            invariant
                start <= index,
                start <= units@.len() ==> index <= units@.len(),
                start > units@.len() ==> index == start,
                index <= units@.len() ==> joined@ == units@.subrange(start as int, index as int),
                index > units@.len() ==> joined@ == Seq::<T>::empty(),
            decreases units@.len() - index,
        {
            let unit = units[index];
            joined.push(unit);
            index = index + 1;
        }
        let ghost tail = joined@;
        assert(tail == (if start < units@.len() {
            units@.subrange(start as int, units@.len() as int)
        } else {
            Seq::<T>::empty()
        }));
        let len = self.units.len();
        let mut kept = self.position;
        while kept < len
            invariant
                len == self.units@.len(),
                self.position <= kept <= len,
                joined@ == tail + self.units@.subrange(self.position as int, kept as int),
            decreases len - kept,
        {
            let unit = self.units[kept];
            joined.push(unit);
            kept = kept + 1;
        }
        let ghost expected = tail + self@;
        assert(joined@ =~= expected);
        *self = ScratchWindow { units: joined, position: 0 };
        assert(self@ =~= expected);
    }

    /// Appends `units` after the unread units.
    pub fn append(&mut self, units: &[T])
        ensures
            final(self)@ == old(self)@ + units@,
    {
        proof {
            use_type_invariant(&*self);
        }
        let len = self.units.len();
        let mut joined: Vec<T> = Vec::new();
        let mut index = self.position;
        while index < len
            invariant
                len == self.units@.len(),
                self.position <= index <= len,
                joined@ == self.units@.subrange(self.position as int, index as int),
            decreases len - index,
        {
            let unit = self.units[index];
            joined.push(unit);
            index = index + 1;
        }
        let mut added: usize = 0;
        while added < units.len()
            invariant
                added <= units@.len(),
                joined@ == self@ + units@.subrange(0, added as int),
            decreases units@.len() - added,
        {
            let unit = units[added];
            joined.push(unit);
            added = added + 1;
        }
        assert(units@.subrange(0, units@.len() as int) =~= units@);
        let ghost expected = self@ + units@;
        *self = ScratchWindow { units: joined, position: 0 };
        assert(self@ =~= expected);
    }

    /// Copies at most `count` unread units into `output` from
    /// `output_index` and consumes them; returns how many were copied.
    pub fn read_into(&mut self, output: &mut [T], output_index: usize, count: usize) -> (read:
        usize)
        requires
            output_index + count <= old(output)@.len(),
        ensures
            read == (if count < old(self)@.len() {
                count as int
            } else {
                old(self)@.len() as int
            }),
            final(self)@ == old(self)@.subrange(read as int, old(self)@.len() as int),
            final(output)@ == old(output)@.subrange(0, output_index as int) + old(self)@.subrange(
                0,
                read as int,
            ) + old(output)@.subrange(output_index + read, old(output)@.len() as int),
    {
        proof {
            use_type_invariant(&*self);
        }
        let available = self.units.len() - self.position;
        let read = if count < available {
            count
        } else {
            available
        };
        let ghost unread = self@;
        assert(unread.len() == self.units@.len() - self.position);
        let len = self.units.len();
        let out_len = output.len();
        let mut copied: usize = 0;
        while copied < read
            invariant
                copied <= read,
                read <= unread.len(),
                len == self.units@.len(),
                out_len == output@.len(),
                output_index + count <= output@.len(),
                read <= count,
                self@ == unread,
                self.position + unread.len() == self.units@.len(),
                self.position <= self.units@.len(),
                output@.len() == old(output)@.len(),
                forall|k: int|
                    0 <= k < output@.len() ==> #[trigger] output@[k] == if output_index <= k
                        < output_index + copied {
                        unread[k - output_index]
                    } else {
                        old(output)@[k]
                    },
            decreases read - copied,
        {
            let unit = self.units[self.position + copied];
            output[output_index + copied] = unit;
            copied = copied + 1;
        }
        assert(output@ =~= old(output)@.subrange(0, output_index as int) + unread.subrange(
            0,
            read as int,
        ) + old(output)@.subrange(output_index + read, old(output)@.len() as int));
        self.consume(read);
        read
    }
}

/// A read loads the first `loaded` units of the visible stream and leaves
/// the rest unread; putting the loaded units from `consumed` on back in front
/// with `store_tail` leaves exactly the stream after the first `consumed`
/// units visible: no unit is lost or read twice.
pub proof fn lemma_stored_tail_resumes_stream<T>(stream: Seq<T>, loaded: int, consumed: int)
    requires
        0 <= consumed <= loaded <= stream.len(),
    ensures
        stream.subrange(0, loaded).subrange(consumed, loaded) + stream.subrange(
            loaded,
            stream.len() as int,
        ) == stream.subrange(consumed, stream.len() as int),
{
    assert(stream.subrange(0, loaded).subrange(consumed, loaded) + stream.subrange(
        loaded,
        stream.len() as int,
    ) =~= stream.subrange(consumed, stream.len() as int));
}

/// Adjusts a relative seek of the wrapped input for `scratch_unread` units
/// that were read from it but are still unread here, counting at most
/// `i64::MAX` of them; `None` when the adjusted offset underflows.
pub fn seek_offset_after_scratch(offset: i64, scratch_unread: usize) -> (adjusted: Option<i64>)
    ensures
        adjusted == (if offset - (if scratch_unread > i64::MAX {
            i64::MAX as int
        } else {
            scratch_unread as int
        }) >= i64::MIN {
            Some(
                (offset - (if scratch_unread > i64::MAX {
                    i64::MAX as int
                } else {
                    scratch_unread as int
                })) as i64,
            )
        } else {
            None
        }),
{
    let scratch: i64 = if (scratch_unread as u64) > (i64::MAX as u64) {
        i64::MAX
    } else {
        scratch_unread as i64
    };
    offset.checked_sub(scratch)
}

} // verus!
