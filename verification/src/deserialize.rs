use vstd::prelude::*;

use core::marker::PhantomData;

use crate::error::ParserError;

verus! {

/// A structured type that can be validated and materialized out of a byte
/// record. `spec_parse` is the mathematical reading of a record: `Some`
/// with the parsed value's view exactly on the byte sequences the type
/// accepts.
pub trait Deserializable: Sized + View {
    /// What a record parses to, if it is well-formed.
    spec fn spec_parse(bytes: Seq<u8>) -> Option<<Self as View>::V>;

    /// Materializes a value from a record. Succeeds exactly on records
    /// that `spec_parse` accepts, and returns exactly the value it reads.
    fn from_bytes(input: &[u8]) -> (r: Result<Self, ParserError>)
        ensures
            match r {
                Ok(v) => Self::spec_parse(input@) == Some(v@),
                Err(_) => Self::spec_parse(input@) is None,
            },
    ;

    /// Validates a record without materializing it.
    fn from_bytes_check(input: &[u8]) -> (r: Result<(), ParserError>)
        ensures
            r is Ok <==> Self::spec_parse(input@) is Some,
    {
        match Self::from_bytes(input) {
            Ok(_) => Ok(()),
            Err(e) => Err(e),
        }
    }
}

/// A view over a contiguous run of `num_elements` fixed-stride records of
/// `len` bytes each inside a byte store. It does not own or copy the
/// underlying bytes, and no parsing occurs at construction.
pub struct RawField<'a, T> {
    pub num_elements: u8,
    pub len: usize,
    pub raw: &'a [u8],
    pub marker: PhantomData<T>,
}

impl<'a, T> Clone for RawField<'a, T> {
    fn clone(&self) -> (r: Self)
        ensures
            r == *self,
    {
        RawField { num_elements: self.num_elements, len: self.len, raw: self.raw, marker: PhantomData }
    }
}

impl<'a, T> Copy for RawField<'a, T> {

}

impl<'a, T> RawField<'a, T> where T: Deserializable {
    /// The bytes of the record at index `i`.
    pub open spec fn spec_record(self, i: int) -> Seq<u8> {
        self.raw@.subrange(i * self.len, (i + 1) * self.len)
    }

    /// Whether the record at index `i` lies within the underlying bytes.
    pub open spec fn spec_record_in_bounds(self, i: int) -> bool {
        (i + 1) * self.len <= self.raw@.len()
    }

    /// A cheap, copyable descriptor: no parsing occurs here.
    pub fn new(num_elements: u8, len: usize, raw: &'a [u8]) -> (r: Self)
        ensures
            r.num_elements == num_elements,
            r.len == len,
            r.raw@ == raw@,
    {
        RawField { num_elements, len, raw, marker: PhantomData }
    }

    /// The stride: how many bytes one record occupies.
    pub fn len(&self) -> (r: usize)
        ensures
            r == self.len,
    {
        self.len
    }

    /// A fresh cursor over this run. A live cursor is not restartable;
    /// iterating again takes a fresh cursor from the same descriptor.
    pub fn iter(&self) -> (it: RawFieldIterator<'a, T>)
        ensures
            it.field == *self,
            it.index == 0,
            it.pos == 0,
            it.slot is None,
    {
        RawFieldIterator::new(self)
    }
}

/// Transient iteration state over a `RawField`: the single materialized
/// slot holds at most one fully parsed element at a time — the element at
/// `index - 1` — which bounds peak memory to one element regardless of how
/// many records the run declares. Advancing replaces the slot's value.
pub struct RawFieldIterator<'a, T: Deserializable> {
    pub field: RawField<'a, T>,
    pub index: u8,
    pub pos: usize,
    pub slot: Option<T>,
}

impl<'a, T: Deserializable> RawFieldIterator<'a, T> {
    /// Cursor invariant: the byte position is the index times the stride.
    pub open spec fn wf(self) -> bool {
        &&& self.pos == self.index * self.field.len
        &&& self.index <= self.field.num_elements
    }

    /// A fresh cursor at the start of the run, with an empty slot.
    pub fn new(field: &RawField<'a, T>) -> (it: Self)
        ensures
            it.field == *field,
            it.index == 0,
            it.pos == 0,
            it.slot is None,
            it.wf(),
    {
        RawFieldIterator { field: *field, index: 0, pos: 0, slot: None }
    }

    /// How many records are still to be visited.
    pub fn remaining(&self) -> (r: u8)
        requires
            self.wf(),
        ensures
            r == self.field.num_elements - self.index,
    {
        self.field.num_elements - self.index
    }

    /// The materialized element, if the last advance produced one. The
    /// reference is valid only until the next advance.
    pub fn current(&self) -> (r: Option<&T>)
        ensures
            match r {
                Some(v) => self.slot == Some(*v),
                None => self.slot is None,
            },
    {
        match &self.slot {
            Some(v) => Some(v),
            None => None,
        }
    }

    /// Advances the cursor by one record.
    ///
    /// Visiting a valid run to completion takes exactly `num_elements`
    /// advances that return `Ok(true)`, each materializing one element into
    /// the slot (releasing the previous one), after which every advance
    /// returns `Ok(false)` and changes nothing. A record that lies outside
    /// the underlying bytes or fails validation stops the iteration with an
    /// error — distinguishable from reaching the declared count — and
    /// empties the slot.
    pub fn advance(&mut self) -> (r: Result<bool, ParserError>)
        requires
            old(self).wf(),
        ensures
            final(self).wf(),
            final(self).field == old(self).field,
            match r {
                Ok(true) => {
                    &&& old(self).index < old(self).field.num_elements
                    &&& old(self).field.spec_record_in_bounds(old(self).index as int)
                    &&& T::spec_parse(old(self).field.spec_record(old(self).index as int)) is Some
                    &&& final(self).index == old(self).index + 1
                    &&& final(self).slot matches Some(v) && Some(v@) == T::spec_parse(
                        old(self).field.spec_record(old(self).index as int),
                    )
                },
                Ok(false) => {
                    &&& old(self).index == old(self).field.num_elements
                    &&& final(self).index == old(self).index
                    &&& final(self).slot == old(self).slot
                },
                Err(_) => {
                    &&& old(self).index < old(self).field.num_elements
                    &&& !old(self).field.spec_record_in_bounds(old(self).index as int)
                        || T::spec_parse(old(self).field.spec_record(old(self).index as int))
                        is None
                    &&& final(self).index == old(self).index
                    &&& final(self).slot is None
                },
            },
    {
        if self.index >= self.field.num_elements {
            return Ok(false);
        }
        if self.field.len > self.field.raw.len() || self.pos > self.field.raw.len()
            - self.field.len {
            self.slot = None;
            proof {
                vstd::arithmetic::mul::lemma_mul_is_distributive_add_other_way(
                    self.field.len as int,
                    self.index as int,
                    1,
                );
            }
            return Err(ParserError::UnexpectedBufferEnd);
        }
        let record = vstd::slice::slice_subrange(self.field.raw, self.pos, self.pos
            + self.field.len);
        proof {
            vstd::arithmetic::mul::lemma_mul_is_distributive_add_other_way(
                self.field.len as int,
                self.index as int,
                1,
            );
        }
        // release the previous element before materializing the next one,
        // so at most one element is ever live
        self.slot = None;
        match T::from_bytes(record) {
            Ok(v) => {
                self.slot = Some(v);
                self.index = self.index + 1;
                self.pos = self.pos + self.field.len;
                Ok(true)
            },
            Err(e) => {
                self.slot = None;
                Err(e)
            },
        }
    }
}

} // verus!
