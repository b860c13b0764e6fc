use vstd::prelude::*;

use crate::error::AppSW;

verus! {

/// Capacity of the volatile session buffer, in bytes.
pub const BUFFER_SIZE: usize = 3000;

/// The volatile session buffer: a fixed-capacity byte array plus a cursor
/// `pos` marking the end of valid data. Reads must target offsets below
/// `pos`; writes must stay below the capacity. The buffer is appended to by
/// the command accumulator and reset once a round handler has consumed it.
pub struct Buffer {
    /// Backing byte array; always exactly `BUFFER_SIZE` long when well-formed.
    pub data: Vec<u8>,
    /// Cursor: exclusive end of valid data.
    pub pos: usize,
}

impl Buffer {
    /// Structural invariant: the backing array has exactly the fixed
    /// capacity and the cursor never passes it.
    pub open spec fn wf(&self) -> bool {
        &&& self.data@.len() == BUFFER_SIZE
        &&& self.pos <= BUFFER_SIZE
    }

    /// The whole backing array, valid and spare region alike.
    pub open spec fn raw(&self) -> Seq<u8> {
        self.data@
    }

    /// The valid data accumulated so far: everything below the cursor.
    pub open spec fn bytes(&self) -> Seq<u8> {
        self.data@.take(self.pos as int)
    }

    /// Current cursor (exclusive end of valid data).
    pub fn pos(&self) -> (p: usize)
        ensures
            p == self.pos,
    {
        self.pos
    }

    /// A fresh, empty session buffer.
    pub fn new() -> (b: Buffer)
        ensures
            b.wf(),
            b.pos == 0,
            b.raw() == Seq::<u8>::new(BUFFER_SIZE as nat, |i: int| 0u8),
    {
        let data: Vec<u8> = vec![0u8; BUFFER_SIZE];
        proof {
            assert(data@ =~= Seq::<u8>::new(BUFFER_SIZE as nat, |i: int| 0u8));
        }
        Buffer { data, pos: 0 }
    }

    /// Moves the cursor back to the start, reclaiming the whole capacity
    /// for the next accumulation. The backing bytes are left in place.
    pub fn reset(&mut self)
        requires
            old(self).wf(),
        ensures
            final(self).wf(),
            final(self).pos == 0,
            final(self).raw() == old(self).raw(),
    {
        self.pos = 0;
    }

    /// Reads the byte at `index`. Fails exactly when `index` is not below
    /// the cursor, i.e. does not point at valid data.
    pub fn get_element(&self, index: usize) -> (r: Result<u8, AppSW>)
        requires
            self.wf(),
        ensures
            match r {
                Ok(b) => index < self.pos && b == self.raw()[index as int],
                Err(e) => index >= self.pos && e == AppSW::BufferOutOfBounds,
            },
    {
        if index >= self.pos {
            return Err(AppSW::BufferOutOfBounds);
        }
        Ok(*vstd::slice::slice_index_get(self.data.as_slice(), index))
    }

    /// Writes one byte at `index`. Fails exactly when `index` reaches the
    /// capacity. The cursor does not move.
    pub fn set_element(&mut self, index: usize, value: u8) -> (r: Result<(), AppSW>)
        requires
            old(self).wf(),
        ensures
            final(self).wf(),
            final(self).pos == old(self).pos,
            match r {
                Ok(()) => index < BUFFER_SIZE && final(self).raw() == old(self).raw().update(
                    index as int,
                    value,
                ),
                Err(e) => index >= BUFFER_SIZE && e == AppSW::BufferOutOfBounds
                    && final(self).raw() == old(self).raw(),
            },
    {
        if index >= BUFFER_SIZE {
            return Err(AppSW::BufferOutOfBounds);
        }
        self.data.set(index, value);
        Ok(())
    }

    /// Writes `value` starting at `index`. Fails exactly when some written
    /// index would reach the capacity, in which case nothing is written.
    /// The cursor does not move.
    pub fn set_slice(&mut self, index: usize, value: &[u8]) -> (r: Result<(), AppSW>)
        requires
            old(self).wf(),
        ensures
            final(self).wf(),
            final(self).pos == old(self).pos,
            match r {
                Ok(()) => {
                    &&& index + value@.len() <= BUFFER_SIZE
                    &&& final(self).raw() == old(self).raw().take(index as int).add(value@).add(
                        old(self).raw().skip(index + value@.len()),
                    )
                },
                Err(e) => {
                    &&& index + value@.len() > BUFFER_SIZE
                    &&& e == AppSW::BufferOutOfBounds
                    &&& final(self).raw() == old(self).raw()
                },
            },
    {
        if value.len() > BUFFER_SIZE || index > BUFFER_SIZE - value.len() {
            return Err(AppSW::BufferOutOfBounds);
        }
        let mut i: usize = 0;
        while i < value.len()
            invariant
                self.wf(),
                self.pos == old(self).pos,
                i <= value@.len(),
                index + value@.len() <= BUFFER_SIZE,
                self.raw().len() == old(self).raw().len(),
                forall|j: int| 0 <= j < index ==> self.raw()[j] == old(self).raw()[j],
                forall|j: int|
                    index <= j < index + i ==> self.raw()[j] == value@[j - index],
                forall|j: int|
                    index + value@.len() <= j < BUFFER_SIZE ==> self.raw()[j] == old(
                        self,
                    ).raw()[j],
                forall|j: int|
                    index + i <= j < index + value@.len() ==> self.raw()[j] == old(
                        self,
                    ).raw()[j],
            decreases value@.len() - i,
        {
            let b = *vstd::slice::slice_index_get(value, i);
            self.data.set(index + i, b);
            i = i + 1;
        }
        proof {
            assert(self.raw() =~= old(self).raw().take(index as int).add(value@).add(
                old(self).raw().skip(index + value@.len()),
            ));
        }
        Ok(())
    }

    /// Borrows the valid bytes in `[start, end)`. Fails exactly when `end`
    /// passes the cursor: `end == pos` is allowed, `end > pos` is not.
    pub fn get_slice(&self, start: usize, end: usize) -> (r: Result<&[u8], AppSW>)
        requires
            self.wf(),
            start <= end,
        ensures
            match r {
                Ok(s) => end <= self.pos && s@ == self.raw().subrange(
                    start as int,
                    end as int,
                ),
                Err(e) => end > self.pos && e == AppSW::BufferOutOfBounds,
            },
    {
        if end > self.pos {
            return Err(AppSW::BufferOutOfBounds);
        }
        Ok(vstd::slice::slice_subrange(self.data.as_slice(), start, end))
    }

    /// Appends `data` at the cursor and advances the cursor past it. Fails
    /// exactly when the data would not fit below the capacity, in which
    /// case neither the bytes nor the cursor change.
    pub fn append(&mut self, data: &[u8]) -> (r: Result<(), AppSW>)
        requires
            old(self).wf(),
        ensures
            final(self).wf(),
            match r {
                Ok(()) => {
                    &&& old(self).pos + data@.len() <= BUFFER_SIZE
                    &&& final(self).pos == old(self).pos + data@.len()
                    &&& final(self).bytes() == old(self).bytes().add(data@)
                },
                Err(e) => {
                    &&& old(self).pos + data@.len() > BUFFER_SIZE
                    &&& e == AppSW::BufferOutOfBounds
                    &&& final(self).raw() == old(self).raw()
                    &&& final(self).pos == old(self).pos
                },
            },
    {
        let start = self.pos;
        self.set_slice(start, data)?;
        self.pos = start + data.len();
        proof {
            assert(self.bytes() =~= old(self).bytes().add(data@));
        }
        Ok(())
    }

    /// Reads a big-endian `u16` at `start`. Fails exactly when the second
    /// byte is not below the cursor.
    pub fn get_u16(&self, start: usize) -> (r: Result<usize, AppSW>)
        requires
            self.wf(),
        ensures
            match r {
                Ok(v) => start + 1 < self.pos && v == self.raw()[start as int] * 256 + self.raw()[
                    start + 1
                ],
                Err(e) => start + 1 >= self.pos && e == AppSW::BufferOutOfBounds,
            },
    {
        if start >= self.pos || start + 1 >= self.pos {
            return Err(AppSW::BufferOutOfBounds);
        }
        let hi = *vstd::slice::slice_index_get(self.data.as_slice(), start);
        let lo = *vstd::slice::slice_index_get(self.data.as_slice(), start + 1);
        Ok((hi as usize) * 256 + (lo as usize))
    }
}

} // verus!
