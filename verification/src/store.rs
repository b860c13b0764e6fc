use vstd::prelude::*;

use crate::error::AppSW;

verus! {

/// Capacity of the durable key-material store, in bytes.
pub const DKG_KEYS_MAX_SIZE: usize = 3000;

/// Directory slot holding the offset of the identities region.
pub const IDENTITIES_POS: usize = 0;

/// Directory slot holding the offset of the min-signers record.
pub const MIN_SIGNERS_POS: usize = 2;

/// Directory slot holding the offset of the key-package record.
pub const KEY_PACKAGE_POS: usize = 4;

/// Directory slot holding the offset of the group-secret-key record.
pub const GROUP_KEY_PACKAGE_POS: usize = 6;

/// Directory slot holding the offset of the public-key-package record.
pub const FROST_PUBLIC_PACKAGE_POS: usize = 8;

/// First byte after the directory: artifact records start here.
pub const DATA_STARTING_POS: usize = 10;

/// Length of a group secret key record, in bytes.
pub const GROUP_SECRET_KEY_LEN: usize = 32;

/// `base` with `v` written over it starting at `index` (pointwise splice).
pub open spec fn spliced(base: Seq<u8>, index: int, v: Seq<u8>) -> Seq<u8> {
    Seq::new(
        base.len(),
        |j: int|
            if index <= j < index + v.len() {
                v[j - index]
            } else {
                base[j]
            },
    )
}

/// The two big-endian bytes of a 16-bit value.
pub open spec fn u16_be(v: u16) -> Seq<u8> {
    seq![(v >> 8) as u8, (v & 0xff) as u8]
}

/// The 16-bit big-endian value read at offset `i`.
pub open spec fn spec_u16_at(d: Seq<u8>, i: int) -> int {
    d[i] * 256 + d[i + 1]
}

/// The length-prefixed record that directory slot `slot` points at, if the
/// slot holds a plausible offset and the record lies within the store:
/// `None` stands for a missing or corrupt artifact.
pub open spec fn spec_record_at(d: Seq<u8>, slot: int) -> Option<Seq<u8>> {
    let off = spec_u16_at(d, slot);
    if off < DATA_STARTING_POS {
        None
    } else if off + 2 > DKG_KEYS_MAX_SIZE {
        None
    } else if off + 2 + spec_u16_at(d, off) > DKG_KEYS_MAX_SIZE {
        None
    } else {
        Some(d.subrange(off + 2, off + 2 + spec_u16_at(d, off)))
    }
}

/// The error reported for a record that `spec_record_at` refuses.
pub open spec fn spec_record_err(d: Seq<u8>, slot: int) -> AppSW {
    let off = spec_u16_at(d, slot);
    if off < DATA_STARTING_POS {
        AppSW::MissingArtifact
    } else {
        AppSW::BufferOutOfBounds
    }
}

proof fn lemma_u16_be_value(v: u16)
    ensures
        (v >> 8) as int * 256 + (v & 0xff) as int == v,
        u16_be(v).len() == 2,
{
    assert((v >> 8) as int * 256 + (v & 0xff) as int == v) by (bit_vector);
}

/// The byte image of a run of length-prefixed records: for each record, a
/// big-endian `u16` length followed by the payload, all appended in order.
pub open spec fn records_blob(ids: Seq<Seq<u8>>) -> Seq<u8>
    decreases ids.len(),
{
    if ids.len() == 0 {
        Seq::<u8>::empty()
    } else {
        u16_be(ids[0].len() as u16).add(ids[0]).add(records_blob(ids.skip(1)))
    }
}

/// The records parsed back out of `d[start, end)` as a run of
/// length-prefixed records that consumes the region exactly, or `None`
/// when the region does not parse that way.
pub open spec fn spec_parse_records(d: Seq<u8>, start: int, end: int) -> Option<Seq<Seq<u8>>>
    decreases end - start,
{
    if start == end {
        Some(Seq::<Seq<u8>>::empty())
    } else if start + 2 > end {
        None
    } else if start + 2 + spec_u16_at(d, start) > end {
        None
    } else {
        match spec_parse_records(d, start + 2 + spec_u16_at(d, start), end) {
            None => None,
            Some(rest) => Some(
                rest.insert(0, d.subrange(start + 2, start + 2 + spec_u16_at(d, start))),
            ),
        }
    }
}

/// Concatenating two runs of records concatenates their byte images.
pub proof fn lemma_records_blob_concat(a: Seq<Seq<u8>>, b: Seq<Seq<u8>>)
    ensures
        records_blob(a.add(b)) == records_blob(a).add(records_blob(b)),
    decreases a.len(),
{
    if a.len() == 0 {
        assert(a.add(b) =~= b);
        assert(records_blob(a).add(records_blob(b)) =~= records_blob(b));
    } else {
        lemma_records_blob_concat(a.skip(1), b);
        assert(a.add(b).skip(1) =~= a.skip(1).add(b));
        assert(records_blob(a.add(b)) =~= records_blob(a).add(records_blob(b)));
    }
}

/// Appending one record to a run appends its length prefix and payload to
/// the byte image.
pub proof fn lemma_records_blob_push(a: Seq<Seq<u8>>, x: Seq<u8>)
    ensures
        records_blob(a.push(x)) == records_blob(a).add(u16_be(x.len() as u16)).add(x),
{
    lemma_records_blob_concat(a, seq![x]);
    assert(a.push(x) =~= a.add(seq![x]));
    assert(seq![x].skip(1) =~= Seq::<Seq<u8>>::empty());
    assert(records_blob(Seq::<Seq<u8>>::empty()) =~= Seq::<u8>::empty());
    assert(seq![x][0] == x);
    assert(records_blob(seq![x]) =~= u16_be(x.len() as u16).add(x));
    assert(records_blob(a).add(u16_be(x.len() as u16).add(x)) =~= records_blob(a).add(
        u16_be(x.len() as u16),
    ).add(x));
}

/// Law: writing a run of records through the length-prefixed append and
/// reading the same region back yields the records byte-identical. If a
/// region of the store holds exactly the byte image of a run (as
/// `save_round_1_data` establishes for the identities), then parsing that
/// region (as `load_identities` does) returns exactly that run.
pub proof fn lemma_records_blob_parses_back(d: Seq<u8>, start: int, ids: Seq<Seq<u8>>)
    requires
        0 <= start,
        start + records_blob(ids).len() <= d.len(),
        d.subrange(start, start + records_blob(ids).len()) == records_blob(ids),
        forall|i: int| 0 <= i < ids.len() ==> #[trigger] ids[i].len() <= 0xFFFF,
    ensures
        spec_parse_records(d, start, start + records_blob(ids).len()) == Some(ids),
    decreases ids.len(),
{
    let blob = records_blob(ids);
    let end = start + blob.len();
    if ids.len() == 0 {
        assert(spec_parse_records(d, start, end) == Some(Seq::<Seq<u8>>::empty()));
        assert(Seq::<Seq<u8>>::empty() =~= ids);
    } else {
        let id = ids[0];
        let l = id.len() as u16;
        let rest = ids.skip(1);
        let rest_blob = records_blob(rest);
        lemma_u16_be_value(l);
        assert((l >> 8) < 256 && (l & 0xff) < 256) by (bit_vector);
        assert(blob == u16_be(l).add(id).add(rest_blob));
        assert(blob.len() == 2 + id.len() + rest_blob.len());
        assert(forall|k: int| 0 <= k < blob.len() ==> d[start + k] == blob[k]) by {
            assert(forall|k: int|
                0 <= k < blob.len() ==> #[trigger] d.subrange(start, end)[k] == blob[k]);
        }
        assert(d[start] == (l >> 8) as u8 && d[start + 1] == (l & 0xff) as u8) by {
            assert(blob[0] == u16_be(l)[0] && blob[1] == u16_be(l)[1]);
        }
        assert(spec_u16_at(d, start) == id.len());
        let mid = start + 2 + id.len();
        assert(d.subrange(start + 2, mid) =~= id) by {
            assert(forall|k: int| 0 <= k < id.len() ==> blob[2 + k] == id[k]);
        }
        assert(d.subrange(mid, mid + rest_blob.len()) =~= rest_blob) by {
            assert(forall|k: int|
                0 <= k < rest_blob.len() ==> blob[2 + id.len() + k] == rest_blob[k]);
        }
        lemma_records_blob_parses_back(d, mid, rest);
        assert(spec_parse_records(d, start, end) == Some(
            rest.insert(0, d.subrange(start + 2, mid)),
        ));
        assert(rest.insert(0, id) =~= ids);
    }
}

/// A prefix of a run of records never has a longer byte image than the
/// whole run.
pub proof fn lemma_records_blob_take_len_le(ids: Seq<Seq<u8>>, i: int)
    requires
        0 <= i <= ids.len(),
    ensures
        records_blob(ids.take(i)).len() <= records_blob(ids).len(),
{
    lemma_records_blob_concat(ids.take(i), ids.skip(i));
    assert(ids.take(i).add(ids.skip(i)) =~= ids);
}

/// The durable key-material store: a fixed-capacity byte array that is not
/// reset between operations. It is laid out as a directory of two-byte
/// big-endian offsets, one per artifact kind, each pointing at a
/// length-prefixed record appended after the directory.
pub struct DkgKeys {
    /// Backing byte array; always exactly `DKG_KEYS_MAX_SIZE` long when
    /// well-formed.
    pub data: Vec<u8>,
}

impl DkgKeys {
    /// Structural invariant: the backing array has exactly the fixed size.
    pub open spec fn wf(&self) -> bool {
        self.data@.len() == DKG_KEYS_MAX_SIZE
    }

    /// The whole backing array.
    pub open spec fn raw(&self) -> Seq<u8> {
        self.data@
    }

    /// A freshly provisioned (all zero) store.
    pub fn new() -> (s: DkgKeys)
        ensures
            s.wf(),
            s.raw() == Seq::<u8>::new(DKG_KEYS_MAX_SIZE as nat, |i: int| 0u8),
    {
        let data: Vec<u8> = vec![0u8; DKG_KEYS_MAX_SIZE];
        proof {
            assert(data@ =~= Seq::<u8>::new(DKG_KEYS_MAX_SIZE as nat, |i: int| 0u8));
        }
        DkgKeys { data }
    }

    /// Reads the byte at `index`. Fails exactly when `index` reaches the
    /// capacity.
    pub fn get_element(&self, index: usize) -> (r: Result<u8, AppSW>)
        requires
            self.wf(),
        ensures
            match r {
                Ok(b) => index < DKG_KEYS_MAX_SIZE && b == self.raw()[index as int],
                Err(e) => index >= DKG_KEYS_MAX_SIZE && e == AppSW::BufferOutOfBounds,
            },
    {
        if index >= DKG_KEYS_MAX_SIZE {
            return Err(AppSW::BufferOutOfBounds);
        }
        Ok(*vstd::slice::slice_index_get(self.data.as_slice(), index))
    }

    /// Writes one byte at `index`. Fails exactly when `index` reaches the
    /// capacity.
    pub fn set_element(&mut self, index: usize, value: u8) -> (r: Result<(), AppSW>)
        requires
            old(self).wf(),
        ensures
            final(self).wf(),
            match r {
                Ok(()) => index < DKG_KEYS_MAX_SIZE && final(self).raw() == old(
                    self,
                ).raw().update(index as int, value),
                Err(e) => index >= DKG_KEYS_MAX_SIZE && e == AppSW::BufferOutOfBounds
                    && final(self).raw() == old(self).raw(),
            },
    {
        if index >= DKG_KEYS_MAX_SIZE {
            return Err(AppSW::BufferOutOfBounds);
        }
        self.data.set(index, value);
        Ok(())
    }

    /// Writes `value` starting at `index`. Fails exactly when some written
    /// index would reach the capacity, in which case nothing is written.
    pub fn set_slice(&mut self, index: usize, value: &[u8]) -> (r: Result<(), AppSW>)
        requires
            old(self).wf(),
        ensures
            final(self).wf(),
            match r {
                Ok(()) => index + value@.len() <= DKG_KEYS_MAX_SIZE && final(self).raw()
                    == spliced(old(self).raw(), index as int, value@),
                Err(e) => index + value@.len() > DKG_KEYS_MAX_SIZE && e
                    == AppSW::BufferOutOfBounds && final(self).raw() == old(self).raw(),
            },
    {
        if value.len() > DKG_KEYS_MAX_SIZE || index > DKG_KEYS_MAX_SIZE - value.len() {
            return Err(AppSW::BufferOutOfBounds);
        }
        let mut i: usize = 0;
        while i < value.len()
            invariant
                self.wf(),
                i <= value@.len(),
                index + value@.len() <= DKG_KEYS_MAX_SIZE,
                self.raw().len() == old(self).raw().len(),
                forall|j: int|
                    0 <= j < self.raw().len() && !(index <= j < index + i) ==> self.raw()[j]
                        == old(self).raw()[j],
                forall|j: int|
                    index <= j < index + i ==> self.raw()[j] == value@[j - index],
            decreases value@.len() - i,
        {
            let b = *vstd::slice::slice_index_get(value, i);
            self.data.set(index + i, b);
            i = i + 1;
        }
        proof {
            assert(self.raw() =~= spliced(old(self).raw(), index as int, value@));
        }
        Ok(())
    }

    /// Borrows the bytes in `[start, end)`. Fails exactly when `end` passes
    /// the capacity.
    pub fn get_slice(&self, start: usize, end: usize) -> (r: Result<&[u8], AppSW>)
        requires
            self.wf(),
            start <= end,
        ensures
            match r {
                Ok(s) => end <= DKG_KEYS_MAX_SIZE && s@ == self.raw().subrange(
                    start as int,
                    end as int,
                ),
                Err(e) => end > DKG_KEYS_MAX_SIZE && e == AppSW::BufferOutOfBounds,
            },
    {
        if end > DKG_KEYS_MAX_SIZE {
            return Err(AppSW::BufferOutOfBounds);
        }
        Ok(vstd::slice::slice_subrange(self.data.as_slice(), start, end))
    }

    /// Writes `value` big-endian at `index` and returns the next free
    /// offset. Fails exactly when the two bytes would not fit.
    pub fn set_u16(&mut self, index: usize, value: u16) -> (r: Result<usize, AppSW>)
        requires
            old(self).wf(),
        ensures
            final(self).wf(),
            match r {
                Ok(next) => {
                    &&& index + 2 <= DKG_KEYS_MAX_SIZE
                    &&& next == index + 2
                    &&& final(self).raw() == spliced(old(self).raw(), index as int, u16_be(value))
                    &&& spec_u16_at(final(self).raw(), index as int) == value
                },
                Err(e) => index + 2 > DKG_KEYS_MAX_SIZE && e == AppSW::BufferOutOfBounds
                    && final(self).raw() == old(self).raw(),
            },
    {
        if index > DKG_KEYS_MAX_SIZE - 2 {
            return Err(AppSW::BufferOutOfBounds);
        }
        proof {
            assert((value >> 8) < 256 && (value & 0xff) < 256) by (bit_vector);
        }
        self.data.set(index, (value >> 8) as u8);
        self.data.set(index + 1, (value & 0xff) as u8);
        proof {
            lemma_u16_be_value(value);
            assert(self.raw() =~= spliced(old(self).raw(), index as int, u16_be(value)));
        }
        Ok(index + 2)
    }

    /// Reads the big-endian `u16` at `start`. Fails exactly when the second
    /// byte reaches the capacity.
    pub fn get_u16(&self, start: usize) -> (r: Result<usize, AppSW>)
        requires
            self.wf(),
        ensures
            match r {
                Ok(v) => start + 1 < DKG_KEYS_MAX_SIZE && v == spec_u16_at(
                    self.raw(),
                    start as int,
                ) && v <= 0xFFFF,
                Err(e) => start + 1 >= DKG_KEYS_MAX_SIZE && e == AppSW::BufferOutOfBounds,
            },
    {
        if start >= DKG_KEYS_MAX_SIZE || start + 1 >= DKG_KEYS_MAX_SIZE {
            return Err(AppSW::BufferOutOfBounds);
        }
        let hi = *vstd::slice::slice_index_get(self.data.as_slice(), start);
        let lo = *vstd::slice::slice_index_get(self.data.as_slice(), start + 1);
        Ok((hi as usize) * 256 + (lo as usize))
    }

    /// Appends `value` at `index` as a length-prefixed record (big-endian
    /// `u16` length, then the payload) and returns the offset just past the
    /// record. Fails exactly when the record would not fit below the
    /// capacity or its length would not fit in two bytes; nothing is
    /// written then.
    pub fn set_slice_with_len(&mut self, index: usize, value: &[u8]) -> (r: Result<usize, AppSW>)
        requires
            old(self).wf(),
        ensures
            final(self).wf(),
            match r {
                Ok(next) => {
                    &&& value@.len() <= 0xFFFF
                    &&& index + 2 + value@.len() <= DKG_KEYS_MAX_SIZE
                    &&& next == index + 2 + value@.len()
                    &&& final(self).raw() == spliced(
                        old(self).raw(),
                        index as int,
                        u16_be(value@.len() as u16).add(value@),
                    )
                    &&& spec_u16_at(final(self).raw(), index as int) == value@.len()
                    &&& final(self).raw().subrange(index + 2, index + 2 + value@.len()) == value@
                },
                Err(e) => {
                    &&& value@.len() > 0xFFFF || index + 2 + value@.len() > DKG_KEYS_MAX_SIZE
                    &&& e == AppSW::BufferOutOfBounds
                    &&& final(self).raw() == old(self).raw()
                },
            },
    {
        if value.len() > 0xFFFF || value.len() > DKG_KEYS_MAX_SIZE - 2 || index
            > DKG_KEYS_MAX_SIZE - 2 - value.len() {
            return Err(AppSW::BufferOutOfBounds);
        }
        let len = value.len() as u16;
        let ghost g0 = self.raw();
        let next = match self.set_u16(index, len) {
            Ok(n) => n,
            Err(e) => {
                return Err(e);
            },
        };
        match self.set_slice(next, value) {
            Ok(()) => (),
            Err(e) => {
                proof {
                    // unreachable: the combined bound was checked above
                    assert(false);
                }
                return Err(e);
            },
        }
        proof {
            lemma_u16_be_value(len);
            assert(self.raw() =~= spliced(
                g0,
                index as int,
                u16_be(len).add(value@),
            ));
            assert(self.raw().subrange(index + 2, index + 2 + value@.len()) =~= value@);
        }
        Ok(index + 2 + value.len())
    }

    /// Reads the record that directory slot `slot` points at, returning the
    /// payload's start offset and length. Fails with `MissingArtifact` when
    /// the slot does not point past the directory (in particular on a
    /// freshly provisioned store), and with a bounds error when the record
    /// would pass the capacity.
    pub fn load_record(&self, slot: usize) -> (r: Result<(usize, usize), AppSW>)
        requires
            self.wf(),
            slot + 2 <= DATA_STARTING_POS,
        ensures
            match r {
                Ok((start, len)) => {
                    &&& spec_record_at(self.raw(), slot as int) == Some(
                        self.raw().subrange(start as int, start + len),
                    )
                    &&& start == spec_u16_at(self.raw(), slot as int) + 2
                    &&& len == spec_u16_at(self.raw(), spec_u16_at(self.raw(), slot as int))
                    &&& start + len <= DKG_KEYS_MAX_SIZE
                },
                Err(e) => spec_record_at(self.raw(), slot as int) is None && e == spec_record_err(
                    self.raw(),
                    slot as int,
                ),
            },
    {
        let off = match self.get_u16(slot) {
            Ok(v) => v,
            Err(e) => {
                return Err(e);
            },
        };
        if off < DATA_STARTING_POS {
            return Err(AppSW::MissingArtifact);
        }
        if off + 2 > DKG_KEYS_MAX_SIZE {
            return Err(AppSW::BufferOutOfBounds);
        }
        let len = match self.get_u16(off) {
            Ok(l) => l,
            Err(e) => {
                return Err(e);
            },
        };
        if len > DKG_KEYS_MAX_SIZE - off - 2 {
            return Err(AppSW::BufferOutOfBounds);
        }
        Ok((off + 2, len))
    }

    /// Persists the round-1 broadcast data: the participant identities as a
    /// run of length-prefixed records starting right after the directory,
    /// then the min-signers value as a bare big-endian `u16`. The
    /// identities slot points at the start of the run and the min-signers
    /// slot at its end, so the run's extent is recoverable. Fails exactly
    /// when the data would not fit (an identity longer than two bytes can
    /// count, or the run passing the capacity); a failed save may leave a
    /// partially written run, but never a directory that points at one.
    #[verifier::rlimit(50)]
    pub fn save_round_1_data(&mut self, identities: &Vec<Vec<u8>>, min_signers: u8) -> (r: Result<
        (),
        AppSW,
    >)
        requires
            old(self).wf(),
        ensures
            final(self).wf(),
            match r {
                Ok(()) => {
                    &&& DATA_STARTING_POS + records_blob(identities@.map_values(|v: Vec<u8>| v@)).len() + 2
                        <= DKG_KEYS_MAX_SIZE
                    &&& spec_u16_at(final(self).raw(), IDENTITIES_POS as int) == DATA_STARTING_POS
                    &&& spec_u16_at(final(self).raw(), MIN_SIGNERS_POS as int)
                        == DATA_STARTING_POS + records_blob(
                        identities@.map_values(|v: Vec<u8>| v@),
                    ).len()
                    &&& final(self).raw().subrange(
                        DATA_STARTING_POS as int,
                        DATA_STARTING_POS + records_blob(
                            identities@.map_values(|v: Vec<u8>| v@),
                        ).len(),
                    ) == records_blob(identities@.map_values(|v: Vec<u8>| v@))
                    &&& spec_u16_at(
                        final(self).raw(),
                        spec_u16_at(final(self).raw(), MIN_SIGNERS_POS as int),
                    ) == min_signers
                    &&& spec_parse_records(
                        final(self).raw(),
                        spec_u16_at(final(self).raw(), IDENTITIES_POS as int),
                        spec_u16_at(final(self).raw(), MIN_SIGNERS_POS as int),
                    ) == Some(identities@.map_values(|v: Vec<u8>| v@))
                    &&& forall|i: int|
                        0 <= i < identities@.len() ==> #[trigger] identities@[i]@.len() <= 0xFFFF
                },
                Err(e) => {
                    &&& e == AppSW::BufferOutOfBounds
                    &&& {
                        ||| DATA_STARTING_POS + records_blob(
                            identities@.map_values(|v: Vec<u8>| v@),
                        ).len() + 2 > DKG_KEYS_MAX_SIZE
                        ||| exists|i: int|
                            0 <= i < identities@.len() && #[trigger] identities@[i]@.len() > 0xFFFF
                    }
                },
            },
    {
        let ghost ids = identities@.map_values(|v: Vec<u8>| v@);
        self.set_u16(IDENTITIES_POS, DATA_STARTING_POS as u16).unwrap();
        let mut pos: usize = DATA_STARTING_POS;
        let mut i: usize = 0;
        proof {
            assert(ids.take(0) =~= Seq::<Seq<u8>>::empty());
            assert(self.raw().subrange(DATA_STARTING_POS as int, DATA_STARTING_POS as int)
                =~= records_blob(ids.take(0)));
        }
        while i < identities.len()
            invariant
                self.wf(),
                i <= ids.len(),
                ids == identities@.map_values(|v: Vec<u8>| v@),
                DATA_STARTING_POS <= pos <= DKG_KEYS_MAX_SIZE,
                pos == DATA_STARTING_POS + records_blob(ids.take(i as int)).len(),
                spec_u16_at(self.raw(), IDENTITIES_POS as int) == DATA_STARTING_POS,
                self.raw().subrange(DATA_STARTING_POS as int, pos as int) == records_blob(
                    ids.take(i as int),
                ),
                forall|k: int| 0 <= k < i ==> #[trigger] identities@[k]@.len() <= 0xFFFF,
            decreases ids.len() - i,
        {
            let id = &identities[i];
            let ghost gpre = self.raw();
            let next = match self.set_slice_with_len(pos, id.as_slice()) {
                Ok(n) => n,
                Err(e) => {
                    proof {
                        if ids[i as int].len() <= 0xFFFF {
                            lemma_records_blob_push(ids.take(i as int), ids[i as int]);
                            assert(ids.take(i + 1) =~= ids.take(i as int).push(ids[i as int]));
                            lemma_records_blob_take_len_le(ids, i + 1);
                        } else {
                            assert(identities@[i as int]@.len() > 0xFFFF);
                        }
                    }
                    return Err(e);
                },
            };
            proof {
                lemma_records_blob_push(ids.take(i as int), ids[i as int]);
                assert(ids.take(i + 1) =~= ids.take(i as int).push(ids[i as int]));
                assert(self.raw().subrange(DATA_STARTING_POS as int, next as int)
                    =~= records_blob(ids.take(i + 1)));
            }
            pos = next;
            i = i + 1;
        }
        proof {
            assert(ids.take(ids.len() as int) =~= ids);
        }
        if pos > DKG_KEYS_MAX_SIZE - 2 {
            return Err(AppSW::BufferOutOfBounds);
        }
        let ghost gmid = self.raw();
        self.set_u16(MIN_SIGNERS_POS, pos as u16).unwrap();
        let ghost ga = self.raw();
        self.set_u16(pos, min_signers as u16).unwrap();
        proof {
            let d = self.raw();
            assert(spec_u16_at(d, IDENTITIES_POS as int) == DATA_STARTING_POS) by {
                assert(d[0] == gmid[0] && d[1] == gmid[1]);
            }
            assert(spec_u16_at(d, MIN_SIGNERS_POS as int) == pos) by {
                assert(d[2] == ga[2] && d[3] == ga[3]);
                assert(spec_u16_at(ga, MIN_SIGNERS_POS as int) == pos as u16);
            }
            assert(d.subrange(DATA_STARTING_POS as int, pos as int) =~= gmid.subrange(
                DATA_STARTING_POS as int,
                pos as int,
            ));
            assert(spec_u16_at(d, pos as int) == min_signers as u16);
            assert(d.subrange(DATA_STARTING_POS as int, pos as int) == records_blob(ids));
            lemma_records_blob_parses_back(d, DATA_STARTING_POS as int, ids);
        }
        Ok(())
    }

    /// Appends `payload` at `index` as a length-prefixed record and points
    /// directory slot `slot` at it, returning the offset just past the
    /// record. Fails exactly when the record would not fit below the
    /// capacity; nothing is written then.
    fn append_record(&mut self, slot: usize, index: usize, payload: &[u8]) -> (r: Result<
        usize,
        AppSW,
    >)
        requires
            old(self).wf(),
            slot + 2 <= DATA_STARTING_POS,
            index >= DATA_STARTING_POS,
        ensures
            final(self).wf(),
            match r {
                Ok(next) => {
                    &&& index + 2 + payload@.len() <= DKG_KEYS_MAX_SIZE
                    &&& next == index + 2 + payload@.len()
                    &&& spec_u16_at(final(self).raw(), slot as int) == index
                    &&& spec_u16_at(final(self).raw(), index as int) == payload@.len()
                    &&& final(self).raw().subrange(index + 2, next as int) == payload@
                    &&& spec_record_at(final(self).raw(), slot as int) == Some(payload@)
                    &&& forall|j: int|
                        0 <= j < DKG_KEYS_MAX_SIZE && !(slot <= j < slot + 2) && !(index <= j
                            < index + 2 + payload@.len()) ==> final(self).raw()[j] == old(
                            self,
                        ).raw()[j]
                },
                Err(e) => {
                    &&& index + 2 + payload@.len() > DKG_KEYS_MAX_SIZE
                    &&& e == AppSW::BufferOutOfBounds
                    &&& final(self).raw() == old(self).raw()
                },
            },
    {
        if payload.len() > DKG_KEYS_MAX_SIZE - 2 || index > DKG_KEYS_MAX_SIZE - 2 - payload.len() {
            return Err(AppSW::BufferOutOfBounds);
        }
        self.set_u16(slot, index as u16).unwrap();
        let ghost g1 = self.raw();
        let next = self.set_slice_with_len(index, payload).unwrap();
        proof {
            let d = self.raw();
            assert(spec_u16_at(d, slot as int) == index) by {
                assert(d[slot as int] == g1[slot as int]);
                assert(d[slot + 1] == g1[slot + 1]);
                assert(spec_u16_at(g1, slot as int) == index as u16);
            }
            assert(spec_record_at(d, slot as int) == Some(payload@));
        }
        Ok(next)
    }

    /// Whether the three round-3 records fit after the min-signers record:
    /// the append point plus three two-byte length prefixes and the three
    /// payloads stays within the capacity.
    pub open spec fn spec_save_keys_fits(
        d: Seq<u8>,
        key_package: Seq<u8>,
        group_secret_key: Seq<u8>,
        public_key_package: Seq<u8>,
    ) -> bool {
        spec_u16_at(d, MIN_SIGNERS_POS as int) + 8 + key_package.len() + group_secret_key.len()
            + public_key_package.len() <= DKG_KEYS_MAX_SIZE
    }

    /// Persists the three round-3 artifacts — key package, group secret
    /// key, public key package — as length-prefixed records appended after
    /// the round-1 data, updating their directory slots. Nothing is written
    /// unless everything fits, so a failed save leaves the store unchanged.
    /// Succeeds exactly when the round-1 data has been persisted and the
    /// records fit below the capacity; fails with a missing-artifact error
    /// exactly when the round-1 data is absent, and with a bounds error
    /// exactly when it is present but the records do not fit.
    #[verifier::rlimit(100)]
    pub fn save_keys(
        &mut self,
        key_package: &[u8],
        public_key_package: &[u8],
        group_secret_key: &[u8],
    ) -> (r: Result<(), AppSW>)
        requires
            old(self).wf(),
        ensures
            final(self).wf(),
            match r {
                Ok(()) => {
                    &&& spec_record_at(final(self).raw(), KEY_PACKAGE_POS as int) == Some(
                        key_package@,
                    )
                    &&& spec_record_at(final(self).raw(), GROUP_KEY_PACKAGE_POS as int) == Some(
                        group_secret_key@,
                    )
                    &&& spec_record_at(final(self).raw(), FROST_PUBLIC_PACKAGE_POS as int) == Some(
                        public_key_package@,
                    )
                    &&& spec_u16_at(final(self).raw(), IDENTITIES_POS as int) == spec_u16_at(
                        old(self).raw(),
                        IDENTITIES_POS as int,
                    )
                    &&& spec_u16_at(final(self).raw(), MIN_SIGNERS_POS as int) == spec_u16_at(
                        old(self).raw(),
                        MIN_SIGNERS_POS as int,
                    )
                    &&& spec_u16_at(final(self).raw(), KEY_PACKAGE_POS as int) < spec_u16_at(
                        final(self).raw(),
                        GROUP_KEY_PACKAGE_POS as int,
                    ) < spec_u16_at(final(self).raw(), FROST_PUBLIC_PACKAGE_POS as int)
                    &&& final(self).raw().subrange(
                        DATA_STARTING_POS as int,
                        spec_u16_at(old(self).raw(), MIN_SIGNERS_POS as int) + 2,
                    ) == old(self).raw().subrange(
                        DATA_STARTING_POS as int,
                        spec_u16_at(old(self).raw(), MIN_SIGNERS_POS as int) + 2,
                    )
                },
                Err(e) => {
                    &&& final(self).raw() == old(self).raw()
                    &&& (e == AppSW::MissingArtifact <==> spec_u16_at(
                        old(self).raw(),
                        MIN_SIGNERS_POS as int,
                    ) < DATA_STARTING_POS)
                    &&& (e == AppSW::BufferOutOfBounds <==> spec_u16_at(
                        old(self).raw(),
                        MIN_SIGNERS_POS as int,
                    ) >= DATA_STARTING_POS && !Self::spec_save_keys_fits(
                        old(self).raw(),
                        key_package@,
                        group_secret_key@,
                        public_key_package@,
                    ))
                },
            },
            r is Ok <==> spec_u16_at(old(self).raw(), MIN_SIGNERS_POS as int)
                >= DATA_STARTING_POS && Self::spec_save_keys_fits(
                old(self).raw(),
                key_package@,
                group_secret_key@,
                public_key_package@,
            ),
    {
        let start0 = match self.get_u16(MIN_SIGNERS_POS) {
            Ok(v) => v,
            Err(e) => {
                return Err(e);
            },
        };
        if start0 < DATA_STARTING_POS {
            return Err(AppSW::MissingArtifact);
        }
        // the min-signers record occupies two bytes at `start0`
        let start = start0 + 2;
        if key_package.len() > DKG_KEYS_MAX_SIZE || group_secret_key.len() > DKG_KEYS_MAX_SIZE
            || public_key_package.len() > DKG_KEYS_MAX_SIZE {
            return Err(AppSW::BufferOutOfBounds);
        }
        let end1 = start + 2 + key_package.len();
        if end1 > DKG_KEYS_MAX_SIZE {
            return Err(AppSW::BufferOutOfBounds);
        }
        let end2 = end1 + 2 + group_secret_key.len();
        if end2 > DKG_KEYS_MAX_SIZE {
            return Err(AppSW::BufferOutOfBounds);
        }
        let end3 = end2 + 2 + public_key_package.len();
        if end3 > DKG_KEYS_MAX_SIZE {
            return Err(AppSW::BufferOutOfBounds);
        }
        let ghost g0 = self.raw();
        let n1 = self.append_record(KEY_PACKAGE_POS, start, key_package).unwrap();
        let ghost g1 = self.raw();
        let n2 = self.append_record(GROUP_KEY_PACKAGE_POS, n1, group_secret_key).unwrap();
        let ghost g2 = self.raw();
        let n3 = self.append_record(FROST_PUBLIC_PACKAGE_POS, n2, public_key_package).unwrap();
        proof {
            let d = self.raw();
            assert(spec_u16_at(d, KEY_PACKAGE_POS as int) == start) by {
                assert(d[4] == g1[4] && d[5] == g1[5]);
            }
            assert(spec_record_at(d, KEY_PACKAGE_POS as int) == Some(key_package@)) by {
                assert(spec_u16_at(d, start as int) == key_package@.len()) by {
                    assert(d[start as int] == g1[start as int]);
                    assert(d[start + 1] == g1[start + 1]);
                }
                assert(d.subrange(start + 2, end1 as int) =~= key_package@) by {
                    assert(forall|j: int| start + 2 <= j < end1 ==> d[j] == g1[j]);
                    assert(g1.subrange(start + 2, end1 as int) == key_package@);
                }
            }
            assert(spec_u16_at(d, GROUP_KEY_PACKAGE_POS as int) == end1) by {
                assert(d[6] == g2[6] && d[7] == g2[7]);
            }
            assert(spec_record_at(d, GROUP_KEY_PACKAGE_POS as int) == Some(group_secret_key@))
                by {
                assert(spec_u16_at(d, end1 as int) == group_secret_key@.len()) by {
                    assert(d[end1 as int] == g2[end1 as int]);
                    assert(d[end1 + 1] == g2[end1 + 1]);
                }
                assert(d.subrange(end1 + 2, end2 as int) =~= group_secret_key@) by {
                    assert(forall|j: int| end1 + 2 <= j < end2 ==> d[j] == g2[j]);
                    assert(g2.subrange(end1 + 2, end2 as int) == group_secret_key@);
                }
            }
            assert(spec_record_at(d, FROST_PUBLIC_PACKAGE_POS as int) == Some(
                public_key_package@,
            ));
            assert(spec_u16_at(d, IDENTITIES_POS as int) == spec_u16_at(
                g0,
                IDENTITIES_POS as int,
            )) by {
                assert(d[0] == g0[0] && d[1] == g0[1]);
            }
            assert(spec_u16_at(d, MIN_SIGNERS_POS as int) == spec_u16_at(
                g0,
                MIN_SIGNERS_POS as int,
            )) by {
                assert(d[2] == g0[2] && d[3] == g0[3]);
            }
            assert(d.subrange(DATA_STARTING_POS as int, start0 + 2) =~= g0.subrange(
                DATA_STARTING_POS as int,
                start0 + 2,
            )) by {
                assert(forall|j: int| DATA_STARTING_POS <= j < start0 + 2 ==> d[j] == g0[j]);
            }
        }
        Ok(())
    }

    /// Loads the persisted key package bytes.
    pub fn load_key_package(&self) -> (r: Result<Vec<u8>, AppSW>)
        requires
            self.wf(),
        ensures
            match r {
                Ok(v) => spec_record_at(self.raw(), KEY_PACKAGE_POS as int) == Some(v@),
                Err(e) => spec_record_at(self.raw(), KEY_PACKAGE_POS as int) is None && e
                    == spec_record_err(self.raw(), KEY_PACKAGE_POS as int),
            },
    {
        let (start, len) = match self.load_record(KEY_PACKAGE_POS) {
            Ok(p) => p,
            Err(e) => {
                return Err(e);
            },
        };
        let s = self.get_slice(start, start + len).unwrap();
        Ok(vstd::slice::slice_to_vec(s))
    }

    /// Loads the persisted public key package bytes.
    pub fn load_frost_public_key_package(&self) -> (r: Result<Vec<u8>, AppSW>)
        requires
            self.wf(),
        ensures
            match r {
                Ok(v) => spec_record_at(self.raw(), FROST_PUBLIC_PACKAGE_POS as int) == Some(v@),
                Err(e) => spec_record_at(self.raw(), FROST_PUBLIC_PACKAGE_POS as int) is None && e
                    == spec_record_err(self.raw(), FROST_PUBLIC_PACKAGE_POS as int),
            },
    {
        let (start, len) = match self.load_record(FROST_PUBLIC_PACKAGE_POS) {
            Ok(p) => p,
            Err(e) => {
                return Err(e);
            },
        };
        let s = self.get_slice(start, start + len).unwrap();
        Ok(vstd::slice::slice_to_vec(s))
    }

    /// Loads the persisted group secret key. Beyond the record lookup, the
    /// record must be exactly the group secret key length.
    pub fn load_group_secret_key(&self) -> (r: Result<Vec<u8>, AppSW>)
        requires
            self.wf(),
        ensures
            match r {
                Ok(v) => spec_record_at(self.raw(), GROUP_KEY_PACKAGE_POS as int) == Some(v@)
                    && v@.len() == GROUP_SECRET_KEY_LEN,
                Err(e) => match spec_record_at(self.raw(), GROUP_KEY_PACKAGE_POS as int) {
                    None => e == spec_record_err(self.raw(), GROUP_KEY_PACKAGE_POS as int),
                    Some(rec) => rec.len() != GROUP_SECRET_KEY_LEN && e
                        == AppSW::InvalidGroupSecretKey,
                },
            },
    {
        let (start, len) = match self.load_record(GROUP_KEY_PACKAGE_POS) {
            Ok(p) => p,
            Err(e) => {
                return Err(e);
            },
        };
        if len != GROUP_SECRET_KEY_LEN {
            return Err(AppSW::InvalidGroupSecretKey);
        }
        let s = self.get_slice(start, start + len).unwrap();
        Ok(vstd::slice::slice_to_vec(s))
    }

    /// Loads the persisted min-signers value.
    pub fn load_min_signers(&self) -> (r: Result<usize, AppSW>)
        requires
            self.wf(),
        ensures
            match r {
                Ok(v) => {
                    &&& spec_u16_at(self.raw(), MIN_SIGNERS_POS as int) >= DATA_STARTING_POS
                    &&& spec_u16_at(self.raw(), MIN_SIGNERS_POS as int) + 2 <= DKG_KEYS_MAX_SIZE
                    &&& v == spec_u16_at(
                        self.raw(),
                        spec_u16_at(self.raw(), MIN_SIGNERS_POS as int),
                    )
                },
                Err(e) => {
                    ||| e == AppSW::MissingArtifact && spec_u16_at(
                        self.raw(),
                        MIN_SIGNERS_POS as int,
                    ) < DATA_STARTING_POS
                    ||| e == AppSW::BufferOutOfBounds && spec_u16_at(
                        self.raw(),
                        MIN_SIGNERS_POS as int,
                    ) + 2 > DKG_KEYS_MAX_SIZE
                },
            },
    {
        let start = self.get_u16(MIN_SIGNERS_POS).unwrap();
        if start < DATA_STARTING_POS {
            return Err(AppSW::MissingArtifact);
        }
        match self.get_u16(start) {
            Ok(v) => Ok(v),
            Err(_) => Err(AppSW::BufferOutOfBounds),
        }
    }

    /// Loads the persisted participant identities: the run of
    /// length-prefixed records between the identities offset and the
    /// min-signers offset, exactly as `spec_parse_records` reads it. Fails
    /// with a missing-artifact error when round-1 data has not been
    /// persisted, and with a parsing-failure bounds error when the region
    /// does not parse as such a run.
    pub fn load_identities(&self) -> (r: Result<Vec<Vec<u8>>, AppSW>)
        requires
            self.wf(),
        ensures
            match r {
                Ok(v) => {
                    &&& spec_u16_at(self.raw(), IDENTITIES_POS as int) >= DATA_STARTING_POS
                    &&& spec_u16_at(self.raw(), MIN_SIGNERS_POS as int) <= DKG_KEYS_MAX_SIZE
                    &&& spec_parse_records(
                        self.raw(),
                        spec_u16_at(self.raw(), IDENTITIES_POS as int),
                        spec_u16_at(self.raw(), MIN_SIGNERS_POS as int),
                    ) == Some(v@.map_values(|x: Vec<u8>| x@))
                },
                Err(e) => {
                    ||| e == AppSW::MissingArtifact && (spec_u16_at(
                        self.raw(),
                        IDENTITIES_POS as int,
                    ) < DATA_STARTING_POS || spec_u16_at(self.raw(), MIN_SIGNERS_POS as int)
                        < DATA_STARTING_POS)
                    ||| e == AppSW::BufferOutOfBounds && (spec_u16_at(
                        self.raw(),
                        MIN_SIGNERS_POS as int,
                    ) > DKG_KEYS_MAX_SIZE || spec_parse_records(
                        self.raw(),
                        spec_u16_at(self.raw(), IDENTITIES_POS as int),
                        spec_u16_at(self.raw(), MIN_SIGNERS_POS as int),
                    ) is None)
                },
            },
    {
        let start = self.get_u16(IDENTITIES_POS).unwrap();
        let end = self.get_u16(MIN_SIGNERS_POS).unwrap();
        if start < DATA_STARTING_POS || end < DATA_STARTING_POS {
            return Err(AppSW::MissingArtifact);
        }
        if end > DKG_KEYS_MAX_SIZE || start > end {
            return Err(AppSW::BufferOutOfBounds);
        }
        let mut out: Vec<Vec<u8>> = Vec::new();
        let mut pos = start;
        proof {
            assert(out@.map_values(|x: Vec<u8>| x@) =~= Seq::<Seq<u8>>::empty());
        }
        while pos != end
            invariant
                self.wf(),
                DATA_STARTING_POS <= start <= pos <= end <= DKG_KEYS_MAX_SIZE,
                start == spec_u16_at(self.raw(), IDENTITIES_POS as int),
                end == spec_u16_at(self.raw(), MIN_SIGNERS_POS as int),
                spec_parse_records(self.raw(), start as int, end as int) is Some ==> {
                    &&& spec_parse_records(self.raw(), pos as int, end as int) is Some
                    &&& spec_parse_records(self.raw(), start as int, end as int).unwrap()
                        == out@.map_values(|x: Vec<u8>| x@).add(
                        spec_parse_records(self.raw(), pos as int, end as int).unwrap(),
                    )
                },
                spec_parse_records(self.raw(), start as int, end as int) is None
                    ==> spec_parse_records(self.raw(), pos as int, end as int) is None,
            decreases end - pos,
        {
            let ghost d = self.raw();
            if pos + 2 > end {
                proof {
                    assert(spec_parse_records(d, pos as int, end as int) is None);
                }
                return Err(AppSW::BufferOutOfBounds);
            }
            let len = self.get_u16(pos).unwrap();
            if len > end - pos - 2 {
                proof {
                    assert(spec_parse_records(d, pos as int, end as int) is None);
                }
                return Err(AppSW::BufferOutOfBounds);
            }
            let s = self.get_slice(pos + 2, pos + 2 + len).unwrap();
            let rec = vstd::slice::slice_to_vec(s);
            let ghost prev = out@.map_values(|x: Vec<u8>| x@);
            out.push(rec);
            proof {
                assert(out@.map_values(|x: Vec<u8>| x@) =~= prev.push(
                    d.subrange(pos + 2, pos + 2 + len),
                ));
                if spec_parse_records(d, start as int, end as int) is Some {
                    let rest0 = spec_parse_records(d, pos as int, end as int).unwrap();
                    let rest1 = spec_parse_records(d, pos + 2 + len, end as int).unwrap();
                    assert(rest0 == rest1.insert(0, d.subrange(pos + 2, pos + 2 + len)));
                    assert(prev.add(rest0) =~= prev.push(
                        d.subrange(pos + 2, pos + 2 + len),
                    ).add(rest1));
                }
            }
            pos = pos + 2 + len;
        }
        proof {
            if spec_parse_records(self.raw(), start as int, end as int) is Some {
                let all = spec_parse_records(self.raw(), start as int, end as int).unwrap();
                assert(all =~= out@.map_values(|x: Vec<u8>| x@).add(Seq::<Seq<u8>>::empty()));
                assert(all =~= out@.map_values(|x: Vec<u8>| x@));
            } else {
                assert(spec_parse_records(self.raw(), end as int, end as int) is Some);
                assert(false);
            }
        }
        Ok(out)
    }
}

/// Law: a record saved through the persistent store's length-prefixed
/// append is read back byte-identical via its directory offset. Saving
/// establishes `spec_record_at(store, slot) == Some(payload)` (see
/// `save_keys`), and every load returns exactly the record that
/// `spec_record_at` denotes (see `load_key_package` and its siblings), so
/// the round trip returns the saved bytes unchanged.
pub proof fn lemma_record_round_trip(d: Seq<u8>, slot: int, payload: Seq<u8>)
    requires
        spec_record_at(d, slot) == Some(payload),
    ensures
        spec_record_at(d, slot) matches Some(rec) && rec == payload,
{
}

} // verus!
