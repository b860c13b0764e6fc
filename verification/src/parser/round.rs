use vstd::prelude::*;

use crate::buffer::Buffer;
use crate::deserialize::Deserializable;
use crate::error::ParserError;
use crate::store::spec_u16_at;

verus! {

/// The count declared by a run header at `tx_pos`: one count byte.
pub open spec fn spec_round_count(buf: Buffer, tx_pos: int) -> int {
    buf.raw()[tx_pos] as int
}

/// The stride declared by a run header at `tx_pos`: a big-endian `u16`
/// after the count byte.
pub open spec fn spec_round_stride(buf: Buffer, tx_pos: int) -> int {
    spec_u16_at(buf.raw(), tx_pos + 1)
}

/// Whether the session buffer holds, at `tx_pos`, a well-formed run of
/// records of type `T`: the three header bytes and all `count` records of
/// `stride` bytes lie below the cursor, and every record validates.
pub open spec fn spec_round_ok<T: Deserializable>(buf: Buffer, tx_pos: int) -> bool {
    &&& tx_pos + 3 <= buf.pos
    &&& tx_pos + 3 + spec_round_count(buf, tx_pos) * spec_round_stride(buf, tx_pos) <= buf.pos
    &&& forall|i: int|
        0 <= i < spec_round_count(buf, tx_pos) ==> T::spec_parse(
            #[trigger] buf.raw().subrange(
                tx_pos + 3 + i * spec_round_stride(buf, tx_pos),
                tx_pos + 3 + (i + 1) * spec_round_stride(buf, tx_pos),
            ),
        ) is Some
}

/// Pre-validates a homogeneous run of records inside the session buffer,
/// starting at `tx_pos`, without materializing any element.
///
/// The header is one count byte followed by a big-endian `u16` stride.
/// Every record is validated against `T` before any is deserialized, so a
/// run that claims more records than the buffer holds — or holds a corrupt
/// record anywhere — is rejected before any element is consumed. On
/// success the raw bytes of the whole run and the offset just past it are
/// returned, and the count and stride are stored through the two out
/// parameters.
pub fn parse_round<'a, T: Deserializable>(
    buffer: &'a Buffer,
    tx_pos: usize,
    num_elements: &mut u8,
    element_len: &mut usize,
) -> (r: Result<(&'a [u8], usize), ParserError>)
    requires
        buffer.wf(),
    ensures
        match r {
            Ok((slice, next)) => {
                &&& spec_round_ok::<T>(*buffer, tx_pos as int)
                &&& *final(num_elements) == spec_round_count(*buffer, tx_pos as int)
                &&& *final(element_len) == spec_round_stride(*buffer, tx_pos as int)
                &&& next == tx_pos + 3 + spec_round_count(*buffer, tx_pos as int)
                    * spec_round_stride(*buffer, tx_pos as int)
                &&& slice@ == buffer.raw().subrange(tx_pos + 3, next as int)
            },
            Err(_) => {
                &&& !spec_round_ok::<T>(*buffer, tx_pos as int)
                &&& *final(num_elements) == *old(num_elements)
                &&& *final(element_len) == *old(element_len)
            },
        },
{
    let elements = match buffer.get_element(tx_pos) {
        Ok(b) => b,
        Err(_) => {
            return Err(ParserError::UnexpectedBufferEnd);
        },
    };
    let len = match buffer.get_u16(tx_pos + 1) {
        Ok(v) => v,
        Err(_) => {
            return Err(ParserError::UnexpectedBufferEnd);
        },
    };
    let start = tx_pos + 3;
    let mut cur = start;
    let mut i: u8 = 0;
    while i < elements
        invariant
            buffer.wf(),
            start == tx_pos + 3,
            start <= buffer.pos,
            i <= elements,
            len == spec_round_stride(*buffer, tx_pos as int),
            elements == spec_round_count(*buffer, tx_pos as int),
            cur == start + i * len,
            cur <= buffer.pos,
            forall|j: int|
                0 <= j < i ==> T::spec_parse(
                    #[trigger] buffer.raw().subrange(
                        start + j * len,
                        start + (j + 1) * len,
                    ),
                ) is Some,
        decreases elements - i,
    {
        proof {
            vstd::arithmetic::mul::lemma_mul_is_distributive_add_other_way(
                len as int,
                i as int,
                1,
            );
            vstd::arithmetic::mul::lemma_mul_inequality(i + 1, elements as int, len as int);
        }
        if len > buffer.pos() - cur {
            return Err(ParserError::UnexpectedBufferEnd);
        }
        let record = buffer.get_slice(cur, cur + len).unwrap();
        match T::from_bytes_check(record) {
            Ok(()) => (),
            Err(e) => {
                proof {
                    let stride = spec_round_stride(*buffer, tx_pos as int);
                    assert(record@ == buffer.raw().subrange(
                        tx_pos + 3 + i * stride,
                        tx_pos + 3 + (i + 1) * stride,
                    ));
                    assert(!spec_round_ok::<T>(*buffer, tx_pos as int));
                }
                return Err(e);
            },
        }
        cur = cur + len;
        i = i + 1;
    }
    let slice = buffer.get_slice(start, cur).unwrap();
    *num_elements = elements;
    *element_len = len;
    Ok((slice, cur))
}

} // verus!
