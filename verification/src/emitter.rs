use vstd::prelude::*;

verus! {

/// Size in bytes of one outgoing transport chunk.
pub const MAX_APDU_SIZE: usize = 253;

/// The concatenation of a sequence of chunks.
pub open spec fn concat_chunks(cs: Seq<Seq<u8>>) -> Seq<u8>
    decreases cs.len(),
{
    if cs.len() == 0 {
        Seq::<u8>::empty()
    } else {
        cs[0].add(concat_chunks(cs.skip(1)))
    }
}

/// Appending a chunk appends its bytes to the concatenation.
pub proof fn lemma_concat_chunks_push(cs: Seq<Seq<u8>>, x: Seq<u8>)
    ensures
        concat_chunks(cs.push(x)) == concat_chunks(cs).add(x),
    decreases cs.len(),
{
    if cs.len() == 0 {
        assert(cs.push(x).skip(1) =~= Seq::<Seq<u8>>::empty());
        assert(concat_chunks(Seq::<Seq<u8>>::empty()) =~= Seq::<u8>::empty());
        assert(cs.push(x)[0] == x);
        assert(concat_chunks(cs.push(x)) =~= x);
        assert(concat_chunks(cs).add(x) =~= x);
    } else {
        lemma_concat_chunks_push(cs.skip(1), x);
        assert(cs.push(x).skip(1) =~= cs.skip(1).push(x));
        assert(concat_chunks(cs.push(x)) =~= concat_chunks(cs).add(x));
    }
}

/// Splits an outbound payload into transport-sized chunks.
///
/// An `n`-byte payload yields exactly `ceil(n / MAX_APDU_SIZE)` chunks:
/// every chunk but the last is exactly `MAX_APDU_SIZE` bytes, the last is
/// nonempty and at most that size, and concatenating all chunks in order
/// reproduces the payload exactly. An empty payload yields no chunks.
pub fn chunk_response(data: &[u8]) -> (chunks: Vec<Vec<u8>>)
    ensures
        chunks@.len() == (data@.len() + MAX_APDU_SIZE - 1) as int / MAX_APDU_SIZE as int,
        concat_chunks(chunks@.map_values(|c: Vec<u8>| c@)) == data@,
        forall|i: int|
            0 <= i < chunks@.len() - 1 ==> #[trigger] chunks@[i]@.len() == MAX_APDU_SIZE,
        chunks@.len() > 0 ==> 0 < chunks@[chunks@.len() - 1]@.len() <= MAX_APDU_SIZE,
{
    let mut chunks: Vec<Vec<u8>> = Vec::new();
    let mut offset: usize = 0;
    proof {
        assert(chunks@.map_values(|c: Vec<u8>| c@) =~= Seq::<Seq<u8>>::empty());
        assert(data@.take(0) =~= Seq::<u8>::empty());
    }
    while offset < data.len()
        invariant
            offset <= data@.len(),
            offset == chunks@.len() * MAX_APDU_SIZE,
            concat_chunks(chunks@.map_values(|c: Vec<u8>| c@)) == data@.take(offset as int),
            forall|i: int|
                0 <= i < chunks@.len() ==> #[trigger] chunks@[i]@.len() == MAX_APDU_SIZE,
        decreases data@.len() - offset,
    {
        let remaining = data.len() - offset;
        let take = if remaining < MAX_APDU_SIZE {
            remaining
        } else {
            MAX_APDU_SIZE
        };
        let chunk = vstd::slice::slice_to_vec(
            vstd::slice::slice_subrange(data, offset, offset + take),
        );
        let ghost prev = chunks@.map_values(|c: Vec<u8>| c@);
        let ghost prev_len = chunks@.len();
        chunks.push(chunk);
        proof {
            assert(chunks@.map_values(|c: Vec<u8>| c@) =~= prev.push(
                data@.subrange(offset as int, offset + take),
            ));
            lemma_concat_chunks_push(prev, data@.subrange(offset as int, offset + take));
            assert(data@.take(offset as int).add(
                data@.subrange(offset as int, offset + take),
            ) =~= data@.take(offset + take));
        }
        if take < MAX_APDU_SIZE {
            // final, shorter chunk: the payload is exhausted
            proof {
                assert(data@.take(data@.len() as int) =~= data@);
                assert(chunks@.len() == prev_len + 1);
                vstd::arithmetic::mul::lemma_mul_is_distributive_add_other_way(
                    MAX_APDU_SIZE as int,
                    prev_len as int,
                    1,
                );
                vstd::arithmetic::div_mod::lemma_fundamental_div_mod_converse(
                    (data@.len() + MAX_APDU_SIZE - 1) as int,
                    MAX_APDU_SIZE as int,
                    prev_len as int + 1,
                    take - 1,
                );
            }
            return chunks;
        }
        offset = offset + take;
        proof {
            vstd::arithmetic::mul::lemma_mul_is_distributive_add_other_way(
                MAX_APDU_SIZE as int,
                prev_len as int,
                1,
            );
        }
    }
    proof {
        assert(data@.take(data@.len() as int) =~= data@);
        assert(offset == data@.len());
        if chunks@.len() > 0 {
            assert(chunks@[chunks@.len() - 1]@.len() == MAX_APDU_SIZE);
        }
        vstd::arithmetic::div_mod::lemma_fundamental_div_mod_converse(
            (data@.len() + MAX_APDU_SIZE - 1) as int,
            MAX_APDU_SIZE as int,
            chunks@.len() as int,
            (MAX_APDU_SIZE - 1) as int,
        );
    }
    chunks
}

} // verus!
