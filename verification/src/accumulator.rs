use vstd::prelude::*;

use crate::buffer::BUFFER_SIZE;
use crate::context::TxContext;
use crate::error::AppSW;

verus! {

/// First chunk of a logical command: accumulation starts over.
pub const CHUNK_FIRST: u8 = 0;

/// Last chunk of a logical command: accumulation is complete.
pub const CHUNK_LAST: u8 = 2;

/// The session bytes that accumulation starts from for a given chunk index:
/// a first chunk discards whatever a previous command left behind.
pub open spec fn spec_accumulate_base(ctx: TxContext, chunk: u8) -> Seq<u8> {
    if chunk == CHUNK_FIRST {
        Seq::<u8>::empty()
    } else {
        ctx.buffer.bytes()
    }
}

/// Reassembles a logical message split across multiple incoming packets.
///
/// `data` is appended to the session buffer (after a reset when `chunk`
/// marks the first packet), and the context is marked done exactly when
/// `chunk` marks the last packet. Fails exactly when the appended data
/// would pass the buffer capacity; the buffer then keeps the bytes it had,
/// so no partially written state is observable.
pub fn accumulate_data(ctx: &mut TxContext, chunk: u8, data: &[u8]) -> (r: Result<(), AppSW>)
    requires
        old(ctx).wf(),
    ensures
        final(ctx).wf(),
        match r {
            Ok(()) => {
                &&& spec_accumulate_base(*old(ctx), chunk).len() + data@.len() <= BUFFER_SIZE
                &&& final(ctx).buffer.bytes() == spec_accumulate_base(*old(ctx), chunk).add(data@)
                &&& final(ctx).done == (chunk == CHUNK_LAST)
            },
            Err(e) => {
                &&& spec_accumulate_base(*old(ctx), chunk).len() + data@.len() > BUFFER_SIZE
                &&& e == AppSW::BufferOutOfBounds
                &&& final(ctx).buffer.bytes() == spec_accumulate_base(*old(ctx), chunk)
                &&& !final(ctx).done
            },
        },
{
    if chunk == CHUNK_FIRST {
        ctx.reset();
    } else {
        ctx.done = false;
    }
    ctx.buffer.append(data)?;
    if chunk == CHUNK_LAST {
        ctx.done = true;
    }
    Ok(())
}

} // verus!
