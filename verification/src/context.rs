use vstd::prelude::*;

use crate::buffer::Buffer;

verus! {

/// Per-command state threaded through every handler invocation: the session
/// buffer under accumulation and whether the logical message is complete.
pub struct TxContext {
    pub buffer: Buffer,
    pub done: bool,
}

impl TxContext {
    pub open spec fn wf(&self) -> bool {
        self.buffer.wf()
    }

    /// A fresh context with an empty session buffer.
    pub fn new() -> (ctx: TxContext)
        ensures
            ctx.wf(),
            ctx.buffer.pos == 0,
            !ctx.done,
    {
        TxContext { buffer: Buffer::new(), done: false }
    }

    /// Discards any accumulated data and completion mark, reclaiming the
    /// buffer for the next command.
    pub fn reset(&mut self)
        requires
            old(self).wf(),
        ensures
            final(self).wf(),
            final(self).buffer.pos == 0,
            !final(self).done,
            final(self).buffer.raw() == old(self).buffer.raw(),
    {
        self.buffer.reset();
        self.done = false;
    }
}

} // verus!
