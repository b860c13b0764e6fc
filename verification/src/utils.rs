use vstd::prelude::*;

use crate::error::AppSW;

verus! {

/// The big-endian 32-bit value read at offset `i`.
pub open spec fn be_u32_at(b: Seq<u8>, i: int) -> int {
    ((b[i] * 256 + b[i + 1]) * 256 + b[i + 2]) * 256 + b[i + 3]
}

/// A BIP32 derivation path stored as an array of 32-bit components.
#[derive(Default)]
pub struct Bip32Path(pub Vec<u32>);

impl Bip32Path {
    /// The path components.
    pub fn components(&self) -> (r: &Vec<u32>)
        ensures
            r == &self.0,
    {
        &self.0
    }

    /// Reads a path from its encoded bytes: a length byte counting the
    /// components, then each component as four big-endian bytes. Succeeds
    /// exactly when the data is nonempty and holds exactly the declared
    /// components, each of which is read in order.
    pub fn try_from(data: &[u8]) -> (r: Result<Bip32Path, AppSW>)
        ensures
            match r {
                Ok(path) => {
                    &&& data@.len() >= 1
                    &&& data@.len() == 1 + data@[0] * 4
                    &&& path.0@.len() == data@[0]
                    &&& forall|i: int|
                        0 <= i < path.0@.len() ==> #[trigger] path.0@[i] == be_u32_at(
                            data@,
                            1 + 4 * i,
                        )
                },
                Err(e) => {
                    &&& data@.len() == 0 || data@.len() != 1 + data@[0] * 4
                    &&& e == AppSW::WrongApduLength
                },
            },
    {
        if data.len() == 0 {
            return Err(AppSW::WrongApduLength);
        }
        let count = *vstd::slice::slice_index_get(data, 0);
        if (count as usize) * 4 != data.len() - 1 {
            return Err(AppSW::WrongApduLength);
        }
        let mut components: Vec<u32> = Vec::new();
        let mut i: usize = 0;
        while i < count as usize
            invariant
                data@.len() == 1 + count * 4,
                i <= count,
                components@.len() == i,
                forall|j: int|
                    0 <= j < i ==> #[trigger] components@[j] == be_u32_at(data@, 1 + 4 * j),
            decreases count - i,
        {
            let base = 1 + 4 * i;
            let b0 = *vstd::slice::slice_index_get(data, base) as u32;
            let b1 = *vstd::slice::slice_index_get(data, base + 1) as u32;
            let b2 = *vstd::slice::slice_index_get(data, base + 2) as u32;
            let b3 = *vstd::slice::slice_index_get(data, base + 3) as u32;
            let v = ((b0 * 256 + b1) * 256 + b2) * 256 + b3;
            components.push(v);
            i = i + 1;
        }
        Ok(Bip32Path(components))
    }
}

} // verus!
