use vstd::prelude::*;
use vstd::slice::slice_subrange;

verus! {

/// Size in bytes of a raw Mifare Classic 1K dump.
pub const SKYLANDER_DUMP_SIZE: usize = 1024;

/// Bytes in one Mifare block.
pub const BLOCK_SIZE: usize = 16;

/// Blocks in one Mifare sector.
pub const BLOCKS_PER_SECTOR: usize = 4;

/// A figure loaded from a raw dump: the 1 KiB of tag memory and the path it came from.
#[derive(Clone, Debug)]
pub struct Skylander {
    pub data: [u8; SKYLANDER_DUMP_SIZE],
    pub path: String,
}

/// Byte offset of block `block` of sector `sector` in the dump.
pub open spec fn block_offset(sector: u8, block: u8) -> int {
    (sector * 4 + block) * 16
}

/// Whether the addressed block lies entirely inside the dump.
pub open spec fn block_in_dump(sector: u8, block: u8) -> bool {
    block_offset(sector, block) + 16 <= SKYLANDER_DUMP_SIZE
}

/// Sixteen zero bytes.
pub open spec fn zero_block() -> Seq<u8> {
    Seq::new(16, |i: int| 0u8)
}

/// What a read of a block gives back: its bytes when it lies in the dump, zeros otherwise.
pub open spec fn spec_block(data: Seq<u8>, sector: u8, block: u8) -> Seq<u8> {
    if block_in_dump(sector, block) {
        data.subrange(block_offset(sector, block), block_offset(sector, block) + 16)
    } else {
        zero_block()
    }
}

/// The dump after writing `bytes` over the addressed block; unchanged when the block is outside it.
pub open spec fn spec_write_block(data: Seq<u8>, sector: u8, block: u8, bytes: Seq<u8>) -> Seq<u8> {
    if block_in_dump(sector, block) {
        let off = block_offset(sector, block);
        data.subrange(0, off) + bytes + data.subrange(off + 16, data.len() as int)
    } else {
        data
    }
}

impl Skylander {
    /// The tag UID: the first four bytes of sector 0, block 0.
    pub fn get_uid(&self) -> (uid: &[u8])
        ensures
            uid@ == self.data@.subrange(0, 4),
    {
        slice_subrange(self.data.as_slice(), 0, 4)
    }

    /// The 16 bytes of block `block` of sector `sector`, or zeros when that block is past the dump.
    pub fn get_block(&self, sector: u8, block: u8) -> (out: [u8; 16])
        ensures
            out@ == spec_block(self.data@, sector, block),
    {
        let idx: usize = (sector as usize * 4 + block as usize) * 16;
        let mut out: [u8; 16] = [0u8; 16];
        if idx + 16 <= SKYLANDER_DUMP_SIZE {
            let mut i: usize = 0;
            while i < 16
                invariant
                    idx + 16 <= SKYLANDER_DUMP_SIZE,
                    idx == block_offset(sector, block),
                    0 <= i <= 16,
                    forall|j: int| 0 <= j < i ==> #[trigger] out@[j] == self.data@[idx + j],
                    forall|j: int| i <= j < 16 ==> out@[j] == 0u8,
                decreases 16 - i,
            {
                out[i] = self.data[idx + i];
                i = i + 1;
            }
            assert(out@ =~= spec_block(self.data@, sector, block));
        } else {
            assert(out@ =~= zero_block());
        }
        out
    }

    /// Writes `data` over block `block` of sector `sector`; a block past the dump is ignored.
    pub fn set_block(&mut self, sector: u8, block: u8, data: &[u8; 16])
        ensures
            final(self).data@ == spec_write_block(old(self).data@, sector, block, data@),
            final(self).path == old(self).path,
    {
        let idx: usize = (sector as usize * 4 + block as usize) * 16;
        if idx + 16 <= SKYLANDER_DUMP_SIZE {
            let ghost before = self.data@;
            let mut i: usize = 0;
            while i < 16
                invariant
                    idx + 16 <= SKYLANDER_DUMP_SIZE,
                    idx == block_offset(sector, block),
                    0 <= i <= 16,
                    self.data@.len() == SKYLANDER_DUMP_SIZE,
                    before.len() == SKYLANDER_DUMP_SIZE,
                    self.path == old(self).path,
                    before == old(self).data@,
                    forall|j: int| 0 <= j < idx ==> self.data@[j] == before[j],
                    forall|j: int| idx + 16 <= j < SKYLANDER_DUMP_SIZE ==> self.data@[j] == before[j],
                    forall|k: int| idx <= k < idx + i ==> #[trigger] self.data@[k] == data@[k - idx],
                    forall|k: int| idx + i <= k < idx + 16 ==> #[trigger] self.data@[k] == before[k],
                decreases 16 - i,
            {
                self.data[idx + i] = data[i];
                i = i + 1;
            }
            assert(self.data@ =~= spec_write_block(before, sector, block, data@));
        }
    }
}

/// Reading a block gives back the bytes last written to it; the dump keeps its size.
pub proof fn lemma_read_after_write(data: Seq<u8>, sector: u8, block: u8, bytes: Seq<u8>)
    requires
        data.len() == SKYLANDER_DUMP_SIZE,
        bytes.len() == 16,
        block_in_dump(sector, block),
    ensures
        spec_write_block(data, sector, block, bytes).len() == SKYLANDER_DUMP_SIZE,
        spec_block(spec_write_block(data, sector, block, bytes), sector, block) == bytes,
{
    let w = spec_write_block(data, sector, block, bytes);
    let off = block_offset(sector, block);
    assert(w.subrange(off, off + 16) =~= bytes);
}

/// Writing a block leaves every block at another offset as it was.
pub proof fn lemma_write_keeps_other_blocks(data: Seq<u8>, sector: u8, block: u8, bytes: Seq<u8>, other_sector: u8, other_block: u8)
    requires
        data.len() == SKYLANDER_DUMP_SIZE,
        bytes.len() == 16,
        block_offset(other_sector, other_block) != block_offset(sector, block),
    ensures
        spec_block(spec_write_block(data, sector, block, bytes), other_sector, other_block)
            == spec_block(data, other_sector, other_block),
{
    let w = spec_write_block(data, sector, block, bytes);
    let off = block_offset(sector, block);
    let o2 = block_offset(other_sector, other_block);
    if block_in_dump(sector, block) && block_in_dump(other_sector, other_block) {
        assert(o2 + 16 <= off || off + 16 <= o2);
        assert(w.subrange(o2, o2 + 16) =~= data.subrange(o2, o2 + 16));
    }
}

/// A write past the end of the dump changes nothing.
pub proof fn lemma_write_past_dump_is_ignored(data: Seq<u8>, sector: u8, block: u8, bytes: Seq<u8>)
    requires
        !block_in_dump(sector, block),
    ensures
        spec_write_block(data, sector, block, bytes) == data,
{
}

} // verus!
