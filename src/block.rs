//! A 256-byte page of flash and its 512-byte UF2 encoding.
use vstd::prelude::*;

verus! {

/// First start marker of every UF2 block ("UF2\n").
pub const UF2_MAGIC_START0: u32 = 0x0A324655;
/// Second start marker of every UF2 block.
pub const UF2_MAGIC_START1: u32 = 0x9E5D5157;
/// End marker of every UF2 block.
pub const UF2_MAGIC_END: u32 = 0x0AB16F30;
/// Flag bit saying that the family field holds a chip family id.
pub const FLAG_FAMILY_ID_PRESENT: u32 = 0x2000;
/// Number of payload bytes carried by every block.
pub const PAYLOAD_SIZE: u32 = 256;
/// Size of an encoded block.
pub const UF2_BLOCK_SIZE: usize = 512;

/// The four bytes of `x`, least significant first.
pub open spec fn le_bytes(x: u32) -> Seq<u8> {
    seq![
        (x % 256) as u8,
        ((x / 256) % 256) as u8,
        ((x / 65536) % 256) as u8,
        (x / 16777216) as u8,
    ]
}

/// The flags word: the family bit is set exactly for a present, nonzero family id.
pub open spec fn flags_for(family_id: Option<u32>) -> u32 {
    match family_id {
        Some(id) => if id == 0 { 0 } else { FLAG_FAMILY_ID_PRESENT },
        None => 0,
    }
}

/// The family/file id word: the family id if present, else zero.
pub open spec fn family_field(family_id: Option<u32>) -> u32 {
    match family_id {
        Some(id) => id,
        None => 0,
    }
}

/// The 32-byte header of a UF2 block.
pub open spec fn header_bytes(address: u32, block_no: u32, number_of_blocks: u32, family_id: Option<u32>) -> Seq<u8> {
    le_bytes(UF2_MAGIC_START0) + le_bytes(UF2_MAGIC_START1) + le_bytes(flags_for(family_id))
        + le_bytes(address) + le_bytes(PAYLOAD_SIZE) + le_bytes(block_no)
        + le_bytes(number_of_blocks) + le_bytes(family_field(family_id))
}

/// The UF2 encoding of a page: header, the page's bytes, zero padding up to
/// byte 508, and the end marker.
pub open spec fn encode_block(
    address: u32,
    data: Seq<u8>,
    block_no: u32,
    number_of_blocks: u32,
    family_id: Option<u32>,
) -> Seq<u8> {
    header_bytes(address, block_no, number_of_blocks, family_id) + data + Seq::new(220, |i: int| 0u8)
        + le_bytes(UF2_MAGIC_END)
}

/// Appends the little-endian bytes of `x` to `out`.
fn push_le(out: &mut Vec<u8>, x: u32)
    ensures
        final(out)@ == old(out)@ + le_bytes(x),
{
    out.push((x % 256) as u8);
    out.push(((x / 256) % 256) as u8);
    out.push(((x / 65536) % 256) as u8);
    out.push((x / 16777216) as u8);
    assert(final(out)@ =~= old(out)@ + le_bytes(x));
}

/// One page of target memory: a page-aligned base address and its 256 bytes.
pub struct Block {
    /// Address of the first byte of the page.
    pub address: u32,
    /// Contents of the page.
    pub bytes: [u8; 256],
}

impl Block {
    /// A block at `address` whose bytes are all zero.
    pub fn new(address: u32) -> (r: Block)
        ensures
            r.address == address,
            r.bytes@ == Seq::new(256, |i: int| 0u8),
    {
        let r = Block { address, bytes: [0u8; 256] };
        assert(r.bytes@ =~= Seq::new(256, |i: int| 0u8));
        r
    }

    pub fn set_byte(&mut self, offset: usize, value: u8)
        requires
            offset < 256,
        ensures
            final(self).address == old(self).address,
            final(self).bytes@ == old(self).bytes@.update(offset as int, value),
    {
        self.bytes[offset] = value;
    }

    /// Encodes this block as the `block_no`-th of `number_of_blocks` UF2 blocks.
    pub fn encode(&self, block_no: u32, number_of_blocks: u32, family_id: Option<u32>) -> (r: Vec<u8>)
        ensures
            r@ == encode_block(self.address, self.bytes@, block_no, number_of_blocks, family_id),
            r@.len() == UF2_BLOCK_SIZE,
    {
        let flags: u32 = match family_id {
            Some(0) => 0,
            Some(_) => FLAG_FAMILY_ID_PRESENT,
            None => 0,
        };
        let family: u32 = match family_id {
            Some(id) => id,
            None => 0,
        };
        let mut out: Vec<u8> = Vec::new();
        push_le(&mut out, UF2_MAGIC_START0);
        push_le(&mut out, UF2_MAGIC_START1);
        push_le(&mut out, flags);
        push_le(&mut out, self.address);
        push_le(&mut out, PAYLOAD_SIZE);
        push_le(&mut out, block_no);
        push_le(&mut out, number_of_blocks);
        push_le(&mut out, family);
        let ghost header = out@;
        assert(header =~= header_bytes(self.address, block_no, number_of_blocks, family_id));
        let mut i: usize = 0;
        while i < 256
            invariant
                i <= 256,
                out@ =~= header + self.bytes@.subrange(0, i as int),
            decreases 256 - i,
        {
            out.push(self.bytes[i]);
            i = i + 1;
        }
        let ghost with_data = out@;
        while out.len() < UF2_BLOCK_SIZE - 4
            invariant
                with_data.len() == 288,
                288 <= out@.len() <= 508,
                out@ =~= with_data + Seq::new((out@.len() - 288) as nat, |k: int| 0u8),
            decreases 508 - out@.len(),
        {
            out.push(0u8);
        }
        push_le(&mut out, UF2_MAGIC_END);
        assert(out@ =~= encode_block(self.address, self.bytes@, block_no, number_of_blocks, family_id));
        out
    }
}

} // verus!
