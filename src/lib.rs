//! Conversion of Intel HEX firmware images into UF2 images.
//!
//! Record lines are reassembled into 256-byte pages (`assemble`), and each
//! page is encoded as one 512-byte UF2 block (`block`).
use vstd::prelude::*;

pub mod assemble;
pub mod block;
pub mod families;
pub mod laws;
pub mod record;

use crate::assemble::{assemble, assemble_blocks, line_bytes, views, BlockView, ConvertError};
use crate::block::{encode_block, Block};
use crate::families::{family_id_of, get_family_id, ChipFamily};

verus! {

/// The encodings of the first `k` of `blocks`, numbered from zero, each
/// declaring `number_of_blocks` blocks in all.
pub open spec fn encode_prefix(
    blocks: Seq<BlockView>,
    k: nat,
    number_of_blocks: u32,
    family_id: Option<u32>,
) -> Seq<u8>
    decreases k,
{
    if k == 0 {
        Seq::empty()
    } else {
        encode_prefix(blocks, (k - 1) as nat, number_of_blocks, family_id) + encode_block(
            blocks[k - 1].address,
            blocks[k - 1].bytes,
            (k - 1) as u32,
            number_of_blocks,
            family_id,
        )
    }
}

/// The UF2 image of `blocks`: each block encoded in turn.
pub open spec fn uf2_image(blocks: Seq<BlockView>, family_id: Option<u32>) -> Seq<u8> {
    encode_prefix(blocks, blocks.len(), blocks.len() as u32, family_id)
}

/// The family id selected by an optional chip family.
pub open spec fn selected_family_id(family: Option<ChipFamily>) -> Option<u32> {
    match family {
        Some(f) => Some(family_id_of(f)),
        None => None,
    }
}

/// The result of converting `lines` with the given family id.
pub open spec fn convert(lines: Seq<Seq<u8>>, family_id: Option<u32>) -> Result<Seq<u8>, ConvertError> {
    match assemble(lines) {
        Ok(blocks) => Ok(uf2_image(blocks, family_id)),
        Err(e) => Err(e),
    }
}

/// Encodes `blocks` in order into one UF2 image.
pub fn encode_blocks(blocks: &Vec<Block>, family_id: Option<u32>) -> (r: Vec<u8>)
    ensures
        r@ == uf2_image(views(blocks@), family_id),
{
    let ghost bs = views(blocks@);
    let number_of_blocks = blocks.len() as u32;
    let mut out: Vec<u8> = Vec::new();
    let mut i: usize = 0;
    while i < blocks.len()
        invariant
            i <= blocks@.len(),
            bs == views(blocks@),
            number_of_blocks == blocks@.len() as u32,
            out@ == encode_prefix(bs, i as nat, number_of_blocks, family_id),
        decreases blocks@.len() - i,
    {
        let mut encoded = blocks[i].encode(i as u32, number_of_blocks, family_id);
        out.append(&mut encoded);
        i = i + 1;
    }
    out
}

/// Converts the lines of an Intel HEX file into a UF2 image, with the id of
/// `family` in every block when a family is given.
pub fn hex_to_uf2(hex_lines: &[&str], family: Option<ChipFamily>) -> (r: Result<Vec<u8>, ConvertError>)
    ensures
        match convert(line_bytes(hex_lines@), selected_family_id(family)) {
            Ok(image) => r is Ok && r->Ok_0@ == image,
            Err(e) => r == Err::<Vec<u8>, ConvertError>(e),
        },
{
    let family_id = match family {
        Some(f) => Some(get_family_id(f)),
        None => None,
    };
    match assemble_blocks(hex_lines) {
        Ok(blocks) => Ok(encode_blocks(&blocks, family_id)),
        Err(e) => Err(e),
    }
}

} // verus!
