//! Reassembly of Intel HEX records into 256-byte pages, in the order in
//! which the pages were first opened.
use vstd::prelude::*;

use vstd::string::StringSliceAdditionalSpecFns;

use crate::block::Block;
use crate::record::{decode_line, decode_record, RECORD_START};

verus! {

/// Mask that clears the offset of an address within its page.
pub const PAGE_MASK: u32 = 0xffff_ff00;
/// Mask that keeps the offset of an address within its page.
pub const OFFSET_MASK: u32 = 0xff;

/// Record type of a data record.
pub const RECORD_DATA: u8 = 0;
/// Record type of the end-of-file record.
pub const RECORD_EOF: u8 = 1;
/// Record type of an extended segment address record.
pub const RECORD_EXTENDED_SEGMENT: u8 = 2;
/// Record type of an extended linear address record.
pub const RECORD_EXTENDED_LINEAR: u8 = 4;

/// Why a conversion failed.
#[derive(Debug, Clone, Copy, PartialEq, Eq)]
pub enum ConvertError {
    /// A record decodes to fewer bytes than its fields need: under four
    /// bytes, or an address record without the two bytes of its value.
    RecordTooShort,
    /// The declared byte count differs from the number of payload bytes.
    ByteCountMismatch,
}

/// The abstract value of a block: its base address and its bytes.
pub struct BlockView {
    pub address: u32,
    pub bytes: Seq<u8>,
}

impl View for Block {
    type V = BlockView;

    open spec fn view(&self) -> BlockView {
        BlockView { address: self.address, bytes: self.bytes@ }
    }
}

/// State of the assembler between two byte writes.
pub struct AsmState {
    /// Offset added to the 16-bit address of every data record.
    pub upper: u32,
    /// The block being filled, if any.
    pub open: Option<BlockView>,
    /// The blocks already closed, in order.
    pub closed: Seq<BlockView>,
}

/// What one record line does to the assembler.
pub enum LineOutcome {
    /// Processing goes on with the next line from this state.
    Next(AsmState),
    /// An end-of-file record: processing ends in this state.
    Stop(AsmState),
    /// The conversion fails.
    Fail(ConvertError),
}

pub open spec fn page_of(address: u32) -> u32 {
    address & PAGE_MASK
}

pub open spec fn offset_in_page(address: u32) -> u32 {
    address & OFFSET_MASK
}

pub open spec fn zero_page() -> Seq<u8> {
    Seq::new(256, |i: int| 0u8)
}

/// The address after `address`, wrapping at the end of the 32-bit space.
pub open spec fn next_address(address: u32) -> u32 {
    if address == u32::MAX { 0 } else { (address + 1) as u32 }
}

pub open spec fn initial_state() -> AsmState {
    AsmState { upper: 0, open: None, closed: Seq::empty() }
}

/// Writes one byte at `address`, first closing the open block and opening a
/// fresh zeroed one when the address lies in another page.
pub open spec fn put_byte(st: AsmState, address: u32, value: u8) -> AsmState {
    let page = page_of(address);
    let (closed, blk) = match st.open {
        Some(b) => if page_of(b.address) == page {
            (st.closed, b)
        } else {
            (st.closed.push(b), BlockView { address: page, bytes: zero_page() })
        },
        None => (st.closed, BlockView { address: page, bytes: zero_page() }),
    };
    AsmState {
        upper: st.upper,
        open: Some(BlockView {
            address: blk.address,
            bytes: blk.bytes.update(offset_in_page(address) as int, value),
        }),
        closed,
    }
}

/// Writes `payload` at consecutive addresses from `address` on.
pub open spec fn write_payload(st: AsmState, address: u32, payload: Seq<u8>) -> AsmState
    decreases payload.len(),
{
    if payload.len() == 0 {
        st
    } else {
        write_payload(put_byte(st, address, payload[0]), next_address(address), payload.drop_first())
    }
}

/// The effect of one line. Lines that do not start with the record marker
/// are skipped; the checksum byte is decoded but never checked.
pub open spec fn step_line(st: AsmState, line: Seq<u8>) -> LineOutcome {
    if line.len() == 0 || line[0] != RECORD_START {
        LineOutcome::Next(st)
    } else {
        let d = decode_record(line);
        if d.len() < 4 {
            LineOutcome::Fail(ConvertError::RecordTooShort)
        } else if d[0] + 5 != d.len() {
            LineOutcome::Fail(ConvertError::ByteCountMismatch)
        } else if d[3] == RECORD_DATA {
            LineOutcome::Next(
                write_payload(
                    st,
                    (st.upper + d[1] * 256 + d[2]) as u32,
                    d.subrange(4, d.len() - 1),
                ),
            )
        } else if d[3] == RECORD_EOF {
            LineOutcome::Stop(st)
        } else if d[3] == RECORD_EXTENDED_SEGMENT || d[3] == RECORD_EXTENDED_LINEAR {
            if d.len() < 6 {
                LineOutcome::Fail(ConvertError::RecordTooShort)
            } else {
                let base = d[4] * 256 + d[5];
                let upper = if d[3] == RECORD_EXTENDED_SEGMENT { base * 16 } else { base * 65536 };
                LineOutcome::Next(AsmState { upper: upper as u32, ..st })
            }
        } else {
            LineOutcome::Next(st)
        }
    }
}

/// The blocks of a finished state: the closed ones, then the open one.
pub open spec fn finish(st: AsmState) -> Seq<BlockView> {
    match st.open {
        Some(b) => st.closed.push(b),
        None => st.closed,
    }
}

/// Processes `lines` in order from state `st`.
pub open spec fn run(st: AsmState, lines: Seq<Seq<u8>>) -> Result<Seq<BlockView>, ConvertError>
    decreases lines.len(),
{
    if lines.len() == 0 {
        Ok(finish(st))
    } else {
        match step_line(st, lines[0]) {
            LineOutcome::Next(next) => run(next, lines.drop_first()),
            LineOutcome::Stop(last) => Ok(finish(last)),
            LineOutcome::Fail(e) => Err(e),
        }
    }
}

/// The bytes of each line of text.
pub open spec fn line_bytes(lines: Seq<&str>) -> Seq<Seq<u8>> {
    lines.map_values(|l: &str| l.spec_bytes())
}

/// The blocks that a sequence of lines assembles into.
pub open spec fn assemble(lines: Seq<Seq<u8>>) -> Result<Seq<BlockView>, ConvertError> {
    run(initial_state(), lines)
}

pub open spec fn views(blocks: Seq<Block>) -> Seq<BlockView> {
    blocks.map_values(|b: Block| b@)
}

pub open spec fn open_view(current: Option<Block>) -> Option<BlockView> {
    match current {
        Some(b) => Some(b@),
        None => None,
    }
}

pub open spec fn state_of(upper: u32, current: Option<Block>, blocks: Seq<Block>) -> AsmState {
    AsmState { upper, open: open_view(current), closed: views(blocks) }
}

fn put_byte_exec(current: &mut Option<Block>, blocks: &mut Vec<Block>, upper: u32, address: u32, value: u8)
    ensures
        state_of(upper, *final(current), final(blocks)@)
            == put_byte(state_of(upper, *old(current), old(blocks)@), address, value),
{
    let page = address & PAGE_MASK;
    let need_new = match current {
        Some(b) => (b.address & PAGE_MASK) != page,
        None => true,
    };
    if need_new {
        if let Some(b) = current.take() {
            blocks.push(b);
        }
        *current = Some(Block::new(page));
    }
    let offset = address & OFFSET_MASK;
    assert(offset < 256) by (bit_vector)
        requires offset == address & 0xff;
    match current {
        Some(b) => b.set_byte(offset as usize, value),
        None => {},
    }
    assert(views(blocks@) =~= put_byte(state_of(upper, *old(current), old(blocks)@), address, value).closed);
}

/// Writes `d[start..end]` at consecutive addresses from `address` on.
fn write_payload_exec(
    current: &mut Option<Block>,
    blocks: &mut Vec<Block>,
    upper: u32,
    address: u32,
    d: &Vec<u8>,
    start: usize,
    end: usize,
)
    requires
        start <= end <= d@.len(),
    ensures
        state_of(upper, *final(current), final(blocks)@) == write_payload(
            state_of(upper, *old(current), old(blocks)@),
            address,
            d@.subrange(start as int, end as int),
        ),
{
    let ghost goal = write_payload(
        state_of(upper, *current, blocks@),
        address,
        d@.subrange(start as int, end as int),
    );
    let mut addr = address;
    let mut k = start;
    while k < end
        invariant
            start <= k <= end <= d@.len(),
            write_payload(state_of(upper, *current, blocks@), addr, d@.subrange(k as int, end as int)) == goal,
        decreases end - k,
    {
        let ghost before = state_of(upper, *current, blocks@);
        assert(d@.subrange(k as int, end as int).drop_first() =~= d@.subrange(k + 1, end as int));
        put_byte_exec(current, blocks, upper, addr, d[k]);
        addr = if addr == u32::MAX { 0 } else { addr + 1 };
        k = k + 1;
    }
    assert(d@.subrange(k as int, end as int) =~= Seq::<u8>::empty());
}

/// Assembles the blocks written by the records of `hex_lines`, in the order
/// in which their pages were first opened. Processing stops at the first
/// end-of-file record; any error aborts the whole conversion.
pub fn assemble_blocks(hex_lines: &[&str]) -> (r: Result<Vec<Block>, ConvertError>)
    ensures
        match assemble(line_bytes(hex_lines@)) {
            Ok(bs) => r is Ok && views(r->Ok_0@) == bs,
            Err(e) => r == Err::<Vec<Block>, ConvertError>(e),
        },
{
    let ghost all = line_bytes(hex_lines@);
    let mut upper: u32 = 0;
    let mut current: Option<Block> = None;
    let mut blocks: Vec<Block> = Vec::new();
    let mut stopped = false;
    let mut i: usize = 0;
    assert(all.subrange(0, all.len() as int) =~= all);
    assert(views(blocks@) =~= Seq::<BlockView>::empty());
    while i < hex_lines.len() && !stopped
        invariant
            i <= hex_lines@.len(),
            all == line_bytes(hex_lines@),
            upper <= 0xffff_0000,
            !stopped ==> run(state_of(upper, current, blocks@), all.subrange(i as int, all.len() as int))
                == assemble(all),
            stopped ==> Ok::<Seq<BlockView>, ConvertError>(finish(state_of(upper, current, blocks@)))
                == assemble(all),
        decreases hex_lines@.len() - i,
    {
        let ghost rest = all.subrange(i as int, all.len() as int);
        let ghost st = state_of(upper, current, blocks@);
        assert(rest.drop_first() =~= all.subrange(i + 1, all.len() as int));
        let line = hex_lines[i].as_bytes();
        assert(rest[0] == line@);
        if line.len() > 0 && line[0] == RECORD_START {
            let d = decode_line(line);
            if d.len() < 4 {
                return Err(ConvertError::RecordTooShort);
            }
            if d[0] as usize + 5 != d.len() {
                return Err(ConvertError::ByteCountMismatch);
            }
            let kind = d[3];
            if kind == RECORD_DATA {
                let address = upper + (d[1] as u32) * 256 + (d[2] as u32);
                write_payload_exec(&mut current, &mut blocks, upper, address, &d, 4, d.len() - 1);
            } else if kind == RECORD_EOF {
                stopped = true;
            } else if kind == RECORD_EXTENDED_SEGMENT || kind == RECORD_EXTENDED_LINEAR {
                if d.len() < 6 {
                    return Err(ConvertError::RecordTooShort);
                }
                let base = (d[4] as u32) * 256 + (d[5] as u32);
                assert(base <= 0xffff);
                if kind == RECORD_EXTENDED_SEGMENT {
                    assert(base * 16 <= 0xffff_0000) by (nonlinear_arith)
                        requires base <= 0xffff;
                    upper = base * 16;
                } else {
                    assert(base * 65536 <= 0xffff_0000) by (nonlinear_arith)
                        requires base <= 0xffff;
                    upper = base * 65536;
                }
                assert(state_of(upper, current, blocks@) == AsmState { upper, ..st });
            }
        }
        i = i + 1;
    }
    if !stopped {
        assert(all.subrange(i as int, all.len() as int) =~= Seq::<Seq<u8>>::empty());
    }
    let ghost last = state_of(upper, current, blocks@);
    if let Some(b) = current.take() {
        blocks.push(b);
    }
    assert(views(blocks@) =~= finish(last));
    Ok(blocks)
}

} // verus!
