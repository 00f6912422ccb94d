//! Properties of the conversion as a whole.
use vstd::prelude::*;

use crate::assemble::{
    assemble, finish, put_byte, run, step_line, write_payload, AsmState, BlockView, ConvertError,
    LineOutcome, initial_state, next_address, page_of, offset_in_page, zero_page,
};
use crate::block::{encode_block, flags_for, family_field, le_bytes, FLAG_FAMILY_ID_PRESENT};
use crate::record::{decode_record, RECORD_START};
use crate::{convert, encode_prefix, uf2_image};

verus! {

/// The `i`-th 512-byte block of an image.
pub open spec fn block_at(image: Seq<u8>, i: int) -> Seq<u8> {
    image.subrange(512 * i, 512 * i + 512)
}

/// The 32-bit field at byte `offset` of an encoded block.
pub open spec fn field_at(encoded: Seq<u8>, offset: int) -> Seq<u8> {
    encoded.subrange(offset, offset + 4)
}

/// Every block has a page-aligned address and exactly one page of bytes.
pub open spec fn blocks_well_formed(blocks: Seq<BlockView>) -> bool {
    forall|i: int| 0 <= i < blocks.len() ==> {
        &&& (#[trigger] blocks[i]).address % 256 == 0
        &&& blocks[i].bytes.len() == 256
    }
}

pub open spec fn state_well_formed(st: AsmState) -> bool {
    &&& blocks_well_formed(st.closed)
    &&& match st.open {
        Some(b) => b.address % 256 == 0 && b.bytes.len() == 256,
        None => true,
    }
}

proof fn lemma_page_aligned(address: u32)
    ensures
        page_of(address) % 256 == 0,
        offset_in_page(address) < 256,
{
    let p = address & 0xffff_ff00;
    assert(p % 256 == 0) by (bit_vector)
        requires p == address & 0xffff_ff00;
    let o = address & 0xff;
    assert(o < 256) by (bit_vector)
        requires o == address & 0xff;
}

proof fn lemma_put_byte_well_formed(st: AsmState, address: u32, value: u8)
    requires
        state_well_formed(st),
    ensures
        state_well_formed(put_byte(st, address, value)),
{
    lemma_page_aligned(address);
    let next = put_byte(st, address, value);
    assert forall|i: int| 0 <= i < next.closed.len() implies {
        &&& (#[trigger] next.closed[i]).address % 256 == 0
        &&& next.closed[i].bytes.len() == 256
    } by {
        if i < st.closed.len() {
            assert(next.closed[i] == st.closed[i]);
        } else {
            assert(next.closed[i] == st.open->Some_0);
        }
    }
    assert(zero_page().len() == 256);
}

proof fn lemma_write_payload_well_formed(st: AsmState, address: u32, payload: Seq<u8>)
    requires
        state_well_formed(st),
    ensures
        state_well_formed(write_payload(st, address, payload)),
    decreases payload.len(),
{
    if payload.len() > 0 {
        lemma_put_byte_well_formed(st, address, payload[0]);
        lemma_write_payload_well_formed(
            put_byte(st, address, payload[0]),
            next_address(address),
            payload.drop_first(),
        );
    }
}

proof fn lemma_run_well_formed(st: AsmState, lines: Seq<Seq<u8>>)
    requires
        state_well_formed(st),
    ensures
        run(st, lines) is Ok ==> blocks_well_formed(run(st, lines)->Ok_0),
    decreases lines.len(),
{
    if lines.len() == 0 {
        assert(blocks_well_formed(finish(st)));
    } else {
        let line = lines[0];
        if line.len() > 0 && line[0] == RECORD_START {
            let d = decode_record(line);
            if d.len() >= 4 && d[0] + 5 == d.len() && d[3] == 0 {
                lemma_write_payload_well_formed(
                    st,
                    (st.upper + d[1] * 256 + d[2]) as u32,
                    d.subrange(4, d.len() - 1),
                );
            }
        }
        match step_line(st, line) {
            LineOutcome::Next(next) => {
                lemma_run_well_formed(next, lines.drop_first());
            },
            LineOutcome::Stop(last) => {
                assert(blocks_well_formed(finish(last)));
            },
            LineOutcome::Fail(e) => {},
        }
    }
}

/// Every block that a conversion assembles is page-aligned and holds one
/// page of bytes.
pub proof fn lemma_assembled_blocks_well_formed(lines: Seq<Seq<u8>>)
    requires
        assemble(lines) is Ok,
    ensures
        blocks_well_formed(assemble(lines)->Ok_0),
{
    assert(blocks_well_formed(initial_state().closed));
    lemma_run_well_formed(initial_state(), lines);
}

/// The fields of one encoded block, by offset.
pub proof fn lemma_encoded_layout(
    address: u32,
    data: Seq<u8>,
    block_no: u32,
    number_of_blocks: u32,
    family_id: Option<u32>,
)
    requires
        data.len() == 256,
    ensures
        ({
            let e = encode_block(address, data, block_no, number_of_blocks, family_id);
            &&& e.len() == 512
            &&& field_at(e, 0) == le_bytes(crate::block::UF2_MAGIC_START0)
            &&& field_at(e, 4) == le_bytes(crate::block::UF2_MAGIC_START1)
            &&& field_at(e, 8) == le_bytes(flags_for(family_id))
            &&& field_at(e, 12) == le_bytes(address)
            &&& field_at(e, 16) == le_bytes(crate::block::PAYLOAD_SIZE)
            &&& field_at(e, 20) == le_bytes(block_no)
            &&& field_at(e, 24) == le_bytes(number_of_blocks)
            &&& field_at(e, 28) == le_bytes(family_field(family_id))
            &&& e.subrange(32, 288) == data
            &&& e.subrange(288, 508) == Seq::new(220, |i: int| 0u8)
            &&& field_at(e, 508) == le_bytes(crate::block::UF2_MAGIC_END)
        }),
{
    let e = encode_block(address, data, block_no, number_of_blocks, family_id);
    assert(field_at(e, 0) =~= le_bytes(crate::block::UF2_MAGIC_START0));
    assert(field_at(e, 4) =~= le_bytes(crate::block::UF2_MAGIC_START1));
    assert(field_at(e, 8) =~= le_bytes(flags_for(family_id)));
    assert(field_at(e, 12) =~= le_bytes(address));
    assert(field_at(e, 16) =~= le_bytes(crate::block::PAYLOAD_SIZE));
    assert(field_at(e, 20) =~= le_bytes(block_no));
    assert(field_at(e, 24) =~= le_bytes(number_of_blocks));
    assert(field_at(e, 28) =~= le_bytes(family_field(family_id)));
    assert(e.subrange(32, 288) =~= data);
    assert(e.subrange(288, 508) =~= Seq::new(220, |i: int| 0u8));
    assert(field_at(e, 508) =~= le_bytes(crate::block::UF2_MAGIC_END));
}

/// The image of well-formed blocks is their encodings laid end to end.
pub proof fn lemma_prefix_layout(
    blocks: Seq<BlockView>,
    k: nat,
    number_of_blocks: u32,
    family_id: Option<u32>,
)
    requires
        blocks_well_formed(blocks),
        k <= blocks.len(),
    ensures
        encode_prefix(blocks, k, number_of_blocks, family_id).len() == 512 * k,
        forall|i: int| 0 <= i < k ==> #[trigger] block_at(encode_prefix(blocks, k, number_of_blocks, family_id), i)
            == encode_block(blocks[i].address, blocks[i].bytes, i as u32, number_of_blocks, family_id),
    decreases k,
{
    if k > 0 {
        let k1 = (k - 1) as nat;
        lemma_prefix_layout(blocks, k1, number_of_blocks, family_id);
        let prev = encode_prefix(blocks, k1, number_of_blocks, family_id);
        let b = blocks[k - 1];
        lemma_encoded_layout(b.address, b.bytes, (k - 1) as u32, number_of_blocks, family_id);
        let cur = encode_prefix(blocks, k, number_of_blocks, family_id);
        assert forall|i: int| 0 <= i < k implies #[trigger] block_at(cur, i)
            == encode_block(blocks[i].address, blocks[i].bytes, i as u32, number_of_blocks, family_id) by {
            if i < k - 1 {
                assert(block_at(cur, i) =~= block_at(prev, i));
            } else {
                assert(block_at(cur, i) =~= encode_block(b.address, b.bytes, (k - 1) as u32, number_of_blocks, family_id));
            }
        }
    }
}

/// The number of blocks is the image's length over 512, and every block
/// declares that number as its total (for at most `u32::MAX` blocks, the
/// range of the field).
pub proof fn lemma_block_count(lines: Seq<Seq<u8>>, family_id: Option<u32>)
    requires
        assemble(lines) is Ok,
        assemble(lines)->Ok_0.len() <= u32::MAX,
    ensures
        convert(lines, family_id) is Ok,
        ({
            let image = convert(lines, family_id)->Ok_0;
            let total = image.len() / 512;
            &&& image.len() % 512 == 0
            &&& total == assemble(lines)->Ok_0.len()
            &&& forall|i: int| 0 <= i < total ==>
                #[trigger] field_at(block_at(image, i), 24) == le_bytes(total as u32)
        }),
{
    let blocks = assemble(lines)->Ok_0;
    let n = blocks.len();
    lemma_assembled_blocks_well_formed(lines);
    lemma_prefix_layout(blocks, n, n as u32, family_id);
    let image = uf2_image(blocks, family_id);
    assert(image.len() / 512 == n);
    assert forall|i: int| 0 <= i < n implies #[trigger] field_at(block_at(image, i), 24)
        == le_bytes(n as u32) by {
        lemma_encoded_layout(blocks[i].address, blocks[i].bytes, i as u32, n as u32, family_id);
    }
}

/// Converting equal inputs with the same family selection gives equal results.
pub proof fn lemma_deterministic(lines1: Seq<Seq<u8>>, lines2: Seq<Seq<u8>>, family_id: Option<u32>)
    requires
        lines1 == lines2,
    ensures
        convert(lines1, family_id) == convert(lines2, family_id),
{
}

/// Every assembled block starts on a page boundary, and its encoding carries
/// that address as its target address.
pub proof fn lemma_pages_aligned(lines: Seq<Seq<u8>>, family_id: Option<u32>)
    requires
        assemble(lines) is Ok,
    ensures
        ({
            let blocks = assemble(lines)->Ok_0;
            let image = convert(lines, family_id)->Ok_0;
            forall|i: int| 0 <= i < blocks.len() ==> {
                &&& (#[trigger] blocks[i]).address % 256 == 0
                &&& field_at(block_at(image, i), 12) == le_bytes(blocks[i].address)
            }
        }),
{
    let blocks = assemble(lines)->Ok_0;
    let n = blocks.len();
    lemma_assembled_blocks_well_formed(lines);
    lemma_prefix_layout(blocks, n, n as u32, family_id);
    let image = uf2_image(blocks, family_id);
    assert forall|i: int| 0 <= i < n implies {
        &&& (#[trigger] blocks[i]).address % 256 == 0
        &&& field_at(block_at(image, i), 12) == le_bytes(blocks[i].address)
    } by {
        assert(block_at(image, i) == encode_block(blocks[i].address, blocks[i].bytes, i as u32, n as u32, family_id));
        lemma_encoded_layout(blocks[i].address, blocks[i].bytes, i as u32, n as u32, family_id);
    }
}

/// Without a family id every block has zero flags and a zero family field;
/// with a nonzero id every block has the family flag and that id.
pub proof fn lemma_family_fields(lines: Seq<Seq<u8>>, family_id: Option<u32>)
    requires
        assemble(lines) is Ok,
    ensures
        ({
            let image = convert(lines, family_id)->Ok_0;
            forall|i: int| 0 <= i < assemble(lines)->Ok_0.len() ==> {
                &&& family_id is None ==> field_at(#[trigger] block_at(image, i), 8) == le_bytes(0)
                    && field_at(block_at(image, i), 28) == le_bytes(0)
                &&& family_id is Some && family_id->Some_0 != 0 ==>
                    field_at(block_at(image, i), 8) == le_bytes(FLAG_FAMILY_ID_PRESENT)
                    && field_at(block_at(image, i), 28) == le_bytes(family_id->Some_0)
            }
        }),
{
    let blocks = assemble(lines)->Ok_0;
    let n = blocks.len();
    lemma_assembled_blocks_well_formed(lines);
    lemma_prefix_layout(blocks, n, n as u32, family_id);
    let image = uf2_image(blocks, family_id);
    assert forall|i: int| 0 <= i < n implies {
        &&& family_id is None ==> field_at(#[trigger] block_at(image, i), 8) == le_bytes(0)
            && field_at(block_at(image, i), 28) == le_bytes(0)
        &&& family_id is Some && family_id->Some_0 != 0 ==>
            field_at(block_at(image, i), 8) == le_bytes(FLAG_FAMILY_ID_PRESENT)
            && field_at(block_at(image, i), 28) == le_bytes(family_id->Some_0)
    } by {
        lemma_encoded_layout(blocks[i].address, blocks[i].bytes, i as u32, n as u32, family_id);
    }
}

/// A well-formed end-of-file record.
pub open spec fn is_eof_record(line: Seq<u8>) -> bool {
    let d = decode_record(line);
    &&& line.len() > 0
    &&& line[0] == RECORD_START
    &&& d.len() >= 4
    &&& d[0] + 5 == d.len()
    &&& d[3] == crate::assemble::RECORD_EOF
}

proof fn lemma_run_ignores_after_eof(st: AsmState, before: Seq<Seq<u8>>, eof: Seq<u8>, after: Seq<Seq<u8>>)
    requires
        is_eof_record(eof),
    ensures
        run(st, before + seq![eof] + after) == run(st, before.push(eof)),
    decreases before.len(),
{
    let long = before + seq![eof] + after;
    let short = before.push(eof);
    if before.len() == 0 {
        assert(long[0] == eof);
        assert(short[0] == eof);
    } else {
        assert(long[0] == before[0]);
        assert(short[0] == before[0]);
        assert(long.drop_first() =~= before.drop_first() + seq![eof] + after);
        assert(short.drop_first() =~= before.drop_first().push(eof));
        match step_line(st, before[0]) {
            LineOutcome::Next(next) => {
                lemma_run_ignores_after_eof(next, before.drop_first(), eof, after);
            },
            _ => {},
        }
    }
}

/// Lines after an end-of-file record do not change the result.
pub proof fn lemma_eof_truncation(
    before: Seq<Seq<u8>>,
    eof: Seq<u8>,
    after: Seq<Seq<u8>>,
    family_id: Option<u32>,
)
    requires
        is_eof_record(eof),
    ensures
        convert(before + seq![eof] + after, family_id) == convert(before.push(eof), family_id),
{
    lemma_run_ignores_after_eof(initial_state(), before, eof, after);
}

/// A record line that decodes to fewer than four bytes fails the conversion
/// with `RecordTooShort`, whatever state the assembler is in when it gets there.
pub proof fn lemma_short_record_rejected(st: AsmState, line: Seq<u8>, rest: Seq<Seq<u8>>, family_id: Option<u32>)
    requires
        line.len() > 0,
        line[0] == RECORD_START,
        decode_record(line).len() < 4,
    ensures
        run(st, seq![line] + rest) == Err::<Seq<BlockView>, ConvertError>(ConvertError::RecordTooShort),
        convert(seq![line] + rest, family_id) == Err::<Seq<u8>, ConvertError>(ConvertError::RecordTooShort),
{
    assert((seq![line] + rest)[0] == line);
}

/// A well-formed data record.
pub open spec fn is_data_record(line: Seq<u8>) -> bool {
    let d = decode_record(line);
    &&& line.len() > 0
    &&& line[0] == RECORD_START
    &&& d.len() >= 4
    &&& d[0] + 5 == d.len()
    &&& d[3] == crate::assemble::RECORD_DATA
}

/// The 16-bit load address of a record.
pub open spec fn record_address(line: Seq<u8>) -> u32 {
    let d = decode_record(line);
    (d[1] * 256 + d[2]) as u32
}

/// The payload bytes of a record.
pub open spec fn record_payload(line: Seq<u8>) -> Seq<u8> {
    let d = decode_record(line);
    d.subrange(4, d.len() - 1)
}

/// A data record whose payload is not empty and lies within one page.
pub open spec fn writes_one_page(line: Seq<u8>) -> bool {
    &&& is_data_record(line)
    &&& record_payload(line).len() >= 1
    &&& offset_in_page(record_address(line)) + record_payload(line).len() <= 256
}

proof fn lemma_same_page_step(a: u32)
    requires
        offset_in_page(a) < 255,
    ensures
        a < u32::MAX,
        page_of(next_address(a)) == page_of(a),
        offset_in_page(next_address(a)) == offset_in_page(a) + 1,
{
    assert(a != 0xffff_ffff) by (bit_vector)
        requires (a & 0xff) < 255;
    let b = (a + 1) as u32;
    assert((b & 0xffff_ff00) == (a & 0xffff_ff00) && (b & 0xff) == (a & 0xff) + 1) by (bit_vector)
        requires
            (a & 0xff) < 255,
            b == a + 1,
    ;
}

proof fn lemma_page_idempotent(a: u32)
    ensures
        page_of(page_of(a)) == page_of(a),
{
    assert(((a & 0xffff_ff00) & 0xffff_ff00) == (a & 0xffff_ff00)) by (bit_vector);
}

/// Writing within the page of the open block keeps the closed blocks and
/// the open block's address.
proof fn lemma_write_in_page(st: AsmState, address: u32, payload: Seq<u8>)
    requires
        st.open is Some,
        st.open->Some_0.address == page_of(address),
        offset_in_page(address) + payload.len() <= 256,
    ensures
        ({
            let r = write_payload(st, address, payload);
            &&& r.upper == st.upper
            &&& r.closed == st.closed
            &&& r.open is Some
            &&& r.open->Some_0.address == page_of(address)
        }),
    decreases payload.len(),
{
    if payload.len() > 0 {
        lemma_page_idempotent(address);
        let next = put_byte(st, address, payload[0]);
        if payload.len() > 1 {
            lemma_same_page_step(address);
            lemma_write_in_page(next, next_address(address), payload.drop_first());
        }
    }
}

/// A record that writes within one page leaves exactly one open block on
/// that page, closing the previous open block if it was on another page.
proof fn lemma_write_record(st: AsmState, address: u32, payload: Seq<u8>)
    requires
        st.open is None || page_of(st.open->Some_0.address) != page_of(address),
        payload.len() >= 1,
        offset_in_page(address) + payload.len() <= 256,
    ensures
        ({
            let r = write_payload(st, address, payload);
            &&& r.upper == st.upper
            &&& r.closed == (match st.open {
                Some(b) => st.closed.push(b),
                None => st.closed,
            })
            &&& r.open is Some
            &&& r.open->Some_0.address == page_of(address)
        }),
{
    let next = put_byte(st, address, payload[0]);
    assert(write_payload(st, address, payload) == write_payload(next, next_address(address), payload.drop_first()));
    if payload.len() > 1 {
        lemma_same_page_step(address);
        lemma_write_in_page(next, next_address(address), payload.drop_first());
    } else {
        assert(write_payload(next, next_address(address), payload.drop_first()) == next);
    }
}

/// Blocks come out in the order in which their pages are first written, not
/// by address: a record writing page A followed by one writing another page
/// B yields block A, then block B.
pub proof fn lemma_first_write_order(first: Seq<u8>, second: Seq<u8>, family_id: Option<u32>)
    requires
        writes_one_page(first),
        writes_one_page(second),
        page_of(record_address(first)) != page_of(record_address(second)),
    ensures
        assemble(seq![first, second]) is Ok,
        ({
            let blocks = assemble(seq![first, second])->Ok_0;
            let image = convert(seq![first, second], family_id)->Ok_0;
            &&& blocks.len() == 2
            &&& blocks[0].address == page_of(record_address(first))
            &&& blocks[1].address == page_of(record_address(second))
            &&& field_at(block_at(image, 0), 12) == le_bytes(page_of(record_address(first)))
            &&& field_at(block_at(image, 1), 12) == le_bytes(page_of(record_address(second)))
        }),
{
    let lines = seq![first, second];
    let s0 = initial_state();
    let d1 = decode_record(first);
    let d2 = decode_record(second);
    assert((s0.upper + d1[1] * 256 + d1[2]) as u32 == record_address(first));
    lemma_write_record(s0, record_address(first), record_payload(first));
    let s1 = write_payload(s0, record_address(first), record_payload(first));
    assert(step_line(s0, first) == LineOutcome::Next(s1));
    assert(lines.drop_first() =~= seq![second]);
    assert((s1.upper + d2[1] * 256 + d2[2]) as u32 == record_address(second));
    lemma_page_idempotent(record_address(first));
    lemma_write_record(s1, record_address(second), record_payload(second));
    let s2 = write_payload(s1, record_address(second), record_payload(second));
    assert(step_line(s1, second) == LineOutcome::Next(s2));
    assert(seq![second].drop_first() =~= Seq::<Seq<u8>>::empty());
    assert(run(s1, seq![second]) == run(s2, Seq::<Seq<u8>>::empty()));
    assert(run(s0, lines) == run(s1, seq![second]));
    let blocks = finish(s2);
    assert(assemble(lines) == Ok::<Seq<BlockView>, ConvertError>(blocks));
    lemma_pages_aligned(lines, family_id);
}

} // verus!
