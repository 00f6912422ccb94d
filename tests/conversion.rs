use hex_to_uf2::assemble::{assemble_blocks, ConvertError};
use hex_to_uf2::block::Block;
use hex_to_uf2::families::{get_family_id, ChipFamily};
use hex_to_uf2::record::{decode_line, hex_pair};
use hex_to_uf2::{encode_blocks, hex_to_uf2};

const UF2_MAGIC_START0: u32 = 0x0A324655;
const UF2_MAGIC_START1: u32 = 0x9E5D5157;
const UF2_MAGIC_END: u32 = 0x0AB16F30;

fn field(image: &[u8], block: usize, offset: usize) -> u32 {
    let at = 512 * block + offset;
    u32::from_le_bytes([image[at], image[at + 1], image[at + 2], image[at + 3]])
}

fn convert(text: &str, family: Option<ChipFamily>) -> Result<Vec<u8>, ConvertError> {
    let lines: Vec<&str> = text.lines().collect();
    hex_to_uf2(&lines, family)
}

#[test]
fn static_string() {
    let static_string = ":020000041000EA
:1000000000B5324B212058609868022188439860DF
:10001000D860186158612E4B002199600221596106
:100020000121F02299502B49196001219960352056
:1000300000F044F80222904214D00621196600F024
:1000400034F8196E01211966002018661A6600F04E
:100050002CF8196E196E196E052000F02FF8012189
:100060000842F9D1002199601B49196000215960AB";

    let uf2_bytes = convert(static_string, None);

    println!("{uf2_bytes:X?}");
    let image = uf2_bytes.unwrap();
    assert_eq!(image.len(), 512);
    assert_eq!(field(&image, 0, 12), 0x1000_0000);
    assert_eq!(&image[32..36], &[0x00, 0xB5, 0x32, 0x4B]);
    assert_eq!(&image[32 + 0x60..32 + 0x64], &[0x08, 0x42, 0xF9, 0xD1]);
    assert!(image[32 + 0x70..32 + 256].iter().all(|b| *b == 0));
}

#[test]
fn concrete_single_record() {
    let image = convert(":10001000D860186158612E4B002199600221596106", None).unwrap();
    assert_eq!(image.len(), 512);
    assert_eq!(field(&image, 0, 0), UF2_MAGIC_START0);
    assert_eq!(field(&image, 0, 4), UF2_MAGIC_START1);
    assert_eq!(field(&image, 0, 8), 0);
    assert_eq!(field(&image, 0, 12), 0);
    assert_eq!(field(&image, 0, 16), 256);
    assert_eq!(field(&image, 0, 20), 0);
    assert_eq!(field(&image, 0, 24), 1);
    assert_eq!(field(&image, 0, 28), 0);
    assert_eq!(field(&image, 0, 508), UF2_MAGIC_END);
    let payload = [
        0xD8, 0x60, 0x18, 0x61, 0x58, 0x61, 0x2E, 0x4B, 0x00, 0x21, 0x99, 0x60, 0x02, 0x21, 0x59,
        0x61,
    ];
    assert_eq!(&image[32 + 16..32 + 32], &payload);
    assert!(image[32..32 + 16].iter().all(|b| *b == 0));
    assert!(image[32 + 32..508].iter().all(|b| *b == 0));
}

#[test]
fn block_count_matches_length() {
    let text = ":0100000011EE\n:0101000022DC\n:0102000033CA\n:00000001FF";
    let image = convert(text, None).unwrap();
    assert_eq!(image.len(), 3 * 512);
    for i in 0..3 {
        assert_eq!(field(&image, i, 20), i as u32);
        assert_eq!(field(&image, i, 24), 3);
    }
}

#[test]
fn same_input_same_output() {
    let text = ":020000040800F2\n:04000000DEADBEEFC4\n:00000001FF";
    let a = convert(text, Some(ChipFamily::STM32F4)).unwrap();
    let b = convert(text, Some(ChipFamily::STM32F4)).unwrap();
    assert_eq!(a, b);
}

#[test]
fn pages_are_aligned() {
    let text = ":0200000400F00A\n:0400FE00AABBCCDDxx\n:00000001FF";
    let image = convert(text, None).unwrap();
    assert_eq!(image.len(), 2 * 512);
    assert_eq!(field(&image, 0, 12), 0x00F0_0000);
    assert_eq!(field(&image, 1, 12), 0x00F0_0100);
    assert_eq!(&image[32 + 0xFE..32 + 0x100], &[0xAA, 0xBB]);
    assert_eq!(&image[512 + 32..512 + 34], &[0xCC, 0xDD]);
    for i in 0..2 {
        assert_eq!(field(&image, i, 12) % 256, 0);
    }
}

#[test]
fn first_written_page_comes_first() {
    let text = ":0102000011EC\n:0100000022DD\n:00000001FF";
    let image = convert(text, None).unwrap();
    assert_eq!(image.len(), 2 * 512);
    assert_eq!(field(&image, 0, 12), 0x200);
    assert_eq!(field(&image, 1, 12), 0x000);
    assert_eq!(image[32], 0x11);
    assert_eq!(image[512 + 32], 0x22);
}

#[test]
fn revisited_page_opens_a_new_block() {
    let text = ":0100000011EE\n:0101000022DC\n:0100010033CB";
    let image = convert(text, None).unwrap();
    assert_eq!(image.len(), 3 * 512);
    assert_eq!(field(&image, 0, 12), 0x000);
    assert_eq!(field(&image, 1, 12), 0x100);
    assert_eq!(field(&image, 2, 12), 0x000);
    assert_eq!(image[2 * 512 + 32], 0);
    assert_eq!(image[2 * 512 + 33], 0x33);
}

#[test]
fn family_fields() {
    let text = ":0100000011EE\n:0101000022DC";
    let none = convert(text, None).unwrap();
    let rp = convert(text, Some(ChipFamily::RP2040)).unwrap();
    for i in 0..2 {
        assert_eq!(field(&none, i, 8), 0);
        assert_eq!(field(&none, i, 28), 0);
        assert_eq!(field(&rp, i, 8), 0x2000);
        assert_eq!(field(&rp, i, 28), 0xe48bff56);
    }
}

#[test]
fn family_id_zero_sets_no_flag() {
    let blocks = assemble_blocks(&[":0100000011EE"]).unwrap();
    let image = encode_blocks(&blocks, Some(0));
    assert_eq!(field(&image, 0, 8), 0);
    assert_eq!(field(&image, 0, 28), 0);
    let image = encode_blocks(&blocks, Some(7));
    assert_eq!(field(&image, 0, 8), 0x2000);
    assert_eq!(field(&image, 0, 28), 7);
}

#[test]
fn encoded_block_is_512_bytes() {
    let mut block = Block::new(0x2000_0000);
    block.bytes = [0xFF; 256];
    let encoded = block.encode(5, 9, None);
    assert_eq!(encoded.len(), 512);
    assert_eq!(field(&encoded, 0, 12), 0x2000_0000);
    assert_eq!(field(&encoded, 0, 20), 5);
    assert_eq!(field(&encoded, 0, 24), 9);
    assert!(encoded[32..288].iter().all(|b| *b == 0xFF));
    assert!(encoded[288..508].iter().all(|b| *b == 0));
    assert_eq!(Block::new(0).encode(0, 0, Some(1)).len(), 512);
}

#[test]
fn new_block_is_zeroed() {
    let block = Block::new(0x1234_5600);
    assert_eq!(block.address, 0x1234_5600);
    assert!(block.bytes.iter().all(|b| *b == 0));
}

#[test]
fn records_after_eof_are_ignored() {
    let with_tail = convert(":0100000011EE\n:00000001FF\n:0101000022DC\n:0", None).unwrap();
    let without = convert(":0100000011EE\n:00000001FF", None).unwrap();
    assert_eq!(with_tail, without);
    assert_eq!(with_tail.len(), 512);
}

#[test]
fn short_record_is_rejected() {
    assert_eq!(convert(":010000", None), Err(ConvertError::RecordTooShort));
    assert_eq!(convert(":", None), Err(ConvertError::RecordTooShort));
    assert_eq!(convert(":0100000011EE\n:01", None), Err(ConvertError::RecordTooShort));
}

#[test]
fn mismatched_byte_count_is_rejected() {
    assert_eq!(convert(":0200000011EE", None), Err(ConvertError::ByteCountMismatch));
    assert_eq!(convert(":00000000", None), Err(ConvertError::ByteCountMismatch));
}

#[test]
fn address_record_without_value_is_rejected() {
    assert_eq!(convert(":00000004FC", None), Err(ConvertError::RecordTooShort));
    assert_eq!(convert(":00000002FE", None), Err(ConvertError::RecordTooShort));
}

#[test]
fn extended_segment_address() {
    let image = convert(":020000021200EA\n:0100340055xx", None).unwrap();
    assert_eq!(field(&image, 0, 12), 0x12000);
    assert_eq!(image[32 + 0x34], 0x55);
}

#[test]
fn other_lines_and_record_types_are_skipped() {
    let text = "# comment\n\n:0400000508000000EF\n:0100000011EE";
    let image = convert(text, None).unwrap();
    assert_eq!(image.len(), 512);
    assert_eq!(image[32], 0x11);
}

#[test]
fn empty_input_gives_empty_image() {
    assert_eq!(convert("", None), Ok(vec![]));
    assert_eq!(convert(":00000001FF", None), Ok(vec![]));
}

#[test]
fn hex_pairs_are_lenient() {
    assert_eq!(hex_pair(b'a', b'F'), 0xAF);
    assert_eq!(hex_pair(b'0', b'9'), 0x09);
    assert_eq!(hex_pair(b'+', b'7'), 7);
    assert_eq!(hex_pair(b'G', b'1'), 0);
    assert_eq!(hex_pair(b'-', b'1'), 0);
    assert_eq!(decode_line(b":0A1b2"), vec![0x0A, 0x1B]);
    assert_eq!(decode_line(b":0A1b2c"), vec![0x0A, 0x1B, 0x2C]);
    assert_eq!(decode_line(b":"), Vec::<u8>::new());
}

#[test]
fn family_ids() {
    assert_eq!(get_family_id(ChipFamily::RP2040), 0xe48bff56);
    assert_eq!(get_family_id(ChipFamily::ATMEGA32), 0x16573617);
    assert_eq!(get_family_id(ChipFamily::STM32L4), 0x00ff6919);
    assert_eq!(get_family_id(ChipFamily::RA4M1), 0x7be8976d);
    assert_eq!(get_family_id(ChipFamily::Rp2350Riscv), 0xe48bff5a);
}
