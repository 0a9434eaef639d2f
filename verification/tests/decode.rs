//! The decoder on notes written by hand.

use usdt_reader::address::read_usize_from_desc;
use usdt_reader::probe::{decode_one, is_stapsdt_owner, NT_STAPSDT};
use usdt_reader::text::{decode_text, find_terminator, read_cstr};
use usdt_reader::{AddressWidth, ByteOrder, Context, Field, Probe, RawNote, UsdtError};

fn word(v: u64, width: AddressWidth, order: ByteOrder) -> Vec<u8> {
    match (width, order) {
        (AddressWidth::Bits64, ByteOrder::LittleEndian) => v.to_le_bytes().to_vec(),
        (AddressWidth::Bits64, ByteOrder::BigEndian) => v.to_be_bytes().to_vec(),
        (AddressWidth::Bits32, ByteOrder::LittleEndian) => (v as u32).to_le_bytes().to_vec(),
        (AddressWidth::Bits32, ByteOrder::BigEndian) => (v as u32).to_be_bytes().to_vec(),
    }
}

fn desc(
    addrs: [u64; 3],
    provider: &[u8],
    probe: &[u8],
    args: &[u8],
    width: AddressWidth,
    order: ByteOrder,
) -> Vec<u8> {
    let mut out = Vec::new();
    for a in addrs {
        out.extend(word(a, width, order));
    }
    out.extend_from_slice(provider);
    out.push(0);
    out.extend_from_slice(probe);
    out.push(0);
    out.extend_from_slice(args);
    out.push(0);
    out
}

fn decode(desc: &[u8], width: AddressWidth, order: ByteOrder) -> Result<Probe, UsdtError> {
    decode_one(&RawNote { n_type: 3, name: b"stapsdt", desc }, width, order)
}

const LE: ByteOrder = ByteOrder::LittleEndian;
const BE: ByteOrder = ByteOrder::BigEndian;
const W32: AddressWidth = AddressWidth::Bits32;
const W64: AddressWidth = AddressWidth::Bits64;

#[test]
fn round_trip_of_a_known_note() {
    let d = desc([0x1000, 0x2000, 0], b"myapp", b"start", b"", W64, LE);
    let probe = decode(&d, W64, LE).unwrap();
    assert_eq!(probe.provider_name, "myapp");
    assert_eq!(probe.probe_name, "start");
    assert_eq!(probe.args_str, "");
    assert_eq!(probe.probe_addr, 0x1000);
    assert_eq!(probe.sh_addr, 0x2000);
    assert_eq!(probe.semaphore, 0);
    assert_eq!(probe.semaphore_offset, 0);
}

#[test]
fn round_trip_of_the_bytes_of_a_known_note() {
    let d: [u8; 37] = [
        0x00, 0x10, 0, 0, 0, 0, 0, 0, 0x00, 0x20, 0, 0, 0, 0, 0, 0, 0, 0, 0, 0, 0, 0, 0, 0, b'm',
        b'y', b'a', b'p', b'p', 0, b's', b't', b'a', b'r', b't', 0, 0,
    ];
    let probe = decode(&d, W64, LE).unwrap();
    assert_eq!(probe.provider_name, "myapp");
    assert_eq!(probe.probe_name, "start");
    assert_eq!(probe.args_str, "");
    assert_eq!(probe.probe_addr, 0x1000);
    assert_eq!(probe.sh_addr, 0x2000);
    assert_eq!(probe.semaphore, 0);
    assert_eq!(probe.semaphore_offset, 0);
}

#[test]
fn the_four_layouts_decode_to_the_same_probe() {
    for width in [W32, W64] {
        for order in [LE, BE] {
            let d = desc([0x0040_1136, 0x0040_2004, 0x0040_4028], b"myapp", b"request", b"8@%rdi", width, order);
            let probe = decode(&d, width, order).unwrap();
            assert_eq!(probe.provider_name, "myapp");
            assert_eq!(probe.probe_name, "request");
            assert_eq!(probe.args_str, "8@%rdi");
            assert_eq!(probe.probe_addr, 0x0040_1136);
            assert_eq!(probe.sh_addr, 0x0040_2004);
            assert_eq!(probe.semaphore, 0x0040_4028);
            assert_eq!(probe.semaphore_offset, 0x0040_4028);
        }
    }
}

#[test]
fn a_32_bit_layout_keeps_the_low_32_bits() {
    for order in [LE, BE] {
        let d = desc([0x1_2345_6789, 0xffff_ffff_0000_0001, 0x1_0000_0000], b"p", b"q", b"", W32, order);
        assert_eq!(d.len(), 12 + 5);
        let probe = decode(&d, W32, order).unwrap();
        assert_eq!(probe.probe_addr, 0x2345_6789);
        assert_eq!(probe.sh_addr, 1);
        assert_eq!(probe.semaphore, 0);
        assert_eq!(probe.semaphore_offset, 0);
    }
}

#[test]
fn the_wrong_order_gives_other_addresses() {
    let d = desc([0x1000, 0x2000, 0x3000], b"p", b"q", b"", W32, LE);
    let probe = decode(&d, W32, BE).unwrap();
    assert_eq!(probe.probe_addr, 0x0010_0000);
    assert_eq!(probe.sh_addr, 0x0020_0000);
    assert_eq!(probe.semaphore, 0x0030_0000);
}

#[test]
fn a_semaphore_is_handed_on_as_its_offset() {
    let d = desc([1, 2, 0xdead_beef_0000_0042], b"p", b"q", b"", W64, BE);
    let probe = decode(&d, W64, BE).unwrap();
    assert_eq!(probe.semaphore, 0xdead_beef_0000_0042);
    assert_eq!(probe.semaphore_offset, 0xdead_beef_0000_0042);
}

#[test]
fn bytes_behind_the_third_string_are_ignored() {
    let mut d = desc([1, 2, 3], b"p", b"q", b"r", W64, LE);
    d.extend_from_slice(&[0, 0, 0xff, b'x', 0]);
    let probe = decode(&d, W64, LE).unwrap();
    assert_eq!(probe.provider_name, "p");
    assert_eq!(probe.probe_name, "q");
    assert_eq!(probe.args_str, "r");
}

#[test]
fn text_of_several_bytes_a_character() {
    let d = desc([1, 2, 3], "caf\u{e9}".as_bytes(), "\u{65e5}\u{672c}".as_bytes(), "\u{1f600}".as_bytes(), W64, LE);
    let probe = decode(&d, W64, LE).unwrap();
    assert_eq!(probe.provider_name, "caf\u{e9}");
    assert_eq!(probe.probe_name, "\u{65e5}\u{672c}");
    assert_eq!(probe.args_str, "\u{1f600}");
    assert_eq!(probe.argument_format(), "\u{1f600}");
}

#[test]
fn a_payload_cut_off_in_a_string_is_truncated() {
    let full = desc([0x1000, 0x2000, 0], b"myapp", b"start", b"8@%rdi", W64, LE);
    assert!(decode(&full, W64, LE).is_ok());
    for cut in 0..full.len() {
        let r = decode(&full[..cut], W64, LE);
        assert!(matches!(r, Err(UsdtError::TruncatedNote)), "cut at {}", cut);
    }
}

#[test]
fn a_payload_cut_off_in_an_address_is_truncated() {
    let full = desc([0x1000, 0x2000, 0], b"myapp", b"start", b"", W32, BE);
    assert!(matches!(decode(&full[..11], W32, BE), Err(UsdtError::TruncatedNote)));
    assert!(matches!(decode(&full[..12], W32, BE), Err(UsdtError::TruncatedNote)));
    assert!(matches!(decode(&[], W32, BE), Err(UsdtError::TruncatedNote)));
    // Three 32-bit addresses and three strings are too short for a 64-bit object.
    assert!(matches!(decode(&full, W64, BE), Err(UsdtError::TruncatedNote)));
}

#[test]
fn a_missing_terminator_is_truncated() {
    let mut d = desc([1, 2, 3], b"myapp", b"start", b"args", W64, LE);
    d.pop();
    assert!(matches!(decode(&d, W64, LE), Err(UsdtError::TruncatedNote)));
}

#[test]
fn a_wrong_type_tag_is_malformed() {
    let d = desc([1, 2, 3], b"p", b"q", b"", W64, LE);
    for n_type in [0u32, 1, 2, 4, u32::MAX] {
        let r = decode_one(&RawNote { n_type, name: b"stapsdt", desc: &d }, W64, LE);
        assert!(matches!(r, Err(UsdtError::MalformedNote)));
    }
    assert_eq!(NT_STAPSDT, 3);
}

#[test]
fn a_wrong_owner_is_malformed() {
    let d = desc([1, 2, 3], b"p", b"q", b"", W64, LE);
    let owners: [&[u8]; 7] = [b"", b"GNU", b"stapsd", b"stapsdt2", b"stapsdx", b"Stapsdt", b"stapsdt\0"];
    for name in owners {
        let r = decode_one(&RawNote { n_type: 3, name, desc: &d }, W64, LE);
        assert!(matches!(r, Err(UsdtError::MalformedNote)));
    }
}

#[test]
fn the_signature_is_looked_at_first() {
    let r = decode_one(&RawNote { n_type: 1, name: b"stapsdt", desc: &[] }, W64, LE);
    assert!(matches!(r, Err(UsdtError::MalformedNote)));
}

#[test]
fn the_owner_of_a_probe_note() {
    assert!(is_stapsdt_owner(b"stapsdt"));
    assert!(!is_stapsdt_owner(b"stapsd"));
    assert!(!is_stapsdt_owner(b"stapsdtt"));
    assert!(!is_stapsdt_owner(b"stapsdT"));
    assert!(!is_stapsdt_owner(b""));
}

#[test]
fn a_note_without_provider_or_probe_name_is_malformed() {
    let d = desc([1, 2, 3], b"", b"q", b"", W64, LE);
    assert!(matches!(decode(&d, W64, LE), Err(UsdtError::MalformedNote)));
    let d = desc([1, 2, 3], b"p", b"", b"", W64, LE);
    assert!(matches!(decode(&d, W64, LE), Err(UsdtError::MalformedNote)));
    let d = desc([1, 2, 3], b"", b"", b"args", W64, LE);
    assert!(matches!(decode(&d, W64, LE), Err(UsdtError::MalformedNote)));
}

#[test]
fn the_argument_format_may_be_empty() {
    let d = desc([1, 2, 3], b"p", b"q", b"", W64, LE);
    let probe = decode(&d, W64, LE).unwrap();
    assert_eq!(probe.args_str, "");
    assert_eq!(probe.argument_format(), "");
}

#[test]
fn text_that_is_not_utf8_names_its_field() {
    let d = desc([1, 2, 3], b"p\xff", b"q", b"r", W64, LE);
    assert!(matches!(decode(&d, W64, LE), Err(UsdtError::InvalidText(Field::Provider))));
    let d = desc([1, 2, 3], b"p", b"\xc3", b"r", W64, LE);
    assert!(matches!(decode(&d, W64, LE), Err(UsdtError::InvalidText(Field::Probe))));
    let d = desc([1, 2, 3], b"p", b"q", b"\xed\xa0\x80", W64, LE);
    assert!(matches!(decode(&d, W64, LE), Err(UsdtError::InvalidText(Field::Arguments))));
}

#[test]
fn the_first_bad_field_is_named() {
    let d = desc([1, 2, 3], b"\x80", b"\x80", b"\x80", W64, LE);
    assert!(matches!(decode(&d, W64, LE), Err(UsdtError::InvalidText(Field::Provider))));
    let d = desc([1, 2, 3], b"p", b"\x80", b"\x80", W64, LE);
    assert!(matches!(decode(&d, W64, LE), Err(UsdtError::InvalidText(Field::Probe))));
}

#[test]
fn truncation_comes_before_bad_text() {
    let mut d = desc([1, 2, 3], b"\xff", b"q", b"r", W64, LE);
    d.pop();
    assert!(matches!(decode(&d, W64, LE), Err(UsdtError::TruncatedNote)));
}

#[test]
fn bad_text_comes_before_a_missing_name() {
    let d = desc([1, 2, 3], b"", b"q", b"\xff", W64, LE);
    assert!(matches!(decode(&d, W64, LE), Err(UsdtError::InvalidText(Field::Arguments))));
}

#[test]
fn addresses_little_endian() {
    let d = [0x00u8, 0x10, 0x00, 0x00, 0x88, 0x77, 0x66, 0x55, 0x44, 0x33, 0x22, 0x11];
    assert!(matches!(read_usize_from_desc(&d, 0, W32, LE), Ok(0x1000)));
    assert!(matches!(read_usize_from_desc(&d, 4, W64, LE), Ok(0x1122_3344_5566_7788)));
    assert!(matches!(read_usize_from_desc(&d, 0, W64, LE), Ok(0x5566_7788_0000_1000)));
    assert!(matches!(read_usize_from_desc(&d, 8, W32, LE), Ok(0x1122_3344)));
}

#[test]
fn addresses_big_endian() {
    let d = [0x00u8, 0x10, 0x00, 0x00, 0x88, 0x77, 0x66, 0x55, 0x44, 0x33, 0x22, 0x11];
    assert!(matches!(read_usize_from_desc(&d, 0, W32, BE), Ok(0x0010_0000)));
    assert!(matches!(read_usize_from_desc(&d, 4, W64, BE), Ok(0x8877_6655_4433_2211)));
    assert!(matches!(read_usize_from_desc(&d, 0, W64, BE), Ok(0x0010_0000_8877_6655)));
    assert!(matches!(read_usize_from_desc(&d, 8, W32, BE), Ok(0x4433_2211)));
}

#[test]
fn addresses_at_the_limits() {
    let d = [0xffu8; 8];
    assert!(matches!(read_usize_from_desc(&d, 0, W64, LE), Ok(u64::MAX)));
    assert!(matches!(read_usize_from_desc(&d, 0, W64, BE), Ok(u64::MAX)));
    assert!(matches!(read_usize_from_desc(&d, 4, W32, BE), Ok(0xffff_ffff)));
    assert!(matches!(read_usize_from_desc(&[0u8; 8], 0, W64, BE), Ok(0)));
}

#[test]
fn an_address_that_does_not_fit_is_truncated() {
    let d = [1u8, 2, 3, 4, 5, 6, 7];
    assert!(matches!(read_usize_from_desc(&d, 0, W64, LE), Err(UsdtError::TruncatedNote)));
    assert!(matches!(read_usize_from_desc(&d, 4, W32, LE), Err(UsdtError::TruncatedNote)));
    assert!(matches!(read_usize_from_desc(&d, 3, W32, LE), Ok(0x0706_0504)));
    assert!(matches!(read_usize_from_desc(&d, 7, W32, LE), Err(UsdtError::TruncatedNote)));
    assert!(matches!(read_usize_from_desc(&d, usize::MAX, W32, LE), Err(UsdtError::TruncatedNote)));
    assert!(matches!(read_usize_from_desc(&[], 0, W32, BE), Err(UsdtError::TruncatedNote)));
}

#[test]
fn address_widths() {
    assert_eq!(W32.bytes(), 4);
    assert_eq!(W64.bytes(), 8);
    assert_eq!(AddressWidth::from_is_64(true), W64);
    assert_eq!(AddressWidth::from_is_64(false), W32);
    assert_eq!(ByteOrder::from_little_endian(true), LE);
    assert_eq!(ByteOrder::from_little_endian(false), BE);
}

#[test]
fn the_first_zero_byte_ends_a_string() {
    let bytes = b"ab\0cd\0\0e";
    assert_eq!(find_terminator(bytes, 0), Some(2));
    assert_eq!(find_terminator(bytes, 2), Some(2));
    assert_eq!(find_terminator(bytes, 3), Some(5));
    assert_eq!(find_terminator(bytes, 6), Some(6));
    assert_eq!(find_terminator(bytes, 7), None);
    assert_eq!(find_terminator(bytes, 8), None);
    assert_eq!(find_terminator(bytes, 100), None);
    assert_eq!(find_terminator(b"", 0), None);
}

#[test]
fn strings_are_read_one_behind_the_other() {
    let bytes = b"ab\0cd\0\0e";
    let (text, next) = read_cstr(bytes, 0).unwrap();
    assert_eq!(text, b"ab");
    assert_eq!(next, 3);
    let (text, next) = read_cstr(bytes, next).unwrap();
    assert_eq!(text, b"cd");
    assert_eq!(next, 6);
    let (text, next) = read_cstr(bytes, next).unwrap();
    assert_eq!(text, b"");
    assert_eq!(next, 7);
    assert!(matches!(read_cstr(bytes, next), Err(UsdtError::TruncatedNote)));
    assert!(matches!(read_cstr(bytes, 9), Err(UsdtError::TruncatedNote)));
}

#[test]
fn text_is_utf8_or_names_its_field() {
    assert_eq!(decode_text(b"hello".to_vec(), Field::Provider).unwrap(), "hello");
    assert_eq!(decode_text("gr\u{fc}n".as_bytes().to_vec(), Field::Probe).unwrap(), "gr\u{fc}n");
    assert_eq!(decode_text(Vec::new(), Field::Arguments).unwrap(), "");
    assert!(matches!(
        decode_text(vec![0xc0, 0x80], Field::Provider),
        Err(UsdtError::InvalidText(Field::Provider))
    ));
    assert!(matches!(
        decode_text(vec![b'a', 0xf5], Field::Probe),
        Err(UsdtError::InvalidText(Field::Probe))
    ));
    assert!(matches!(
        decode_text(vec![0xe2, 0x82], Field::Arguments),
        Err(UsdtError::InvalidText(Field::Arguments))
    ));
}

#[test]
fn a_note_of_the_iterator_is_decoded() {
    let d = desc([0x10, 0x20, 0x30], b"app", b"tick", b"", W32, LE);
    let item = Ok(RawNote { n_type: 3, name: b"stapsdt", desc: &d });
    let probe = Context::parse_probe(item, W32, LE).unwrap();
    assert_eq!(probe.provider_name, "app");
    assert_eq!(probe.probe_name, "tick");
    assert_eq!(probe.probe_addr, 0x10);
    assert_eq!(probe.sh_addr, 0x20);
    assert_eq!(probe.semaphore, 0x30);
}

#[test]
fn an_error_of_the_iterator_is_handed_on() {
    let item = Err(goblin::error::Error::Malformed("note".to_string()));
    match Context::parse_probe(item, W64, LE) {
        Err(UsdtError::GoblinError(goblin::error::Error::Malformed(text))) => assert_eq!(text, "note"),
        other => panic!("unexpected result {:?}", other),
    }
    let item = Err(goblin::error::Error::BadMagic(7));
    assert!(matches!(
        Context::parse_probe(item, W32, BE),
        Err(UsdtError::GoblinError(goblin::error::Error::BadMagic(7)))
    ));
}
