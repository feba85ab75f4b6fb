use pixelpwnr::color::Color;
use pixelpwnr::flush::{FlushCounter, FlushMode, WritePlan};
use pixelpwnr::protocol::{encode_binary_pixel, encode_pixel, encode_quit, encode_size_query, encode_text_pixel};
use pixelpwnr::reply::{parse_screen_size, SizeError};

#[test]
fn hex_of_opaque_red() {
    assert_eq!(Color::from(255, 0, 0, 255).as_hex(), "FF0000");
}

#[test]
fn hex_of_translucent_red() {
    assert_eq!(Color::from(255, 0, 0, 128).as_hex(), "FF000080");
}

#[test]
fn hex_pads_and_uppercases() {
    assert_eq!(Color::from(1, 171, 15, 255).as_hex(), "01AB0F");
    assert_eq!(Color::from(0, 0, 0, 0).as_hex(), "00000000");
}

#[test]
fn binary_pixel_record() {
    let c = Color::from(1, 2, 3, 4);
    assert_eq!(
        encode_binary_pixel(300, 1, &c),
        vec![0x50, 0x42, 0x2C, 0x01, 0x01, 0x00, 0x01, 0x02, 0x03, 0x04]
    );
    assert_eq!(encode_pixel(300, 1, &c, true), encode_binary_pixel(300, 1, &c));
}

#[test]
fn binary_pixel_largest_coordinates() {
    let c = Color::from(9, 8, 7, 6);
    assert_eq!(
        encode_binary_pixel(65535, 256, &c),
        vec![0x50, 0x42, 0xFF, 0xFF, 0x00, 0x01, 9, 8, 7, 6]
    );
}

#[test]
fn text_pixel_command() {
    let red = Color::from(255, 0, 0, 255);
    assert_eq!(encode_text_pixel(12, 0, &red), b"PX 12 0 FF0000\n".to_vec());
    let c = Color::from(1, 2, 3, 4);
    assert_eq!(encode_pixel(300, 1, &c, false), b"PX 300 1 01020304\n".to_vec());
    assert_eq!(encode_text_pixel(65535, 10, &red), b"PX 65535 10 FF0000\n".to_vec());
}

#[test]
fn size_query_and_quit() {
    assert_eq!(encode_size_query(), b"SIZE\n".to_vec());
    assert_eq!(encode_quit(), b"\nQUIT\n".to_vec());
}

#[test]
fn size_reply_mixed_case() {
    assert_eq!(parse_screen_size("size 1920 1080"), Ok((1920, 1080)));
    assert_eq!(parse_screen_size("SiZe 1 2"), Ok((1, 2)));
}

#[test]
fn size_reply_not_numbers() {
    assert_eq!(parse_screen_size("SIZE abc def"), Err(SizeError::Malformed));
}

#[test]
fn size_reply_surrounding_whitespace() {
    assert_eq!(parse_screen_size("  \tSIZE   1920 \t 1080  \r\n"), Ok((1920, 1080)));
    assert_eq!(parse_screen_size("SIZE 800 600\n"), Ok((800, 600)));
}

#[test]
fn size_reply_malformed_shapes() {
    assert_eq!(parse_screen_size(""), Err(SizeError::Malformed));
    assert_eq!(parse_screen_size("SIZE1920 1080"), Err(SizeError::Malformed));
    assert_eq!(parse_screen_size("SIZE 1920"), Err(SizeError::Malformed));
    assert_eq!(parse_screen_size("SIZE 1920 1080 5"), Err(SizeError::Malformed));
    assert_eq!(parse_screen_size("SIZES 1 2"), Err(SizeError::Malformed));
    assert_eq!(parse_screen_size("SIZE -1 2"), Err(SizeError::Malformed));
}

#[test]
fn size_reply_out_of_range() {
    assert_eq!(parse_screen_size("SIZE 65536 10"), Err(SizeError::OutOfRange));
    assert_eq!(parse_screen_size("SIZE 10 99999999999999999999"), Err(SizeError::OutOfRange));
    assert_eq!(parse_screen_size("SIZE 065535 00010"), Ok((65535, 10)));
}

#[test]
fn size_reply_unicode_folding_and_spaces() {
    assert_eq!(parse_screen_size("\u{17f}ize 3 4"), Ok((3, 4)));
    assert_eq!(parse_screen_size("SIZE\u{a0}3\u{3000}4"), Ok((3, 4)));
}

#[test]
fn flush_bytes_policy() {
    let mut c = FlushCounter::new(FlushMode::Bytes(50));
    assert_eq!(c.plan(30), WritePlan { flush_before: false, flush_after: false });
    assert_eq!(c.pending(), 30);
    // 30 + 30 would exceed 50: flush first.
    assert_eq!(c.plan(30), WritePlan { flush_before: true, flush_after: false });
    assert_eq!(c.pending(), 30);
    // 30 + 20 hits 50 exactly: flush after.
    assert_eq!(c.plan(20), WritePlan { flush_before: false, flush_after: true });
    assert_eq!(c.pending(), 0);
}

#[test]
fn flush_bytes_oversized_command() {
    let mut c = FlushCounter::new(FlushMode::Bytes(10));
    assert_eq!(c.plan(18), WritePlan { flush_before: true, flush_after: false });
    assert_eq!(c.pending(), 18);
    assert_eq!(c.plan(1), WritePlan { flush_before: true, flush_after: false });
    assert_eq!(c.pending(), 1);
}

#[test]
fn flush_commands_policy() {
    let mut c = FlushCounter::new(FlushMode::Commands(2));
    assert_eq!(c.plan(100), WritePlan { flush_before: false, flush_after: false });
    assert_eq!(c.plan(7), WritePlan { flush_before: false, flush_after: true });
    assert_eq!(c.plan(7), WritePlan { flush_before: false, flush_after: false });
    c.reset();
    assert_eq!(c.pending(), 0);
    let mut each = FlushCounter::new(FlushMode::Commands(1));
    assert_eq!(each.plan(18), WritePlan { flush_before: false, flush_after: true });
    assert_eq!(each.plan(18), WritePlan { flush_before: false, flush_after: true });
}

#[test]
fn flush_manual_policy() {
    let mut c = FlushCounter::new(FlushMode::Manual);
    for _ in 0..100 {
        assert_eq!(c.plan(1000), WritePlan { flush_before: false, flush_after: false });
    }
    assert_eq!(c.pending(), 0);
    assert_eq!(c.mode(), FlushMode::Manual);
}
