//! The pixelflut wire protocol: the commands a client sends, and the reply
//! to a size query.
use vstd::prelude::*;

use crate::color::Color;
use crate::text::{ascii_bytes, decimal, hex_byte, hex_char, hex_digit};

verus! {

/// `ascii_bytes` distributes over concatenation.
pub proof fn lemma_ascii_bytes_concat(a: Seq<char>, b: Seq<char>)
    ensures
        ascii_bytes(a + b) == ascii_bytes(a) + ascii_bytes(b),
{
    assert(ascii_bytes(a + b) =~= ascii_bytes(a) + ascii_bytes(b));
}

/// The binary pixel record: `PB`, x and y as little endian 16 bit
/// integers, then the red, green, blue and alpha bytes.
pub open spec fn binary_pixel(x: u16, y: u16, c: Color) -> Seq<u8> {
    seq![
        0x50u8, 0x42u8,
        (x % 256) as u8, (x / 256) as u8,
        (y % 256) as u8, (y / 256) as u8,
        c.r, c.g, c.b, c.a,
    ]
}

/// The text pixel command `PX <x> <y> <hex>` and a newline.
pub open spec fn text_pixel(x: u16, y: u16, c: Color) -> Seq<u8> {
    ascii_bytes(
        seq!['P', 'X', ' '] + decimal(x as nat) + seq![' '] + decimal(y as nat) + seq![' ']
            + c.hex() + seq!['\n'],
    )
}

/// The command that sets pixel `(x, y)` to `c`, in binary or in text mode.
pub open spec fn pixel_command(x: u16, y: u16, c: Color, binary: bool) -> Seq<u8> {
    if binary {
        binary_pixel(x, y, c)
    } else {
        text_pixel(x, y, c)
    }
}

/// The size query: `SIZE` and a newline.
pub open spec fn size_query() -> Seq<u8> {
    ascii_bytes(seq!['S', 'I', 'Z', 'E', '\n'])
}

/// What a client sends before it disconnects: a newline that ends any
/// unfinished command, `QUIT`, and a newline.
pub open spec fn quit_command() -> Seq<u8> {
    ascii_bytes(seq!['\n', 'Q', 'U', 'I', 'T', '\n'])
}

/// Encodes the size query.
pub fn encode_size_query() -> (v: Vec<u8>)
    ensures
        v@ == size_query(),
{
    let v = vec![0x53u8, 0x49u8, 0x5au8, 0x45u8, 0x0au8];
    assert(v@ =~= size_query());
    v
}

/// Encodes the command sent before disconnecting.
pub fn encode_quit() -> (v: Vec<u8>)
    ensures
        v@ == quit_command(),
{
    let v = vec![0x0au8, 0x51u8, 0x55u8, 0x49u8, 0x54u8, 0x0au8];
    assert(v@ =~= quit_command());
    v
}

/// Appends the byte of an ASCII character.
fn push_ascii(v: &mut Vec<u8>, c: char)
    requires
        c as u32 <= 127,
    ensures
        final(v)@ == old(v)@ + ascii_bytes(seq![c]),
{
    v.push(c as u8);
    assert(final(v)@ =~= old(v)@ + ascii_bytes(seq![c]));
}

/// Appends the decimal digits of `n`.
fn push_decimal(v: &mut Vec<u8>, n: u16)
    ensures
        final(v)@ == old(v)@ + ascii_bytes(decimal(n as nat)),
    decreases n,
{
    if n >= 10 {
        push_decimal(v, n / 10);
    }
    let d = hex_char((n % 10) as u8);
    push_ascii(v, d);
    proof {
        if n >= 10 {
            lemma_ascii_bytes_concat(decimal((n / 10) as nat), seq![d]);
            assert(decimal(n as nat) == decimal((n / 10) as nat) + seq![d]);
        } else {
            assert(decimal(n as nat) == seq![d]);
        }
    }
}

/// Appends the two hexadecimal digits of `b`.
fn push_hex(v: &mut Vec<u8>, b: u8)
    ensures
        final(v)@ == old(v)@ + ascii_bytes(hex_byte(b)),
{
    let hi = hex_char(b / 16);
    let lo = hex_char(b % 16);
    push_ascii(v, hi);
    push_ascii(v, lo);
    proof {
        lemma_ascii_bytes_concat(seq![hi], seq![lo]);
        assert(seq![hi] + seq![lo] =~= hex_byte(b));
    }
}

/// Encodes the binary pixel record.
pub fn encode_binary_pixel(x: u16, y: u16, color: &Color) -> (v: Vec<u8>)
    ensures
        v@ == binary_pixel(x, y, *color),
        v@.len() == 10,
{
    let v = vec![
        0x50u8, 0x42u8,
        (x % 256) as u8, (x / 256) as u8,
        (y % 256) as u8, (y / 256) as u8,
        color.r, color.g, color.b, color.a,
    ];
    assert(v@ =~= binary_pixel(x, y, *color));
    v
}

/// Encodes the text pixel command, newline included.
pub fn encode_text_pixel(x: u16, y: u16, color: &Color) -> (v: Vec<u8>)
    ensures
        v@ == text_pixel(x, y, *color),
{
    let mut v: Vec<u8> = Vec::new();
    push_ascii(&mut v, 'P');
    push_ascii(&mut v, 'X');
    push_ascii(&mut v, ' ');
    push_decimal(&mut v, x);
    push_ascii(&mut v, ' ');
    push_decimal(&mut v, y);
    push_ascii(&mut v, ' ');
    push_hex(&mut v, color.r);
    push_hex(&mut v, color.g);
    push_hex(&mut v, color.b);
    if color.a != 255 {
        push_hex(&mut v, color.a);
    }
    push_ascii(&mut v, '\n');
    proof {
        let c = *color;
        let rgb = hex_byte(c.r) + hex_byte(c.g) + hex_byte(c.b);
        assert(seq!['P'] + seq!['X'] + seq![' '] =~= seq!['P', 'X', ' ']);
        lemma_ascii_bytes_concat(seq!['P'], seq!['X']);
        lemma_ascii_bytes_concat(seq!['P'] + seq!['X'], seq![' ']);
        lemma_ascii_bytes_concat(seq!['P', 'X', ' '], decimal(x as nat));
        let with_x = seq!['P', 'X', ' '] + decimal(x as nat);
        lemma_ascii_bytes_concat(with_x, seq![' ']);
        let with_gap = with_x + seq![' '];
        lemma_ascii_bytes_concat(with_gap, decimal(y as nat));
        let with_y = with_gap + decimal(y as nat);
        lemma_ascii_bytes_concat(with_y, seq![' ']);
        let with_gaps = with_y + seq![' '];
        lemma_ascii_bytes_concat(with_gaps, hex_byte(c.r));
        lemma_ascii_bytes_concat(with_gaps + hex_byte(c.r), hex_byte(c.g));
        lemma_ascii_bytes_concat(with_gaps + hex_byte(c.r) + hex_byte(c.g), hex_byte(c.b));
        let with_rgb = with_gaps + hex_byte(c.r) + hex_byte(c.g) + hex_byte(c.b);
        assert(with_rgb =~= with_gaps + rgb);
        lemma_ascii_bytes_concat(with_rgb, hex_byte(c.a));
        let with_hex = with_gaps + c.hex();
        if c.a != 255 {
            assert(with_rgb + hex_byte(c.a) =~= with_hex);
        }
        lemma_ascii_bytes_concat(with_hex, seq!['\n']);
        assert(with_hex + seq!['\n'] =~= seq!['P', 'X', ' '] + decimal(x as nat) + seq![' ']
            + decimal(y as nat) + seq![' '] + c.hex() + seq!['\n']);
    }
    v
}

/// Encodes the command that sets pixel `(x, y)` to `color`.
pub fn encode_pixel(x: u16, y: u16, color: &Color, binary: bool) -> (v: Vec<u8>)
    ensures
        v@ == pixel_command(x, y, *color, binary),
{
    if binary {
        encode_binary_pixel(x, y, color)
    } else {
        encode_text_pixel(x, y, color)
    }
}

} // verus!
