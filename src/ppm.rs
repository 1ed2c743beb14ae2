//! The plain (ASCII) PPM text of an image: a header naming the format, the
//! dimensions and the largest channel value, then one line per pixel with its
//! three channels as decimal integers, in row-major order from the top left.
use vstd::prelude::*;

verus! {

pub const NEWLINE: u8 = 10;

pub const SPACE: u8 = 32;

pub const MINUS: u8 = 45;

pub const DIGIT_ZERO: u8 = 48;

/// The decimal digits of `n`, without leading zeros.
pub open spec fn nat_text(n: nat) -> Seq<u8>
    decreases n,
{
    if n < 10 {
        seq![(DIGIT_ZERO + n) as u8]
    } else {
        nat_text(n / 10) + seq![(DIGIT_ZERO + n % 10) as u8]
    }
}

/// The decimal text of `n`, with a leading minus sign when negative.
pub open spec fn int_text(n: int) -> Seq<u8> {
    if n < 0 {
        seq![MINUS] + nat_text((-n) as nat)
    } else {
        nat_text(n as nat)
    }
}

/// The plain PPM magic number, the width and height, and the largest channel
/// value 255, each on a line of its own.
pub open spec fn header_text(width: int, height: int) -> Seq<u8> {
    seq![80u8, 51u8, NEWLINE] + int_text(width) + seq![SPACE] + int_text(height) + seq![
        NEWLINE,
        50u8,
        53u8,
        53u8,
        NEWLINE,
    ]
}

pub open spec fn color_text(r: int, g: int, b: int) -> Seq<u8> {
    int_text(r) + seq![SPACE] + int_text(g) + seq![SPACE] + int_text(b) + seq![NEWLINE]
}

/// The pixel lines of `pixels`, in order.
pub open spec fn pixels_text(pixels: Seq<(i32, i32, i32)>) -> Seq<u8>
    decreases pixels.len(),
{
    if pixels.len() == 0 {
        Seq::empty()
    } else {
        let p = pixels.last();
        pixels_text(pixels.drop_last()) + color_text(p.0 as int, p.1 as int, p.2 as int)
    }
}

pub open spec fn image_text(width: int, height: int, pixels: Seq<(i32, i32, i32)>) -> Seq<u8> {
    header_text(width, height) + pixels_text(pixels)
}

fn push_nat(out: &mut Vec<u8>, n: u32)
    ensures
        final(out)@ == old(out)@ + nat_text(n as nat),
    decreases n,
{
    if n >= 10 {
        push_nat(out, n / 10);
    }
    out.push(DIGIT_ZERO + (n % 10) as u8);
    assert(final(out)@ =~= old(out)@ + nat_text(n as nat));
}

fn push_int(out: &mut Vec<u8>, n: i32)
    ensures
        final(out)@ == old(out)@ + int_text(n as int),
{
    if n < 0 {
        out.push(MINUS);
        let m: u32 = (0i64 - n as i64) as u32;
        push_nat(out, m);
        assert(final(out)@ =~= old(out)@ + int_text(n as int));
    } else {
        push_nat(out, n as u32);
    }
}

/// Appends the header of an image of the given dimensions.
pub fn add_ppm_header(out: &mut Vec<u8>, img_width: i32, img_height: i32)
    ensures
        final(out)@ == old(out)@ + header_text(img_width as int, img_height as int),
{
    out.push(80u8);
    out.push(51u8);
    out.push(NEWLINE);
    push_int(out, img_width);
    out.push(SPACE);
    push_int(out, img_height);
    out.push(NEWLINE);
    out.push(50u8);
    out.push(53u8);
    out.push(53u8);
    out.push(NEWLINE);
    assert(final(out)@ =~= old(out)@ + header_text(img_width as int, img_height as int));
}

/// Appends the line of one pixel whose channels are already quantized.
pub fn add_color_line(out: &mut Vec<u8>, r: i32, g: i32, b: i32)
    ensures
        final(out)@ == old(out)@ + color_text(r as int, g as int, b as int),
{
    push_int(out, r);
    out.push(SPACE);
    push_int(out, g);
    out.push(SPACE);
    push_int(out, b);
    out.push(NEWLINE);
    assert(final(out)@ =~= old(out)@ + color_text(r as int, g as int, b as int));
}

/// The whole text of an image: the header, then the pixels in the order given.
pub fn encode_ppm(img_width: i32, img_height: i32, pixels: &Vec<(i32, i32, i32)>) -> (r: Vec<u8>)
    ensures
        r@ == image_text(img_width as int, img_height as int, pixels@),
{
    let mut out: Vec<u8> = Vec::new();
    add_ppm_header(&mut out, img_width, img_height);
    let mut i: usize = 0;
    while i < pixels.len()
        invariant
            i <= pixels.len(),
            out@ == header_text(img_width as int, img_height as int) + pixels_text(
                pixels@.take(i as int),
            ),
        decreases pixels.len() - i,
    {
        let (r, g, b) = pixels[i];
        add_color_line(&mut out, r, g, b);
        assert(pixels@.take(i as int + 1).drop_last() =~= pixels@.take(i as int));
        i = i + 1;
    }
    assert(pixels@.take(i as int) =~= pixels@);
    out
}

} // verus!
