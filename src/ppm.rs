use vstd::prelude::*;

verus! {

/// One pixel, each channel an 8-bit value.
#[derive(Clone, Copy, Debug, PartialEq, Eq, Structural)]
pub struct Rgb {
    pub r: u8,
    pub g: u8,
    pub b: u8,
}

/// ASCII `P`, the first byte of the magic number.
pub const MAGIC_LETTER: u8 = 80;

/// ASCII `3`, the second byte of the magic number: pixels as decimal text.
pub const MAGIC_DIGIT: u8 = 51;

/// ASCII code of the digit zero.
pub const DIGIT_ZERO: u8 = 48;

/// ASCII line feed, which ends each header line.
pub const NEWLINE: u8 = 10;

/// ASCII space, which follows every channel value.
pub const SPACE: u8 = 32;

/// The largest channel value, as written in the header.
pub const MAX_VALUE: u32 = 255;

/// The decimal digits of `n`, most significant first, without leading zeros.
pub open spec fn decimal(n: nat) -> Seq<u8>
    decreases n,
{
    if n < 10 {
        seq![(DIGIT_ZERO + n) as u8]
    } else {
        decimal(n / 10).push((DIGIT_ZERO + n % 10) as u8)
    }
}

/// The magic number that opens a plain-text pixel map: `P3`.
pub open spec fn magic() -> Seq<u8> {
    seq![MAGIC_LETTER, MAGIC_DIGIT]
}

/// The header: the magic number, the width, the height and the largest
/// channel value, each on its own line.
pub open spec fn header(width: nat, height: nat) -> Seq<u8> {
    magic().push(NEWLINE) + decimal(width).push(NEWLINE) + decimal(height).push(NEWLINE)
        + decimal(MAX_VALUE as nat).push(NEWLINE)
}

/// One pixel as text: its three channels, each followed by a space.
pub open spec fn triplet(p: Rgb) -> Seq<u8> {
    decimal(p.r as nat).push(SPACE) + decimal(p.g as nat).push(SPACE) + decimal(
        p.b as nat,
    ).push(SPACE)
}

/// The pixels as text, one triplet after another in the order given.
pub open spec fn pixel_text(pixels: Seq<Rgb>) -> Seq<u8>
    decreases pixels.len(),
{
    if pixels.len() == 0 {
        Seq::empty()
    } else {
        pixel_text(pixels.drop_last()) + triplet(pixels.last())
    }
}

/// A whole image: the header followed by every pixel.
pub open spec fn image_text(width: nat, height: nat, pixels: Seq<Rgb>) -> Seq<u8> {
    header(width, height) + pixel_text(pixels)
}

/// Appends the decimal digits of `n`.
pub fn push_decimal(out: &mut Vec<u8>, n: u32)
    ensures
        final(out)@ == old(out)@ + decimal(n as nat),
    decreases n,
{
    let ghost start = out@;
    if n >= 10 {
        push_decimal(out, n / 10);
    }
    out.push(DIGIT_ZERO + (n % 10) as u8);
    assert(out@ =~= start + decimal(n as nat));
}

/// Appends the header of a `width` by `height` image.
pub fn push_header(out: &mut Vec<u8>, width: u32, height: u32)
    ensures
        final(out)@ == old(out)@ + header(width as nat, height as nat),
{
    let ghost start = out@;
    out.push(MAGIC_LETTER);
    out.push(MAGIC_DIGIT);
    out.push(NEWLINE);
    push_decimal(out, width);
    out.push(NEWLINE);
    push_decimal(out, height);
    out.push(NEWLINE);
    push_decimal(out, MAX_VALUE);
    out.push(NEWLINE);
    assert(out@ =~= start + header(width as nat, height as nat));
}

/// Appends one pixel: its three channels, each followed by a space.
pub fn push_pixel(out: &mut Vec<u8>, p: Rgb)
    ensures
        final(out)@ == old(out)@ + triplet(p),
{
    let ghost start = out@;
    push_decimal(out, p.r as u32);
    out.push(SPACE);
    push_decimal(out, p.g as u32);
    out.push(SPACE);
    push_decimal(out, p.b as u32);
    out.push(SPACE);
    assert(out@ =~= start + triplet(p));
}

/// Encodes a `width` by `height` image whose pixels are given in raster
/// order (row by row, each row left to right) as a plain-text pixel map.
pub fn encode_image(width: u32, height: u32, pixels: &Vec<Rgb>) -> (bytes: Vec<u8>)
    requires
        pixels@.len() == width as int * height as int,
    ensures
        bytes@ == image_text(width as nat, height as nat, pixels@),
{
    let mut out: Vec<u8> = Vec::new();
    push_header(&mut out, width, height);
    let mut i: usize = 0;
    while i < pixels.len()
        invariant
            i <= pixels@.len(),
            out@ == header(width as nat, height as nat) + pixel_text(pixels@.take(i as int)),
        decreases pixels@.len() - i,
    {
        let ghost before = out@;
        push_pixel(&mut out, pixels[i]);
        assert(pixels@.take(i + 1).drop_last() =~= pixels@.take(i as int));
        assert(out@ =~= header(width as nat, height as nat) + pixel_text(pixels@.take(i + 1)));
        i = i + 1;
    }
    assert(pixels@.take(i as int) =~= pixels@);
    out
}

} // verus!
