//! Writer for the plain-text pixel-triplet image format: a header line
//! `P3 {width} {height} 255`, then one line `R G B` per pixel, each channel
//! written as three zero-padded decimal digits.

use vstd::prelude::*;

verus! {

/// ASCII `0`; the digit `d` is written as `ZERO + d`.
pub const ZERO: u8 = 48;

/// ASCII space, between the fields of a line.
pub const SPACE: u8 = 32;

/// ASCII line feed, at the end of each line.
pub const NEWLINE: u8 = 10;

/// ASCII `P`, first byte of the format's magic number `P3`.
pub const MAGIC_P: u8 = 80;

/// ASCII `3`, second byte of the format's magic number `P3`.
pub const MAGIC_3: u8 = 51;

/// The largest channel value, stated in the header.
pub const MAX_CHANNEL: usize = 255;

/// Decimal digits of `n`, most significant first, without leading zeros.
pub open spec fn decimal(n: nat) -> Seq<u8>
    decreases n,
{
    if n < 10 {
        seq![(n + 48) as u8]
    } else {
        decimal(n / 10).push(((n % 10) + 48) as u8)
    }
}

/// The three zero-padded decimal digits of a channel value.
pub open spec fn channel_text(c: u8) -> Seq<u8> {
    seq![(c / 100 + 48) as u8, ((c / 10) % 10 + 48) as u8, (c % 10 + 48) as u8]
}

/// The header line of an image of the given size.
pub open spec fn header_text(width: nat, height: nat) -> Seq<u8> {
    seq![MAGIC_P, MAGIC_3, SPACE] + decimal(width) + seq![SPACE] + decimal(height) + seq![SPACE]
        + decimal(MAX_CHANNEL as nat) + seq![NEWLINE]
}

/// The line of one pixel.
pub open spec fn pixel_text(r: u8, g: u8, b: u8) -> Seq<u8> {
    channel_text(r) + seq![SPACE] + channel_text(g) + seq![SPACE] + channel_text(b) + seq![NEWLINE]
}

/// Appends the decimal digits of `n` to `out`.
fn push_decimal(out: &mut Vec<u8>, n: usize)
    ensures
        final(out)@ == old(out)@ + decimal(n as nat),
    decreases n,
{
    if n >= 10 {
        push_decimal(out, n / 10);
    }
    out.push(ZERO + (n % 10) as u8);
    assert(out@ =~= old(out)@ + decimal(n as nat));
}

/// Appends the three zero-padded digits of `c` to `out`.
fn push_channel(out: &mut Vec<u8>, c: u8)
    ensures
        final(out)@ == old(out)@ + channel_text(c),
{
    out.push(ZERO + c / 100);
    out.push(ZERO + (c / 10) % 10);
    out.push(ZERO + c % 10);
    assert(out@ =~= old(out)@ + channel_text(c));
}

/// Encodes an image into text. Bytes are buffered until `flush` hands them
/// out to whoever stores them.
pub struct ImageWriter {
    buffer: Vec<u8>,
}

impl ImageWriter {
    /// The bytes written and not yet flushed.
    pub closed spec fn pending(&self) -> Seq<u8> {
        self.buffer@
    }

    /// Starts an image of `width` by `height` pixels by writing its header.
    pub fn new(width: usize, height: usize) -> (w: ImageWriter)
        ensures
            w.pending() == header_text(width as nat, height as nat),
    {
        let mut buffer: Vec<u8> = Vec::new();
        buffer.push(MAGIC_P);
        buffer.push(MAGIC_3);
        buffer.push(SPACE);
        push_decimal(&mut buffer, width);
        buffer.push(SPACE);
        push_decimal(&mut buffer, height);
        buffer.push(SPACE);
        push_decimal(&mut buffer, MAX_CHANNEL);
        buffer.push(NEWLINE);
        assert(buffer@ =~= header_text(width as nat, height as nat));
        ImageWriter { buffer }
    }

    /// Writes the line of the next pixel, whose channels are already
    /// tone-mapped to bytes.
    pub fn write_pixel(&mut self, r: u8, g: u8, b: u8)
        ensures
            final(self).pending() == old(self).pending() + pixel_text(r, g, b),
    {
        push_channel(&mut self.buffer, r);
        self.buffer.push(SPACE);
        push_channel(&mut self.buffer, g);
        self.buffer.push(SPACE);
        push_channel(&mut self.buffer, b);
        self.buffer.push(NEWLINE);
        assert(self.buffer@ =~= old(self).pending() + pixel_text(r, g, b));
    }

    /// Hands out every byte written since the last flush, in order.
    pub fn flush(&mut self) -> (bytes: Vec<u8>)
        ensures
            bytes@ == old(self).pending(),
            final(self).pending() == Seq::<u8>::empty(),
    {
        let mut bytes: Vec<u8> = Vec::new();
        std::mem::swap(&mut self.buffer, &mut bytes);
        bytes
    }
}

} // verus!
