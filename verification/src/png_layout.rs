//! The outer layout of a PNG file: signature, header chunk and the chain of
//! chunks behind it. It decides whether bytes are handed to the decoder.
//!
//! The decoder is written for well-formed files. It sizes its buffers once,
//! from the header and the transparency chunk in front of the image data,
//! and it counts in machine integers without testing for overflow. So it
//! may index out of bounds or run over a counter
//!
//! - on a header that pairs a colour type with a bit depth the format does
//!   not define,
//! - on a picture without pixels, or too large for the machine's integers,
//! - on a second header,
//! - on a transparency chunk that arrives behind image data,
//! - on the frame chunks of an animation, in a file of sixteen gibibytes or
//!   more.
//!
//! Such files are told apart here, before the decoder sees them, and with
//! them the files whose first chunk is not a header of thirteen bytes, which
//! the format forbids. Every other file is the decoder's to judge; the
//! chunks of an animation are passed over by it, so that an animated file
//! gives its first picture.

use vstd::prelude::*;

verus! {

/// Length of the signature that every PNG file starts with.
pub const SIGNATURE_LEN: usize = 8;

/// Where the first chunk behind the header chunk starts: after the
/// signature and a chunk of thirteen bytes with its length, type and
/// checksum.
pub const AFTER_HEADER: usize = 33;

/// Length of the data of a header chunk.
pub const HEADER_LEN: u32 = 13;

/// Bytes of a chunk beside its data: length, type and checksum.
pub const CHUNK_OVERHEAD: usize = 12;

/// The most bits the decoder counts for one pixel when it sizes a row:
/// four samples of sixteen bits.
pub const ROW_BITS_PER_PIXEL: u64 = 64;

/// The most bytes the decoder holds for one pixel in one buffer.
pub const BUFFER_BYTES_PER_PIXEL: u64 = 8;

/// The most samples of a pixel in the decoder's output.
pub const OUTPUT_SAMPLES: u64 = 4;

/// The length from which on a file may hold so many frame chunks that the
/// decoder's count of them, kept in thirty-two bits, runs over: each step
/// of the count takes at least four bytes of the file.
pub const MAX_ANIMATED_LEN: u64 = 0x4_0000_0000;

/// Type of the header chunk, `IHDR`.
pub const IHDR: u32 = 0x4948_4452;

/// Type of a chunk of image data, `IDAT`.
pub const IDAT: u32 = 0x4944_4154;

/// Type of the chunk that ends the file, `IEND`.
pub const IEND: u32 = 0x4945_4e44;

/// Type of the transparency chunk, `tRNS`.
pub const TRNS: u32 = 0x7452_4e53;

/// Type of the frame control chunk, `fcTL`.
pub const FCTL: u32 = 0x6663_544c;

/// Type of the frame data chunk, `fdAT`.
pub const FDAT: u32 = 0x6664_4154;

/// The four bytes from `at` on, read as one number, first byte highest.
pub open spec fn be32(bytes: Seq<u8>, at: int) -> nat {
    (bytes[at] as nat) * 0x100_0000 + (bytes[at + 1] as nat) * 0x1_0000 + (bytes[at + 2] as nat)
        * 0x100 + (bytes[at + 3] as nat)
}

/// The bytes start with the PNG signature.
pub open spec fn has_signature(bytes: Seq<u8>) -> bool {
    &&& bytes.len() >= SIGNATURE_LEN
    &&& bytes[0] == 137
    &&& bytes[1] == 80
    &&& bytes[2] == 78
    &&& bytes[3] == 71
    &&& bytes[4] == 13
    &&& bytes[5] == 10
    &&& bytes[6] == 26
    &&& bytes[7] == 10
}

/// The PNG format defines this pairing of colour type and bit depth:
/// greyscale with 1, 2, 4, 8 or 16 bits, palette indices with 1, 2, 4 or 8,
/// and colour or alpha samples with 8 or 16.
pub open spec fn defined_samples(colour_type: u8, bit_depth: u8) -> bool {
    if colour_type == 0 {
        bit_depth == 1 || bit_depth == 2 || bit_depth == 4 || bit_depth == 8 || bit_depth == 16
    } else if colour_type == 3 {
        bit_depth == 1 || bit_depth == 2 || bit_depth == 4 || bit_depth == 8
    } else if colour_type == 2 || colour_type == 4 || colour_type == 6 {
        bit_depth == 8 || bit_depth == 16
    } else {
        false
    }
}

/// A picture of this size fits the integers in which the decoder counts:
/// the bits of a row fit in `usize`, every buffer takes no more than half of
/// what `usize` can address, and the samples of a row of an interlaced
/// picture fit in thirty-two bits.
pub open spec fn fits_machine(width: nat, height: nat, interlaced: bool) -> bool {
    &&& ROW_BITS_PER_PIXEL * width <= usize::MAX
    &&& 2 * BUFFER_BYTES_PER_PIXEL * width * height <= usize::MAX
    &&& interlaced ==> OUTPUT_SAMPLES * width <= u32::MAX
}

/// The first chunk is a whole header chunk, and it declares a picture with
/// at least one pixel, of a size that fits the machine, and with samples the
/// format defines.
pub open spec fn header_accepted(bytes: Seq<u8>) -> bool {
    &&& bytes.len() >= AFTER_HEADER
    &&& be32(bytes, 8) == HEADER_LEN
    &&& be32(bytes, 12) == IHDR
    &&& 1 <= be32(bytes, 16)
    &&& 1 <= be32(bytes, 20)
    &&& fits_machine(be32(bytes, 16), be32(bytes, 20), bytes[28] != 0)
    &&& defined_samples(bytes[25], bytes[24])
}

/// A chunk of this type is refused in a file of `len` bytes: a second
/// header, a transparency chunk once the image data has begun, and a frame
/// chunk of an animation if the file is long enough for the count of frames
/// to run over.
pub open spec fn refused_kind(kind: nat, data_begun: bool, len: nat) -> bool {
    ||| kind == IHDR
    ||| (kind == TRNS && data_begun)
    ||| ((kind == FCTL || kind == FDAT) && len >= MAX_ANIMATED_LEN)
}

/// No chunk from `at` on is refused, where `data_begun` tells whether a
/// chunk of image data stands in front of `at`. The chain of chunks is
/// followed until a chunk ends the file or the bytes run out; each chunk is
/// as long as its length field says.
pub open spec fn chunks_accepted(bytes: Seq<u8>, at: int, data_begun: bool) -> bool
    decreases bytes.len() - at,
{
    if at < 0 || at + 8 > bytes.len() {
        true
    } else {
        let kind = be32(bytes, at + 4);
        let next = at + CHUNK_OVERHEAD + be32(bytes, at);
        &&& !refused_kind(kind, data_begun, bytes.len())
        &&& (kind == IEND || next > bytes.len() || chunks_accepted(
            bytes,
            next,
            data_begun || kind == IDAT,
        ))
    }
}

/// The bytes may be handed to the decoder: either they do not start with
/// the signature, so that the decoder turns them down at once, or their
/// header and their chunks are accepted.
pub open spec fn decodable(bytes: Seq<u8>) -> bool {
    has_signature(bytes) ==> header_accepted(bytes) && chunks_accepted(
        bytes,
        AFTER_HEADER as int,
        false,
    )
}

/// Reads four bytes as one number, first byte highest.
fn read_be32(bytes: &[u8], at: usize) -> (v: u32)
    requires
        at + 4 <= bytes@.len(),
    ensures
        v == be32(bytes@, at as int),
{
    let b0: u32 = bytes[at] as u32;
    let b1: u32 = bytes[at + 1] as u32;
    let b2: u32 = bytes[at + 2] as u32;
    let b3: u32 = bytes[at + 3] as u32;
    b0 * 0x100_0000 + b1 * 0x1_0000 + b2 * 0x100 + b3
}

/// Tells whether the bytes start with the PNG signature.
pub fn starts_with_signature(bytes: &[u8]) -> (b: bool)
    ensures
        b == has_signature(bytes@),
{
    bytes.len() >= SIGNATURE_LEN && bytes[0] == 137 && bytes[1] == 80 && bytes[2] == 78
        && bytes[3] == 71 && bytes[4] == 13 && bytes[5] == 10 && bytes[6] == 26 && bytes[7] == 10
}

/// Tells whether the format defines this pairing of colour type and bit
/// depth.
pub fn samples_are_defined(colour_type: u8, bit_depth: u8) -> (b: bool)
    ensures
        b == defined_samples(colour_type, bit_depth),
{
    if colour_type == 0 {
        bit_depth == 1 || bit_depth == 2 || bit_depth == 4 || bit_depth == 8 || bit_depth == 16
    } else if colour_type == 3 {
        bit_depth == 1 || bit_depth == 2 || bit_depth == 4 || bit_depth == 8
    } else if colour_type == 2 || colour_type == 4 || colour_type == 6 {
        bit_depth == 8 || bit_depth == 16
    } else {
        false
    }
}

/// Tells whether a picture of this size fits the integers in which the
/// decoder counts.
pub fn size_fits_machine(width: u32, height: u32, interlaced: bool) -> (b: bool)
    ensures
        b == fits_machine(width as nat, height as nat, interlaced),
{
    let w: u128 = width as u128;
    let h: u128 = height as u128;
    let limit: u128 = usize::MAX as u128;
    assert(0 <= 16 * w * h <= 16 * 0xffff_ffff * 0xffff_ffff) by (nonlinear_arith)
        requires
            0 <= w <= 0xffff_ffff,
            0 <= h <= 0xffff_ffff,
    ;
    assert(2 * BUFFER_BYTES_PER_PIXEL * w * h == 16 * w * h) by (nonlinear_arith);
    if 64 * w > limit {
        return false;
    }
    if 16 * w * h > limit {
        return false;
    }
    !interlaced || 4 * w <= 0xffff_ffff
}

/// Tells whether the header chunk is accepted.
pub fn header_is_accepted(bytes: &[u8]) -> (b: bool)
    ensures
        b == header_accepted(bytes@),
{
    if bytes.len() < AFTER_HEADER {
        return false;
    }
    if read_be32(bytes, 8) != HEADER_LEN || read_be32(bytes, 12) != IHDR {
        return false;
    }
    let width = read_be32(bytes, 16);
    let height = read_be32(bytes, 20);
    if width < 1 || height < 1 {
        return false;
    }
    size_fits_machine(width, height, bytes[28] != 0) && samples_are_defined(bytes[25], bytes[24])
}

/// Tells whether the chunks behind the header are accepted.
pub fn chunks_are_accepted(bytes: &[u8]) -> (b: bool)
    ensures
        b == chunks_accepted(bytes@, AFTER_HEADER as int, false),
{
    if bytes.len() < AFTER_HEADER {
        return true;
    }
    let mut at: usize = AFTER_HEADER;
    let mut data_begun = false;
    while bytes.len() - at >= 8
        invariant
            AFTER_HEADER <= at <= bytes@.len(),
            chunks_accepted(bytes@, AFTER_HEADER as int, false) == chunks_accepted(
                bytes@,
                at as int,
                data_begun,
            ),
        decreases bytes@.len() - at,
    {
        let kind = read_be32(bytes, at + 4);
        if kind == IHDR || (kind == TRNS && data_begun) {
            return false;
        }
        if (kind == FCTL || kind == FDAT) && bytes.len() as u64 >= MAX_ANIMATED_LEN {
            return false;
        }
        if kind == IEND {
            return true;
        }
        let length: u64 = read_be32(bytes, at) as u64;
        let left: usize = bytes.len() - at;
        if left < CHUNK_OVERHEAD || length > (left - CHUNK_OVERHEAD) as u64 {
            return true;
        }
        if kind == IDAT {
            data_begun = true;
        }
        at = at + CHUNK_OVERHEAD + length as usize;
    }
    true
}

/// Tells whether the bytes may be handed to the decoder.
pub fn is_decodable(bytes: &[u8]) -> (b: bool)
    ensures
        b == decodable(bytes@),
{
    if !starts_with_signature(bytes) {
        return true;
    }
    header_is_accepted(bytes) && chunks_are_accepted(bytes)
}

} // verus!
