//! Preparing a texture: an encoded PNG becomes RGBA bytes, and the rows are
//! put bottom row first, which is the order the GPU expects.
//!
//! Bytes reach the decoder only if [`decodable`] holds of them; see
//! [`crate::png_layout`] for what that leaves out and why.

use crate::png_layout::{be32, decodable, has_signature, is_decodable};
use vstd::prelude::*;

verus! {

/// Bytes per pixel of an RGBA image with eight bits per channel.
pub const BYTES_PER_PIXEL: usize = 4;

/// What a [`Bitmap`] holds, as mathematical values.
pub struct BitmapView {
    pub width: nat,
    pub height: nat,
    pub data: Seq<u8>,
}

impl BitmapView {
    /// Length in bytes of one row of pixels.
    pub open spec fn row_len(self) -> nat {
        BYTES_PER_PIXEL as nat * self.width
    }

    /// The data holds exactly `height` rows of `width` pixels, and one row can
    /// be addressed.
    pub open spec fn wf(self) -> bool {
        &&& self.width <= u32::MAX
        &&& self.height <= u32::MAX
        &&& self.row_len() <= usize::MAX
        &&& self.data.len() == self.row_len() * self.height
    }
}

/// An RGBA image in memory, eight bits per channel, rows stored one after the
/// other without padding.
pub struct Bitmap {
    width: u32,
    height: u32,
    data: Vec<u8>,
}

impl View for Bitmap {
    type V = BitmapView;

    closed spec fn view(&self) -> BitmapView {
        BitmapView { width: self.width as nat, height: self.height as nat, data: self.data@ }
    }
}

/// Why a texture could not be prepared.
#[derive(Debug)]
pub enum TextureError {
    /// The bytes start as a PNG file, but with a layout that the format
    /// forbids or that the decoder cannot count, so that they are not handed to
    /// it.
    Unsupported,
    /// The bytes are not a PNG image that the decoder accepts.
    Decode(image::ImageError),
    /// The image has no columns, so it has no rows to reorder.
    ZeroWidth,
}

/// `data`, read as `rows` rows of `row_len` bytes, with the order of the rows
/// reversed and each row left as it is.
pub open spec fn flip_rows(data: Seq<u8>, row_len: nat, rows: nat) -> Seq<u8> {
    Seq::new(
        data.len(),
        |i: int| data[(rows - 1 - i / (row_len as int)) * row_len + i % (row_len as int)],
    )
}

/// The same image with its rows in the opposite vertical order.
pub open spec fn flipped(v: BitmapView) -> BitmapView {
    BitmapView { width: v.width, height: v.height, data: flip_rows(v.data, v.row_len(), v.height) }
}

// Trusted: what the `image` crate and glium do is stated here and not proved.

/// The error type of the `image` crate, carried through unopened.
#[verifier::external_type_specification]
#[verifier::external_body]
pub struct ExImageError(image::ImageError);

/// The image that `encoded` holds as a PNG, as the `image` crate decodes it
/// and converts it to RGBA: width, height, and the bytes of the pixels from
/// the top row down. `None` where the decoder rejects the bytes.
pub uninterp spec fn png_rgba(encoded: Seq<u8>) -> Option<(u32, u32, Seq<u8>)>;

/// Decodes a PNG held in memory with `image::load` and converts the picture
/// to RGBA with `DynamicImage::to_rgba`.
///
/// Trusted: the outcome is the one [`png_rgba`] names for these bytes. The
/// decoder accepts only bytes that start with the signature, and reports the
/// width and height it read from the header chunk. The converted buffer is
/// allocated by the `image` crate for exactly four bytes per pixel, after it
/// has checked that this length fits in `usize`.
///
/// The `png` crate behind `image::load` sizes its buffers from the header,
/// does not hold the header against the format's rules, and counts without
/// testing for overflow, so the bytes must be [`decodable`]: without that the
/// call may index out of bounds.
#[verifier::external_body]
fn decode_png(encoded: &[u8]) -> (r: Result<(u32, u32, Vec<u8>), image::ImageError>)
    requires
        decodable(encoded@),
    ensures
        match r {
            Ok((width, height, pixels)) => {
                &&& png_rgba(encoded@) == Some((width, height, pixels@))
                &&& has_signature(encoded@)
                &&& width == be32(encoded@, 16)
                &&& height == be32(encoded@, 20)
                &&& BYTES_PER_PIXEL * width <= usize::MAX
                &&& pixels@.len() == BYTES_PER_PIXEL * width * height
            },
            Err(_) => png_rgba(encoded@) is None,
        },
{
    match image::load(std::io::Cursor::new(encoded), image::PNG) {
        Ok(picture) => {
            let rgba = picture.to_rgba();
            let (width, height) = rgba.dimensions();
            Ok((width, height, rgba.into_raw()))
        },
        Err(e) => Err(e),
    }
}

/// Reverses the order of the rows with glium's
/// `RawImage2d::from_raw_rgba_reversed` and hands back the bytes it built.
///
/// Trusted: glium cuts `data` into chunks of four bytes per pixel of `width`,
/// and chains the chunks from the last to the first. The chunk length must
/// not be zero, and here the data is a whole number of rows.
#[verifier::external_body]
fn reverse_rows(data: &[u8], width: u32, height: u32) -> (r: Vec<u8>)
    requires
        width > 0,
        BYTES_PER_PIXEL * width <= usize::MAX,
        data@.len() == BYTES_PER_PIXEL * width * height,
    ensures
        r@ == flip_rows(data@, BYTES_PER_PIXEL as nat * width as nat, height as nat),
{
    glium::texture::RawImage2d::from_raw_rgba_reversed(data, (width, height)).data.into_owned()
}

// Verified from here on.

impl Bitmap {
    #[verifier::type_invariant]
    spec fn inv(&self) -> bool {
        self@.wf()
    }

    /// Builds a bitmap from its parts, if `data` has the length that the
    /// dimensions call for.
    pub fn new(width: u32, height: u32, data: Vec<u8>) -> (r: Option<Bitmap>)
        ensures
            r is Some <==> (BitmapView {
                width: width as nat,
                height: height as nat,
                data: data@,
            }).wf(),
            r matches Some(b) ==> b@ == (BitmapView {
                width: width as nat,
                height: height as nat,
                data: data@,
            }),
    {
        let row: u128 = (BYTES_PER_PIXEL as u128) * (width as u128);
        if row > usize::MAX as u128 {
            return None;
        }
        assert(0 <= row * height <= 0x4_0000_0000_0000_0000) by (nonlinear_arith)
            requires
                0 <= row <= 0x4_0000_0000,
                0 <= height <= 0x1_0000_0000,
        ;
        let expected: u128 = row * (height as u128);
        if data.len() as u128 != expected {
            return None;
        }
        Some(Bitmap { width, height, data })
    }

    /// Number of pixels in a row.
    pub fn width(&self) -> (w: u32)
        ensures
            w == self@.width,
            self@.wf(),
    {
        proof {
            use_type_invariant(self);
        }
        self.width
    }

    /// Number of rows.
    pub fn height(&self) -> (h: u32)
        ensures
            h == self@.height,
            self@.wf(),
    {
        proof {
            use_type_invariant(self);
        }
        self.height
    }

    /// The bytes of the image, row after row.
    pub fn data(&self) -> (d: &Vec<u8>)
        ensures
            d@ == self@.data,
            self@.wf(),
    {
        proof {
            use_type_invariant(self);
        }
        &self.data
    }

    /// Gives up the image for its bytes.
    pub fn into_data(self) -> (d: Vec<u8>)
        ensures
            d@ == self@.data,
            self@.wf(),
    {
        proof {
            use_type_invariant(&self);
        }
        self.data
    }
}

/// Puts the rows of an image that is stored top row first into the order
/// bottom row first. An image without columns is refused.
pub fn bottom_up(top_down: &Bitmap) -> (r: Result<Bitmap, TextureError>)
    ensures
        match r {
            Ok(b) => top_down@.width > 0 && b@ == flipped(top_down@),
            Err(e) => top_down@.width == 0 && e is ZeroWidth,
        },
{
    proof {
        use_type_invariant(top_down);
    }
    if top_down.width == 0 {
        return Err(TextureError::ZeroWidth);
    }
    let data = reverse_rows(top_down.data.as_slice(), top_down.width, top_down.height);
    Ok(Bitmap { width: top_down.width, height: top_down.height, data })
}

/// `r` is the outcome of preparing a texture from `encoded`: the decoded
/// image with its rows bottom row first, or the reason there is none.
pub open spec fn loads_as(encoded: Seq<u8>, r: Result<Bitmap, TextureError>) -> bool {
    if !decodable(encoded) {
        r matches Err(e) && e is Unsupported
    } else {
        match png_rgba(encoded) {
            Some((width, height, pixels)) => if width > 0 {
                r matches Ok(b) && b@ == flipped(
                    BitmapView { width: width as nat, height: height as nat, data: pixels },
                )
            } else {
                r matches Err(e) && e is ZeroWidth
            },
            None => r matches Err(e) && e is Decode,
        }
    }
}

/// Decodes a PNG and lays its pixels out for the GPU: RGBA, bottom row first.
/// Bytes that are not [`decodable`] are refused without being decoded. The
/// texture has the width and height that the header of the file declares.
pub fn load_png(encoded: &[u8]) -> (r: Result<Bitmap, TextureError>)
    ensures
        loads_as(encoded@, r),
        r matches Ok(b) ==> {
            &&& has_signature(encoded@)
            &&& b@.width == be32(encoded@, 16)
            &&& b@.height == be32(encoded@, 20)
        },
        r matches Err(e) ==> !(e is ZeroWidth),
{
    if !is_decodable(encoded) {
        return Err(TextureError::Unsupported);
    }
    match decode_png(encoded) {
        Ok((width, height, data)) => {
            let top_down = Bitmap { width, height, data };
            bottom_up(&top_down)
        },
        Err(e) => Err(TextureError::Decode(e)),
    }
}

/// Preparing a texture twice from the same bytes gives the same outcome: the
/// same dimensions and the same bytes, or a failure of the same kind.
pub proof fn lemma_load_is_repeatable(
    encoded: Seq<u8>,
    first: Result<Bitmap, TextureError>,
    second: Result<Bitmap, TextureError>,
)
    requires
        loads_as(encoded, first),
        loads_as(encoded, second),
    ensures
        first is Ok <==> second is Ok,
        first matches Ok(a) ==> second matches Ok(b) && a@ == b@,
        first matches Err(e) ==> second matches Err(f) && (e is Decode <==> f is Decode) && (e
            is Unsupported <==> f is Unsupported),
{
}

} // verus!
