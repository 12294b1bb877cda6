//! Images sent from the phone: the announcement that precedes the bytes, the
//! integrity check of the bytes, and their conversion into the bottom-up
//! BGRA device-independent bitmap the Windows clipboard takes.
use image::GenericImageView;
use vstd::prelude::*;
use vstd::utf8::encode_utf8;

use crate::crypto::{hex_digit, hex_lower, sha256, sha256_of, to_hex_lower};
use crate::ipc::le_u32_bytes;
use crate::protocol::utf8_len;
use crate::text::{ascii_lowercase, eq_ignore_ascii_case, str_equal};
use crate::PROTOCOL_VERSION;

verus! {

broadcast use vstd::string::group_string_axioms;

/// Largest image the phone may send as an original.
pub const MAX_IMAGE_BYTES: usize = 33554432;

/// Largest image the phone may send when it is not the original.
pub const MAX_RESIZED_IMAGE_BYTES: usize = 15728640;

/// Largest number of pixels an image may have.
pub const MAX_PIXELS: u64 = 40000000;

/// Announcement of an image that follows as one binary message.
#[derive(Debug, Clone, PartialEq, Eq)]
pub struct ImageStart {
    pub protocol_version: u16,
    pub transfer_id: String,
    pub phone_id: String,
    /// `"image/jpeg"` or `"image/png"`.
    pub mime_type: String,
    pub width: u32,
    pub height: u32,
    pub byte_length: usize,
    /// Hexadecimal SHA-256 of the bytes.
    pub sha256: String,
    /// Whether the phone sends the original file rather than a resized copy.
    pub original: bool,
}

/// Why an image announcement was refused.
#[derive(Debug, Clone, Copy, PartialEq, Eq, Structural)]
pub enum ImageError {
    InvalidMetadata,
}

pub open spec fn is_hex_byte(b: u8) -> bool {
    (48 <= b <= 57) || (65 <= b <= 70) || (97 <= b <= 102)
}

/// Sixty-four ASCII hexadecimal digits.
pub open spec fn is_sha256_text(text: Seq<char>) -> bool {
    &&& encode_utf8(text).len() == 64
    &&& forall|i: int| 0 <= i < encode_utf8(text).len() ==> is_hex_byte(#[trigger] encode_utf8(text)[i])
}

/// Whether a text is a hexadecimal SHA-256 digest (either case).
pub fn valid_sha256(value: &str) -> (valid: bool)
    ensures
        valid == is_sha256_text(value@),
{
    let bytes = value.as_bytes();
    if bytes.len() != 64 {
        return false;
    }
    let mut index: usize = 0;
    while index < bytes.len()
        invariant
            bytes@ == encode_utf8(value@),
            index <= bytes@.len(),
            forall|i: int| 0 <= i < index ==> is_hex_byte(#[trigger] bytes@[i]),
        decreases bytes.len() - index,
    {
        let b = bytes[index];
        if !((48 <= b && b <= 57) || (65 <= b && b <= 70) || (97 <= b && b <= 102)) {
            return false;
        }
        index += 1;
    }
    true
}

/// The size limit of an announced image.
pub open spec fn image_byte_limit(original: bool) -> usize {
    if original {
        MAX_IMAGE_BYTES
    } else {
        MAX_RESIZED_IMAGE_BYTES
    }
}

/// Whether an announcement is acceptable from the authenticated phone.
pub open spec fn image_start_valid(image: ImageStart, authenticated_phone_id: Seq<char>) -> bool {
    &&& image.protocol_version == PROTOCOL_VERSION
    &&& image.phone_id@ == authenticated_phone_id
    &&& image.transfer_id@.len() > 0
    &&& utf8_len(image.transfer_id@) <= 64
    &&& (image.mime_type@ == "image/jpeg"@ || image.mime_type@ == "image/png"@)
    &&& image.width > 0
    &&& image.height > 0
    &&& image.width * image.height <= MAX_PIXELS
    &&& image.byte_length > 0
    &&& image.byte_length <= image_byte_limit(image.original)
    &&& is_sha256_text(image.sha256@)
}

impl ImageStart {
    /// Checks an announcement: current protocol, the authenticated phone, a
    /// transfer id of 1 to 64 bytes, JPEG or PNG, non-empty dimensions of at
    /// most forty million pixels, a byte length within the limit (32 MiB for
    /// originals, 15 MiB otherwise), and a hexadecimal SHA-256.
    pub fn validate(&self, authenticated_phone_id: &str) -> (result: Result<(), ImageError>)
        ensures
            result is Ok <==> image_start_valid(*self, authenticated_phone_id@),
    {
        let max_bytes: usize = if self.original {
            MAX_IMAGE_BYTES
        } else {
            MAX_RESIZED_IMAGE_BYTES
        };
        if self.protocol_version != PROTOCOL_VERSION || !str_equal(
            self.phone_id.as_str(),
            authenticated_phone_id,
        ) || self.transfer_id.as_str().is_empty() || self.transfer_id.as_str().as_bytes().len() > 64 {
            return Err(ImageError::InvalidMetadata);
        }
        if !(str_equal(self.mime_type.as_str(), "image/jpeg") || str_equal(
            self.mime_type.as_str(),
            "image/png",
        )) || self.width == 0 || self.height == 0 {
            return Err(ImageError::InvalidMetadata);
        }
        let width = self.width as u64;
        let height = self.height as u64;
        assert(width * height <= 0xffff_ffff_ffff_ffff) by (nonlinear_arith)
            requires
                width <= 0xffff_ffff,
                height <= 0xffff_ffff,
        ;
        if width * height > MAX_PIXELS || self.byte_length == 0 || self.byte_length > max_bytes
            || !valid_sha256(self.sha256.as_str()) {
            return Err(ImageError::InvalidMetadata);
        }
        Ok(())
    }
}

/// Whether received bytes are the announced image: the announced length,
/// and a SHA-256 equal to the announced one regardless of letter case.
pub open spec fn image_bytes_match(image: ImageStart, bytes: Seq<u8>) -> bool {
    &&& bytes.len() == image.byte_length
    &&& hex_lower(sha256_of(bytes)) == ascii_lowercase(image.sha256@)
}

/// Checks received bytes against their announcement.
pub fn image_matches(image: &ImageStart, bytes: &[u8]) -> (matches: bool)
    ensures
        matches == image_bytes_match(*image, bytes@),
{
    if bytes.len() != image.byte_length {
        return false;
    }
    let digest = sha256(bytes);
    let actual = to_hex_lower(digest.as_slice());
    proof {
        lemma_hex_lower_has_no_capitals(digest@);
    }
    eq_ignore_ascii_case(actual.as_str(), image.sha256.as_str())
}

/// Hexadecimal text written in lower case is left alone by lower-casing.
proof fn lemma_hex_lower_has_no_capitals(bytes: Seq<u8>)
    ensures
        ascii_lowercase(hex_lower(bytes)) == hex_lower(bytes),
    decreases bytes.len(),
{
    if bytes.len() > 0 {
        lemma_hex_lower_has_no_capitals(bytes.drop_last());
        let head = hex_lower(bytes.drop_last());
        let tail = seq![hex_digit(bytes.last() as int / 16), hex_digit(bytes.last() as int % 16)];
        assert(ascii_lowercase(head + tail) =~= ascii_lowercase(head) + ascii_lowercase(tail));
        assert(ascii_lowercase(tail) =~= tail);
    }
}

/// The 40-byte BITMAPINFOHEADER of a 32-bit bottom-up bitmap: header size,
/// width, height, one plane, 32 bits per pixel, no compression, image size
/// (truncated to 32 bits), and zero resolution and palette fields.
pub open spec fn dib_header(width: u32, height: u32) -> Seq<u8> {
    le_u32_bytes(40) + le_u32_bytes(width as nat) + le_u32_bytes(height as nat) + seq![1u8, 0u8]
        + seq![32u8, 0u8] + le_u32_bytes(0) + le_u32_bytes(
        ((width * height * 4) % 0x1_0000_0000) as nat,
    ) + le_u32_bytes(0) + le_u32_bytes(0) + le_u32_bytes(0) + le_u32_bytes(0)
}

/// `count` pixels of an RGBA image from byte `start` on, each reordered
/// from red, green, blue, alpha to blue, green, red, alpha.
pub open spec fn bgra_pixels(rgba: Seq<u8>, start: int, count: nat) -> Seq<u8>
    decreases count,
{
    if count == 0 {
        Seq::empty()
    } else {
        let p = start + 4 * (count - 1);
        bgra_pixels(rgba, start, (count - 1) as nat) + seq![rgba[p + 2], rgba[p + 1], rgba[p], rgba[p + 3]]
    }
}

/// Row `row` of an RGBA image `width` pixels wide, in BGRA order.
pub open spec fn bgra_row(rgba: Seq<u8>, width: nat, row: nat) -> Seq<u8> {
    bgra_pixels(rgba, (row * width * 4) as int, width)
}

/// Rows `high - 1` down to `low`, one after the other.
pub open spec fn rows_downward(rgba: Seq<u8>, width: nat, high: nat, low: nat) -> Seq<u8>
    decreases high,
{
    if high <= low {
        Seq::empty()
    } else {
        bgra_row(rgba, width, (high - 1) as nat) + rows_downward(rgba, width, (high - 1) as nat, low)
    }
}

proof fn lemma_rows_downward_extend(rgba: Seq<u8>, width: nat, high: nat, low: nat)
    requires
        1 <= low <= high,
    ensures
        rows_downward(rgba, width, high, low) + bgra_row(rgba, width, (low - 1) as nat)
            == rows_downward(rgba, width, high, (low - 1) as nat),
    decreases high - low,
{
    if high == low {
        assert(rows_downward(rgba, width, high, low) =~= Seq::<u8>::empty());
        assert(rows_downward(rgba, width, (high - 1) as nat, (low - 1) as nat) =~= Seq::<u8>::empty());
        assert(rows_downward(rgba, width, high, low) + bgra_row(rgba, width, (low - 1) as nat)
            =~= rows_downward(rgba, width, high, (low - 1) as nat));
    } else {
        lemma_rows_downward_extend(rgba, width, (high - 1) as nat, low);
        assert(rows_downward(rgba, width, high, low) + bgra_row(rgba, width, (low - 1) as nat)
            =~= bgra_row(rgba, width, (high - 1) as nat) + (rows_downward(
            rgba,
            width,
            (high - 1) as nat,
            low,
        ) + bgra_row(rgba, width, (low - 1) as nat)));
    }
}

/// The bitmap `make_dib` builds: the header, then the rows from the bottom
/// one up, each pixel as blue, green, red, alpha.
pub open spec fn dib_of(rgba: Seq<u8>, width: u32, height: u32) -> Seq<u8> {
    dib_header(width, height) + rows_downward(rgba, width as nat, height as nat, 0)
}

fn push_le_u32(out: &mut Vec<u8>, value: u32)
    ensures
        final(out)@ == old(out)@ + le_u32_bytes(value as nat),
{
    out.push((value % 256) as u8);
    out.push(((value / 256) % 256) as u8);
    out.push(((value / 65536) % 256) as u8);
    out.push(((value / 16777216) % 256) as u8);
    proof {
        assert(final(out)@ =~= old(out)@ + le_u32_bytes(value as nat));
    }
}

/// Builds the bottom-up BGRA bitmap of an RGBA image of `width` x `height`
/// pixels.
pub fn make_dib(rgba: &[u8], width: u32, height: u32) -> (dib: Vec<u8>)
    requires
        width * height * 4 <= usize::MAX,
        rgba@.len() >= width * height * 4,
    ensures
        dib@ == dib_of(rgba@, width, height),
{
    let w = width as usize;
    let h = height as usize;
    assert(w * h <= w * h * 4) by (nonlinear_arith);
    let image_size: usize = w * h * 4;
    let mut dib: Vec<u8> = Vec::new();
    push_le_u32(&mut dib, 40);
    push_le_u32(&mut dib, width);
    push_le_u32(&mut dib, height);
    dib.push(1);
    dib.push(0);
    dib.push(32);
    dib.push(0);
    push_le_u32(&mut dib, 0);
    let truncated_size: u32 = ((image_size as u64) % 4294967296) as u32;
    push_le_u32(&mut dib, truncated_size);
    push_le_u32(&mut dib, 0);
    push_le_u32(&mut dib, 0);
    push_le_u32(&mut dib, 0);
    push_le_u32(&mut dib, 0);
    proof {
        assert(dib@ =~= dib_header(width, height));
    }
    let ghost header = dib@;
    let mut row: usize = h;
    while row > 0
        invariant
            w == width,
            h == height,
            image_size == w * h * 4,
            rgba@.len() >= image_size,
            row <= h,
            dib@ == header + rows_downward(rgba@, w as nat, h as nat, row as nat),
        decreases row,
    {
        let r = row - 1;
        assert(r * w * 4 + w * 4 <= image_size) by (nonlinear_arith)
            requires
                r < h,
                image_size == w * h * 4,
        ;
        let start: usize = r * w * 4;
        let mut column: usize = 0;
        let ghost before = dib@;
        while column < w
            invariant
                w == width,
                h == height,
                image_size == w * h * 4,
                rgba@.len() >= image_size,
                start == r * w * 4,
                start + w * 4 <= image_size,
                column <= w,
                dib@ == before + bgra_pixels(rgba@, start as int, column as nat),
            decreases w - column,
        {
            let p = start + column * 4;
            dib.push(rgba[p + 2]);
            dib.push(rgba[p + 1]);
            dib.push(rgba[p]);
            dib.push(rgba[p + 3]);
            proof {
                assert(dib@ =~= before + bgra_pixels(rgba@, start as int, (column + 1) as nat));
            }
            column += 1;
        }
        proof {
            lemma_rows_downward_extend(rgba@, w as nat, h as nat, row as nat);
        }
        row = r;
    }
    dib
}

/// The two image formats the phone sends.
#[derive(Debug, Clone, Copy, PartialEq, Eq, Structural)]
pub enum ImageKind {
    Jpeg,
    Png,
}

/// What `image::load_from_memory_with_format` decodes from bytes of a
/// format, as width, height and RGBA8 pixels (`DynamicImage::dimensions`,
/// `DynamicImage::to_rgba8`), or `None` where it reports an error.
pub uninterp spec fn decoded_rgba(bytes: Seq<u8>, kind: ImageKind) -> Option<(u32, u32, Seq<u8>)>;

/// Calls `image::load_from_memory_with_format` and converts the image it
/// returns to plain values. Besides naming the result, the contract states
/// that the RGBA buffer holds four bytes per pixel, as `RgbaImage` does.
#[verifier::external_body]
fn decode_image(bytes: &[u8], kind: ImageKind) -> (decoded: Option<(u32, u32, Vec<u8>)>)
    ensures
        match decoded {
            Some((w, h, pixels)) => decoded_rgba(bytes@, kind) == Some((w, h, pixels@))
                && pixels@.len() == w * h * 4,
            None => decoded_rgba(bytes@, kind) is None,
        },
{
    let format = match kind {
        ImageKind::Jpeg => image::ImageFormat::Jpeg,
        ImageKind::Png => image::ImageFormat::Png,
    };
    let image = image::load_from_memory_with_format(bytes, format).ok()?;
    let (width, height) = image.dimensions();
    Some((width, height, image.to_rgba8().into_raw()))
}

/// Why an image could not be put on the clipboard.
#[derive(Debug, Clone, Copy, PartialEq, Eq, Structural)]
pub enum ClipboardImageError {
    UnsupportedFormat,
    CannotDecode,
    InvalidDimensions,
}

/// The image format a MIME type names.
pub open spec fn image_kind_of(mime_type: Seq<char>) -> Option<ImageKind> {
    if mime_type == "image/jpeg"@ {
        Some(ImageKind::Jpeg)
    } else if mime_type == "image/png"@ {
        Some(ImageKind::Png)
    } else {
        None
    }
}

/// What `clipboard_bitmap` gives for an image.
pub open spec fn clipboard_bitmap_result(bytes: Seq<u8>, mime_type: Seq<char>) -> Result<Seq<u8>, ClipboardImageError> {
    match image_kind_of(mime_type) {
        None => Err(ClipboardImageError::UnsupportedFormat),
        Some(kind) => match decoded_rgba(bytes, kind) {
            None => Err(ClipboardImageError::CannotDecode),
            Some((w, h, pixels)) => if w == 0 || h == 0 || w * h > MAX_PIXELS {
                Err(ClipboardImageError::InvalidDimensions)
            } else {
                Ok(dib_of(pixels, w, h))
            },
        },
    }
}

/// Decodes a JPEG or PNG image and builds the clipboard bitmap of it; an
/// image without pixels or above forty million pixels is refused.
pub fn clipboard_bitmap(bytes: &[u8], mime_type: &str) -> (result: Result<Vec<u8>, ClipboardImageError>)
    ensures
        match result {
            Ok(dib) => clipboard_bitmap_result(bytes@, mime_type@) == Ok::<Seq<u8>, ClipboardImageError>(dib@),
            Err(e) => clipboard_bitmap_result(bytes@, mime_type@) == Err::<Seq<u8>, ClipboardImageError>(e),
        },
{
    let kind = if str_equal(mime_type, "image/jpeg") {
        ImageKind::Jpeg
    } else if str_equal(mime_type, "image/png") {
        ImageKind::Png
    } else {
        return Err(ClipboardImageError::UnsupportedFormat);
    };
    let (width, height, pixels) = match decode_image(bytes, kind) {
        Some(decoded) => decoded,
        None => return Err(ClipboardImageError::CannotDecode),
    };
    let w = width as u64;
    let h = height as u64;
    assert(w * h <= 0xffff_ffff_ffff_ffff) by (nonlinear_arith)
        requires
            w <= 0xffff_ffff,
            h <= 0xffff_ffff,
    ;
    if width == 0 || height == 0 || w * h > MAX_PIXELS {
        return Err(ClipboardImageError::InvalidDimensions);
    }
    assert(width * height * 4 <= usize::MAX) by {
        assert(pixels@.len() == width * height * 4);
    }
    Ok(make_dib(pixels.as_slice(), width, height))
}

} // verus!
