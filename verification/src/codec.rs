//! Screenshot Encoder: a pure transform from a raw RGBA8 framebuffer with
//! its dimensions to encoded PNG bytes.
//!
//! The engine delivers pixel rows bottom-to-top, while the output image
//! format is top-down, so the rows are flipped before encoding.  A buffer
//! whose length does not match the stated dimensions is an internal
//! consistency error from the capture step, never a user-facing one.

use vstd::prelude::*;
use vstd::arithmetic::div_mod::{
    lemma_fundamental_div_mod_converse_div, lemma_fundamental_div_mod_converse_mod,
};

verus! {

/// Bytes in one RGBA8 pixel row.
pub open spec fn row_len(width: nat) -> nat {
    4 * width
}

/// Bytes in a whole RGBA8 frame.
pub open spec fn frame_len(width: nat, height: nat) -> nat {
    row_len(width) * height
}

/// Where byte `i` of the vertically flipped frame comes from in the
/// original frame: same column, mirrored row.
pub open spec fn flip_index(i: int, width: nat, height: nat) -> int {
    let w = row_len(width) as int;
    (height - 1 - i / w) * w + i % w
}

/// The frame with its pixel rows in reverse order.
pub open spec fn flipped(s: Seq<u8>, width: nat, height: nat) -> Seq<u8> {
    Seq::new(s.len(), |i: int| s[flip_index(i, width, height)])
}

/// `flip_index` is an involution on valid byte positions of a frame.
pub proof fn lemma_flip_index_involutes(i: int, width: nat, height: nat)
    requires
        width > 0,
        0 <= i < frame_len(width, height),
    ensures
        0 <= flip_index(i, width, height) < frame_len(width, height),
        flip_index(flip_index(i, width, height), width, height) == i,
{
    let w = row_len(width) as int;
    let r = i / w;
    let c = i % w;
    vstd::arithmetic::div_mod::lemma_fundamental_div_mod(i, w);
    vstd::arithmetic::div_mod::lemma_mod_division_less_than_divisor(i, w);
    vstd::arithmetic::div_mod::lemma_div_pos_is_pos(i, w);
    assert(0 <= r && 0 <= c < w);
    assert(r < height) by {
        if r >= height {
            vstd::arithmetic::mul::lemma_mul_inequality(height as int, r, w);
            assert(w * height <= w * r) by (nonlinear_arith)
                requires height <= r, w > 0;
            assert(i >= w * height);
        }
    }
    let rf = height - 1 - r;
    let f = rf * w + c;
    assert(0 <= rf < height);
    assert(0 <= f < frame_len(width, height)) by (nonlinear_arith)
        requires
            f == rf * w + c,
            0 <= rf < height,
            0 <= c < w,
            frame_len(width, height) == w * height,
            w > 0;
    lemma_fundamental_div_mod_converse_div(f, w, rf, c);
    lemma_fundamental_div_mod_converse_mod(f, w, rf, c);
    assert(f / w == rf && f % w == c);
    assert(flip_index(f, width, height) == (height - 1 - rf) * w + c);
    assert((height - 1 - rf) == r);
    assert(r * w + c == i);
}

/// Law: flipping a frame's rows twice gives back the original frame, for
/// every buffer whose length matches its dimensions.  Together with the
/// encoder's contract this is the heart of the encode/decode round trip:
/// decoding and un-flipping an encoded screenshot reproduces the capture.
pub proof fn lemma_flip_involutes(s: Seq<u8>, width: nat, height: nat)
    requires
        s.len() == frame_len(width, height),
    ensures
        flipped(flipped(s, width, height), width, height) == s,
{
    let once = flipped(s, width, height);
    let twice = flipped(once, width, height);
    if width == 0 || height == 0 {
        let w = row_len(width) as int;
        assert(w * height == 0) by (nonlinear_arith)
            requires w == 0 || height == 0;
        assert(s.len() == 0);
        assert(twice =~= s);
    } else {
        assert forall|i: int| 0 <= i < s.len() implies twice[i] == s[i] by {
            lemma_flip_index_involutes(i, width, height);
            let f = flip_index(i, width, height);
            lemma_flip_index_involutes(f, width, height);
            assert(twice[i] == once[f]);
            assert(once[f] == s[flip_index(f, width, height)]);
        }
        assert(twice =~= s);
    }
}

/// Reverse the pixel rows of a raw RGBA8 frame: row `r` of the result is
/// row `height - 1 - r` of the input.
pub fn flip_rows(pixels: &Vec<u8>, width: u32, height: u32) -> (out: Vec<u8>)
    requires
        pixels@.len() == frame_len(width as nat, height as nat),
    ensures
        out@ == flipped(pixels@, width as nat, height as nat),
{
    let len: usize = pixels.len();
    if width == 0 || height == 0 {
        assert(len == 0) by {
            assert(frame_len(width as nat, height as nat) == 0) by (nonlinear_arith)
                requires width == 0 || height == 0;
        }
        let out: Vec<u8> = Vec::new();
        assert(out@ =~= flipped(pixels@, width as nat, height as nat));
        return out;
    }
    let ghost wg: int = row_len(width as nat) as int;
    assert(4 * (width as int) <= len) by (nonlinear_arith)
        requires
            len == 4 * (width as int) * (height as int),
            width >= 1,
            height >= 1;
    let row: usize = 4 * (width as usize);
    let h: usize = height as usize;
    let mut out: Vec<u8> = Vec::new();
    let mut r: usize = 0;
    while r < h
        invariant
            h == height,
            row == wg,
            wg == 4 * (width as int),
            width >= 1,
            height >= 1,
            pixels@.len() == len,
            len == wg * (height as int),
            r <= h,
            out@.len() == r * wg,
            forall|j: int|
                0 <= j < r * wg ==> out@[j] == pixels@[flip_index(
                    j,
                    width as nat,
                    height as nat,
                )],
        decreases h - r,
    {
        let src_row: usize = h - 1 - r;
        assert((src_row as int) * wg + wg <= len && (r as int) * wg + wg <= len)
            by (nonlinear_arith)
            requires
                len == wg * (height as int),
                wg > 0,
                src_row < height,
                r < height;
        let base: usize = src_row * row;
        let mut c: usize = 0;
        while c < row
            invariant
                h == height,
                row == wg,
                wg == 4 * (width as int),
                width >= 1,
                height >= 1,
                pixels@.len() == len,
                len == wg * (height as int),
                r < h,
                src_row == h - 1 - r,
                base == (src_row as int) * wg,
                base + wg <= len,
                (r as int) * wg + wg <= len,
                c <= row,
                out@.len() == r * wg + c,
                forall|j: int|
                    0 <= j < r * wg ==> out@[j] == pixels@[flip_index(
                        j,
                        width as nat,
                        height as nat,
                    )],
                forall|k: int| 0 <= k < c ==> out@[r * wg + k] == pixels@[#[trigger] (base + k)],
            decreases row - c,
        {
            out.push(pixels[base + c]);
            c = c + 1;
        }
        assert forall|j: int| r * wg <= j < (r + 1) * wg implies out@[j] == pixels@[flip_index(
            j,
            width as nat,
            height as nat,
        )] by {
            let k = j - r * wg;
            assert((r + 1) * wg == r * wg + wg) by (nonlinear_arith);
            assert(0 <= k < wg);
            lemma_fundamental_div_mod_converse_div(j, wg, r as int, k);
            lemma_fundamental_div_mod_converse_mod(j, wg, r as int, k);
            assert(flip_index(j, width as nat, height as nat) == (height - 1 - r) * wg + k);
            assert((height - 1 - r) * wg == (src_row as int) * wg);
            assert(out@[j] == pixels@[base + k]);
        }
        assert((r + 1) * wg == r * wg + wg) by (nonlinear_arith);
        r = r + 1;
    }
    assert(out@.len() == wg * (h as int)) by (nonlinear_arith)
        requires out@.len() == (h as int) * wg;
    assert(out@.len() == pixels@.len());
    assert(out@ =~= flipped(pixels@, width as nat, height as nat));
    out
}

/// The PNG byte stream that encoding a raw RGBA8 frame of the given
/// dimensions produces.  It depends on the frame and dimensions alone.
pub uninterp spec fn png_encoding(pixels: Seq<u8>, width: int, height: int) -> Seq<u8>;

/// Relies on image's `PngEncoder::write_image` with the `Rgba8` color type:
/// for a buffer of exactly `4 * width * height` bytes and nonzero
/// dimensions it deterministically writes one PNG image, beginning with the
/// fixed PNG signature, into the destination `Vec`; every other outcome of
/// its own validation (length mismatch, zero dimension) is excluded here by
/// the preconditions.
#[verifier::external_body]
fn png_encode_rgba(pixels: &Vec<u8>, width: u32, height: u32) -> (encoded: Vec<u8>)
    requires
        pixels@.len() == 4 * width * height,
        width > 0,
        height > 0,
    ensures
        encoded@ == png_encoding(pixels@, width as int, height as int),
        encoded@.len() > 0,
{
    let mut out: Vec<u8> = Vec::new();
    let encoder = image::codecs::png::PngEncoder::new(&mut out);
    image::ImageEncoder::write_image(
        encoder,
        pixels.as_slice(),
        width,
        height,
        image::ExtendedColorType::Rgba8,
    ).expect("png encoding into a byte buffer");
    out
}

/// Why a captured frame could not be encoded.  Both causes are internal
/// consistency errors of the capture step, never user-facing ones.
#[derive(Clone, Copy, Debug, PartialEq, Eq, Structural)]
pub enum EncodeError {
    /// The buffer length does not equal `4 * width * height`.
    DimensionMismatch,
    /// The stated dimensions describe an empty frame.
    ZeroDimension,
}

/// Encode a raw bottom-to-top RGBA8 framebuffer as a top-down PNG image:
/// flip the pixel rows, then encode.  Succeeds exactly when the buffer
/// length matches the dimensions and the frame is non-empty; the encoded
/// bytes are pinned down as the PNG encoding of the flipped frame.
pub fn encode_screenshot(pixels: &Vec<u8>, width: u32, height: u32) -> (encoded: Result<
    Vec<u8>,
    EncodeError,
>)
    ensures
        encoded is Ok <==> pixels@.len() == frame_len(width as nat, height as nat) && width > 0
            && height > 0,
        encoded is Ok ==> encoded.unwrap()@ == png_encoding(
            flipped(pixels@, width as nat, height as nat),
            width as int,
            height as int,
        ) && encoded.unwrap()@.len() > 0,
        encoded is Err ==> (encoded.unwrap_err() == EncodeError::DimensionMismatch <==> pixels@.len()
            != frame_len(width as nat, height as nat)),
{
    assert(4 * (width as int) * (height as int) <= 4 * 0xffff_ffffu64 * 0xffff_ffffu64)
        by (nonlinear_arith)
        requires width <= 0xffff_ffffu64, height <= 0xffff_ffffu64;
    let expected: u128 = 4u128 * (width as u128) * (height as u128);
    if (pixels.len() as u128) != expected {
        return Err(EncodeError::DimensionMismatch);
    }
    if width == 0 || height == 0 {
        return Err(EncodeError::ZeroDimension);
    }
    let upright = flip_rows(pixels, width, height);
    assert(upright@.len() == pixels@.len());
    Ok(png_encode_rgba(&upright, width, height))
}

} // verus!
