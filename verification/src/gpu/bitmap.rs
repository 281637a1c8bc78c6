//! Bitmaps the engine describes and the uploads the bridge derives from
//! them.
//!
//! The engine may describe a texture in an 8-bit single-channel alpha
//! format.  The backend cannot sample a single-channel texture as alpha,
//! so on upload those bytes are expanded client-side: each input byte
//! becomes four identical output bytes, replicating alpha into all four
//! channels, and the row stride becomes `width * 4`.  All other formats
//! are copied byte-for-byte with their native stride.

use vstd::prelude::*;

use crate::gpu::state::BitmapFormat;

verus! {

/// A bitmap handed over by the engine, read out into plain values at the
/// callback boundary.
#[derive(Debug)]
pub struct BitmapData {
    /// Width in pixels.
    pub width: u32,
    /// Height in pixels.
    pub height: u32,
    /// Pixel format.
    pub format: BitmapFormat,
    /// Whether the bitmap carries no content and only reserves a render
    /// target (such a texture is never uploaded to).
    pub is_empty: bool,
    /// Raw pixel bytes, `width * height * bytes-per-pixel` of them.
    pub pixels: Vec<u8>,
}

impl BitmapData {
    /// A well-formed bitmap: the pixel buffer holds exactly one format
    /// width of bytes per pixel, and the dimensions leave the four-channel
    /// expansion and its `width * 4` row stride representable.
    pub open spec fn wf(&self) -> bool {
        &&& self.pixels@.len() == self.width * self.height * self.format.spec_bytes_per_pixel()
        &&& 4 * self.width <= u32::MAX
        &&& 4 * self.width * self.height <= usize::MAX
    }

    /// Decides well-formedness executably, so that a caller at the engine
    /// boundary never has to trust the engine's byte counts.
    pub fn check_wf(&self) -> (r: bool)
        ensures
            r == self.wf(),
    {
        proof {
            vstd::arithmetic::mul::lemma_mul_is_associative(
                4,
                self.width as int,
                self.height as int,
            );
            vstd::arithmetic::mul::lemma_mul_is_commutative(
                4,
                (self.width * self.height) as int,
            );
        }
        if self.width > u32::MAX / 4 {
            return false;
        }
        let wide = (self.width as usize).checked_mul(self.height as usize);
        match wide {
            Some(wh) => {
                match wh.checked_mul(4) {
                    Some(_) => {
                        let bpp = self.format.bytes_per_pixel();
                        proof {
                            assert(wh * bpp <= wh * 4) by (nonlinear_arith)
                                requires
                                    0 <= wh,
                                    0 <= bpp <= 4,
                            ;
                        }
                        let expected = wh * (bpp as usize);
                        self.pixels.len() == expected
                    },
                    None => false,
                }
            },
            None => {
                proof {
                    assert((self.width * self.height) <= 4 * (self.width * self.height));
                }
                false
            },
        }
    }
}

/// The four-channel expansion of a sequence of alpha bytes: output byte
/// `k` is input byte `k / 4`.
pub open spec fn spec_expand_alpha(s: Seq<u8>) -> Seq<u8> {
    Seq::new(4 * s.len(), |k: int| s[k / 4])
}

/// The inverse reading of an expanded buffer: one byte per four-byte
/// group.
pub open spec fn spec_collapse_alpha(s: Seq<u8>) -> Seq<u8> {
    Seq::new(s.len() / 4, |i: int| s[4 * i])
}

/// Whether output pixel `i` of `e` replicates the byte `v` into all four
/// channels.
pub open spec fn replicates_channels(e: Seq<u8>, i: int, v: u8) -> bool {
    &&& e[4 * i] == v
    &&& e[4 * i + 1] == v
    &&& e[4 * i + 2] == v
    &&& e[4 * i + 3] == v
}

/// Alpha-format conversion round trip: expanding `W * H` alpha samples
/// yields `W * H * 4` bytes, every output pixel's four channels equal the
/// corresponding input byte, and collapsing the expansion returns the
/// input exactly.
pub proof fn lemma_expand_alpha_round_trip(s: Seq<u8>)
    ensures
        spec_expand_alpha(s).len() == 4 * s.len(),
        forall|i: int|
            0 <= i < s.len() ==> replicates_channels(spec_expand_alpha(s), i, #[trigger] s[i]),
        spec_collapse_alpha(spec_expand_alpha(s)) == s,
{
    assert forall|i: int|
        0 <= i < s.len() implies replicates_channels(spec_expand_alpha(s), i, s[i]) by {
        assert((4 * i) / 4 == i && (4 * i + 1) / 4 == i && (4 * i + 2) / 4 == i && (4 * i + 3) / 4
            == i) by (nonlinear_arith)
            requires
                0 <= i,
        ;
    }
    assert forall|i: int| 0 <= i < s.len() implies spec_expand_alpha(s)[4 * i] == s[i] by {
        assert((4 * i) / 4 == i) by (nonlinear_arith)
            requires
                0 <= i,
        ;
    }
    assert(spec_collapse_alpha(spec_expand_alpha(s)) =~= s);
}

/// Expands single-byte alpha samples into four-channel pixels: each input
/// byte becomes four identical output bytes.
pub fn expand_alpha(pixels: &Vec<u8>) -> (r: Vec<u8>)
    requires
        4 * pixels@.len() <= usize::MAX,
    ensures
        r@ == spec_expand_alpha(pixels@),
        r@.len() == 4 * pixels@.len(),
        forall|i: int|
            0 <= i < pixels@.len() ==> replicates_channels(r@, i, #[trigger] pixels@[i]),
{
    let mut out: Vec<u8> = Vec::new();
    let mut i: usize = 0;
    while i < pixels.len()
        invariant
            0 <= i <= pixels@.len(),
            4 * pixels@.len() <= usize::MAX,
            out@ == spec_expand_alpha(pixels@.take(i as int)),
        decreases pixels@.len() - i,
    {
        let v = pixels[i];
        out.push(v);
        out.push(v);
        out.push(v);
        out.push(v);
        proof {
            let taken = pixels@.take(i + 1);
            assert forall|k: int| 0 <= k < 4 * (i + 1) implies out@[k] == taken[k / 4] by {
                assert(0 <= k / 4 < i + 1) by (nonlinear_arith)
                    requires
                        0 <= k < 4 * (i + 1),
                ;
                if k < 4 * i {
                    assert(out@[k] == pixels@.take(i as int)[k / 4]);
                } else {
                    assert(k / 4 == i) by (nonlinear_arith)
                        requires
                            4 * i <= k < 4 * (i + 1),
                    ;
                }
            }
            assert(out@ =~= spec_expand_alpha(taken));
        }
        i = i + 1;
    }
    proof {
        assert(pixels@.take(pixels@.len() as int) =~= pixels@);
        lemma_expand_alpha_round_trip(pixels@);
    }
    out
}

/// One texture upload the backend performs: the destination extent, the
/// row stride of the data, and the bytes themselves.
#[derive(Debug)]
pub struct TextureUpload {
    /// Width of the uploaded extent in pixels.
    pub width: u32,
    /// Height of the uploaded extent in pixels.
    pub height: u32,
    /// Byte stride between rows of `data`.
    pub bytes_per_row: u32,
    /// The bytes to upload.
    pub data: Vec<u8>,
}

/// The bytes a well-formed bitmap uploads: alpha bitmaps are expanded to
/// four channels, all other formats are copied byte-for-byte.
pub open spec fn spec_upload_data(b: &BitmapData) -> Seq<u8> {
    match b.format {
        BitmapFormat::A8 => spec_expand_alpha(b.pixels@),
        BitmapFormat::Bgra8Srgb => b.pixels@,
    }
}

/// Whether `u` is the upload the bitmap `b` induces: same extent, a
/// `width * 4` row stride (the expanded alpha stride, which is also the
/// native BGRA stride), and the format-converted bytes.
pub open spec fn upload_matches(b: &BitmapData, u: &TextureUpload) -> bool {
    &&& u.width == b.width
    &&& u.height == b.height
    &&& u.bytes_per_row == 4 * b.width
    &&& u.data@ == spec_upload_data(b)
}

/// Builds the upload a well-formed bitmap induces.
pub fn upload_of(b: &BitmapData) -> (r: TextureUpload)
    requires
        b.wf(),
    ensures
        upload_matches(b, &r),
{
    let data = match b.format {
        BitmapFormat::A8 => {
            proof {
                vstd::arithmetic::mul::lemma_mul_is_associative(
                    4,
                    b.width as int,
                    b.height as int,
                );
            }
            expand_alpha(&b.pixels)
        },
        BitmapFormat::Bgra8Srgb => clone_bytes(&b.pixels),
    };
    TextureUpload { width: b.width, height: b.height, bytes_per_row: 4 * b.width, data }
}

/// A plain byte-for-byte copy of a buffer.
pub fn clone_bytes(v: &Vec<u8>) -> (r: Vec<u8>)
    ensures
        r@ == v@,
{
    let mut out: Vec<u8> = Vec::new();
    let mut i: usize = 0;
    while i < v.len()
        invariant
            0 <= i <= v@.len(),
            out@ == v@.take(i as int),
        decreases v@.len() - i,
    {
        out.push(v[i]);
        proof {
            assert(out@ =~= v@.take(i + 1));
        }
        i = i + 1;
    }
    proof {
        assert(v@.take(v@.len() as int) =~= v@);
    }
    out
}

} // verus!
