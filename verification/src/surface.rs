//! Reads a view's CPU surface out as an image: the engine surfaces hold
//! BGRA pixels, which are swapped into RGBA channel order and wrapped in
//! an `image` buffer for the embedder to save or display.

use vstd::prelude::*;

use image::RgbaImage;

verus! {

/// An RGBA image wrapping a view surface's pixels.
///
/// It holds an `image::RgbaImage`; that type's declaration carries a
/// trait bound Verus refuses, so the buffer lives in a hidden field and is
/// spoken of through `image_dims` and `image_pixels`.
#[verifier::external_body]
pub struct ViewImage {
    image: RgbaImage,
}

/// The width and height an image was built with.
pub uninterp spec fn image_dims(img: ViewImage) -> (u32, u32);

/// The bytes an image holds: its pixels in RGBA channel order, row-major.
pub uninterp spec fn image_pixels(img: ViewImage) -> Seq<u8>;

/// Relies on `image::RgbaImage::from_vec` (through `ImageBuffer::from_raw`):
/// it stores the buffer without touching the bytes, and returns an image
/// exactly when the buffer holds at least `width * height * 4` bytes.
#[verifier::external_body]
fn rgba_image_from_vec(width: u32, height: u32, data: Vec<u8>) -> (r: Option<ViewImage>)
    ensures
        r is Some <==> 4 * (width as int) * (height as int) <= data@.len(),
        r matches Some(img) ==> image_dims(img) == (width, height) && image_pixels(img) == data@,
{
    RgbaImage::from_vec(width, height, data).map(|image| ViewImage { image })
}

impl ViewImage {
    /// The image's width in pixels.  Relies on `image::ImageBuffer::width`.
    #[verifier::external_body]
    pub fn width(&self) -> (r: u32)
        ensures
            r == image_dims(*self).0,
    {
        self.image.width()
    }

    /// The image's height in pixels.  Relies on
    /// `image::ImageBuffer::height`.
    #[verifier::external_body]
    pub fn height(&self) -> (r: u32)
        ensures
            r == image_dims(*self).1,
    {
        self.image.height()
    }

    /// The image's bytes, RGBA and row-major.  Relies on
    /// `image::ImageBuffer::into_vec` (through `into_raw`), which returns
    /// the stored buffer unchanged.
    #[verifier::external_body]
    pub fn into_bytes(self) -> (r: Vec<u8>)
        ensures
            r@ == image_pixels(self),
    {
        self.image.into_vec()
    }
}

/// The BGRA buffer `s` with its red and blue channels swapped into RGBA
/// order: bytes at offsets 0 and 2 of each four-byte pixel trade places,
/// the others stay.
pub open spec fn spec_swap_red_blue(s: Seq<u8>) -> Seq<u8> {
    Seq::new(
        s.len(),
        |k: int|
            if k % 4 == 0 {
                s[k + 2]
            } else if k % 4 == 2 {
                s[k - 2]
            } else {
                s[k]
            },
    )
}

/// Swapping red and blue twice returns every pixel to where it started.
pub proof fn lemma_swap_red_blue_involution(s: Seq<u8>)
    requires
        s.len() % 4 == 0,
    ensures
        spec_swap_red_blue(spec_swap_red_blue(s)) == s,
{
    let once = spec_swap_red_blue(s);
    let twice = spec_swap_red_blue(once);
    assert forall|k: int| 0 <= k < s.len() implies twice[k] == s[k] by {
        if k % 4 == 0 {
            assert((k + 2) % 4 == 2);
        } else if k % 4 == 2 {
            assert((k - 2) % 4 == 0);
        }
    }
    assert(twice =~= s);
}

/// Swaps each four-byte pixel's first and third bytes, turning BGRA
/// samples into RGBA ones (and back).
pub fn swap_red_blue(pixels: &Vec<u8>) -> (r: Vec<u8>)
    requires
        pixels@.len() % 4 == 0,
    ensures
        r@ == spec_swap_red_blue(pixels@),
{
    let mut out: Vec<u8> = Vec::new();
    let mut i: usize = 0;
    while i < pixels.len()
        invariant
            pixels@.len() % 4 == 0,
            0 <= i <= pixels@.len(),
            i % 4 == 0,
            out@.len() == i,
            forall|k: int| 0 <= k < i ==> out@[k] == spec_swap_red_blue(pixels@)[k],
        decreases pixels@.len() - i,
    {
        proof {
            assert(i + 4 <= pixels@.len());
        }
        out.push(pixels[i + 2]);
        out.push(pixels[i + 1]);
        out.push(pixels[i]);
        out.push(pixels[i + 3]);
        proof {
            assert forall|k: int| 0 <= k < i + 4 implies out@[k] == spec_swap_red_blue(
                pixels@,
            )[k] by {
                if k >= i {
                    assert(i % 4 == 0);
                    if k == i {
                        assert(k % 4 == 0);
                    } else if k == i + 1 {
                        assert(k % 4 == 1);
                    } else if k == i + 2 {
                        assert(k % 4 == 2);
                    } else {
                        assert(k == i + 3);
                        assert(k % 4 == 3);
                    }
                }
            }
        }
        i = i + 4;
    }
    proof {
        assert(out@ =~= spec_swap_red_blue(pixels@));
    }
    out
}

/// Wraps a view surface's raw BGRA pixels as an RGBA image: the red and
/// blue channels are swapped, then the bytes are handed to `image`.  An
/// image comes back exactly when the buffer holds one four-byte pixel per
/// cell of the claimed extent, and it holds the swapped bytes.
pub fn get_image(width: u32, height: u32, bgra_pixels: &Vec<u8>) -> (r: Option<ViewImage>)
    requires
        bgra_pixels@.len() % 4 == 0,
    ensures
        r is Some <==> bgra_pixels@.len() == 4 * (width as int) * (height as int),
        r matches Some(img) ==> image_dims(img) == (width, height) && image_pixels(img)
            == spec_swap_red_blue(bgra_pixels@),
{
    let buffer_len = bgra_pixels.len();
    proof {
        vstd::arithmetic::mul::lemma_mul_is_associative(4, width as int, height as int);
        vstd::arithmetic::mul::lemma_mul_is_commutative((width as int) * (height as int), 4);
    }
    match (width as usize).checked_mul(height as usize) {
        Some(wh) => {
            match wh.checked_mul(4) {
                Some(len) => {
                    proof {
                        assert(wh == (width as int) * (height as int));
                        assert(len == 4 * (width as int) * (height as int));
                    }
                    if buffer_len != len {
                        return None;
                    }
                    let swapped = swap_red_blue(bgra_pixels);
                    proof {
                        assert(swapped@.len() == bgra_pixels@.len());
                    }
                    let img = rgba_image_from_vec(width, height, swapped);
                    proof {
                        assert(img is Some);
                    }
                    img
                },
                None => {
                    proof {
                        assert(4 * (width as int) * (height as int) > usize::MAX);
                    }
                    None
                },
            }
        },
        None => {
            proof {
                assert((width as int) * (height as int) <= 4 * (width as int) * (height as int));
            }
            None
        },
    }
}

} // verus!
