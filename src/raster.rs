//! A decoded image held as plain values: its size and one sample per pixel.

use vstd::prelude::*;
use vstd::arithmetic::div_mod::lemma_fundamental_div_mod_converse;

verus! {

/// One pixel of the source image, at its position in image space
/// (`y` counts rows from the top).
#[derive(Clone, Copy, Debug, PartialEq, Eq, Structural)]
pub struct PixelSample {
    pub x: u32,
    pub y: u32,
    pub r: u8,
    pub g: u8,
    pub b: u8,
}

/// Why a pixel buffer could not be taken as an image.
#[derive(Clone, Copy, Debug, PartialEq, Eq, Structural)]
pub enum ImageError {
    /// The buffer does not hold three bytes for each of `width * height` pixels.
    LengthMismatch,
}

/// What an image is: its size and its samples in row-major order.
pub ghost struct ImageView {
    pub width: nat,
    pub height: nat,
    pub samples: Seq<PixelSample>,
}

/// The sample for the `k`-th pixel of a row-major RGB buffer of the given width.
pub open spec fn pixel_of(width: nat, rgb: Seq<u8>, k: int) -> PixelSample {
    PixelSample {
        x: (k % (width as int)) as u32,
        y: (k / (width as int)) as u32,
        r: rgb[3 * k],
        g: rgb[3 * k + 1],
        b: rgb[3 * k + 2],
    }
}

/// An image holds exactly one sample per pixel, in row-major order, each at
/// its own position inside the image.
pub open spec fn image_wf(v: ImageView) -> bool {
    &&& v.width <= u32::MAX
    &&& v.height <= u32::MAX
    &&& v.samples.len() == v.width * v.height
    &&& forall|k: int|
        0 <= k < v.samples.len() ==> {
            &&& #[trigger] v.samples[k].x == k % (v.width as int)
            &&& v.samples[k].y == k / (v.width as int)
        }
}

/// `v` is the image made of a row-major RGB buffer of the given size.
pub open spec fn image_from_rgb(v: ImageView, width: nat, height: nat, rgb: Seq<u8>) -> bool {
    &&& image_wf(v)
    &&& v.width == width
    &&& v.height == height
    &&& forall|k: int| 0 <= k < v.samples.len() ==> #[trigger] v.samples[k] == pixel_of(width, rgb, k)
}

/// A decoded image: its width, its height and the samples of its pixels.
#[derive(Debug)]
pub struct ImageInfo {
    width: u32,
    height: u32,
    samples: Vec<PixelSample>,
}

impl View for ImageInfo {
    type V = ImageView;

    closed spec fn view(&self) -> ImageView {
        ImageView { width: self.width as nat, height: self.height as nat, samples: self.samples@ }
    }
}

impl ImageInfo {
    pub open spec fn wf(&self) -> bool {
        image_wf(self@)
    }

    /// Takes a row-major buffer of RGB bytes, three per pixel, as an image of
    /// the given size. Fails exactly when the buffer's length is not
    /// `3 * width * height`.
    pub fn from_rgb(width: u32, height: u32, rgb: &Vec<u8>) -> (res: Result<ImageInfo, ImageError>)
        ensures
            rgb@.len() == 3 * (width * height) <==> res.is_ok(),
            res.is_err() ==> res == Err::<ImageInfo, ImageError>(ImageError::LengthMismatch),
            res matches Ok(info) ==> info.wf() && image_from_rgb(
                info@,
                width as nat,
                height as nat,
                rgb@,
            ),
    {
        proof {
            assert((width as u128) * (height as u128) <= 0xffff_ffffu128 * 0xffff_ffffu128)
                by (nonlinear_arith);
        }
        let expected: u128 = (width as u128) * (height as u128) * 3;
        assert(expected == 3 * (width * height));
        if rgb.len() as u128 != expected {
            return Err(ImageError::LengthMismatch);
        }
        let total: usize = rgb.len() / 3;
        assert(total == width * height);
        assert(rgb@.len() == 3 * total);
        proof {
            if total > 0 {
                assert(width > 0 && height > 0) by (nonlinear_arith)
                    requires
                        total == width * height,
                        total > 0,
                ;
            }
        }
        let mut samples: Vec<PixelSample> = Vec::with_capacity(total);
        let n: usize = rgb.len();
        let mut k: usize = 0;
        let mut x: u32 = 0;
        let mut y: u32 = 0;
        while k < total
            invariant
                total == width * height,
                rgb@.len() == 3 * total,
                n == rgb@.len(),
                k <= total,
                samples@.len() == k,
                k < total ==> x < width && y < height && k == y * width + x,
                forall|j: int|
                    0 <= j < k ==> #[trigger] samples@[j] == pixel_of(width as nat, rgb@, j),
                forall|j: int|
                    0 <= j < k ==> #[trigger] samples@[j].x == j % (width as int) && samples@[j].y
                        == j / (width as int),
            decreases total - k,
        {
            proof {
                lemma_fundamental_div_mod_converse(k as int, width as int, y as int, x as int);
            }
            assert(3 * k + 2 < n);
            let i: usize = 3 * k;
            samples.push(PixelSample { x, y, r: rgb[i], g: rgb[i + 1], b: rgb[i + 2] });
            let ghost k0 = k as int;
            let ghost y0 = y as int;
            k = k + 1;
            if x + 1 < width {
                x = x + 1;
            } else {
                x = 0;
                if k < total {
                    proof {
                        assert(k == (y0 + 1) * width && y0 + 1 < height) by (nonlinear_arith)
                            requires
                                k == k0 + 1,
                                k0 == y0 * width + (width - 1),
                                k < width * height,
                        ;
                    }
                    y = y + 1;
                }
            }
        }
        let info = ImageInfo { width, height, samples };
        Ok(info)
    }

    pub fn width(&self) -> (w: u32)
        ensures
            w == self@.width,
    {
        self.width
    }

    pub fn height(&self) -> (h: u32)
        ensures
            h == self@.height,
    {
        self.height
    }

    /// The samples, one per pixel, in row-major order.
    pub fn samples(&self) -> (s: &Vec<PixelSample>)
        ensures
            s@ == self@.samples,
    {
        &self.samples
    }
}

} // verus!
