//! Grayscale images: a width, a height and one 8-bit intensity per pixel,
//! stored row by row.

use vstd::prelude::*;

verus! {

/// Mathematical model of a grayscale image.
pub struct ImageView {
    pub width: nat,
    pub height: nat,
    /// The intensities, row 0 from left to right, then row 1, and so on.
    pub pixels: Seq<u8>,
}

impl ImageView {
    /// Number of pixels.
    pub open spec fn area(self) -> nat {
        self.width * self.height
    }

    /// There is exactly one intensity per pixel.
    pub open spec fn wf(self) -> bool {
        self.pixels.len() == self.area()
    }

    /// Position of the pixel in column `x` of row `y` in the row-major order.
    pub open spec fn offset(self, x: nat, y: nat) -> nat {
        y * self.width + x
    }

    /// Intensity of the pixel in column `x` of row `y`.
    pub open spec fn pixel(self, x: nat, y: nat) -> u8
        recommends
            x < self.width,
            y < self.height,
            self.wf(),
    {
        self.pixels[self.offset(x, y) as int]
    }
}

/// Every pixel of an image has its own place in the row-major order: the
/// offset of a pixel inside the image is below the area, and the column and
/// the row can be read back from it.
pub proof fn lemma_offset_in_bounds(img: ImageView, x: nat, y: nat)
    requires
        x < img.width,
        y < img.height,
    ensures
        img.offset(x, y) < img.area(),
        img.offset(x, y) % img.width == x,
        img.offset(x, y) / img.width == y,
{
    let w = img.width as int;
    let h = img.height as int;
    let xi = x as int;
    let yi = y as int;
    assert(yi * w + xi < w * h) by (nonlinear_arith)
        requires
            0 <= xi < w,
            0 <= yi < h,
    ;
    assert((yi * w + xi) % w == xi && (yi * w + xi) / w == yi) by (nonlinear_arith)
        requires
            0 <= xi < w,
            0 <= yi,
    ;
}

/// A decoded grayscale image.
#[derive(Debug, PartialEq, Eq)]
pub struct GrayscaleImage {
    width: u32,
    height: u32,
    pixels: Vec<u8>,
}

impl View for GrayscaleImage {
    type V = ImageView;

    closed spec fn view(&self) -> ImageView {
        ImageView { width: self.width as nat, height: self.height as nat, pixels: self.pixels@ }
    }
}

impl Clone for GrayscaleImage {
    fn clone(&self) -> (copy: Self)
        ensures
            copy@ == self@,
    {
        proof {
            use_type_invariant(self);
        }
        let pixels = self.pixels.clone();
        assert(pixels@ =~= self.pixels@);
        GrayscaleImage { width: self.width, height: self.height, pixels }
    }
}

impl GrayscaleImage {
    #[verifier::type_invariant]
    spec fn inv(self) -> bool {
        self.pixels@.len() == self.width as nat * self.height as nat
    }

    /// Makes an image of `width` by `height` pixels from its intensities in
    /// row-major order. There is no image when the number of intensities is
    /// not `width * height`.
    pub fn new(width: u32, height: u32, pixels: Vec<u8>) -> (made: Option<GrayscaleImage>)
        ensures
            made is Some <==> pixels@.len() == width as nat * height as nat,
            made is Some ==> made->0@ == (ImageView {
                width: width as nat,
                height: height as nat,
                pixels: pixels@,
            }) && made->0@.wf(),
    {
        assert(width as nat * height as nat <= 0xffff_ffff * 0xffff_ffff) by (nonlinear_arith)
            requires
                width <= 0xffff_ffff,
                height <= 0xffff_ffff,
        ;
        let area: u64 = (width as u64) * (height as u64);
        if pixels.len() as u64 == area {
            Some(GrayscaleImage { width, height, pixels })
        } else {
            None
        }
    }

    /// Width in pixels.
    pub fn width(&self) -> (w: u32)
        ensures
            w == self@.width,
    {
        self.width
    }

    /// Height in pixels.
    pub fn height(&self) -> (h: u32)
        ensures
            h == self@.height,
    {
        self.height
    }

    /// Number of pixels, `width * height`.
    pub fn pixel_count(&self) -> (n: usize)
        ensures
            n == self@.area(),
            self@.wf(),
    {
        proof {
            use_type_invariant(self);
        }
        self.pixels.len()
    }

    /// The intensities in row-major order.
    pub fn as_slice(&self) -> (s: &[u8])
        ensures
            s@ == self@.pixels,
            self@.wf(),
    {
        proof {
            use_type_invariant(self);
        }
        self.pixels.as_slice()
    }

    /// Intensity of the pixel in column `x` of row `y`, if the image has
    /// such a pixel.
    pub fn get_pixel(&self, x: u32, y: u32) -> (p: Option<u8>)
        ensures
            p is Some <==> x < self@.width && y < self@.height,
            p is Some ==> p->0 == self@.pixel(x as nat, y as nat),
    {
        if x < self.width && y < self.height {
            let len: usize = self.pixels.len();
            proof {
                use_type_invariant(self);
                lemma_offset_in_bounds(self@, x as nat, y as nat);
                assert(self@.area() == len);
                assert(0 <= y as int * self.width as int) by (nonlinear_arith);
            }
            let at: usize = (y as usize) * (self.width as usize) + (x as usize);
            Some(self.pixels[at])
        } else {
            None
        }
    }
}

} // verus!
