//! The sample sequence of an image: its intensities, row by row, each read
//! as a fraction of full scale.

use vstd::prelude::*;
use crate::error::ScoreError;
use crate::gray::{lemma_offset_in_bounds, GrayscaleImage, ImageView};

verus! {

/// The level that stands for the sample 1: a sample of level `l` is the
/// fraction `l / FULL_SCALE`.
pub const FULL_SCALE: u8 = 255;

/// The levels of an image in the order in which the signal carries them:
/// row 0 from left to right, then row 1, and so on.
pub open spec fn row_major(img: ImageView) -> Seq<u8> {
    Seq::new(
        img.area(),
        |i: int| img.pixel((i % img.width as int) as nat, (i / img.width as int) as nat),
    )
}

/// The flattened image is its stored intensities, unchanged and in order.
pub proof fn lemma_row_major_is_pixels(img: ImageView)
    requires
        img.wf(),
    ensures
        row_major(img) == img.pixels,
{
    let w = img.width as int;
    assert forall|i: int| 0 <= i < img.area() implies row_major(img)[i] == img.pixels[i] by {
        assert(w > 0) by (nonlinear_arith)
            requires
                0 <= i < w * img.height,
                0 <= w,
        ;
        assert((i / w) * w + i % w == i && 0 <= i % w && 0 <= i / w) by (nonlinear_arith)
            requires
                w > 0,
                0 <= i,
        ;
    }
    assert(row_major(img) =~= img.pixels);
}

/// Row-major order: the sample at place `y * width + x` of the flattened
/// image is the pixel in column `x` of row `y`, and each place below
/// `width * height` belongs to exactly one pixel.
pub proof fn lemma_row_major_order(img: ImageView, x: nat, y: nat)
    requires
        img.wf(),
        x < img.width,
        y < img.height,
    ensures
        row_major(img).len() == img.width * img.height,
        y * img.width + x < row_major(img).len(),
        row_major(img)[(y * img.width + x) as int] == img.pixel(x, y),
{
    lemma_offset_in_bounds(img, x, y);
    lemma_row_major_is_pixels(img);
}

/// A signal: at least one sample, each held as its level out of
/// `FULL_SCALE`.
#[derive(Debug, PartialEq, Eq)]
pub struct SampleSequence {
    levels: Vec<u8>,
}

impl View for SampleSequence {
    type V = Seq<u8>;

    closed spec fn view(&self) -> Seq<u8> {
        self.levels@
    }
}

impl Clone for SampleSequence {
    fn clone(&self) -> (copy: Self)
        ensures
            copy@ == self@,
    {
        proof {
            use_type_invariant(self);
        }
        let levels = self.levels.clone();
        assert(levels@ =~= self.levels@);
        SampleSequence { levels }
    }
}

impl SampleSequence {
    #[verifier::type_invariant]
    spec fn inv(self) -> bool {
        self.levels@.len() >= 1
    }

    /// Number of samples; never zero.
    pub fn len(&self) -> (n: usize)
        ensures
            n == self@.len(),
            n >= 1,
    {
        proof {
            use_type_invariant(self);
        }
        self.levels.len()
    }

    /// The levels of the samples, in order.
    pub fn levels(&self) -> (s: &[u8])
        ensures
            s@ == self@,
            s@.len() >= 1,
    {
        proof {
            use_type_invariant(self);
        }
        self.levels.as_slice()
    }
}

/// Flattens an image into its signal. An image without pixels has no signal.
pub fn build_signal(image: &GrayscaleImage) -> (built: Result<SampleSequence, ScoreError>)
    ensures
        built is Ok <==> image@.area() > 0,
        built is Ok ==> built->Ok_0@ == row_major(image@),
        built is Ok ==> built->Ok_0@.len() == image@.area(),
        built is Err ==> built->Err_0 == ScoreError::InvalidInput,
{
    let pixels = image.as_slice();
    let count: usize = pixels.len();
    if count == 0 {
        return Err(ScoreError::InvalidInput);
    }
    let mut levels: Vec<u8> = Vec::with_capacity(count);
    let mut at: usize = 0;
    while at < count
        invariant
            at <= count,
            count == pixels@.len(),
            levels@ == pixels@.take(at as int),
        decreases count - at,
    {
        levels.push(pixels[at]);
        at = at + 1;
        assert(levels@ =~= pixels@.take(at as int));
    }
    proof {
        assert(pixels@.take(count as int) =~= pixels@);
        lemma_row_major_is_pixels(image@);
    }
    Ok(SampleSequence { levels })
}

} // verus!
