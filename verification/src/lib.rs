//! Frequency-domain scoring of grayscale images: the exact, integer part.
//!
//! An image is flattened row by row into a sequence of samples, each the
//! fraction `level / 255`. The spectrum of that sequence is split into a low
//! band, its first quarter of bins, and a high band, the rest; the score is
//! the energy of the high band over that of the low band.
//!
//! This crate builds the sample sequence and splits a spectrum into its
//! bands; the transform between the two, and the energies, are floating
//! point and left to the caller. It also knows how a labelled dataset is
//! laid out on disk and how a run reports a score.

pub mod bands;
pub mod dataset;
pub mod error;
pub mod gray;
pub mod report;
pub mod signal;

pub use bands::{band_of, split_bands, split_point, Band};
pub use dataset::{accepts_extension, sections, Label, Section, Split};
pub use error::ScoreError;
pub use gray::{GrayscaleImage, ImageView};
pub use report::report_line;
pub use signal::{build_signal, SampleSequence, FULL_SCALE};
