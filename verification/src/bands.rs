//! The split of a spectrum into a low and a high band.

use vstd::prelude::*;

verus! {

/// The band that a spectrum bin is counted in.
#[derive(Clone, Copy, Debug, PartialEq, Eq, Structural)]
pub enum Band {
    Low,
    High,
}

/// Number of bins in the low band of a spectrum of `len` bins: a quarter of
/// them, rounded down.
pub open spec fn low_band_len(len: nat) -> nat {
    len / 4
}

/// Number of bins in the high band of a spectrum of `len` bins.
pub open spec fn high_band_len(len: nat) -> nat {
    (len - low_band_len(len)) as nat
}

/// The band of bin `bin` in a spectrum of `len` bins: low strictly below the
/// split point, high from the split point on.
pub open spec fn band_at(bin: nat, len: nat) -> Band {
    if bin < low_band_len(len) {
        Band::Low
    } else {
        Band::High
    }
}

/// The split point is the quarter of the length, rounded down, and the bin at
/// the split point is the first of the high band: every bin below it is low,
/// the bin itself and every bin above it are high.
pub proof fn lemma_split_boundary(len: nat)
    ensures
        4 * low_band_len(len) <= len < 4 * low_band_len(len) + 4,
        band_at(low_band_len(len), len) == Band::High,
        forall|bin: nat| bin < low_band_len(len) ==> #[trigger] band_at(bin, len) == Band::Low,
        forall|bin: nat| bin >= low_band_len(len) ==> #[trigger] band_at(bin, len) == Band::High,
{
}

/// The two bands share out the bins: each bin of a spectrum is in exactly
/// one of them, the high band holds at least three bins for each bin of the
/// low band, and it is never empty unless the spectrum is. A spectrum of
/// fewer than four bins has no low band at all.
pub proof fn lemma_bands_partition(len: nat)
    ensures
        low_band_len(len) + high_band_len(len) == len,
        high_band_len(len) >= 3 * low_band_len(len),
        len >= 1 ==> high_band_len(len) >= 1,
        len < 4 <==> low_band_len(len) == 0,
{
}

/// Index of the first bin of the high band in a spectrum of `len` bins.
pub fn split_point(len: usize) -> (boundary: usize)
    ensures
        boundary == low_band_len(len as nat),
{
    len / 4
}

/// The band in which bin `bin` of a spectrum of `len` bins is counted.
pub fn band_of(bin: usize, len: usize) -> (band: Band)
    ensures
        band == band_at(bin as nat, len as nat),
{
    if bin < split_point(len) {
        Band::Low
    } else {
        Band::High
    }
}

/// A bin lands in the part of the split that its band names, at the place
/// that keeps the bins in order: a low bin keeps its index in the low part,
/// a high bin moves down by the length of the low part.
pub proof fn lemma_split_follows_band<T>(bins: Seq<T>, bin: nat)
    requires
        bin < bins.len(),
    ensures
        band_at(bin, bins.len()) == Band::Low ==> {
            &&& bin < low_band_len(bins.len())
            &&& bins.take(low_band_len(bins.len()) as int)[bin as int] == bins[bin as int]
        },
        band_at(bin, bins.len()) == Band::High ==> {
            &&& bin >= low_band_len(bins.len())
            &&& bins.skip(low_band_len(bins.len()) as int)[bin - low_band_len(bins.len())]
                == bins[bin as int]
        },
{
}

/// Splits a spectrum into its low band, the bins below the split point, and
/// its high band, the bins from the split point on. Both keep the order of
/// the bins.
pub fn split_bands<T>(bins: &[T]) -> (parts: (&[T], &[T]))
    ensures
        parts.0@ == bins@.take(low_band_len(bins@.len()) as int),
        parts.1@ == bins@.skip(low_band_len(bins@.len()) as int),
        parts.0@.len() == low_band_len(bins@.len()),
        parts.1@.len() == high_band_len(bins@.len()),
        parts.0@ + parts.1@ == bins@,
{
    let (low, high) = bins.split_at(split_point(bins.len()));
    proof {
        let mid = low_band_len(bins@.len()) as int;
        assert(low@ =~= bins@.take(mid));
        assert(high@ =~= bins@.skip(mid));
        assert(low@ + high@ =~= bins@);
    }
    (low, high)
}

} // verus!
