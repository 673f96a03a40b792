//! Frequency-bin bookkeeping and the truncation (compression) policy.
//!
//! A body's coordinate sequence of length `n` is transformed into `n`
//! complex frequency bins. Each bin index is mapped to a signed,
//! integer-valued frequency in cycles per period; amplitude and phase of
//! a bin are floating-point work and stay outside this library. The
//! mapping below is the single sign convention used across the whole
//! analyze/reconstruct round trip.

use vstd::prelude::*;

verus! {

/// The signed frequency carried by bin `idx` of an `n`-point transform:
/// bin 0 is the mean (DC) term; bins below `n / 2` carry negative
/// frequencies `-idx`; bins from `n / 2` up carry positive frequencies
/// `n - idx`.
pub open spec fn signed_frequency(idx: int, n: int) -> int {
    if idx == 0 {
        0
    } else if idx < n / 2 {
        -idx
    } else {
        n - idx
    }
}

/// Maps a frequency-bin index to its signed physical frequency, in whole
/// cycles per period.
pub fn bin_frequency(idx: usize, frame_num: usize) -> (freq: i64)
    requires
        idx < frame_num,
        frame_num <= i64::MAX,
    ensures
        freq == signed_frequency(idx as int, frame_num as int),
{
    let half = frame_num / 2;
    if idx == 0 {
        0
    } else if idx < half {
        -(idx as i64)
    } else {
        frame_num as i64 - idx as i64
    }
}

/// Paired bins carry opposite frequencies: for `0 < k < n / 2`, bin `k`
/// and bin `n - k` map to `-k` and `k`. This is the sign symmetry that
/// makes the reconstruction's rotation directions cancel correctly.
pub proof fn lemma_bin_sign_symmetry(k: int, n: int)
    requires
        0 < k < n / 2,
    ensures
        signed_frequency(n - k, n) == -signed_frequency(k, n),
{
}

/// Distinct bins carry distinct signed frequencies, so no term of the
/// reconstruction is duplicated or lost by the mapping.
pub proof fn lemma_bin_frequency_injective(i: int, j: int, n: int)
    requires
        0 <= i < n,
        0 <= j < n,
        i != j,
    ensures
        signed_frequency(i, n) != signed_frequency(j, n),
{
}

/// No bin maps outside the Nyquist range: every signed frequency of an
/// `n`-point transform lies between `-(n / 2)` and `n - n / 2`.
pub proof fn lemma_bin_frequency_range(idx: int, n: int)
    requires
        0 <= idx < n,
    ensures
        -(n / 2) <= signed_frequency(idx, n) <= n - n / 2,
{
}

/// The frames a truncation keeps: entry `i` of the result says whether
/// component `i` of a body's frequency set survives compression. A
/// component survives when its amplitude clears the cutoff
/// (`above_cutoff[i]`); when `preserve_dc` is set, the zero-frequency
/// component (entry 0, the orbit's mean position) is kept regardless, so
/// that truncation never biases the reconstructed centroid.
pub open spec fn truncation_keep(above_cutoff: Seq<bool>, preserve_dc: bool) -> Seq<bool> {
    Seq::new(
        above_cutoff.len(),
        |i: int| above_cutoff[i] || (i == 0 && preserve_dc),
    )
}

/// Computes which components a truncation keeps, from the per-component
/// amplitude test and the DC retention policy.
pub fn truncation_mask(above_cutoff: &Vec<bool>, preserve_dc: bool) -> (keep: Vec<bool>)
    ensures
        keep@ == truncation_keep(above_cutoff@, preserve_dc),
{
    let mut keep: Vec<bool> = Vec::new();
    let mut i: usize = 0;
    while i < above_cutoff.len()
        invariant
            i <= above_cutoff@.len(),
            keep@.len() == i,
            forall|j: int|
                0 <= j < i ==> keep@[j] == (above_cutoff@[j] || (j == 0 && preserve_dc)),
        decreases above_cutoff@.len() - i,
    {
        keep.push(above_cutoff[i] || (i == 0 && preserve_dc));
        i += 1;
    }
    proof {
        assert(keep@ =~= truncation_keep(above_cutoff@, preserve_dc));
    }
    keep
}

/// The subsequence of `items` whose mask entry is set, in order.
pub open spec fn masked<T>(items: Seq<T>, keep: Seq<bool>) -> Seq<T>
    decreases items.len(),
{
    if items.len() == 0 || keep.len() == 0 {
        Seq::empty()
    } else {
        masked(items.drop_last(), keep.drop_last()) + if keep.last() {
            seq![items.last()]
        } else {
            Seq::empty()
        }
    }
}

/// Keeps exactly the components whose mask entry is set, preserving their
/// order.
pub fn retain_by_mask<T: Copy>(items: &Vec<T>, keep: &Vec<bool>) -> (r: Vec<T>)
    requires
        keep@.len() == items@.len(),
    ensures
        r@ == masked(items@, keep@),
{
    let mut r: Vec<T> = Vec::new();
    let mut i: usize = 0;
    while i < items.len()
        invariant
            keep@.len() == items@.len(),
            i <= items@.len(),
            r@ == masked(items@.take(i as int), keep@.take(i as int)),
        decreases items@.len() - i,
    {
        let ghost i1 = i as int;
        if keep[i] {
            r.push(items[i]);
        }
        i += 1;
        proof {
            assert(items@.take(i1 + 1).drop_last() =~= items@.take(i1));
            assert(keep@.take(i1 + 1).drop_last() =~= keep@.take(i1));
            assert(items@.take(i1 + 1).last() == items@[i1]);
            assert(keep@.take(i1 + 1).last() == keep@[i1]);
            if keep@[i1] {
                assert(r@ =~= masked(items@.take(i1), keep@.take(i1)) + seq![items@[i1]]);
            }
        }
    }
    proof {
        assert(items@.take(items@.len() as int) =~= items@);
        assert(keep@.take(items@.len() as int) =~= keep@);
    }
    r
}

/// A truncation that keeps every component changes nothing: analysis
/// without truncation hands the frequency set on exactly as computed.
pub proof fn lemma_masked_all_kept<T>(items: Seq<T>, keep: Seq<bool>)
    requires
        keep.len() == items.len(),
        forall|i: int| 0 <= i < keep.len() ==> keep[i],
    ensures
        masked(items, keep) == items,
    decreases items.len(),
{
    if items.len() == 0 {
        assert(masked(items, keep) =~= items);
    } else {
        lemma_masked_all_kept(items.drop_last(), keep.drop_last());
        assert(keep.last());
        assert(masked(items, keep) =~= items);
    }
}

/// Under the force-retain policy the zero-frequency component survives
/// truncation whatever its amplitude: it stays the first entry of the
/// truncated set, so compression never biases the reconstructed
/// centroid.
pub proof fn lemma_dc_survives_truncation<T>(items: Seq<T>, above_cutoff: Seq<bool>)
    requires
        above_cutoff.len() == items.len(),
        items.len() > 0,
    ensures
        masked(items, truncation_keep(above_cutoff, true)).len() > 0,
        masked(items, truncation_keep(above_cutoff, true))[0] == items[0],
    decreases items.len(),
{
    let keep = truncation_keep(above_cutoff, true);
    if items.len() == 1 {
        reveal_with_fuel(masked, 2);
        assert(keep.last());
        assert(masked(items, keep) =~= seq![items[0]]);
    } else {
        lemma_dc_survives_truncation(items.drop_last(), above_cutoff.drop_last());
        assert(keep.drop_last() =~= truncation_keep(above_cutoff.drop_last(), true));
        assert(masked(items, keep)[0] == masked(items.drop_last(), keep.drop_last())[0]);
        assert(items.drop_last()[0] == items[0]);
    }
}

/// A masked subsequence is never longer than the item list.
pub proof fn lemma_masked_len<T>(items: Seq<T>, keep: Seq<bool>)
    ensures
        masked(items, keep).len() <= items.len(),
    decreases items.len(),
{
    if items.len() != 0 && keep.len() != 0 {
        lemma_masked_len(items.drop_last(), keep.drop_last());
    }
}

/// A mask that keeps pointwise fewer components keeps a shorter
/// subsequence.
pub proof fn lemma_masked_monotone<T>(items: Seq<T>, narrow: Seq<bool>, wide: Seq<bool>)
    requires
        narrow.len() == items.len(),
        wide.len() == items.len(),
        forall|i: int| 0 <= i < items.len() ==> (narrow[i] ==> wide[i]),
    ensures
        masked(items, narrow).len() <= masked(items, wide).len(),
    decreases items.len(),
{
    if items.len() != 0 {
        assert(forall|i: int|
            0 <= i < items.len() - 1 ==> (narrow.drop_last()[i] ==> wide.drop_last()[i]));
        lemma_masked_monotone(items.drop_last(), narrow.drop_last(), wide.drop_last());
        assert(narrow.last() ==> wide.last());
    }
}

/// Raising the amplitude cutoff keeps equal-or-fewer components.
///
/// `above_hi` and `above_lo` are the per-component amplitude tests against
/// a higher and a lower cutoff of the same frequency set, so whatever
/// clears the higher cutoff clears the lower one. Under either DC
/// retention policy, the set kept at the higher cutoff is then no longer
/// than the set kept at the lower one.
pub proof fn lemma_truncation_count_monotone<T>(
    items: Seq<T>,
    above_lo: Seq<bool>,
    above_hi: Seq<bool>,
    preserve_dc: bool,
)
    requires
        above_lo.len() == items.len(),
        above_hi.len() == items.len(),
        forall|i: int| 0 <= i < items.len() ==> (above_hi[i] ==> above_lo[i]),
    ensures
        masked(items, truncation_keep(above_hi, preserve_dc)).len() <= masked(
            items,
            truncation_keep(above_lo, preserve_dc),
        ).len(),
{
    lemma_masked_monotone(
        items,
        truncation_keep(above_hi, preserve_dc),
        truncation_keep(above_lo, preserve_dc),
    );
}

} // verus!
