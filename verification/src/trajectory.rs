//! Reshaping of simulated trajectories.
//!
//! A raw trajectory is frame-major: one entry per recorded instant, each
//! holding one position per body. Frequency analysis and error measurement
//! work body-major, so the pipeline transposes between the two layouts.
//! Closing an orbit also needs the backward run's frames put back into
//! forward time order, and each run's duplicated final sample dropped.

use vstd::prelude::*;

verus! {

/// Transposes a frame-major rectangular table into a body-major one,
/// applying `map` to every entry on the way. Every output entry is a
/// possible result of `map` on the entry mirrored across the diagonal.
pub fn transpose<T: Copy, O, F: Fn(T) -> O>(positions: &Vec<Vec<T>>, map: F) -> (r: Vec<Vec<O>>)
    requires
        positions@.len() > 0,
        forall|f: int|
            0 <= f < positions@.len() ==> (#[trigger] positions@[f])@.len()
                == positions@[0]@.len(),
        forall|f: int, b: int|
            0 <= f < positions@.len() && 0 <= b < positions@[0]@.len() ==> call_requires(
                map,
                (positions@[f]@[b],),
            ),
    ensures
        r@.len() == positions@[0]@.len(),
        forall|b: int| 0 <= b < r@.len() ==> (#[trigger] r@[b])@.len() == positions@.len(),
        forall|b: int, f: int|
            0 <= b < r@.len() && 0 <= f < positions@.len() ==> call_ensures(
                map,
                (positions@[f]@[b],),
                #[trigger] r@[b]@[f],
            ),
{
    let width = positions[0].len();
    let mut r: Vec<Vec<O>> = Vec::new();
    let mut b: usize = 0;
    while b < width
        invariant
            positions@.len() > 0,
            width == positions@[0]@.len(),
            forall|f: int|
                0 <= f < positions@.len() ==> (#[trigger] positions@[f])@.len() == width,
            forall|f: int, bb: int|
                0 <= f < positions@.len() && 0 <= bb < width ==> call_requires(
                    map,
                    (positions@[f]@[bb],),
                ),
            b <= width,
            r@.len() == b,
            forall|bb: int| 0 <= bb < b ==> (#[trigger] r@[bb])@.len() == positions@.len(),
            forall|bb: int, f: int|
                0 <= bb < b && 0 <= f < positions@.len() ==> call_ensures(
                    map,
                    (positions@[f]@[bb],),
                    #[trigger] r@[bb]@[f],
                ),
        decreases width - b,
    {
        let mut row: Vec<O> = Vec::new();
        let mut f: usize = 0;
        while f < positions.len()
            invariant
                positions@.len() > 0,
                width == positions@[0]@.len(),
                b < width,
                forall|ff: int|
                    0 <= ff < positions@.len() ==> (#[trigger] positions@[ff])@.len() == width,
                forall|ff: int, bb: int|
                    0 <= ff < positions@.len() && 0 <= bb < width ==> call_requires(
                        map,
                        (positions@[ff]@[bb],),
                    ),
                f <= positions@.len(),
                row@.len() == f,
                forall|ff: int|
                    0 <= ff < f ==> call_ensures(
                        map,
                        (positions@[ff]@[b as int],),
                        #[trigger] row@[ff],
                    ),
            decreases positions@.len() - f,
        {
            let frame = &positions[f];
            row.push(map(frame[b]));
            f += 1;
        }
        r.push(row);
        b += 1;
    }
    r
}

/// The body-major view of a frame-major rectangular table whose rows
/// have length `width`; entry `[b][f]` of the result is entry `[f][b]`
/// of the input.
pub open spec fn transposed<T>(t: Seq<Seq<T>>, width: nat) -> Seq<Seq<T>> {
    Seq::new(width, |b: int| Seq::new(t.len(), |f: int| t[f][b]))
}

/// Transposition is an involution: turning a rectangular frame-major
/// trajectory body-major and back returns it unchanged, so reshaping a
/// trajectory for analysis and reshaping the reconstruction back loses
/// nothing.
pub proof fn lemma_transposed_involution<T>(t: Seq<Seq<T>>, width: nat)
    requires
        forall|f: int| 0 <= f < t.len() ==> (#[trigger] t[f]).len() == width,
    ensures
        transposed(transposed(t, width), t.len()) == t,
{
    assert(transposed(transposed(t, width), t.len()) =~~= t);
}

/// Puts the backward simulation's frames back into forward time order:
/// the result holds the same frames, last first.
pub fn reverse_time<T>(frames: &mut Vec<T>)
    ensures
        final(frames)@ == old(frames)@.reverse(),
{
    let ghost orig = frames@;
    let mut r: Vec<T> = Vec::new();
    while frames.len() > 0
        invariant
            orig == frames@ + r@.reverse(),
        decreases frames@.len(),
    {
        let ghost frames1 = frames@;
        let ghost r1 = r@;
        let x = frames.pop().unwrap();
        r.push(x);
        proof {
            assert(r@.reverse() =~= seq![x] + r1.reverse());
            assert(frames@ + seq![x] =~= frames1);
            assert(frames@ + r@.reverse() =~= (frames@ + seq![x]) + r1.reverse());
        }
    }
    proof {
        assert(r@ =~= orig.reverse());
    }
    *frames = r;
}

/// Drops the final recorded sample of a trajectory. A raw simulation ends
/// where it starts, so forward and reversed-backward runs both repeat the
/// initial sample at the end; dropping it divides exactly one period into
/// equal intervals.
pub fn drop_final_sample<T>(frames: &mut Vec<T>)
    requires
        old(frames)@.len() > 0,
    ensures
        final(frames)@ == old(frames)@.drop_last(),
{
    let _ = frames.pop();
}

} // verus!
