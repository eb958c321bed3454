//! The spectrum strip's history: how each band's ten bars move on when a new level arrives.

use vstd::prelude::*;

verus! {

/// How many bars each band's history holds.
pub const NUM_BARS: usize = 10;

/// One step of a band's history: the left half moves one bar inwards, the new level takes bar 5,
/// and the right half mirrors the left one frame late.
pub open spec fn ripple_once<T>(bars: Seq<T>, value: T) -> Seq<T> {
    seq![bars[1], bars[2], bars[3], bars[4], bars[5], value, bars[4], bars[3], bars[2], bars[1]]
}

/// The history after the levels `values` arrived one after the other.
pub open spec fn ripple_all<T>(bars: Seq<T>, values: Seq<T>) -> Seq<T>
    decreases values.len(),
{
    if values.len() == 0 {
        bars
    } else {
        ripple_once(ripple_all(bars, values.drop_last()), values.last())
    }
}

/// What the history shows once at least six levels have arrived: the last six, newest in bar 5,
/// the left half one step ahead of its mirror.
pub open spec fn settled<T>(values: Seq<T>) -> Seq<T> {
    let n = values.len() as int;
    seq![
        values[n - 6],
        values[n - 5],
        values[n - 4],
        values[n - 3],
        values[n - 2],
        values[n - 1],
        values[n - 3],
        values[n - 4],
        values[n - 5],
        values[n - 6],
    ]
}

/// Shift one band's ten-bar history and drop `value` into the middle.
///
/// The left half runs one frame ahead of the right half: bar 5 shows the new value, bars 4 and 6
/// the previous ones, and so on outwards, with the left bar of each pair one frame younger than
/// its mirror. That is why the strip reads as flowing outwards rather than pulsing.
///
/// `value` is stored as given: a level outside the meter's range must be zeroed by the caller
/// before it comes here, since that range test is on a fractional level.
pub fn ripple<T: Copy>(bars: &mut [T; 10], value: T)
    ensures
        final(bars)@ == ripple_once(old(bars)@, value),
{
    let o1 = bars[1];
    let o2 = bars[2];
    let o3 = bars[3];
    let o4 = bars[4];
    let o5 = bars[5];
    *bars = [o1, o2, o3, o4, o5, value, o4, o3, o2, o1];
    proof {
        assert(bars@ =~= ripple_once(old(bars)@, value));
    }
}

/// Feeding `front` and then `back` is feeding `back` to the history `front` left.
proof fn lemma_ripple_all_split<T>(bars: Seq<T>, front: Seq<T>, back: Seq<T>)
    ensures
        ripple_all(bars, front + back) == ripple_all(ripple_all(bars, front), back),
    decreases back.len(),
{
    if back.len() == 0 {
        assert(front + back =~= front);
    } else {
        assert((front + back).drop_last() =~= front + back.drop_last());
        assert((front + back).last() == back.last());
        lemma_ripple_all_split(bars, front, back.drop_last());
    }
}

/// Six steps replace every bar of a history, whatever it held: from then on the strip shows the
/// last six levels alone, so two histories fed the same last six levels look the same.
pub proof fn lemma_six_steps_forget_the_past<T>(bars: Seq<T>, values: Seq<T>)
    requires
        bars.len() == NUM_BARS,
        values.len() >= 6,
    ensures
        ripple_all(bars, values) =~= settled(values),
{
    let n = values.len() as int;
    let front = values.subrange(0, n - 6);
    let back = values.subrange(n - 6, n);
    assert(values =~= front + back);
    lemma_ripple_all_split(bars, front, back);
    let c = ripple_all(bars, front);
    assert(back.drop_last().drop_last().drop_last().drop_last().drop_last().drop_last() =~= Seq::<T>::empty());
    reveal_with_fuel(ripple_all, 7);
    assert(ripple_all(c, back) =~= settled(values));
}

} // verus!
