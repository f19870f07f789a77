//! What holds of every box, whatever it holds and whatever is drawn.

use vstd::prelude::*;
use crate::contents::Contents;
use crate::source::{determined, FixedSource, RandomSource, SplitMix64};
use crate::weights::{
    lemma_prefix_weight_monotone, lemma_selected_index, prefix_weight, selected_index, selects,
    total_weight,
};

verus! {

/// The state of a box after it has been observed once for each of `draws`, in
/// their order.
pub open spec fn observe_each<T>(contents: Contents<T>, draws: Seq<nat>) -> Contents<T>
    decreases draws.len(),
{
    if draws.len() == 0 {
        contents
    } else {
        observe_each(contents.observe(draws[0]), draws.drop_first())
    }
}

/// A box collapses once.  Observing it again, with whatever draw, leaves it
/// as the first observation left it and shows the value that the first
/// observation showed.
pub proof fn law_single_collapse<T>(contents: Contents<T>, first: nat, later: nat)
    ensures
        contents.observe(first) is Collapsed,
        contents.observe(first).valid(),
        !contents.observe(first).needs_draw(),
        contents.observe(first).observe(later) == contents.observe(first),
        contents.observe(first).resolved(later) == contents.resolved(first),
{
}

/// However often a box is observed, and whatever is drawn after the first
/// time, it ends up as the first observation left it.
pub proof fn law_repeated_observation<T>(contents: Contents<T>, draws: Seq<nat>)
    requires
        draws.len() >= 1,
    ensures
        observe_each(contents, draws) == contents.observe(draws[0]),
    decreases draws.len(),
{
    let rest = draws.drop_first();
    if rest.len() > 0 {
        law_repeated_observation(contents.observe(draws[0]), rest);
        law_single_collapse(contents, draws[0], rest[0]);
    } else {
        assert(observe_each(contents.observe(draws[0]), rest) == contents.observe(draws[0]));
    }
}

/// A second observation changes nothing and asks the source for nothing.
///
/// If one observation may take a box from `contents` to `shown`, then any
/// further observation leaves the box at `shown` and the source where it
/// was.
pub proof fn law_observed_again<T, R: RandomSource>(
    contents: Contents<T>,
    source: R,
    shown: Contents<T>,
    source_shown: R,
    again: Contents<T>,
    source_again: R,
)
    requires
        contents.observed(source, shown, source_shown),
        shown.observed(source_shown, again, source_again),
    ensures
        shown is Collapsed,
        again == shown,
        source_again == source_shown,
{
}

/// Moving the value out of a box gives the value that a look into the box
/// has shown before.
///
/// If a look may take a box from `contents` to `shown`, and moving the value
/// out of the box thereafter may give `moved`, then `moved` is the value that
/// was shown, and the source is not asked a second time.
pub proof fn law_into_inner_after_peek<T, R: RandomSource>(
    contents: Contents<T>,
    source: R,
    shown: Contents<T>,
    source_shown: R,
    moved: T,
    source_moved: R,
)
    requires
        contents.observed(source, shown, source_shown),
        shown.observed(source_shown, Contents::Collapsed(moved), source_moved),
    ensures
        shown == Contents::Collapsed(moved),
        source_moved == source_shown,
{
}

/// Moving the value out of a box gives the value that a look into it would
/// have shown instead, where the source leaves no choice.
///
/// Take a box and a source that has only one answer to give for the box's
/// weight.  If a look may take the box to `shown`, and moving the value out
/// in place of the look may give `moved`, then `shown` holds `moved`.
pub proof fn law_into_inner_in_place_of_peek<T, R: RandomSource>(
    contents: Contents<T>,
    source: R,
    shown: Contents<T>,
    source_shown: R,
    moved: T,
    source_moved: R,
)
    requires
        determined(source, contents.weight() as u128),
        contents.observed(source, shown, source_shown),
        contents.observed(source, Contents::Collapsed(moved), source_moved),
    ensures
        shown == Contents::Collapsed(moved),
{
}

/// A fixed source decides what a box settles on: the candidate picked by the
/// source's number, reduced into the range of the box's weight.  The source
/// itself stays as it is.
pub proof fn law_fixed_source_decides<T>(
    contents: Contents<T>,
    source: FixedSource,
    shown: Contents<T>,
    source_shown: FixedSource,
)
    requires
        contents.observed(source, shown, source_shown),
    ensures
        source_shown == source,
        determined(source, contents.weight() as u128),
        contents.needs_draw() ==> shown == contents.observe(
            (source.value % (contents.weight() as u128)) as nat,
        ),
{
}

/// A seeded generator decides what a box settles on: equal states of the
/// generator lead a box to equal outcomes.
pub proof fn law_seeded_source_decides<T>(
    contents: Contents<T>,
    source: SplitMix64,
    shown: Contents<T>,
    source_shown: SplitMix64,
    other: Contents<T>,
    source_other: SplitMix64,
)
    requires
        contents.observed(source, shown, source_shown),
        contents.observed(source, other, source_other),
    ensures
        determined(source, contents.weight() as u128),
        shown == other,
        source_shown.state() == source_other.state(),
{
}

/// With the same draw, moving the value out and looking at it give the same
/// value: both give the candidate that the draw picks.
pub proof fn law_same_draw_same_value<T>(contents: Contents<T>, draw: nat)
    ensures
        contents.observe(draw).value() == contents.resolved(draw),
        contents is Collapsed ==> contents.resolved(draw) == contents.value(),
        contents matches Contents::Superposition(candidates) ==> contents.resolved(draw)
            == candidates[selected_index(candidates, draw)].1,
{
}

/// A box with a single candidate settles on that candidate, and takes no
/// draw to do so.
pub proof fn law_single_candidate<T, R: RandomSource>(
    weight: u64,
    value: T,
    source: R,
    shown: Contents<T>,
    source_shown: R,
)
    requires
        weight > 0,
        Contents::Superposition(seq![(weight, value)]).observed(source, shown, source_shown),
    ensures
        Contents::Superposition(seq![(weight, value)]).valid(),
        !Contents::Superposition(seq![(weight, value)]).needs_draw(),
        shown == Contents::Collapsed(value),
        source_shown == source,
{
    let candidates = seq![(weight, value)];
    reveal_with_fuel(prefix_weight, 2);
    assert(selects(candidates, 0, 0));
    lemma_selected_index(candidates, 0);
}

/// Every draw below the total weight picks exactly one candidate, and that
/// candidate has a weight above zero: a candidate of weight zero is never
/// picked.
pub proof fn law_selection<T>(candidates: Seq<(u64, T)>, draw: nat)
    requires
        draw < total_weight(candidates),
    ensures
        0 <= selected_index(candidates, draw) < candidates.len(),
        selects(candidates, draw, selected_index(candidates, draw)),
        forall|index: int|
            selects(candidates, draw, index) ==> index == selected_index(candidates, draw),
        candidates[selected_index(candidates, draw)].0 > 0,
{
    lemma_selected_index(candidates, draw);
}

/// The picked candidate is the first whose prefix outweighs the draw: every
/// shorter prefix weighs at most the draw.
pub proof fn law_smallest_prefix<T>(candidates: Seq<(u64, T)>, draw: nat, shorter: int)
    requires
        draw < total_weight(candidates),
        0 <= shorter <= selected_index(candidates, draw),
    ensures
        prefix_weight(candidates, shorter) <= draw,
        prefix_weight(candidates, selected_index(candidates, draw) + 1) > draw,
{
    lemma_selected_index(candidates, draw);
    lemma_prefix_weight_monotone(candidates, shorter, selected_index(candidates, draw));
}

/// A copy of a box and the box itself show values that the copying relates,
/// whether the box was observed before it was copied or not.
///
/// Copying observes the box, which may take it from `contents` to `shown`,
/// and makes the copy from the value then shown.  Observing the copy and the
/// box afterwards, in either order and with whatever draws, leaves both as
/// they are and shows the copied value and the value it was copied from.
/// Where copies of `T` equal what they are copied from, the two values are
/// equal.  Where the box had been observed before, the copying leaves it as
/// it was and asks the source for nothing.
pub proof fn law_clone_after_collapse<T: Clone, R: RandomSource>(
    contents: Contents<T>,
    source: R,
    shown: Contents<T>,
    source_shown: R,
    copy: Contents<T>,
    draw_copy: nat,
    draw_box: nat,
)
    requires
        contents.observed(source, shown, source_shown),
        copy is Collapsed,
        cloned(shown.value(), copy.value()),
    ensures
        copy.observe(draw_copy) == copy,
        shown.observe(draw_box) == shown,
        cloned(shown.resolved(draw_box), copy.resolved(draw_copy)),
        (forall|from: T, to: T| cloned(from, to) ==> from == to) ==> shown.resolved(draw_box)
            == copy.resolved(draw_copy),
        contents is Collapsed ==> shown == contents && source_shown == source,
{
}

} // verus!
