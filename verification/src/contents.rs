//! What a box holds, as a mathematical value.

use vstd::prelude::*;
use crate::source::RandomSource;
use crate::weights::{selected_index, total_weight};

verus! {

/// The two states of a box.
pub enum Contents<T> {
    /// Not yet observed: the weighted candidates, in the order they were
    /// given.
    Superposition(Seq<(u64, T)>),
    /// Observed: the one value that is left.
    Collapsed(T),
}

impl<T> Contents<T> {
    /// A superposition has at least one candidate, and its weights do not all
    /// vanish.
    pub open spec fn valid(self) -> bool {
        self matches Contents::Superposition(candidates) ==> {
            &&& candidates.len() > 0
            &&& total_weight(candidates) > 0
        }
    }

    /// The value of a collapsed box.
    pub open spec fn value(self) -> T
        recommends
            self is Collapsed,
    {
        self->Collapsed_0
    }

    /// The total weight of the candidates; zero once collapsed.
    pub open spec fn weight(self) -> nat {
        match self {
            Contents::Superposition(candidates) => total_weight(candidates),
            Contents::Collapsed(_) => 0,
        }
    }

    /// Whether observing the box takes a draw: it does while several
    /// candidates are left to choose from.
    pub open spec fn needs_draw(self) -> bool {
        self matches Contents::Superposition(candidates) && candidates.len() != 1
    }

    /// Whether `draw` can settle the box: any draw can once it is collapsed,
    /// and before that the draws below the total weight.
    pub open spec fn admits(self, draw: nat) -> bool {
        self is Superposition ==> draw < self.weight()
    }

    /// The value that the box shows when it is observed with `draw`.
    pub open spec fn resolved(self, draw: nat) -> T {
        match self {
            Contents::Superposition(candidates) => candidates[selected_index(candidates, draw)].1,
            Contents::Collapsed(value) => value,
        }
    }

    /// The state of the box after it is observed with `draw`.
    pub open spec fn observe(self, draw: nat) -> Contents<T> {
        Contents::Collapsed(self.resolved(draw))
    }

    /// Whether one observation may take the box from `self` to `after` while
    /// the source goes from `source` to `source_after`.
    ///
    /// Where a draw is needed, the source is asked once, for a draw below the
    /// total weight, and that draw settles the box.  Where none is needed the
    /// source is left alone.
    pub open spec fn observed<R: RandomSource>(
        self,
        source: R,
        after: Contents<T>,
        source_after: R,
    ) -> bool {
        if self.needs_draw() {
            exists|draw: u128|
                {
                    &&& draw < self.weight()
                    &&& #[trigger] source.may_draw(self.weight() as u128, draw, &source_after)
                    &&& after == self.observe(draw as nat)
                }
        } else {
            &&& source_after == source
            &&& after == self.observe(0)
        }
    }
}

/// Whether observing first `left` and then `right` with one source may take
/// them to `left_after` and `right_after` while the source goes from `source`
/// to `source_after`.
pub open spec fn observed_in_turn<T, R: RandomSource>(
    left: Contents<T>,
    right: Contents<T>,
    source: R,
    left_after: Contents<T>,
    right_after: Contents<T>,
    source_after: R,
) -> bool {
    exists|between: R|
        {
            &&& #[trigger] left.observed(source, left_after, between)
            &&& right.observed(between, right_after, source_after)
        }
}

} // verus!
