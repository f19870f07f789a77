//! The box itself.

use vstd::prelude::*;
use crate::contents::Contents;
use crate::source::RandomSource;
use crate::weights::{prefix_weight, select, sum_weights, total_weight};

verus! {

/// Why a box could not be made.
#[derive(Clone, Copy, Debug, PartialEq, Eq, Structural)]
pub enum BoxError {
    /// No candidate was given.
    EmptyCandidateSet,
    /// Candidates were given, but every weight is zero.
    ZeroTotalWeight,
}

enum State<T> {
    Superposition(Vec<(u64, T)>),
    Collapsed(T),
}

/// A box that holds many values, and collapses into one of them when it is
/// opened for the first time.
///
/// Each candidate has a weight, and the chance that the box settles on a
/// candidate is its weight divided by the weight of all candidates.  Once
/// settled, the box shows the same value for good.
///
/// Every observation takes the box by exclusive reference or by value, so
/// no two observers can open the same box at once.
pub struct SchroedingerBox<T> {
    state: State<T>,
}

/// The candidates that `values` make when each is given the weight one.
pub open spec fn uniform<T>(values: Seq<T>) -> Seq<(u64, T)> {
    Seq::new(values.len(), |i: int| (1u64, values[i]))
}

/// Equally weighted candidates weigh as much as there are of them.
pub proof fn lemma_uniform_weight<T>(values: Seq<T>, k: int)
    requires
        0 <= k <= values.len(),
    ensures
        prefix_weight(uniform(values), k) == k,
    decreases k,
{
    if k > 0 {
        lemma_uniform_weight(values, k - 1);
    }
}

impl<T> View for SchroedingerBox<T> {
    type V = Contents<T>;

    closed spec fn view(&self) -> Contents<T> {
        match self.state {
            State::Superposition(candidates) => Contents::Superposition(candidates@),
            State::Collapsed(value) => Contents::Collapsed(value),
        }
    }
}

impl<T> SchroedingerBox<T> {
    /// The invariant of every box: what it holds is valid.
    pub open spec fn wf(&self) -> bool {
        self@.valid()
    }

    /// Creates a box from a set of states, each as likely as any other.
    pub fn new(states: Vec<T>) -> (made: Result<Self, BoxError>)
        ensures
            states@.len() == 0 <==> made matches Err(BoxError::EmptyCandidateSet),
            states@.len() > 0 <==> made is Ok,
            made matches Ok(b) ==> b.wf() && b@ == Contents::Superposition(uniform(states@)),
    {
        let ghost values = states@;
        let mut weighted: Vec<(u64, T)> = Vec::new();
        for state in it: states
            invariant
                it.seq() == values,
                weighted@ == uniform(values.take(it.index() as int)),
        {
            weighted.push((1, state));
        }
        assert(weighted@ == uniform(values)) by {
            assert(values.take(values.len() as int) == values);
        }
        if weighted.len() == 0 {
            Err(BoxError::EmptyCandidateSet)
        } else {
            proof {
                lemma_uniform_weight(values, values.len() as int);
            }
            Ok(SchroedingerBox { state: State::Superposition(weighted) })
        }
    }

    /// Creates a box from a set of states, each with a weight.
    ///
    /// A set of states `[(1, true), (5, false)]` makes a box that is `false`
    /// five sixths of the time and `true` one sixth of the time.
    pub fn from_probabilities(states: Vec<(u64, T)>) -> (made: Result<Self, BoxError>)
        ensures
            states@.len() == 0 <==> made matches Err(BoxError::EmptyCandidateSet),
            states@.len() > 0 && total_weight(states@) == 0 <==> made matches Err(
                BoxError::ZeroTotalWeight,
            ),
            states@.len() > 0 && total_weight(states@) > 0 <==> made is Ok,
            made matches Ok(b) ==> b.wf() && b@ == Contents::Superposition(states@),
    {
        if states.len() == 0 {
            Err(BoxError::EmptyCandidateSet)
        } else if sum_weights(&states) == 0 {
            Err(BoxError::ZeroTotalWeight)
        } else {
            Ok(SchroedingerBox { state: State::Superposition(states) })
        }
    }

    /// A box that has already settled on `value`.
    pub(crate) fn settled(value: T) -> (made: Self)
        ensures
            made@ == Contents::Collapsed(value),
    {
        SchroedingerBox { state: State::Collapsed(value) }
    }

    /// The range that the next observation draws from: `Some(bound)` where
    /// it takes a draw from `[0, bound)`, `None` where it takes none.
    pub fn draw_range(&self) -> (range: Option<u128>)
        requires
            self.wf(),
        ensures
            match range {
                Some(bound) => self@.needs_draw() && bound == self@.weight(),
                None => !self@.needs_draw(),
            },
    {
        match &self.state {
            State::Superposition(candidates) => {
                if candidates.len() == 1 {
                    None
                } else {
                    Some(sum_weights(candidates))
                }
            },
            State::Collapsed(_) => None,
        }
    }

    /// Settles the box with a draw that the caller has made.
    ///
    /// A box in superposition collapses into the candidate that `draw` picks:
    /// the first one, in the order given, up to which the weights add up to
    /// more than `draw`.  The other candidates are dropped.  A collapsed box
    /// stays as it is.
    pub fn collapse_with(&mut self, draw: u128)
        requires
            old(self).wf(),
            old(self)@.admits(draw as nat),
        ensures
            final(self)@ == old(self)@.observe(draw as nat),
    {
        match &mut self.state {
            State::Superposition(candidates) => {
                let index = select(candidates, draw);
                let (_, value) = candidates.swap_remove(index);
                self.state = State::Collapsed(value);
            },
            State::Collapsed(_) => {},
        }
    }

    /// Settles the box, asking `rng` for a draw where one is needed.
    pub fn collapse<R: RandomSource>(&mut self, rng: &mut R)
        requires
            old(self).wf(),
        ensures
            old(self)@.observed(*old(rng), final(self)@, *final(rng)),
    {
        match self.draw_range() {
            Some(bound) => {
                let draw = rng.below(bound);
                self.collapse_with(draw);
                assert(old(rng).may_draw(old(self)@.weight() as u128, draw, &*rng));
            },
            None => {
                self.collapse_with(0);
            },
        }
    }

    /// Opens the box and shows the value inside, collapsing any superposition
    /// into a definite state if needed.
    pub fn peek<R: RandomSource>(&mut self, rng: &mut R) -> (value: &T)
        requires
            old(self).wf(),
        ensures
            old(self)@.observed(*old(rng), final(self)@, *final(rng)),
            final(self)@ == Contents::Collapsed(*value),
    {
        self.collapse(rng);
        match &self.state {
            State::Collapsed(value) => value,
            State::Superposition(_) => vstd::pervasive::unreached(),
        }
    }

    /// Opens the box and hands out the value inside for modification,
    /// collapsing any superposition into a definite state if needed.
    ///
    /// The box ends up holding whatever the caller leaves behind the
    /// reference.
    pub fn peek_mut<R: RandomSource>(&mut self, rng: &mut R) -> (value: &mut T)
        requires
            old(self).wf(),
        ensures
            old(self)@.observed(*old(rng), Contents::Collapsed(*value), *final(rng)),
            final(self)@ == Contents::Collapsed(*final(value)),
    {
        self.collapse(rng);
        match &mut self.state {
            State::Collapsed(value) => value,
            State::Superposition(_) => vstd::pervasive::unreached(),
        }
    }

    /// Moves the value inside the box out, consuming the box and collapsing
    /// any superposition into a definite state if needed.
    pub fn into_inner<R: RandomSource>(self, rng: &mut R) -> (value: T)
        requires
            self.wf(),
        ensures
            self@.observed(*old(rng), Contents::Collapsed(value), *final(rng)),
    {
        let mut opened = self;
        opened.collapse(rng);
        match opened.state {
            State::Collapsed(value) => value,
            State::Superposition(_) => vstd::pervasive::unreached(),
        }
    }
}

} // verus!
