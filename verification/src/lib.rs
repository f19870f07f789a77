//! A box that holds several weighted candidate values and settles on exactly
//! one of them the first time it is observed.
//!
//! The box lives in [`schroedinger`], the mathematical value that stands for
//! it in [`contents`], the rule by which a draw picks a candidate in
//! [`weights`], and the sources of draws in [`source`].  What the box borrows
//! from the value inside is in [`delegate`], and what holds of every box in
//! [`laws`].

pub mod contents;
pub mod delegate;
pub mod laws;
pub mod schroedinger;
pub mod source;
pub mod weights;

pub use schroedinger::{BoxError, SchroedingerBox};
pub use source::{FixedSource, RandomSource, SplitMix64};
