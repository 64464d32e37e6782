//! Entry sequence of an application: construct its builder, then run it.
//!
//! The builder itself is opaque here. The two operations it offers, a
//! parameterless construction and a run operation that consumes the builder,
//! are handed in as function values, so that the same sequence serves a native
//! process entry, a mobile entry point and a test double alike.

use vstd::prelude::*;

verus! {

/// `outcome` is what the run operation `start` can return for a builder that
/// the construction `construct` can return.
pub open spec fn is_outcome_of_launch<B, O, C: FnOnce() -> B, R: FnOnce(B) -> O>(
    construct: C,
    start: R,
    outcome: O,
) -> bool {
    exists|builder: B| #[trigger]
        construct.ensures((), builder) && start.ensures((builder,), outcome)
}

/// Constructs the application builder, then runs it, and hands back whatever
/// the run operation returned.
///
/// Both operations are taken by value and can therefore be invoked at most
/// once. The contract adds that the value returned stems from running a
/// builder that the construction produced: the construction comes first, the
/// run operation receives its result and nothing else, and what the run
/// operation returns is passed on unchanged.
///
/// Nothing is caught or converted: whatever the two operations do when they
/// fail is theirs to define.
pub fn run<B, O, C, R>(construct: C, start: R) -> (outcome: O) where
    C: FnOnce() -> B,
    R: FnOnce(B) -> O,

    requires
        construct.requires(()),
        forall|builder: B| construct.ensures((), builder) ==> start.requires((builder,)),
    ensures
        is_outcome_of_launch(construct, start, outcome),
{
    let builder = construct();
    start(builder)
}

} // verus!
