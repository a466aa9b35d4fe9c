//! A function type that users can implement.

use vstd::prelude::*;

verus! {

/// A function from `Input` that is named by a type.
///
/// `call` takes no `self`, so a `Func` cannot capture anything: it is a
/// plain function, not a closure.
pub trait Func<Input> {
    /// The type of the results.
    type Output;

    /// Whether the function accepts the argument.
    spec fn accepts(i: Input) -> bool;

    /// Whether the function may return `o` for the argument `i`.
    spec fn yields(i: Input, o: Self::Output) -> bool;

    /// Calls the function.
    fn call(i: Input) -> (o: Self::Output)
        requires
            Self::accepts(i),
        ensures
            Self::yields(i, o),
    ;
}

} // verus!
