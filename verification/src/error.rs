//! The ways in which a request for a shape or a measurement can be wrong.

use vstd::prelude::*;

verus! {

/// A request that no outline or measurement answers. Each is a mistake of
/// the caller, found before anything is drawn.
#[derive(Clone, Copy, Debug, PartialEq, Eq, Structural)]
pub enum ConfigurationError {
    /// A width, height, diameter, symbol size or font size is zero or
    /// negative, or a font counts no units to the em.
    NonPositiveSize,
    /// A corner radius is negative.
    NegativeRadius,
    /// A corner radius is more than half the smaller side of its rectangle.
    RadiusTooLarge,
    /// A coordinate or a length of the result does not fit in an `i64`.
    Overflow,
}

} // verus!
