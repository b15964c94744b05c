//! Layout options for the grid view that the renderer consumes.

use vstd::prelude::*;

verus! {

/// Relies on term_grid::Direction: the two orders in which a grid is
/// filled.
#[verifier::external_type_specification]
#[verifier::external_body]
pub struct ExDirection(term_grid::Direction);

/// How the grid of file names is laid out.
#[derive(Debug, Clone, Copy, PartialEq, Eq, Structural)]
pub struct Options {
    /// Fill rows first instead of columns.
    pub across: bool,
}

impl Options {
    /// Relies on term_grid::Direction's variants: rows are filled first
    /// when `across` is set, columns first otherwise.
    #[verifier::external_body]
    pub fn direction(self) -> term_grid::Direction {
        if self.across {
            term_grid::Direction::LeftToRight
        } else {
            term_grid::Direction::TopToBottom
        }
    }
}

} // verus!
