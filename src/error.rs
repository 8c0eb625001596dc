use vstd::prelude::*;

verus! {

/// The fatal failures of one generation pass.
#[derive(Debug, Clone, PartialEq, Eq)]
pub enum GenError {
    /// The claimed protocol name is not one of the registry's identities.
    UnknownProtocol { claimed: String },
    /// A recognized method declares a parameter count that its catalog entry rejects.
    ArityMismatch { method: String, expected: usize, found: usize },
    /// Two bindings of one compilation unit derive the same symbol.
    SymbolCollision { symbol: String },
}

/// Mathematical model of a `GenError`.
pub enum ErrorView {
    UnknownProtocol { claimed: Seq<char> },
    ArityMismatch { method: Seq<char>, expected: nat, found: nat },
    SymbolCollision { symbol: Seq<char> },
}

impl View for GenError {
    type V = ErrorView;

    open spec fn view(&self) -> ErrorView {
        match self {
            GenError::UnknownProtocol { claimed } => ErrorView::UnknownProtocol { claimed: claimed@ },
            GenError::ArityMismatch { method, expected, found } => ErrorView::ArityMismatch {
                method: method@,
                expected: *expected as nat,
                found: *found as nat,
            },
            GenError::SymbolCollision { symbol } => ErrorView::SymbolCollision { symbol: symbol@ },
        }
    }
}

} // verus!
