//! Shared error taxonomy.
//!
//! Every error type exposed across a CLI, IPC or desktop boundary implements
//! [`CompanionError`], so those surfaces can render a stable code and a
//! retryable flag without knowing the concrete error type. Implementors
//! never put secret material (private keys, tokens, pairing codes) in what
//! they expose.

use vstd::prelude::*;

verus! {

/// A stable, cross-surface description of an error.
pub trait CompanionError {
    /// The stable machine-readable code.
    spec fn spec_code(&self) -> Seq<char>;

    /// Whether retrying the same request might succeed without user action.
    spec fn spec_retryable(&self) -> bool;

    /// A stable machine-readable code, e.g. `"CONFIG_INVALID_FILE"`.
    fn code(&self) -> (code: &'static str)
        ensures
            code@ == self.spec_code(),
    ;

    /// Whether retrying the same request might succeed without user action.
    fn retryable(&self) -> (r: bool)
        ensures
            r == self.spec_retryable(),
    ;
}

} // verus!
