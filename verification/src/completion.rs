//! Plain text completion.

use vstd::prelude::*;

verus! {

/// A backend that continues a text.
pub trait CompletionProvider {
    /// The continuation of `context`.
    fn complete(&self, context: &str) -> &str;
}

} // verus!
