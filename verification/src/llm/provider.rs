//! What every model provider tells of itself.

use vstd::prelude::*;

verus! {

/// A model provider; asking it for a completion is the application's part.
pub trait LLMProvider {
    /// The name of the model.
    fn model(&self) -> &str;

    /// Whether the provider has what it needs to be asked.
    fn is_configured(&self) -> bool;
}

} // verus!
