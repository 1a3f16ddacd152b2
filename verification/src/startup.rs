//! What the running server shares with its handlers.
use vstd::prelude::*;

verus! {

/// The public address of the application, as handlers see it.
#[derive(Debug, Clone)]
pub struct ApplicationBaseUrl(pub String);

} // verus!
