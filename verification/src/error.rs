//! Errors surfaced by the bridge.

use vstd::prelude::*;

verus! {

/// Failure taxonomy of the bridging layer. A native-reported failure is
/// carried as text and annotated with which operation failed; a completion
/// channel that closes without ever publishing a result is an internal
/// consistency breach of the bridge contract, not an ordinary failure.
pub enum BridgeError {
    /// The native layer reported a failure, as human-readable text, while
    /// the bridge was running the named operation.
    Operation { context: String, message: String },
    /// A pending completion channel was dropped without ever publishing.
    ContractViolation,
}

impl BridgeError {
    /// The failure text reported by the native layer, if any.
    pub fn message(&self) -> (m: Option<&String>)
        ensures
            self matches BridgeError::Operation { message, .. } ==> (m matches Some(s)
                && s@ == message@),
            self is ContractViolation ==> m is None,
    {
        match self {
            BridgeError::Operation { message, .. } => Some(message),
            BridgeError::ContractViolation => None,
        }
    }
}

} // verus!
