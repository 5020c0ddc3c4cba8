use vstd::prelude::*;

verus! {

/// How this layer fails. No error is ever surfaced back to the producing
/// call site as a value: propagation is strictly producer to layer to
/// sink, and the caller of a hook decides whether to abort or go on.
#[derive(Clone, Copy, PartialEq, Eq, Structural, Debug)]
pub enum LayerError {
    /// A hook referenced a span identifier the registry cannot resolve at
    /// a point the contract guarantees it must exist. Fatal: it indicates
    /// a violated invariant between producer and registry, and the layer
    /// aborts rather than fabricate an attribution.
    RegistryInconsistency,
    /// A causal-link declaration arrived but the consumer does not model
    /// causal links distinct from parent edges. Recoverable: skip, do not
    /// abort the producer.
    UnsupportedOperation,
    /// An individual field could not be rendered for the sink.
    /// Recoverable and confined to that field; the remaining fields and
    /// the overall hook call proceed.
    FieldSinkFailure,
}

} // verus!
