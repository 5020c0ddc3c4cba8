use vstd::prelude::*;

verus! {

/// An opaque, process-unique, copyable token naming one span instance.
/// It carries no data of its own; it is a reference into the registry.
#[derive(Clone, Copy, PartialEq, Eq, Structural, Debug, Hash)]
pub struct SpanId {
    pub raw: u64,
}

/// Severity attached to a span's or event's metadata.
#[derive(Clone, Copy, PartialEq, Eq, Structural, Debug)]
pub enum Level {
    Trace,
    Debug,
    Info,
    Warn,
    Error,
}

} // verus!
