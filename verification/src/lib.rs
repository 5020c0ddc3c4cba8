//! An instrumentation core that reconstructs the causal context of
//! structured diagnostic records: which span was active when a record was
//! made, which span is the parent of which, and which fields were attached
//! to each span or event.
//!
//! The crate models the registry of live spans and their per-thread
//! activation stacks explicitly, resolves the effective parent of new spans
//! and free-standing events, and renders each lifecycle hook into plain
//! text lines for an arbitrary sink. Wiring into a concrete diagnostics
//! framework lives outside the core.

pub mod errors;
pub mod fields;
pub mod ids;
pub mod layer;
pub mod registry;
pub mod resolve;
pub mod text;
pub mod visit;

pub use ids::Level;
pub use ids::SpanId;
pub use layer::BooLog;
