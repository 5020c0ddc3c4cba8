use vstd::prelude::*;

use crate::ids::SpanId;

verus! {

/// The effective parent of a new span or a free-standing event: an
/// explicit parent reference wins unconditionally; otherwise the span
/// currently active on the calling thread; otherwise none. Absence is a
/// valid outcome, not an error.
pub open spec fn resolved_parent(
    explicit: Option<SpanId>,
    current: Option<SpanId>,
) -> Option<SpanId> {
    if explicit is Some {
        explicit
    } else {
        current
    }
}

/// Context resolver: a pure choice between the two already-resolved
/// inputs. It inspects no state of its own.
pub fn resolve_parent(explicit: Option<SpanId>, current: Option<SpanId>) -> (r: Option<SpanId>)
    ensures
        r == resolved_parent(explicit, current),
{
    match explicit {
        Some(p) => Some(p),
        None => current,
    }
}

/// Law: a span or event with an explicit parent is attributed to that
/// parent regardless of what is active on the calling thread.
pub proof fn lemma_explicit_parent_wins(p: SpanId, current: Option<SpanId>)
    ensures
        resolved_parent(Some(p), current) == Some(p),
{
}

/// Law: without an explicit parent, the thread's active span decides; if
/// the thread has no active span, the result is no parent at all.
pub proof fn lemma_contextual_parent(current: Option<SpanId>)
    ensures
        resolved_parent(None, current) == current,
        current is None ==> resolved_parent(None, current) is None,
{
}

} // verus!
