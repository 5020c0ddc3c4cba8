use vstd::prelude::*;

use crate::errors::LayerError;
use crate::fields::Field;
use crate::fields::FieldV;
use crate::ids::Level;
use crate::ids::SpanId;
use crate::registry::SpanEntry;
use crate::registry::SpanEntryV;
use crate::registry::SpanLink;
use crate::registry::SpanRegistry;
use crate::resolve::resolve_parent;
use crate::resolve::resolved_parent;
use crate::text::event_header_text;
use crate::text::link_text;
use crate::text::record_header_text;
use crate::text::render_event_header;
use crate::text::render_link;
use crate::text::render_record_header;
use crate::text::render_span_header;
use crate::text::span_header_text;
use crate::visit::field_lines;
use crate::visit::visit_fields;

verus! {

/// What a producer supplies when a span instance is created: the
/// callsite's metadata, an optional explicit parent reference (the
/// documented mechanism for deliberate cross-thread attribution), and the
/// fields present at creation time.
pub struct SpanAttributes {
    pub name: String,
    pub level: Level,
    pub parent: Option<SpanId>,
    pub fields: Vec<Field>,
}

/// A free-standing diagnostic occurrence: synthesized metadata, fields,
/// and an optional explicit parent. Events exist only for the duration of
/// the hook call and are never stored by the core.
pub struct EventData {
    pub name: String,
    pub level: Level,
    pub parent: Option<SpanId>,
    pub fields: Vec<Field>,
}

/// The lines emitted for a span-creation record.
pub open spec fn span_record(
    id: SpanId,
    name: Seq<char>,
    parent: Option<SpanId>,
    fields: Seq<FieldV>,
) -> Seq<Seq<char>> {
    seq![span_header_text(id, name, parent)] + field_lines(fields)
}

/// The lines emitted for a field-update record.
pub open spec fn update_record(id: SpanId, fields: Seq<FieldV>) -> Seq<Seq<char>> {
    seq![record_header_text(id)] + field_lines(fields)
}

/// The lines emitted for an event record.
pub open spec fn event_record(
    name: Seq<char>,
    parent: Option<SpanId>,
    fields: Seq<FieldV>,
) -> Seq<Seq<char>> {
    seq![event_header_text(name, parent)] + field_lines(fields)
}

/// The instrumentation layer together with the registry it is attached
/// to. On each lifecycle hook it resolves context, visits fields, and
/// returns one structured record as plain text lines for the caller's
/// sink; the layer itself keeps no state beyond the registry.
pub struct BooLog {
    pub registry: SpanRegistry,
    pub links_supported: bool,
}

impl BooLog {
    /// The attached registry.
    pub open spec fn reg(self) -> SpanRegistry {
        self.registry
    }

    /// Whether the attached consumer models causal links as a relation of
    /// their own, separate from parent edges.
    pub open spec fn links_modeled(self) -> bool {
        self.links_supported
    }

    /// A layer over a fresh registry, with causal links modeled.
    pub fn new() -> (r: BooLog)
        ensures
            r.links_modeled(),
            forall|id: SpanId| r.reg().span_of(id) is None,
            forall|t: u64| r.reg().stack_of(t) == Seq::<SpanId>::empty(),
            r.reg().links_of() == Seq::<SpanLink>::empty(),
    {
        BooLog { registry: SpanRegistry::new(), links_supported: true }
    }

    /// A layer whose consumer does not model causal links: declaring one
    /// is then a recoverable unsupported operation, skipped, never fatal.
    pub fn without_link_support() -> (r: BooLog)
        ensures
            !r.links_modeled(),
            forall|id: SpanId| r.reg().span_of(id) is None,
            forall|t: u64| r.reg().stack_of(t) == Seq::<SpanId>::empty(),
            r.reg().links_of() == Seq::<SpanLink>::empty(),
    {
        BooLog { registry: SpanRegistry::new(), links_supported: false }
    }

    /// Span-created hook. Resolves the parent — the explicit reference if
    /// one was supplied, else the span currently active on the calling
    /// thread, else none — stores the new entry with that parent fixed for
    /// good, and emits one record with the creation-time fields. An
    /// identifier the registry already holds is a fatal inconsistency
    /// between producer and registry: nothing is stored or emitted.
    pub fn new_span(&mut self, attrs: SpanAttributes, id: SpanId, thread: u64) -> (r: Result<
        Vec<String>,
        LayerError,
    >)
        ensures
            final(self).links_modeled() == old(self).links_modeled(),
            old(self).reg().has_span(id) ==> {
                &&& r matches Err(e) && e == LayerError::RegistryInconsistency
                &&& *final(self) == *old(self)
            },
            !old(self).reg().has_span(id) ==> {
                &&& r matches Ok(lines) && lines.deep_view() == span_record(
                    id,
                    attrs.name@,
                    resolved_parent(attrs.parent, old(self).reg().current_of(thread)),
                    attrs.fields.deep_view(),
                )
                &&& final(self).reg().span_of(id) == Some(
                    SpanEntryV {
                        id,
                        name: attrs.name@,
                        level: attrs.level,
                        parent: resolved_parent(attrs.parent, old(self).reg().current_of(thread)),
                        fields: attrs.fields.deep_view(),
                    },
                )
                &&& forall|id2: SpanId|
                    id2 != id ==> final(self).reg().span_of(id2) == old(self).reg().span_of(id2)
            },
            forall|t: u64| final(self).reg().stack_of(t) == old(self).reg().stack_of(t),
            final(self).reg().links_of() == old(self).reg().links_of(),
    {
        if self.registry.lookup(id).is_some() {
            return Err(LayerError::RegistryInconsistency);
        }
        let SpanAttributes { name, level, parent: explicit, fields } = attrs;
        let current = self.registry.current_span(thread);
        let parent = resolve_parent(explicit, current);
        let header = render_span_header(id, name.as_str(), parent);
        let ghost hv = header@;
        let mut lines: Vec<String> = Vec::new();
        lines.push(header);
        let mut flines = visit_fields(&fields);
        let ghost fls = flines.deep_view();
        lines.append(&mut flines);
        proof {
            assert(lines.deep_view() =~= seq![hv] + fls);
        }
        self.registry.insert(SpanEntry { id, name, level, parent, fields });
        Ok(lines)
    }

    /// Field-update hook: visits and emits the incoming fields and
    /// appends them to the span's recording log, so each name maps to the
    /// last value recorded for it. An update never alters the span's
    /// name, parent or severity, and touches no other span. An unknown
    /// identifier stores nothing — a silent no-op left to the registry to
    /// resolve — but the fields are still emitted.
    pub fn on_record(&mut self, id: SpanId, values: Vec<Field>) -> (lines: Vec<String>)
        ensures
            lines.deep_view() == update_record(id, values.deep_view()),
            final(self).links_modeled() == old(self).links_modeled(),
            old(self).reg().has_span(id) ==> final(self).reg().span_of(id) == Some(
                SpanEntryV {
                    fields: old(self).reg().span_of(id)->Some_0.fields + values.deep_view(),
                    ..old(self).reg().span_of(id)->Some_0
                },
            ),
            !old(self).reg().has_span(id) ==> final(self).reg().span_of(id) == old(
                self,
            ).reg().span_of(id),
            forall|id2: SpanId|
                id2 != id ==> final(self).reg().span_of(id2) == old(self).reg().span_of(id2),
            forall|t: u64| final(self).reg().stack_of(t) == old(self).reg().stack_of(t),
            final(self).reg().links_of() == old(self).reg().links_of(),
    {
        let header = render_record_header(id);
        let ghost hv = header@;
        let mut lines: Vec<String> = Vec::new();
        lines.push(header);
        let mut flines = visit_fields(&values);
        let ghost fls = flines.deep_view();
        lines.append(&mut flines);
        proof {
            assert(lines.deep_view() =~= seq![hv] + fls);
        }
        let _stored = self.registry.record_fields(id, values);
        lines
    }

    /// Causal-link hook: declares that one span follows from another — a
    /// relation of its own, recorded beside the span forest and never
    /// conflated with the parent edge. No span entry and no activation
    /// stack changes, so context resolution is unaffected. A consumer
    /// without link support makes this a recoverable unsupported
    /// operation: nothing is recorded or emitted, and the producer is not
    /// aborted.
    pub fn on_follows_from(&mut self, id: SpanId, follows: SpanId) -> (r: Result<
        Vec<String>,
        LayerError,
    >)
        ensures
            final(self).links_modeled() == old(self).links_modeled(),
            forall|id2: SpanId| final(self).reg().span_of(id2) == old(self).reg().span_of(id2),
            forall|t: u64| final(self).reg().stack_of(t) == old(self).reg().stack_of(t),
            old(self).links_modeled() ==> {
                &&& r matches Ok(lines) && lines.deep_view() == seq![link_text(id, follows)]
                &&& final(self).reg().links_of() == old(self).reg().links_of().push(
                    SpanLink { from: id, to: follows },
                )
            },
            !old(self).links_modeled() ==> {
                &&& r matches Err(e) && e == LayerError::UnsupportedOperation
                &&& final(self).reg().links_of() == old(self).reg().links_of()
            },
    {
        if !self.links_supported {
            return Err(LayerError::UnsupportedOperation);
        }
        let line = render_link(id, follows);
        let ghost lv = line@;
        let mut lines: Vec<String> = Vec::new();
        lines.push(line);
        proof {
            assert(lines.deep_view() =~= seq![lv]);
        }
        self.registry.add_link(SpanLink { from: id, to: follows });
        Ok(lines)
    }

    /// Event hook: resolves the event's attributed span exactly as span
    /// creation does — explicit parent, else the calling thread's current
    /// span, else none — and emits the event's fields. Events are
    /// forwarded once and never stored; the hook reads the registry and
    /// mutates nothing.
    pub fn on_event(&self, event: &EventData, thread: u64) -> (lines: Vec<String>)
        ensures
            lines.deep_view() == event_record(
                event.name@,
                resolved_parent(event.parent, self.reg().current_of(thread)),
                event.fields.deep_view(),
            ),
    {
        let current = self.registry.current_span(thread);
        let parent = resolve_parent(event.parent, current);
        let header = render_event_header(event.name.as_str(), parent);
        let ghost hv = header@;
        let mut lines: Vec<String> = Vec::new();
        lines.push(header);
        let mut flines = visit_fields(&event.fields);
        let ghost fls = flines.deep_view();
        lines.append(&mut flines);
        proof {
            assert(lines.deep_view() =~= seq![hv] + fls);
        }
        lines
    }

    /// Marks a span as entered on a thread: pushed onto that thread's
    /// activation stack, read from here on by context resolution.
    pub fn enter(&mut self, thread: u64, id: SpanId)
        ensures
            final(self).links_modeled() == old(self).links_modeled(),
            final(self).reg().stack_of(thread) == old(self).reg().stack_of(thread).push(id),
            forall|t: u64|
                t != thread ==> final(self).reg().stack_of(t) == old(self).reg().stack_of(t),
            forall|id2: SpanId| final(self).reg().span_of(id2) == old(self).reg().span_of(id2),
            final(self).reg().links_of() == old(self).reg().links_of(),
    {
        self.registry.enter(thread, id);
    }

    /// Marks the most recently entered span on a thread as exited; with
    /// no active span this is a no-op.
    pub fn exit(&mut self, thread: u64)
        ensures
            final(self).links_modeled() == old(self).links_modeled(),
            old(self).reg().stack_of(thread).len() == 0 ==> final(self).reg().stack_of(thread)
                == old(self).reg().stack_of(thread),
            old(self).reg().stack_of(thread).len() > 0 ==> final(self).reg().stack_of(thread)
                == old(self).reg().stack_of(thread).drop_last(),
            forall|t: u64|
                t != thread ==> final(self).reg().stack_of(t) == old(self).reg().stack_of(t),
            forall|id2: SpanId| final(self).reg().span_of(id2) == old(self).reg().span_of(id2),
            final(self).reg().links_of() == old(self).reg().links_of(),
    {
        self.registry.exit(thread);
    }

    /// The span currently active on a thread.
    pub fn current_span(&self, thread: u64) -> (r: Option<SpanId>)
        ensures
            r == self.reg().current_of(thread),
    {
        self.registry.current_span(thread)
    }

    /// Looks a span identifier up in the attached registry.
    pub fn lookup(&self, id: SpanId) -> (r: Option<&SpanEntry>)
        ensures
            match r {
                Some(e) => self.reg().span_of(id) == Some(e@),
                None => self.reg().span_of(id) is None,
            },
    {
        self.registry.lookup(id)
    }
}

/// Law: parent resolution reads only the explicit reference and the
/// calling thread's activation stack. Two registries whose stacks agree
/// on that thread resolve identically, whatever their span entries or
/// links hold — so resolving an event neither depends on nor disturbs any
/// span's registry entry.
pub proof fn lemma_resolution_reads_only_stack(
    a: SpanRegistry,
    b: SpanRegistry,
    explicit: Option<SpanId>,
    thread: u64,
)
    requires
        a.stack_of(thread) == b.stack_of(thread),
    ensures
        resolved_parent(explicit, a.current_of(thread)) == resolved_parent(
            explicit,
            b.current_of(thread),
        ),
{
}

/// Law: spans created on two threads, each with no explicit parent and no
/// prior active span, are two independent roots. Creation touches no
/// activation stack, so after the first span is stored the second thread
/// still resolves to a root — neither span becomes the other's parent.
pub proof fn lemma_concurrent_roots(before: SpanRegistry, after: SpanRegistry, t1: u64, t2: u64)
    requires
        before.current_of(t1) is None,
        before.current_of(t2) is None,
        forall|t: u64| after.stack_of(t) == before.stack_of(t),
    ensures
        resolved_parent(None, before.current_of(t1)) is None,
        resolved_parent(None, after.current_of(t2)) is None,
{
}

/// Law: a causal-link declaration leaves every span entry — in particular
/// every parent edge — and every activation stack as it was, so context
/// resolution agrees before and after the declaration, on every thread
/// and for any explicit reference.
pub proof fn lemma_links_do_not_affect_resolution(
    pre: BooLog,
    post: BooLog,
    explicit: Option<SpanId>,
    thread: u64,
)
    requires
        forall|id2: SpanId| post.reg().span_of(id2) == pre.reg().span_of(id2),
        forall|t: u64| post.reg().stack_of(t) == pre.reg().stack_of(t),
    ensures
        resolved_parent(explicit, post.reg().current_of(thread)) == resolved_parent(
            explicit,
            pre.reg().current_of(thread),
        ),
        forall|id2: SpanId| post.reg().span_of(id2) == pre.reg().span_of(id2),
{
}

} // verus!
