use vstd::prelude::*;

use vstd::pervasive::VecAdditionalExecFns;

use crate::fields::Field;
use crate::fields::FieldV;
use crate::ids::Level;
use crate::ids::SpanId;

verus! {

/// The registry's live entry for one span activation: identifier,
/// metadata (name, severity), the parent fixed at creation, and the log of
/// recorded field values. The value a name maps to is the last one
/// recorded for it.
pub struct SpanEntry {
    pub id: SpanId,
    pub name: String,
    pub level: Level,
    pub parent: Option<SpanId>,
    pub fields: Vec<Field>,
}

/// The mathematical shape of a span entry.
pub struct SpanEntryV {
    pub id: SpanId,
    pub name: Seq<char>,
    pub level: Level,
    pub parent: Option<SpanId>,
    pub fields: Seq<FieldV>,
}

impl View for SpanEntry {
    type V = SpanEntryV;

    open spec fn view(&self) -> SpanEntryV {
        SpanEntryV {
            id: self.id,
            name: self.name@,
            level: self.level,
            parent: self.parent,
            fields: self.fields.deep_view(),
        }
    }
}

impl DeepView for SpanEntry {
    type V = SpanEntryV;

    open spec fn deep_view(&self) -> SpanEntryV {
        self.view()
    }
}

/// One thread's stack of entered spans; the top is the thread's current
/// span.
pub struct ThreadStack {
    pub thread: u64,
    pub stack: Vec<SpanId>,
}

/// The mathematical shape of a thread's stack.
pub struct ThreadStackV {
    pub thread: u64,
    pub stack: Seq<SpanId>,
}

impl View for ThreadStack {
    type V = ThreadStackV;

    open spec fn view(&self) -> ThreadStackV {
        ThreadStackV { thread: self.thread, stack: self.stack@ }
    }
}

impl DeepView for ThreadStack {
    type V = ThreadStackV;

    open spec fn deep_view(&self) -> ThreadStackV {
        self.view()
    }
}

/// A declared causal link: a relation separate from the parent edge; it
/// plays no part in context resolution.
#[derive(Clone, Copy, PartialEq, Eq, Structural, Debug)]
pub struct SpanLink {
    pub from: SpanId,
    pub to: SpanId,
}

/// The last entry with the given identifier, scanning from the most
/// recently stored one.
pub open spec fn find_entry(s: Seq<SpanEntryV>, id: SpanId) -> Option<SpanEntryV>
    decreases s.len(),
{
    if s.len() == 0 {
        None
    } else if s.last().id == id {
        Some(s.last())
    } else {
        find_entry(s.drop_last(), id)
    }
}

/// The last stack with the given thread, scanning from the most recently
/// stored one.
pub open spec fn find_stack(s: Seq<ThreadStackV>, thread: u64) -> Option<ThreadStackV>
    decreases s.len(),
{
    if s.len() == 0 {
        None
    } else if s.last().thread == thread {
        Some(s.last())
    } else {
        find_stack(s.drop_last(), thread)
    }
}

proof fn lemma_find_entry_tail_skip(s: Seq<SpanEntryV>, k: int, id: SpanId)
    requires
        0 <= k <= s.len(),
        forall|j: int| k <= j < s.len() ==> s[j].id != id,
    ensures
        find_entry(s, id) == find_entry(s.take(k), id),
    decreases s.len() - k,
{
    if k == s.len() {
        assert(s.take(k) =~= s);
    } else {
        assert(s.last().id != id);
        assert(s.drop_last() =~= s.take(s.len() - 1));
        lemma_find_entry_tail_skip(s.take(s.len() - 1), k, id);
        assert(s.take(s.len() - 1).take(k) =~= s.take(k));
    }
}

proof fn lemma_find_entry_update_other(s: Seq<SpanEntryV>, i: int, e: SpanEntryV, id: SpanId)
    requires
        0 <= i < s.len(),
        s[i].id == e.id,
        id != e.id,
    ensures
        find_entry(s.update(i, e), id) == find_entry(s, id),
    decreases s.len(),
{
    let s2 = s.update(i, e);
    if i == s.len() - 1 {
        assert(s2.last() == e);
        assert(s.last().id == e.id);
        assert(s2.drop_last() =~= s.drop_last());
    } else {
        assert(s2.last() == s.last());
        if s.last().id == id {
        } else {
            assert(s2.drop_last() =~= s.drop_last().update(i, e));
            lemma_find_entry_update_other(s.drop_last(), i, e, id);
        }
    }
}

proof fn lemma_find_entry_update_self(s: Seq<SpanEntryV>, i: int, e: SpanEntryV)
    requires
        0 <= i < s.len(),
        s[i].id == e.id,
        forall|j: int| i < j < s.len() ==> s[j].id != e.id,
    ensures
        find_entry(s.update(i, e), e.id) == Some(e),
    decreases s.len(),
{
    let s2 = s.update(i, e);
    if i == s.len() - 1 {
        assert(s2.last() == e);
    } else {
        assert(s2.last() == s.last());
        assert(s.last().id != e.id);
        assert(s2.drop_last() =~= s.drop_last().update(i, e));
        lemma_find_entry_update_self(s.drop_last(), i, e);
    }
}

proof fn lemma_find_stack_tail_skip(s: Seq<ThreadStackV>, k: int, thread: u64)
    requires
        0 <= k <= s.len(),
        forall|j: int| k <= j < s.len() ==> s[j].thread != thread,
    ensures
        find_stack(s, thread) == find_stack(s.take(k), thread),
    decreases s.len() - k,
{
    if k == s.len() {
        assert(s.take(k) =~= s);
    } else {
        assert(s.last().thread != thread);
        assert(s.drop_last() =~= s.take(s.len() - 1));
        lemma_find_stack_tail_skip(s.take(s.len() - 1), k, thread);
        assert(s.take(s.len() - 1).take(k) =~= s.take(k));
    }
}

proof fn lemma_find_stack_update_other(s: Seq<ThreadStackV>, i: int, e: ThreadStackV, thread: u64)
    requires
        0 <= i < s.len(),
        s[i].thread == e.thread,
        thread != e.thread,
    ensures
        find_stack(s.update(i, e), thread) == find_stack(s, thread),
    decreases s.len(),
{
    let s2 = s.update(i, e);
    if i == s.len() - 1 {
        assert(s2.last() == e);
        assert(s.last().thread == e.thread);
        assert(s2.drop_last() =~= s.drop_last());
    } else {
        assert(s2.last() == s.last());
        if s.last().thread == thread {
        } else {
            assert(s2.drop_last() =~= s.drop_last().update(i, e));
            lemma_find_stack_update_other(s.drop_last(), i, e, thread);
        }
    }
}

proof fn lemma_find_stack_update_self(s: Seq<ThreadStackV>, i: int, e: ThreadStackV)
    requires
        0 <= i < s.len(),
        s[i].thread == e.thread,
        forall|j: int| i < j < s.len() ==> s[j].thread != e.thread,
    ensures
        find_stack(s.update(i, e), e.thread) == Some(e),
    decreases s.len(),
{
    let s2 = s.update(i, e);
    if i == s.len() - 1 {
        assert(s2.last() == e);
    } else {
        assert(s2.last() == s.last());
        assert(s.last().thread != e.thread);
        assert(s2.drop_last() =~= s.drop_last().update(i, e));
        lemma_find_stack_update_self(s.drop_last(), i, e);
    }
}

/// The registry: span entries, per-thread activation stacks, and declared
/// causal links. It is the single owner of this state; the layer only
/// reads through it.
pub struct SpanRegistry {
    pub spans: Vec<SpanEntry>,
    pub stacks: Vec<ThreadStack>,
    pub links: Vec<SpanLink>,
}

impl SpanRegistry {
    /// The entry stored under an identifier, if any.
    pub open spec fn span_of(self, id: SpanId) -> Option<SpanEntryV> {
        find_entry(self.spans.deep_view(), id)
    }

    pub open spec fn has_span(self, id: SpanId) -> bool {
        self.span_of(id) is Some
    }

    /// The stack of spans entered on a thread, bottom first.
    pub open spec fn stack_of(self, thread: u64) -> Seq<SpanId> {
        match find_stack(self.stacks.deep_view(), thread) {
            Some(ts) => ts.stack,
            None => Seq::empty(),
        }
    }

    /// The span currently active on a thread: the top of its stack.
    pub open spec fn current_of(self, thread: u64) -> Option<SpanId> {
        if self.stack_of(thread).len() == 0 {
            None
        } else {
            Some(self.stack_of(thread).last())
        }
    }

    /// All declared causal links, in declaration order.
    pub open spec fn links_of(self) -> Seq<SpanLink> {
        self.links@
    }

    /// An empty registry: no spans, no active stacks, no links.
    pub fn new() -> (r: SpanRegistry)
        ensures
            forall|id: SpanId| r.span_of(id) is None,
            forall|t: u64| r.stack_of(t) == Seq::<SpanId>::empty(),
            r.links_of() == Seq::<SpanLink>::empty(),
    {
        let r = SpanRegistry { spans: Vec::new(), stacks: Vec::new(), links: Vec::new() };
        proof {
            assert(r.spans.deep_view() =~= Seq::<SpanEntryV>::empty());
            assert(r.stacks.deep_view() =~= Seq::<ThreadStackV>::empty());
        }
        r
    }

    fn position_of(&self, id: SpanId) -> (r: Option<usize>)
        ensures
            match r {
                Some(i) => {
                    &&& i < self.spans@.len()
                    &&& self.spans.deep_view()[i as int].id == id
                    &&& forall|j: int|
                        i < j < self.spans.deep_view().len() ==> self.spans.deep_view()[j].id
                            != id
                    &&& self.span_of(id) == Some(self.spans.deep_view()[i as int])
                },
                None => self.span_of(id) is None,
            },
    {
        let ghost dv = self.spans.deep_view();
        let mut i: usize = self.spans.len();
        while i > 0
            invariant
                i <= self.spans@.len(),
                dv == self.spans.deep_view(),
                forall|j: int| i <= j < dv.len() ==> dv[j].id != id,
            decreases i,
        {
            i -= 1;
            if self.spans[i].id.raw == id.raw {
                proof {
                    assert(dv[i as int].id == id);
                    lemma_find_entry_tail_skip(dv, i as int + 1, id);
                    assert(dv.take(i as int + 1).last() == dv[i as int]);
                }
                return Some(i);
            }
        }
        proof {
            lemma_find_entry_tail_skip(dv, 0, id);
            assert(dv.take(0) =~= Seq::<SpanEntryV>::empty());
        }
        None
    }

    /// Resolves an identifier to its entry: the lookup service consumed by
    /// the layer.
    pub fn lookup(&self, id: SpanId) -> (r: Option<&SpanEntry>)
        ensures
            match r {
                Some(e) => self.span_of(id) == Some(e@),
                None => self.span_of(id) is None,
            },
    {
        match self.position_of(id) {
            Some(i) => Some(&self.spans[i]),
            None => None,
        }
    }

    /// Stores the entry for a just-created span. Identifiers are
    /// process-unique, so the identifier must not be present yet.
    pub fn insert(&mut self, e: SpanEntry)
        requires
            !old(self).has_span(e.id),
        ensures
            final(self).span_of(e@.id) == Some(e@),
            forall|id2: SpanId|
                id2 != e@.id ==> final(self).span_of(id2) == old(self).span_of(id2),
            forall|t: u64| final(self).stack_of(t) == old(self).stack_of(t),
            final(self).links_of() == old(self).links_of(),
    {
        let ghost dv1 = self.spans.deep_view();
        let ghost ev = e@;
        self.spans.push(e);
        proof {
            let dv2 = self.spans.deep_view();
            assert(dv2 =~= dv1.push(ev));
            assert(dv2.last() == ev);
            assert(dv2.drop_last() =~= dv1);
            assert(find_entry(dv2, ev.id) == Some(ev));
            assert forall|id2: SpanId| id2 != ev.id implies find_entry(dv2, id2) == find_entry(
                dv1,
                id2,
            ) by {
                assert(dv2.last().id != id2);
            }
            assert(self.stacks.deep_view() == old(self).stacks.deep_view());
        }
    }

    /// Appends recorded field values to an existing span's log. Returns
    /// whether the span was found; an unknown identifier is a silent
    /// no-op, left for the registry's owner to resolve.
    pub fn record_fields(&mut self, id: SpanId, values: Vec<Field>) -> (stored: bool)
        ensures
            stored == old(self).has_span(id),
            !old(self).has_span(id) ==> *final(self) == *old(self),
            old(self).has_span(id) ==> {
                &&& final(self).span_of(id) == Some(
                    SpanEntryV {
                        fields: old(self).span_of(id)->Some_0.fields + values.deep_view(),
                        ..old(self).span_of(id)->Some_0
                    },
                )
                &&& forall|id2: SpanId|
                    id2 != id ==> final(self).span_of(id2) == old(self).span_of(id2)
            },
            forall|t: u64| final(self).stack_of(t) == old(self).stack_of(t),
            final(self).links_of() == old(self).links_of(),
    {
        let ghost dv1 = self.spans.deep_view();
        let ghost vdv = values.deep_view();
        match self.position_of(id) {
            None => false,
            Some(i) => {
                let ghost old_e = dv1[i as int];
                let mut entry = SpanEntry {
                    id: SpanId { raw: 0 },
                    name: String::new(),
                    level: Level::Info,
                    parent: None,
                    fields: Vec::new(),
                };
                self.spans.set_and_swap(i, &mut entry);
                let mut vals = values;
                entry.fields.append(&mut vals);
                proof {
                    assert(entry@.fields =~= old_e.fields + vdv);
                    assert(entry@ == SpanEntryV { fields: old_e.fields + vdv, ..old_e });
                }
                let ghost ev2 = entry@;
                self.spans.set_and_swap(i, &mut entry);
                proof {
                    let dv2 = self.spans.deep_view();
                    assert(dv2 =~= dv1.update(i as int, ev2));
                    lemma_find_entry_update_self(dv1, i as int, ev2);
                    assert forall|id2: SpanId| id2 != id implies find_entry(dv2, id2)
                        == find_entry(dv1, id2) by {
                        lemma_find_entry_update_other(dv1, i as int, ev2, id2);
                    }
                    assert(self.stacks.deep_view() == old(self).stacks.deep_view());
                }
                true
            },
        }
    }

    /// Records a causal link. Links live beside the span forest and never
    /// touch entries or activation stacks.
    pub fn add_link(&mut self, link: SpanLink)
        ensures
            final(self).links_of() == old(self).links_of().push(link),
            forall|id2: SpanId| final(self).span_of(id2) == old(self).span_of(id2),
            forall|t: u64| final(self).stack_of(t) == old(self).stack_of(t),
    {
        self.links.push(link);
        proof {
            assert(self.spans.deep_view() == old(self).spans.deep_view());
            assert(self.stacks.deep_view() == old(self).stacks.deep_view());
        }
    }

    fn stack_position_of(&self, thread: u64) -> (r: Option<usize>)
        ensures
            match r {
                Some(i) => {
                    &&& i < self.stacks@.len()
                    &&& self.stacks.deep_view()[i as int].thread == thread
                    &&& forall|j: int|
                        i < j < self.stacks.deep_view().len() ==> self.stacks.deep_view()[j].thread
                            != thread
                    &&& find_stack(self.stacks.deep_view(), thread) == Some(
                        self.stacks.deep_view()[i as int],
                    )
                },
                None => find_stack(self.stacks.deep_view(), thread) is None,
            },
    {
        let ghost dv = self.stacks.deep_view();
        let mut i: usize = self.stacks.len();
        while i > 0
            invariant
                i <= self.stacks@.len(),
                dv == self.stacks.deep_view(),
                forall|j: int| i <= j < dv.len() ==> dv[j].thread != thread,
            decreases i,
        {
            i -= 1;
            if self.stacks[i].thread == thread {
                proof {
                    lemma_find_stack_tail_skip(dv, i as int + 1, thread);
                    assert(dv.take(i as int + 1).last() == dv[i as int]);
                }
                return Some(i);
            }
        }
        proof {
            lemma_find_stack_tail_skip(dv, 0, thread);
            assert(dv.take(0) =~= Seq::<ThreadStackV>::empty());
        }
        None
    }

    /// The span currently active on the calling thread, read from the top
    /// of that thread's stack.
    pub fn current_span(&self, thread: u64) -> (r: Option<SpanId>)
        ensures
            r == self.current_of(thread),
    {
        match self.stack_position_of(thread) {
            None => None,
            Some(k) => {
                let ts = &self.stacks[k];
                if ts.stack.len() == 0 {
                    None
                } else {
                    Some(ts.stack[ts.stack.len() - 1])
                }
            },
        }
    }

    /// Pushes a span onto a thread's activation stack.
    pub fn enter(&mut self, thread: u64, id: SpanId)
        ensures
            final(self).stack_of(thread) == old(self).stack_of(thread).push(id),
            forall|t: u64| t != thread ==> final(self).stack_of(t) == old(self).stack_of(t),
            forall|id2: SpanId| final(self).span_of(id2) == old(self).span_of(id2),
            final(self).links_of() == old(self).links_of(),
    {
        let ghost dv1 = self.stacks.deep_view();
        match self.stack_position_of(thread) {
            Some(k) => {
                let ghost old_ts = dv1[k as int];
                let mut ts = ThreadStack { thread: 0, stack: Vec::new() };
                self.stacks.set_and_swap(k, &mut ts);
                ts.stack.push(id);
                let ghost tv2 = ts@;
                self.stacks.set_and_swap(k, &mut ts);
                proof {
                    let dv2 = self.stacks.deep_view();
                    assert(dv2 =~= dv1.update(k as int, tv2));
                    assert(tv2.stack =~= old_ts.stack.push(id));
                    lemma_find_stack_update_self(dv1, k as int, tv2);
                    assert forall|t: u64| t != thread implies find_stack(dv2, t) == find_stack(
                        dv1,
                        t,
                    ) by {
                        lemma_find_stack_update_other(dv1, k as int, tv2, t);
                    }
                    assert(self.spans.deep_view() == old(self).spans.deep_view());
                }
            },
            None => {
                let mut stack: Vec<SpanId> = Vec::new();
                stack.push(id);
                let ts = ThreadStack { thread, stack };
                let ghost tv = ts@;
                self.stacks.push(ts);
                proof {
                    let dv2 = self.stacks.deep_view();
                    assert(dv2 =~= dv1.push(tv));
                    assert(dv2.last() == tv);
                    assert(dv2.drop_last() =~= dv1);
                    assert(tv.stack =~= Seq::<SpanId>::empty().push(id));
                    assert forall|t: u64| t != thread implies find_stack(dv2, t) == find_stack(
                        dv1,
                        t,
                    ) by {
                        assert(dv2.last().thread != t);
                    }
                    assert(self.spans.deep_view() == old(self).spans.deep_view());
                }
            },
        }
    }

    /// Pops the top of a thread's activation stack; popping a thread with
    /// no active span is a no-op.
    pub fn exit(&mut self, thread: u64)
        ensures
            old(self).stack_of(thread).len() == 0 ==> final(self).stack_of(thread) == old(
                self,
            ).stack_of(thread),
            old(self).stack_of(thread).len() > 0 ==> final(self).stack_of(thread) == old(
                self,
            ).stack_of(thread).drop_last(),
            forall|t: u64| t != thread ==> final(self).stack_of(t) == old(self).stack_of(t),
            forall|id2: SpanId| final(self).span_of(id2) == old(self).span_of(id2),
            final(self).links_of() == old(self).links_of(),
    {
        let ghost dv1 = self.stacks.deep_view();
        match self.stack_position_of(thread) {
            None => {
            },
            Some(k) => {
                let ghost old_ts = dv1[k as int];
                let mut ts = ThreadStack { thread: 0, stack: Vec::new() };
                self.stacks.set_and_swap(k, &mut ts);
                let _popped = ts.stack.pop();
                let ghost tv2 = ts@;
                self.stacks.set_and_swap(k, &mut ts);
                proof {
                    let dv2 = self.stacks.deep_view();
                    assert(dv2 =~= dv1.update(k as int, tv2));
                    if old_ts.stack.len() == 0 {
                        assert(tv2 == old_ts);
                        assert(dv2 =~= dv1);
                    } else {
                        assert(tv2.stack =~= old_ts.stack.drop_last());
                    }
                    lemma_find_stack_update_self(dv1, k as int, tv2);
                    assert forall|t: u64| t != thread implies find_stack(dv2, t) == find_stack(
                        dv1,
                        t,
                    ) by {
                        lemma_find_stack_update_other(dv1, k as int, tv2, t);
                    }
                    assert(self.spans.deep_view() == old(self).spans.deep_view());
                }
            },
        }
    }
}

} // verus!
