use vstd::prelude::*;
use crate::vault_core::domain::types::VideoMetadata;

verus! {

/// The kinds of value a pipeline context can hold, one slot for each.
#[derive(Debug, Clone, Copy, PartialEq, Eq)]
pub enum ContextKind {
    Video,
    Flag,
    Count,
    Text,
    Bytes,
}

/// A value stored in a pipeline context.
#[derive(Debug, Clone)]
pub enum ContextValue {
    Video(VideoMetadata),
    Flag(bool),
    Count(u64),
    Text(String),
    Bytes(Vec<u8>),
}

/// Number of slots of a context.
pub const CONTEXT_SLOTS: usize = 5;

impl ContextKind {
    pub open spec fn spec_slot(self) -> nat {
        match self {
            ContextKind::Video => 0,
            ContextKind::Flag => 1,
            ContextKind::Count => 2,
            ContextKind::Text => 3,
            ContextKind::Bytes => 4,
        }
    }

    /// The slot that holds values of this kind.
    pub fn slot(self) -> (r: usize)
        ensures
            r == self.spec_slot(),
            r < CONTEXT_SLOTS,
    {
        match self {
            ContextKind::Video => 0,
            ContextKind::Flag => 1,
            ContextKind::Count => 2,
            ContextKind::Text => 3,
            ContextKind::Bytes => 4,
        }
    }
}

impl ContextValue {
    pub open spec fn spec_kind(&self) -> ContextKind {
        match self {
            ContextValue::Video(_) => ContextKind::Video,
            ContextValue::Flag(_) => ContextKind::Flag,
            ContextValue::Count(_) => ContextKind::Count,
            ContextValue::Text(_) => ContextKind::Text,
            ContextValue::Bytes(_) => ContextKind::Bytes,
        }
    }

    /// The kind of the value, which decides the slot it is stored in.
    pub fn kind(&self) -> (r: ContextKind)
        ensures
            r == self.spec_kind(),
    {
        match self {
            ContextValue::Video(_) => ContextKind::Video,
            ContextValue::Flag(_) => ContextKind::Flag,
            ContextValue::Count(_) => ContextKind::Count,
            ContextValue::Text(_) => ContextKind::Text,
            ContextValue::Bytes(_) => ContextKind::Bytes,
        }
    }
}

/// Shared, mutable state of one run of a pipeline: operators store values in it and
/// read what earlier operators stored, without knowing each other. One value per kind.
pub struct PipelineContext {
    slots: Vec<Option<ContextValue>>,
}

impl View for PipelineContext {
    type V = Map<ContextKind, ContextValue>;

    /// The stored values, by kind.
    closed spec fn view(&self) -> Map<ContextKind, ContextValue> {
        Map::new(
            |k: ContextKind| k.spec_slot() < self.slots@.len() && self.slots@[k.spec_slot() as int] is Some,
            |k: ContextKind| self.slots@[k.spec_slot() as int].unwrap(),
        )
    }
}

impl PipelineContext {
    /// An empty context.
    pub fn new() -> (r: Self)
        ensures
            r@ == Map::<ContextKind, ContextValue>::empty(),
    {
        let mut slots: Vec<Option<ContextValue>> = Vec::new();
        let mut i: usize = 0;
        while i < CONTEXT_SLOTS
            invariant
                i <= CONTEXT_SLOTS,
                slots@.len() == i,
                forall|j: int| 0 <= j < i ==> slots@[j] is None,
            decreases CONTEXT_SLOTS - i,
        {
            slots.push(None);
            i = i + 1;
        }
        let r = PipelineContext { slots };
        assert(r@ =~= Map::<ContextKind, ContextValue>::empty());
        r
    }

    /// Stores `val` under its kind, replacing what was stored there before.
    pub fn insert(&mut self, val: ContextValue)
        ensures
            final(self)@ == old(self)@.insert(val.spec_kind(), val),
    {
        let slot = val.kind().slot();
        while self.slots.len() <= slot
            invariant
                self@ == old(self)@,
            decreases slot + 1 - self.slots.len(),
        {
            let ghost before = self.slots@;
            self.slots.push(None);
            assert(self@ =~= old(self)@) by {
                assert forall|k: ContextKind| #![auto] k.spec_slot() < before.len() implies
                    self.slots@[k.spec_slot() as int] == before[k.spec_slot() as int] by {}
            }
        }
        let ghost before = self.slots@;
        self.slots.set(slot, Some(val));
        assert(self@ =~= old(self)@.insert(val.spec_kind(), val)) by {
            assert forall|k: ContextKind| #![auto] k != val.spec_kind() implies
                k.spec_slot() != slot as nat by {}
        }
    }

    /// The value stored under `kind`, if any.
    pub fn get(&self, kind: ContextKind) -> (r: Option<&ContextValue>)
        ensures
            match r {
                Some(v) => self@.contains_key(kind) && *v == self@[kind],
                None => !self@.contains_key(kind),
            },
    {
        let slot = kind.slot();
        if slot < self.slots.len() {
            match &self.slots[slot] {
                Some(v) => Some(v),
                None => None,
            }
        } else {
            None
        }
    }

    /// Mutable access to the value stored under `kind`, if any. What is written through
    /// the reference becomes the value stored under `kind`.
    pub fn get_mut(&mut self, kind: ContextKind) -> (r: Option<&mut ContextValue>)
        ensures
            old(self)@.contains_key(kind) <==> r is Some,
            r is None ==> final(self)@ == old(self)@,
            r is Some ==> *r.unwrap() == old(self)@[kind] && final(self)@ == old(self)@.insert(
                kind,
                *final(r.unwrap()),
            ),
    {
        let slot = kind.slot();
        if slot < self.slots.len() {
            self.slots[slot].as_mut()
        } else {
            None
        }
    }
}

/// What a read gives back after a write: the value stored under its kind is found
/// there, and every other kind keeps what it held.
pub proof fn law_read_after_insert(before: Map<ContextKind, ContextValue>, val: ContextValue, kind: ContextKind)
    ensures
        before.insert(val.spec_kind(), val).contains_key(val.spec_kind()),
        before.insert(val.spec_kind(), val)[val.spec_kind()] == val,
        kind != val.spec_kind() ==> (before.insert(val.spec_kind(), val).contains_key(kind)
            == before.contains_key(kind)),
        kind != val.spec_kind() && before.contains_key(kind) ==> before.insert(
            val.spec_kind(),
            val,
        )[kind] == before[kind],
{
}

impl Default for PipelineContext {
    fn default() -> (r: Self)
        ensures
            r@ == Map::<ContextKind, ContextValue>::empty(),
    {
        Self::new()
    }
}

} // verus!
