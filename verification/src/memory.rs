//! Frame-to-frame state store.
//!
//! Widgets keep small pieces of state between frames (which widget is
//! focused, which tab is active, pass stamps of the defaults policy)
//! in a store keyed by [`Id`]. A value written under an id is read back
//! unchanged until it is overwritten or removed; writing one id never
//! disturbs another. Temporary entries live for the session, persisted
//! entries are the ones a host saves with the app.

use crate::vocab::Id;
use vstd::prelude::*;

verus! {

/// A value kept in the store. Reading an entry as a different kind of
/// value than the one written yields nothing, as a typed lookup would.
#[derive(Clone, Copy, Debug, PartialEq, Eq, Structural)]
pub enum MemoryValue {
    Flag(bool),
    Pass(u64),
    Index(usize),
    Key(Id),
    MaybeKey(Option<Id>),
    PassOwner(u64, Id),
}

/// The kind of a stored value; entries are keyed by id and kind, so a
/// flag and a pass stamp under the same id never disturb each other.
#[derive(Clone, Copy, Debug, PartialEq, Eq, Structural)]
pub enum MemoryKind {
    Flag,
    Pass,
    Index,
    Key,
    MaybeKey,
    PassOwner,
}

/// The kind of `v`.
pub open spec fn kind_of(v: MemoryValue) -> MemoryKind {
    match v {
        MemoryValue::Flag(_) => MemoryKind::Flag,
        MemoryValue::Pass(_) => MemoryKind::Pass,
        MemoryValue::Index(_) => MemoryKind::Index,
        MemoryValue::Key(_) => MemoryKind::Key,
        MemoryValue::MaybeKey(_) => MemoryKind::MaybeKey,
        MemoryValue::PassOwner(_, _) => MemoryKind::PassOwner,
    }
}

fn kind_of_value(v: &MemoryValue) -> (k: MemoryKind)
    ensures
        k == kind_of(*v),
{
    match v {
        MemoryValue::Flag(_) => MemoryKind::Flag,
        MemoryValue::Pass(_) => MemoryKind::Pass,
        MemoryValue::Index(_) => MemoryKind::Index,
        MemoryValue::Key(_) => MemoryKind::Key,
        MemoryValue::MaybeKey(_) => MemoryKind::MaybeKey,
        MemoryValue::PassOwner(_, _) => MemoryKind::PassOwner,
    }
}

/// A store key: an id and the kind of value kept under it.
pub type MemoryKey = (Id, MemoryKind);

/// Every entry is kept under its own kind.
pub open spec fn kinds_match(m: Map<MemoryKey, MemoryValue>) -> bool {
    forall|k: MemoryKey| #[trigger] m.dom().contains(k) ==> kind_of(m[k]) == k.1
}

/// The map that an association list denotes: later entries win.
pub open spec fn assoc_map(s: Seq<(MemoryKey, MemoryValue)>) -> Map<MemoryKey, MemoryValue>
    decreases s.len(),
{
    if s.len() == 0 {
        Map::empty()
    } else {
        assoc_map(s.drop_last()).insert(s.last().0, s.last().1)
    }
}

/// No id occurs twice in the list.
pub open spec fn distinct_keys(s: Seq<(MemoryKey, MemoryValue)>) -> bool {
    forall|i: int, j: int| 0 <= i < s.len() && 0 <= j < s.len() && i != j ==> s[i].0 != s[j].0
}

proof fn lemma_assoc_lookup(s: Seq<(MemoryKey, MemoryValue)>)
    requires
        distinct_keys(s),
    ensures
        forall|k: MemoryKey| #[trigger] assoc_map(s).dom().contains(k) <==> exists|i: int| 0 <= i < s.len() && s[i].0 == k,
        forall|i: int| 0 <= i < s.len() ==> #[trigger] assoc_map(s)[s[i].0] == s[i].1,
    decreases s.len(),
{
    if s.len() > 0 {
        let t = s.drop_last();
        assert(distinct_keys(t));
        lemma_assoc_lookup(t);
        assert forall|k: MemoryKey| #[trigger] assoc_map(s).dom().contains(k) <==> exists|i: int| 0 <= i < s.len() && s[i].0 == k by {
            if assoc_map(s).dom().contains(k) {
                if k == s.last().0 {
                    assert(s[s.len() - 1].0 == k);
                } else {
                    assert(assoc_map(t).dom().contains(k));
                    let i = choose|i: int| 0 <= i < t.len() && t[i].0 == k;
                    assert(s[i].0 == k);
                }
            }
            if exists|i: int| 0 <= i < s.len() && s[i].0 == k {
                let i = choose|i: int| 0 <= i < s.len() && s[i].0 == k;
                if i < s.len() - 1 {
                    assert(t[i].0 == k);
                }
            }
        }
        assert forall|i: int| 0 <= i < s.len() implies #[trigger] assoc_map(s)[s[i].0] == s[i].1 by {
            if i < s.len() - 1 {
                assert(t[i] == s[i]);
                assert(s[i].0 != s[s.len() - 1].0);
            }
        }
    }
}

proof fn lemma_assoc_update(s: Seq<(MemoryKey, MemoryValue)>, i: int, v: MemoryValue)
    requires
        distinct_keys(s),
        0 <= i < s.len(),
    ensures
        distinct_keys(s.update(i, (s[i].0, v))),
        assoc_map(s.update(i, (s[i].0, v))) == assoc_map(s).insert(s[i].0, v),
{
    let u = s.update(i, (s[i].0, v));
    assert(distinct_keys(u));
    lemma_assoc_lookup(s);
    lemma_assoc_lookup(u);
    assert forall|k: MemoryKey| #[trigger] assoc_map(u).dom().contains(k) == assoc_map(s).insert(s[i].0, v).dom().contains(k) by {
        if exists|j: int| 0 <= j < s.len() && s[j].0 == k {
            let j = choose|j: int| 0 <= j < s.len() && s[j].0 == k;
            assert(u[j].0 == k);
        }
        if exists|j: int| 0 <= j < u.len() && u[j].0 == k {
            let j = choose|j: int| 0 <= j < u.len() && u[j].0 == k;
            assert(s[j].0 == k);
        }
    }
    assert forall|k: MemoryKey| #[trigger] assoc_map(u).dom().contains(k) implies assoc_map(u)[k] == assoc_map(s).insert(s[i].0, v)[k] by {
        let j = choose|j: int| 0 <= j < u.len() && u[j].0 == k;
        assert(assoc_map(u)[u[j].0] == u[j].1);
        if j != i {
            assert(assoc_map(s)[s[j].0] == s[j].1);
        }
    }
    assert(assoc_map(u) =~= assoc_map(s).insert(s[i].0, v));
}

proof fn lemma_assoc_push(s: Seq<(MemoryKey, MemoryValue)>, k: MemoryKey, v: MemoryValue)
    requires
        distinct_keys(s),
        !assoc_map(s).dom().contains(k),
    ensures
        distinct_keys(s.push((k, v))),
        assoc_map(s.push((k, v))) == assoc_map(s).insert(k, v),
{
    lemma_assoc_lookup(s);
    let p = s.push((k, v));
    assert forall|i: int, j: int| 0 <= i < p.len() && 0 <= j < p.len() && i != j implies p[i].0 != p[j].0 by {
        if i == s.len() {
            assert(s[j].0 != k);
        } else if j == s.len() {
            assert(s[i].0 != k);
        }
    }
    assert(p.drop_last() =~= s);
}

proof fn lemma_assoc_remove(s: Seq<(MemoryKey, MemoryValue)>, i: int)
    requires
        distinct_keys(s),
        0 <= i < s.len(),
    ensures
        distinct_keys(s.remove(i)),
        assoc_map(s.remove(i)) == assoc_map(s).remove(s[i].0),
{
    let r = s.remove(i);
    assert forall|a: int, b: int| 0 <= a < r.len() && 0 <= b < r.len() && a != b implies r[a].0 != r[b].0 by {
        let a2 = if a < i { a } else { a + 1 };
        let b2 = if b < i { b } else { b + 1 };
        assert(r[a] == s[a2]);
        assert(r[b] == s[b2]);
    }
    lemma_assoc_lookup(s);
    lemma_assoc_lookup(r);
    let k0 = s[i].0;
    assert forall|k: MemoryKey| #[trigger] assoc_map(r).dom().contains(k) == assoc_map(s).remove(k0).dom().contains(k) by {
        if exists|j: int| 0 <= j < r.len() && r[j].0 == k {
            let j = choose|j: int| 0 <= j < r.len() && r[j].0 == k;
            let j2 = if j < i { j } else { j + 1 };
            assert(s[j2].0 == k);
            assert(j2 != i);
        }
        if k != k0 && exists|j: int| 0 <= j < s.len() && s[j].0 == k {
            let j = choose|j: int| 0 <= j < s.len() && s[j].0 == k;
            assert(j != i);
            let j2 = if j < i { j } else { j - 1 };
            assert(r[j2].0 == k);
        }
    }
    assert forall|k: MemoryKey| #[trigger] assoc_map(r).dom().contains(k) implies assoc_map(r)[k] == assoc_map(s).remove(k0)[k] by {
        let j = choose|j: int| 0 <= j < r.len() && r[j].0 == k;
        let j2 = if j < i { j } else { j + 1 };
        assert(r[j] == s[j2]);
        assert(assoc_map(r)[r[j].0] == r[j].1);
        assert(assoc_map(s)[s[j2].0] == s[j2].1);
    }
    assert(assoc_map(r) =~= assoc_map(s).remove(k0));
}

fn find_key(entries: &Vec<(MemoryKey, MemoryValue)>, id: MemoryKey) -> (r: Option<usize>)
    requires
        distinct_keys(entries@),
    ensures
        match r {
            Some(i) => i < entries@.len() && entries@[i as int].0 == id,
            None => !assoc_map(entries@).dom().contains(id),
        },
{
    proof {
        lemma_assoc_lookup(entries@);
    }
    let mut i: usize = 0;
    while i < entries.len()
        invariant
            i <= entries@.len(),
            forall|j: int| 0 <= j < i ==> entries@[j].0 != id,
        decreases entries@.len() - i,
    {
        let key = entries[i].0;
        if key.0 == id.0 && key.1 == id.1 {
            return Some(i);
        }
        i = i + 1;
    }
    None
}

fn lookup(entries: &Vec<(MemoryKey, MemoryValue)>, id: MemoryKey) -> (r: Option<MemoryValue>)
    requires
        distinct_keys(entries@),
    ensures
        r == (if assoc_map(entries@).dom().contains(id) {
            Some(assoc_map(entries@)[id])
        } else {
            None
        }),
{
    proof {
        lemma_assoc_lookup(entries@);
    }
    match find_key(entries, id) {
        Some(i) => Some(entries[i].1),
        None => None,
    }
}

fn store(entries: &mut Vec<(MemoryKey, MemoryValue)>, id: MemoryKey, value: MemoryValue)
    requires
        distinct_keys(old(entries)@),
    ensures
        distinct_keys(final(entries)@),
        assoc_map(final(entries)@) == assoc_map(old(entries)@).insert(id, value),
{
    match find_key(entries, id) {
        Some(i) => {
            proof {
                lemma_assoc_update(entries@, i as int, value);
            }
            entries.set(i, (id, value));
        },
        None => {
            proof {
                lemma_assoc_push(entries@, id, value);
            }
            entries.push((id, value));
        },
    }
}

fn erase(entries: &mut Vec<(MemoryKey, MemoryValue)>, id: MemoryKey)
    requires
        distinct_keys(old(entries)@),
    ensures
        distinct_keys(final(entries)@),
        assoc_map(final(entries)@) == assoc_map(old(entries)@).remove(id),
{
    match find_key(entries, id) {
        Some(i) => {
            proof {
                lemma_assoc_remove(entries@, i as int);
            }
            entries.remove(i);
        },
        None => {
            assert(assoc_map(entries@).remove(id) =~= assoc_map(entries@));
        },
    }
}

/// The state store: temporary and persisted entries, each a map from
/// (id, kind) to the value kept there.
pub struct MaraMemory {
    temp: Vec<(MemoryKey, MemoryValue)>,
    persisted: Vec<(MemoryKey, MemoryValue)>,
}

impl MaraMemory {
    #[verifier::type_invariant]
    spec fn well_formed(self) -> bool {
        &&& distinct_keys(self.temp@)
        &&& distinct_keys(self.persisted@)
        &&& kinds_match(assoc_map(self.temp@))
        &&& kinds_match(assoc_map(self.persisted@))
    }

    /// The temporary entries.
    pub closed spec fn temp(self) -> Map<MemoryKey, MemoryValue> {
        assoc_map(self.temp@)
    }

    /// The persisted entries.
    pub closed spec fn persisted(self) -> Map<MemoryKey, MemoryValue> {
        assoc_map(self.persisted@)
    }

    /// An empty store.
    pub fn new() -> (m: MaraMemory)
        ensures
            m.temp() == Map::<MemoryKey, MemoryValue>::empty(),
            m.persisted() == Map::<MemoryKey, MemoryValue>::empty(),
    {
        MaraMemory { temp: Vec::new(), persisted: Vec::new() }
    }

    /// The temporary entry of kind `kind` under `id`, if any.
    pub fn get_temp(&self, id: Id, kind: MemoryKind) -> (r: Option<MemoryValue>)
        ensures
            r == spec_lookup(self.temp(), id, kind),
            r matches Some(v) ==> kind_of(v) == kind,
    {
        proof {
            use_type_invariant(self);
        }
        lookup(&self.temp, (id, kind))
    }

    /// Write `value` as the temporary entry of its kind under `id`.
    pub fn set_temp(&mut self, id: Id, value: MemoryValue)
        ensures
            final(self).temp() == old(self).temp().insert((id, kind_of(value)), value),
            final(self).persisted() == old(self).persisted(),
    {
        proof {
            use_type_invariant(&*self);
        }
        let kind = kind_of_value(&value);
        let mut entries = Vec::new();
        std::mem::swap(&mut entries, &mut self.temp);
        store(&mut entries, (id, kind), value);
        self.temp = entries;
    }

    /// Drop the temporary entry of kind `kind` under `id`.
    pub fn remove_temp(&mut self, id: Id, kind: MemoryKind)
        ensures
            final(self).temp() == old(self).temp().remove((id, kind)),
            final(self).persisted() == old(self).persisted(),
    {
        proof {
            use_type_invariant(&*self);
        }
        let mut entries = Vec::new();
        std::mem::swap(&mut entries, &mut self.temp);
        erase(&mut entries, (id, kind));
        self.temp = entries;
    }

    /// The persisted entry of kind `kind` under `id`, if any.
    pub fn get_persisted(&self, id: Id, kind: MemoryKind) -> (r: Option<MemoryValue>)
        ensures
            r == spec_lookup(self.persisted(), id, kind),
            r matches Some(v) ==> kind_of(v) == kind,
    {
        proof {
            use_type_invariant(self);
        }
        lookup(&self.persisted, (id, kind))
    }

    /// Write `value` as the persisted entry of its kind under `id`.
    pub fn set_persisted(&mut self, id: Id, value: MemoryValue)
        ensures
            final(self).persisted() == old(self).persisted().insert((id, kind_of(value)), value),
            final(self).temp() == old(self).temp(),
    {
        proof {
            use_type_invariant(&*self);
        }
        let kind = kind_of_value(&value);
        let mut entries = Vec::new();
        std::mem::swap(&mut entries, &mut self.persisted);
        store(&mut entries, (id, kind), value);
        self.persisted = entries;
    }
}

/// The headless store the recording backend and tests run on: the same
/// store, keyed by id and kind exactly as a live host keys it.
pub type RecordingMemory = MaraMemory;

/// The entry of `m` of kind `kind` under `id`, if any.
pub open spec fn spec_lookup(m: Map<MemoryKey, MemoryValue>, id: Id, kind: MemoryKind) -> Option<
    MemoryValue,
> {
    if m.dom().contains((id, kind)) {
        Some(m[(id, kind)])
    } else {
        None
    }
}


/// A read gives back what the last write under the same id and kind
/// wrote, in either lane.
pub proof fn law_read_after_write(m: Map<MemoryKey, MemoryValue>, id: Id, value: MemoryValue)
    ensures
        spec_lookup(m.insert((id, kind_of(value)), value), id, kind_of(value)) == Some(value),
{
}

/// Entries are keyed by id and kind: a write leaves every other id,
/// and every other kind under the same id, as it was.
pub proof fn law_write_leaves_other_entries(
    m: Map<MemoryKey, MemoryValue>,
    id: Id,
    value: MemoryValue,
    other: Id,
    kind: MemoryKind,
)
    requires
        other != id || kind != kind_of(value),
    ensures
        spec_lookup(m.insert((id, kind_of(value)), value), other, kind) == spec_lookup(m, other, kind),
{
}

/// After a removal the entry reads as absent, and nothing else moves.
pub proof fn law_remove_then_read(m: Map<MemoryKey, MemoryValue>, id: Id, kind: MemoryKind, other: Id, other_kind: MemoryKind)
    ensures
        spec_lookup(m.remove((id, kind)), id, kind) is None,
        (other, other_kind) != (id, kind) ==> spec_lookup(m.remove((id, kind)), other, other_kind)
            == spec_lookup(m, other, other_kind),
{
}

} // verus!
