//! The registry of supervised processes: a map from identifier to handle,
//! and the counter that issues identifiers.
//!
//! The handle type is left to the caller, which typically shares each
//! record with its monitoring loop.

use std::collections::HashMap;
use vstd::prelude::*;
use vstd::std_specs::iter::IteratorSpec;

verus! {

broadcast use vstd::std_specs::hash::group_hash_axioms;

/// Failures surfaced to the caller of a registry operation.
#[derive(Clone, Copy, Debug, PartialEq, Eq, Structural)]
pub enum SupervisorError {
    /// No process has this identifier.
    UnknownProcess,
    /// The requested OS user does not exist.
    UnknownUser,
    /// A snapshot holds a process whose identifier the saved counter has not
    /// yet passed.
    InconsistentSnapshot,
}

/// Identifier of the first process of a fresh registry.
pub const FIRST_ID: usize = 1;

/// Supervised processes by identifier.
pub struct Registry<H> {
    next_id: usize,
    procs: HashMap<usize, H>,
}

/// The map that a snapshot's entries describe; a later entry with the same
/// identifier replaces an earlier one.
pub open spec fn entries_map<H>(s: Seq<(usize, H)>) -> Map<usize, H>
    decreases s.len(),
{
    if s.len() == 0 {
        Map::empty()
    } else {
        entries_map(s.drop_last()).insert(s.last().0, s.last().1)
    }
}

/// `id` was issued from `before`, leaving `after`.
pub open spec fn issues<H>(before: Registry<H>, id: usize, after: Registry<H>) -> bool {
    &&& id == before.counter_view()
    &&& after.counter_view() == before.counter_view() + 1
    &&& after@ == before@
}

impl<H> View for Registry<H> {
    type V = Map<usize, H>;

    closed spec fn view(&self) -> Map<usize, H> {
        self.procs@
    }
}

impl<H> Registry<H> {
    /// The identifier that will be issued next.
    pub closed spec fn counter_view(&self) -> usize {
        self.next_id
    }

    /// Every identifier in the registry was issued before.
    pub open spec fn wf(&self) -> bool {
        forall|k: usize| #[trigger] self@.contains_key(k) ==> k < self.counter_view()
    }

    /// An empty registry whose first identifier is `FIRST_ID`.
    pub fn new() -> (r: Registry<H>)
        ensures
            r@ == Map::<usize, H>::empty(),
            r.counter_view() == FIRST_ID,
            r.wf(),
    {
        Registry { next_id: FIRST_ID, procs: HashMap::new() }
    }

    /// A registry restored from a snapshot: `counter` was the identifier to
    /// be issued next when it was taken. Fails when an entry's identifier is
    /// not below `counter`.
    pub fn restore(counter: usize, entries: Vec<(usize, H)>) -> (r: Result<
        Registry<H>,
        SupervisorError,
    >)
        ensures
            r is Err <==> exists|i: int| 0 <= i < entries@.len() && entries@[i].0 >= counter,
            r matches Err(e) ==> e == SupervisorError::InconsistentSnapshot,
            r matches Ok(reg) ==> {
                &&& reg@ == entries_map(entries@)
                &&& reg.counter_view() == counter
                &&& reg.wf()
            },
    {
        let ghost all = entries@;
        let mut procs: HashMap<usize, H> = HashMap::new();
        let mut pending = entries;
        let mut rest: Vec<(usize, H)> = Vec::new();
        while pending.len() > 0
            invariant
                all == entries@,
                pending@.len() + rest@.len() == all.len(),
                pending@ == all.subrange(0, pending@.len() as int),
                forall|j: int|
                    0 <= j < rest@.len() ==> #[trigger] rest@[j] == all[all.len() - 1 - j],
            decreases pending@.len(),
        {
            let e = pending.pop().unwrap();
            rest.push(e);
        }
        let ghost mut taken: int = 0;
        while rest.len() > 0
            invariant
                all == entries@,
                0 <= taken <= all.len(),
                rest@.len() == all.len() - taken,
                forall|j: int|
                    0 <= j < rest@.len() ==> #[trigger] rest@[j] == all[all.len() - 1 - j],
                procs@ == entries_map(all.subrange(0, taken)),
                forall|j: int| 0 <= j < taken ==> #[trigger] all[j].0 < counter,
            decreases rest@.len(),
        {
            assert(rest@[rest@.len() - 1] == all[taken]);
            proof {
                let next = all.subrange(0, taken + 1);
                assert(next.drop_last() == all.subrange(0, taken));
                assert(next.last() == all[taken]);
            }
            let e = rest.pop().unwrap();
            let (id, h) = e;
            if id >= counter {
                assert(entries@[taken].0 >= counter);
                return Err(SupervisorError::InconsistentSnapshot);
            }
            proof {
                taken = taken + 1;
            }
            procs.insert(id, h);
        }
        assert(all.subrange(0, all.len() as int) == all);
        let reg = Registry { next_id: counter, procs };
        proof {
            lemma_entries_map_keys(all);
        }
        Ok(reg)
    }

    /// The identifier to be issued next, as recorded in a snapshot.
    pub fn counter(&self) -> (r: usize)
        ensures
            r == self.counter_view(),
    {
        self.next_id
    }

    /// Issues a new identifier.
    pub fn get_id(&mut self) -> (id: usize)
        requires
            old(self).counter_view() < usize::MAX,
        ensures
            issues(*old(self), id, *final(self)),
            old(self).wf() ==> final(self).wf() && !old(self)@.contains_key(id),
    {
        let id = self.next_id;
        self.next_id = self.next_id + 1;
        proof {
            if old(self).wf() {
                assert forall|k: usize| #[trigger] self@.contains_key(k) implies k
                    < self.counter_view() by {
                    assert(old(self)@.contains_key(k));
                }
            }
        }
        id
    }

    /// Issues an identifier for a creation request whose user resolved to `uid` (`None`: no
    /// such user). An unknown user fails and issues nothing.
    pub fn issue_for_user(&mut self, uid: Option<u32>) -> (r: Result<usize, SupervisorError>)
        requires
            old(self).counter_view() < usize::MAX,
        ensures
            r is Ok <==> uid is Some,
            r matches Ok(id) ==> issues(*old(self), id, *final(self)),
            r matches Err(e) ==> e == SupervisorError::UnknownUser && *final(self) == *old(self),
            old(self).wf() ==> final(self).wf(),
    {
        match uid {
            Some(_) => Ok(self.get_id()),
            None => Err(SupervisorError::UnknownUser),
        }
    }

    /// Whether `id` is in the registry.
    pub fn contains(&self, id: usize) -> (r: bool)
        ensures
            r == self@.contains_key(id),
    {
        self.procs.contains_key(&id)
    }

    /// Number of processes.
    pub fn len(&self) -> (r: usize)
        ensures
            r == self@.len(),
    {
        self.procs.len()
    }

    /// The identifiers of all processes, each once, in no particular order.
    pub fn ids(&self) -> (r: Vec<usize>)
        ensures
            r@.to_set() == self@.dom(),
            r@.no_duplicates(),
    {
        let mut out: Vec<usize> = Vec::new();
        let keys = self.procs.keys();
        let ghost all = keys.remaining().unref();
        assert(all.to_set() == self@.dom());
        for k in it: keys
            invariant
                all == it.seq().unref(),
                out@ == all.subrange(0, it.index() as int),
        {
            out.push(*k);
            assert(all.subrange(0, it.index() + 1) == all.subrange(0, it.index() as int).push(all[it.index() as int]));
        }
        assert(all.subrange(0, all.len() as int) == all);
        out
    }

    /// Adds the process issued `id`.
    pub fn insert(&mut self, id: usize, h: H)
        requires
            id < old(self).counter_view(),
            !old(self)@.contains_key(id),
        ensures
            final(self)@ == old(self)@.insert(id, h),
            final(self).counter_view() == old(self).counter_view(),
            old(self).wf() ==> final(self).wf(),
    {
        self.procs.insert(id, h);
    }

    /// The process `id`.
    pub fn get(&self, id: usize) -> (r: Result<&H, SupervisorError>)
        ensures
            r is Ok <==> self@.contains_key(id),
            r matches Ok(h) ==> *h == self@[id],
            r matches Err(e) ==> e == SupervisorError::UnknownProcess,
    {
        match self.procs.get(&id) {
            Some(h) => Ok(h),
            None => Err(SupervisorError::UnknownProcess),
        }
    }

    /// Takes the process `id` out of the registry. Its identifier is never
    /// issued again.
    pub fn remove(&mut self, id: usize) -> (r: Result<H, SupervisorError>)
        ensures
            r is Ok <==> old(self)@.contains_key(id),
            r matches Ok(h) ==> h == old(self)@[id],
            r matches Err(e) ==> e == SupervisorError::UnknownProcess,
            final(self)@ == old(self)@.remove(id),
            final(self).counter_view() == old(self).counter_view(),
            old(self).wf() ==> final(self).wf(),
    {
        let taken = self.procs.remove(&id);
        proof {
            if old(self).wf() {
                assert forall|k: usize| #[trigger] self@.contains_key(k) implies k
                    < self.counter_view() by {
                    assert(old(self)@.contains_key(k));
                }
            }
        }
        match taken {
            Some(h) => Ok(h),
            None => Err(SupervisorError::UnknownProcess),
        }
    }
}

/// Identifiers issued one after another, with any operations between them
/// that do not lower the counter (inserts, removals, a save and restore of
/// the counter), strictly increase; none is ever a key already present.
pub proof fn lemma_ids_strictly_increase<H>(
    before: Seq<Registry<H>>,
    ids: Seq<usize>,
    after: Seq<Registry<H>>,
)
    requires
        before.len() == ids.len(),
        after.len() == ids.len(),
        forall|i: int| 0 <= i < ids.len() ==> issues(#[trigger] before[i], ids[i], after[i]),
        forall|i: int|
            0 <= i < ids.len() - 1 ==> before[i + 1].counter_view()
                >= #[trigger] after[i].counter_view(),
    ensures
        forall|i: int, j: int| 0 <= i < j < ids.len() ==> ids[i] < ids[j],
        forall|i: int|
            0 <= i < ids.len() && (#[trigger] before[i]).wf() ==> !before[i]@.contains_key(ids[i]),
    decreases ids.len(),
{
    if ids.len() > 1 {
        let n = ids.len() - 1;
        lemma_ids_strictly_increase(before.drop_last(), ids.drop_last(), after.drop_last());
        assert forall|i: int, j: int| 0 <= i < j < ids.len() implies ids[i] < ids[j] by {
            if j == n {
                assert(issues(before[n - 1], ids[n - 1], after[n - 1]));
                assert(issues(before[n], ids[n], after[n]));
                assert(before[n].counter_view() >= after[n - 1].counter_view());
                if i < n - 1 {
                    assert(ids.drop_last()[i] < ids.drop_last()[n - 1]);
                }
            } else {
                assert(ids.drop_last()[i] < ids.drop_last()[j]);
            }
        }
    }
    assert forall|i: int| 0 <= i < ids.len() && (#[trigger] before[i]).wf() implies !before[i]@.contains_key(
        ids[i],
    ) by {
        assert(issues(before[i], ids[i], after[i]));
    }
}

/// A registry restored with the counter saved from another keeps issuing
/// fresh identifiers: every identifier issued before the save lies below the
/// next one issued after the restore, and that one is not a restored key.
pub proof fn lemma_restore_keeps_ids_fresh<H>(
    saved: Registry<H>,
    earlier: Set<usize>,
    restored: Registry<H>,
    id: usize,
    after: Registry<H>,
)
    requires
        forall|i: usize| #[trigger] earlier.contains(i) ==> i < saved.counter_view(),
        restored.counter_view() == saved.counter_view(),
        restored.wf(),
        issues(restored, id, after),
    ensures
        forall|i: usize| #[trigger] earlier.contains(i) ==> i < id,
        !restored@.contains_key(id),
        after.wf(),
{
    assert forall|k: usize| #[trigger] after@.contains_key(k) implies k < after.counter_view() by {
        assert(restored@.contains_key(k));
    }
}

/// Every key of the map that entries describe is the identifier of an entry.
proof fn lemma_entries_map_keys<H>(s: Seq<(usize, H)>)
    ensures
        forall|k: usize| #[trigger]
            entries_map(s).contains_key(k) ==> exists|i: int| 0 <= i < s.len() && s[i].0 == k,
    decreases s.len(),
{
    if s.len() > 0 {
        lemma_entries_map_keys(s.drop_last());
        assert forall|k: usize| #[trigger] entries_map(s).contains_key(k) implies exists|i: int|
            0 <= i < s.len() && s[i].0 == k by {
            if k != s.last().0 {
                assert(entries_map(s.drop_last()).contains_key(k));
                let i = choose|i: int| 0 <= i < s.drop_last().len() && s.drop_last()[i].0 == k;
                assert(s[i].0 == k);
            } else {
                assert(s[s.len() - 1].0 == k);
            }
        }
    }
}

} // verus!
