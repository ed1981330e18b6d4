//! The persistent swap store.
//!
//! One record per swap, keyed by its 128-bit id, holding the latest
//! checkpointable role state; a write replaces the previous record. The
//! engine writes before any side effect it cannot re-observe, so a reload
//! always finds a state from which replaying observations converges (the
//! machines' monotone-progress laws make the replay safe). On disk each
//! record travels behind a one-byte format version.

use vstd::prelude::*;

use crate::alice::AliceState;
use crate::bob::BobState;

verus! {

/// The checkpointable state of either role.
#[derive(Debug)]
pub enum StoredState {
    /// An Alice-side swap.
    Alice(AliceState),
    /// A Bob-side swap.
    Bob(BobState),
}

/// Whether the sequence holds this record.
pub closed spec fn seq_has_pair(s: Seq<(u128, StoredState)>, k: u128, v: StoredState) -> bool {
    exists|i: int| 0 <= i < s.len() && #[trigger] s[i] == (k, v)
}

/// An in-memory image of the store: the latest record per swap id.
pub struct Database {
    entries: Vec<(u128, StoredState)>,
}

impl Database {
    /// Each swap id holds at most one record.
    pub closed spec fn wf(self) -> bool {
        forall|i: int, j: int|
            0 <= i < j < self.entries@.len() ==> (#[trigger] self.entries@[i]).0
                != (#[trigger] self.entries@[j]).0
    }

    /// Whether the store holds exactly this record.
    pub closed spec fn contains_pair(self, id: u128, st: StoredState) -> bool {
        seq_has_pair(self.entries@, id, st)
    }

    /// Whether the store holds any record for this swap id.
    pub closed spec fn contains_key(self, id: u128) -> bool {
        exists|i: int|
            0 <= i < self.entries@.len() && (#[trigger] self.entries@[i]).0 == id
    }

    /// An empty store.
    pub fn new() -> (r: Database)
        ensures
            r.wf(),
            forall|id: u128| !r.contains_key(id),
    {
        Database { entries: Vec::new() }
    }

    /// The last committed state of the swap, if any.
    pub fn get(&self, id: u128) -> (r: Option<&StoredState>)
        requires
            self.wf(),
        ensures
            r matches Some(st) ==> self.contains_pair(id, *st),
            r is Some <==> self.contains_key(id),
    {
        let mut i: usize = 0;
        while i < self.entries.len()
            invariant
                i <= self.entries@.len(),
                forall|j: int| 0 <= j < i ==> (#[trigger] self.entries@[j]).0 != id,
            decreases self.entries@.len() - i,
        {
            if self.entries[i].0 == id {
                return Some(&self.entries[i].1);
            }
            i = i + 1;
        }
        None
    }

    /// Commits `st` as the record of swap `id`, replacing any previous one.
    pub fn put(&mut self, id: u128, st: StoredState)
        requires
            old(self).wf(),
        ensures
            final(self).wf(),
            final(self).contains_pair(id, st),
            final(self).contains_key(id),
            forall|k: u128, v: StoredState|
                k != id ==> (#[trigger] final(self).contains_pair(k, v) == old(
                    self,
                ).contains_pair(k, v)),
    {
        let ghost old_entries = self.entries@;
        let mut i: usize = 0;
        while i < self.entries.len()
            invariant
                i <= self.entries@.len(),
                self.entries@ == old_entries,
                old_entries == old(self).entries@,
                old(self).wf(),
                forall|j: int| 0 <= j < i ==> (#[trigger] self.entries@[j]).0 != id,
            decreases self.entries@.len() - i,
        {
            if self.entries[i].0 == id {
                let _ = self.entries.remove(i);
                self.entries.push((id, st));
                proof {
                    assert(forall|x: int, y: int|
                        0 <= x < y < old_entries.len() ==> (#[trigger] old_entries[x]).0 != (
                        #[trigger] old_entries[y]).0);
                    lemma_put_replaced(old_entries, self.entries@, id, st, i as int);
                }
                return ;
            }
            i = i + 1;
        }
        self.entries.push((id, st));
        assert(self.entries@.drop_last() =~= old_entries);
        assert(self.entries@.last() == (id, st));
        assert(final(self).contains_pair(id, st)) by {
            assert(self.entries@[self.entries@.len() - 1] == (id, st));
        }
    }
}

/// After removing the old record at `at` and appending the new one, the
/// store maps `id` to `st`, keeps every other key as it was, and keys stay
/// unique.
proof fn lemma_put_replaced(
    old_s: Seq<(u128, StoredState)>,
    new_s: Seq<(u128, StoredState)>,
    id: u128,
    st: StoredState,
    at: int,
)
    requires
        0 <= at < old_s.len(),
        old_s[at].0 == id,
        forall|i: int, j: int|
            0 <= i < j < old_s.len() ==> (#[trigger] old_s[i]).0 != (#[trigger] old_s[j]).0,
        new_s == old_s.remove(at).push((id, st)),
    ensures
        forall|i: int, j: int|
            0 <= i < j < new_s.len() ==> (#[trigger] new_s[i]).0 != (#[trigger] new_s[j]).0,
        exists|i: int| 0 <= i < new_s.len() && #[trigger] new_s[i] == (id, st),
        forall|k: u128, v: StoredState|
            k != id ==> (#[trigger] seq_has_pair(new_s, k, v) == seq_has_pair(old_s, k, v)),
{
    let removed = old_s.remove(at);
    assert(removed.len() == old_s.len() - 1);
    assert forall|i: int| 0 <= i < removed.len() implies #[trigger] removed[i] == (
        if i < at { old_s[i] } else { old_s[i + 1] }
    ) by {
        assert(removed =~= old_s.subrange(0, at) + old_s.subrange(at + 1, old_s.len() as int));
    }
    assert(new_s.len() == old_s.len());
    assert(new_s[new_s.len() - 1] == (id, st));
    assert(forall|i: int| 0 <= i < new_s.len() - 1 ==> #[trigger] new_s[i] == removed[i]);
    assert forall|i: int| 0 <= i < new_s.len() - 1 implies (#[trigger] new_s[i]).0 != id by {
        if i < at {
            assert(new_s[i] == old_s[i]);
        } else {
            assert(new_s[i] == old_s[i + 1]);
        }
    }
    assert forall|k: u128, v: StoredState| k != id implies (#[trigger] seq_has_pair(new_s, k, v)
        == seq_has_pair(old_s, k, v)) by {
        if seq_has_pair(new_s, k, v) {
            let i = choose|i: int| 0 <= i < new_s.len() && #[trigger] new_s[i] == (k, v);
            assert(i < new_s.len() - 1);
            if i < at {
                assert(old_s[i] == (k, v));
            } else {
                assert(old_s[i + 1] == (k, v));
            }
            assert(seq_has_pair(old_s, k, v));
        }
        if seq_has_pair(old_s, k, v) {
            let i = choose|i: int| 0 <= i < old_s.len() && #[trigger] old_s[i] == (k, v);
            assert(old_s[at].0 == id);
            assert(i != at);
            if i < at {
                assert(new_s[i] == (k, v));
            } else {
                assert(new_s[i - 1] == (k, v));
            }
            assert(seq_has_pair(new_s, k, v));
        }
    }
}

/// Leading byte of the on-disk record format.
pub const STORE_FORMAT_VERSION: u8 = 1;

/// A serialized record behind its format version byte.
pub open spec fn frame_spec(p: Seq<u8>) -> Seq<u8> {
    seq![STORE_FORMAT_VERSION] + p
}

/// The payload of a framed record, if the version byte is the current one.
pub open spec fn unframe_spec(b: Seq<u8>) -> Option<Seq<u8>> {
    if b.len() > 0 && b[0] == STORE_FORMAT_VERSION {
        Some(b.skip(1))
    } else {
        None
    }
}

/// Framing then unframing returns the record unchanged.
pub proof fn lemma_frame_round_trip(p: Seq<u8>)
    ensures
        unframe_spec(frame_spec(p)) == Some(p),
{
    assert(frame_spec(p).skip(1) =~= p);
}

/// Prefixes a serialized record with the format version byte.
pub fn frame(payload: &Vec<u8>) -> (r: Vec<u8>)
    ensures
        r@ == frame_spec(payload@),
{
    let mut r: Vec<u8> = Vec::new();
    r.push(STORE_FORMAT_VERSION);
    crate::bytes::append_bytes(&mut r, payload);
    assert(r@ =~= frame_spec(payload@));
    r
}

/// Strips and checks the format version byte.
pub fn unframe(b: &Vec<u8>) -> (r: Option<Vec<u8>>)
    ensures
        r matches Some(p) ==> unframe_spec(b@) == Some(p@),
        r is Some <==> unframe_spec(b@) is Some,
{
    if b.len() == 0 {
        return None;
    }
    if b[0] != STORE_FORMAT_VERSION {
        return None;
    }
    let mut p: Vec<u8> = Vec::new();
    let mut i: usize = 1;
    while i < b.len()
        invariant
            1 <= i <= b@.len(),
            b@.len() > 0 && b@[0] == STORE_FORMAT_VERSION,
            p@ == b@.subrange(1, i as int),
        decreases b@.len() - i,
    {
        p.push(b[i]);
        i = i + 1;
        assert(p@ =~= b@.subrange(1, i as int));
    }
    assert(b@.subrange(1, b@.len() as int) =~= b@.skip(1));
    Some(p)
}

} // verus!
