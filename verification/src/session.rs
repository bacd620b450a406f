//! The cache of resumable sessions.

use openssl::ssl::{SslRef, SslSession};
use std::collections::HashMap;
use std::sync::RwLock;
use vstd::prelude::*;
use vstd::std_specs::hash::group_hash_axioms;

use crate::engine::{
    guard_table, guarded, lock_for_write, made_with, session_id, session_id_of,
};

verus! {

/// One cached session together with the identifier it is filed under.
pub struct Entry {
    id: Vec<u8>,
    session: SslSession,
}

/// Sessions keyed by their identifier. At most one session is kept per
/// identifier, and nothing is ever removed. The sessions stand in the order
/// in which their identifiers were first filed; an index from the bucket of
/// an identifier to the positions of the entries in that bucket keeps a
/// lookup from walking the whole table.
pub struct SessionTable {
    entries: Vec<Entry>,
    index: HashMap<u64, Vec<usize>>,
}

/// Where the bucket of the empty identifier lies.
pub const BUCKET_SEED: u64 = 0xcbf2_9ce4_8422_2325;

/// What each byte of an identifier multiplies its bucket by.
pub const BUCKET_STEP: u64 = 0x0000_0100_0000_01b3;

/// The bucket `h` stirred with one more byte.
pub open spec fn stirred(h: u64, byte: u8) -> u64 {
    (h ^ (byte as u64)).wrapping_mul(BUCKET_STEP)
}

/// The bucket that an identifier is indexed under: the seed, stirred with
/// each of its bytes in turn.
pub open spec fn bucket_of(id: Seq<u8>) -> u64
    decreases id.len(),
{
    if id.len() == 0 {
        BUCKET_SEED
    } else {
        stirred(bucket_of(id.drop_last()), id.last())
    }
}

/// Computes the bucket of an identifier.
pub fn bucket(id: &[u8]) -> (h: u64)
    ensures
        h == bucket_of(id@),
{
    let mut h: u64 = BUCKET_SEED;
    let mut i: usize = 0;
    while i < id.len()
        invariant
            i <= id@.len(),
            h == bucket_of(id@.take(i as int)),
        decreases id@.len() - i,
    {
        proof {
            let next = id@.take(i + 1);
            assert(next.drop_last() =~= id@.take(i as int));
            assert(next.last() == id@[i as int]);
        }
        h = (h ^ (id[i] as u64)).wrapping_mul(BUCKET_STEP);
        i += 1;
    }
    proof {
        assert(id@.take(id@.len() as int) =~= id@);
    }
    h
}

/// Whether two byte strings hold the same bytes.
pub fn same_bytes(a: &[u8], b: &[u8]) -> (r: bool)
    ensures
        r == (a@ == b@),
{
    if a.len() != b.len() {
        return false;
    }
    let mut i: usize = 0;
    while i < a.len()
        invariant
            a@.len() == b@.len(),
            i <= a@.len(),
            forall|j: int| 0 <= j < i ==> a@[j] == b@[j],
        decreases a@.len() - i,
    {
        if a[i] != b[i] {
            return false;
        }
        i += 1;
    }
    assert(a@ =~= b@);
    true
}

/// The cache `m` after `session` was filed under the identifier it carries.
pub open spec fn filed(m: Map<Seq<u8>, SslSession>, session: SslSession) -> Map<
    Seq<u8>,
    SslSession,
> {
    m.insert(session_id_of(session), session)
}

/// The cache `m` after every session of `sessions` was filed, first to last.
pub open spec fn filed_all(m: Map<Seq<u8>, SslSession>, sessions: Seq<SslSession>) -> Map<
    Seq<u8>,
    SslSession,
>
    decreases sessions.len(),
{
    if sessions.len() == 0 {
        m
    } else {
        filed(filed_all(m, sessions.drop_last()), sessions.last())
    }
}

/// Whether one of `sessions` carries the identifier `id`.
pub open spec fn carried(sessions: Seq<SslSession>, id: Seq<u8>) -> bool {
    exists|i: int| 0 <= i < sessions.len() && session_id_of(#[trigger] sessions[i]) == id
}

/// Whether no session after position `i` carries the identifier of the one
/// at `i`.
pub open spec fn last_of_its_id(sessions: Seq<SslSession>, i: int) -> bool {
    forall|j: int|
        i < j < sessions.len() ==> session_id_of(#[trigger] sessions[j]) != session_id_of(
            sessions[i],
        )
}

/// Whether the sessions carry pairwise different identifiers.
pub open spec fn distinct_ids(sessions: Seq<SslSession>) -> bool {
    forall|i: int, j: int|
        0 <= i < j < sessions.len() ==> session_id_of(#[trigger] sessions[i]) != session_id_of(
            #[trigger] sessions[j],
        )
}

/// Filing a second session under the identifier of a first leaves only the
/// second: the cache is as if the first had never been filed.
pub proof fn lemma_last_write_wins(
    m: Map<Seq<u8>, SslSession>,
    first: SslSession,
    second: SslSession,
)
    requires
        session_id_of(first) == session_id_of(second),
    ensures
        filed(filed(m, first), second) == filed(m, second),
        filed(filed(m, first), second)[session_id_of(first)] == second,
{
    assert(filed(filed(m, first), second) =~= filed(m, second));
}

/// Filing sessions under different identifiers does not depend on the order:
/// neither displaces the other.
pub proof fn lemma_different_ids_commute(
    m: Map<Seq<u8>, SslSession>,
    a: SslSession,
    b: SslSession,
)
    requires
        session_id_of(a) != session_id_of(b),
    ensures
        filed(filed(m, a), b) == filed(filed(m, b), a),
{
    assert(filed(filed(m, a), b) =~= filed(filed(m, b), a));
}

/// After any run of filings the cache holds an identifier exactly if it held
/// it before or one of the sessions carries it; under each carried identifier
/// stands the last session that carries it; every other entry is untouched.
pub proof fn lemma_filed_all(m: Map<Seq<u8>, SslSession>, sessions: Seq<SslSession>)
    ensures
        forall|id: Seq<u8>| #[trigger]
            filed_all(m, sessions).dom().contains(id) <==> m.dom().contains(id) || carried(
                sessions,
                id,
            ),
        forall|i: int|
            0 <= i < sessions.len() && last_of_its_id(sessions, i) ==> filed_all(
                m,
                sessions,
            )[session_id_of(#[trigger] sessions[i])] == sessions[i],
        forall|id: Seq<u8>|
            m.dom().contains(id) && !carried(sessions, id) ==> #[trigger] filed_all(
                m,
                sessions,
            )[id] == m[id],
    decreases sessions.len(),
{
    if sessions.len() > 0 {
        let front = sessions.drop_last();
        let last = sessions.last();
        let n = front.len() as int;
        lemma_filed_all(m, front);
        assert(sessions[n] == last);
        assert forall|id: Seq<u8>| carried(sessions, id) <==> carried(front, id)
            || session_id_of(last) == id by {
            if carried(sessions, id) {
                let i = choose|i: int|
                    0 <= i < sessions.len() && session_id_of(#[trigger] sessions[i]) == id;
                if i < n {
                    assert(front[i] == sessions[i]);
                }
            }
            if carried(front, id) {
                let i = choose|i: int|
                    0 <= i < front.len() && session_id_of(#[trigger] front[i]) == id;
                assert(front[i] == sessions[i]);
            }
        }
        assert forall|i: int| 0 <= i < sessions.len() && last_of_its_id(sessions, i) implies filed_all(
            m,
            sessions,
        )[session_id_of(#[trigger] sessions[i])] == sessions[i] by {
            if i < n {
                assert(front[i] == sessions[i]);
                assert(session_id_of(sessions[n]) != session_id_of(sessions[i]));
                assert forall|j: int| i < j < front.len() implies session_id_of(
                    #[trigger] front[j],
                ) != session_id_of(front[i]) by {
                    assert(front[j] == sessions[j]);
                }
                assert(last_of_its_id(front, i));
            }
        }
        let prev = filed_all(m, front);
        assert(filed_all(m, sessions) == filed(prev, last));
        assert forall|id: Seq<u8>| #[trigger]
            filed_all(m, sessions).dom().contains(id) <==> m.dom().contains(id) || carried(
                sessions,
                id,
            ) by {
            assert(prev.dom().contains(id) <==> m.dom().contains(id) || carried(front, id));
        }
        assert forall|id: Seq<u8>| m.dom().contains(id) && !carried(sessions, id) implies #[trigger]
            filed_all(m, sessions)[id] == m[id] by {
            assert(!carried(front, id) && session_id_of(last) != id);
            assert(prev[id] == m[id]);
        }
    } else {
        assert(filed_all(m, sessions) == m);
        assert forall|id: Seq<u8>| !carried(sessions, id) by {}
    }
}

/// Sessions with pairwise different identifiers, filed into an empty cache in
/// any order of arrival, are all kept: one entry for each.
pub proof fn lemma_distinct_ids_all_kept(sessions: Seq<SslSession>)
    requires
        distinct_ids(sessions),
    ensures
        filed_all(Map::empty(), sessions).dom().finite(),
        filed_all(Map::empty(), sessions).dom().len() == sessions.len(),
        forall|i: int|
            0 <= i < sessions.len() ==> filed_all(Map::empty(), sessions)[session_id_of(
                #[trigger] sessions[i],
            )] == sessions[i],
    decreases sessions.len(),
{
    let empty = Map::<Seq<u8>, SslSession>::empty();
    lemma_filed_all(empty, sessions);
    assert forall|i: int| 0 <= i < sessions.len() implies last_of_its_id(sessions, i) by {}
    if sessions.len() > 0 {
        let front = sessions.drop_last();
        let last = sessions.last();
        let n = front.len() as int;
        assert forall|i: int, j: int| 0 <= i < j < front.len() implies session_id_of(
            #[trigger] front[i],
        ) != session_id_of(#[trigger] front[j]) by {
            assert(front[i] == sessions[i] && front[j] == sessions[j]);
        }
        lemma_distinct_ids_all_kept(front);
        lemma_filed_all(empty, front);
        assert(!carried(front, session_id_of(last))) by {
            if carried(front, session_id_of(last)) {
                let i = choose|i: int|
                    0 <= i < front.len() && session_id_of(#[trigger] front[i]) == session_id_of(
                        last,
                    );
                assert(front[i] == sessions[i]);
                assert(sessions[n] == last);
            }
        }
        assert(!filed_all(empty, front).dom().contains(session_id_of(last)));
    }
}

/// Every session in a well-formed table is filed under the identifier that
/// it carries itself.
pub proof fn lemma_filed_under_own_id(table: SessionTable, id: Seq<u8>)
    requires
        table.wf(),
        table@.dom().contains(id),
    ensures
        session_id_of(table@[id]) == id,
{
    let p = table.position(id);
    assert(table.id_at(p) == id);
}

impl SessionTable {
    /// The identifier that the entry at position `i` is filed under.
    pub closed spec fn id_at(&self, i: int) -> Seq<u8> {
        self.entries@[i].id@
    }

    /// Whether some entry is filed under `id`.
    pub closed spec fn holds(&self, id: Seq<u8>) -> bool {
        exists|i: int| 0 <= i < self.entries@.len() && #[trigger] self.id_at(i) == id
    }

    /// The position of the entry filed under `id`.
    pub closed spec fn position(&self, id: Seq<u8>) -> int {
        choose|i: int| 0 <= i < self.entries@.len() && #[trigger] self.id_at(i) == id
    }

    /// The table as a map from identifier to session.
    pub closed spec fn view(&self) -> Map<Seq<u8>, SslSession> {
        Map::new(|id: Seq<u8>| self.holds(id), |id: Seq<u8>| self.entries@[self.position(id)].session)
    }

    /// The position that the index lists at place `k` of bucket `h`.
    pub closed spec fn slot(&self, h: u64, k: int) -> usize {
        self.index@[h]@[k]
    }

    /// Whether the index lists position `i` in the bucket of the identifier
    /// filed there.
    pub closed spec fn listed(&self, i: int) -> bool {
        let h = bucket_of(self.id_at(i));
        self.index@.contains_key(h) && exists|k: int|
            0 <= k < self.index@[h]@.len() && #[trigger] self.slot(h, k) == i
    }

    /// The index lists every entry in the bucket of its identifier, and
    /// lists no position beyond the entries.
    pub closed spec fn indexed(&self) -> bool {
        &&& forall|i: int| 0 <= i < self.entries@.len() ==> #[trigger] self.listed(i)
        &&& forall|h: u64, k: int|
            self.index@.contains_key(h) && 0 <= k < self.index@[h]@.len() ==> #[trigger] self.slot(
                h,
                k,
            ) < self.entries@.len()
    }

    /// No identifier is filed twice, every session is filed under the
    /// identifier that it carries itself, and the index is complete.
    pub closed spec fn wf(&self) -> bool {
        self.one_per_id() && self.indexed()
    }

    /// No identifier is filed twice, and every session is filed under the
    /// identifier that it carries itself.
    pub closed spec fn one_per_id(&self) -> bool {
        &&& forall|i: int, j: int|
            0 <= i < j < self.entries@.len() ==> #[trigger] self.id_at(i) != #[trigger] self.id_at(
                j,
            )
        &&& forall|i: int|
            0 <= i < self.entries@.len() ==> #[trigger] self.id_at(i) == session_id_of(
                self.entries@[i].session,
            )
    }

    #[verifier::type_invariant]
    spec fn always_wf(&self) -> bool {
        self.wf()
    }

    /// An empty table.
    pub fn new() -> (table: SessionTable)
        ensures
            table.wf(),
            table@ == Map::<Seq<u8>, SslSession>::empty(),
    {
        let table = SessionTable { entries: Vec::new(), index: HashMap::new() };
        assert(table@ =~= Map::<Seq<u8>, SslSession>::empty());
        table
    }

    /// Where the entry filed under `id` stands, if there is one. Only the
    /// entries in the bucket `h` of `id` are looked at.
    fn find(&self, id: &[u8], h: u64) -> (r: Option<usize>)
        requires
            self.wf(),
            h == bucket_of(id@),
        ensures
            match r {
                Some(i) => i < self.entries@.len() && self.id_at(i as int) == id@ && self.holds(
                    id@,
                ) && self.position(id@) == i,
                None => !self.holds(id@),
            },
    {
        broadcast use group_hash_axioms;

        match self.index.get(&h) {
            None => {
                proof {
                    if self.holds(id@) {
                        let i = self.position(id@);
                        assert(self.id_at(i) == id@);
                        assert(self.listed(i));
                    }
                }
                None
            },
            Some(positions) => {
                let mut k: usize = 0;
                while k < positions.len()
                    invariant
                        self.wf(),
                        h == bucket_of(id@),
                        self.index@.contains_key(h),
                        *positions == self.index@[h],
                        k <= positions@.len(),
                        forall|j: int|
                            0 <= j < k ==> self.id_at(#[trigger] self.slot(h, j) as int) != id@,
                    decreases positions@.len() - k,
                {
                    let p = positions[k];
                    proof {
                        assert(self.slot(h, k as int) == p);
                    }
                    if same_bytes(self.entries[p].id.as_slice(), id) {
                        proof {
                            assert(self.id_at(p as int) == id@);
                            assert(self.position(id@) == p);
                        }
                        return Some(p);
                    }
                    k += 1;
                }
                proof {
                    if self.holds(id@) {
                        let i = self.position(id@);
                        assert(self.id_at(i) == id@);
                        assert(self.listed(i));
                        let at = choose|at: int|
                            0 <= at < self.index@[h]@.len() && #[trigger] self.slot(h, at) == i;
                        assert(self.id_at(self.slot(h, at) as int) != id@);
                    }
                }
                None
            },
        }
    }

    /// The identifiers in the order in which they were first filed.
    pub closed spec fn ids(&self) -> Seq<Seq<u8>> {
        Seq::new(self.entries@.len(), |i: int| self.id_at(i))
    }

    /// A well-formed table holds finitely many sessions: as many as it has
    /// entries.
    proof fn lemma_size(&self)
        requires
            self.one_per_id(),
        ensures
            self@.dom().finite(),
            self@.dom().len() == self.entries@.len(),
    {
        let ids = self.ids();
        assert(ids.no_duplicates()) by {
            assert forall|i: int, j: int|
                0 <= i < ids.len() && 0 <= j < ids.len() && i != j implies ids[i] != ids[j] by {
                if i < j {
                    assert(self.id_at(i) != self.id_at(j));
                } else {
                    assert(self.id_at(j) != self.id_at(i));
                }
            }
        }
        assert(self@.dom() =~= ids.to_set()) by {
            assert forall|k: Seq<u8>| self.holds(k) <==> ids.contains(k) by {
                if self.holds(k) {
                    let p = self.position(k);
                    assert(ids[p] == k);
                }
                if ids.contains(k) {
                    let p = ids.index_of(k);
                    assert(self.id_at(p) == k);
                }
            }
        }
        ids.unique_seq_to_set();
        vstd::seq_lib::seq_to_set_is_finite(ids);
    }

    /// How many sessions are kept.
    pub fn len(&self) -> (n: usize)
        ensures
            self@.dom().finite(),
            n == self@.dom().len(),
    {
        proof {
            use_type_invariant(self);
            self.lemma_size();
        }
        self.entries.len()
    }

    /// The session filed under `id`, if there is one.
    pub fn get(&self, id: &[u8]) -> (r: Option<&SslSession>)
        ensures
            match r {
                Some(session) => self@.dom().contains(id@) && *session == self@[id@],
                None => !self@.dom().contains(id@),
            },
    {
        proof {
            use_type_invariant(self);
        }
        match self.find(id, bucket(id)) {
            Some(i) => Some(&self.entries[i].session),
            None => None,
        }
    }

    /// Files `session` under the identifier it carries, in place of whatever
    /// was filed there before.
    pub fn insert(&mut self, session: SslSession)
        ensures
            final(self).wf(),
            final(self)@ == filed(old(self)@, session),
    {
        proof {
            use_type_invariant(&*self);
        }
        broadcast use group_hash_axioms;

        let id = session_id(&session);
        let h = bucket(id.as_slice());
        let found = self.find(id.as_slice(), h);
        let ghost before = *self;
        let mut taken = SessionTable::new();
        core::mem::swap(self, &mut taken);
        let SessionTable { entries, index } = taken;
        let mut entries = entries;
        let mut index = index;
        match found {
            Some(i) => {
                entries[i].session = session;
            },
            None => {
                let n = entries.len();
                entries.push(Entry { id, session });
                let mut positions = match index.remove(&h) {
                    Some(positions) => positions,
                    None => Vec::new(),
                };
                positions.push(n);
                index.insert(h, positions);
            },
        }
        let ghost after = SessionTable { entries, index };
        proof {
            let want = before@.insert(session_id_of(session), session);
            let n = before.entries@.len() as int;
            assert(forall|j: int| 0 <= j < n ==> #[trigger] after.id_at(j) == before.id_at(j));
            assert(forall|j: int|
                0 <= j < n && Some(j as usize) != found ==> #[trigger] after.entries@[j].session
                    == before.entries@[j].session);
            assert(after.one_per_id()) by {
                assert forall|i: int, j: int| 0 <= i < j < after.entries@.len() implies after.id_at(
                    i,
                ) != after.id_at(j) by {
                    if j < n {
                        assert(before.id_at(i) != before.id_at(j));
                    } else {
                        assert(after.id_at(j) == session_id_of(session));
                        assert(before.id_at(i) != session_id_of(session));
                    }
                }
                assert forall|i: int| 0 <= i < after.entries@.len() implies after.id_at(i)
                    == session_id_of(after.entries@[i].session) by {
                    if i < n && Some(i as usize) != found {
                        assert(before.id_at(i) == session_id_of(before.entries@[i].session));
                    }
                }
            }
            assert(after.indexed()) by {
                assert forall|g: u64, k: int|
                    after.index@.contains_key(g) && 0 <= k < after.index@[g]@.len() implies #[trigger] after.slot(
                    g,
                    k,
                ) < after.entries@.len() by {
                    if found is None && g == h {
                        if k < after.index@[g]@.len() - 1 {
                            assert(before.index@.contains_key(g));
                            assert(after.slot(g, k) == before.slot(g, k));
                        }
                    } else {
                        assert(after.slot(g, k) == before.slot(g, k));
                    }
                }
                assert forall|i: int| 0 <= i < after.entries@.len() implies #[trigger] after.listed(
                    i,
                ) by {
                    let g = bucket_of(after.id_at(i));
                    if i < n {
                        assert(before.listed(i));
                        let at = choose|at: int|
                            0 <= at < before.index@[g]@.len() && #[trigger] before.slot(g, at) == i;
                        assert(after.slot(g, at) == i);
                    } else {
                        assert(g == h);
                        assert(after.slot(g, after.index@[g]@.len() - 1) == i);
                    }
                }
            }
            assert forall|k: Seq<u8>| after@.dom().contains(k) <==> want.dom().contains(k) by {
                if after.holds(k) {
                    let p = after.position(k);
                    if p < before.entries@.len() {
                        assert(before.id_at(p) == k);
                    }
                }
                if before.holds(k) {
                    let p = before.position(k);
                    assert(after.id_at(p) == k);
                }
                if k == session_id_of(session) {
                    match found {
                        Some(i) => {
                            assert(after.id_at(i as int) == k);
                        },
                        None => {
                            assert(after.id_at(before.entries@.len() as int) == k);
                        },
                    }
                }
            }
            assert forall|k: Seq<u8>| after@.dom().contains(k) implies after@[k] == want[k] by {
                let p = after.position(k);
                assert(after.id_at(p) == k);
                if k == session_id_of(session) {
                    assert(after.entries@[p].session == session);
                } else {
                    assert(before.id_at(p) == k);
                    assert(before.position(k) == p);
                }
            }
            assert(after@ =~= want);
        }
        *self = SessionTable { entries, index };
        assert(*self == after);
    }
}

/// The session cache as the handshakes share it: a table behind a
/// readers-writer lock. Every access takes the lock exclusively, so filings
/// from handshakes that complete at the same time take effect one after the
/// other, in some order.
pub struct SessionStore {
    sessions: RwLock<SessionTable>,
}

impl SessionStore {
    /// The sessions that the store held when it was made.
    pub closed spec fn started_with(&self) -> Map<Seq<u8>, SslSession> {
        made_with(self.sessions)
    }

    /// An empty store.
    pub fn new() -> (store: SessionStore)
        ensures
            store.started_with() == Map::<Seq<u8>, SslSession>::empty(),
    {
        SessionStore { sessions: guard_table(SessionTable::new()) }
    }

    /// Files `session` under the identifier it carries, as
    /// `SessionTable::insert` does. The handshake that negotiated it is not
    /// consulted. Where the lock is poisoned the session is not cached:
    /// resumption is an optimisation, and the handshake goes on without it.
    pub fn insert(&self, _ssl: &mut SslRef, session: SslSession)
        ensures
            *final(_ssl) == *old(_ssl),
    {
        match lock_for_write(&self.sessions) {
            Some(guard) => {
                let mut guard = guard;
                guarded(&mut guard).insert(session);
            },
            None => {},
        }
    }

    /// How many sessions are kept, or `None` where the lock is poisoned.
    pub fn len(&self) -> Option<usize> {
        match lock_for_write(&self.sessions) {
            Some(guard) => {
                let mut guard = guard;
                Some(guarded(&mut guard).len())
            },
            None => None,
        }
    }

    /// Whether a session is filed under `id`; `false` where the lock is
    /// poisoned.
    pub fn contains(&self, id: &[u8]) -> bool {
        match lock_for_write(&self.sessions) {
            Some(guard) => {
                let mut guard = guard;
                guarded(&mut guard).get(id).is_some()
            },
            None => false,
        }
    }
}

} // verus!
