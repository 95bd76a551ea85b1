//! The store of persisted login sessions: creation with collision as a
//! hard failure, lookup with the expiry check pushed into the lookup
//! itself, and the periodic sweep that collects expired rows.

use vstd::prelude::*;
use crate::auth::User;
use crate::bytesutil::bytes_eq;
use crate::strutil::clone_string_vec;

verus! {

/// One persisted session row: an opaque identifier bound to the identity
/// it was created for, and the creation time in seconds.
pub struct SessionRecord {
    pub id: Vec<u8>,
    pub username: String,
    pub display_name: String,
    pub roles: Vec<String>,
    pub created: u64,
}

/// Failures of the session store.
#[derive(Debug)]
pub enum StoreError {
    /// A freshly generated session id collided with a stored one. The id
    /// space is cryptographically sized, so a collision indicates a deeper
    /// problem and is surfaced as a hard failure, never silently retried.
    IdCollision,
}

/// The table of active sessions, keyed by their opaque ids.
pub struct SessionStore {
    pub sessions: Vec<SessionRecord>,
}

/// A session created at `created` is still live at `now`. The creation
/// time may lie in the future (clock skew); such a session counts as live,
/// exactly as an age test `now - created < max_age` over unbounded
/// integers has it.
pub open spec fn session_live(created: u64, now: u64, max_age_secs: u64) -> bool {
    now - created < max_age_secs
}

/// The counterpart used by garbage collection: strictly older than the
/// allowed age. At the exact boundary a session is no longer served, but
/// also not yet collected.
pub open spec fn session_expired(created: u64, now: u64, max_age_secs: u64) -> bool {
    now - created > max_age_secs
}

pub open spec fn contains_id(ss: Seq<SessionRecord>, id: Seq<u8>) -> bool {
    exists|i: int| 0 <= i < ss.len() && ss[i].id@ == id
}

pub open spec fn ids_unique(ss: Seq<SessionRecord>) -> bool {
    forall|i: int, j: int| 0 <= i < j < ss.len() ==> ss[i].id@ != ss[j].id@
}

/// The first stored session with the given id that is still live at `now`.
pub open spec fn lookup_spec(
    ss: Seq<SessionRecord>,
    id: Seq<u8>,
    now: u64,
    max_age_secs: u64,
) -> Option<SessionRecord>
    decreases ss.len(),
{
    if ss.len() == 0 {
        None
    } else if ss[0].id@ == id && session_live(ss[0].created, now, max_age_secs) {
        Some(ss[0])
    } else {
        lookup_spec(ss.drop_first(), id, now, max_age_secs)
    }
}

/// The sessions a sweep keeps: those not yet expired, in order.
pub open spec fn retained_sessions(ss: Seq<SessionRecord>, now: u64, max_age_secs: u64) -> Seq<
    SessionRecord,
>
    decreases ss.len(),
{
    if ss.len() == 0 {
        Seq::empty()
    } else {
        let rest = retained_sessions(ss.drop_first(), now, max_age_secs);
        if session_expired(ss[0].created, now, max_age_secs) {
            rest
        } else {
            seq![ss[0]] + rest
        }
    }
}

/// Whether a session created at `created` is live at `now`.
pub fn session_is_live(created: u64, now: u64, max_age_secs: u64) -> (r: bool)
    ensures
        r == session_live(created, now, max_age_secs),
{
    if now >= created {
        now - created < max_age_secs
    } else {
        true
    }
}

/// Whether a session created at `created` has expired at `now`.
pub fn session_is_expired(created: u64, now: u64, max_age_secs: u64) -> (r: bool)
    ensures
        r == session_expired(created, now, max_age_secs),
{
    if now >= created {
        now - created > max_age_secs
    } else {
        false
    }
}

impl SessionStore {
    /// Ids are unique: the store treats the id as its key.
    pub open spec fn wf(&self) -> bool {
        ids_unique(self.sessions@)
    }

    /// A store with no sessions.
    pub fn new() -> (r: SessionStore)
        ensures
            r.wf(),
            r.sessions@ =~= Seq::<SessionRecord>::empty(),
    {
        SessionStore { sessions: Vec::new() }
    }

    /// Whether some session with this id exists, live or not.
    pub fn contains(&self, id: &Vec<u8>) -> (r: bool)
        ensures
            r == contains_id(self.sessions@, id@),
    {
        let mut i: usize = 0;
        while i < self.sessions.len()
            invariant
                i <= self.sessions@.len(),
                forall|k: int| 0 <= k < i ==> self.sessions@[k].id@ != id@,
            decreases self.sessions@.len() - i,
        {
            if bytes_eq(self.sessions[i].id.as_slice(), id.as_slice()) {
                assert(contains_id(self.sessions@, id@));
                return true;
            }
            i += 1;
        }
        false
    }

    /// Persists a new session for `user` under the given id. A collision
    /// with a stored id is reported as a hard failure and changes nothing.
    pub fn create(&mut self, user: &User, id: Vec<u8>, now: u64) -> (r: Result<(), StoreError>)
        requires
            old(self).wf(),
        ensures
            final(self).wf(),
            r is Err <==> contains_id(old(self).sessions@, id@),
            r is Err ==> final(self).sessions@ == old(self).sessions@,
            r is Ok ==> final(self).sessions@.len() == old(self).sessions@.len() + 1,
            r is Ok ==> final(self).sessions@.take(old(self).sessions@.len() as int) =~= old(self).sessions@,
            r is Ok ==> final(self).sessions@.last().id@ == id@,
            r is Ok ==> final(self).sessions@.last().username@ == user.username@,
            r is Ok ==> final(self).sessions@.last().display_name@ == user.display_name@,
            r is Ok ==> final(self).sessions@.last().roles.deep_view() == user.roles.deep_view(),
            r is Ok ==> final(self).sessions@.last().created == now,
    {
        if self.contains(&id) {
            return Err(StoreError::IdCollision);
        }
        let ghost old_ss = self.sessions@;
        let rec = SessionRecord {
            id,
            username: user.username.clone(),
            display_name: user.display_name.clone(),
            roles: clone_string_vec(&user.roles),
            created: now,
        };
        self.sessions.push(rec);
        proof {
            assert(self.sessions@.take(old_ss.len() as int) =~= old_ss);
            assert forall|i: int, j: int| 0 <= i < j < self.sessions@.len() implies self.sessions@[i].id@ != self.sessions@[j].id@ by {
                if j < old_ss.len() {
                } else {
                    assert(self.sessions@[i] == old_ss[i]);
                    assert(!contains_id(old_ss, self.sessions@[j].id@));
                }
            }
        }
        Ok(())
    }

    /// Looks a session id up, with the expiry predicate part of the lookup
    /// itself: an unknown id and an expired session both yield `None`,
    /// uniformly. A live session comes back as the stored identity,
    /// unchanged.
    pub fn lookup(&self, id: &Vec<u8>, now: u64, max_age_secs: u64) -> (r: Option<User>)
        ensures
            match lookup_spec(self.sessions@, id@, now, max_age_secs) {
                Option::None => r is None,
                Option::Some(rec) => r matches Some(u) && u.username@ == rec.username@
                    && u.display_name@ == rec.display_name@ && u.roles.deep_view()
                    == rec.roles.deep_view(),
            },
    {
        let mut i: usize = 0;
        proof {
            assert(self.sessions@.skip(0) =~= self.sessions@);
        }
        while i < self.sessions.len()
            invariant
                i <= self.sessions@.len(),
                lookup_spec(self.sessions@.skip(i as int), id@, now, max_age_secs) == lookup_spec(
                    self.sessions@,
                    id@,
                    now,
                    max_age_secs,
                ),
            decreases self.sessions@.len() - i,
        {
            proof {
                assert(self.sessions@.skip(i as int)[0] == self.sessions@[i as int]);
                assert(self.sessions@.skip(i as int).drop_first() =~= self.sessions@.skip(
                    i as int + 1,
                ));
            }
            let rec = &self.sessions[i];
            if bytes_eq(rec.id.as_slice(), id.as_slice()) && session_is_live(
                rec.created,
                now,
                max_age_secs,
            ) {
                return Some(
                    User {
                        username: rec.username.clone(),
                        display_name: rec.display_name.clone(),
                        roles: clone_string_vec(&rec.roles),
                    },
                );
            }
            i += 1;
        }
        proof {
            assert(self.sessions@.skip(i as int) =~= Seq::<SessionRecord>::empty());
        }
        None
    }

    /// Removes every expired session and reports how many went. The
    /// session expiration time is still checked on every lookup, so the
    /// sweep is about hygiene, not correctness.
    pub fn delete_expired(&mut self, now: u64, max_age_secs: u64) -> (count: usize)
        ensures
            final(self).sessions@ == retained_sessions(old(self).sessions@, now, max_age_secs),
            count == old(self).sessions@.len() - final(self).sessions@.len(),
            old(self).wf() ==> final(self).wf(),
    {
        let ghost orig = self.sessions@;
        let _n: usize = self.sessions.len();
        assert(orig.len() <= usize::MAX);
        let mut i: usize = 0;
        let mut count: usize = 0;
        proof {
            assert(orig.skip(0) =~= orig);
            assert(retained_sessions(orig, now, max_age_secs) =~= self.sessions@.take(0)
                + retained_sessions(self.sessions@.skip(0), now, max_age_secs));
        }
        while i < self.sessions.len()
            invariant
                i <= self.sessions@.len(),
                orig.len() <= usize::MAX,
                self.sessions@.len() <= orig.len(),
                count == orig.len() - self.sessions@.len(),
                retained_sessions(orig, now, max_age_secs) =~= self.sessions@.take(i as int)
                    + retained_sessions(self.sessions@.skip(i as int), now, max_age_secs),
            decreases self.sessions@.len() - i,
        {
            proof {
                assert(self.sessions@.skip(i as int)[0] == self.sessions@[i as int]);
                assert(self.sessions@.skip(i as int).drop_first() =~= self.sessions@.skip(
                    i as int + 1,
                ));
            }
            let ghost before = self.sessions@;
            if session_is_expired(self.sessions[i].created, now, max_age_secs) {
                self.sessions.remove(i);
                count += 1;
                proof {
                    assert(self.sessions@.take(i as int) =~= before.take(i as int));
                    assert(self.sessions@.skip(i as int) =~= before.skip(i as int + 1));
                }
            } else {
                i += 1;
                proof {
                    assert(self.sessions@.take(i as int) =~= before.take(i as int - 1) + seq![
                        before[i as int - 1],
                    ]);
                    assert((before.take(i as int - 1) + seq![before[i as int - 1]])
                        + retained_sessions(before.skip(i as int), now, max_age_secs) =~= before.take(
                        i as int - 1,
                    ) + (seq![before[i as int - 1]] + retained_sessions(
                        before.skip(i as int),
                        now,
                        max_age_secs,
                    )));
                }
            }
        }
        proof {
            assert(self.sessions@.skip(i as int) =~= Seq::<SessionRecord>::empty());
            assert(self.sessions@.take(i as int) =~= self.sessions@);
            assert(retained_sessions(orig, now, max_age_secs) =~= self.sessions@);
            if ids_unique(orig) {
                lemma_retained_unique(orig, now, max_age_secs);
            }
        }
        count
    }
}

impl User {
    /// Persists a new session for this user under a caller-supplied,
    /// cryptographically random id; the id then travels as the session
    /// cookie. A collision with a stored id is a hard failure, never
    /// silently retried: the id space makes one a sign of deeper trouble.
    pub fn persist_new_session(
        &self,
        store: &mut SessionStore,
        id: Vec<u8>,
        now: u64,
    ) -> (r: Result<(), StoreError>)
        requires
            old(store).wf(),
        ensures
            final(store).wf(),
            r is Err <==> contains_id(old(store).sessions@, id@),
            r is Err ==> final(store).sessions@ == old(store).sessions@,
            r is Ok ==> final(store).sessions@.len() == old(store).sessions@.len() + 1,
            r is Ok ==> final(store).sessions@.take(old(store).sessions@.len() as int) =~= old(store).sessions@,
            r is Ok ==> final(store).sessions@.last().id@ == id@,
            r is Ok ==> final(store).sessions@.last().username@ == self.username@,
            r is Ok ==> final(store).sessions@.last().display_name@ == self.display_name@,
            r is Ok ==> final(store).sessions@.last().roles.deep_view() == self.roles.deep_view(),
            r is Ok ==> final(store).sessions@.last().created == now,
    {
        store.create(self, id, now)
    }
}

/// A sweep keeps ids unique, and keeps no id it collected: what it
/// retains is drawn from what was stored.
pub proof fn lemma_retained_unique(ss: Seq<SessionRecord>, now: u64, max_age_secs: u64)
    requires
        ids_unique(ss),
    ensures
        ids_unique(retained_sessions(ss, now, max_age_secs)),
        forall|id: Seq<u8>|
            contains_id(retained_sessions(ss, now, max_age_secs), id) ==> contains_id(ss, id),
    decreases ss.len(),
{
    if ss.len() == 0 {
    } else {
        let rest = retained_sessions(ss.drop_first(), now, max_age_secs);
        let whole = retained_sessions(ss, now, max_age_secs);
        assert(ids_unique(ss.drop_first())) by {
            assert(forall|i: int, j: int|
                0 <= i < j < ss.drop_first().len() ==> ss.drop_first()[i].id@ != ss.drop_first()[j].id@);
        }
        lemma_retained_unique(ss.drop_first(), now, max_age_secs);
        if session_expired(ss[0].created, now, max_age_secs) {
            assert forall|id: Seq<u8>| contains_id(whole, id) implies contains_id(ss, id) by {
                assert(contains_id(ss.drop_first(), id));
                let w = choose|i: int| 0 <= i < ss.drop_first().len() && ss.drop_first()[i].id@
                    == id;
                assert(ss[w + 1].id@ == id);
            }
        } else {
            assert(whole =~= seq![ss[0]] + rest);
            assert forall|i: int, j: int| 0 <= i < j < whole.len() implies whole[i].id@ != whole[j].id@ by {
                if i == 0 {
                    assert(contains_id(rest, whole[j].id@)) by {
                        assert(rest[j - 1] == whole[j]);
                    }
                    assert(contains_id(ss.drop_first(), whole[j].id@));
                    let w = choose|k: int| 0 <= k < ss.drop_first().len() && ss.drop_first()[k].id@
                        == whole[j].id@;
                    assert(ss[w + 1].id@ == whole[j].id@);
                    assert(ss[0].id@ != ss[w + 1].id@);
                } else {
                    assert(whole[i] == rest[i - 1] && whole[j] == rest[j - 1]);
                }
            }
            assert forall|id: Seq<u8>| contains_id(whole, id) implies contains_id(ss, id) by {
                let w = choose|i: int| 0 <= i < whole.len() && whole[i].id@ == id;
                if w == 0 {
                    assert(ss[0].id@ == id);
                } else {
                    assert(rest[w - 1].id@ == id);
                    assert(contains_id(rest, id));
                    assert(contains_id(ss.drop_first(), id));
                    let v = choose|k: int| 0 <= k < ss.drop_first().len() && ss.drop_first()[k].id@
                        == id;
                    assert(ss[v + 1].id@ == id);
                }
            }
        }
    }
}

/// Sessions older than the allowed age are invisible: `lookup` does not
/// serve them, and a sweep at the same time removes them.
pub proof fn lemma_expired_invisible_and_collected(
    ss: Seq<SessionRecord>,
    id: Seq<u8>,
    now: u64,
    max_age_secs: u64,
)
    requires
        forall|i: int|
            0 <= i < ss.len() && ss[i].id@ == id ==> session_expired(
                ss[i].created,
                now,
                max_age_secs,
            ),
    ensures
        lookup_spec(ss, id, now, max_age_secs) is None,
        !contains_id(retained_sessions(ss, now, max_age_secs), id),
    decreases ss.len(),
{
    if ss.len() == 0 {
    } else {
        assert(forall|i: int|
            0 <= i < ss.drop_first().len() && ss.drop_first()[i].id@ == id ==> session_expired(
                ss.drop_first()[i].created,
                now,
                max_age_secs,
            ));
        lemma_expired_invisible_and_collected(ss.drop_first(), id, now, max_age_secs);
        let rest = retained_sessions(ss.drop_first(), now, max_age_secs);
        if session_expired(ss[0].created, now, max_age_secs) {
        } else {
            assert(ss[0].id@ != id);
            assert forall|i: int|
                0 <= i < (seq![ss[0]] + rest).len() implies (seq![ss[0]] + rest)[i].id@ != id by {
                if i > 0 {
                    assert((seq![ss[0]] + rest)[i] == rest[i - 1]);
                    assert(!contains_id(rest, id));
                }
            }
        }
    }
}

/// Round trip: a session just created under a fresh id is returned
/// unchanged by any lookup within the session duration.
pub proof fn lemma_session_round_trip(
    ss: Seq<SessionRecord>,
    rec: SessionRecord,
    later: u64,
    max_age_secs: u64,
)
    requires
        !contains_id(ss, rec.id@),
        session_live(rec.created, later, max_age_secs),
    ensures
        lookup_spec(ss.push(rec), rec.id@, later, max_age_secs) == Some(rec),
    decreases ss.len(),
{
    if ss.len() == 0 {
        assert(ss.push(rec)[0] == rec);
    } else {
        assert(ss[0].id@ != rec.id@);
        assert(ss.push(rec)[0] == ss[0]);
        assert(!contains_id(ss.drop_first(), rec.id@)) by {
            if contains_id(ss.drop_first(), rec.id@) {
                let w = choose|i: int| 0 <= i < ss.drop_first().len() && ss.drop_first()[i].id@
                    == rec.id@;
                assert(ss[w + 1].id@ == rec.id@);
            }
        }
        lemma_session_round_trip(ss.drop_first(), rec, later, max_age_secs);
        assert(ss.push(rec).drop_first() =~= ss.drop_first().push(rec));
    }
}

} // verus!
