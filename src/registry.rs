//! The registry of active recordings: the one authority on which recording
//! ids are active. An id is present from a successful `insert` until `remove`
//! takes it out, and at most one session per id is ever present.

use vstd::prelude::*;
use crate::device::{bound_devices_lost, devices_lost, name_listed, DeviceChoice};
use crate::error::AudioError;

verus! {

/// One active recording. `handle` is whatever the caller keeps with it (stop
/// flag, thread handles, encoder).
pub struct SessionRecord<H> {
    pub id: String,
    pub owner_id: Option<String>,
    pub output_path: String,
    pub devices: DeviceChoice,
    pub handle: H,
}

/// Whether a session with this id is among `s`.
pub open spec fn has_id<H>(s: Seq<SessionRecord<H>>, id: Seq<char>) -> bool {
    exists|i: int| 0 <= i < s.len() && (#[trigger] s[i]).id@ == id
}

/// No two sessions of `s` share an id.
pub open spec fn unique_ids<H>(s: Seq<SessionRecord<H>>) -> bool {
    forall|i: int, j: int| 0 <= i < s.len() && 0 <= j < s.len() && i != j ==> (#[trigger] s[i]).id@ != (#[trigger] s[j]).id@
}

/// Ids of the sessions of `s`, in order, whose bound devices are not all among
/// `present`.
pub open spec fn lost_ids<H>(s: Seq<SessionRecord<H>>, present: Seq<String>) -> Seq<Seq<char>>
    decreases s.len(),
{
    if s.len() == 0 {
        Seq::empty()
    } else {
        let prev = lost_ids(s.drop_last(), present);
        if devices_lost(present, s.last().devices.microphone@, s.last().devices.loopback) {
            prev.push(s.last().id@)
        } else {
            prev
        }
    }
}

/// The active recordings, in the order they started.
pub struct SessionRegistry<H> {
    sessions: Vec<SessionRecord<H>>,
}

impl<H> View for SessionRegistry<H> {
    type V = Seq<SessionRecord<H>>;

    closed spec fn view(&self) -> Seq<SessionRecord<H>> {
        self.sessions@
    }
}

impl<H> SessionRegistry<H> {
    /// Ids are unique.
    pub open spec fn wf(&self) -> bool {
        unique_ids(self@)
    }

    /// An empty registry.
    pub fn new() -> (r: SessionRegistry<H>)
        ensures
            r@.len() == 0,
            r.wf(),
    {
        SessionRegistry { sessions: Vec::new() }
    }

    /// Number of active recordings.
    pub fn len(&self) -> (r: usize)
        ensures
            r == self@.len(),
    {
        self.sessions.len()
    }

    /// Position of the session with this id.
    fn position(&self, id: &String) -> (r: Option<usize>)
        ensures
            match r {
                Some(i) => i < self@.len() && self@[i as int].id@ == id@,
                None => !has_id(self@, id@),
            },
    {
        let mut i: usize = 0;
        while i < self.sessions.len()
            invariant
                i <= self@.len(),
                forall|j: int| 0 <= j < i ==> (#[trigger] self@[j]).id@ != id@,
            decreases self@.len() - i,
        {
            if self.sessions[i].id == *id {
                return Some(i);
            }
            i = i + 1;
        }
        None
    }

    /// Whether a recording with this id is active.
    pub fn contains(&self, id: &String) -> (r: bool)
        ensures
            r == has_id(self@, id@),
    {
        self.position(id).is_some()
    }

    /// The session with this id, if it is active.
    pub fn get(&self, id: &String) -> (r: Option<&SessionRecord<H>>)
        ensures
            !has_id(self@, id@) ==> r is None,
            has_id(self@, id@) ==> (r matches Some(s) && s.id@ == id@ && exists|i: int|
                0 <= i < self@.len() && self@[i] == *s),
    {
        match self.position(id) {
            Some(i) => Some(&self.sessions[i]),
            None => None,
        }
    }

    /// Registers a session. Fails with `DuplicateRecordingId`, leaving the
    /// registry as it was, when its id is already active.
    pub fn insert(&mut self, session: SessionRecord<H>) -> (r: Result<(), AudioError>)
        requires
            old(self).wf(),
        ensures
            final(self).wf(),
            has_id(old(self)@, session.id@) ==> r == Err::<(), AudioError>(AudioError::DuplicateRecordingId)
                && final(self)@ == old(self)@,
            !has_id(old(self)@, session.id@) ==> r is Ok && final(self)@ == old(self)@.push(session),
    {
        if self.contains(&session.id) {
            return Err(AudioError::DuplicateRecordingId);
        }
        let ghost prev = self@;
        self.sessions.push(session);
        proof {
            assert forall|i: int, j: int|
                0 <= i < self@.len() && 0 <= j < self@.len() && i != j implies (#[trigger] self@[i]).id@
                != (#[trigger] self@[j]).id@ by {
                if i < prev.len() && j < prev.len() {
                    assert(self@[i] == prev[i] && self@[j] == prev[j]);
                } else if i == prev.len() {
                    assert(self@[j] == prev[j]);
                } else {
                    assert(self@[i] == prev[i]);
                }
            }
        }
        Ok(())
    }

    /// Takes the session with this id out of the registry and hands it over.
    /// Fails with `RecordingNotFound`, leaving the registry as it was, when no
    /// recording with this id is active. Afterwards the id is no longer active.
    pub fn remove(&mut self, id: &String) -> (r: Result<SessionRecord<H>, AudioError>)
        requires
            old(self).wf(),
        ensures
            final(self).wf(),
            !has_id(final(self)@, id@),
            !has_id(old(self)@, id@) ==> r == Err::<SessionRecord<H>, AudioError>(AudioError::RecordingNotFound)
                && final(self)@ == old(self)@,
            has_id(old(self)@, id@) ==> exists|i: int|
                0 <= i < old(self)@.len() && (#[trigger] old(self)@[i]).id@ == id@ && r == Ok::<
                    SessionRecord<H>,
                    AudioError,
                >(old(self)@[i]) && final(self)@ == old(self)@.remove(i),
    {
        match self.position(id) {
            None => Err(AudioError::RecordingNotFound),
            Some(i) => {
                let ghost prev = self@;
                let s = self.sessions.remove(i);
                proof {
                    lemma_removed_id_gone(prev, id@, i as int);
                    lemma_remove_keeps_unique(prev, i as int);
                    assert(prev[i as int].id@ == id@);
                }
                Ok(s)
            },
        }
    }

    /// Ids of the active recordings whose microphone, or loopback input if
    /// one was bound, is not among the names of the devices present now; the
    /// watchdog sets their stop flags.
    pub fn lost_sessions(&self, present: &Vec<String>) -> (r: Vec<String>)
        ensures
            r@.map_values(|s: String| s@) == lost_ids(self@, present@),
    {
        let mut out: Vec<String> = Vec::new();
        let mut i: usize = 0;
        while i < self.sessions.len()
            invariant
                i <= self@.len(),
                out@.map_values(|s: String| s@) == lost_ids(self@.subrange(0, i as int), present@),
            decreases self@.len() - i,
        {
            let ghost before = out@;
            let lost = bound_devices_lost(present, &self.sessions[i].devices);
            proof {
                assert(self@.subrange(0, i + 1).drop_last() =~= self@.subrange(0, i as int));
                assert(self@.subrange(0, i + 1).last() == self@[i as int]);
            }
            if lost {
                out.push(self.sessions[i].id.clone());
                assert(out@.map_values(|s: String| s@) =~= before.map_values(|s: String| s@).push(
                    self@[i as int].id@,
                ));
            }
            i = i + 1;
        }
        assert(self@.subrange(0, self@.len() as int) =~= self@);
        out
    }
}

/// Removing the session at `i` leaves the other ids unique.
proof fn lemma_remove_keeps_unique<H>(s: Seq<SessionRecord<H>>, i: int)
    requires
        unique_ids(s),
        0 <= i < s.len(),
    ensures
        unique_ids(s.remove(i)),
{
    let t = s.remove(i);
    assert forall|a: int, b: int| 0 <= a < t.len() && 0 <= b < t.len() && a != b implies (#[trigger] t[a]).id@
        != (#[trigger] t[b]).id@ by {
        let a2 = if a < i { a } else { a + 1 };
        let b2 = if b < i { b } else { b + 1 };
        assert(t[a] == s[a2] && t[b] == s[b2]);
    }
}

/// Once a stop has taken a recording out of the registry, its id is no longer
/// active, so a second stop of the same id fails with `RecordingNotFound` and
/// the session (with its encoder) is handed out only once.
pub proof fn lemma_removed_id_gone<H>(s: Seq<SessionRecord<H>>, id: Seq<char>, i: int)
    requires
        unique_ids(s),
        0 <= i < s.len(),
        s[i].id@ == id,
    ensures
        !has_id(s.remove(i), id),
{
    let t = s.remove(i);
    if has_id(t, id) {
        let a = choose|a: int| 0 <= a < t.len() && (#[trigger] t[a]).id@ == id;
        let a2 = if a < i { a } else { a + 1 };
        assert(t[a] == s[a2]);
    }
}

/// Every session whose bound devices are not all present is among the lost
/// ids.
pub proof fn lemma_lost_ids_complete<H>(s: Seq<SessionRecord<H>>, present: Seq<String>, i: int)
    requires
        0 <= i < s.len(),
        devices_lost(present, s[i].devices.microphone@, s[i].devices.loopback),
    ensures
        lost_ids(s, present).contains(s[i].id@),
    decreases s.len(),
{
    let prev = lost_ids(s.drop_last(), present);
    if i == s.len() - 1 {
        assert(lost_ids(s, present) == prev.push(s[i].id@));
        assert(lost_ids(s, present)[prev.len() as int] == s[i].id@);
    } else {
        lemma_lost_ids_complete(s.drop_last(), present, i);
        let k = choose|k: int| 0 <= k < prev.len() && prev[k] == s[i].id@;
        if devices_lost(present, s.last().devices.microphone@, s.last().devices.loopback) {
            assert(lost_ids(s, present)[k] == s[i].id@);
        }
    }
}

/// Device loss: when the microphone a recording is bound to is absent from
/// the devices present now, the watchdog's check names that recording, so its
/// stop flag is set in the same cycle.
pub proof fn lemma_lost_microphone_flagged<H>(s: Seq<SessionRecord<H>>, present: Seq<String>, i: int)
    requires
        0 <= i < s.len(),
        !name_listed(present, s[i].devices.microphone@),
    ensures
        lost_ids(s, present).contains(s[i].id@),
{
    lemma_lost_ids_complete(s, present, i);
}

} // verus!
