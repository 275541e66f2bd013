//! The table of open sessions: for each session its project and how many
//! participants it has.
//!
//! The table is a `dashmap::DashMap` from the identifier of a session to
//! its project and its count. What it holds is named `entries`; the table
//! is changed through `&mut` only, so that one holder at a time sees it
//! before and after a change.

use vstd::prelude::*;
use dashmap::DashMap;
use std::collections::hash_map::RandomState;

verus! {

/// `dashmap::DashMap`. What a map holds is known through `entries` alone.
#[verifier::external_type_specification]
#[verifier::external_body]
#[verifier::reject_recursive_types(K)]
#[verifier::reject_recursive_types(V)]
#[verifier::reject_recursive_types(S)]
pub struct ExDashMap<K, V, S>(DashMap<K, V, S>);

/// One session as the table holds it: its project and its count.
pub type Session = (String, usize);

/// The map that the table is kept in.
pub type SessionMap = DashMap<String, Session, RandomState>;

/// What a map of sessions holds: for each key its project and its count.
pub uninterp spec fn entries(map: SessionMap) -> Map<Seq<char>, (Seq<char>, usize)>;

/// The table without sessions.
pub open spec fn no_sessions() -> Map<Seq<char>, (Seq<char>, usize)> {
    Map::empty()
}

/// Calls `DashMap::new`.
///
/// Trusted: a new map holds nothing.
#[verifier::external_body]
fn map_new() -> (fresh: SessionMap)
    ensures
        entries(fresh) == no_sessions(),
{
    DashMap::new()
}

/// Calls `DashMap::insert`.
///
/// Trusted: afterwards the map holds the value under the key, in place of
/// what it held there before, and everything else as before.
#[verifier::external_body]
fn map_insert(
    map: &mut SessionMap,
    key: String,
    project: String,
    participants: usize,
)
    ensures
        entries(*final(map)) == entries(*old(map)).insert(key@, (project@, participants)),
{
    map.insert(key, (project, participants));
}

/// Calls `DashMap::get` and copies the value out.
///
/// Trusted: the result is what the map holds under the key, and `None`
/// where it holds nothing there.
#[verifier::external_body]
fn map_get(map: &SessionMap, key: &str) -> (r: Option<Session>)
    ensures
        match r {
            Some((project, participants)) => entries(*map).contains_key(key@) && entries(*map)[key@]
                == (project@, participants),
            None => !entries(*map).contains_key(key@),
        },
{
    map.get(key).map(|e| (e.value().0.clone(), e.value().1))
}

/// Calls `DashMap::len`.
///
/// Trusted: the result is the number of keys that the map holds. The claim
/// is made of a map with finitely many keys, which is every map that was
/// made by `map_new` and filled by `map_insert`.
#[verifier::external_body]
fn map_len(map: &SessionMap) -> (n: usize)
    ensures
        entries(*map).dom().finite() ==> n == entries(*map).len(),
{
    map.len()
}

/// The number of participants after one more joined. The count wraps
/// around at the largest value.
pub fn joined(participants: usize) -> (n: usize)
    ensures
        n == wrap_up(participants),
{
    if participants == usize::MAX {
        0
    } else {
        participants + 1
    }
}

/// The number of participants after one left. The count wraps around at
/// zero.
pub fn left(participants: usize) -> (n: usize)
    ensures
        n == wrap_down(participants),
{
    if participants == 0 {
        usize::MAX
    } else {
        participants - 1
    }
}

/// Joining and then leaving, or leaving and then joining, gives the count
/// back.
pub proof fn lemma_join_leave(participants: usize)
    ensures
        wrap_down(wrap_up(participants)) == participants,
        wrap_up(wrap_down(participants)) == participants,
{
}

/// One more than `n`, wrapping around at the largest value.
pub open spec fn wrap_up(n: usize) -> usize {
    if n == usize::MAX {
        0
    } else {
        (n + 1) as usize
    }
}

/// One less than `n`, wrapping around at zero.
pub open spec fn wrap_down(n: usize) -> usize {
    if n == 0 {
        usize::MAX
    } else {
        (n - 1) as usize
    }
}

/// The table of open sessions.
pub struct SessionTable {
    map: SessionMap,
}

impl View for SessionTable {
    type V = Map<Seq<char>, (Seq<char>, usize)>;

    closed spec fn view(&self) -> Map<Seq<char>, (Seq<char>, usize)> {
        entries(self.map)
    }
}

impl SessionTable {
    /// Whether the table holds finitely many sessions. Every table that
    /// was made by `new` does, whatever was done to it since.
    pub open spec fn wf(&self) -> bool {
        self@.dom().finite()
    }

    /// A table without sessions.
    pub fn new() -> (table: SessionTable)
        ensures
            table@ == no_sessions(),
            table.wf(),
    {
        SessionTable { map: map_new() }
    }

    /// Opens the session `session_id` for `project_id`, with no
    /// participants. A session that was open under the same identifier is
    /// replaced.
    pub fn open(&mut self, session_id: String, project_id: String)
        ensures
            final(self)@ == old(self)@.insert(session_id@, (project_id@, 0usize)),
            old(self).wf() ==> final(self).wf(),
    {
        map_insert(&mut self.map, session_id, project_id, 0);
    }

    /// The project and the number of participants of the session
    /// `session_id`, where it is open.
    pub fn info(&self, session_id: &str) -> (r: Option<Session>)
        ensures
            match r {
                Some((project, participants)) => self@.contains_key(session_id@) && self@[session_id@]
                    == (project@, participants),
                None => !self@.contains_key(session_id@),
            },
    {
        map_get(&self.map, session_id)
    }

    /// Counts one more participant in the session `session_id`. Says
    /// whether the session is open; a table without it is left as it is.
    pub fn join(&mut self, session_id: &str) -> (open: bool)
        ensures
            open == old(self)@.contains_key(session_id@),
            final(self)@ == if open {
                old(self)@.insert(
                    session_id@,
                    (old(self)@[session_id@].0, wrap_up(old(self)@[session_id@].1)),
                )
            } else {
                old(self)@
            },
            old(self).wf() ==> final(self).wf(),
    {
        match map_get(&self.map, session_id) {
            Some((project, participants)) => {
                map_insert(&mut self.map, String::from_str(session_id), project, joined(participants));
                true
            },
            None => false,
        }
    }

    /// Counts one participant less in the session `session_id`. Says
    /// whether the session is open; a table without it is left as it is.
    pub fn leave(&mut self, session_id: &str) -> (open: bool)
        ensures
            open == old(self)@.contains_key(session_id@),
            final(self)@ == if open {
                old(self)@.insert(
                    session_id@,
                    (old(self)@[session_id@].0, wrap_down(old(self)@[session_id@].1)),
                )
            } else {
                old(self)@
            },
            old(self).wf() ==> final(self).wf(),
    {
        match map_get(&self.map, session_id) {
            Some((project, participants)) => {
                map_insert(&mut self.map, String::from_str(session_id), project, left(participants));
                true
            },
            None => false,
        }
    }

    /// The number of open sessions.
    pub fn len(&self) -> (n: usize)
        ensures
            self.wf() ==> n == self@.len(),
    {
        map_len(&self.map)
    }
}

} // verus!
