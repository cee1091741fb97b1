use crate::keygen::{
    generate_session_key, is_cookie_safe, is_first_unused, is_session_key,
    lemma_first_unused_session_key, unused_key,
};
use crate::record::SessionRecord;
use crate::ttl::Ttl;
use vstd::hash_map::StringHashMap;
use vstd::prelude::*;

verus! {

/// What the store keeps under one session key.
struct StoredSession {
    session: SessionRecord,
    ttl: Ttl,
}

/// A stored session as contracts see it: the record as a map, and the
/// time-to-live.
pub ghost struct SessionView {
    pub record: Map<Seq<char>, Seq<char>>,
    pub ttl: Ttl,
}

impl View for StoredSession {
    type V = SessionView;

    closed spec fn view(&self) -> SessionView {
        SessionView { record: self.session@, ttl: self.ttl }
    }
}

/// The record that `store` holds under `key`.
pub open spec fn loaded(store: Map<Seq<char>, SessionView>, key: Seq<char>) -> Option<
    Map<Seq<char>, Seq<char>>,
> {
    if store.contains_key(key) {
        Some(store[key].record)
    } else {
        None
    }
}

/// `store` after `record` and `ttl` were put under `key`, whether or not the
/// key was there before.
pub open spec fn updated(
    store: Map<Seq<char>, SessionView>,
    key: Seq<char>,
    record: Map<Seq<char>, Seq<char>>,
    ttl: Ttl,
) -> Map<Seq<char>, SessionView> {
    store.insert(key, SessionView { record, ttl })
}

/// `store` after the session under `key` got a new time-to-live; `None` where
/// there is no such session.
pub open spec fn ttl_updated(
    store: Map<Seq<char>, SessionView>,
    key: Seq<char>,
    ttl: Ttl,
) -> Option<Map<Seq<char>, SessionView>> {
    if store.contains_key(key) {
        Some(store.insert(key, SessionView { record: store[key].record, ttl }))
    } else {
        None
    }
}

/// `store` without the session under `key`.
pub open spec fn deleted(store: Map<Seq<char>, SessionView>, key: Seq<char>) -> Map<
    Seq<char>,
    SessionView,
> {
    store.remove(key)
}

/// The error of `update_ttl`: the store has no session under the key.
#[derive(Clone, Copy, Debug, PartialEq, Eq, Structural)]
pub struct NotFound;

impl NotFound {
    /// The error in words.
    pub fn message(&self) -> (text: String)
        ensures
            text@ == "Session does not exist."@,
    {
        "Session does not exist.".to_owned()
    }
}

/// What a session store does, whatever it keeps its sessions in.
///
/// A store binds session keys to records, each with a time-to-live. It keeps
/// the time-to-live and lets it be changed; making sessions expire is left to
/// others.
pub trait SessionStore {
    /// The sessions of the store, as contracts see them.
    spec fn sessions(&self) -> Map<Seq<char>, SessionView>;

    /// A copy of the record stored under `key`. A key without a session is no
    /// error: it has no record.
    fn load(&self, key: &str) -> (record: Option<SessionRecord>)
        ensures
            match record {
                Some(found) => loaded(self.sessions(), key@) == Some(found@),
                None => loaded(self.sessions(), key@) is None,
            },
    ;

    /// Stores `record` and `ttl` under a newly minted key and returns the key.
    /// The key is one that no session of the store had.
    fn save(&mut self, record: SessionRecord, ttl: Ttl) -> (key: String)
        ensures
            !old(self).sessions().contains_key(key@),
            final(self).sessions() == updated(old(self).sessions(), key@, record@, ttl),
    ;

    /// Puts `record` and `ttl` under `key`, in place of what the key had or as
    /// a new session where it had none, and returns the key as it came.
    fn update(&mut self, key: String, record: SessionRecord, ttl: Ttl) -> (same: String)
        ensures
            same@ == key@,
            final(self).sessions() == updated(old(self).sessions(), key@, record@, ttl),
    ;

    /// Replaces the time-to-live of the session under `key` and leaves its
    /// record as it is. Fails, and changes nothing, where the store has no
    /// such session.
    fn update_ttl(&mut self, key: &str, ttl: Ttl) -> (done: Result<(), NotFound>)
        ensures
            match done {
                Ok(_) => ttl_updated(old(self).sessions(), key@, ttl) == Some(
                    final(self).sessions(),
                ),
                Err(_) => {
                    &&& ttl_updated(old(self).sessions(), key@, ttl) is None
                    &&& final(self).sessions() == old(self).sessions()
                },
            },
    ;

    /// Removes the session under `key`. Where there is none, nothing happens.
    fn delete(&mut self, key: &str)
        ensures
            final(self).sessions() == deleted(old(self).sessions(), key@),
    ;
}

/// An in-memory session store: session keys bound to records, each with a
/// time-to-live that the store keeps but never enforces.
pub struct StatefulSessions {
    sessions: StringHashMap<StoredSession>,
}

impl View for StatefulSessions {
    type V = Map<Seq<char>, SessionView>;

    closed spec fn view(&self) -> Map<Seq<char>, SessionView> {
        self.sessions@.map_values(|stored: StoredSession| stored@)
    }
}

impl StatefulSessions {
    #[verifier::type_invariant]
    spec fn well_formed(self) -> bool {
        self.sessions@.dom().finite()
    }

    /// A store without sessions.
    pub fn new() -> (store: StatefulSessions)
        ensures
            store@ == Map::<Seq<char>, SessionView>::empty(),
    {
        StatefulSessions { sessions: StringHashMap::new() }
    }

    /// Binds `key` to `stored`.
    fn put(&mut self, key: String, stored: StoredSession)
        ensures
            final(self)@ == old(self)@.insert(key@, stored@),
    {
        proof {
            use_type_invariant(&*self);
        }
        let mut sessions = StringHashMap::new();
        std::mem::swap(&mut sessions, &mut self.sessions);
        sessions.insert(key, stored);
        self.sessions = sessions;
    }

    /// Stores `record` and `ttl` under the first key that can be made of
    /// `candidate` and that no session of the store has, and returns that
    /// key. This is `save` without the minting of the candidate.
    pub fn save_under(&mut self, candidate: String, record: SessionRecord, ttl: Ttl) -> (key:
        String)
        ensures
            is_first_unused(old(self)@.dom(), candidate@, key@),
            final(self)@ == updated(old(self)@, key@, record@, ttl),
    {
        proof {
            use_type_invariant(&*self);
        }
        let key = unused_key(&self.sessions, candidate);
        self.put(key.clone(), StoredSession { session: record, ttl });
        key
    }

    /// Whether the store has a session under `key`.
    pub fn contains(&self, key: &str) -> (present: bool)
        ensures
            present == self@.contains_key(key@),
    {
        self.sessions.contains_key(key)
    }

    /// The time-to-live recorded for the session under `key`.
    pub fn ttl(&self, key: &str) -> (ttl: Option<Ttl>)
        ensures
            match ttl {
                Some(t) => self@.contains_key(key@) && self@[key@].ttl == t,
                None => !self@.contains_key(key@),
            },
    {
        match self.sessions.get(key) {
            Some(stored) => Some(stored.ttl),
            None => None,
        }
    }

    /// How many sessions the store holds.
    pub fn len(&self) -> (count: usize)
        ensures
            count == self@.len(),
    {
        assert(self@.dom() =~= self.sessions@.dom());
        self.sessions.len()
    }

    /// Drops every session. This is how a store is brought back into use
    /// after a writer failed half-way and its contents can no longer be
    /// relied on.
    pub fn reset(&mut self)
        ensures
            final(self)@ == Map::<Seq<char>, SessionView>::empty(),
    {
        self.sessions = StringHashMap::new();
    }
}

/// The store as a `SessionStore`. Each operation has the contract that the
/// trait gives it; `save` says more about the key.
impl SessionStore for StatefulSessions {
    open spec fn sessions(&self) -> Map<Seq<char>, SessionView> {
        self@
    }

    fn load(&self, key: &str) -> (record: Option<SessionRecord>) {
        match self.sessions.get(key) {
            Some(stored) => Some(stored.session.clone()),
            None => None,
        }
    }

    /// The key is the text of a random UUID, with as many `0` behind it as
    /// it takes to leave the keys in use.
    fn save(&mut self, record: SessionRecord, ttl: Ttl) -> (key: String)
        ensures
            is_session_key(key@),
            is_cookie_safe(key@),
    {
        let candidate = generate_session_key();
        let key = self.save_under(candidate, record, ttl);
        proof {
            lemma_first_unused_session_key(old(self)@.dom(), candidate@, key@);
        }
        key
    }

    fn update(&mut self, key: String, record: SessionRecord, ttl: Ttl) -> (same: String) {
        self.put(key.clone(), StoredSession { session: record, ttl });
        key
    }

    fn update_ttl(&mut self, key: &str, ttl: Ttl) -> (done: Result<(), NotFound>) {
        let session = match self.sessions.get(key) {
            Some(stored) => stored.session.clone(),
            None => {
                return Err(NotFound);
            },
        };
        self.put(key.to_owned(), StoredSession { session, ttl });
        Ok(())
    }

    fn delete(&mut self, key: &str) {
        proof {
            use_type_invariant(&*self);
        }
        let mut sessions = StringHashMap::new();
        std::mem::swap(&mut sessions, &mut self.sessions);
        sessions.remove(key);
        self.sessions = sessions;
    }
}

} // verus!
