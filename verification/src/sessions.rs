use crate::keygen::{
    generate_session_key, is_cookie_safe, is_first_unused, is_session_key,
    lemma_first_unused_session_key, unused_key,
};
use crate::record::SessionRecord;
use crate::session::Session;
use vstd::hash_map::StringHashMap;
use vstd::prelude::*;

verus! {

/// The name of the cookie that carries the session key.
pub const SESSION_COOKIE: &'static str = "_SESSION_ID";

/// The records of a map of sessions, each as the map of its fields.
pub open spec fn record_views(sessions: Map<Seq<char>, SessionRecord>) -> Map<
    Seq<char>,
    Map<Seq<char>, Seq<char>>,
> {
    sessions.map_values(|record: SessionRecord| record@)
}

/// The fields that `sessions` holds for `session_id`: none where it has no
/// such session.
pub open spec fn fields_of(
    sessions: Map<Seq<char>, Map<Seq<char>, Seq<char>>>,
    session_id: Seq<char>,
) -> Map<Seq<char>, Seq<char>> {
    if sessions.contains_key(session_id) {
        sessions[session_id]
    } else {
        Map::empty()
    }
}

/// Sessions by key, each a record that a request takes out whole and puts
/// back when it wants the next request to see it.
pub struct Sessions {
    sessions: StringHashMap<SessionRecord>,
}

impl View for Sessions {
    type V = Map<Seq<char>, Map<Seq<char>, Seq<char>>>;

    closed spec fn view(&self) -> Map<Seq<char>, Map<Seq<char>, Seq<char>>> {
        record_views(self.sessions@)
    }
}

impl Sessions {
    #[verifier::type_invariant]
    spec fn well_formed(self) -> bool {
        self.sessions@.dom().finite()
    }

    /// No sessions.
    pub fn new() -> (sessions: Sessions)
        ensures
            sessions@ == Map::<Seq<char>, Map<Seq<char>, Seq<char>>>::empty(),
    {
        Sessions { sessions: StringHashMap::new() }
    }

    /// Every session, for reading.
    pub fn all(&self) -> (all: &StringHashMap<SessionRecord>)
        ensures
            record_views(all@) == self@,
    {
        &self.sessions
    }

    /// Puts `value` under `session_id`, in place of the record that was
    /// there or as a new session.
    pub fn put(&mut self, session_id: String, value: SessionRecord)
        ensures
            final(self)@ == old(self)@.insert(session_id@, value@),
    {
        proof {
            use_type_invariant(&*self);
        }
        let mut sessions = StringHashMap::new();
        std::mem::swap(&mut sessions, &mut self.sessions);
        sessions.insert(session_id, value);
        self.sessions = sessions;
    }

    /// Sets field `key` of the session `session_id` to the serialized
    /// `value`. A session that does not exist yet begins with this field.
    pub fn store(&mut self, session_id: &str, key: &str, value: String)
        ensures
            final(self)@ == old(self)@.insert(
                session_id@,
                fields_of(old(self)@, session_id@).insert(key@, value@),
            ),
    {
        let mut record = match self.sessions.get(session_id) {
            Some(record) => record.clone(),
            None => SessionRecord::new(),
        };
        record.insert(key.to_owned(), value);
        self.put(session_id.to_owned(), record);
    }

    /// Puts the record of a handle back under the handle's key, so that the
    /// next request finds what this one was given.
    pub fn forward(&mut self, session: Session)
        ensures
            final(self)@ == old(self)@.insert(session.key(), session.fields()),
    {
        let (session_id, map) = session.into_parts();
        let record = match map {
            Some(record) => record,
            None => SessionRecord::new(),
        };
        self.put(session_id, record);
    }

    /// Takes the record of `session_id` out for one request and leaves an
    /// empty record in its place.
    pub fn get(&mut self, session_id: &str) -> (session: Session)
        ensures
            final(self)@ == old(self)@.insert(
                session_id@,
                Map::<Seq<char>, Seq<char>>::empty(),
            ),
            session.key() == session_id@,
            session.has_record() == old(self)@.contains_key(session_id@),
            session.fields() == fields_of(old(self)@, session_id@),
    {
        let map = match self.sessions.get(session_id) {
            Some(record) => Some(record.clone()),
            None => None,
        };
        self.put(session_id.to_owned(), SessionRecord::new());
        Session::new(session_id.to_owned(), map)
    }

    /// Stores `value` under the first key that can be made of `candidate` and
    /// that no session has, and returns that key. This is
    /// `store_new_session` without the minting of the candidate.
    pub fn store_under(&mut self, candidate: String, value: SessionRecord) -> (session_id: String)
        ensures
            is_first_unused(old(self)@.dom(), candidate@, session_id@),
            final(self)@ == old(self)@.insert(session_id@, value@),
    {
        proof {
            use_type_invariant(&*self);
        }
        let session_id = unused_key(&self.sessions, candidate);
        self.put(session_id.clone(), value);
        session_id
    }

    /// Stores `value` under a newly minted key, one that no session had, and
    /// returns the key.
    pub fn store_new_session(&mut self, value: SessionRecord) -> (session_id: String)
        ensures
            !old(self)@.contains_key(session_id@),
            final(self)@ == old(self)@.insert(session_id@, value@),
            is_session_key(session_id@),
            is_cookie_safe(session_id@),
    {
        let candidate = generate_session_key();
        let session_id = self.store_under(candidate, value);
        proof {
            lemma_first_unused_session_key(old(self)@.dom(), candidate@, session_id@);
        }
        session_id
    }

    /// Begins a session without fields and returns its key.
    pub fn new_session(&mut self) -> (session_id: String)
        ensures
            !old(self)@.contains_key(session_id@),
            final(self)@ == old(self)@.insert(
                session_id@,
                Map::<Seq<char>, Seq<char>>::empty(),
            ),
            is_session_key(session_id@),
            is_cookie_safe(session_id@),
    {
        self.store_new_session(SessionRecord::new())
    }

    /// Ends the session `session_id`. Where there is none, nothing happens.
    pub fn clean(&mut self, session_id: &str)
        ensures
            final(self)@ == old(self)@.remove(session_id@),
    {
        proof {
            use_type_invariant(&*self);
        }
        let mut sessions = StringHashMap::new();
        std::mem::swap(&mut sessions, &mut self.sessions);
        sessions.remove(session_id);
        self.sessions = sessions;
    }
}

} // verus!
