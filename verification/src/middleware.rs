use crate::keygen::{is_cookie_safe, is_session_key};
use crate::once_session::{flushed_fields, flushed_snapshot, OnceSession};
use crate::record::SessionRecord;
use crate::session::Session;
use crate::sessions::{fields_of, Sessions, SESSION_COOKIE};
use crate::store::{updated, SessionStore};
use crate::ttl::Ttl;
use vstd::prelude::*;

verus! {

/// The path on which the session cookie is valid.
pub const COOKIE_PATH: &'static str = "/";

/// The life of the session cookie in seconds: one day.
pub const COOKIE_MAX_AGE_SECONDS: i64 = 86400;

/// To which requests from other sites a cookie is attached.
#[derive(Clone, Copy, Debug, PartialEq, Eq, Structural)]
pub enum SameSite {
    Strict,
    Lax,
    Unrestricted,
}

/// The cookie that hands a session key to the client, as plain values.
pub struct SessionCookie {
    pub name: String,
    pub value: String,
    pub path: String,
    pub secure: bool,
    pub http_only: bool,
    pub same_site: SameSite,
    pub max_age: Ttl,
}

/// The session that a request's cookie names, with a copy of its record.
/// There is none for a request without cookie, nor for a cookie that names no
/// session of the store. The store is only read.
pub fn resume_session<S: SessionStore>(store: &S, cookie: Option<&str>) -> (session: Option<
    Session,
>)
    ensures
        match session {
            Some(resumed) => {
                &&& cookie is Some
                &&& store.sessions().contains_key(cookie->0@)
                &&& resumed.key() == cookie->0@
                &&& resumed.has_record()
                &&& resumed.fields() == store.sessions()[cookie->0@].record
            },
            None => cookie matches Some(value) ==> !store.sessions().contains_key(value@),
        },
{
    match cookie {
        Some(value) => match store.load(value) {
            Some(record) => Some(Session::new(value.to_owned(), Some(record))),
            None => None,
        },
        None => None,
    }
}

/// Begins a new and empty session under a newly minted key.
pub fn begin_session<S: SessionStore>(store: &mut S, ttl: Ttl) -> (session: Session)
    ensures
        !old(store).sessions().contains_key(session.key()),
        final(store).sessions() == updated(
            old(store).sessions(),
            session.key(),
            Map::empty(),
            ttl,
        ),
        session.has_record(),
        session.fields() == Map::<Seq<char>, Seq<char>>::empty(),
{
    let key = store.save(SessionRecord::new(), ttl);
    Session::new(key, Some(SessionRecord::new()))
}

/// Opens the session of a request on a store of any kind.
///
/// A cookie that names a session of the store opens that session, with a
/// copy of its record, and the store stays as it is. A request without
/// cookie, or with a cookie that names no session of the store, begins a new
/// and empty session under a newly minted key.
pub fn open_session<S: SessionStore>(store: &mut S, cookie: Option<&str>, ttl: Ttl) -> (session:
    Session)
    ensures
        session.has_record(),
        match cookie {
            Some(value) if old(store).sessions().contains_key(value@) => {
                &&& final(store).sessions() == old(store).sessions()
                &&& session.key() == value@
                &&& session.fields() == old(store).sessions()[value@].record
            },
            _ => {
                &&& !old(store).sessions().contains_key(session.key())
                &&& final(store).sessions() == updated(
                    old(store).sessions(),
                    session.key(),
                    Map::empty(),
                    ttl,
                )
                &&& session.fields() == Map::<Seq<char>, Seq<char>>::empty()
            },
        },
{
    match resume_session(&*store, cookie) {
        Some(session) => session,
        None => begin_session(store, ttl),
    }
}

/// Writes the record of a request's session back to the store, under the
/// session's key and with `ttl`, and returns the key for the cookie. A
/// session without record is written as one without fields.
pub fn write_back<S: SessionStore>(store: &mut S, session: Session, ttl: Ttl) -> (key: String)
    ensures
        key@ == session.key(),
        final(store).sessions() == updated(
            old(store).sessions(),
            session.key(),
            session.fields(),
            ttl,
        ),
{
    let (key, map) = session.into_parts();
    let record = match map {
        Some(record) => record,
        None => SessionRecord::new(),
    };
    store.update(key, record, ttl)
}

/// The step before the handlers that gives every request a session.
pub struct CheckSession;

/// `CheckSession` at work on the requests of one worker.
pub struct CheckSessionMiddleware;

impl CheckSession {
    /// The middleware that this factory stands for.
    pub fn new_transform(&self) -> CheckSessionMiddleware {
        CheckSessionMiddleware
    }
}

impl CheckSessionMiddleware {
    /// The request side. The session is the one that the cookie names, or a
    /// newly begun one where the request came without the cookie. Its record
    /// is taken out of `sessions` for the handlers, and an empty record is
    /// left in its place.
    pub fn call(&self, sessions: &mut Sessions, cookie: Option<&str>) -> (session: Session)
        ensures
            final(sessions)@ == old(sessions)@.insert(
                session.key(),
                Map::<Seq<char>, Seq<char>>::empty(),
            ),
            match cookie {
                Some(value) => {
                    &&& session.key() == value@
                    &&& session.has_record() == old(sessions)@.contains_key(value@)
                    &&& session.fields() == fields_of(old(sessions)@, value@)
                },
                None => {
                    &&& !old(sessions)@.contains_key(session.key())
                    &&& is_session_key(session.key())
                    &&& is_cookie_safe(session.key())
                    &&& session.has_record()
                    &&& session.fields() == Map::<Seq<char>, Seq<char>>::empty()
                },
            },
    {
        match cookie {
            Some(value) => sessions.get(value),
            None => {
                let session_id = sessions.new_session();
                let session = sessions.get(session_id.as_str());
                proof {
                    let begun = old(sessions)@.insert(
                        session_id@,
                        Map::<Seq<char>, Seq<char>>::empty(),
                    );
                    assert(begun.insert(session_id@, Map::<Seq<char>, Seq<char>>::empty())
                        =~= begun);
                }
                session
            },
        }
    }

    /// The response side: the cookie that tells the client its session key.
    /// It is sent for the whole site, to this site's own requests only, out
    /// of reach of scripts, and lasts a day.
    pub fn respond(&self, session_id: &str) -> (cookie: SessionCookie)
        ensures
            cookie.name@ == SESSION_COOKIE@,
            cookie.value@ == session_id@,
            cookie.path@ == COOKIE_PATH@,
            !cookie.secure,
            cookie.http_only,
            cookie.same_site == SameSite::Strict,
            cookie.max_age == (Ttl { seconds: COOKIE_MAX_AGE_SECONDS, nanoseconds: 0 }),
    {
        SessionCookie {
            name: SESSION_COOKIE.to_owned(),
            value: session_id.to_owned(),
            path: COOKIE_PATH.to_owned(),
            secure: false,
            http_only: true,
            same_site: SameSite::Strict,
            max_age: Ttl::from_seconds(COOKIE_MAX_AGE_SECONDS),
        }
    }
}

/// The step before the handlers that flushes the one-shot values of the
/// session into a snapshot for the request.
pub struct FlushOnceSessions;

/// `FlushOnceSessions` at work on the requests of one worker.
pub struct FlushOnceSessionsMiddleware;

impl FlushOnceSessions {
    /// The middleware that this factory stands for.
    pub fn new_transform(&self) -> FlushOnceSessionsMiddleware {
        FlushOnceSessionsMiddleware
    }
}

impl FlushOnceSessionsMiddleware {
    /// Flushes `session` and hands out the snapshot that the handlers of
    /// this request may read.
    pub fn call(&self, session: &mut Session) -> (once_session: OnceSession)
        ensures
            final(session).key() == old(session).key(),
            final(session).has_record() == old(session).has_record(),
            final(session).fields() == flushed_fields(old(session).fields()),
            once_session@ == flushed_snapshot(old(session).fields()),
    {
        session.flush_flash()
    }
}

} // verus!
