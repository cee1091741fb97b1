use crate::codec::{decode_text, encode_text, text_encoding, SerializationError};
use crate::session::{slot, typed, Session};
use vstd::prelude::*;

verus! {

/// The field that carries the one-shot message.
pub const FLASH_KEY: &'static str = "flash";

/// The field that carries the one-shot errors.
pub const ERRORS_KEY: &'static str = "errors";

/// The field that carries the address of the request before this one.
pub const PREV_REQ_KEY: &'static str = "_prev_req_url";

/// The field that carries the address of this request.
pub const CURR_REQ_KEY: &'static str = "_curr_req_url";

/// The address that stands in where none was recorded.
pub const ROOT_URL: &'static str = "/";

/// What one flush took out of a session: the two one-shot values, still
/// serialized, and the address of the previous request. It belongs to the
/// request that flushed, no longer to the session.
pub struct OnceSession {
    pub flash: Option<String>,
    pub errors: Option<String>,
    pub prev_req: String,
}

/// A flushed snapshot as contracts see it.
pub ghost struct OnceSessionView {
    pub flash: Option<Seq<char>>,
    pub errors: Option<Seq<char>>,
    pub prev_req: Seq<char>,
}

impl View for OnceSession {
    type V = OnceSessionView;

    open spec fn view(&self) -> OnceSessionView {
        OnceSessionView {
            flash: self.flash.deep_view(),
            errors: self.errors.deep_view(),
            prev_req: self.prev_req@,
        }
    }
}

impl Default for OnceSession {
    /// The snapshot of a request that nothing was flushed for.
    fn default() -> (once: OnceSession)
        ensures
            once@ == (OnceSessionView { flash: None, errors: None, prev_req: Seq::empty() }),
    {
        OnceSession { flash: None, errors: None, prev_req: String::new() }
    }
}

impl Clone for OnceSession {
    fn clone(&self) -> (copy: OnceSession)
        ensures
            copy@ == self@,
    {
        let flash = match &self.flash {
            Some(raw) => Some(raw.clone()),
            None => None,
        };
        let errors = match &self.errors {
            Some(raw) => Some(raw.clone()),
            None => None,
        };
        OnceSession { flash, errors, prev_req: self.prev_req.clone() }
    }
}

/// A flushed snapshot with its two values read as typed values.
pub struct OnceSessionMapped<F, E> {
    pub flash: Option<F>,
    pub errors: Option<E>,
}

/// The value that a parse produced, where there was something to parse and
/// the parse succeeded.
pub open spec fn parsed_value<T, X>(parsed: Option<Result<T, X>>) -> Option<T> {
    match parsed {
        Some(Ok(value)) => Some(value),
        _ => None,
    }
}

/// The two parses of a snapshot's values put together: the error of the
/// message where its parse failed, else the error of the errors where their
/// parse failed, else the parsed values, each where there was one.
pub open spec fn combined<F, E, X>(
    flash: Option<Result<F, X>>,
    errors: Option<Result<E, X>>,
) -> Result<OnceSessionMapped<F, E>, X> {
    match flash {
        Some(Err(x)) => Err(x),
        _ => match errors {
            Some(Err(x)) => Err(x),
            _ => Ok(OnceSessionMapped { flash: parsed_value(flash), errors: parsed_value(errors) }),
        },
    }
}

impl<F, E> OnceSessionMapped<F, E> {
    /// Puts the parses of a snapshot's two values together. A value that was
    /// not there has no parse and stays absent.
    pub fn from_parsed<X>(flash: Option<Result<F, X>>, errors: Option<Result<E, X>>) -> (mapped:
        Result<OnceSessionMapped<F, E>, X>)
        ensures
            mapped == combined(flash, errors),
    {
        let flash = match flash {
            Some(Ok(value)) => Some(value),
            Some(Err(x)) => {
                return Err(x);
            },
            None => None,
        };
        let errors = match errors {
            Some(Ok(value)) => Some(value),
            Some(Err(x)) => {
                return Err(x);
            },
            None => None,
        };
        Ok(OnceSessionMapped { flash, errors })
    }
}

/// The value, where there is one within.
pub fn flattened<T>(nested: Option<Option<T>>) -> (flat: Option<T>)
    ensures
        flat == match nested {
            Some(Some(value)) => Some(value),
            _ => None,
        },
{
    match nested {
        Some(inner) => inner,
        None => None,
    }
}

impl OnceSession {
    /// Reads both values of the snapshot as texts. The message is read
    /// first, and the first value that cannot be read is the error. A value
    /// that holds no text reads as an absent one.
    pub fn map(&self) -> (mapped: Result<OnceSessionMapped<String, String>, SerializationError>)
        ensures
            match mapped {
                Ok(texts) => {
                    &&& typed(self@.flash) == Ok::<Option<Seq<char>>, SerializationError>(
                        texts.flash.deep_view(),
                    )
                    &&& typed(self@.errors) == Ok::<Option<Seq<char>>, SerializationError>(
                        texts.errors.deep_view(),
                    )
                },
                Err(e) => {
                    &&& e == SerializationError::Parse
                    &&& (typed(self@.flash) is Err || typed(self@.errors) is Err)
                },
            },
    {
        let flash = match &self.flash {
            Some(raw) => Some(decode_text(raw.as_str())),
            None => None,
        };
        let errors = match &self.errors {
            Some(raw) => Some(decode_text(raw.as_str())),
            None => None,
        };
        match OnceSessionMapped::from_parsed(flash, errors) {
            Ok(read) => Ok(
                OnceSessionMapped { flash: flattened(read.flash), errors: flattened(read.errors) },
            ),
            Err(e) => Err(e),
        }
    }
}

/// The address that a stored document stands for: the text it holds, and the
/// root where there is no document or the document holds no text.
pub open spec fn url_or_root(raw: Option<Seq<char>>) -> Seq<char> {
    match typed(raw) {
        Ok(Some(url)) => url,
        _ => ROOT_URL@,
    }
}

/// The four reserved field names are four different names.
pub proof fn lemma_reserved_fields_differ()
    ensures
        FLASH_KEY@ != ERRORS_KEY@,
        FLASH_KEY@ != PREV_REQ_KEY@,
        FLASH_KEY@ != CURR_REQ_KEY@,
        ERRORS_KEY@ != PREV_REQ_KEY@,
        ERRORS_KEY@ != CURR_REQ_KEY@,
        PREV_REQ_KEY@ != CURR_REQ_KEY@,
{
    reveal_strlit("flash");
    reveal_strlit("errors");
    reveal_strlit("_prev_req_url");
    reveal_strlit("_curr_req_url");
    assert(ERRORS_KEY@.len() == 6);
    assert(PREV_REQ_KEY@[1] == 'p');
    assert(CURR_REQ_KEY@[1] == 'c');
}

/// A one-shot value is waiting in `fields` for the next flush.
pub open spec fn pending(fields: Map<Seq<char>, Seq<char>>) -> bool {
    fields.contains_key(FLASH_KEY@) || fields.contains_key(ERRORS_KEY@)
}

/// The fields that a flush leaves behind.
pub open spec fn flushed_fields(fields: Map<Seq<char>, Seq<char>>) -> Map<Seq<char>, Seq<char>> {
    fields.remove(FLASH_KEY@).remove(ERRORS_KEY@).remove(PREV_REQ_KEY@)
}

/// The snapshot that a flush produces.
pub open spec fn flushed_snapshot(fields: Map<Seq<char>, Seq<char>>) -> OnceSessionView {
    OnceSessionView {
        flash: slot(fields, FLASH_KEY@),
        errors: slot(fields, ERRORS_KEY@),
        prev_req: url_or_root(slot(fields, PREV_REQ_KEY@)),
    }
}

/// What serializing a text, or the absence of one, comes to.
pub open spec fn encoded(value: Option<Seq<char>>) -> Result<Seq<char>, SerializationError> {
    match text_encoding(value) {
        Some(document) => Ok(document),
        None => Err(SerializationError::Format),
    }
}

/// What reading a flushed value as a text and serializing it anew comes to.
/// A value that was not there is serialized as the absence of a text, and so
/// is one that holds no text.
pub open spec fn recoded(raw: Option<Seq<char>>) -> Result<Seq<char>, SerializationError> {
    match typed(raw) {
        Ok(text) => encoded(text),
        Err(e) => Err(e),
    }
}

/// Two writes in turn, each of the outcome of a serialization: the fields
/// after them, and whether both took place. The first error ends the turn;
/// what was written before it stays written.
pub open spec fn written_in_turn(
    fields: Map<Seq<char>, Seq<char>>,
    first_field: Seq<char>,
    first: Result<Seq<char>, SerializationError>,
    second_field: Seq<char>,
    second: Result<Seq<char>, SerializationError>,
) -> (Map<Seq<char>, Seq<char>>, Result<(), SerializationError>) {
    match first {
        Err(e) => (fields, Err(e)),
        Ok(a) => match second {
            Err(e) => (fields.insert(first_field, a), Err(e)),
            Ok(b) => (fields.insert(first_field, a).insert(second_field, b), Ok(())),
        },
    }
}

/// The fields after a snapshot was forwarded into them, and whether the
/// forward succeeded.
pub open spec fn forwarded(fields: Map<Seq<char>, Seq<char>>, once: OnceSessionView) -> (
    Map<Seq<char>, Seq<char>>,
    Result<(), SerializationError>,
) {
    written_in_turn(fields, FLASH_KEY@, recoded(once.flash), ERRORS_KEY@, recoded(once.errors))
}

/// The fields after a request to `url` was recorded in them, and whether the
/// recording succeeded. The address that was the current one becomes the
/// previous one.
pub open spec fn visited(fields: Map<Seq<char>, Seq<char>>, url: Seq<char>) -> (
    Map<Seq<char>, Seq<char>>,
    Result<(), SerializationError>,
) {
    written_in_turn(
        fields,
        PREV_REQ_KEY@,
        encoded(Some(url_or_root(slot(fields, CURR_REQ_KEY@)))),
        CURR_REQ_KEY@,
        encoded(Some(url)),
    )
}

/// Reads a flushed value as a text and serializes it anew, ready to be
/// stored again.
pub fn recode_text(raw: Option<&str>) -> (again: Result<String, SerializationError>)
    ensures
        match again {
            Ok(document) => recoded(raw.deep_view()) == Ok::<Seq<char>, SerializationError>(
                document@,
            ),
            Err(e) => recoded(raw.deep_view()) == Err::<Seq<char>, SerializationError>(e),
        },
{
    match raw {
        None => encode_text(None),
        Some(document) => match decode_text(document) {
            Ok(Some(text)) => encode_text(Some(text.as_str())),
            Ok(None) => encode_text(None),
            Err(e) => Err(e),
        },
    }
}

/// The address that a typed read found, and the root where it found none or
/// failed.
pub fn address_or_root(read: Result<Option<String>, SerializationError>) -> (url: String)
    ensures
        url@ == match read {
            Ok(Some(address)) => address@,
            _ => ROOT_URL@,
        },
{
    match read {
        Ok(Some(address)) => address,
        _ => ROOT_URL.to_owned(),
    }
}

impl Session {
    /// Leaves `content` as the one-shot message for the next flush. A
    /// message that was waiting there is replaced.
    pub fn insert_flash(&mut self, content: &str) -> (done: Result<(), SerializationError>)
        ensures
            final(self).key() == old(self).key(),
            match encoded(Some(content@)) {
                Ok(raw) => {
                    &&& done == Ok::<(), SerializationError>(())
                    &&& final(self).has_record()
                    &&& final(self).fields() == old(self).fields().insert(FLASH_KEY@, raw)
                },
                Err(e) => {
                    &&& done == Err::<(), SerializationError>(e)
                    &&& *final(self) == *old(self)
                },
            },
    {
        self.insert(FLASH_KEY, content)
    }

    /// Leaves `errors` as the one-shot errors for the next flush. Errors
    /// that were waiting there are replaced.
    pub fn insert_errors(&mut self, errors: &str) -> (done: Result<(), SerializationError>)
        ensures
            final(self).key() == old(self).key(),
            match encoded(Some(errors@)) {
                Ok(raw) => {
                    &&& done == Ok::<(), SerializationError>(())
                    &&& final(self).has_record()
                    &&& final(self).fields() == old(self).fields().insert(ERRORS_KEY@, raw)
                },
                Err(e) => {
                    &&& done == Err::<(), SerializationError>(e)
                    &&& *final(self) == *old(self)
                },
            },
    {
        self.insert(ERRORS_KEY, errors)
    }

    /// Writes a flushed snapshot back into the session, so that the next
    /// flush yields it once more. Each value is read as a text and serialized
    /// anew on its way; one that is not a text ends the forward with an
    /// error, after the message was written if the errors are at fault.
    pub fn forward_once_session(&mut self, once_session: OnceSession) -> (done: Result<
        (),
        SerializationError,
    >)
        ensures
            final(self).key() == old(self).key(),
            final(self).fields() == forwarded(old(self).fields(), once_session@).0,
            done == forwarded(old(self).fields(), once_session@).1,
            match recoded(once_session@.flash) {
                Ok(_) => final(self).has_record(),
                Err(_) => *final(self) == *old(self),
            },
    {
        let flash = match &once_session.flash {
            Some(raw) => recode_text(Some(raw.as_str())),
            None => recode_text(None),
        };
        match self.insert_encoded(FLASH_KEY, flash) {
            Ok(_) => {},
            Err(e) => {
                return Err(e);
            },
        }
        let errors = match &once_session.errors {
            Some(raw) => recode_text(Some(raw.as_str())),
            None => recode_text(None),
        };
        self.insert_encoded(ERRORS_KEY, errors)
    }

    /// Records a request to `url`: the address that was the current one
    /// becomes the previous one, the root where there was none, and `url`
    /// becomes the current one.
    pub fn current_url(&mut self, url: &str) -> (done: Result<(), SerializationError>)
        ensures
            final(self).key() == old(self).key(),
            final(self).fields() == visited(old(self).fields(), url@).0,
            done == visited(old(self).fields(), url@).1,
            match encoded(Some(url_or_root(slot(old(self).fields(), CURR_REQ_KEY@)))) {
                Ok(_) => final(self).has_record(),
                Err(_) => *final(self) == *old(self),
            },
    {
        let prev_url = address_or_root(self.get(CURR_REQ_KEY));
        match self.insert_encoded(PREV_REQ_KEY, encode_text(Some(prev_url.as_str()))) {
            Ok(_) => {},
            Err(e) => {
                return Err(e);
            },
        }
        self.insert_encoded(CURR_REQ_KEY, encode_text(Some(url)))
    }

    /// Reads the one-shot values and the previous address out of the session
    /// and removes them from it, so that the next flush finds none unless
    /// they are written again.
    pub fn flush_flash(&mut self) -> (once: OnceSession)
        ensures
            final(self).key() == old(self).key(),
            final(self).has_record() == old(self).has_record(),
            final(self).fields() == flushed_fields(old(self).fields()),
            once@ == flushed_snapshot(old(self).fields()),
    {
        let flash = self.remove(FLASH_KEY);
        let errors = self.remove(ERRORS_KEY);
        let prev = self.remove(PREV_REQ_KEY);
        proof {
            lemma_reserved_fields_differ();
        }
        let read = match &prev {
            Some(raw) => decode_text(raw.as_str()),
            None => Ok(None),
        };
        let prev_req = address_or_root(read);
        OnceSession { flash, errors, prev_req }
    }
}

} // verus!
