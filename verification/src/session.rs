use crate::codec::{decode_text, encode_text, text_decoding, text_encoding, SerializationError};
use crate::record::SessionRecord;
use vstd::prelude::*;

verus! {

/// The handle that one request has on one session: the session's key and,
/// where the session has one, its record.
///
/// Reads and writes go to the handle's own record. Nothing reaches a store
/// until the record is written back there.
pub struct Session {
    id: String,
    pub map: Option<SessionRecord>,
}

/// What a typed read gives, from what the field holds: nothing for a field
/// that is not there, what the document is read as for a field that holds
/// the JSON form of an optional text, an error for any other value.
pub open spec fn typed(raw: Option<Seq<char>>) -> Result<Option<Seq<char>>, SerializationError> {
    match raw {
        None => Ok(None),
        Some(document) => match text_decoding(document) {
            Some(text) => Ok(text),
            None => Err(SerializationError::Parse),
        },
    }
}

/// The value of field `name` in `fields`, if there is one.
pub open spec fn slot(fields: Map<Seq<char>, Seq<char>>, name: Seq<char>) -> Option<Seq<char>> {
    if fields.contains_key(name) {
        Some(fields[name])
    } else {
        None
    }
}

impl Session {
    /// A handle on the session `id`, with the record it has at this moment.
    pub fn new(id: String, map: Option<SessionRecord>) -> (session: Session)
        ensures
            session.key() == id@,
            session.has_record() == map is Some,
            session.fields() == match map {
                Some(record) => record@,
                None => Map::empty(),
            },
    {
        Session { id, map }
    }

    /// The session key, as contracts see it.
    pub closed spec fn key(&self) -> Seq<char> {
        self.id@
    }

    /// Whether the session has a record, be it one without fields.
    pub closed spec fn has_record(&self) -> bool {
        self.map is Some
    }

    /// The fields of the session. A session without a record has none.
    pub closed spec fn fields(&self) -> Map<Seq<char>, Seq<char>> {
        match self.map {
            Some(record) => record@,
            None => Map::empty(),
        }
    }

    /// The session key.
    pub fn id(&self) -> (id: &String)
        ensures
            id@ == self.key(),
    {
        &self.id
    }

    /// Gives up the handle for the key and the record that it held.
    pub fn into_parts(self) -> (parts: (String, Option<SessionRecord>))
        ensures
            parts.0@ == self.key(),
            parts.1 is Some == self.has_record(),
            self.fields() == match parts.1 {
                Some(record) => record@,
                None => Map::empty(),
            },
    {
        (self.id, self.map)
    }

    /// The serialized value of `field`, as it is stored.
    pub fn get_raw(&self, field: &str) -> (raw: Option<&String>)
        ensures
            raw.deep_view() == slot(self.fields(), field@),
    {
        match &self.map {
            Some(record) => record.get(field),
            None => None,
        }
    }

    /// Stores `raw`, a value that is serialized already, under `field`. A
    /// session without a record gets one.
    pub fn insert_raw(&mut self, field: &str, raw: String)
        ensures
            final(self).key() == old(self).key(),
            final(self).has_record(),
            final(self).fields() == old(self).fields().insert(field@, raw@),
    {
        let mut record = match self.map.take() {
            Some(record) => record,
            None => SessionRecord::new(),
        };
        record.insert(field.to_owned(), raw);
        self.map = Some(record);
    }

    /// Takes `field` out of the session and hands back the serialized value
    /// that it had.
    pub fn remove(&mut self, field: &str) -> (raw: Option<String>)
        ensures
            final(self).key() == old(self).key(),
            final(self).has_record() == old(self).has_record(),
            final(self).fields() == old(self).fields().remove(field@),
            raw.deep_view() == slot(old(self).fields(), field@),
    {
        match self.map.take() {
            Some(record) => {
                let mut record = record;
                let raw = record.remove(field);
                self.map = Some(record);
                raw
            },
            None => {
                None
            },
        }
    }

    /// Stores the outcome of a serialization under `field`: the document
    /// where there is one, and nothing, passing the error on, where there is
    /// none.
    pub fn insert_encoded(
        &mut self,
        field: &str,
        encoded: Result<String, SerializationError>,
    ) -> (done: Result<(), SerializationError>)
        ensures
            final(self).key() == old(self).key(),
            match encoded {
                Ok(raw) => {
                    &&& done == Ok::<(), SerializationError>(())
                    &&& final(self).has_record()
                    &&& final(self).fields() == old(self).fields().insert(field@, raw@)
                },
                Err(e) => {
                    &&& done == Err::<(), SerializationError>(e)
                    &&& *final(self) == *old(self)
                },
            },
    {
        match encoded {
            Ok(raw) => {
                self.insert_raw(field, raw);
                Ok(())
            },
            Err(e) => Err(e),
        }
    }

    /// Reads `field` as a text. A field that is not there has no text, and
    /// neither has one that holds the document for "nothing".
    pub fn get(&self, field: &str) -> (value: Result<Option<String>, SerializationError>)
        ensures
            match value {
                Ok(found) => typed(slot(self.fields(), field@)) == Ok::<
                    Option<Seq<char>>,
                    SerializationError,
                >(found.deep_view()),
                Err(e) => typed(slot(self.fields(), field@)) == Err::<
                    Option<Seq<char>>,
                    SerializationError,
                >(e),
            },
    {
        match self.get_raw(field) {
            Some(raw) => decode_text(raw.as_str()),
            None => Ok(None),
        }
    }

    /// Serializes the text `value` and stores it under `field`. Where the
    /// text cannot be serialized, the session stays as it is.
    pub fn insert(&mut self, field: &str, value: &str) -> (done: Result<(), SerializationError>)
        ensures
            final(self).key() == old(self).key(),
            match text_encoding(Some(value@)) {
                Some(raw) => {
                    &&& done == Ok::<(), SerializationError>(())
                    &&& final(self).has_record()
                    &&& final(self).fields() == old(self).fields().insert(field@, raw)
                },
                None => {
                    &&& done == Err::<(), SerializationError>(SerializationError::Format)
                    &&& *final(self) == *old(self)
                },
            },
    {
        self.insert_encoded(field, encode_text(Some(value)))
    }
}

} // verus!
