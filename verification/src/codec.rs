use vstd::prelude::*;

verus! {

/// `serde_json::Error`, the error of both calls into the codec. It is
/// carried from the call to the place that turns it into a
/// `SerializationError`; nothing is known of what it holds.
#[verifier::external_type_specification]
#[verifier::external_body]
pub struct ExJsonError(serde_json::Error);

/// Why a typed read or write of a session value failed.
#[derive(Clone, Copy, Debug, PartialEq, Eq, Structural)]
pub enum SerializationError {
    /// A stored value is not the JSON form of an optional text.
    Parse,
    /// A value could not be written as JSON.
    Format,
}

/// The JSON document that `serde_json::to_string` writes for an optional
/// text, or `None` where it reports an error.
pub uninterp spec fn text_encoding(value: Option<Seq<char>>) -> Option<Seq<char>>;

/// What `serde_json::from_str` reads out of a JSON document as an optional
/// text, or `None` where it reports an error.
pub uninterp spec fn text_decoding(raw: Seq<char>) -> Option<Option<Seq<char>>>;

/// The codec reads `value` back as it wrote it: there is a document for
/// `value`, and read as an optional text it is `value` again.
pub open spec fn reads_back(value: Option<Seq<char>>) -> bool {
    match text_encoding(value) {
        Some(document) => text_decoding(document) == Some(value),
        None => false,
    }
}

/// Calls `serde_json::to_string` on an optional text. Trusted: the outcome is
/// a function of the argument alone, and `text_encoding` is the name of that
/// function. Nothing is claimed about what the document looks like.
#[verifier::external_body]
fn json_of_text(value: Option<&str>) -> (out: Result<String, serde_json::Error>)
    ensures
        match out {
            Ok(raw) => text_encoding(value.deep_view()) == Some(raw@),
            Err(_) => text_encoding(value.deep_view()) is None,
        },
{
    serde_json::to_string(&value)
}

/// Calls `serde_json::from_str` to read a JSON document as an optional
/// text. Trusted: the outcome is a function of the document alone, and
/// `text_decoding` is the name of that function. Nothing is claimed about
/// which documents are read as what.
#[verifier::external_body]
fn text_of_json(raw: &str) -> (out: Result<Option<String>, serde_json::Error>)
    ensures
        match out {
            Ok(text) => text_decoding(raw@) == Some(text.deep_view()),
            Err(_) => text_decoding(raw@) is None,
        },
{
    serde_json::from_str::<Option<String>>(raw)
}

/// Writes an optional text as a JSON document: a JSON string for a text, the
/// document that stands for "nothing" for `None`.
pub fn encode_text(value: Option<&str>) -> (out: Result<String, SerializationError>)
    ensures
        match out {
            Ok(raw) => text_encoding(value.deep_view()) == Some(raw@),
            Err(e) => e == SerializationError::Format && text_encoding(value.deep_view()) is None,
        },
{
    match json_of_text(value) {
        Ok(raw) => Ok(raw),
        Err(_) => Err(SerializationError::Format),
    }
}

/// Reads a JSON document as an optional text: a text for a JSON string,
/// `None` for the document that stands for "nothing".
pub fn decode_text(raw: &str) -> (out: Result<Option<String>, SerializationError>)
    ensures
        match out {
            Ok(text) => text_decoding(raw@) == Some(text.deep_view()),
            Err(e) => e == SerializationError::Parse && text_decoding(raw@) is None,
        },
{
    match text_of_json(raw) {
        Ok(text) => Ok(text),
        Err(_) => Err(SerializationError::Parse),
    }
}

} // verus!
