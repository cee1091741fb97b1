use flash_sessions::codec::SerializationError;
use flash_sessions::once_session::{
    address_or_root, flattened, recode_text, OnceSession, OnceSessionMapped, CURR_REQ_KEY,
    ERRORS_KEY, FLASH_KEY, PREV_REQ_KEY, ROOT_URL,
};
use flash_sessions::record::SessionRecord;
use flash_sessions::session::Session;

fn session_with(pairs: &[(&str, &str)]) -> Session {
    let mut record = SessionRecord::new();
    for (name, value) in pairs {
        record.insert(name.to_string(), value.to_string());
    }
    Session::new("K1".to_string(), Some(record))
}

fn sorted(session: &Session) -> Vec<(String, String)> {
    let mut pairs = match &session.map {
        Some(record) => record.to_pairs(),
        None => Vec::new(),
    };
    pairs.sort();
    pairs
}

fn pair(name: &str, value: &str) -> (String, String) {
    (name.to_string(), value.to_string())
}

#[test]
fn the_reserved_fields_have_their_names() {
    assert_eq!(FLASH_KEY, "flash");
    assert_eq!(ERRORS_KEY, "errors");
    assert_eq!(PREV_REQ_KEY, "_prev_req_url");
    assert_eq!(CURR_REQ_KEY, "_curr_req_url");
    assert_eq!(ROOT_URL, "/");
}

#[test]
fn flush_yields_the_flash_once() {
    let mut session = session_with(&[("flash", "hi")]);
    let first = session.flush_flash();
    assert_eq!(first.flash, Some("hi".to_string()));
    assert_eq!(first.errors, None);
    assert_eq!(first.prev_req, "/");
    let second = session.flush_flash();
    assert_eq!(second.flash, None);
    assert_eq!(second.errors, None);
    assert_eq!(second.prev_req, "/");
}

#[test]
fn flush_of_an_empty_session_yields_nothing() {
    let mut session = Session::new("K1".to_string(), None);
    let once = session.flush_flash();
    assert_eq!(once.flash, None);
    assert_eq!(once.errors, None);
    assert_eq!(once.prev_req, "/");
    assert!(session.map.is_none());
    assert_eq!(session.id(), "K1");
}

#[test]
fn flush_takes_out_flash_errors_and_previous_address_only() {
    let mut session = session_with(&[
        ("flash", "\"saved\""),
        ("errors", "{\"name\":\"too short\"}"),
        ("_prev_req_url", "\"/form\""),
        ("_curr_req_url", "\"/submit\""),
        ("user", "\"ann\""),
    ]);
    let once = session.flush_flash();
    assert_eq!(once.flash, Some("\"saved\"".to_string()));
    assert_eq!(once.errors, Some("{\"name\":\"too short\"}".to_string()));
    assert_eq!(once.prev_req, "/form");
    assert_eq!(
        sorted(&session),
        vec![pair("_curr_req_url", "\"/submit\""), pair("user", "\"ann\"")]
    );
}

#[test]
fn a_previous_address_that_is_no_text_counts_as_the_root() {
    for raw in ["null", "17", "/form", "", "{\"a\":1}", "\"open"] {
        let mut session = session_with(&[("_prev_req_url", raw)]);
        let once = session.flush_flash();
        assert_eq!(once.prev_req, "/", "for {raw:?}");
        assert!(sorted(&session).is_empty());
    }
}

#[test]
fn insert_flash_then_flush() {
    let mut session = Session::new("K1".to_string(), None);
    assert_eq!(session.insert_flash("hi"), Ok(()));
    assert_eq!(sorted(&session), vec![pair("flash", "\"hi\"")]);
    let once = session.flush_flash();
    assert_eq!(once.flash, Some("\"hi\"".to_string()));
    assert_eq!(once.errors, None);
    assert!(sorted(&session).is_empty());
}

#[test]
fn the_last_flash_before_a_flush_wins() {
    let mut session = Session::new("K1".to_string(), None);
    assert_eq!(session.insert_flash("first"), Ok(()));
    assert_eq!(session.insert_flash("second"), Ok(()));
    let once = session.flush_flash();
    assert_eq!(once.flash, Some("\"second\"".to_string()));
}

#[test]
fn flash_and_errors_do_not_disturb_each_other() {
    let mut session = Session::new("K1".to_string(), None);
    assert_eq!(session.insert_flash("done"), Ok(()));
    assert_eq!(session.insert_errors("bad name"), Ok(()));
    assert_eq!(session.insert_flash("done again"), Ok(()));
    let once = session.flush_flash();
    assert_eq!(once.flash, Some("\"done again\"".to_string()));
    assert_eq!(once.errors, Some("\"bad name\"".to_string()));
    let next = session.flush_flash();
    assert_eq!(next.flash, None);
    assert_eq!(next.errors, None);
}

#[test]
fn insert_after_a_flush_is_seen_by_the_next_flush() {
    let mut session = Session::new("K1".to_string(), None);
    assert_eq!(session.insert_flash("one"), Ok(()));
    assert_eq!(session.flush_flash().flash, Some("\"one\"".to_string()));
    assert_eq!(session.insert_errors("two"), Ok(()));
    let once = session.flush_flash();
    assert_eq!(once.flash, None);
    assert_eq!(once.errors, Some("\"two\"".to_string()));
}

#[test]
fn forward_restores_the_flash_for_the_next_flush() {
    let mut session = Session::new("K1".to_string(), None);
    assert_eq!(session.insert_flash("hi"), Ok(()));
    let envelope = session.flush_flash();
    assert_eq!(envelope.flash, Some("\"hi\"".to_string()));
    assert_eq!(envelope.map().unwrap().flash, Some("hi".to_string()));
    assert_eq!(session.forward_once_session(envelope), Ok(()));
    let again = session.flush_flash();
    assert_eq!(again.flash, Some("\"hi\"".to_string()));
    assert_eq!(again.map().unwrap().flash, Some("hi".to_string()));
}

#[test]
fn without_a_forward_the_chain_ends() {
    let mut session = Session::new("K1".to_string(), None);
    assert_eq!(session.insert_flash("hi"), Ok(()));
    let _shown = session.flush_flash();
    let next = session.flush_flash();
    assert_eq!(next.flash, None);
}

#[test]
fn a_flash_can_be_forwarded_hop_after_hop() {
    let mut session = Session::new("K1".to_string(), None);
    assert_eq!(session.insert_flash("hop"), Ok(()));
    assert_eq!(session.insert_errors("oops"), Ok(()));
    for _ in 0..4 {
        let envelope = session.flush_flash();
        assert_eq!(envelope.flash, Some("\"hop\"".to_string()));
        assert_eq!(envelope.errors, Some("\"oops\"".to_string()));
        assert_eq!(session.forward_once_session(envelope), Ok(()));
    }
}

#[test]
fn forward_writes_an_absent_value_as_null() {
    let mut session = Session::new("K1".to_string(), None);
    let envelope = OnceSession {
        flash: Some("\"hi\"".to_string()),
        errors: None,
        prev_req: "/".to_string(),
    };
    assert_eq!(session.forward_once_session(envelope), Ok(()));
    assert_eq!(sorted(&session), vec![pair("errors", "null"), pair("flash", "\"hi\"")]);
    let next = session.flush_flash();
    assert_eq!(next.flash, Some("\"hi\"".to_string()));
    assert_eq!(next.errors, Some("null".to_string()));
}

#[test]
fn forward_overwrites_what_the_request_wrote_before() {
    let mut session = Session::new("K1".to_string(), None);
    assert_eq!(session.insert_flash("fresh"), Ok(()));
    let envelope = OnceSession {
        flash: Some("\"old\"".to_string()),
        errors: Some("\"old errors\"".to_string()),
        prev_req: "/".to_string(),
    };
    assert_eq!(session.forward_once_session(envelope), Ok(()));
    let next = session.flush_flash();
    assert_eq!(next.flash, Some("\"old\"".to_string()));
    assert_eq!(next.errors, Some("\"old errors\"".to_string()));
}

#[test]
fn forward_normalizes_the_document() {
    let mut session = Session::new("K1".to_string(), None);
    let envelope = OnceSession {
        flash: Some("  \"hi\" ".to_string()),
        errors: Some("\"\\u0041\"".to_string()),
        prev_req: "/".to_string(),
    };
    assert_eq!(session.forward_once_session(envelope), Ok(()));
    assert_eq!(sorted(&session), vec![pair("errors", "\"A\""), pair("flash", "\"hi\"")]);
}

#[test]
fn forward_of_a_flash_that_is_no_text_fails_and_writes_nothing() {
    let mut session = session_with(&[("user", "\"ann\"")]);
    let envelope = OnceSession {
        flash: Some("{\"a\":1}".to_string()),
        errors: Some("\"fine\"".to_string()),
        prev_req: "/".to_string(),
    };
    assert_eq!(session.forward_once_session(envelope), Err(SerializationError::Parse));
    assert_eq!(sorted(&session), vec![pair("user", "\"ann\"")]);
}

#[test]
fn forward_of_errors_that_are_no_text_fails_after_the_flash_was_written() {
    let mut session = session_with(&[("user", "\"ann\"")]);
    let envelope = OnceSession {
        flash: Some("\"fine\"".to_string()),
        errors: Some("{\"name\":\"too short\"}".to_string()),
        prev_req: "/".to_string(),
    };
    assert_eq!(session.forward_once_session(envelope), Err(SerializationError::Parse));
    assert_eq!(sorted(&session), vec![pair("flash", "\"fine\""), pair("user", "\"ann\"")]);
}

#[test]
fn forward_leaves_the_address_fields_alone() {
    let mut session = session_with(&[("_curr_req_url", "\"/b\"")]);
    let envelope = OnceSession { flash: None, errors: None, prev_req: "/a".to_string() };
    assert_eq!(session.forward_once_session(envelope), Ok(()));
    assert_eq!(
        sorted(&session),
        vec![pair("_curr_req_url", "\"/b\""), pair("errors", "null"), pair("flash", "null")]
    );
}

#[test]
fn recode_text_reads_and_writes_anew() {
    assert_eq!(recode_text(Some("\"hi\"")), Ok("\"hi\"".to_string()));
    assert_eq!(recode_text(Some(" \"hi\"")), Ok("\"hi\"".to_string()));
    assert_eq!(recode_text(None), Ok("null".to_string()));
    assert_eq!(recode_text(Some("null")), Ok("null".to_string()));
    assert_eq!(recode_text(Some("\"null\"")), Ok("\"null\"".to_string()));
    assert_eq!(recode_text(Some("hi")), Err(SerializationError::Parse));
    assert_eq!(recode_text(Some("{}")), Err(SerializationError::Parse));
}

#[test]
fn three_requests_leave_the_last_two_addresses() {
    let mut session = Session::new("K1".to_string(), None);
    assert_eq!(session.current_url("/a"), Ok(()));
    assert_eq!(session.current_url("/b"), Ok(()));
    assert_eq!(session.current_url("/c"), Ok(()));
    assert_eq!(session.get("_prev_req_url"), Ok(Some("/b".to_string())));
    assert_eq!(session.get("_curr_req_url"), Ok(Some("/c".to_string())));
    assert_eq!(
        sorted(&session),
        vec![pair("_curr_req_url", "\"/c\""), pair("_prev_req_url", "\"/b\"")]
    );
}

#[test]
fn the_first_request_comes_from_the_root() {
    let mut session = Session::new("K1".to_string(), None);
    assert_eq!(session.current_url("/a"), Ok(()));
    assert_eq!(session.get("_prev_req_url"), Ok(Some("/".to_string())));
    assert_eq!(session.get("_curr_req_url"), Ok(Some("/a".to_string())));
}

#[test]
fn addresses_are_tracked_whatever_the_flash_does() {
    let mut session = Session::new("K1".to_string(), None);
    let mut seen = Vec::new();
    for (n, url) in ["/a", "/b", "/c"].iter().enumerate() {
        assert_eq!(session.current_url(url), Ok(()));
        let once = session.flush_flash();
        seen.push(once.prev_req.clone());
        if n == 0 {
            assert_eq!(session.insert_flash("hi"), Ok(()));
        }
    }
    assert_eq!(seen, vec!["/".to_string(), "/a".to_string(), "/b".to_string()]);
    assert_eq!(session.get("_curr_req_url"), Ok(Some("/c".to_string())));
}

#[test]
fn a_current_address_that_is_no_text_counts_as_the_root() {
    let mut session = session_with(&[("_curr_req_url", "17")]);
    assert_eq!(session.current_url("/a"), Ok(()));
    assert_eq!(session.get("_prev_req_url"), Ok(Some("/".to_string())));
    assert_eq!(session.get("_curr_req_url"), Ok(Some("/a".to_string())));
}

#[test]
fn address_or_root_falls_back_on_the_root() {
    assert_eq!(address_or_root(Ok(Some("/a".to_string()))), "/a");
    assert_eq!(address_or_root(Ok(Some("".to_string()))), "");
    assert_eq!(address_or_root(Ok(None)), "/");
    assert_eq!(address_or_root(Err(SerializationError::Parse)), "/");
    assert_eq!(address_or_root(Err(SerializationError::Format)), "/");
}

#[test]
fn map_reads_both_values_as_texts() {
    let once = OnceSession {
        flash: Some("\"saved\"".to_string()),
        errors: Some("\"bad name\"".to_string()),
        prev_req: "/".to_string(),
    };
    let mapped = once.map().unwrap();
    assert_eq!(mapped.flash, Some("saved".to_string()));
    assert_eq!(mapped.errors, Some("bad name".to_string()));
}

#[test]
fn map_keeps_absent_values_absent() {
    let once = OnceSession { flash: None, errors: None, prev_req: "/".to_string() };
    let mapped = once.map().unwrap();
    assert_eq!(mapped.flash, None);
    assert_eq!(mapped.errors, None);
    let once = OnceSession {
        flash: None,
        errors: Some("\"e\"".to_string()),
        prev_req: "/".to_string(),
    };
    let mapped = once.map().unwrap();
    assert_eq!(mapped.flash, None);
    assert_eq!(mapped.errors, Some("e".to_string()));
}

#[test]
fn map_fails_on_a_value_that_is_no_text() {
    let once = OnceSession {
        flash: Some("hi".to_string()),
        errors: None,
        prev_req: "/".to_string(),
    };
    assert_eq!(once.map().err(), Some(SerializationError::Parse));
    let once = OnceSession {
        flash: Some("\"hi\"".to_string()),
        errors: Some("{\"name\":\"too short\"}".to_string()),
        prev_req: "/".to_string(),
    };
    assert_eq!(once.map().err(), Some(SerializationError::Parse));
}

#[test]
fn map_reads_null_as_an_absent_value() {
    let once = OnceSession {
        flash: Some("\"hi\"".to_string()),
        errors: Some("null".to_string()),
        prev_req: "/".to_string(),
    };
    let mapped = once.map().unwrap();
    assert_eq!(mapped.flash, Some("hi".to_string()));
    assert_eq!(mapped.errors, None);
}

#[test]
fn an_empty_snapshot_can_be_forwarded_again_and_again() {
    let mut session = Session::new("K1".to_string(), None);
    for _ in 0..3 {
        let envelope = session.flush_flash();
        assert_eq!(envelope.map().unwrap().flash, None);
        assert_eq!(envelope.map().unwrap().errors, None);
        assert_eq!(session.forward_once_session(envelope), Ok(()));
    }
}

#[test]
fn flattened_drops_one_layer() {
    assert_eq!(flattened(Some(Some(3))), Some(3));
    assert_eq!(flattened(Some(None::<u8>)), None);
    assert_eq!(flattened(None::<Option<u8>>), None);
}

#[test]
fn from_parsed_puts_two_parses_together() {
    let mapped: Result<OnceSessionMapped<u8, Vec<u8>>, String> =
        OnceSessionMapped::from_parsed(Some(Ok(1)), Some(Ok(vec![2, 3])));
    let mapped = mapped.unwrap();
    assert_eq!(mapped.flash, Some(1));
    assert_eq!(mapped.errors, Some(vec![2, 3]));

    let mapped: Result<OnceSessionMapped<u8, u8>, String> =
        OnceSessionMapped::from_parsed(None, None);
    let mapped = mapped.unwrap();
    assert_eq!(mapped.flash, None);
    assert_eq!(mapped.errors, None);
}

#[test]
fn from_parsed_reports_the_first_error() {
    let mapped: Result<OnceSessionMapped<u8, u8>, &str> =
        OnceSessionMapped::from_parsed(Some(Err("flash")), Some(Err("errors")));
    assert_eq!(mapped.err(), Some("flash"));
    let mapped: Result<OnceSessionMapped<u8, u8>, &str> =
        OnceSessionMapped::from_parsed(Some(Ok(1)), Some(Err("errors")));
    assert_eq!(mapped.err(), Some("errors"));
    let mapped: Result<OnceSessionMapped<u8, u8>, &str> =
        OnceSessionMapped::from_parsed(None, Some(Err("errors")));
    assert_eq!(mapped.err(), Some("errors"));
    let mapped: Result<OnceSessionMapped<u8, u8>, &str> =
        OnceSessionMapped::from_parsed(Some(Err("flash")), None);
    assert_eq!(mapped.err(), Some("flash"));
}

#[test]
fn the_default_snapshot_is_empty() {
    let once = OnceSession::default();
    assert_eq!(once.flash, None);
    assert_eq!(once.errors, None);
    assert_eq!(once.prev_req, "");
}

#[test]
fn a_snapshot_can_be_cloned() {
    let once = OnceSession {
        flash: Some("\"a\"".to_string()),
        errors: None,
        prev_req: "/from".to_string(),
    };
    let copy = once.clone();
    assert_eq!(copy.flash, Some("\"a\"".to_string()));
    assert_eq!(copy.errors, None);
    assert_eq!(copy.prev_req, "/from");
}
