use crate::codec::{reads_back, text_decoding, text_encoding, SerializationError};
use crate::once_session::{
    flushed_fields, flushed_snapshot, forwarded, lemma_reserved_fields_differ, pending,
    recoded, url_or_root, visited, OnceSessionView, CURR_REQ_KEY, ERRORS_KEY, FLASH_KEY,
    PREV_REQ_KEY, ROOT_URL,
};
use crate::session::{slot, typed};
use crate::store::{deleted, loaded, ttl_updated, updated, SessionView};
use crate::ttl::Ttl;
use vstd::prelude::*;

verus! {

/// A record that was stored under a key is the record that a load of that
/// key gives, whatever the store held before.
pub proof fn law_stored_record_is_loaded(
    store: Map<Seq<char>, SessionView>,
    key: Seq<char>,
    record: Map<Seq<char>, Seq<char>>,
    ttl: Ttl,
)
    ensures
        loaded(updated(store, key, record, ttl), key) == Some(record),
{
}

/// Storing leaves every other session as it was.
pub proof fn law_storing_keeps_the_others(
    store: Map<Seq<char>, SessionView>,
    key: Seq<char>,
    record: Map<Seq<char>, Seq<char>>,
    ttl: Ttl,
    other: Seq<char>,
)
    requires
        other != key,
    ensures
        updated(store, key, record, ttl).contains_key(other) == store.contains_key(other),
        store.contains_key(other) ==> updated(store, key, record, ttl)[other] == store[other],
{
}

/// An update made twice with the same key, record and time-to-live leaves
/// the store as the first of the two left it.
pub proof fn law_update_twice_is_update_once(
    store: Map<Seq<char>, SessionView>,
    key: Seq<char>,
    record: Map<Seq<char>, Seq<char>>,
    ttl: Ttl,
)
    ensures
        updated(updated(store, key, record, ttl), key, record, ttl) == updated(
            store,
            key,
            record,
            ttl,
        ),
{
    assert(updated(updated(store, key, record, ttl), key, record, ttl) =~= updated(
        store,
        key,
        record,
        ttl,
    ));
}

/// An update of a key that the store does not have creates the session: the
/// key is there afterwards, with the record and the time-to-live given, and
/// the store has grown by this one session.
pub proof fn law_update_creates(
    store: Map<Seq<char>, SessionView>,
    key: Seq<char>,
    record: Map<Seq<char>, Seq<char>>,
    ttl: Ttl,
)
    requires
        !store.contains_key(key),
    ensures
        loaded(updated(store, key, record, ttl), key) == Some(record),
        updated(store, key, record, ttl)[key].ttl == ttl,
        updated(store, key, record, ttl).remove(key) == store,
{
    assert(updated(store, key, record, ttl).remove(key) =~= store);
}

/// For a key that the store does not have, a change of the time-to-live
/// fails, and there is no changed store.
pub proof fn law_update_ttl_needs_the_session(
    store: Map<Seq<char>, SessionView>,
    key: Seq<char>,
    ttl: Ttl,
)
    requires
        !store.contains_key(key),
    ensures
        ttl_updated(store, key, ttl) is None,
{
}

/// A change of the time-to-live that succeeds leaves the record of the
/// session, and every other session, as they were.
pub proof fn law_update_ttl_keeps_the_records(
    store: Map<Seq<char>, SessionView>,
    key: Seq<char>,
    ttl: Ttl,
    other: Seq<char>,
)
    requires
        store.contains_key(key),
    ensures
        ttl_updated(store, key, ttl) is Some,
        ttl_updated(store, key, ttl)->0[key].ttl == ttl,
        loaded(ttl_updated(store, key, ttl)->0, other) == loaded(store, other),
        other != key && store.contains_key(other) ==> ttl_updated(store, key, ttl)->0[other]
            == store[other],
{
}

/// A second delete of the same key changes nothing, and a load of a deleted
/// key finds no record.
pub proof fn law_delete_twice_is_delete_once(store: Map<Seq<char>, SessionView>, key: Seq<char>)
    ensures
        deleted(deleted(store, key), key) == deleted(store, key),
        loaded(deleted(store, key), key) is None,
        loaded(deleted(deleted(store, key), key), key) is None,
{
    assert(deleted(deleted(store, key), key) =~= deleted(store, key));
}

/// A delete of a key that the store does not have changes nothing.
pub proof fn law_delete_of_absent_key(store: Map<Seq<char>, SessionView>, key: Seq<char>)
    requires
        !store.contains_key(key),
    ensures
        deleted(store, key) == store,
{
    assert(deleted(store, key) =~= store);
}

/// The store after sessions were saved one after the other, the first of
/// `keys` first.
pub open spec fn saved_in_turn(
    store: Map<Seq<char>, SessionView>,
    keys: Seq<Seq<char>>,
    records: Seq<Map<Seq<char>, Seq<char>>>,
    ttls: Seq<Ttl>,
) -> Map<Seq<char>, SessionView>
    decreases keys.len(),
{
    if keys.len() == 0 {
        store
    } else {
        updated(
            saved_in_turn(store, keys.drop_last(), records.drop_last(), ttls.drop_last()),
            keys.last(),
            records.last(),
            ttls.last(),
        )
    }
}

/// Each of `keys` was new to the store at the moment of its save, which is
/// what `save` promises of the key it mints.
pub open spec fn each_key_was_new(
    store: Map<Seq<char>, SessionView>,
    keys: Seq<Seq<char>>,
    records: Seq<Map<Seq<char>, Seq<char>>>,
    ttls: Seq<Ttl>,
) -> bool {
    forall|n: int|
        0 <= n < keys.len() ==> !(#[trigger] saved_in_turn(
            store,
            keys.take(n),
            records.take(n),
            ttls.take(n),
        )).contains_key(keys[n])
}

/// The keys of the store after saves in turn: those it had and those saved.
proof fn lemma_saved_in_turn_keys(
    store: Map<Seq<char>, SessionView>,
    keys: Seq<Seq<char>>,
    records: Seq<Map<Seq<char>, Seq<char>>>,
    ttls: Seq<Ttl>,
    key: Seq<char>,
)
    requires
        keys.len() == records.len(),
        keys.len() == ttls.len(),
    ensures
        saved_in_turn(store, keys, records, ttls).contains_key(key) <==> (store.contains_key(key)
            || keys.contains(key)),
    decreases keys.len(),
{
    if keys.len() > 0 {
        lemma_saved_in_turn_keys(
            store,
            keys.drop_last(),
            records.drop_last(),
            ttls.drop_last(),
            key,
        );
        if keys.contains(key) {
            let i = choose|i: int| 0 <= i < keys.len() && keys[i] == key;
            if i < keys.len() - 1 {
                assert(keys.drop_last()[i] == key);
            }
        }
        if keys.drop_last().contains(key) {
            let i = choose|i: int| 0 <= i < keys.drop_last().len() && keys.drop_last()[i] == key;
            assert(keys[i] == key);
        }
    }
}

/// Any number of saves, one after the other, hand out keys that differ from
/// one another, and afterwards each of the records is loaded by the key that
/// its save returned. On a store that began empty there are then exactly as
/// many sessions as there were saves.
pub proof fn law_saves_hand_out_distinct_keys(
    store: Map<Seq<char>, SessionView>,
    keys: Seq<Seq<char>>,
    records: Seq<Map<Seq<char>, Seq<char>>>,
    ttls: Seq<Ttl>,
)
    requires
        keys.len() == records.len(),
        keys.len() == ttls.len(),
        each_key_was_new(store, keys, records, ttls),
    ensures
        forall|i: int, j: int| 0 <= i < j < keys.len() ==> keys[i] != keys[j],
        forall|i: int|
            0 <= i < keys.len() ==> loaded(saved_in_turn(store, keys, records, ttls), keys[i])
                == Some(records[i]),
        store =~= Map::<Seq<char>, SessionView>::empty() ==> saved_in_turn(
            store,
            keys,
            records,
            ttls,
        ).dom().finite() && saved_in_turn(store, keys, records, ttls).len() == keys.len(),
    decreases keys.len(),
{
    if keys.len() > 0 {
        let n = keys.len() - 1;
        let before = saved_in_turn(store, keys.drop_last(), records.drop_last(), ttls.drop_last());
        assert forall|m: int| 0 <= m < n implies !(#[trigger] saved_in_turn(
            store,
            keys.drop_last().take(m),
            records.drop_last().take(m),
            ttls.drop_last().take(m),
        )).contains_key(keys.drop_last()[m]) by {
            assert(keys.drop_last().take(m) =~= keys.take(m));
            assert(records.drop_last().take(m) =~= records.take(m));
            assert(ttls.drop_last().take(m) =~= ttls.take(m));
        }
        law_saves_hand_out_distinct_keys(
            store,
            keys.drop_last(),
            records.drop_last(),
            ttls.drop_last(),
        );
        assert(keys.take(n) =~= keys.drop_last());
        assert(records.take(n) =~= records.drop_last());
        assert(ttls.take(n) =~= ttls.drop_last());
        assert(!before.contains_key(keys[n]));
        assert forall|i: int, j: int| 0 <= i < j < keys.len() implies keys[i] != keys[j] by {
            if j == n {
                lemma_saved_in_turn_keys(
                    store,
                    keys.drop_last(),
                    records.drop_last(),
                    ttls.drop_last(),
                    keys[n],
                );
                assert(keys.drop_last()[i] == keys[i]);
            } else {
                assert(keys.drop_last()[i] == keys[i]);
                assert(keys.drop_last()[j] == keys[j]);
            }
        }
        assert forall|i: int| 0 <= i < keys.len() implies loaded(
            saved_in_turn(store, keys, records, ttls),
            keys[i],
        ) == Some(records[i]) by {
            if i < n {
                assert(keys.drop_last()[i] == keys[i]);
                assert(records.drop_last()[i] == records[i]);
            }
        }
        if store =~= Map::<Seq<char>, SessionView>::empty() {
            assert(saved_in_turn(store, keys, records, ttls).dom() =~= before.dom().insert(
                keys[n],
            ));
        }
    }
}

/// The channel of a session goes through its states as follows. Nothing
/// waits in a session without fields. Writing a message or errors makes them
/// wait, whatever was there before. A flush ends the wait, and what it
/// yields is absent exactly where nothing waited.
pub proof fn law_channel_states(
    fields: Map<Seq<char>, Seq<char>>,
    message: Seq<char>,
    errors: Seq<char>,
)
    ensures
        !pending(Map::<Seq<char>, Seq<char>>::empty()),
        pending(fields.insert(FLASH_KEY@, message)),
        pending(fields.insert(ERRORS_KEY@, errors)),
        !pending(flushed_fields(fields)),
        pending(fields) <==> (flushed_snapshot(fields).flash is Some || flushed_snapshot(
            fields,
        ).errors is Some),
{
    lemma_reserved_fields_differ();
}

/// A flush right after a flush finds nothing: both values are absent, the
/// previous address is the root, and the fields stay as the first flush left
/// them.
pub proof fn law_second_flush_finds_nothing(fields: Map<Seq<char>, Seq<char>>)
    ensures
        flushed_snapshot(flushed_fields(fields)).flash is None,
        flushed_snapshot(flushed_fields(fields)).errors is None,
        flushed_snapshot(flushed_fields(fields)).prev_req == ROOT_URL@,
        flushed_fields(flushed_fields(fields)) == flushed_fields(fields),
{
    lemma_reserved_fields_differ();
    assert(flushed_fields(flushed_fields(fields)) =~= flushed_fields(fields));
}

/// A flush yields the message and the errors exactly as the fields hold
/// them, and touches no field but the three that it takes out.
pub proof fn law_flush_takes_what_is_there(
    fields: Map<Seq<char>, Seq<char>>,
    flash: Seq<char>,
    other: Seq<char>,
)
    requires
        slot(fields, FLASH_KEY@) == Some(flash),
        other != FLASH_KEY@,
        other != ERRORS_KEY@,
        other != PREV_REQ_KEY@,
    ensures
        flushed_snapshot(fields).flash == Some(flash),
        slot(flushed_fields(fields), other) == slot(fields, other),
{
}

/// Of two messages written before a flush, the flush yields the second; and
/// writing errors does not disturb the message.
pub proof fn law_last_write_wins(
    fields: Map<Seq<char>, Seq<char>>,
    first: Seq<char>,
    second: Seq<char>,
    errors: Seq<char>,
)
    ensures
        flushed_snapshot(fields.insert(FLASH_KEY@, first).insert(FLASH_KEY@, second)).flash
            == Some(second),
        flushed_snapshot(fields.insert(FLASH_KEY@, first).insert(ERRORS_KEY@, errors)).flash
            == Some(first),
        flushed_snapshot(fields.insert(FLASH_KEY@, first).insert(ERRORS_KEY@, errors)).errors
            == Some(errors),
{
    lemma_reserved_fields_differ();
}

/// After a forward that succeeded, the next flush yields both values of the
/// forwarded snapshot, each as reading and serializing it anew gave it.
pub proof fn law_forwarded_values_are_flushed_next(
    fields: Map<Seq<char>, Seq<char>>,
    once: OnceSessionView,
)
    requires
        forwarded(fields, once).1 is Ok,
    ensures
        recoded(once.flash) is Ok,
        recoded(once.errors) is Ok,
        flushed_snapshot(forwarded(fields, once).0).flash == Some(recoded(once.flash)->Ok_0),
        flushed_snapshot(forwarded(fields, once).0).errors == Some(recoded(once.errors)->Ok_0),
{
    lemma_reserved_fields_differ();
}

/// Texts that the codec reads back as it wrote them survive a hop: after a
/// forward, the next flush yields documents that read as the forwarded
/// snapshot read, message and errors alike.
pub proof fn law_forward_keeps_the_texts(
    fields: Map<Seq<char>, Seq<char>>,
    once: OnceSessionView,
)
    requires
        typed(once.flash) is Ok,
        typed(once.errors) is Ok,
        reads_back(typed(once.flash)->Ok_0),
        reads_back(typed(once.errors)->Ok_0),
    ensures
        forwarded(fields, once).1 == Ok::<(), SerializationError>(()),
        typed(flushed_snapshot(forwarded(fields, once).0).flash) == typed(once.flash),
        typed(flushed_snapshot(forwarded(fields, once).0).errors) == typed(once.errors),
{
    lemma_reserved_fields_differ();
}

/// A message that the codec reads back as it wrote it is the same document
/// after the hop: written, flushed, forwarded and flushed again, the flush
/// yields `document` both times. The errors that travel with it have to be
/// forwardable too, since a forward is of both or fails.
pub proof fn law_forward_restores_the_message(
    fields: Map<Seq<char>, Seq<char>>,
    message: Seq<char>,
    document: Seq<char>,
)
    requires
        text_encoding(Some(message)) == Some(document),
        text_decoding(document) == Some(Some(message)),
        recoded(slot(fields, ERRORS_KEY@)) is Ok,
    ensures
        ({
            let written = fields.insert(FLASH_KEY@, document);
            let once = flushed_snapshot(written);
            let again = forwarded(flushed_fields(written), once);
            &&& once.flash == Some(document)
            &&& again.1 == Ok::<(), SerializationError>(())
            &&& flushed_snapshot(again.0).flash == Some(document)
        }),
{
    lemma_reserved_fields_differ();
    let written = fields.insert(FLASH_KEY@, document);
    let once = flushed_snapshot(written);
    assert(recoded(once.flash) == Ok::<Seq<char>, SerializationError>(document));
    assert(once.errors == slot(fields, ERRORS_KEY@));
}

/// Two requests in a row, with a codec that reads back the first address as
/// it wrote it, leave the first address as the previous one and the second
/// as the current one.
pub proof fn law_previous_address_is_tracked(
    fields: Map<Seq<char>, Seq<char>>,
    first: Seq<char>,
    second: Seq<char>,
)
    requires
        visited(fields, first).1 is Ok,
        reads_back(Some(first)),
        text_encoding(Some(second)) is Some,
    ensures
        visited(visited(fields, first).0, second).1 is Ok,
        slot(visited(visited(fields, first).0, second).0, PREV_REQ_KEY@) == text_encoding(
            Some(first),
        ),
        slot(visited(visited(fields, first).0, second).0, CURR_REQ_KEY@) == text_encoding(
            Some(second),
        ),
{
    lemma_reserved_fields_differ();
}

/// The first request of a session has the root as its previous address.
pub proof fn law_first_request_comes_from_the_root(
    fields: Map<Seq<char>, Seq<char>>,
    url: Seq<char>,
)
    requires
        !fields.contains_key(CURR_REQ_KEY@),
        visited(fields, url).1 is Ok,
    ensures
        slot(visited(fields, url).0, PREV_REQ_KEY@) == text_encoding(Some(ROOT_URL@)),
        slot(visited(fields, url).0, CURR_REQ_KEY@) == text_encoding(Some(url)),
{
    lemma_reserved_fields_differ();
}

/// A flush takes the previous address with it and leaves the current one, so
/// that the request after it still learns where this one went.
pub proof fn law_flush_keeps_the_current_address(fields: Map<Seq<char>, Seq<char>>)
    ensures
        slot(flushed_fields(fields), CURR_REQ_KEY@) == slot(fields, CURR_REQ_KEY@),
        slot(flushed_fields(fields), PREV_REQ_KEY@) is None,
        flushed_snapshot(fields).prev_req == url_or_root(slot(fields, PREV_REQ_KEY@)),
{
    lemma_reserved_fields_differ();
}

} // verus!
