use vstd::hash_map::StringHashMap;
use vstd::prelude::*;
use vstd::set_lib::lemma_len_subset;
use vstd::string::StringExecFns;

verus! {

/// A lower-case hexadecimal digit.
pub open spec fn is_hex_digit(c: char) -> bool {
    ('0' <= c && c <= '9') || ('a' <= c && c <= 'f')
}

/// The hyphenated lower-case form of a random (version 4) UUID:
/// eight, four, four, four and twelve hexadecimal digits, with the version
/// digit `4` and a variant digit of `8`, `9`, `a` or `b`.
pub open spec fn is_uuid_text(s: Seq<char>) -> bool {
    &&& s.len() == 36
    &&& forall|i: int|
        0 <= i < 36 ==> if i == 8 || i == 13 || i == 18 || i == 23 {
            #[trigger] s[i] == '-'
        } else {
            is_hex_digit(#[trigger] s[i])
        }
    &&& s[14] == '4'
    &&& (s[19] == '8' || s[19] == '9' || s[19] == 'a' || s[19] == 'b')
}

/// A session key: the text of a random UUID, followed by as many `0` as it
/// took to tell the key apart from the keys in use. With 122 random bits in
/// the identifier, it takes none in practice.
pub open spec fn is_session_key(key: Seq<char>) -> bool {
    &&& key.len() >= 36
    &&& is_uuid_text(key.subrange(0, 36))
    &&& forall|i: int| 36 <= i < key.len() ==> #[trigger] key[i] == '0'
}

/// Made of hexadecimal digits and hyphens only, so that the text can travel
/// as a cookie value as it stands.
pub open spec fn is_cookie_safe(key: Seq<char>) -> bool {
    forall|i: int| 0 <= i < key.len() ==> is_hex_digit(#[trigger] key[i]) || key[i] == '-'
}

/// Every session key is safe to put in a cookie.
pub proof fn lemma_session_key_is_cookie_safe(key: Seq<char>)
    requires
        is_session_key(key),
    ensures
        is_cookie_safe(key),
{
    let head = key.subrange(0, 36);
    assert forall|i: int| 0 <= i < key.len() implies is_hex_digit(#[trigger] key[i]) || key[i]
        == '-' by {
        if i < 36 {
            assert(head[i] == key[i]);
        }
    }
}

/// Calls `Uuid::new_v4` and writes the identifier out with `to_string`.
/// Trusted: whatever the random bits, the text is the hyphenated lower-case
/// form of a version 4 UUID. Nothing is claimed about which one, nor that two
/// calls give different ones. The identifier draws on the operating system's
/// random numbers, and the call fails hard on a system that has none.
#[verifier::external_body]
fn random_uuid_text() -> (text: String)
    ensures
        is_uuid_text(text@),
{
    uuid::Uuid::new_v4().to_string()
}

/// Mints a session key from fresh randomness.
pub fn generate_session_key() -> (key: String)
    ensures
        is_session_key(key@),
        is_cookie_safe(key@),
{
    let key = random_uuid_text();
    proof {
        assert(key@.subrange(0, 36) =~= key@);
        lemma_session_key_is_cookie_safe(key@);
    }
    key
}

/// `candidate` with `n` times the character `0` behind it.
pub open spec fn padded(candidate: Seq<char>, n: nat) -> Seq<char> {
    candidate + Seq::new(n, |i: int| '0')
}

/// The keys in use that are at least `n` characters long.
pub open spec fn at_least_as_long(keys: Set<Seq<char>>, n: nat) -> Set<Seq<char>> {
    keys.filter(|k: Seq<char>| k.len() >= n)
}

/// `key` is `candidate` with the fewest `0` behind it that make a text which
/// is none of `taken`: the candidate itself where it is none of them.
pub open spec fn is_first_unused(
    taken: Set<Seq<char>>,
    candidate: Seq<char>,
    key: Seq<char>,
) -> bool {
    exists|n: nat|
        {
            &&& key == #[trigger] padded(candidate, n)
            &&& !taken.contains(key)
            &&& forall|m: nat| m < n ==> taken.contains(#[trigger] padded(candidate, m))
        }
}

/// Turns `candidate` into a key that none of the sessions in `taken` has.
///
/// Every lengthening passes a key in use that no later one can meet, so there
/// are at most as many of them as there are keys in use.
pub(crate) fn unused_key<V>(taken: &StringHashMap<V>, candidate: String) -> (key: String)
    requires
        taken@.dom().finite(),
    ensures
        is_first_unused(taken@.dom(), candidate@, key@),
{
    let mut key = candidate;
    let ghost mut n: nat = 0;
    proof {
        assert(key@ =~= padded(candidate@, 0));
    }
    while taken.contains_key(key.as_str())
        invariant
            taken@.dom().finite(),
            key@ == padded(candidate@, n),
            forall|m: nat| m < n ==> taken@.dom().contains(#[trigger] padded(candidate@, m)),
        decreases at_least_as_long(taken@.dom(), key@.len()).len(),
    {
        let ghost passed = key@;
        proof {
            let wide = at_least_as_long(taken@.dom(), passed.len());
            let narrow = at_least_as_long(taken@.dom(), passed.len() + 1);
            taken@.dom().lemma_len_filter(|k: Seq<char>| k.len() >= passed.len());
            assert(wide.contains(passed));
            assert(narrow.subset_of(wide.remove(passed)));
            lemma_len_subset(narrow, wide.remove(passed));
            reveal_strlit("0");
        }
        key.append("0");
        proof {
            assert(key@ =~= padded(candidate@, n + 1));
            n = n + 1;
        }
    }
    key
}

/// A session key stays one when it is lengthened by the character `0`.
pub proof fn lemma_padded_session_key(candidate: Seq<char>, n: nat)
    requires
        is_session_key(candidate),
    ensures
        is_session_key(padded(candidate, n)),
{
    let key = padded(candidate, n);
    assert(key.subrange(0, 36) =~= candidate.subrange(0, 36));
}

/// The first unused key for a candidate that is a session key is a session
/// key, and safe to put in a cookie.
pub proof fn lemma_first_unused_session_key(
    taken: Set<Seq<char>>,
    candidate: Seq<char>,
    key: Seq<char>,
)
    requires
        is_session_key(candidate),
        is_first_unused(taken, candidate, key),
    ensures
        is_session_key(key),
        is_cookie_safe(key),
{
    let n = choose|n: nat| key == #[trigger] padded(candidate, n);
    lemma_padded_session_key(candidate, n);
    lemma_session_key_is_cookie_safe(key);
}

} // verus!
