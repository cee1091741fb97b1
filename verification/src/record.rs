use vstd::prelude::*;

verus! {

/// The name held at position `i` of a list of named values.
pub open spec fn name_at(entries: Seq<(String, String)>, i: int) -> Seq<char> {
    entries[i].0@
}

/// The value held at position `i` of a list of named values.
pub open spec fn value_at(entries: Seq<(String, String)>, i: int) -> Seq<char> {
    entries[i].1@
}

/// No name occurs at two positions.
pub open spec fn names_distinct(entries: Seq<(String, String)>) -> bool {
    forall|i: int, j: int|
        0 <= i < j < entries.len() ==> #[trigger] name_at(entries, i) != #[trigger] name_at(
            entries,
            j,
        )
}

/// Some position holds `name`.
pub open spec fn has_name(entries: Seq<(String, String)>, name: Seq<char>) -> bool {
    exists|i: int| 0 <= i < entries.len() && #[trigger] name_at(entries, i) == name
}

/// A position that holds `name`, where there is one.
pub open spec fn position_of(entries: Seq<(String, String)>, name: Seq<char>) -> int {
    choose|i: int| 0 <= i < entries.len() && #[trigger] name_at(entries, i) == name
}

/// The finite map that a list of named values stands for. Where the names are
/// distinct, every listed pair is a binding of the map and the map has no
/// other binding.
pub open spec fn listed(entries: Seq<(String, String)>) -> Map<Seq<char>, Seq<char>> {
    Map::new(
        |name: Seq<char>| has_name(entries, name),
        |name: Seq<char>| value_at(entries, position_of(entries, name)),
    )
}

/// With distinct names, the binding of the name at position `i` is the value
/// at position `i`.
pub proof fn lemma_listed_at(entries: Seq<(String, String)>, i: int)
    requires
        names_distinct(entries),
        0 <= i < entries.len(),
    ensures
        listed(entries).contains_key(name_at(entries, i)),
        listed(entries)[name_at(entries, i)] == value_at(entries, i),
{
    let name = name_at(entries, i);
    assert(has_name(entries, name));
    let p = position_of(entries, name);
    assert(0 <= p < entries.len() && name_at(entries, p) == name);
    if p < i {
        assert(name_at(entries, p) != name_at(entries, i));
    } else if i < p {
        assert(name_at(entries, i) != name_at(entries, p));
    }
}

/// Appending a pair under a name that is not yet listed adds one binding.
proof fn lemma_listed_push(entries: Seq<(String, String)>, pair: (String, String))
    requires
        names_distinct(entries),
        !has_name(entries, pair.0@),
    ensures
        names_distinct(entries.push(pair)),
        listed(entries.push(pair)) == listed(entries).insert(pair.0@, pair.1@),
{
    let longer = entries.push(pair);
    let last = entries.len() as int;
    assert forall|i: int, j: int| 0 <= i < j < longer.len() implies #[trigger] name_at(longer, i)
        != #[trigger] name_at(longer, j) by {
        if j < last {
            assert(name_at(entries, i) != name_at(entries, j));
        } else {
            assert(name_at(entries, i) != pair.0@);
        }
    }
    assert(name_at(longer, last) == pair.0@);
    assert forall|name: Seq<char>| has_name(longer, name) <==> (name == pair.0@ || has_name(
        entries,
        name,
    )) by {
        if has_name(longer, name) {
            let i = position_of(longer, name);
            if i < last {
                assert(name_at(entries, i) == name);
            }
        }
        if has_name(entries, name) {
            let i = position_of(entries, name);
            assert(name_at(longer, i) == name);
        }
    }
    assert forall|name: Seq<char>| has_name(longer, name) implies #[trigger] listed(longer)[name]
        == listed(entries).insert(pair.0@, pair.1@)[name] by {
        let i = position_of(longer, name);
        lemma_listed_at(longer, i);
        if i < last {
            assert(name_at(entries, i) == name);
            lemma_listed_at(entries, i);
        }
    }
    assert(listed(longer) =~= listed(entries).insert(pair.0@, pair.1@));
}

/// Replacing the value at position `i`, under the same name, rebinds that name.
proof fn lemma_listed_update(entries: Seq<(String, String)>, i: int, pair: (String, String))
    requires
        names_distinct(entries),
        0 <= i < entries.len(),
        pair.0@ == name_at(entries, i),
    ensures
        names_distinct(entries.update(i, pair)),
        listed(entries.update(i, pair)) == listed(entries).insert(pair.0@, pair.1@),
{
    let changed = entries.update(i, pair);
    assert forall|k: int| 0 <= k < entries.len() implies #[trigger] name_at(changed, k)
        == name_at(entries, k) by {}
    assert forall|a: int, b: int| 0 <= a < b < changed.len() implies #[trigger] name_at(changed, a)
        != #[trigger] name_at(changed, b) by {
        assert(name_at(entries, a) != name_at(entries, b));
    }
    assert forall|name: Seq<char>| has_name(changed, name) <==> has_name(entries, name) by {
        if has_name(changed, name) {
            let k = position_of(changed, name);
            assert(name_at(entries, k) == name);
        }
        if has_name(entries, name) {
            let k = position_of(entries, name);
            assert(name_at(changed, k) == name);
        }
    }
    lemma_listed_at(entries, i);
    assert forall|name: Seq<char>| has_name(changed, name) implies #[trigger] listed(changed)[name]
        == listed(entries).insert(pair.0@, pair.1@)[name] by {
        let k = position_of(changed, name);
        lemma_listed_at(changed, k);
        if k != i {
            assert(name_at(entries, k) == name);
            lemma_listed_at(entries, k);
            if k < i {
                assert(name_at(entries, k) != name_at(entries, i));
            } else {
                assert(name_at(entries, i) != name_at(entries, k));
            }
        }
    }
    assert(listed(changed) =~= listed(entries).insert(pair.0@, pair.1@));
}

/// Taking out position `i` unbinds the name that stood there.
proof fn lemma_listed_remove(entries: Seq<(String, String)>, i: int)
    requires
        names_distinct(entries),
        0 <= i < entries.len(),
    ensures
        names_distinct(entries.remove(i)),
        listed(entries.remove(i)) == listed(entries).remove(name_at(entries, i)),
{
    let shorter = entries.remove(i);
    let gone = name_at(entries, i);
    assert forall|k: int| 0 <= k < shorter.len() implies #[trigger] name_at(shorter, k) == name_at(
        entries,
        if k < i {
            k
        } else {
            k + 1
        },
    ) by {}
    assert forall|a: int, b: int| 0 <= a < b < shorter.len() implies #[trigger] name_at(shorter, a)
        != #[trigger] name_at(shorter, b) by {
        let a0 = if a < i {
            a
        } else {
            a + 1
        };
        let b0 = if b < i {
            b
        } else {
            b + 1
        };
        assert(name_at(entries, a0) != name_at(entries, b0));
    }
    assert forall|name: Seq<char>| has_name(shorter, name) <==> (name != gone && has_name(
        entries,
        name,
    )) by {
        if has_name(shorter, name) {
            let k = position_of(shorter, name);
            let k0 = if k < i {
                k
            } else {
                k + 1
            };
            assert(name_at(entries, k0) == name);
            if k0 < i {
                assert(name_at(entries, k0) != name_at(entries, i));
            } else {
                assert(name_at(entries, i) != name_at(entries, k0));
            }
        }
        if name != gone && has_name(entries, name) {
            let k = position_of(entries, name);
            let k1 = if k < i {
                k
            } else {
                k - 1
            };
            assert(name_at(shorter, k1) == name);
        }
    }
    assert forall|name: Seq<char>| has_name(shorter, name) implies #[trigger] listed(shorter)[name]
        == listed(entries).remove(gone)[name] by {
        let k = position_of(shorter, name);
        let k0 = if k < i {
            k
        } else {
            k + 1
        };
        lemma_listed_at(shorter, k);
        assert(name_at(entries, k0) == name);
        lemma_listed_at(entries, k0);
    }
    assert(listed(shorter) =~= listed(entries).remove(gone));
}

/// Two lists that agree position by position stand for the same map.
proof fn lemma_listed_same(a: Seq<(String, String)>, b: Seq<(String, String)>)
    requires
        names_distinct(a),
        a.len() == b.len(),
        forall|i: int|
            0 <= i < a.len() ==> #[trigger] name_at(b, i) == name_at(a, i) && value_at(b, i)
                == value_at(a, i),
    ensures
        names_distinct(b),
        listed(b) == listed(a),
{
    assert forall|i: int, j: int| 0 <= i < j < b.len() implies #[trigger] name_at(b, i)
        != #[trigger] name_at(b, j) by {
        assert(name_at(a, i) != name_at(a, j));
    }
    assert forall|name: Seq<char>| has_name(b, name) <==> has_name(a, name) by {
        if has_name(b, name) {
            let k = position_of(b, name);
            assert(name_at(a, k) == name);
        }
        if has_name(a, name) {
            let k = position_of(a, name);
            assert(name_at(b, k) == name);
        }
    }
    assert forall|name: Seq<char>| has_name(b, name) implies #[trigger] listed(b)[name] == listed(
        a,
    )[name] by {
        let k = position_of(b, name);
        lemma_listed_at(b, k);
        assert(name_at(a, k) == name);
        lemma_listed_at(a, k);
    }
    assert(listed(b) =~= listed(a));
}

/// The state of one session: field names bound to serialized values.
///
/// The record never looks inside a value; reading a value as a type is the
/// business of the session handle that owns the record.
pub struct SessionRecord {
    entries: Vec<(String, String)>,
}

impl View for SessionRecord {
    type V = Map<Seq<char>, Seq<char>>;

    closed spec fn view(&self) -> Map<Seq<char>, Seq<char>> {
        listed(self.entries@)
    }
}

impl SessionRecord {
    #[verifier::type_invariant]
    spec fn well_formed(self) -> bool {
        names_distinct(self.entries@)
    }

    /// A record without fields.
    pub fn new() -> (record: SessionRecord)
        ensures
            record@ == Map::<Seq<char>, Seq<char>>::empty(),
    {
        let record = SessionRecord { entries: Vec::new() };
        assert(record@ =~= Map::<Seq<char>, Seq<char>>::empty());
        record
    }

    /// The position of `name` among the entries.
    fn find(&self, name: &str) -> (found: Option<usize>)
        ensures
            match found {
                Some(i) => i < self.entries@.len() && name_at(self.entries@, i as int) == name@,
                None => !has_name(self.entries@, name@),
            },
    {
        let wanted = name.to_owned();
        let mut i: usize = 0;
        while i < self.entries.len()
            invariant
                i <= self.entries@.len(),
                wanted@ == name@,
                forall|k: int| 0 <= k < i ==> #[trigger] name_at(self.entries@, k) != name@,
            decreases self.entries@.len() - i,
        {
            if self.entries[i].0 == wanted {
                return Some(i);
            }
            i = i + 1;
        }
        None
    }

    /// Whether the record has a field `name`.
    pub fn contains(&self, name: &str) -> (present: bool)
        ensures
            present == self@.contains_key(name@),
    {
        self.find(name).is_some()
    }

    /// The serialized value of field `name`.
    pub fn get(&self, name: &str) -> (value: Option<&String>)
        ensures
            match value {
                Some(raw) => self@.contains_key(name@) && raw@ == self@[name@],
                None => !self@.contains_key(name@),
            },
    {
        proof {
            use_type_invariant(self);
        }
        match self.find(name) {
            Some(i) => {
                proof {
                    lemma_listed_at(self.entries@, i as int);
                }
                Some(&self.entries[i].1)
            },
            None => None,
        }
    }

    /// Binds field `name` to `value`, replacing what it was bound to.
    pub fn insert(&mut self, name: String, value: String)
        ensures
            final(self)@ == old(self)@.insert(name@, value@),
    {
        proof {
            use_type_invariant(&*self);
        }
        let found = self.find(name.as_str());
        let mut entries: Vec<(String, String)> = Vec::new();
        std::mem::swap(&mut entries, &mut self.entries);
        match found {
            Some(i) => {
                proof {
                    lemma_listed_update(entries@, i as int, (name, value));
                }
                entries.set(i, (name, value));
            },
            None => {
                proof {
                    lemma_listed_push(entries@, (name, value));
                }
                entries.push((name, value));
            },
        }
        self.entries = entries;
    }

    /// Takes field `name` out of the record and hands back its serialized
    /// value.
    pub fn remove(&mut self, name: &str) -> (value: Option<String>)
        ensures
            final(self)@ == old(self)@.remove(name@),
            match value {
                Some(raw) => old(self)@.contains_key(name@) && raw@ == old(self)@[name@],
                None => !old(self)@.contains_key(name@),
            },
    {
        proof {
            use_type_invariant(&*self);
        }
        match self.find(name) {
            Some(i) => {
                let mut entries: Vec<(String, String)> = Vec::new();
                std::mem::swap(&mut entries, &mut self.entries);
                proof {
                    lemma_listed_at(entries@, i as int);
                    lemma_listed_remove(entries@, i as int);
                }
                let pair = entries.remove(i);
                self.entries = entries;
                Some(pair.1)
            },
            None => {
                assert(old(self)@.remove(name@) =~= old(self)@);
                None
            },
        }
    }

    /// The fields as a list of pairs, each name once.
    pub fn to_pairs(&self) -> (pairs: Vec<(String, String)>)
        ensures
            names_distinct(pairs@),
            listed(pairs@) == self@,
    {
        proof {
            use_type_invariant(self);
        }
        let mut pairs: Vec<(String, String)> = Vec::new();
        let mut i: usize = 0;
        while i < self.entries.len()
            invariant
                i <= self.entries@.len(),
                pairs@.len() == i,
                forall|k: int|
                    0 <= k < i ==> #[trigger] name_at(pairs@, k) == name_at(self.entries@, k)
                        && value_at(pairs@, k) == value_at(self.entries@, k),
            decreases self.entries@.len() - i,
        {
            let name = self.entries[i].0.clone();
            let value = self.entries[i].1.clone();
            assert(name@ == name_at(self.entries@, i as int));
            assert(value@ == value_at(self.entries@, i as int));
            let ghost before = pairs@;
            pairs.push((name, value));
            assert forall|k: int| 0 <= k < i + 1 implies #[trigger] name_at(pairs@, k) == name_at(
                self.entries@,
                k,
            ) && value_at(pairs@, k) == value_at(self.entries@, k) by {
                if k < i {
                    assert(name_at(before, k) == name_at(self.entries@, k));
                }
            }
            i = i + 1;
        }
        proof {
            lemma_listed_same(self.entries@, pairs@);
        }
        pairs
    }
}

impl Clone for SessionRecord {
    fn clone(&self) -> (copy: SessionRecord)
        ensures
            copy@ == self@,
    {
        let entries = self.to_pairs();
        SessionRecord { entries }
    }
}

} // verus!
