//! The records of a configuration.
//!
//! A record maps keys to values, both plain text. No key occurs twice: to set
//! a key that is there already replaces its value.

use vstd::prelude::*;
use crate::text::same_text;

verus! {

/// One record of a configuration: a mapping from keys to values.
#[derive(Debug)]
pub struct Record {
    fields: Vec<(String, String)>,
}

/// Whether the attribute at `i` of `fields` has the key `key`.
spec fn has_key_at(fields: Seq<(String, String)>, key: Seq<char>, i: int) -> bool {
    0 <= i < fields.len() && fields[i].0@ == key
}

/// The mapping that the attributes `fields` stand for, where no two of them
/// have the same key.
spec fn mapping_of(fields: Seq<(String, String)>) -> Map<Seq<char>, Seq<char>> {
    Map::new(
        |key: Seq<char>| exists|i: int| has_key_at(fields, key, i),
        |key: Seq<char>| fields[choose|i: int| has_key_at(fields, key, i)].1@,
    )
}

/// Whether no two attributes of `fields` have the same key.
spec fn distinct_keys(fields: Seq<(String, String)>) -> bool {
    forall|i: int, j: int| 0 <= i < j < fields.len() ==> fields[i].0@ != fields[j].0@
}

/// Replacing the value of a key that is there sets that key and nothing else.
proof fn lemma_mapping_after_set(fields: Seq<(String, String)>, i: int, attribute: (String, String))
    requires
        distinct_keys(fields),
        has_key_at(fields, attribute.0@, i),
    ensures
        distinct_keys(fields.update(i, attribute)),
        mapping_of(fields.update(i, attribute)) == mapping_of(fields).insert(
            attribute.0@,
            attribute.1@,
        ),
{
    let after = fields.update(i, attribute);
    let expected = mapping_of(fields).insert(attribute.0@, attribute.1@);
    assert forall|j: int| 0 <= j < fields.len() implies after[j].0@ == fields[j].0@ by {}
    assert forall|key: Seq<char>| #[trigger]
        mapping_of(after).contains_key(key) == expected.contains_key(key) by {
        if mapping_of(after).contains_key(key) {
            let j = choose|j: int| has_key_at(after, key, j);
            assert(has_key_at(fields, key, j));
        }
        if mapping_of(fields).contains_key(key) {
            let j = choose|j: int| has_key_at(fields, key, j);
            assert(has_key_at(after, key, j));
        }
        if key == attribute.0@ {
            assert(has_key_at(after, key, i));
        }
    }
    assert forall|key: Seq<char>| #[trigger]
        mapping_of(after).contains_key(key) implies mapping_of(after)[key] == expected[key] by {
        let j = choose|j: int| has_key_at(after, key, j);
        if key == attribute.0@ {
            assert(has_key_at(after, key, i));
            assert(j == i);
        } else {
            assert(has_key_at(fields, key, j));
            let j2 = choose|j2: int| has_key_at(fields, key, j2);
            assert(j2 == j);
        }
    }
    assert(mapping_of(after) =~= expected);
}

/// Adding an attribute with a key that is not there sets that key and
/// nothing else.
proof fn lemma_mapping_after_push(fields: Seq<(String, String)>, attribute: (String, String))
    requires
        distinct_keys(fields),
        forall|i: int| !has_key_at(fields, attribute.0@, i),
    ensures
        distinct_keys(fields.push(attribute)),
        mapping_of(fields.push(attribute)) == mapping_of(fields).insert(
            attribute.0@,
            attribute.1@,
        ),
{
    let after = fields.push(attribute);
    let expected = mapping_of(fields).insert(attribute.0@, attribute.1@);
    let n = fields.len() as int;
    assert forall|a: int, b: int| 0 <= a < b < after.len() implies after[a].0@ != after[b].0@ by {
        if b == n {
            assert(!has_key_at(fields, attribute.0@, a));
        }
    }
    assert forall|key: Seq<char>| #[trigger]
        mapping_of(after).contains_key(key) == expected.contains_key(key) by {
        if mapping_of(after).contains_key(key) {
            let j = choose|j: int| has_key_at(after, key, j);
            if j < n {
                assert(has_key_at(fields, key, j));
            }
        }
        if mapping_of(fields).contains_key(key) {
            let j = choose|j: int| has_key_at(fields, key, j);
            assert(has_key_at(after, key, j));
        }
        if key == attribute.0@ {
            assert(has_key_at(after, key, n));
        }
    }
    assert forall|key: Seq<char>| #[trigger]
        mapping_of(after).contains_key(key) implies mapping_of(after)[key] == expected[key] by {
        let j = choose|j: int| has_key_at(after, key, j);
        if key == attribute.0@ {
            assert(has_key_at(after, key, n));
            assert(j == n);
        } else {
            assert(has_key_at(fields, key, j));
            let j2 = choose|j2: int| has_key_at(fields, key, j2);
            assert(j2 == j);
        }
    }
    assert(mapping_of(after) =~= expected);
}

impl View for Record {
    type V = Map<Seq<char>, Seq<char>>;

    closed spec fn view(&self) -> Map<Seq<char>, Seq<char>> {
        mapping_of(self.fields@)
    }
}

impl DeepView for Record {
    type V = Map<Seq<char>, Seq<char>>;

    open spec fn deep_view(&self) -> Map<Seq<char>, Seq<char>> {
        self@
    }
}

impl Record {
    /// No key occurs twice.
    #[verifier::type_invariant]
    spec fn well_formed(self) -> bool {
        distinct_keys(self.fields@)
    }

    /// Makes a record without attributes.
    pub fn new() -> (record: Record)
        ensures
            record@ == Map::<Seq<char>, Seq<char>>::empty(),
    {
        let record = Record { fields: Vec::new() };
        assert(record@ =~= Map::<Seq<char>, Seq<char>>::empty());
        record
    }

    /// Finds the place of the attribute with the key `key`.
    fn position(&self, key: &str) -> (place: Option<usize>)
        ensures
            match place {
                Some(i) => has_key_at(self.fields@, key@, i as int),
                None => forall|i: int| !has_key_at(self.fields@, key@, i),
            },
    {
        let mut i: usize = 0;
        while i < self.fields.len()
            invariant
                i <= self.fields.len(),
                forall|k: int| 0 <= k < i ==> self.fields@[k].0@ != key@,
            decreases self.fields.len() - i,
        {
            if same_text(self.fields[i].0.as_str(), key) {
                return Some(i);
            }
            i += 1;
        }
        None
    }

    /// Looks up the value of the key `key`.
    pub fn get(&self, key: &str) -> (value: Option<&String>)
        ensures
            match value {
                Some(text) => self@.contains_key(key@) && self@[key@] == text@,
                None => !self@.contains_key(key@),
            },
    {
        proof {
            use_type_invariant(self);
        }
        match self.position(key) {
            Some(i) => {
                assert(has_key_at(self.fields@, key@, i as int));
                Some(&self.fields[i].1)
            },
            None => None,
        }
    }

    /// Sets the value of the key `key`, in place of the value that the key
    /// had, if it had one.
    pub fn insert(&mut self, key: String, value: String)
        ensures
            final(self)@ == old(self)@.insert(key@, value@),
    {
        proof {
            use_type_invariant(&*self);
        }
        let place = self.position(key.as_str());
        let mut fields: Vec<(String, String)> = Vec::new();
        std::mem::swap(&mut fields, &mut self.fields);
        let attribute = (key, value);
        match place {
            Some(i) => {
                proof {
                    lemma_mapping_after_set(fields@, i as int, attribute);
                }
                fields.set(i, attribute);
            },
            None => {
                proof {
                    lemma_mapping_after_push(fields@, attribute);
                }
                fields.push(attribute);
            },
        }
        self.fields = fields;
    }
}

} // verus!
