//! The generic record: a mapping from field name to the field's text.
//!
//! It is the loosely typed form in which rows of free-form queries travel and
//! from which entities are rebuilt. Its view is a `Map` from name to text, and
//! every presence check is explicit.

use vstd::prelude::*;

verus! {

/// One named text value.
#[derive(Debug)]
pub struct Field {
    pub name: String,
    pub value: String,
}

impl Clone for Field {
    fn clone(&self) -> (r: Self)
        ensures
            r == *self,
    {
        Field { name: self.name.clone(), value: self.value.clone() }
    }
}

/// The mapping that a run of fields builds up, a later field replacing an
/// earlier one of the same name.
pub open spec fn fields_map(s: Seq<Field>) -> Map<Seq<char>, Seq<char>>
    decreases s.len(),
{
    if s.len() == 0 {
        Map::empty()
    } else {
        fields_map(s.drop_last()).insert(s.last().name@, s.last().value@)
    }
}

/// A name that no field from position `from` on carries.
pub open spec fn absent_from(s: Seq<Field>, key: Seq<char>, from: int) -> bool {
    forall|j: int| from <= j < s.len() ==> (#[trigger] s[j]).name@ != key
}

/// The last field of a name decides what the mapping holds for it.
pub proof fn lemma_fields_map_last(s: Seq<Field>, key: Seq<char>, i: int)
    requires
        0 <= i < s.len(),
        s[i].name@ == key,
        absent_from(s, key, i + 1),
    ensures
        fields_map(s).dom().contains(key),
        fields_map(s)[key] == s[i].value@,
    decreases s.len(),
{
    if i == s.len() - 1 {
    } else {
        let t = s.drop_last();
        assert(s.last().name@ != key);
        assert forall|j: int| i + 1 <= j < t.len() implies (#[trigger] t[j]).name@ != key by {
            assert(t[j] == s[j]);
        }
        lemma_fields_map_last(t, key, i);
    }
}

/// A name that no field carries is not in the mapping.
pub proof fn lemma_fields_map_absent(s: Seq<Field>, key: Seq<char>)
    requires
        absent_from(s, key, 0),
    ensures
        !fields_map(s).dom().contains(key),
    decreases s.len(),
{
    if s.len() > 0 {
        let t = s.drop_last();
        assert(s.last().name@ != key);
        assert forall|j: int| 0 <= j < t.len() implies (#[trigger] t[j]).name@ != key by {
            assert(t[j] == s[j]);
        }
        lemma_fields_map_absent(t, key);
    }
}

/// A mapping from field name to text.
#[derive(Debug)]
pub struct Record {
    entries: Vec<Field>,
}

impl View for Record {
    type V = Map<Seq<char>, Seq<char>>;

    closed spec fn view(&self) -> Map<Seq<char>, Seq<char>> {
        fields_map(self.entries@)
    }
}

impl DeepView for Record {
    type V = Map<Seq<char>, Seq<char>>;

    open spec fn deep_view(&self) -> Map<Seq<char>, Seq<char>> {
        self@
    }
}

impl Clone for Record {
    fn clone(&self) -> (r: Self)
        ensures
            r@ == self@,
    {
        let mut entries: Vec<Field> = Vec::new();
        let mut i: usize = 0;
        while i < self.entries.len()
            invariant
                i <= self.entries.len(),
                entries@ == self.entries@.subrange(0, i as int),
            decreases self.entries.len() - i,
        {
            entries.push(self.entries[i].clone());
            assert(entries@ =~= self.entries@.subrange(0, i + 1));
            i = i + 1;
        }
        assert(entries@ =~= self.entries@);
        Record { entries }
    }
}

impl Record {
    /// The record without any field.
    pub fn new() -> (r: Self)
        ensures
            r@ == Map::<Seq<char>, Seq<char>>::empty(),
    {
        Record { entries: Vec::new() }
    }

    /// Sets the field `key` to `value`, replacing what it held.
    pub fn insert(&mut self, key: String, value: String)
        ensures
            final(self)@ == old(self)@.insert(key@, value@),
    {
        self.entries.push(Field { name: key, value });
        assert(self.entries@.drop_last() =~= old(self).entries@);
    }

    /// The text of the field `key`, if the record has that field.
    pub fn get(&self, key: &str) -> (r: Option<&String>)
        ensures
            match r {
                Some(v) => self@.dom().contains(key@) && v@ == self@[key@],
                None => !self@.dom().contains(key@),
            },
    {
        let wanted = String::from_str(key);
        let mut i: usize = self.entries.len();
        while i > 0
            invariant
                i <= self.entries.len(),
                wanted@ == key@,
                absent_from(self.entries@, key@, i as int),
            decreases i,
        {
            i = i - 1;
            if self.entries[i].name == wanted {
                proof {
                    lemma_fields_map_last(self.entries@, key@, i as int);
                }
                return Some(&self.entries[i].value);
            }
        }
        proof {
            lemma_fields_map_absent(self.entries@, key@);
        }
        None
    }

    /// Whether the record has the field `key`.
    pub fn contains_key(&self, key: &str) -> (r: bool)
        ensures
            r == self@.dom().contains(key@),
    {
        self.get(key).is_some()
    }
}

} // verus!
