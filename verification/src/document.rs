//! Manifest documents: nested tables of values, and their mathematical model.

use vstd::prelude::*;

verus! {

/// The TOML crate's value type. The library carries such a value through
/// where a manifest holds a float or a date-time, which no rule here reads.
#[verifier::external_type_specification]
#[verifier::external_body]
pub struct ExTomlValue(toml::Value);

/// The document that a value of the TOML crate holds: a string, an integer,
/// a boolean, an array or a table by its contents, a float or a date-time
/// as the value itself.
pub uninterp spec fn toml_doc(v: toml::Value) -> Doc;

/// What a manifest value is: the model that every contract speaks of.
pub ghost enum Doc {
    String(Seq<char>),
    Integer(i64),
    Boolean(bool),
    Array(Seq<Doc>),
    Table(Map<Seq<char>, Doc>),
    /// A float or a date-time, as the TOML crate holds it.
    Other(toml::Value),
}

/// A value of a manifest.
#[derive(Debug)]
pub enum Item {
    String(String),
    Integer(i64),
    Boolean(bool),
    Array(Vec<Item>),
    Table(Table),
    /// A float or a date-time, kept as the TOML crate produced it.
    Other(Scalar),
}

/// A float or a date-time of a manifest. The parser makes such values; the
/// library hands them back to the serializer untouched.
#[derive(Debug)]
pub struct Scalar {
    value: toml::Value,
}

impl Scalar {
    /// The value of the TOML crate that is carried.
    pub closed spec fn value(self) -> toml::Value {
        self.value
    }

    #[verifier::type_invariant]
    spec fn holds_itself(self) -> bool {
        toml_doc(self.value) == Doc::Other(self.value)
    }

    /// Wraps a value that is neither string, integer, boolean, array nor
    /// table.
    pub(crate) fn new(value: toml::Value) -> (s: Scalar)
        requires
            toml_doc(value) == Doc::Other(value),
        ensures
            s.value() == value,
    {
        Scalar { value }
    }

    /// The value that was wrapped.
    pub(crate) fn into_inner(self) -> (value: toml::Value)
        ensures
            value == self.value(),
            toml_doc(value) == Doc::Other(value),
    {
        proof {
            use_type_invariant(&self);
        }
        self.value
    }
}

/// A table of a manifest: a mapping from keys to values in which no key
/// occurs twice.
#[derive(Debug)]
pub struct Table {
    entries: Vec<(String, Item)>,
}

/// The documents of a sequence of values, in order.
pub open spec fn docs_of(items: Seq<Item>) -> Seq<Doc>
    decreases items,
{
    if items.len() == 0 {
        Seq::empty()
    } else {
        docs_of(items.drop_last()).push(items.last().doc())
    }
}

/// The mapping that a sequence of entries builds up, a later entry
/// replacing an earlier one with the same key.
pub open spec fn map_of(entries: Seq<(String, Item)>) -> Map<Seq<char>, Doc>
    decreases entries,
{
    if entries.len() == 0 {
        Map::empty()
    } else {
        map_of(entries.drop_last()).insert(entries.last().0@, entries.last().1.doc())
    }
}

/// No two entries have the same key.
pub open spec fn distinct_keys(entries: Seq<(String, Item)>) -> bool {
    forall|i: int, j: int|
        0 <= i < j < entries.len() ==> (#[trigger] entries[i]).0@ != (#[trigger] entries[j]).0@
}

impl Item {
    /// The document that this value holds.
    pub open spec fn doc(self) -> Doc
        decreases self,
    {
        match self {
            Item::String(s) => Doc::String(s@),
            Item::Integer(i) => Doc::Integer(i),
            Item::Boolean(b) => Doc::Boolean(b),
            Item::Array(items) => Doc::Array(docs_of(items@)),
            Item::Table(t) => Doc::Table(t.map()),
            Item::Other(s) => Doc::Other(s.value()),
        }
    }
}

impl View for Item {
    type V = Doc;

    open spec fn view(&self) -> Doc {
        self.doc()
    }
}

impl Table {
    /// The mapping that this table holds.
    pub closed spec fn map(self) -> Map<Seq<char>, Doc>
        decreases self,
    {
        map_of(self.entries@)
    }

    #[verifier::type_invariant]
    spec fn keys_are_distinct(self) -> bool {
        distinct_keys(self.entries@)
    }

    /// The entries behind the mapping, in the order in which they are kept.
    pub closed spec fn entries(self) -> Seq<(String, Item)> {
        self.entries@
    }

    /// A table made of the given entries.
    pub(crate) fn from_entries(entries: Vec<(String, Item)>) -> (t: Table)
        requires
            distinct_keys(entries@),
        ensures
            t@ == map_of(entries@),
    {
        Table { entries }
    }

    /// The entries of the table.
    pub(crate) fn into_entries(self) -> (entries: Vec<(String, Item)>)
        ensures
            entries@ == self.entries(),
            distinct_keys(entries@),
            map_of(entries@) == self@,
    {
        proof {
            use_type_invariant(&self);
        }
        self.entries
    }

    /// A table without entries.
    pub fn new() -> (t: Table)
        ensures
            t@ == Map::<Seq<char>, Doc>::empty(),
    {
        Table { entries: Vec::new() }
    }

    /// The number of entries.
    pub fn len(&self) -> (n: usize)
        ensures
            n == self@.len(),
            self@.dom().finite(),
    {
        proof {
            use_type_invariant(self);
            lemma_map_of_len(self.entries@);
        }
        self.entries.len()
    }

    /// Where the entry with the given key stands, if there is one.
    fn position(&self, key: &str) -> (found: Option<usize>)
        ensures
            match found {
                Some(i) => i < self.entries@.len() && self.entries@[i as int].0@ == key@,
                None => forall|i: int| 0 <= i < self.entries@.len() ==> self.entries@[i].0@ != key@,
            },
    {
        let wanted = key.to_owned();
        let mut i: usize = 0;
        while i < self.entries.len()
            invariant
                i <= self.entries@.len(),
                wanted@ == key@,
                forall|j: int| 0 <= j < i ==> self.entries@[j].0@ != key@,
            decreases self.entries@.len() - i,
        {
            if self.entries[i].0 == wanted {
                return Some(i);
            }
            i += 1;
        }
        None
    }

    /// Whether the table has an entry with the given key.
    pub fn contains_key(&self, key: &str) -> (b: bool)
        ensures
            b == self@.contains_key(key@),
    {
        proof {
            lemma_map_of_contains(self.entries@, key@);
        }
        self.position(key).is_some()
    }

    /// The value stored under the given key.
    pub fn get(&self, key: &str) -> (found: Option<&Item>)
        ensures
            match found {
                Some(v) => self@.contains_key(key@) && v@ == self@[key@],
                None => !self@.contains_key(key@),
            },
    {
        proof {
            use_type_invariant(self);
            lemma_map_of_contains(self.entries@, key@);
        }
        match self.position(key) {
            Some(i) => {
                proof {
                    lemma_map_of_index(self.entries@, i as int);
                }
                Some(&self.entries[i].1)
            },
            None => None,
        }
    }

    /// Takes the entry with the given key out of the table and returns its
    /// value.
    pub fn remove(&mut self, key: &str) -> (removed: Option<Item>)
        ensures
            final(self)@ == old(self)@.remove(key@),
            match removed {
                Some(v) => old(self)@.contains_key(key@) && v@ == old(self)@[key@],
                None => !old(self)@.contains_key(key@),
            },
    {
        proof {
            use_type_invariant(&*self);
            lemma_map_of_contains(self.entries@, key@);
        }
        match self.position(key) {
            Some(i) => {
                proof {
                    lemma_map_of_index(self.entries@, i as int);
                    lemma_map_of_remove(self.entries@, i as int);
                }
                let mut entries: Vec<(String, Item)> = Vec::new();
                core::mem::swap(&mut self.entries, &mut entries);
                let entry = entries.remove(i);
                core::mem::swap(&mut self.entries, &mut entries);
                Some(entry.1)
            },
            None => None,
        }
    }

    /// Stores the value under the key, replacing and returning the value
    /// that was stored there before.
    pub fn insert(&mut self, key: String, value: Item) -> (previous: Option<Item>)
        ensures
            final(self)@ == old(self)@.insert(key@, value@),
            match previous {
                Some(v) => old(self)@.contains_key(key@) && v@ == old(self)@[key@],
                None => !old(self)@.contains_key(key@),
            },
    {
        let previous = self.remove(key.as_str());
        proof {
            use_type_invariant(&*self);
            lemma_map_of_contains(self.entries@, key@);
        }
        let mut entries: Vec<(String, Item)> = Vec::new();
        core::mem::swap(&mut self.entries, &mut entries);
        let ghost before = entries@;
        entries.push((key, value));
        proof {
            assert(entries@.drop_last() =~= before);
        }
        core::mem::swap(&mut self.entries, &mut entries);
        previous
    }
}

impl View for Table {
    type V = Map<Seq<char>, Doc>;

    open spec fn view(&self) -> Map<Seq<char>, Doc> {
        self.map()
    }
}

impl Item {
    /// The text of a string value.
    pub fn as_str(&self) -> (text: Option<&str>)
        ensures
            match text {
                Some(t) => self@ == Doc::String(t@),
                None => !(self is String),
            },
    {
        match self {
            Item::String(s) => Some(s.as_str()),
            _ => None,
        }
    }

    /// The table of a table value.
    pub fn as_table(&self) -> (table: Option<&Table>)
        ensures
            match table {
                Some(t) => self@ == Doc::Table(t@),
                None => !(self is Table),
            },
    {
        match self {
            Item::Table(t) => Some(t),
            _ => None,
        }
    }

    /// The table of a table value, by value.
    pub fn into_table(self) -> (table: Option<Table>)
        ensures
            match table {
                Some(t) => self@ == Doc::Table(t@),
                None => !(self is Table),
            },
    {
        match self {
            Item::Table(t) => Some(t),
            _ => None,
        }
    }
}

/// The documents of a sequence of values are the documents of its elements.
pub proof fn lemma_docs_of(items: Seq<Item>)
    ensures
        docs_of(items).len() == items.len(),
        forall|i: int| 0 <= i < items.len() ==> docs_of(items)[i] == (#[trigger] items[i])@,
    decreases items.len(),
{
    if items.len() > 0 {
        lemma_docs_of(items.drop_last());
        assert forall|i: int| 0 <= i < items.len() implies docs_of(items)[i] == (
        #[trigger] items[i])@ by {
            if i < items.len() - 1 {
                assert(items.drop_last()[i] == items[i]);
            }
        }
    }
}

/// Every value stored in a table is smaller than the table, so a function
/// may descend into it.
pub proof fn lemma_entry_decreases(t: Table, i: int)
    requires
        0 <= i < t.entries().len(),
    ensures
        decreases_to!(t => t.entries()[i].1),
{
}

/// A mapping whose keys are the keys of the entries, and which sends each
/// key to the document of its entry, is the mapping of the entries.
pub proof fn lemma_map_of_is(entries: Seq<(String, Item)>, m: Map<Seq<char>, Doc>)
    requires
        distinct_keys(entries),
        forall|k: Seq<char>| m.contains_key(k) <==> exists|i: int|
            0 <= i < entries.len() && (#[trigger] entries[i]).0@ == k,
        forall|i: int| 0 <= i < entries.len() ==> m[(#[trigger] entries[i]).0@] == entries[i].1@,
    ensures
        map_of(entries) == m,
{
    assert forall|k: Seq<char>| map_of(entries).contains_key(k) == m.contains_key(k) by {
        lemma_map_of_contains(entries, k);
    }
    assert forall|k: Seq<char>| map_of(entries).contains_key(k) implies map_of(entries)[k]
        == m[k] by {
        lemma_map_of_contains(entries, k);
        let i = choose|i: int| 0 <= i < entries.len() && (#[trigger] entries[i]).0@ == k;
        lemma_map_of_index(entries, i);
    }
}

/// A key is in the mapping exactly when some entry has it.
pub proof fn lemma_map_of_contains(entries: Seq<(String, Item)>, key: Seq<char>)
    ensures
        map_of(entries).contains_key(key) <==> exists|i: int|
            0 <= i < entries.len() && (#[trigger] entries[i]).0@ == key,
    decreases entries.len(),
{
    if entries.len() > 0 {
        let front = entries.drop_last();
        lemma_map_of_contains(front, key);
        if map_of(entries).contains_key(key) {
            if entries.last().0@ == key {
                assert(entries[entries.len() - 1].0@ == key);
            } else {
                let i = choose|i: int| 0 <= i < front.len() && (#[trigger] front[i]).0@ == key;
                assert(entries[i].0@ == key);
            }
        }
        if exists|i: int| 0 <= i < entries.len() && (#[trigger] entries[i]).0@ == key {
            let i = choose|i: int| 0 <= i < entries.len() && (#[trigger] entries[i]).0@ == key;
            if i < entries.len() - 1 {
                assert(front[i].0@ == key);
            }
        }
    }
}

/// Where keys are distinct, each entry's key maps to that entry's value.
pub proof fn lemma_map_of_index(entries: Seq<(String, Item)>, i: int)
    requires
        distinct_keys(entries),
        0 <= i < entries.len(),
    ensures
        map_of(entries).contains_key(entries[i].0@),
        map_of(entries)[entries[i].0@] == entries[i].1@,
    decreases entries.len(),
{
    let front = entries.drop_last();
    if i < entries.len() - 1 {
        lemma_map_of_index(front, i);
    }
}

/// Where keys are distinct, taking an entry out removes its key from the
/// mapping and changes nothing else.
pub proof fn lemma_map_of_remove(entries: Seq<(String, Item)>, i: int)
    requires
        distinct_keys(entries),
        0 <= i < entries.len(),
    ensures
        map_of(entries.remove(i)) == map_of(entries).remove(entries[i].0@),
        distinct_keys(entries.remove(i)),
    decreases entries.len(),
{
    let front = entries.drop_last();
    let last = entries.last();
    if i == entries.len() - 1 {
        assert(entries.remove(i) =~= front);
        lemma_map_of_contains(front, last.0@);
        if map_of(front).contains_key(last.0@) {
            let j = choose|j: int| 0 <= j < front.len() && (#[trigger] front[j]).0@ == last.0@;
            assert(entries[j].0@ == entries[i].0@);
        }
        assert(map_of(front) =~= map_of(entries).remove(last.0@));
    } else {
        assert(front[i] == entries[i]);
        lemma_map_of_remove(front, i);
        assert(entries.remove(i).drop_last() =~= front.remove(i));
        assert(entries.remove(i).last() == last);
        assert(entries[i].0@ != entries[entries.len() - 1].0@);
        assert(map_of(entries.remove(i)) =~= map_of(entries).remove(entries[i].0@));
    }
    assert forall|a: int, b: int| 0 <= a < b < entries.remove(i).len() implies (
    #[trigger] entries.remove(i)[a]).0@ != (#[trigger] entries.remove(i)[b]).0@ by {
        let a0 = if a < i { a } else { a + 1 };
        let b0 = if b < i { b } else { b + 1 };
        assert(entries.remove(i)[a] == entries[a0]);
        assert(entries.remove(i)[b] == entries[b0]);
    }
}

/// Where keys are distinct, the mapping has as many keys as there are
/// entries.
pub proof fn lemma_map_of_len(entries: Seq<(String, Item)>)
    requires
        distinct_keys(entries),
    ensures
        map_of(entries).dom().finite(),
        map_of(entries).len() == entries.len(),
    decreases entries.len(),
{
    if entries.len() > 0 {
        let front = entries.drop_last();
        let last = entries.last();
        lemma_map_of_len(front);
        lemma_map_of_contains(front, last.0@);
        if map_of(front).contains_key(last.0@) {
            let j = choose|j: int| 0 <= j < front.len() && (#[trigger] front[j]).0@ == last.0@;
            assert(entries[j].0@ == entries[entries.len() - 1].0@);
        }
    }
}

} // verus!
