//! The boundary to the TOML crate: parsing text into documents and turning
//! documents back into text.

use vstd::prelude::*;
use crate::document::Doc;
use crate::document::Item;
use crate::document::Scalar;
use crate::document::toml_doc;
use crate::document::Table;
use crate::document::distinct_keys;
use crate::document::docs_of;
use crate::document::lemma_docs_of;
use crate::document::lemma_entry_decreases;
use crate::document::lemma_map_of_is;

verus! {

/// What the TOML crate's parser makes of a text: the document that it
/// reads, or its description of why it rejects the text.
pub uninterp spec fn toml_parsed(text: Seq<char>) -> Result<Doc, Seq<char>>;

/// What the TOML crate's serializer makes of a document: the text that it
/// writes, or its description of why it refuses the document.
pub uninterp spec fn toml_rendered(doc: Doc) -> Result<Seq<char>, Seq<char>>;

/// A value of the TOML crate taken apart by one level.
enum Shape {
    String(String),
    Integer(i64),
    Boolean(bool),
    Array(Vec<toml::Value>),
    Table(Vec<(String, toml::Value)>),
    Other(toml::Value),
}

/// No two entries have the same key.
spec fn distinct_toml_keys(entries: Seq<(String, toml::Value)>) -> bool {
    forall|i: int, j: int|
        0 <= i < j < entries.len() ==> (#[trigger] entries[i]).0@ != (#[trigger] entries[j]).0@
}

/// The array holds the documents of the items, in order.
spec fn holds_items(a: Seq<Doc>, items: Seq<toml::Value>) -> bool {
    &&& a.len() == items.len()
    &&& forall|i: int| 0 <= i < items.len() ==> a[i] == toml_doc(#[trigger] items[i])
}

/// The keys of the mapping are the keys of the entries, no key occurs
/// twice, and each key is mapped to the document of its entry.
spec fn holds_entries(m: Map<Seq<char>, Doc>, entries: Seq<(String, toml::Value)>) -> bool {
    &&& distinct_toml_keys(entries)
    &&& forall|k: Seq<char>| m.contains_key(k) <==> exists|i: int|
        0 <= i < entries.len() && (#[trigger] entries[i]).0@ == k
    &&& forall|i: int| 0 <= i < entries.len() ==> m[(#[trigger] entries[i]).0@] == toml_doc(entries[i].1)
}

/// What one level of a value says of the document of the whole value.
spec fn shape_of(s: Shape, d: Doc) -> bool {
    match s {
        Shape::String(t) => d == Doc::String(t@),
        Shape::Integer(i) => d == Doc::Integer(i),
        Shape::Boolean(b) => d == Doc::Boolean(b),
        Shape::Array(items) => d matches Doc::Array(a) && holds_items(a, items@),
        Shape::Table(entries) => d matches Doc::Table(m) && holds_entries(m, entries@),
        Shape::Other(o) => d == Doc::Other(o) && toml_doc(o) == d,
    }
}

/// Takes a `toml::Value` apart by matching on its variants. A string, an
/// integer or a boolean comes out as it is; an array as its elements; a
/// table as the entries that `toml::map::Map::into_iter` yields, whose keys
/// differ pairwise; a float or a date-time stays whole, and is its own
/// document.
#[verifier::external_body]
fn open_toml(v: toml::Value) -> (s: Shape)
    ensures
        shape_of(s, toml_doc(v)),
{
    match v {
        toml::Value::String(s) => Shape::String(s),
        toml::Value::Integer(i) => Shape::Integer(i),
        toml::Value::Boolean(b) => Shape::Boolean(b),
        toml::Value::Array(a) => Shape::Array(a),
        toml::Value::Table(t) => Shape::Table(t.into_iter().collect()),
        v @ toml::Value::Float(_) => Shape::Other(v),
        v @ toml::Value::Datetime(_) => Shape::Other(v),
    }
}

/// Builds a `toml::Value` from one level, with the variant constructors of
/// that type; the entries of a table are collected into a `toml::map::Map`.
/// The value holds what the level holds, as long as no key occurs twice; a
/// float or a date-time is handed back as it came.
#[verifier::external_body]
fn close_toml(s: Shape) -> (v: toml::Value)
    requires
        s matches Shape::Table(entries) ==> distinct_toml_keys(entries@),
        s matches Shape::Other(o) ==> toml_doc(o) == Doc::Other(o),
    ensures
        shape_of(s, toml_doc(v)),
{
    match s {
        Shape::String(s) => toml::Value::String(s),
        Shape::Integer(i) => toml::Value::Integer(i),
        Shape::Boolean(b) => toml::Value::Boolean(b),
        Shape::Array(a) => toml::Value::Array(a),
        Shape::Table(entries) => toml::Value::Table(entries.into_iter().collect()),
        Shape::Other(other) => other,
    }
}

/// Calls `<toml::Value as FromStr>::from_str`, the TOML crate's parser, and
/// `to_string` on the error where it fails. The outcome depends on the text
/// alone: the value that comes back holds the document named by
/// `toml_parsed`, the description of a failure is the one named there.
#[verifier::external_body]
fn parse_toml(text: &str) -> (r: Result<toml::Value, String>)
    ensures
        match r {
            Ok(v) => toml_parsed(text@) == Ok::<Doc, Seq<char>>(toml_doc(v)),
            Err(reason) => toml_parsed(text@) == Err::<Doc, Seq<char>>(reason@),
        },
{
    match text.parse::<toml::Value>() {
        Ok(v) => Ok(v),
        Err(e) => Err(e.to_string()),
    }
}

/// Calls `toml::to_string`, the TOML crate's serializer, and `to_string` on
/// the error where it fails. The outcome depends alone on the document that
/// the value holds: text and description are those named by
/// `toml_rendered`.
#[verifier::external_body]
fn render_toml(v: &toml::Value) -> (r: Result<String, String>)
    ensures
        match r {
            Ok(text) => toml_rendered(toml_doc(*v)) == Ok::<Seq<char>, Seq<char>>(text@),
            Err(reason) => toml_rendered(toml_doc(*v)) == Err::<Seq<char>, Seq<char>>(reason@),
        },
{
    match toml::to_string(v) {
        Ok(text) => Ok(text),
        Err(e) => Err(e.to_string()),
    }
}

/// A table of the TOML crate has finitely many keys.
proof fn lemma_entries_finite(m: Map<Seq<char>, Doc>, entries: Seq<(String, toml::Value)>)
    requires
        holds_entries(m, entries),
    ensures
        m.dom().finite(),
{
    let keys = entries.map_values(|e: (String, toml::Value)| e.0@);
    vstd::seq_lib::seq_to_set_is_finite(keys);
    assert forall|k: Seq<char>| m.dom().contains(k) == keys.to_set().contains(k) by {
        if m.dom().contains(k) {
            let i = choose|i: int| 0 <= i < entries.len() && (#[trigger] entries[i]).0@ == k;
            assert(keys[i] == k);
        }
        if keys.to_set().contains(k) {
            let i = choose|i: int| 0 <= i < keys.len() && keys[i] == k;
            assert(entries[i].0@ == k);
        }
    }
    assert(m.dom() =~= keys.to_set());
}

/// The library's value for a value of the TOML crate.
pub(crate) fn from_toml(v: toml::Value) -> (item: Item)
    ensures
        item@ == toml_doc(v),
    decreases toml_doc(v),
{
    let ghost d = toml_doc(v);
    match open_toml(v) {
        Shape::String(s) => Item::String(s),
        Shape::Integer(i) => Item::Integer(i),
        Shape::Boolean(b) => Item::Boolean(b),
        Shape::Other(o) => Item::Other(Scalar::new(o)),
        Shape::Array(items) => {
            let ghost all = items@;
            let mut out: Vec<Item> = Vec::new();
            for x in it: items.into_iter()
                invariant
                    it.seq() == all,
                    d == toml_doc(v),
                    d matches Doc::Array(a) && holds_items(a, all),
                    out@.len() == it.index(),
                    forall|j: int| 0 <= j < out@.len() ==> (#[trigger] out@[j])@ == toml_doc(all[j]),
            {
                let converted = from_toml(x);
                out.push(converted);
            }
            proof {
                lemma_docs_of(out@);
                assert forall|j: int| 0 <= j < out@.len() implies docs_of(out@)[j] == d->Array_0[j] by {
                    assert(out@[j]@ == toml_doc(all[j]));
                }
                assert(docs_of(out@) =~= d->Array_0);
            }
            Item::Array(out)
        },
        Shape::Table(entries) => {
            let ghost all = entries@;
            let mut out: Vec<(String, Item)> = Vec::new();
            for entry in it: entries.into_iter()
                invariant
                    it.seq() == all,
                    d == toml_doc(v),
                    d matches Doc::Table(m) && holds_entries(m, all),
                    out@.len() == it.index(),
                    forall|j: int|
                        0 <= j < out@.len() ==> (#[trigger] out@[j]).0@ == all[j].0@ && out@[j].1@
                            == toml_doc(all[j].1),
            {
                let (key, x) = entry;
                proof {
                    lemma_entries_finite(d->Table_0, all);
                }
                let converted = from_toml(x);
                out.push((key, converted));
            }
            proof {
                let m = d->Table_0;
                assert forall|k: Seq<char>| m.contains_key(k) <==> exists|i: int|
                    0 <= i < out@.len() && (#[trigger] out@[i]).0@ == k by {
                    if m.contains_key(k) {
                        let i = choose|i: int| 0 <= i < all.len() && (#[trigger] all[i]).0@ == k;
                        assert(out@[i].0@ == k);
                    }
                    if exists|i: int| 0 <= i < out@.len() && (#[trigger] out@[i]).0@ == k {
                        let i = choose|i: int| 0 <= i < out@.len() && (#[trigger] out@[i]).0@ == k;
                        assert(all[i].0@ == k);
                    }
                }
                assert forall|i: int| 0 <= i < out@.len() implies m[(#[trigger] out@[i]).0@]
                    == out@[i].1@ by {
                    assert(m[all[i].0@] == toml_doc(all[i].1));
                }
                assert forall|i: int, j: int| 0 <= i < j < out@.len() implies (
                #[trigger] out@[i]).0@ != (#[trigger] out@[j]).0@ by {
                    assert(all[i].0@ != all[j].0@);
                }
                lemma_map_of_is(out@, m);
            }
            Item::Table(Table::from_entries(out))
        },
    }
}

/// The value of the TOML crate for a value of the library.
pub(crate) fn to_toml(item: Item) -> (v: toml::Value)
    ensures
        toml_doc(v) == item@,
    decreases item,
{
    match item {
        Item::String(s) => close_toml(Shape::String(s)),
        Item::Integer(i) => close_toml(Shape::Integer(i)),
        Item::Boolean(b) => close_toml(Shape::Boolean(b)),
        Item::Other(s) => close_toml(Shape::Other(s.into_inner())),
        Item::Array(items) => {
            let ghost all = items@;
            let mut out: Vec<toml::Value> = Vec::new();
            for x in it: items.into_iter()
                invariant
                    it.seq() == all,
                    item == Item::Array(items),
                    all == items@,
                    out@.len() == it.index(),
                    forall|j: int| 0 <= j < out@.len() ==> toml_doc(#[trigger] out@[j]) == all[j]@,
            {
                proof {
                    assert(decreases_to!(item => item->Array_0));
                }
                let converted = to_toml(x);
                out.push(converted);
            }
            let v = close_toml(Shape::Array(out));
            proof {
                lemma_docs_of(all);
                assert forall|j: int| 0 <= j < all.len() implies toml_doc(v)->Array_0[j] == docs_of(
                    all,
                )[j] by {
                    assert(toml_doc(out@[j]) == all[j]@);
                }
                assert(toml_doc(v)->Array_0 =~= docs_of(all));
            }
            v
        },
        Item::Table(t) => {
            let ghost whole = t;
            let entries = t.into_entries();
            let ghost all = entries@;
            let mut out: Vec<(String, toml::Value)> = Vec::new();
            for entry in it: entries.into_iter()
                invariant
                    it.seq() == all,
                    item == Item::Table(whole),
                    all == whole.entries(),
                    out@.len() == it.index(),
                    forall|j: int|
                        0 <= j < out@.len() ==> (#[trigger] out@[j]).0@ == all[j].0@ && toml_doc(
                            out@[j].1,
                        ) == all[j].1@,
            {
                let (key, x) = entry;
                proof {
                    lemma_entry_decreases(whole, it.index() as int);
                    assert(decreases_to!(item => item->Table_0));
                }
                let converted = to_toml(x);
                out.push((key, converted));
            }
            proof {
                assert forall|i: int, j: int| 0 <= i < j < out@.len() implies (
                #[trigger] out@[i]).0@ != (#[trigger] out@[j]).0@ by {
                    assert(all[i].0@ != all[j].0@);
                }
            }
            let v = close_toml(Shape::Table(out));
            proof {
                let m = toml_doc(v)->Table_0;
                assert forall|k: Seq<char>| m.contains_key(k) <==> exists|i: int|
                    0 <= i < all.len() && (#[trigger] all[i]).0@ == k by {
                    if m.contains_key(k) {
                        let i = choose|i: int| 0 <= i < out@.len() && (#[trigger] out@[i]).0@ == k;
                        assert(all[i].0@ == k);
                    }
                    if exists|i: int| 0 <= i < all.len() && (#[trigger] all[i]).0@ == k {
                        let i = choose|i: int| 0 <= i < all.len() && (#[trigger] all[i]).0@ == k;
                        assert(out@[i].0@ == k);
                    }
                }
                assert forall|i: int| 0 <= i < all.len() implies m[(#[trigger] all[i]).0@]
                    == all[i].1@ by {
                    assert(m[out@[i].0@] == toml_doc(out@[i].1));
                }
                lemma_map_of_is(all, m);
            }
            v
        },
    }
}

/// The text of each side of an outcome.
pub open spec fn texts_of(r: Result<String, String>) -> Result<Seq<char>, Seq<char>> {
    match r {
        Ok(text) => Ok(text@),
        Err(reason) => Err(reason@),
    }
}

/// The document of a parsed value, or the reason for its rejection.
pub open spec fn parsed_of(r: Result<Item, String>) -> Result<Doc, Seq<char>> {
    match r {
        Ok(item) => Ok(item@),
        Err(reason) => Err(reason@),
    }
}

/// Parses a TOML text into a document, or says why the text is rejected.
///
/// Nested arrays and inline tables are read by recursion, by the parser and
/// by this function alike: the stack bounds how deeply a text may nest.
pub fn parse_document(text: &str) -> (r: Result<Item, String>)
    ensures
        parsed_of(r) == toml_parsed(text@),
{
    match parse_toml(text) {
        Ok(v) => Ok(from_toml(v)),
        Err(reason) => Err(reason),
    }
}

/// Turns a document into TOML text, or says why the document is refused.
///
/// Tables are written with their keys in order, whatever the order in which
/// the entries were inserted.
pub fn render_document(doc: Item) -> (r: Result<String, String>)
    ensures
        texts_of(r) == toml_rendered(doc@),
{
    let v = to_toml(doc);
    render_toml(&v)
}

} // verus!
