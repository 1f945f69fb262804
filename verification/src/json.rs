//! JSON documents as values of the library's own, and the one call that reads
//! them from text.

use crate::assoc::{
    find_last, keys_of, lemma_found, lemma_map_of_finite, lemma_map_of_last, lemma_map_of_push,
    lemma_not_found, lemma_replaced, map_of,
};
use crate::decimal::{decimal, i64_text};
use vstd::prelude::*;

verus! {

/// A JSON document.
///
/// A number is held as its literal, so that no number is lost to a machine
/// type. An object is held as the list of its members; where a name is listed
/// twice, the later member counts.
#[derive(Debug, PartialEq, Eq)]
pub enum Json {
    Null,
    Bool(bool),
    Number(String),
    Text(String),
    Array(Vec<Json>),
    Object(Vec<(String, Json)>),
}

/// What a [`Json`] says: its mathematical content.
pub enum Doc {
    Null,
    Bool(bool),
    Number(Seq<char>),
    Text(Seq<char>),
    Array(Seq<Doc>),
    Object(Map<Seq<char>, Doc>),
}

impl Doc {
    /// The member of an object under `key`; nothing for a missing member and
    /// for a document that is no object.
    pub open spec fn member(self, key: Seq<char>) -> Option<Doc> {
        match self {
            Doc::Object(members) => if members.dom().contains(key) {
                Some(members[key])
            } else {
                None
            },
            _ => None,
        }
    }
}

impl View for Json {
    type V = Doc;

    open spec fn view(&self) -> Doc {
        self.doc()
    }
}

/// The content of the first `n` items of an array.
pub open spec fn items_doc(items: Seq<Json>, n: nat) -> Seq<Doc>
    decreases items, n,
{
    if n == 0 || n > items.len() {
        Seq::empty()
    } else {
        items_doc(items, (n - 1) as nat).push(items[n - 1].doc())
    }
}

/// The content of the first `n` members of an object, as pairs.
pub open spec fn pairs_doc(members: Seq<(String, Json)>, n: nat) -> Seq<(Seq<char>, Doc)>
    decreases members, n,
{
    if n == 0 || n > members.len() {
        Seq::empty()
    } else {
        pairs_doc(members, (n - 1) as nat).push((members[n - 1].0@, members[n - 1].1.doc()))
    }
}

/// The map that a list of members stands for.
pub open spec fn members_doc(members: Seq<(String, Json)>) -> Map<Seq<char>, Doc>
    decreases members, members.len() + 1,
{
    map_of(pairs_doc(members, members.len()))
}

impl Json {
    /// The content of the document.
    pub open spec fn doc(self) -> Doc
        decreases self, 0nat,
    {
        match self {
            Json::Null => Doc::Null,
            Json::Bool(b) => Doc::Bool(b),
            Json::Number(literal) => Doc::Number(literal@),
            Json::Text(text) => Doc::Text(text@),
            Json::Array(items) => Doc::Array(items_doc(items@, items@.len())),
            Json::Object(members) => Doc::Object(members_doc(members@)),
        }
    }
}

/// `items_doc` takes the items one by one.
pub proof fn lemma_items_doc(items: Seq<Json>, n: nat)
    requires
        n <= items.len(),
    ensures
        items_doc(items, n).len() == n,
        forall|i: int| 0 <= i < n ==> (#[trigger] items_doc(items, n)[i]) == items[i].doc(),
    decreases n,
{
    if n > 0 {
        lemma_items_doc(items, (n - 1) as nat);
    }
}

/// `pairs_doc` takes the members one by one.
pub proof fn lemma_pairs_doc(members: Seq<(String, Json)>, n: nat)
    requires
        n <= members.len(),
    ensures
        pairs_doc(members, n).len() == n,
        forall|i: int|
            0 <= i < n ==> (#[trigger] pairs_doc(members, n)[i]) == (
                members[i].0@,
                members[i].1.doc(),
            ),
    decreases n,
{
    if n > 0 {
        lemma_pairs_doc(members, (n - 1) as nat);
    }
}

/// Members that agree in name and content, one by one, make the same object.
pub proof fn lemma_members_doc_ext(a: Seq<(String, Json)>, b: Seq<(String, Json)>)
    requires
        a.len() == b.len(),
        forall|i: int| 0 <= i < a.len() ==> a[i].0@ == b[i].0@ && a[i].1.doc() == b[i].1.doc(),
    ensures
        members_doc(a) == members_doc(b),
{
    lemma_pairs_doc(a, a.len());
    lemma_pairs_doc(b, b.len());
    assert(pairs_doc(a, a.len()) =~= pairs_doc(b, b.len()));
}

/// A text where there is one, `null` where there is none.
pub open spec fn optional(text: Option<String>) -> Doc {
    match text {
        Some(t) => Doc::Text(t@),
        None => Doc::Null,
    }
}

/// A number where there is a literal, `null` where there is none.
pub open spec fn optional_number(literal: Option<String>) -> Doc {
    match literal {
        Some(l) => Doc::Number(l@),
        None => Doc::Null,
    }
}

/// A list without members, to be filled.
pub fn no_members() -> (members: Vec<(String, Json)>)
    ensures
        members_doc(members@) == Map::<Seq<char>, Doc>::empty(),
{
    let members: Vec<(String, Json)> = Vec::new();
    members
}

/// The member named `key`, where the list has one.
pub fn get_member<'a>(members: &'a Vec<(String, Json)>, key: &str) -> (found: Option<&'a Json>)
    ensures
        found is Some <==> members_doc(members@).dom().contains(key@),
        found matches Some(value) ==> value@ == members_doc(members@)[key@],
{
    let ghost pairs = pairs_doc(members@, members@.len());
    proof {
        lemma_pairs_doc(members@, members@.len());
    }
    match find_last(members, key) {
        Some(i) => {
            proof {
                lemma_found(pairs, keys_of(members@), key@, i as int);
            }
            Some(&members[i].1)
        },
        None => {
            proof {
                lemma_not_found(pairs, keys_of(members@), key@);
            }
            None
        },
    }
}

/// Sets the member named `key` to `value`: in place where the list names the
/// key already, at the end where it does not.
pub fn set_member(members: &mut Vec<(String, Json)>, key: &str, value: Json)
    ensures
        members_doc(final(members)@) == members_doc(old(members)@).insert(key@, value@),
{
    let ghost before = members@;
    let ghost pairs = pairs_doc(before, before.len());
    proof {
        lemma_pairs_doc(before, before.len());
    }
    match find_last(members, key) {
        Some(i) => {
            members[i] = (key.to_owned(), value);
            proof {
                lemma_replaced(pairs, keys_of(before), key@, i as int, value@);
                lemma_pairs_doc(members@, members@.len());
                assert(pairs_doc(members@, members@.len()) =~= pairs.update(
                    i as int,
                    (key@, value@),
                ));
            }
        },
        None => {
            members.push((key.to_owned(), value));
            proof {
                lemma_map_of_push(pairs, key@, value@);
                lemma_pairs_doc(members@, members@.len());
                assert(pairs_doc(members@, members@.len()) =~= pairs.push((key@, value@)));
            }
        },
    }
}

impl Json {
    /// A text.
    pub fn text(text: &str) -> (json: Json)
        ensures
            json@ == Doc::Text(text@),
    {
        Json::Text(text.to_owned())
    }

    /// A whole number.
    pub fn integer(n: i64) -> (json: Json)
        ensures
            json@ == Doc::Number(decimal(n as int)),
    {
        Json::Number(i64_text(n))
    }

    /// A text where there is one, `null` where there is none.
    pub fn optional_text(text: &Option<String>) -> (json: Json)
        ensures
            json@ == optional(*text),
    {
        match text {
            Some(t) => Json::Text(t.clone()),
            None => Json::Null,
        }
    }

    /// A number where there is a literal, `null` where there is none.
    pub fn optional_number(literal: &Option<String>) -> (json: Json)
        ensures
            json@ == optional_number(*literal),
    {
        match literal {
            Some(l) => Json::Number(l.clone()),
            None => Json::Null,
        }
    }

    /// Whether the document is an object.
    pub fn is_object(&self) -> (r: bool)
        ensures
            r == (self@ is Object),
    {
        match self {
            Json::Object(_) => true,
            _ => false,
        }
    }

    /// The member of an object under `key`.
    pub fn member<'a>(&'a self, key: &str) -> (found: Option<&'a Json>)
        ensures
            match found {
                Some(value) => self@.member(key@) == Some(value@),
                None => self@.member(key@) is None,
            },
    {
        match self {
            Json::Object(members) => get_member(members, key),
            _ => None,
        }
    }

    /// The text that the document is, where it is one.
    pub fn as_text<'a>(&'a self) -> (found: Option<&'a String>)
        ensures
            match found {
                Some(text) => self@ == Doc::Text(text@),
                None => !(self@ is Text),
            },
    {
        match self {
            Json::Text(text) => Some(text),
            _ => None,
        }
    }

    /// A copy of the document.
    pub fn duplicate(&self) -> (copy: Json)
        ensures
            copy@ == self@,
        decreases self,
    {
        match self {
            Json::Null => Json::Null,
            Json::Bool(b) => Json::Bool(*b),
            Json::Number(literal) => Json::Number(literal.clone()),
            Json::Text(text) => Json::Text(text.clone()),
            Json::Array(items) => {
                let mut copies: Vec<Json> = Vec::new();
                let mut i: usize = 0;
                while i < items.len()
                    invariant
                        i <= items@.len(),
                        copies@.len() == i,
                        *self == Json::Array(*items),
                        forall|k: int| 0 <= k < i ==> (#[trigger] copies@[k]).doc() == items@[k].doc(),
                    decreases items@.len() - i,
                {
                    proof {
                        assert(decreases_to!(*self => self->Array_0));
                        assert(decreases_to!(*items => items[i as int]));
                    }
                    let copy = items[i].duplicate();
                    copies.push(copy);
                    i = i + 1;
                }
                proof {
                    lemma_items_doc(items@, items@.len());
                    lemma_items_doc(copies@, copies@.len());
                    assert(items_doc(copies@, copies@.len()) =~= items_doc(items@, items@.len()));
                }
                Json::Array(copies)
            },
            Json::Object(members) => {
                let mut copies: Vec<(String, Json)> = Vec::new();
                let mut i: usize = 0;
                while i < members.len()
                    invariant
                        i <= members@.len(),
                        copies@.len() == i,
                        *self == Json::Object(*members),
                        forall|k: int|
                            0 <= k < i ==> (#[trigger] copies@[k]).0@ == members@[k].0@
                                && copies@[k].1.doc() == members@[k].1.doc(),
                    decreases members@.len() - i,
                {
                    proof {
                        assert(decreases_to!(*self => self->Object_0));
                        assert(decreases_to!(*members => members[i as int]));
                        assert(decreases_to!(members[i as int] => members[i as int].1));
                    }
                    let copy = members[i].1.duplicate();
                    copies.push((members[i].0.clone(), copy));
                    i = i + 1;
                }
                proof {
                    lemma_members_doc_ext(copies@, members@);
                }
                Json::Object(copies)
            },
        }
    }
}

/// `serde_json::Value`, as what `serde_json` hands out. Nothing is known of
/// what is inside but through [`content`].
#[verifier::external_type_specification]
#[verifier::external_body]
pub struct ExValue(serde_json::Value);

/// `serde_json::Error`, as what `serde_json` fails with. Nothing is known of
/// what is inside.
#[verifier::external_type_specification]
#[verifier::external_body]
pub struct ExError(serde_json::Error);

/// What `serde_json` reads from a text: the content of the document that the
/// text writes, or nothing where it writes none.
pub uninterp spec fn parsed(text: Seq<char>) -> Option<Doc>;

/// What a `serde_json::Value` holds: the document that it stands for, with
/// every number as the literal that `serde_json` prints for it.
pub uninterp spec fn content(value: serde_json::Value) -> Doc;

/// One level of a `serde_json::Value`: its variant, with what the variant
/// holds.
enum Level<'a> {
    Null,
    Bool(bool),
    Number(String),
    Text(&'a String),
    Array(&'a Vec<serde_json::Value>),
    Object(Vec<(&'a String, &'a serde_json::Value)>),
}

/// The contents of a list of values.
spec fn contents(values: Seq<serde_json::Value>) -> Seq<Doc> {
    Seq::new(values.len(), |i: int| content(values[i]))
}

/// The names and contents of a list of entries.
spec fn entry_pairs(entries: Seq<(&String, &serde_json::Value)>) -> Seq<(Seq<char>, Doc)> {
    Seq::new(entries.len(), |i: int| (entries[i].0@, content(*entries[i].1)))
}

/// No two entries have the same name.
spec fn distinct_names(entries: Seq<(&String, &serde_json::Value)>) -> bool {
    forall|i: int, j: int|
        0 <= i < j < entries.len() ==> (#[trigger] entries[i]).0@ != (#[trigger] entries[j]).0@
}

impl<'a> Level<'a> {
    /// The content that a level stands for.
    spec fn doc(self) -> Doc {
        match self {
            Level::Null => Doc::Null,
            Level::Bool(b) => Doc::Bool(b),
            Level::Number(literal) => Doc::Number(literal@),
            Level::Text(text) => Doc::Text(text@),
            Level::Array(items) => Doc::Array(contents(items@)),
            Level::Object(entries) => Doc::Object(map_of(entry_pairs(entries@))),
        }
    }
}

/// Tells the variants of a `serde_json::Value` apart and hands out what the
/// variant holds: a number as the literal that `serde_json` prints for it
/// (`Number`'s `Display`), an array as its items, an object as the entries of
/// its map, which holds no name twice.
#[verifier::external_body]
fn level_of<'a>(value: &'a serde_json::Value) -> (level: Level<'a>)
    ensures
        level.doc() == content(*value),
        level matches Level::Object(entries) ==> distinct_names(entries@),
{
    match value {
        serde_json::Value::Null => Level::Null,
        serde_json::Value::Bool(b) => Level::Bool(*b),
        serde_json::Value::Number(n) => Level::Number(n.to_string()),
        serde_json::Value::String(s) => Level::Text(s),
        serde_json::Value::Array(a) => Level::Array(a),
        serde_json::Value::Object(m) => Level::Object(m.iter().collect()),
    }
}

/// `serde_json::from_str`, asked for a `serde_json::Value`. It succeeds on the
/// texts that `serde_json` takes for one JSON document, and what it returns
/// depends on the text alone: the content of that value is named [`parsed`].
#[verifier::external_body]
fn parse_value(text: &str) -> (r: Result<serde_json::Value, serde_json::Error>)
    ensures
        r is Ok <==> parsed(text@) is Some,
        r matches Ok(value) ==> parsed(text@) == Some(content(value)),
{
    serde_json::from_str::<serde_json::Value>(text)
}

/// Copies a `serde_json::Value` into a document of the library's own.
fn from_value(value: &serde_json::Value) -> (json: Json)
    ensures
        json@ == content(*value),
    decreases content(*value),
{
    match level_of(value) {
        Level::Null => Json::Null,
        Level::Bool(b) => Json::Bool(b),
        Level::Number(literal) => Json::Number(literal),
        Level::Text(text) => Json::Text(text.clone()),
        Level::Array(items) => {
            let mut copies: Vec<Json> = Vec::new();
            let mut i: usize = 0;
            while i < items.len()
                invariant
                    i <= items@.len(),
                    copies@.len() == i,
                    content(*value) == Doc::Array(contents(items@)),
                    forall|k: int| 0 <= k < i ==> (#[trigger] copies@[k]).doc() == content(items@[k]),
                decreases items@.len() - i,
            {
                proof {
                    let whole = content(*value);
                    assert(decreases_to!(whole => whole->Array_0));
                    assert(decreases_to!(whole->Array_0 => whole->Array_0[i as int]));
                }
                let copy = from_value(&items[i]);
                copies.push(copy);
                i = i + 1;
            }
            proof {
                lemma_items_doc(copies@, copies@.len());
                assert(items_doc(copies@, copies@.len()) =~= contents(items@));
            }
            Json::Array(copies)
        },
        Level::Object(entries) => {
            let mut copies: Vec<(String, Json)> = Vec::new();
            let ghost pairs = entry_pairs(entries@);
            let mut i: usize = 0;
            while i < entries.len()
                invariant
                    i <= entries@.len(),
                    copies@.len() == i,
                    pairs == entry_pairs(entries@),
                    distinct_names(entries@),
                    content(*value) == Doc::Object(map_of(pairs)),
                    forall|k: int|
                        0 <= k < i ==> (#[trigger] copies@[k]).0@ == entries@[k].0@
                            && copies@[k].1.doc() == content(*entries@[k].1),
                decreases entries@.len() - i,
            {
                proof {
                    let whole = content(*value);
                    lemma_map_of_last(pairs, i as int);
                    lemma_map_of_finite(pairs);
                    assert(decreases_to!(whole => whole->Object_0));
                    assert(decreases_to!(whole->Object_0 => whole->Object_0[pairs[i as int].0]));
                }
                let copy = from_value(entries[i].1);
                copies.push((entries[i].0.clone(), copy));
                i = i + 1;
            }
            proof {
                lemma_pairs_doc(copies@, copies@.len());
                assert(pairs_doc(copies@, copies@.len()) =~= pairs);
            }
            Json::Object(copies)
        },
    }
}

/// Reads a JSON document from text.
pub fn parse(text: &str) -> (r: Option<Json>)
    ensures
        match r {
            Some(json) => parsed(text@) == Some(json@),
            None => parsed(text@) is None,
        },
{
    match parse_value(text) {
        Ok(value) => Some(from_value(&value)),
        Err(_) => None,
    }
}

} // verus!
