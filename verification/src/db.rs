//! The settings table: the configuration records as they lie on the medium,
//! and the protocol that opens them.
//!
//! The table is meant to hold exactly one record. A table without a record is
//! one that was never opened; a table with several is corrupted, and nothing
//! here repairs it.

use crate::assoc::{
    find_last, keys_of, lemma_found, lemma_map_of_push, lemma_not_found, lemma_replaced, map_of,
};
use crate::json::{lemma_pairs_doc, members_doc, pairs_doc, parse, parsed, set_member, Doc, Json};
use vstd::prelude::*;

verus! {

/// What a configuration record says: a value for each key that was set.
pub type Settings = Map<Seq<char>, Seq<char>>;

/// One configuration record: the endpoint, the credential, and whatever other
/// keys were set, as named texts.
#[derive(Debug, Clone, PartialEq, Eq)]
pub struct ConfigRecord {
    /// The RPC endpoint; empty where the default is to be used.
    pub api_url: String,
    /// The credential; empty where nobody has logged in.
    pub password: String,
    /// Keys beyond the two above. Where a key is listed twice, the later entry
    /// counts; an entry named like one of the two fields above does not count.
    pub extra: Vec<(String, String)>,
}

/// Why the settings could not be read or written.
#[derive(Debug, PartialEq, Eq)]
pub enum SettingsError {
    /// The medium could not be created, opened or written.
    Storage(String),
    /// The table holds more than one configuration record.
    Corruption,
}

/// The settings table as it lies on the medium.
#[derive(Debug, Clone, PartialEq, Eq)]
pub struct Store {
    pub records: Vec<ConfigRecord>,
}

/// Where the settings are kept, below the user's data directory.
#[derive(Debug, PartialEq, Eq)]
pub struct StorePath {
    /// The user's data directory.
    pub data_dir: String,
    /// The application's folder in it, made on first use.
    pub folder: String,
    /// The database file in that folder.
    pub file: String,
}

/// The pairs that a list of extra keys stands for.
pub open spec fn extra_pairs(extra: Seq<(String, String)>) -> Seq<(Seq<char>, Seq<char>)> {
    Seq::new(extra.len(), |i: int| (extra[i].0@, extra[i].1@))
}

/// The record that is made on first use: neither endpoint nor credential.
pub open spec fn empty_settings() -> Settings {
    Map::empty().insert("api_url"@, Seq::empty()).insert("password"@, Seq::empty())
}

/// The value that a record has for a key: the empty text where none was set.
pub open spec fn value_of(settings: Settings, key: Seq<char>) -> Seq<char> {
    if settings.dom().contains(key) {
        settings[key]
    } else {
        Seq::empty()
    }
}

/// The table after it has been opened: a first record is made where there was
/// none, and a table with several records cannot be opened.
pub open spec fn initialized(records: Seq<Settings>) -> Option<Seq<Settings>> {
    if records.len() == 0 {
        Some(seq![empty_settings()])
    } else if records.len() == 1 {
        Some(records)
    } else {
        None
    }
}

/// The value that a table has for a key: that of its first record.
pub open spec fn read(records: Seq<Settings>, key: Seq<char>) -> Seq<char> {
    if records.len() == 0 {
        Seq::empty()
    } else {
        value_of(records[0], key)
    }
}

/// The table after a key was set: every record has the new value.
pub open spec fn written(records: Seq<Settings>, key: Seq<char>, value: Seq<char>) -> Seq<
    Settings,
> {
    Seq::new(records.len(), |i: int| records[i].insert(key, value))
}

impl View for ConfigRecord {
    type V = Settings;

    open spec fn view(&self) -> Settings {
        map_of(extra_pairs(self.extra@)).insert("api_url"@, self.api_url@).insert(
            "password"@,
            self.password@,
        )
    }
}

impl View for Store {
    type V = Seq<Settings>;

    open spec fn view(&self) -> Seq<Settings> {
        Seq::new(self.records@.len(), |i: int| self.records@[i]@)
    }
}

/// The two named keys are different texts.
pub proof fn lemma_named_keys()
    ensures
        "api_url"@ != "password"@,
        "api_url"@.len() == 7,
        "password"@.len() == 8,
{
    reveal_strlit("api_url");
    reveal_strlit("password");
    assert("password"@.len() == 8);
}

fn is_key(name: &str, key: &str) -> (r: bool)
    ensures
        r == (name@ == key@),
{
    name.to_owned() == key.to_owned()
}

impl ConfigRecord {
    /// The record that is made on first use.
    pub fn new() -> (record: ConfigRecord)
        ensures
            record@ == empty_settings(),
    {
        let record = ConfigRecord { api_url: String::new(), password: String::new(), extra: Vec::new() };
        record
    }

    /// The value under `name`; the empty text where none was set.
    pub fn get(&self, name: &str) -> (value: String)
        ensures
            value@ == value_of(self@, name@),
    {
        proof {
            lemma_named_keys();
        }
        if is_key(name, "api_url") {
            self.api_url.clone()
        } else if is_key(name, "password") {
            self.password.clone()
        } else {
            let ghost pairs = extra_pairs(self.extra@);
            match find_last(&self.extra, name) {
                Some(i) => {
                    proof {
                        lemma_found(pairs, keys_of(self.extra@), name@, i as int);
                    }
                    self.extra[i].1.clone()
                },
                None => {
                    proof {
                        lemma_not_found(pairs, keys_of(self.extra@), name@);
                    }
                    String::new()
                },
            }
        }
    }

    /// Sets the value under `name`, and leaves every other key as it was.
    pub fn set(&mut self, name: &str, value: &str)
        ensures
            final(self)@ == old(self)@.insert(name@, value@),
    {
        proof {
            lemma_named_keys();
        }
        if is_key(name, "api_url") {
            self.api_url = value.to_owned();
        } else if is_key(name, "password") {
            self.password = value.to_owned();
        } else {
            let ghost before = self.extra@;
            let ghost pairs = extra_pairs(before);
            match find_last(&self.extra, name) {
                Some(i) => {
                    self.extra[i] = (name.to_owned(), value.to_owned());
                    proof {
                        lemma_replaced(pairs, keys_of(before), name@, i as int, value@);
                        assert(extra_pairs(self.extra@) =~= pairs.update(
                            i as int,
                            (name@, value@),
                        ));
                    }
                },
                None => {
                    self.extra.push((name.to_owned(), value.to_owned()));
                    proof {
                        lemma_map_of_push(pairs, name@, value@);
                        assert(extra_pairs(self.extra@) =~= pairs.push((name@, value@)));
                    }
                },
            }
        }
    }
}

impl SettingsError {
    /// The diagnostic shown to the user.
    pub fn message(&self) -> (text: String)
        ensures
            text@ == match *self {
                SettingsError::Storage(detail) => detail@,
                SettingsError::Corruption => "settings database has been corrupted"@,
            },
    {
        match self {
            SettingsError::Storage(detail) => detail.clone(),
            SettingsError::Corruption => "settings database has been corrupted".to_owned(),
        }
    }
}

/// Names the place of the settings below the user's data directory. Without
/// such a directory there is no place for them.
pub fn path(data_dir: Option<String>) -> (r: Result<StorePath, SettingsError>)
    ensures
        match data_dir {
            Some(dir) => r matches Ok(place) && place.data_dir@ == dir@ && place.folder@
                == "btcmap-cli"@ && place.file@ == "btcmap-cli.db"@,
            None => r matches Err(SettingsError::Storage(detail)) && detail@
                == "failed to locate system app data directory"@,
        },
{
    match data_dir {
        Some(dir) => Ok(
            StorePath {
                data_dir: dir,
                folder: "btcmap-cli".to_owned(),
                file: "btcmap-cli.db".to_owned(),
            },
        ),
        None => Err(
            SettingsError::Storage("failed to locate system app data directory".to_owned()),
        ),
    }
}

/// Opens the table: makes the first record where there is none, and refuses a
/// table with more than one.
pub fn init(store: &mut Store) -> (r: Result<(), SettingsError>)
    ensures
        match initialized(old(store)@) {
            Some(records) => r is Ok && final(store)@ == records,
            None => r == Err::<(), SettingsError>(SettingsError::Corruption) && final(store)@ == old(
                store,
            )@,
        },
{
    let rows = store.records.len();
    if rows == 0 {
        store.records.push(ConfigRecord::new());
    }
    if rows > 1 {
        return Err(SettingsError::Corruption);
    }
    Ok(())
}

/// Takes what the medium gave, its records or the reason why it gave none,
/// and opens the table.
pub fn connect(medium: Result<Vec<ConfigRecord>, String>) -> (r: Result<Store, SettingsError>)
    ensures
        match medium {
            Ok(records) => match initialized((Store { records })@) {
                Some(opened) => r matches Ok(store) && store@ == opened,
                None => r == Err::<Store, SettingsError>(SettingsError::Corruption),
            },
            Err(detail) => r matches Err(SettingsError::Storage(d)) && d@ == detail@,
        },
{
    match medium {
        Ok(records) => {
            let mut store = Store { records };
            match init(&mut store) {
                Ok(()) => Ok(store),
                Err(e) => Err(e),
            }
        },
        Err(detail) => Err(SettingsError::Storage(detail)),
    }
}

/// The value under `name` in the table's first record; the empty text where
/// the key was never set or the table has no record.
pub fn query_settings_string(name: &str, store: &Store) -> (value: String)
    ensures
        value@ == read(store@, name@),
{
    if store.records.len() == 0 {
        String::new()
    } else {
        store.records[0].get(name)
    }
}

/// Sets the value under `name` in every record of the table.
pub fn insert_settings_string(name: &str, value: &str, store: &mut Store)
    ensures
        final(store)@ == written(old(store)@, name@, value@),
{
    let mut i: usize = 0;
    while i < store.records.len()
        invariant
            i <= store.records@.len(),
            store.records@.len() == old(store).records@.len(),
            forall|k: int| 0 <= k < i ==> (#[trigger] store.records@[k])@ == old(store).records@[k]@.insert(name@, value@),
            forall|k: int| i <= k < store.records@.len() ==> (#[trigger] store.records@[k]) == old(store).records@[k],
        decreases store.records@.len() - i,
    {
        store.records[i].set(name, value);
        i = i + 1;
    }
}

/// The text that a document has under a key: the empty text where the
/// document is no object, has no such member, or has one that is no text.
pub open spec fn text_member(doc: Doc, key: Seq<char>) -> Seq<char> {
    match doc.member(key) {
        Some(Doc::Text(text)) => text,
        _ => Seq::empty(),
    }
}

/// The members of the object that a row holds for a record: a text for every
/// key.
pub open spec fn texts(settings: Settings) -> Map<Seq<char>, Doc> {
    Map::new(
        |key: Seq<char>| settings.dom().contains(key),
        |key: Seq<char>| Doc::Text(settings[key]),
    )
}

/// Whether a record reads, for every key, the text that a document has under
/// it.
pub open spec fn reads_as(settings: Settings, doc: Doc) -> bool {
    forall|key: Seq<char>| value_of(settings, key) == text_member(doc, key)
}

/// Whether every row holds a JSON document.
pub open spec fn rows_readable(rows: Seq<String>) -> bool {
    forall|i: int| 0 <= i < rows.len() ==> parsed(#[trigger] rows[i]@) is Some
}

impl ConfigRecord {
    /// Reads a record from the document that a row holds. The record has, for
    /// every key, the text that the document has under it.
    pub fn from_document(document: &Json) -> (record: ConfigRecord)
        ensures
            reads_as(record@, document@),
    {
        let mut record = ConfigRecord::new();
        proof {
            lemma_named_keys();
        }
        match document {
            Json::Object(members) => {
                let ghost pairs = pairs_doc(members@, members@.len());
                proof {
                    lemma_pairs_doc(members@, members@.len());
                }
                let mut i: usize = 0;
                while i < members.len()
                    invariant
                        i <= members@.len(),
                        pairs.len() == members@.len(),
                        forall|k: int|
                            0 <= k < pairs.len() ==> (#[trigger] pairs[k]) == (
                                members@[k].0@,
                                members@[k].1.doc(),
                            ),
                        forall|key: Seq<char>|
                            value_of(record@, key) == text_member(
                                Doc::Object(map_of(pairs.subrange(0, i as int))),
                                key,
                            ),
                    decreases members@.len() - i,
                {
                    let ghost seen = pairs.subrange(0, i as int);
                    let ghost next = pairs.subrange(0, i + 1);
                    let ghost before = record@;
                    proof {
                        assert(next.drop_last() =~= seen);
                    }
                    match &members[i].1 {
                        Json::Text(text) => {
                            record.set(members[i].0.as_str(), text.as_str());
                        },
                        _ => {
                            proof {
                                reveal_strlit("");
                            }
                            record.set(members[i].0.as_str(), "");
                        },
                    }
                    i = i + 1;
                    assert forall|key: Seq<char>|
                        value_of(record@, key) == text_member(
                            Doc::Object(map_of(next)),
                            key,
                        ) by {
                        assert(value_of(before, key) == text_member(
                            Doc::Object(map_of(seen)),
                            key,
                        ));
                    }
                }
                proof {
                    assert(pairs.subrange(0, i as int) =~= pairs);
                }
            },
            _ => {},
        }
        record
    }

    /// The document that a row holds for the record: an object with a text
    /// for every key of the record.
    pub fn to_document(&self) -> (document: Json)
        ensures
            document@ == Doc::Object(texts(self@)),
    {
        let mut members: Vec<(String, Json)> = Vec::new();
        let ghost pairs = extra_pairs(self.extra@);
        let mut i: usize = 0;
        while i < self.extra.len()
            invariant
                i <= self.extra@.len(),
                pairs == extra_pairs(self.extra@),
                members_doc(members@) == texts(map_of(pairs.subrange(0, i as int))),
            decreases self.extra@.len() - i,
        {
            let ghost seen = pairs.subrange(0, i as int);
            let ghost next = pairs.subrange(0, i + 1);
            proof {
                assert(next.drop_last() =~= seen);
            }
            set_member(&mut members, self.extra[i].0.as_str(), Json::Text(self.extra[i].1.clone()));
            i = i + 1;
        }
        proof {
            assert(pairs.subrange(0, i as int) =~= pairs);
        }
        set_member(&mut members, "api_url", Json::Text(self.api_url.clone()));
        set_member(&mut members, "password", Json::Text(self.password.clone()));
        assert(members_doc(members@) =~= texts(self@));
        Json::Object(members)
    }
}

/// What is written for a record reads as the record: for every key, the
/// document of a record has the record's value as its text.
pub proof fn law_document_reads_as_record(settings: Settings)
    ensures
        reads_as(settings, Doc::Object(texts(settings))),
{
}

/// Reads the records from the rows of the table, each row the text of a JSON
/// document. A row that holds no document makes the medium unusable.
pub fn records_of(rows: &Vec<String>) -> (r: Result<Vec<ConfigRecord>, SettingsError>)
    ensures
        match r {
            Ok(records) => {
                &&& rows_readable(rows@)
                &&& records@.len() == rows@.len()
                &&& forall|i: int|
                    0 <= i < rows@.len() ==> reads_as(
                        #[trigger] records@[i]@,
                        parsed(rows@[i]@)->0,
                    )
            },
            Err(e) => {
                &&& !rows_readable(rows@)
                &&& e matches SettingsError::Storage(detail)
                &&& detail@ == "malformed settings record"@
            },
        },
{
    let mut records: Vec<ConfigRecord> = Vec::new();
    let mut i: usize = 0;
    while i < rows.len()
        invariant
            i <= rows@.len(),
            records@.len() == i,
            forall|k: int| 0 <= k < i ==> parsed(#[trigger] rows@[k]@) is Some,
            forall|k: int|
                0 <= k < i ==> reads_as(#[trigger] records@[k]@, parsed(rows@[k]@)->0),
        decreases rows@.len() - i,
    {
        match parse(rows[i].as_str()) {
            Some(document) => {
                records.push(ConfigRecord::from_document(&document));
            },
            None => {
                return Err(SettingsError::Storage("malformed settings record".to_owned()));
            },
        }
        i = i + 1;
    }
    Ok(records)
}

} // verus!
