//! Reading and writing single settings. Every access opens the table first.

use crate::db::{
    init, initialized, insert_settings_string, lemma_named_keys, query_settings_string, read,
    written, Settings, SettingsError, Store,
};
use vstd::prelude::*;

verus! {

/// Sets `name` to `value`. The table is opened first; a corrupted table is
/// left as it is.
pub fn put_str(name: &str, value: &str, store: &mut Store) -> (r: Result<(), SettingsError>)
    ensures
        match initialized(old(store)@) {
            Some(records) => r is Ok && final(store)@ == written(records, name@, value@),
            None => r == Err::<(), SettingsError>(SettingsError::Corruption) && final(store)@ == old(
                store,
            )@,
        },
{
    match init(store) {
        Ok(()) => {
            insert_settings_string(name, value, store);
            Ok(())
        },
        Err(e) => Err(e),
    }
}

/// The value of `name`: the empty text where it was never set. The table is
/// opened first, which makes its first record where there was none; a
/// corrupted table is left as it is.
pub fn get_str(name: &str, store: &mut Store) -> (r: Result<String, SettingsError>)
    ensures
        match initialized(old(store)@) {
            Some(records) => {
                &&& final(store)@ == records
                &&& r matches Ok(value)
                &&& value@ == read(records, name@)
            },
            None => r == Err::<String, SettingsError>(SettingsError::Corruption) && final(store)@
                == old(store)@,
        },
{
    match init(store) {
        Ok(()) => Ok(query_settings_string(name, store)),
        Err(e) => Err(e),
    }
}

/// A table that was never opened can be opened, and then has the empty text
/// for every key: reading from a fresh store gives the empty text and no
/// error.
pub proof fn law_fresh_store_reads_empty(key: Seq<char>)
    ensures
        initialized(Seq::<Settings>::empty()) matches Some(records) && read(records, key)
            == Seq::<char>::empty(),
{
    lemma_named_keys();
}

/// After a key was set in a table that could be opened, the table can still be
/// opened, opening changes nothing, and reading the key gives the value that
/// was set.
pub proof fn law_put_then_get(before: Seq<Settings>, key: Seq<char>, value: Seq<char>)
    requires
        initialized(before) is Some,
    ensures
        ({
            let after = written(initialized(before)->0, key, value);
            initialized(after) == Some(after) && read(after, key) == value
        }),
{
}

/// Setting a key twice to one value is the same as setting it once.
pub proof fn law_put_is_idempotent(before: Seq<Settings>, key: Seq<char>, value: Seq<char>)
    requires
        initialized(before) is Some,
    ensures
        ({
            let once = written(initialized(before)->0, key, value);
            initialized(once) == Some(once) && written(once, key, value) == once
        }),
{
    let once = written(initialized(before)->0, key, value);
    assert(once[0].insert(key, value) =~= once[0]);
}

/// Setting one key leaves every other key as it was.
pub proof fn law_put_keeps_other_keys(
    before: Seq<Settings>,
    key: Seq<char>,
    value: Seq<char>,
    other: Seq<char>,
)
    requires
        initialized(before) is Some,
        other != key,
    ensures
        ({
            let opened = initialized(before)->0;
            read(written(opened, key, value), other) == read(opened, other)
        }),
{
}

/// Opening a table leaves exactly one record, and opening it again changes
/// nothing: two runs never make a second record.
pub proof fn law_init_twice(before: Seq<Settings>)
    requires
        initialized(before) is Some,
    ensures
        ({
            let opened = initialized(before)->0;
            opened.len() == 1 && initialized(opened) == Some(opened)
        }),
{
}

/// A table that was opened and then given one more record cannot be opened
/// any more; setting keys in it does not mend it. So every later read and
/// write ends in `Corruption`.
pub proof fn law_duplicate_record_is_corruption(
    before: Seq<Settings>,
    duplicate: Settings,
    key: Seq<char>,
    value: Seq<char>,
)
    requires
        initialized(before) is Some,
    ensures
        ({
            let forced = (initialized(before)->0).push(duplicate);
            initialized(forced) is None && initialized(written(forced, key, value)) is None
        }),
{
}

} // verus!
