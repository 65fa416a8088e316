//! Environment settings as the container runtime reports them: one
//! `KEY=VALUE` text per variable, the value read as JSON.
//!
//! An entry that cannot be read is left out; it never makes the reading of
//! the others fail.

use crate::json::{decode, empty_object, json_decoded, json_entries, no_entries, object_insert};
use crate::text::{find_first, first_index_of, lemma_first_index_of_bounds};
use vstd::prelude::*;

verus! {

/// The key and the value text of an entry: what stands before its first `=`
/// and what stands after it. An entry without `=` has neither.
pub open spec fn entry_parts(raw: Seq<char>) -> Option<(Seq<char>, Seq<char>)> {
    let at = first_index_of(raw, '=');
    if at < raw.len() {
        Some((raw.take(at), raw.skip(at + 1)))
    } else {
        None
    }
}

/// What a key and the outcome of decoding its value text contribute: the
/// pair, unless the key is empty or the text did not decode.
pub open spec fn binding(key: Seq<char>, decoded: Option<serde_json::Value>) -> Option<
    (Seq<char>, serde_json::Value),
> {
    match decoded {
        Some(value) if key.len() > 0 => Some((key, value)),
        _ => None,
    }
}

/// What one entry contributes to the environment.
pub open spec fn entry_binding(raw: Seq<char>) -> Option<(Seq<char>, serde_json::Value)> {
    match entry_parts(raw) {
        Some((key, text)) => binding(key, json_decoded(text)),
        None => None,
    }
}

/// The environment that a list of entries describes: each entry that can be
/// read binds its key, a later one replacing an earlier one of the same key.
pub open spec fn env_of(entries: Seq<Seq<char>>) -> Map<Seq<char>, serde_json::Value>
    decreases entries.len(),
{
    if entries.len() == 0 {
        no_entries()
    } else {
        let before = env_of(entries.drop_last());
        match entry_binding(entries.last()) {
            Some((key, value)) => before.insert(key, value),
            None => before,
        }
    }
}

/// Splits an entry at its first `=`.
pub fn split_entry(raw: &str) -> (parts: Option<(String, String)>)
    ensures
        parts.deep_view() == entry_parts(raw@),
{
    let n: usize = raw.unicode_len();
    let at: usize = find_first(raw, '=');
    if at < n {
        let key = raw.substring_char(0, at).to_owned();
        let text = raw.substring_char(at + 1, n).to_owned();
        proof {
            assert(raw@.subrange(0, at as int) == raw@.take(at as int));
            assert(raw@.subrange(at + 1, n as int) == raw@.skip(at + 1));
        }
        Some((key, text))
    } else {
        None
    }
}

/// Pairs a key with its decoded value. An empty key, or a value text that
/// did not decode, gives nothing.
pub fn bind_entry(key: String, decoded: Option<serde_json::Value>) -> (bound: Option<
    (String, serde_json::Value),
>)
    ensures
        match bound {
            Some((k, v)) => binding(key@, decoded) == Some((k@, v)),
            None => binding(key@, decoded) is None,
        },
{
    match decoded {
        Some(value) => {
            if key.as_str().unicode_len() > 0 {
                Some((key, value))
            } else {
                None
            }
        },
        None => None,
    }
}

/// Reads one entry: splits it, decodes its value text and pairs the two.
pub fn read_entry(raw: &str) -> (bound: Option<(String, serde_json::Value)>)
    ensures
        match bound {
            Some((k, v)) => entry_binding(raw@) == Some((k@, v)),
            None => entry_binding(raw@) is None,
        },
{
    match split_entry(raw) {
        Some((key, text)) => {
            let decoded = decode(text.as_str());
            bind_entry(key, decoded)
        },
        None => None,
    }
}

/// Reads a list of entries into an environment.
pub fn parse_env(entries: &Vec<String>) -> (env: serde_json::Map<String, serde_json::Value>)
    ensures
        json_entries(env) == env_of(entries.deep_view()),
{
    let mut env = empty_object();
    let mut i: usize = 0;
    assert(entries.deep_view().take(0) =~= Seq::empty());
    while i < entries.len()
        invariant
            i <= entries.len(),
            json_entries(env) == env_of(entries.deep_view().take(i as int)),
        decreases entries.len() - i,
    {
        let bound = read_entry(entries[i].as_str());
        proof {
            let all = entries.deep_view();
            assert(all.take(i + 1).drop_last() =~= all.take(i as int));
            assert(all.take(i + 1).last() == entries[i as int]@);
        }
        match bound {
            Some((key, value)) => {
                object_insert(&mut env, key, value);
            },
            None => {},
        }
        i += 1;
    }
    assert(entries.deep_view().take(entries.len() as int) =~= entries.deep_view());
    env
}

/// An entry that cannot be read changes nothing.
pub proof fn lemma_unreadable_entry_is_dropped(entries: Seq<Seq<char>>, raw: Seq<char>)
    requires
        entry_binding(raw) is None,
    ensures
        env_of(entries.push(raw)) == env_of(entries),
{
    assert(entries.push(raw).drop_last() =~= entries);
}

/// An entry that can be read binds its key to its value and leaves every
/// other key as it was.
pub proof fn lemma_readable_entry_is_bound(entries: Seq<Seq<char>>, raw: Seq<char>)
    requires
        entry_binding(raw) is Some,
    ensures
        entry_binding(raw) matches Some((key, value)) && env_of(entries.push(raw)) == env_of(
            entries,
        ).insert(key, value),
{
    assert(entries.push(raw).drop_last() =~= entries);
}

/// An entry is read exactly when it has a `=` with a key before it and a
/// value text after it that decodes.
pub proof fn lemma_entry_binding(raw: Seq<char>)
    ensures
        entry_binding(raw) is Some <==> {
            let at = first_index_of(raw, '=');
            &&& 0 < at < raw.len()
            &&& json_decoded(raw.skip(at + 1)) is Some
        },
        entry_binding(raw) matches Some((key, value)) ==> {
            &&& key == raw.take(first_index_of(raw, '='))
            &&& Some(value) == json_decoded(raw.skip(first_index_of(raw, '=') + 1))
        },
{
    lemma_first_index_of_bounds(raw, '=');
}

/// Whether the entry can be read and has the given key.
pub open spec fn binds(raw: Seq<char>, key: Seq<char>) -> bool {
    entry_binding(raw) matches Some((bound, _)) && bound == key
}

/// The environment binds a key exactly if one of the entries can be read
/// and has that key.
pub proof fn lemma_env_keys(entries: Seq<Seq<char>>, key: Seq<char>)
    ensures
        env_of(entries).contains_key(key) <==> exists|i: int|
            0 <= i < entries.len() && binds(#[trigger] entries[i], key),
    decreases entries.len(),
{
    if entries.len() > 0 {
        let before = entries.drop_last();
        lemma_env_keys(before, key);
        if env_of(entries).contains_key(key) {
            if binds(entries.last(), key) {
                assert(binds(entries[entries.len() - 1], key));
            } else {
                assert(env_of(before).contains_key(key));
                let i = choose|i: int| 0 <= i < before.len() && binds(#[trigger] before[i], key);
                assert(binds(entries[i], key));
            }
        }
        if exists|i: int| 0 <= i < entries.len() && binds(#[trigger] entries[i], key) {
            let i = choose|i: int| 0 <= i < entries.len() && binds(#[trigger] entries[i], key);
            if i < entries.len() - 1 {
                assert(binds(before[i], key));
            }
        }
    }
}

} // verus!
