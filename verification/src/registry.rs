//! The tool-server registry on disk: adding the built-in entry to an
//! existing registry, idempotently.
//!
//! The registry is JSON and is read and rewritten through serde_json,
//! behind trusted declarations. Parsing and serializing are functions
//! of the text alone, so their results carry names; the decision —
//! rewrite exactly when the reserved name is absent — is verified over
//! those names.

use vstd::prelude::*;

use crate::config::{server_entry, server_entry_spec};
use crate::text::str_eq;

verus! {

/// The names of the server entries a registry text holds: the key set
/// of the `mcpServers` object member of the JSON object the text
/// denotes; nothing when the text is not a JSON object with an object
/// under that member. A function of the text alone.
pub uninterp spec fn registry_server_names(text: Seq<char>) -> Option<Set<Seq<char>>>;

/// Whether a text denotes one JSON value. A function of the text
/// alone.
pub uninterp spec fn is_json_value(text: Seq<char>) -> bool;

/// A registry text re-serialized with the value `entry` denotes added
/// to its `mcpServers` member under `name`. A function of the three
/// texts alone.
pub uninterp spec fn registry_with_entry(
    text: Seq<char>,
    name: Seq<char>,
    entry: Seq<char>,
) -> Seq<char>;

/// Relies on `serde_json::from_str`, `Value::get` and
/// `Value::as_object`: the names of the server entries the registry
/// text holds, or nothing when it holds no server object.
#[verifier::external_body]
fn read_server_names(text: &str) -> (r: Option<Vec<String>>)
    ensures
        match r {
            Some(names) => registry_server_names(text@) == Some(names.deep_view().to_set()),
            None => registry_server_names(text@) is None,
        },
{
    let root: serde_json::Value = serde_json::from_str(text).ok()?;
    let servers = root.get("mcpServers")?.as_object()?;
    Some(servers.keys().cloned().collect())
}

/// Relies on `serde_json::from_str`: whether the text denotes one JSON
/// value.
#[verifier::external_body]
fn check_json_value(text: &str) -> (r: bool)
    ensures
        r == is_json_value(text@),
{
    serde_json::from_str::<serde_json::Value>(text).is_ok()
}

/// Relies on `serde_json::from_str`, `Value::get_mut`,
/// `Value::as_object_mut`, `Map::insert` and `serde_json::to_string`:
/// the registry text with `entry`'s value put under `name` among the
/// servers. It succeeds exactly when the text holds a server object
/// and `entry` denotes a JSON value: serializing the rewritten
/// document, whose keys are strings throughout, cannot fail.
#[verifier::external_body]
fn write_server_entry(text: &str, name: &str, entry: &str) -> (r: Option<String>)
    ensures
        r is Some <==> (registry_server_names(text@) is Some && is_json_value(entry@)),
        r matches Some(t) ==> t@ == registry_with_entry(text@, name@, entry@),
{
    let mut root: serde_json::Value = serde_json::from_str(text).ok()?;
    let value: serde_json::Value = serde_json::from_str(entry).ok()?;
    root.get_mut("mcpServers")?.as_object_mut()?.insert(name.to_owned(), value);
    serde_json::to_string(&root).ok()
}

/// Whether one of the names reads as `key`.
fn names_contain(names: &Vec<String>, key: &str) -> (r: bool)
    ensures
        r == names.deep_view().to_set().contains(key@),
{
    let mut i: usize = 0;
    while i < names.len()
        invariant
            i <= names.len(),
            forall|j: int| 0 <= j < i ==> names.deep_view()[j] != key@,
        decreases names.len() - i,
    {
        if str_eq(names[i].as_str(), key) {
            assert(names.deep_view()[i as int] == key@);
            assert(names.deep_view().contains(key@));
            return true;
        }
        i += 1;
    }
    assert(!names.deep_view().contains(key@));
    false
}

/// Bring an existing registry text up to date: when it holds a server
/// object that lacks `name`, the entry for `command` is added under
/// `name` and the rewritten text is returned; in every other case —
/// text without a server object, or the name already present — nothing
/// is returned and the file is to be left untouched.
pub fn ensure_default_server(text: &str, name: &str, command: &str) -> (r: Option<String>)
    ensures
        r is Some <==> (registry_server_names(text@) matches Some(ks) && !ks.contains(name@)
            && is_json_value(server_entry_spec(command@))),
        r matches Some(t) ==> t@ == registry_with_entry(
            text@,
            name@,
            server_entry_spec(command@),
        ),
{
    let names = match read_server_names(text) {
        Some(v) => v,
        None => {
            return None;
        },
    };
    if names_contain(&names, name) {
        return None;
    }
    let entry = server_entry(command);
    if !check_json_value(entry.as_str()) {
        return None;
    }
    write_server_entry(text, name, entry.as_str())
}

} // verus!
