//! Reading the per-unit metadata descriptor and descriptor (reference
//! pointer) files, on top of the trusted INI boundary.

use vstd::prelude::*;

use crate::inidoc::{ini_get, ini_parse, lookup_spec};
use crate::strutil::{find_from, index_of_from, substring_owned};

verus! {

/// The `runtime` field of an application's metadata: the reference of the
/// runtime it requires, if the text parses and the field is present.
pub fn metadata_runtime(content: &str) -> (r: Option<String>)
    ensures
        r is Some <==> lookup_spec(content@, "Application"@, "runtime"@) is Some,
        r matches Some(v) ==> v@ == lookup_spec(content@, "Application"@, "runtime"@)->Some_0,
{
    crate::inidoc::lookup(content, "Application", "runtime")
}

/// The `command` field of an application's metadata: its default executable.
pub fn metadata_command(content: &str) -> (r: Option<String>)
    ensures
        r is Some <==> lookup_spec(content@, "Application"@, "command"@) is Some,
        r matches Some(v) ==> v@ == lookup_spec(content@, "Application"@, "command"@)->Some_0,
{
    crate::inidoc::lookup(content, "Application", "command")
}

/// Fields read from a descriptor file: `Name` and `Url` are required,
/// `Branch` is optional.
pub struct DescriptorFields {
    pub name: String,
    pub url: String,
    pub branch: Option<String>,
}

/// Extracts the descriptor fields from a descriptor file's text.
/// `None` when the text does not parse or a required field is absent.
pub fn descriptor_fields(content: &str) -> (r: Option<DescriptorFields>)
    ensures
        r is Some <==> (lookup_spec(content@, "Flatpak Ref"@, "Name"@) is Some && lookup_spec(
            content@,
            "Flatpak Ref"@,
            "Url"@,
        ) is Some),
        r matches Some(d) ==> d.name@ == lookup_spec(content@, "Flatpak Ref"@, "Name"@)->Some_0
            && d.url@ == lookup_spec(content@, "Flatpak Ref"@, "Url"@)->Some_0 && (d.branch
            is Some <==> lookup_spec(content@, "Flatpak Ref"@, "Branch"@) is Some) && (d.branch
            matches Some(b) ==> b@ == lookup_spec(content@, "Flatpak Ref"@, "Branch"@)->Some_0),
{
    let doc = match ini_parse(content) {
        Some(doc) => doc,
        None => {
            return None;
        },
    };
    let name = match ini_get(&doc, "Flatpak Ref", "Name") {
        Some(v) => v,
        None => {
            return None;
        },
    };
    let url = match ini_get(&doc, "Flatpak Ref", "Url") {
        Some(v) => v,
        None => {
            return None;
        },
    };
    let branch = ini_get(&doc, "Flatpak Ref", "Branch");
    Some(DescriptorFields { name, url, branch })
}

/// The default executable of an application: the metadata's `command` field,
/// or the minimal shell when none is given.
pub fn default_command(content: &str) -> (r: String)
    ensures
        lookup_spec(content@, "Application"@, "command"@) matches Some(v) ==> r@ == v,
        lookup_spec(content@, "Application"@, "command"@) is None ==> r@ == "sh"@,
{
    match metadata_command(content) {
        Some(c) => c,
        None => String::from_str("sh"),
    }
}

/// The first three separator-delimited fields of a runtime reference string:
/// its name, architecture and branch. Anything after a third separator is
/// ignored; fewer than three fields is malformed.
pub open spec fn runtime_triple_spec(s: Seq<char>) -> Option<(Seq<char>, Seq<char>, Seq<char>)> {
    let i1 = find_from(s, '/', 0);
    if i1 == s.len() {
        None
    } else {
        let i2 = find_from(s, '/', i1 + 1);
        if i2 == s.len() {
            None
        } else {
            let i3 = find_from(s, '/', i2 + 1);
            Some((s.subrange(0, i1), s.subrange(i1 + 1, i2), s.subrange(i2 + 1, i3)))
        }
    }
}

/// Splits a runtime reference string into name, architecture and branch.
pub fn parse_runtime_triple(s: &str) -> (r: Option<(String, String, String)>)
    ensures
        r is Some <==> runtime_triple_spec(s@) is Some,
        r matches Some(t) ==> runtime_triple_spec(s@) matches Some(v) && t.0@ == v.0 && t.1@ == v.1
            && t.2@ == v.2,
{
    let n: usize = s.unicode_len();
    let i1 = index_of_from(s, '/', 0);
    if i1 == n {
        return None;
    }
    let i2 = index_of_from(s, '/', i1 + 1);
    if i2 == n {
        return None;
    }
    let i3 = index_of_from(s, '/', i2 + 1);
    let name = substring_owned(s, 0, i1);
    let arch = substring_owned(s, i1 + 1, i2);
    let branch = substring_owned(s, i2 + 1, i3);
    Some((name, arch, branch))
}

} // verus!
