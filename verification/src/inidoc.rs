//! Trusted boundary around the `ini` crate, which parses and serializes the
//! INI-shaped files this system reads: descriptor files, metadata
//! descriptors, and the content store's configuration.
//!
//! A parsed document is modelled as a map from section name to the section's
//! effective key-value lookup (the value the crate's first-match lookup
//! returns for each key).

use vstd::prelude::*;

verus! {

/// Declares the `ini` crate's document type, so values of it can be carried
/// through signatures; the value is opaque here.
#[verifier::external_type_specification]
#[verifier::external_body]
pub struct ExIni(ini::Ini);

/// What a parsed document holds: section name to effective key lookup.
pub uninterp spec fn ini_doc(i: ini::Ini) -> Map<Seq<char>, Map<Seq<char>, Seq<char>>>;

/// What parsing a text yields: `None` when it is not well-formed INI, else
/// the document's model. The result depends on the text alone.
pub uninterp spec fn ini_of(s: Seq<char>) -> Option<Map<Seq<char>, Map<Seq<char>, Seq<char>>>>;

/// What serializing a document yields; it depends on the document alone.
pub uninterp spec fn ini_text(i: ini::Ini) -> Seq<char>;

/// Relies on `Ini::load_from_str`: parses INI text, succeeding exactly on
/// well-formed input; the result is a function of the text alone.
#[verifier::external_body]
pub fn ini_parse(s: &str) -> (r: Option<ini::Ini>)
    ensures
        r is Some <==> ini_of(s@) is Some,
        r matches Some(doc) ==> ini_of(s@) matches Some(m) && ini_doc(doc) == m,
{
    ini::Ini::load_from_str(s).ok()
}

/// Relies on `Ini::get_from`: returns the first value under the named
/// section and key, or nothing when either is absent.
#[verifier::external_body]
pub fn ini_get(doc: &ini::Ini, section: &str, key: &str) -> (r: Option<String>)
    ensures
        r is Some <==> (ini_doc(*doc).contains_key(section@) && ini_doc(*doc)[section@].contains_key(key@)),
        r matches Some(v) ==> v@ == ini_doc(*doc)[section@][key@],
{
    doc.get_from(Some(section), key).map(|v| v.to_string())
}

/// Relies on `Ini::set_to`: sets one key in the named section, creating the
/// section when it is absent and leaving every other entry unchanged.
#[verifier::external_body]
pub fn ini_set(doc: &mut ini::Ini, section: &str, key: &str, value: &str)
    ensures
        ini_doc(*final(doc)) == ({
            let m = ini_doc(*old(doc));
            let props = if m.contains_key(section@) {
                m[section@]
            } else {
                Map::<Seq<char>, Seq<char>>::empty()
            };
            m.insert(section@, props.insert(key@, value@))
        }),
{
    doc.set_to(Some(section), key.to_string(), value.to_string());
}

/// Relies on `Ini::write_to_opt` with a fixed line separator: serializes the
/// document; the text is a function of the document alone.
#[verifier::external_body]
pub fn ini_serialize(doc: &ini::Ini) -> (r: String)
    ensures
        r@ == ini_text(*doc),
{
    let mut buf: Vec<u8> = Vec::new();
    let opt = ini::WriteOption { line_separator: ini::LineSeparator::CR, ..Default::default() };
    let _ = doc.write_to_opt(&mut buf, opt);
    String::from_utf8_lossy(&buf).into_owned()
}

/// The value under `section` / `key` in a text, if the text parses and both
/// are present.
pub open spec fn lookup_spec(content: Seq<char>, section: Seq<char>, key: Seq<char>) -> Option<
    Seq<char>,
> {
    match ini_of(content) {
        Some(m) => if m.contains_key(section) && m[section].contains_key(key) {
            Some(m[section][key])
        } else {
            None
        },
        None => None,
    }
}

/// Looks one key up in an INI-shaped text.
pub fn lookup(content: &str, section: &str, key: &str) -> (r: Option<String>)
    ensures
        r is Some <==> lookup_spec(content@, section@, key@) is Some,
        r matches Some(v) ==> v@ == lookup_spec(content@, section@, key@)->Some_0,
{
    match ini_parse(content) {
        Some(doc) => ini_get(&doc, section, key),
        None => None,
    }
}

/// The configuration raised to the large summary size: `[core]`'s
/// `summary-max-size` is set, and everything else is kept.
pub open spec fn patched_doc_spec(m: Map<Seq<char>, Map<Seq<char>, Seq<char>>>) -> Map<
    Seq<char>,
    Map<Seq<char>, Seq<char>>,
> {
    let props = if m.contains_key("core"@) {
        m["core"@]
    } else {
        Map::<Seq<char>, Seq<char>>::empty()
    };
    m.insert("core"@, props.insert("summary-max-size"@, "268435456"@))
}

/// Rewrites a configuration text so the content store accepts large summary
/// files. Fails exactly when the text is not well-formed INI.
pub fn patch_config(content: &str) -> (r: Option<String>)
    ensures
        r is Some <==> ini_of(content@) is Some,
        r matches Some(t) ==> exists|doc: ini::Ini|
            ini_doc(doc) == patched_doc_spec(ini_of(content@)->Some_0) && t@ == ini_text(doc),
{
    match ini_parse(content) {
        Some(doc) => {
            let mut doc = doc;
            ini_set(&mut doc, "core", "summary-max-size", "268435456");
            let out = ini_serialize(&doc);
            proof {
                assert(ini_doc(doc) == patched_doc_spec(ini_of(content@)->Some_0) && out@
                    == ini_text(doc));
            }
            Some(out)
        },
        None => None,
    }
}

} // verus!
