//! Reference resolution: canonical `kind/id/arch/branch` references and the
//! rules that map a user-supplied identifier to a reference plus a remote.

use vstd::prelude::*;

use crate::strutil::{
    contains_char, find_from, index_of_from, lemma_find_from_skip, starts_with,
    substring_owned,
};

verus! {

/// Whether an installable unit is an application or a runtime.
#[derive(Clone, Copy, PartialEq, Eq, Structural, Debug)]
pub enum RefKind {
    App,
    Runtime,
}

/// A canonical reference to an installable unit.
#[derive(Clone, Debug)]
pub struct Reference {
    pub kind: RefKind,
    pub id: String,
    pub arch: String,
    pub branch: String,
}

/// Mathematical model of a `Reference`.
pub struct RefModel {
    pub kind: RefKind,
    pub id: Seq<char>,
    pub arch: Seq<char>,
    pub branch: Seq<char>,
}

impl View for Reference {
    type V = RefModel;

    open spec fn view(&self) -> RefModel {
        RefModel { kind: self.kind, id: self.id@, arch: self.arch@, branch: self.branch@ }
    }
}

pub open spec fn kind_seq(k: RefKind) -> Seq<char> {
    match k {
        RefKind::App => "app"@,
        RefKind::Runtime => "runtime"@,
    }
}

/// Canonical string form `kind/id/arch/branch`.
pub open spec fn canon_spec(r: RefModel) -> Seq<char> {
    kind_seq(r.kind) + "/"@ + r.id + "/"@ + r.arch + "/"@ + r.branch
}

impl Reference {
    /// The canonical string form of this reference.
    pub fn canonical(&self) -> (r: String)
        ensures
            r@ == canon_spec(self@),
    {
        let mut out: String = match self.kind {
            RefKind::App => String::from_str("app"),
            RefKind::Runtime => String::from_str("runtime"),
        };
        out.append("/");
        out.append(self.id.as_str());
        out.append("/");
        out.append(self.arch.as_str());
        out.append("/");
        out.append(self.branch.as_str());
        out
    }
}

/// The three `/`-separated fields after the kind prefix, if `s` has exactly
/// the canonical shape from position `start` on.
pub open spec fn parse_body_spec(s: Seq<char>, start: int) -> Option<(Seq<char>, Seq<char>, Seq<char>)> {
    let i1 = find_from(s, '/', start);
    if i1 == s.len() {
        None
    } else {
        let i2 = find_from(s, '/', i1 + 1);
        if i2 == s.len() {
            None
        } else {
            let i3 = find_from(s, '/', i2 + 1);
            if i3 != s.len() {
                None
            } else {
                Some(
                    (
                        s.subrange(start, i1),
                        s.subrange(i1 + 1, i2),
                        s.subrange(i2 + 1, s.len() as int),
                    ),
                )
            }
        }
    }
}

/// The reference denoted by a canonical string, if it is one: a `runtime/` or
/// `app/` prefix followed by exactly three `/`-separated fields.
pub open spec fn parse_ref_spec(s: Seq<char>) -> Option<RefModel> {
    if "app/"@.is_prefix_of(s) {
        match parse_body_spec(s, 4) {
            Some(t) => Some(RefModel { kind: RefKind::App, id: t.0, arch: t.1, branch: t.2 }),
            None => None,
        }
    } else if "runtime/"@.is_prefix_of(s) {
        match parse_body_spec(s, 8) {
            Some(t) => Some(RefModel { kind: RefKind::Runtime, id: t.0, arch: t.1, branch: t.2 }),
            None => None,
        }
    } else {
        None
    }
}

/// Parses a canonical reference string.
pub fn parse_reference(s: &str) -> (r: Option<Reference>)
    ensures
        r is Some <==> parse_ref_spec(s@) is Some,
        r matches Some(rf) ==> parse_ref_spec(s@) matches Some(v) && rf@ == v,
{
    proof {
        reveal_strlit("app/");
        reveal_strlit("runtime/");
    }
    let n: usize = s.unicode_len();
    let (kind, start): (RefKind, usize) = if starts_with(s, "app/") {
        (RefKind::App, 4)
    } else if starts_with(s, "runtime/") {
        (RefKind::Runtime, 8)
    } else {
        return None;
    };
    assert(start <= n);
    let i1 = index_of_from(s, '/', start);
    if i1 == n {
        return None;
    }
    let i2 = index_of_from(s, '/', i1 + 1);
    if i2 == n {
        return None;
    }
    let i3 = index_of_from(s, '/', i2 + 1);
    if i3 != n {
        return None;
    }
    let id = substring_owned(s, start, i1);
    let arch = substring_owned(s, i1 + 1, i2);
    let branch = substring_owned(s, i2 + 1, n);
    Some(Reference { kind, id, arch, branch })
}

/// Reference canonicalization round trip: a reference whose fields are free
/// of the separator parses back from its own canonical form.
pub proof fn lemma_canon_parse_roundtrip(r: RefModel)
    requires
        !r.id.contains('/'),
        !r.arch.contains('/'),
        !r.branch.contains('/'),
    ensures
        parse_ref_spec(canon_spec(r)) == Some(r),
{
    reveal_strlit("app");
    reveal_strlit("runtime");
    reveal_strlit("app/");
    reveal_strlit("runtime/");
    reveal_strlit("/");
    let s = canon_spec(r);
    let start: int = kind_seq(r.kind).len() as int + 1;
    let i1: int = start + r.id.len();
    let i2: int = i1 + 1 + r.arch.len();
    assert(s.len() == i2 + 1 + r.branch.len());
    // the kind prefix, separator included, is a prefix of the canonical form
    match r.kind {
        RefKind::App => {
            assert("app/"@ =~= s.subrange(0, 4));
            assert(!"runtime/"@.is_prefix_of(s)) by {
                if "runtime/"@.is_prefix_of(s) {
                    assert(s.subrange(0, 8)[0] == 'r');
                    assert(s[0] == 'a');
                }
            }
        },
        RefKind::Runtime => {
            assert(!"app/"@.is_prefix_of(s)) by {
                if "app/"@.is_prefix_of(s) {
                    assert(s.subrange(0, 4)[2] == 'p');
                    assert(s[2] == 'n');
                }
            }
            assert("runtime/"@ =~= s.subrange(0, 8));
        },
    }
    // locate the three separators
    assert forall|k: int| start <= k < i1 implies s[k] != '/' by {
        assert(s[k] == r.id[k - start]);
        assert(!r.id.contains('/'));
        if s[k] == '/' {
            assert(r.id.contains('/'));
        }
    }
    assert(s[i1] == '/');
    lemma_find_from_skip(s, '/', start as int, i1 as int);
    assert(find_from(s, '/', i1 as int) == i1);
    assert forall|k: int| i1 + 1 <= k < i2 implies s[k] != '/' by {
        assert(s[k] == r.arch[k - (i1 + 1)]);
        if s[k] == '/' {
            assert(r.arch.contains('/'));
        }
    }
    assert(s[i2] == '/');
    lemma_find_from_skip(s, '/', i1 + 1, i2 as int);
    assert(find_from(s, '/', i2 as int) == i2);
    assert forall|k: int| i2 + 1 <= k < s.len() implies s[k] != '/' by {
        assert(s[k] == r.branch[k - (i2 + 1)]);
        if s[k] == '/' {
            assert(r.branch.contains('/'));
        }
    }
    lemma_find_from_skip(s, '/', i2 + 1, s.len() as int);
    match parse_body_spec(s, start as int) {
        Some(t) => {
            assert(t.0 =~= r.id);
            assert(t.1 =~= r.arch);
            assert(t.2 =~= r.branch);
        },
        None => {
            assert(false);
        },
    }
}

/// A resolved identifier: the reference to install and the remote to pull from.
#[derive(Clone, Debug)]
pub struct Resolution {
    pub reference: Reference,
    pub remote_name: String,
    pub remote_url: String,
}

/// Mathematical model of a `Resolution`.
pub struct ResolutionModel {
    pub reference: RefModel,
    pub remote_name: Seq<char>,
    pub remote_url: Seq<char>,
}

impl View for Resolution {
    type V = ResolutionModel;

    open spec fn view(&self) -> ResolutionModel {
        ResolutionModel {
            reference: self.reference@,
            remote_name: self.remote_name@,
            remote_url: self.remote_url@,
        }
    }
}

/// The well-known public remote.
pub fn flathub_url() -> (r: &'static str)
    ensures
        r@ == "https://dl.flathub.org/repo/"@,
{
    "https://dl.flathub.org/repo/"
}

/// Whether an identifier names a descriptor file, whose content the caller
/// must read and hand to `resolve_descriptor`.
pub fn needs_descriptor(input: &str) -> (r: bool)
    ensures
        r == ".flatpakref"@.is_suffix_of(input@),
{
    crate::strutil::ends_with(input, ".flatpakref")
}

/// What a non-descriptor identifier resolves to:
/// a bare identifier becomes `app/<id>/x86_64/stable`; one with a separator is
/// taken as canonical if it carries a kind prefix, else prefixed `runtime/`;
/// all against the well-known public remote.
pub open spec fn resolve_plain_spec(s: Seq<char>) -> Option<ResolutionModel> {
    if !s.contains('/') {
        Some(
            ResolutionModel {
                reference: RefModel {
                    kind: RefKind::App,
                    id: s,
                    arch: "x86_64"@,
                    branch: "stable"@,
                },
                remote_name: "flathub"@,
                remote_url: "https://dl.flathub.org/repo/"@,
            },
        )
    } else {
        let canonical = if "app/"@.is_prefix_of(s) || "runtime/"@.is_prefix_of(s) {
            s
        } else {
            "runtime/"@ + s
        };
        match parse_ref_spec(canonical) {
            Some(rf) => Some(
                ResolutionModel {
                    reference: rf,
                    remote_name: "flathub"@,
                    remote_url: "https://dl.flathub.org/repo/"@,
                },
            ),
            None => None,
        }
    }
}

/// Resolves an identifier that does not name a descriptor file.
/// `None` means the identifier is not a well-formed reference.
pub fn resolve_plain(input: &str) -> (r: Option<Resolution>)
    ensures
        r is Some <==> resolve_plain_spec(input@) is Some,
        r matches Some(res) ==> resolve_plain_spec(input@) matches Some(v) && res@ == v,
{
    if !contains_char(input, '/') {
        return Some(
            Resolution {
                reference: Reference {
                    kind: RefKind::App,
                    id: String::from_str(input),
                    arch: String::from_str("x86_64"),
                    branch: String::from_str("stable"),
                },
                remote_name: String::from_str("flathub"),
                remote_url: String::from_str(flathub_url()),
            },
        );
    }
    let prefixed: String;
    let canonical: &str = if starts_with(input, "app/") || starts_with(input, "runtime/") {
        input
    } else {
        prefixed = String::from_str("runtime/").concat(input);
        prefixed.as_str()
    };
    match parse_reference(canonical) {
        Some(rf) => Some(
            Resolution {
                reference: rf,
                remote_name: String::from_str("flathub"),
                remote_url: String::from_str(flathub_url()),
            },
        ),
        None => None,
    }
}

/// What a descriptor file's fields resolve to: `app/<name>/x86_64/<branch or
/// stable>` against a private `origin` remote at the descriptor's URL.
pub open spec fn resolve_descriptor_spec(
    name: Seq<char>,
    url: Seq<char>,
    branch: Option<Seq<char>>,
) -> ResolutionModel {
    ResolutionModel {
        reference: RefModel {
            kind: RefKind::App,
            id: name,
            arch: "x86_64"@,
            branch: match branch {
                Some(b) => b,
                None => "stable"@,
            },
        },
        remote_name: "origin"@,
        remote_url: url,
    }
}

/// Resolves the fields read from a descriptor file.
pub fn resolve_descriptor(name: &str, url: &str, branch: Option<&str>) -> (r: Resolution)
    ensures
        r@ == resolve_descriptor_spec(name@, url@, match branch {
            Some(b) => Some(b@),
            None => None,
        }),
{
    let branch_owned: String = match branch {
        Some(b) => String::from_str(b),
        None => String::from_str("stable"),
    };
    Resolution {
        reference: Reference {
            kind: RefKind::App,
            id: String::from_str(name),
            arch: String::from_str("x86_64"),
            branch: branch_owned,
        },
        remote_name: String::from_str("origin"),
        remote_url: String::from_str(url),
    }
}

} // verus!
