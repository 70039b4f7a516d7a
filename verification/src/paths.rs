//! The persisted on-disk layout: every path the installer and the sandbox
//! manager read or write, as pure functions of the configuration values.

use vstd::prelude::*;

use crate::reference::{canon_spec, kind_seq, Reference, RefModel};
use crate::strutil::starts_with;

verus! {

/// Per-user base directory of the whole layout.
pub open spec fn flatpak_dir_spec(home: Seq<char>) -> Seq<char> {
    home + "/.local/share/flatpak"@
}

pub fn get_flatpak_dir(home: &str) -> (r: String)
    ensures
        r@ == flatpak_dir_spec(home@),
{
    String::from_str(home).concat("/.local/share/flatpak")
}

/// The content store's own on-disk state.
pub open spec fn repo_dir_spec(home: Seq<char>) -> Seq<char> {
    flatpak_dir_spec(home) + "/repo"@
}

pub fn get_repo_dir(home: &str) -> (r: String)
    ensures
        r@ == repo_dir_spec(home@),
{
    get_flatpak_dir(home).concat("/repo")
}

/// The content store's configuration file.
pub open spec fn repo_config_spec(home: Seq<char>) -> Seq<char> {
    repo_dir_spec(home) + "/config"@
}

pub fn repo_config_path(home: &str) -> (r: String)
    ensures
        r@ == repo_config_spec(home@),
{
    get_repo_dir(home).concat("/config")
}

/// `home` with a single leading separator removed, if one is there.
pub open spec fn strip_one_slash(s: Seq<char>) -> Seq<char> {
    if "/"@.is_prefix_of(s) {
        s.subrange(1, s.len() as int)
    } else {
        s
    }
}

/// The compatibility-path mirror of the content store's configuration file.
pub open spec fn compat_config_spec(home: Seq<char>) -> Seq<char> {
    "/compat/ubuntu/"@ + strip_one_slash(home) + "/.local/share/flatpak/repo/config"@
}

pub fn compat_config_path(home: &str) -> (r: String)
    ensures
        r@ == compat_config_spec(home@),
{
    proof {
        reveal_strlit("/");
    }
    let stripped: &str = if starts_with(home, "/") {
        home.substring_char(1, home.unicode_len())
    } else {
        home
    };
    let mut out = String::from_str("/compat/ubuntu/");
    out.append(stripped);
    out.append("/.local/share/flatpak/repo/config");
    out
}

/// Installation directory of one reference.
pub open spec fn install_base_spec(home: Seq<char>, r: RefModel) -> Seq<char> {
    flatpak_dir_spec(home) + "/"@ + canon_spec(r)
}

pub fn install_base(home: &str, rf: &Reference) -> (r: String)
    ensures
        r@ == install_base_spec(home@, rf@),
{
    let mut out = get_flatpak_dir(home);
    out.append("/");
    let canon = rf.canonical();
    out.append(canon.as_str());
    out
}

/// An immutable commit directory under an installation.
pub open spec fn commit_dir_spec(base: Seq<char>, commit: Seq<char>) -> Seq<char> {
    base + "/"@ + commit
}

pub fn commit_dir(base: &str, commit: &str) -> (r: String)
    ensures
        r@ == commit_dir_spec(base@, commit@),
{
    let mut out = String::from_str(base);
    out.append("/");
    out.append(commit);
    out
}

/// The active pointer of an installation.
pub open spec fn active_link_spec(base: Seq<char>) -> Seq<char> {
    base + "/active"@
}

pub fn active_link(base: &str) -> (r: String)
    ensures
        r@ == active_link_spec(base@),
{
    String::from_str(base).concat("/active")
}

/// Primary location of an installed unit's metadata descriptor.
pub fn metadata_primary(commit: &str) -> (r: String)
    ensures
        r@ == commit@ + "/metadata"@,
{
    String::from_str(commit).concat("/metadata")
}

/// Alternate location of an installed unit's metadata descriptor.
pub fn metadata_fallback(commit: &str) -> (r: String)
    ensures
        r@ == commit@ + "/files/metadata"@,
{
    String::from_str(commit).concat("/files/metadata")
}

/// File tree of the active commit of an installed application.
pub open spec fn app_files_spec(home: Seq<char>, app_id: Seq<char>) -> Seq<char> {
    flatpak_dir_spec(home) + "/app/"@ + app_id + "/x86_64/stable/active/files"@
}

pub fn app_files_dir(home: &str, app_id: &str) -> (r: String)
    ensures
        r@ == app_files_spec(home@, app_id@),
{
    let mut out = get_flatpak_dir(home);
    out.append("/app/");
    out.append(app_id);
    out.append("/x86_64/stable/active/files");
    out
}

/// Metadata descriptor beside an installed application's active file tree.
pub open spec fn app_metadata_spec(home: Seq<char>, app_id: Seq<char>) -> Seq<char> {
    flatpak_dir_spec(home) + "/app/"@ + app_id + "/x86_64/stable/active/metadata"@
}

pub fn app_metadata_path(home: &str, app_id: &str) -> (r: String)
    ensures
        r@ == app_metadata_spec(home@, app_id@),
{
    let mut out = get_flatpak_dir(home);
    out.append("/app/");
    out.append(app_id);
    out.append("/x86_64/stable/active/metadata");
    out
}

/// File tree of the active commit of an installed runtime.
pub open spec fn runtime_files_spec(
    home: Seq<char>,
    name: Seq<char>,
    arch: Seq<char>,
    branch: Seq<char>,
) -> Seq<char> {
    flatpak_dir_spec(home) + "/runtime/"@ + name + "/"@ + arch + "/"@ + branch
        + "/active/files"@
}

pub fn runtime_files_dir(home: &str, name: &str, arch: &str, branch: &str) -> (r: String)
    ensures
        r@ == runtime_files_spec(home@, name@, arch@, branch@),
{
    let mut out = get_flatpak_dir(home);
    out.append("/runtime/");
    out.append(name);
    out.append("/");
    out.append(arch);
    out.append("/");
    out.append(branch);
    out.append("/active/files");
    out
}

/// Ephemeral root directory of the sandbox instance for one application id.
pub open spec fn jail_root_spec(app_id: Seq<char>) -> Seq<char> {
    "/mnt/flatvodka_"@ + app_id
}

pub fn jail_root_path(app_id: &str) -> (r: String)
    ensures
        r@ == jail_root_spec(app_id@),
{
    String::from_str("/mnt/flatvodka_").concat(app_id)
}

/// Name of the registered jail for one application id: dots become
/// underscores so the name is a single flat token.
pub open spec fn jail_name_spec(app_id: Seq<char>) -> Seq<char> {
    "fv_"@ + crate::strutil::replace_spec(app_id, '.', '_')
}

pub fn jail_name(app_id: &str) -> (r: String)
    ensures
        r@ == jail_name_spec(app_id@),
{
    let replaced = crate::strutil::replace_char(app_id, '.', '_');
    String::from_str("fv_").concat(replaced.as_str())
}

/// Which external content-store binary to use, given which candidates the
/// host offers: the compatibility trees are preferred, in a fixed order, and
/// a binary found on the search path is the last resort.
pub open spec fn choose_ostree_spec(
    ubuntu_present: bool,
    linux_present: bool,
    on_path: bool,
) -> Option<Seq<char>> {
    if ubuntu_present {
        Some("/compat/ubuntu/usr/bin/ostree"@)
    } else if linux_present {
        Some("/compat/linux/usr/bin/ostree"@)
    } else if on_path {
        Some("ostree"@)
    } else {
        None
    }
}

pub fn choose_ostree(ubuntu_present: bool, linux_present: bool, on_path: bool) -> (r: Option<
    String,
>)
    ensures
        r is Some <==> choose_ostree_spec(ubuntu_present, linux_present, on_path) is Some,
        r matches Some(p) ==> choose_ostree_spec(ubuntu_present, linux_present, on_path)
            matches Some(v) && p@ == v,
{
    if ubuntu_present {
        Some(String::from_str("/compat/ubuntu/usr/bin/ostree"))
    } else if linux_present {
        Some(String::from_str("/compat/linux/usr/bin/ostree"))
    } else if on_path {
        Some(String::from_str("ostree"))
    } else {
        None
    }
}

} // verus!
