//! Launch preparation: resolving the target executable, the ordered
//! fallback searches for the pixel-format loader cache and the
//! compatibility libraries, and the deterministic environment the confined
//! process is started with.

use vstd::prelude::*;

use crate::install::deep;
use crate::paths::{jail_name, jail_name_spec, jail_root_path, jail_root_spec};
use crate::strutil::{ends_with, leading_count, starts_with, trim_leading};

verus! {

/// Index of the first set entry at or after `from`, or `s.len()` if none is.
pub open spec fn first_true(s: Seq<bool>, from: int) -> int
    decreases s.len() - from,
{
    if from < 0 || from >= s.len() {
        s.len() as int
    } else if s[from] {
        from
    } else {
        first_true(s, from + 1)
    }
}

proof fn lemma_first_true_skip(s: Seq<bool>, from: int, i: int)
    requires
        0 <= from <= i <= s.len(),
        forall|k: int| from <= k < i ==> !s[k],
    ensures
        first_true(s, from) == first_true(s, i),
    decreases i - from,
{
    if from < i {
        lemma_first_true_skip(s, from + 1, i);
    }
}

/// First-match fallback search: the least index whose entry is set.
pub fn first_match(present: &Vec<bool>) -> (r: Option<usize>)
    ensures
        r matches Some(i) ==> i == first_true(present@, 0) && i < present@.len(),
        r is None ==> first_true(present@, 0) == present@.len(),
{
    let mut i: usize = 0;
    while i < present.len()
        invariant
            0 <= i <= present@.len(),
            forall|k: int| 0 <= k < i ==> !present@[k],
        decreases present@.len() - i,
    {
        if present[i] {
            proof {
                lemma_first_true_skip(present@, 0, i as int);
            }
            return Some(i);
        }
        i = i + 1;
    }
    proof {
        lemma_first_true_skip(present@, 0, present@.len() as int);
    }
    None
}

/// The four candidate locations of the pixel-format loader cache inside the
/// root, in fixed priority order.
pub open spec fn pixbuf_candidates_spec() -> Seq<Seq<char>> {
    seq![
        "usr/lib/x86_64-linux-gnu/gdk-pixbuf-2.0/2.10.0/loaders.cache"@,
        "usr/lib/gdk-pixbuf-2.0/2.10.0/loaders.cache"@,
        "lib/x86_64-linux-gnu/gdk-pixbuf-2.0/2.10.0/loaders.cache"@,
        "lib/gdk-pixbuf-2.0/2.10.0/loaders.cache"@,
    ]
}

pub fn pixbuf_cache_candidates() -> (r: Vec<String>)
    ensures
        deep(r@) == pixbuf_candidates_spec(),
{
    let mut v: Vec<String> = Vec::new();
    v.push(String::from_str("usr/lib/x86_64-linux-gnu/gdk-pixbuf-2.0/2.10.0/loaders.cache"));
    v.push(String::from_str("usr/lib/gdk-pixbuf-2.0/2.10.0/loaders.cache"));
    v.push(String::from_str("lib/x86_64-linux-gnu/gdk-pixbuf-2.0/2.10.0/loaders.cache"));
    v.push(String::from_str("lib/gdk-pixbuf-2.0/2.10.0/loaders.cache"));
    proof {
        assert(deep(v@) =~~= pixbuf_candidates_spec());
    }
    v
}

/// The loader-cache path handed to the process: the first candidate present
/// in the root, absolute, else a default guess.
pub open spec fn loaders_cache_spec(present: Seq<bool>) -> Seq<char> {
    let i = first_true(present, 0);
    if i < 4 {
        "/"@ + pixbuf_candidates_spec()[i]
    } else {
        "/usr/lib/gdk-pixbuf-2.0/2.10.0/loaders.cache"@
    }
}

/// Resolves the loader-cache path from which candidates exist in the root.
/// `present[i]` says whether the `i`-th candidate location exists.
pub fn loaders_cache_path(present: &Vec<bool>) -> (r: String)
    requires
        present@.len() == 4,
    ensures
        r@ == loaders_cache_spec(present@),
{
    let candidates = pixbuf_cache_candidates();
    match first_match(present) {
        Some(i) => {
            proof {
                assert(deep(candidates@).len() == candidates@.len());
                assert(pixbuf_candidates_spec().len() == 4);
                assert(deep(candidates@)[i as int] == candidates@[i as int]@);
            }
            String::from_str("/").concat(candidates[i].as_str())
        },
        None => String::from_str("/usr/lib/gdk-pixbuf-2.0/2.10.0/loaders.cache"),
    }
}

/// The ordered host locations searched for a missing compatibility library.
pub open spec fn compat_dirs_spec() -> Seq<Seq<char>> {
    seq![
        "/compat/ubuntu/lib"@,
        "/compat/ubuntu/lib64"@,
        "/compat/linux/usr/lib"@,
        "/compat/linux/usr/lib64"@,
    ]
}

pub fn compat_dirs() -> (r: Vec<String>)
    ensures
        deep(r@) == compat_dirs_spec(),
{
    let mut v: Vec<String> = Vec::new();
    v.push(String::from_str("/compat/ubuntu/lib"));
    v.push(String::from_str("/compat/ubuntu/lib64"));
    v.push(String::from_str("/compat/linux/usr/lib"));
    v.push(String::from_str("/compat/linux/usr/lib64"));
    proof {
        assert(deep(v@) =~~= compat_dirs_spec());
    }
    v
}

/// The shared libraries the compatibility layer must see.
pub open spec fn required_libs_spec() -> Seq<Seq<char>> {
    seq!["libGLEW.so.2.2"@, "libGL.so.1"@, "libGLU.so.1"@, "libEGL.so.1"@, "libGLESv2.so.2"@]
}

pub fn required_libs() -> (r: Vec<String>)
    ensures
        deep(r@) == required_libs_spec(),
{
    let mut v: Vec<String> = Vec::new();
    v.push(String::from_str("libGLEW.so.2.2"));
    v.push(String::from_str("libGL.so.1"));
    v.push(String::from_str("libGLU.so.1"));
    v.push(String::from_str("libEGL.so.1"));
    v.push(String::from_str("libGLESv2.so.2"));
    proof {
        assert(deep(v@) =~~= required_libs_spec());
    }
    v
}

/// One library copy decided by the fallback search: copy `source` into the
/// root's `target_subdir`.
pub struct LibraryCopy {
    pub source: String,
    pub target_subdir: String,
}

/// What the injection step does for one library: nothing when the root
/// already holds it; else the copy from the first host location that has
/// it, into `lib64` when that location is a 64-bit directory, else `lib`;
/// nothing when no location has it (the loss is logged by the caller).
pub open spec fn lib_injection_spec(in_root: bool, present: Seq<bool>) -> Option<int> {
    if in_root {
        None
    } else {
        let i = first_true(present, 0);
        if i < present.len() {
            Some(i)
        } else {
            None
        }
    }
}

/// Decides the copy for one required library. `in_root` says whether the
/// root already holds it; `present[i]` whether the `i`-th host location has
/// it.
pub fn lib_injection_plan(lib: &str, in_root: bool, present: &Vec<bool>) -> (r: Option<LibraryCopy>)
    requires
        present@.len() == 4,
    ensures
        r is Some <==> lib_injection_spec(in_root, present@) is Some,
        r matches Some(c) ==> lib_injection_spec(in_root, present@) matches Some(i) && c.source@
            == compat_dirs_spec()[i] + "/"@ + lib@ && c.target_subdir@ == (
        if "64"@.is_suffix_of(compat_dirs_spec()[i]) {
            "lib64"@
        } else {
            "lib"@
        }),
{
    if in_root {
        return None;
    }
    let dirs = compat_dirs();
    match first_match(present) {
        Some(i) => {
            proof {
                assert(deep(dirs@).len() == dirs@.len());
                assert(compat_dirs_spec().len() == 4);
                assert(deep(dirs@)[i as int] == dirs@[i as int]@);
            }
            let dir = &dirs[i];
            let mut source = String::from_str(dir.as_str());
            source.append("/");
            source.append(lib);
            let target_subdir = if ends_with(dir.as_str(), "64") {
                String::from_str("lib64")
            } else {
                String::from_str("lib")
            };
            Some(LibraryCopy { source, target_subdir })
        },
        None => None,
    }
}

/// Library fallback order: a library the root already holds is never copied
/// again, and one that is absent is taken from the first host location in
/// priority order that has it, later locations notwithstanding.
pub proof fn lemma_library_fallback_order(present: Seq<bool>, i: int, j: int)
    requires
        present.len() == 4,
        0 <= i < j < present.len(),
        present[i],
        present[j],
        forall|k: int| 0 <= k < i ==> !present[k],
    ensures
        lib_injection_spec(false, present) == Some(i),
        lib_injection_spec(true, present) is None,
{
    lemma_first_true_skip(present, 0, i);
}

/// The executable named by the invocation: with raw arguments enabled the
/// first argument wins, else the metadata's default command.
pub fn resolve_command(raw_sockets: bool, argv0: Option<&str>, default_cmd: &str) -> (r: String)
    ensures
        !raw_sockets ==> r@ == default_cmd@,
        raw_sockets && argv0 is Some ==> r@ == argv0->Some_0@,
        raw_sockets && argv0 is None ==> r@ == default_cmd@,
{
    if !raw_sockets {
        String::from_str(default_cmd)
    } else {
        match argv0 {
            Some(a) => String::from_str(a),
            None => String::from_str(default_cmd),
        }
    }
}

/// The in-root path of the executable: absolute commands stand as given,
/// bare ones live under the application's `bin`.
pub open spec fn bin_path_spec(cmd: Seq<char>) -> Seq<char> {
    if "/"@.is_prefix_of(cmd) {
        cmd
    } else {
        "/app/bin/"@ + cmd
    }
}

pub fn bin_path_of(cmd: &str) -> (r: String)
    ensures
        r@ == bin_path_spec(cmd@),
{
    proof {
        reveal_strlit("/");
    }
    if starts_with(cmd, "/") {
        String::from_str(cmd)
    } else {
        String::from_str("/app/bin/").concat(cmd)
    }
}

/// The host-side path of the executable inside the root.
pub open spec fn host_bin_path_spec(root: Seq<char>, bin: Seq<char>) -> Seq<char> {
    root + "/"@ + bin.subrange(leading_count(bin, '/'), bin.len() as int)
}

pub fn host_bin_path(root: &str, bin: &str) -> (r: String)
    ensures
        r@ == host_bin_path_spec(root@, bin@),
{
    let trimmed = trim_leading(bin, '/');
    let mut out = String::from_str(root);
    out.append("/");
    out.append(trimmed);
    out
}

/// The confinement unit's identity: name, root path, and hostname.
pub struct JailSpec {
    pub name: String,
    pub path: String,
    pub hostname: String,
}

pub fn make_jail_spec(app_id: &str) -> (r: JailSpec)
    ensures
        r.name@ == jail_name_spec(app_id@),
        r.path@ == jail_root_spec(app_id@),
        r.hostname@ == "flatvodka"@,
{
    JailSpec {
        name: jail_name(app_id),
        path: jail_root_path(app_id),
        hostname: String::from_str("flatvodka"),
    }
}

/// The fixed-plus-computed environment, as one shell command: library search
/// path, container markers, application id, home and user identity, runtime
/// directory, XDG base directories, introspection path, the resolved loader
/// cache, desktop identity and locale, ending in the exec of the target.
pub open spec fn shell_command_spec(
    app_id: Seq<char>,
    uid: Seq<char>,
    loaders_cache: Seq<char>,
    bin_path: Seq<char>,
) -> Seq<char> {
    "export LD_LIBRARY_PATH=\"/app/lib:/app/lib64:/lib/x86_64-linux-gnu:/usr/lib/x86_64-linux-gnu:/lib64:/lib:/usr/lib64:/usr/lib\"; export TERM=xterm-256color; export container=flatpak; export FLATPAK_ID=\""@
        + app_id
        + "\"; export HOME=/home/user; export USER=user; export XDG_RUNTIME_DIR=/run/user/"@ + uid
        + "; export PATH=/app/bin:/usr/bin:/bin:/sbin:/usr/sbin; export XDG_DATA_DIRS=/app/share:/usr/share:/share; export XDG_CONFIG_DIRS=/app/etc/xdg:/etc/xdg; export XDG_CACHE_HOME=/home/user/.cache; export GI_TYPELIB_PATH=\"/app/lib/girepository-1.0:/usr/lib/girepository-1.0:/usr/lib/x86_64-linux-gnu/girepository-1.0:/lib/girepository-1.0\"; export GDK_PIXBUF_MODULE_FILE=\""@
        + loaders_cache
        + "\"; export GST_PLUGIN_SYSTEM_PATH=/app/lib/gstreamer-1.0:/usr/lib/extensions/gstreamer-1.0:/usr/lib/x86_64-linux-gnu/gstreamer-1.0; export XDG_CURRENT_DESKTOP=GNOME; export LANG=C.UTF-8; exec \""@
        + bin_path + "\""@
}

pub fn shell_command(app_id: &str, uid: &str, loaders_cache: &str, bin_path: &str) -> (r: String)
    ensures
        r@ == shell_command_spec(app_id@, uid@, loaders_cache@, bin_path@),
{
    let mut out = String::from_str(
        "export LD_LIBRARY_PATH=\"/app/lib:/app/lib64:/lib/x86_64-linux-gnu:/usr/lib/x86_64-linux-gnu:/lib64:/lib:/usr/lib64:/usr/lib\"; export TERM=xterm-256color; export container=flatpak; export FLATPAK_ID=\"",
    );
    out.append(app_id);
    out.append("\"; export HOME=/home/user; export USER=user; export XDG_RUNTIME_DIR=/run/user/");
    out.append(uid);
    out.append(
        "; export PATH=/app/bin:/usr/bin:/bin:/sbin:/usr/sbin; export XDG_DATA_DIRS=/app/share:/usr/share:/share; export XDG_CONFIG_DIRS=/app/etc/xdg:/etc/xdg; export XDG_CACHE_HOME=/home/user/.cache; export GI_TYPELIB_PATH=\"/app/lib/girepository-1.0:/usr/lib/girepository-1.0:/usr/lib/x86_64-linux-gnu/girepository-1.0:/lib/girepository-1.0\"; export GDK_PIXBUF_MODULE_FILE=\"",
    );
    out.append(loaders_cache);
    out.append(
        "\"; export GST_PLUGIN_SYSTEM_PATH=/app/lib/gstreamer-1.0:/usr/lib/extensions/gstreamer-1.0:/usr/lib/x86_64-linux-gnu/gstreamer-1.0; export XDG_CURRENT_DESKTOP=GNOME; export LANG=C.UTF-8; exec \"",
    );
    out.append(bin_path);
    out.append("\"");
    out
}

} // verus!
