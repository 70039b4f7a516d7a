use flatvodka::filters::{filter_by_suffix, filter_gl_names};
use flatvodka::inidoc::{lookup, patch_config};
use flatvodka::launch::{
    bin_path_of, first_match, host_bin_path, lib_injection_plan, loaders_cache_path,
    make_jail_spec, resolve_command, shell_command,
};
use flatvodka::metadata::{
    default_command, descriptor_fields, metadata_runtime, parse_runtime_triple,
};
use flatvodka::paths::{
    app_files_dir, app_metadata_path, choose_ostree, compat_config_path, get_flatpak_dir,
    get_repo_dir, jail_name, jail_root_path, repo_config_path, runtime_files_dir,
};
use flatvodka::mount_bind;

#[test]
fn config_patch_raises_the_summary_limit_and_keeps_the_rest() {
    let input = "[core]\nrepo_version=1\nmode=archive-z2\n[remote \"flathub\"]\ngpg-verify=false\n";
    let out = patch_config(input).unwrap();
    let doc = ini::Ini::load_from_str(&out).unwrap();
    assert_eq!(doc.get_from(Some("core"), "summary-max-size"), Some("268435456"));
    assert_eq!(doc.get_from(Some("core"), "repo_version"), Some("1"));
    assert_eq!(doc.get_from(Some("core"), "mode"), Some("archive-z2"));
    assert_eq!(doc.get_from(Some("remote \"flathub\""), "gpg-verify"), Some("false"));
}

#[test]
fn config_patch_creates_the_section_when_absent() {
    let out = patch_config("[other]\nkey=value\n").unwrap();
    let doc = ini::Ini::load_from_str(&out).unwrap();
    assert_eq!(doc.get_from(Some("core"), "summary-max-size"), Some("268435456"));
    assert_eq!(doc.get_from(Some("other"), "key"), Some("value"));
}

#[test]
fn unparsable_config_is_refused() {
    assert!(patch_config("[unclosed\n=broken").is_none());
}

#[test]
fn metadata_lookup_reads_the_first_value() {
    let meta = "[Application]\nname=org.editor\nruntime=platform/x86_64/24.08\ncommand=editor\n";
    assert_eq!(metadata_runtime(meta).unwrap(), "platform/x86_64/24.08");
    assert_eq!(default_command(meta), "editor");
    assert_eq!(lookup(meta, "Application", "name").unwrap(), "org.editor");
    assert!(lookup(meta, "Application", "missing").is_none());
    assert!(lookup(meta, "Missing", "runtime").is_none());
}

#[test]
fn metadata_without_command_defaults_to_the_shell() {
    let meta = "[Application]\nruntime=platform/x86_64/24.08\n";
    assert_eq!(default_command(meta), "sh");
    assert!(metadata_runtime("[Application]\nname=x\n").is_none());
}

#[test]
fn descriptor_fields_are_extracted() {
    let text = "[Flatpak Ref]\nName=org.editor\nUrl=https://example.test/repo/\n";
    let d = descriptor_fields(text).unwrap();
    assert_eq!(d.name, "org.editor");
    assert_eq!(d.url, "https://example.test/repo/");
    assert!(d.branch.is_none());
    assert!(descriptor_fields("[Flatpak Ref]\nUrl=u\n").is_none());
    assert!(descriptor_fields("not an ini [").is_none());
}

#[test]
fn runtime_triple_takes_the_first_three_fields() {
    let (name, arch, branch) = parse_runtime_triple("platform/x86_64/24.08").unwrap();
    assert_eq!(name, "platform");
    assert_eq!(arch, "x86_64");
    assert_eq!(branch, "24.08");
    let (_, _, branch) = parse_runtime_triple("a/b/c/d").unwrap();
    assert_eq!(branch, "c");
    assert!(parse_runtime_triple("a/b").is_none());
    assert!(parse_runtime_triple("bare").is_none());
}

#[test]
fn layout_paths_follow_the_per_user_base() {
    assert_eq!(get_flatpak_dir("/home/u"), "/home/u/.local/share/flatpak");
    assert_eq!(get_repo_dir("/home/u"), "/home/u/.local/share/flatpak/repo");
    assert_eq!(repo_config_path("/home/u"), "/home/u/.local/share/flatpak/repo/config");
    assert_eq!(
        compat_config_path("/home/u"),
        "/compat/ubuntu/home/u/.local/share/flatpak/repo/config"
    );
    assert_eq!(
        app_files_dir("/home/u", "org.editor"),
        "/home/u/.local/share/flatpak/app/org.editor/x86_64/stable/active/files"
    );
    assert_eq!(
        app_metadata_path("/home/u", "org.editor"),
        "/home/u/.local/share/flatpak/app/org.editor/x86_64/stable/active/metadata"
    );
    assert_eq!(
        runtime_files_dir("/home/u", "platform", "x86_64", "24.08"),
        "/home/u/.local/share/flatpak/runtime/platform/x86_64/24.08/active/files"
    );
}

#[test]
fn jail_identity_is_derived_from_the_application_id() {
    assert_eq!(jail_root_path("org.gnome.TextEditor"), "/mnt/flatvodka_org.gnome.TextEditor");
    assert_eq!(jail_name("org.gnome.TextEditor"), "fv_org_gnome_TextEditor");
    let j = make_jail_spec("org.app");
    assert_eq!(j.name, "fv_org_app");
    assert_eq!(j.path, "/mnt/flatvodka_org.app");
    assert_eq!(j.hostname, "flatvodka");
}

#[test]
fn content_store_binary_fallback_order() {
    assert_eq!(choose_ostree(true, true, true).unwrap(), "/compat/ubuntu/usr/bin/ostree");
    assert_eq!(choose_ostree(false, true, true).unwrap(), "/compat/linux/usr/bin/ostree");
    assert_eq!(choose_ostree(false, false, true).unwrap(), "ostree");
    assert!(choose_ostree(false, false, false).is_none());
}

#[test]
fn loader_cache_takes_the_first_present_candidate() {
    assert_eq!(
        loaders_cache_path(&vec![false, true, false, true]),
        "/usr/lib/gdk-pixbuf-2.0/2.10.0/loaders.cache"
    );
    assert_eq!(
        loaders_cache_path(&vec![true, true, false, false]),
        "/usr/lib/x86_64-linux-gnu/gdk-pixbuf-2.0/2.10.0/loaders.cache"
    );
    assert_eq!(
        loaders_cache_path(&vec![false, false, false, true]),
        "/lib/gdk-pixbuf-2.0/2.10.0/loaders.cache"
    );
    // no candidate: the default guess
    assert_eq!(
        loaders_cache_path(&vec![false, false, false, false]),
        "/usr/lib/gdk-pixbuf-2.0/2.10.0/loaders.cache"
    );
}

#[test]
fn library_injection_takes_the_first_location_and_skips_present_ones() {
    // present in two compatibility locations: the first in priority order wins
    let c = lib_injection_plan("libGL.so.1", false, &vec![false, true, false, true]).unwrap();
    assert_eq!(c.source, "/compat/ubuntu/lib64/libGL.so.1");
    assert_eq!(c.target_subdir, "lib64");
    let c = lib_injection_plan("libGL.so.1", false, &vec![true, true, false, false]).unwrap();
    assert_eq!(c.source, "/compat/ubuntu/lib/libGL.so.1");
    assert_eq!(c.target_subdir, "lib");
    // already inside the root: a second attempt does nothing
    assert!(lib_injection_plan("libGL.so.1", true, &vec![false, true, false, true]).is_none());
    // nowhere to be found: nothing to copy
    assert!(lib_injection_plan("libGL.so.1", false, &vec![false, false, false, false]).is_none());
}

#[test]
fn first_match_returns_the_least_set_index() {
    assert_eq!(first_match(&vec![false, false, true, true]), Some(2));
    assert_eq!(first_match(&vec![true]), Some(0));
    assert_eq!(first_match(&vec![false, false]), None);
    assert_eq!(first_match(&vec![]), None);
}

#[test]
fn command_resolution_prefers_raw_arguments() {
    assert_eq!(resolve_command(false, Some("vim"), "editor"), "editor");
    assert_eq!(resolve_command(true, Some("vim"), "editor"), "vim");
    assert_eq!(resolve_command(true, None, "editor"), "editor");
}

#[test]
fn executable_paths_inside_the_root() {
    assert_eq!(bin_path_of("editor"), "/app/bin/editor");
    assert_eq!(bin_path_of("/usr/bin/editor"), "/usr/bin/editor");
    assert_eq!(
        host_bin_path("/mnt/flatvodka_org.app", "/app/bin/editor"),
        "/mnt/flatvodka_org.app/app/bin/editor"
    );
    assert_eq!(host_bin_path("/mnt/x", "//twice"), "/mnt/x/twice");
}

#[test]
fn shell_command_is_assembled_exactly() {
    let cmd = shell_command(
        "org.app",
        "1000",
        "/usr/lib/gdk-pixbuf-2.0/2.10.0/loaders.cache",
        "/app/bin/editor",
    );
    let expected = "export LD_LIBRARY_PATH=\"/app/lib:/app/lib64:/lib/x86_64-linux-gnu:/usr/lib/x86_64-linux-gnu:/lib64:/lib:/usr/lib64:/usr/lib\"; export TERM=xterm-256color; export container=flatpak; export FLATPAK_ID=\"org.app\"; export HOME=/home/user; export USER=user; export XDG_RUNTIME_DIR=/run/user/1000; export PATH=/app/bin:/usr/bin:/bin:/sbin:/usr/sbin; export XDG_DATA_DIRS=/app/share:/usr/share:/share; export XDG_CONFIG_DIRS=/app/etc/xdg:/etc/xdg; export XDG_CACHE_HOME=/home/user/.cache; export GI_TYPELIB_PATH=\"/app/lib/girepository-1.0:/usr/lib/girepository-1.0:/usr/lib/x86_64-linux-gnu/girepository-1.0:/lib/girepository-1.0\"; export GDK_PIXBUF_MODULE_FILE=\"/usr/lib/gdk-pixbuf-2.0/2.10.0/loaders.cache\"; export GST_PLUGIN_SYSTEM_PATH=/app/lib/gstreamer-1.0:/usr/lib/extensions/gstreamer-1.0:/usr/lib/x86_64-linux-gnu/gstreamer-1.0; export XDG_CURRENT_DESKTOP=GNOME; export LANG=C.UTF-8; exec \"/app/bin/editor\"";
    assert_eq!(cmd, expected);
}

#[test]
fn bind_mounts_are_nullfs_and_optional() {
    let m = mount_bind("/src".to_string(), "/dst".to_string(), true);
    assert_eq!(m.source, "/src");
    assert_eq!(m.target, "/dst");
    assert_eq!(m.fstype, "nullfs");
    assert!(m.readonly);
    assert!(!m.required);
}

#[test]
fn name_filters_keep_matches_in_order() {
    let names = vec![
        "radeon_icd.x86_64.json".to_string(),
        "README".to_string(),
        "intel_icd.x86_64.json".to_string(),
    ];
    assert_eq!(
        filter_by_suffix(&names, ".json"),
        vec!["radeon_icd.x86_64.json".to_string(), "intel_icd.x86_64.json".to_string()]
    );
    assert!(filter_by_suffix(&vec![], ".json").is_empty());
    let libs = vec![
        "libGL.so.1".to_string(),
        "libc.so.7".to_string(),
        "libEGL.so.1".to_string(),
        "libGLX_mesa.so.0".to_string(),
        "GLlib.so".to_string(),
    ];
    assert_eq!(
        filter_gl_names(&libs),
        vec![
            "libGL.so.1".to_string(),
            "libEGL.so.1".to_string(),
            "libGLX_mesa.so.0".to_string()
        ]
    );
}
