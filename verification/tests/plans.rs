use flatvodka::sandbox::{
    bridge_plan, failure_policy, hierarchy_plan, instance_descriptor, next_phase, provision_plan,
    pseudo_fs_plan, repair_plan, teardown_plan, BridgeObs, FailurePolicy, RepairObs, RunPhase,
    Step,
};

fn is_mount(s: &Step) -> bool {
    matches!(s, Step::Mount(_) | Step::MountTmpfs { .. })
}

fn is_undo(s: &Step) -> bool {
    matches!(
        s,
        Step::UnregisterJail { .. } | Step::UnmountForce { .. } | Step::RemoveTree { .. }
    )
}

fn all_obs_present() -> BridgeObs {
    BridgeObs {
        fonts_present: true,
        os_release_present: true,
        x11_present: true,
        wayland: Some("wayland-0".to_string()),
        wayland_socket_present: true,
        pulse_present: true,
        atspi_present: true,
        dbus_present: true,
    }
}

#[test]
fn teardown_unmounts_every_recorded_target_before_any_new_mount() {
    // a prior instance with its recorded mounts, wayland included
    let td = teardown_plan("org.app", "alice", "1000", Some("wayland-0"));
    let root = "/mnt/flatvodka_org.app";
    let expected_unmounts = vec![
        format!("{}/tmp/.X11-unix", root),
        format!("{}/dev", root),
        format!("{}/proc", root),
        format!("{}/sys", root),
        format!("{}/var/run/dbus", root),
        format!("{}/run/host/fonts", root),
        format!("{}/var/run/xdg/alice/at-spi", root),
        format!("{}/run/user/1000/wayland-0", root),
        root.to_string(),
    ];
    let seen: Vec<String> = td
        .iter()
        .filter_map(|s| match s {
            Step::UnmountForce { target } => Some(target.clone()),
            _ => None,
        })
        .collect();
    assert_eq!(seen, expected_unmounts);
    assert!(matches!(td[0], Step::UnregisterJail { .. }));
    assert!(matches!(td.last().unwrap(), Step::RemoveTree { .. }));

    // mount-call ordering over the whole run: every teardown step precedes
    // every mount of the later phases
    let mut run: Vec<Step> = td;
    let n_teardown = run.len();
    run.extend(provision_plan("org.app", "/rt/files", "/app/files"));
    run.extend(bridge_plan("org.app", "alice", "1000", &all_obs_present()));
    run.extend(pseudo_fs_plan("org.app"));
    for (i, s) in run.iter().enumerate() {
        if is_mount(s) {
            assert!(i >= n_teardown);
        }
        if i < n_teardown {
            assert!(is_undo(s));
        } else {
            assert!(!is_undo(s));
        }
    }
}

#[test]
fn teardown_without_wayland_names_no_wayland_target() {
    let td = teardown_plan("org.app", "alice", "1000", None);
    for s in &td {
        if let Step::UnmountForce { target } = s {
            assert!(!target.contains("wayland"));
        }
    }
    assert_eq!(td.len(), 10);
}

#[test]
fn provision_copies_runtime_fatally_and_app_leniently() {
    let p = provision_plan("org.app", "/rt/files", "/app/files");
    assert_eq!(p.len(), 5);
    assert!(matches!(&p[0], Step::CreateDir { path } if path == "/mnt/flatvodka_org.app"));
    assert!(matches!(&p[1], Step::MountTmpfs { target } if target == "/mnt/flatvodka_org.app"));
    match &p[2] {
        Step::CopyTree { source, target, fatal } => {
            assert_eq!(source, "/rt/files");
            assert_eq!(target, "/mnt/flatvodka_org.app");
            assert!(*fatal);
        }
        other => panic!("expected the runtime copy, got {:?}", other),
    }
    match &p[4] {
        Step::CopyTree { source, target, fatal } => {
            assert_eq!(source, "/app/files");
            assert_eq!(target, "/mnt/flatvodka_org.app/app");
            assert!(!*fatal);
        }
        other => panic!("expected the app copy, got {:?}", other),
    }
    assert_eq!(failure_policy(&p[1]), FailurePolicy::Abort);
    assert_eq!(failure_policy(&p[2]), FailurePolicy::Abort);
    assert_eq!(failure_policy(&p[4]), FailurePolicy::Degrade);
}

#[test]
fn repair_links_missing_directories() {
    let o = RepairObs {
        usr_present: false,
        usr_lib_present: false,
        usr_bin_present: true,
        usr_share_present: false,
        lib_present: true,
        bin_present: true,
        share_present: false,
        lib64_present: false,
        machine_id_present: false,
        host_machine_id_present: false,
        dbus_machine_id_present: false,
    };
    let p = repair_plan("org.app", &o);
    let root = "/mnt/flatvodka_org.app";
    assert!(matches!(&p[0], Step::CreateDir { path } if path == &format!("{}/usr", root)));
    assert!(
        matches!(&p[1], Step::SymlinkTo { value, link }
            if value == "../lib" && link == &format!("{}/usr/lib", root))
    );
    // usr/bin already present, share source missing: neither is linked
    for s in &p {
        if let Step::SymlinkTo { link, .. } = s {
            assert!(!link.ends_with("/usr/bin"));
            assert!(!link.ends_with("/usr/share"));
        }
    }
    assert!(
        matches!(&p[2], Step::SymlinkTo { value, link }
            if value == "lib" && link == &format!("{}/lib64", root))
    );
    // no host identity: the fixed fallback is written
    assert!(
        matches!(&p[3], Step::WriteFile { path, content }
            if path == &format!("{}/etc/machine-id", root)
                && content == "5c02456317b34d6983792070381665ea\n")
    );
    assert!(matches!(&p[4], Step::CreateDir { path } if path == &format!("{}/var/lib/dbus", root)));
    assert!(
        matches!(&p[5], Step::SymlinkTo { value, link }
            if value == "/etc/machine-id" && link == &format!("{}/var/lib/dbus/machine-id", root))
    );
    assert_eq!(p.len(), 6);
}

#[test]
fn repair_prefers_host_machine_identity() {
    let o = RepairObs {
        usr_present: true,
        usr_lib_present: true,
        usr_bin_present: true,
        usr_share_present: true,
        lib_present: true,
        bin_present: true,
        share_present: true,
        lib64_present: true,
        machine_id_present: false,
        host_machine_id_present: true,
        dbus_machine_id_present: true,
    };
    let p = repair_plan("org.app", &o);
    assert!(
        matches!(&p[0], Step::CopyFile { source, target }
            if source == "/etc/machine-id"
                && target == "/mnt/flatvodka_org.app/etc/machine-id")
    );
    assert!(matches!(&p[1], Step::CreateDir { .. }));
    assert_eq!(p.len(), 2);
}

#[test]
fn hierarchy_writes_the_instance_descriptor() {
    let p = hierarchy_plan("org.app", "1000");
    assert_eq!(p.len(), 9);
    match p.last().unwrap() {
        Step::WriteFile { path, content } => {
            assert_eq!(path, "/mnt/flatvodka_org.app/run/user/1000/flatpak-info");
            assert_eq!(content, &instance_descriptor("org.app"));
        }
        other => panic!("expected the descriptor write, got {:?}", other),
    }
    let expected = "\n    [Instance]\n    instance-id=flatvodka\n    app-id=org.app\n    arch=x86_64\n    flatpak-version=1.14.0\n    runtime-path=/usr\n    original-app-path=/app\n    ";
    assert_eq!(instance_descriptor("org.app"), expected);
}

#[test]
fn missing_wayland_socket_skips_only_that_bridge() {
    let mut o = all_obs_present();
    o.wayland_socket_present = false;
    let with_missing_socket = bridge_plan("org.app", "alice", "1000", &o);
    let mut o2 = all_obs_present();
    o2.wayland = None;
    o2.wayland_socket_present = false;
    let with_no_env = bridge_plan("org.app", "alice", "1000", &o2);
    // no step touches the secondary-display socket, the rest is unaffected
    assert_eq!(with_missing_socket.len(), with_no_env.len());
    for s in &with_missing_socket {
        let touched = match s {
            Step::EnsureFile { path } => path.contains("wayland"),
            Step::Mount(m) => m.source.contains("wayland") || m.target.contains("wayland"),
            _ => false,
        };
        assert!(!touched);
    }
    // the later bridges are still planned
    assert!(with_missing_socket.iter().any(|s| matches!(
        s,
        Step::Mount(m) if m.target == "/mnt/flatvodka_org.app/run/user/1000/pulse/native"
    )));
    assert!(with_missing_socket.iter().any(|s| matches!(
        s,
        Step::Mount(m) if m.target == "/mnt/flatvodka_org.app/var/run/dbus"
    )));
    // and with the socket present, exactly two more steps appear
    let full = bridge_plan("org.app", "alice", "1000", &all_obs_present());
    assert_eq!(full.len(), with_missing_socket.len() + 2);
    assert!(full.iter().any(|s| matches!(
        s,
        Step::Mount(m) if m.source == "/var/run/user/1000/wayland-0"
            && m.target == "/mnt/flatvodka_org.app/run/user/1000/wayland-0"
            && !m.readonly
    )));
}

#[test]
fn fonts_bridge_is_readonly_and_configured() {
    let mut o = all_obs_present();
    o.x11_present = false;
    o.wayland = None;
    o.pulse_present = false;
    o.atspi_present = false;
    o.dbus_present = false;
    o.os_release_present = false;
    let p = bridge_plan("org.app", "alice", "1000", &o);
    match &p[1] {
        Step::Mount(m) => {
            assert_eq!(m.source, "/usr/local/share/fonts");
            assert_eq!(m.target, "/mnt/flatvodka_org.app/run/host/fonts");
            assert_eq!(m.fstype, "nullfs");
            assert!(m.readonly);
            assert!(!m.required);
        }
        other => panic!("expected the fonts mount, got {:?}", other),
    }
    assert!(matches!(&p[2], Step::WriteFile { path, .. }
        if path == "/mnt/flatvodka_org.app/run/host/font-dirs.xml"));
    // fonts, xml, the tmp directory: nothing else
    assert_eq!(p.len(), 4);
}

#[test]
fn kernel_pseudo_filesystems_are_required() {
    let p = pseudo_fs_plan("org.app");
    let mut mounts = 0;
    for s in &p {
        if let Step::Mount(m) = s {
            mounts += 1;
            assert!(m.required);
            assert_eq!(failure_policy(s), FailurePolicy::Abort);
            match m.fstype.as_str() {
                "devfs" => assert_eq!(m.target, "/mnt/flatvodka_org.app/dev"),
                "linprocfs" => assert_eq!(m.target, "/mnt/flatvodka_org.app/proc"),
                "linsysfs" => assert_eq!(m.target, "/mnt/flatvodka_org.app/sys"),
                other => panic!("unexpected filesystem {}", other),
            }
        }
    }
    assert_eq!(mounts, 3);
}

#[test]
fn teardown_failures_are_tolerated() {
    let td = teardown_plan("org.app", "alice", "1000", None);
    for s in &td {
        assert_eq!(failure_policy(s), FailurePolicy::Tolerate);
    }
}

#[test]
fn phases_are_strictly_sequential() {
    let order = [
        RunPhase::Idle,
        RunPhase::Teardown,
        RunPhase::ProvisionRoot,
        RunPhase::ProvisionTrees,
        RunPhase::RepairLayout,
        RunPhase::BuildRunHierarchy,
        RunPhase::BridgeResources,
        RunPhase::BridgeKernelPseudoFs,
        RunPhase::Brand,
        RunPhase::Launch,
        RunPhase::Running,
        RunPhase::Exited,
    ];
    for w in order.windows(2) {
        assert_eq!(next_phase(w[0]), w[1]);
    }
    assert_eq!(next_phase(RunPhase::Exited), RunPhase::Idle);
}
