use flatvodka::install::{HostAction, HostEvent, InstallError, Installer};

const HOME: &str = "/home/user";

fn drive_one_item(
    m: &mut Installer,
    first: HostAction,
    commit: &str,
    commit_present: bool,
    commit_empty: bool,
    metadata: Option<&str>,
) -> Vec<HostAction> {
    let mut actions = vec![first];
    let mut push_step = |m: &mut Installer, e: HostEvent, acts: &mut Vec<HostAction>| {
        let a = m.step(e);
        acts.push(a);
    };
    assert!(matches!(actions[0], HostAction::ProbeRepoConfig { .. }));
    push_step(m, HostEvent::RepoConfigExists(true), &mut actions);
    assert!(matches!(actions.last().unwrap(), HostAction::AddRemote { .. }));
    push_step(m, HostEvent::Proceed, &mut actions);
    assert!(matches!(actions.last().unwrap(), HostAction::DisableVerify { .. }));
    push_step(m, HostEvent::Proceed, &mut actions);
    assert!(matches!(actions.last().unwrap(), HostAction::PatchRepoConfig { .. }));
    push_step(m, HostEvent::Proceed, &mut actions);
    assert!(matches!(actions.last().unwrap(), HostAction::Pull { .. }));
    push_step(m, HostEvent::PullResult(true), &mut actions);
    assert!(matches!(actions.last().unwrap(), HostAction::ResolveCommit { .. }));
    push_step(m, HostEvent::ResolvedCommit(commit.to_string()), &mut actions);
    assert!(matches!(actions.last().unwrap(), HostAction::ProbeCommitDir { .. }));
    push_step(
        m,
        HostEvent::CommitDirState { present: commit_present, empty: commit_empty },
        &mut actions,
    );
    if let HostAction::Checkout { .. } = actions.last().unwrap() {
        push_step(m, HostEvent::CheckoutResult(true), &mut actions);
    }
    assert!(matches!(actions.last().unwrap(), HostAction::UpdateActivePointer { .. }));
    let next = m.step(HostEvent::Proceed);
    actions.push(next);
    if let HostAction::ReadMetadata { .. } = actions.last().unwrap() {
        let a = m.step(HostEvent::MetadataContent(metadata.map(|s| s.to_string())));
        actions.push(a);
    }
    actions
}

fn count_checkouts(actions: &[HostAction]) -> usize {
    actions.iter().filter(|a| matches!(a, HostAction::Checkout { .. })).count()
}

#[test]
fn install_twice_performs_exactly_one_checkout() {
    // first invocation: commit directory absent, a checkout happens
    let mut m1 = Installer::new(HOME.to_string(), "editor-app".to_string());
    let first = m1.step(HostEvent::Proceed);
    let run1 = drive_one_item(&mut m1, first, "abc123", false, true, None);
    assert_eq!(count_checkouts(&run1), 1);
    assert!(matches!(run1.last().unwrap(), HostAction::Finished));

    // second invocation: the directory is observed non-empty, checkout is
    // skipped, the active pointer is still updated
    let mut m2 = Installer::new(HOME.to_string(), "editor-app".to_string());
    let first = m2.step(HostEvent::Proceed);
    let run2 = drive_one_item(&mut m2, first, "abc123", true, false, None);
    assert_eq!(count_checkouts(&run2), 0);
    let activates = run2
        .iter()
        .filter(|a| matches!(a, HostAction::UpdateActivePointer { .. }))
        .count();
    assert_eq!(activates, 1);
    assert_eq!(count_checkouts(&run1) + count_checkouts(&run2), 1);
}

#[test]
fn active_pointer_names_the_probed_commit() {
    let mut m = Installer::new(HOME.to_string(), "editor-app".to_string());
    let first = m.step(HostEvent::Proceed);
    let run = drive_one_item(&mut m, first, "abc123", true, false, None);
    let mut seen_probe_path = String::new();
    let mut pointer: Option<(String, String)> = None;
    for a in &run {
        match a {
            HostAction::ProbeCommitDir { path } => seen_probe_path = path.clone(),
            HostAction::UpdateActivePointer { link, commit } => {
                pointer = Some((link.clone(), commit.clone()));
            }
            _ => {}
        }
    }
    let base = "/home/user/.local/share/flatpak/app/editor-app/x86_64/stable";
    assert_eq!(seen_probe_path, format!("{}/abc123", base));
    let (link, commit) = pointer.unwrap();
    assert_eq!(link, format!("{}/active", base));
    assert_eq!(commit, "abc123");
}

#[test]
fn checkout_happens_before_activation() {
    let mut m = Installer::new(HOME.to_string(), "editor-app".to_string());
    let first = m.step(HostEvent::Proceed);
    let run = drive_one_item(&mut m, first, "abc123", false, true, None);
    let checkout_idx = run
        .iter()
        .position(|a| matches!(a, HostAction::Checkout { .. }))
        .unwrap();
    let activate_idx = run
        .iter()
        .position(|a| matches!(a, HostAction::UpdateActivePointer { .. }))
        .unwrap();
    assert!(checkout_idx < activate_idx);
}

#[test]
fn metadata_dependency_triggers_second_install() {
    let mut m = Installer::new(HOME.to_string(), "editor-app".to_string());
    let first = m.step(HostEvent::Proceed);
    let run = drive_one_item(
        &mut m,
        first,
        "abc123",
        false,
        true,
        Some("[Application]\nruntime=platform/x86_64/24.08\n"),
    );
    // the dependency starts a second pass, beginning with the repository probe
    assert!(matches!(run.last().unwrap(), HostAction::ProbeRepoConfig { .. }));
    // drive the second item up to its pull and observe the exact reference
    let a = m.step(HostEvent::RepoConfigExists(true));
    assert!(matches!(a, HostAction::AddRemote { .. }));
    let a = m.step(HostEvent::Proceed);
    assert!(matches!(a, HostAction::DisableVerify { .. }));
    let a = m.step(HostEvent::Proceed);
    assert!(matches!(a, HostAction::PatchRepoConfig { .. }));
    let a = m.step(HostEvent::Proceed);
    match a {
        HostAction::Pull { remote, reference, .. } => {
            assert_eq!(remote, "flathub");
            assert_eq!(reference, "runtime/platform/x86_64/24.08");
        }
        other => panic!("expected a pull, got {:?}", other),
    }
}

#[test]
fn runtime_item_reads_no_metadata() {
    let mut m = Installer::new(HOME.to_string(), "runtime/platform/x86_64/24.08".to_string());
    let mut a = m.step(HostEvent::Proceed);
    assert!(matches!(a, HostAction::ProbeRepoConfig { .. }));
    a = m.step(HostEvent::RepoConfigExists(true));
    assert!(matches!(a, HostAction::AddRemote { .. }));
    a = m.step(HostEvent::Proceed);
    a = m.step(HostEvent::Proceed);
    a = m.step(HostEvent::Proceed);
    assert!(matches!(a, HostAction::Pull { .. }));
    a = m.step(HostEvent::PullResult(true));
    a = m.step(HostEvent::ResolvedCommit("c0ffee".to_string()));
    a = m.step(HostEvent::CommitDirState { present: false, empty: true });
    assert!(matches!(a, HostAction::Checkout { .. }));
    a = m.step(HostEvent::CheckoutResult(true));
    assert!(matches!(a, HostAction::UpdateActivePointer { .. }));
    a = m.step(HostEvent::Proceed);
    // a runtime has no dependency step: the work list is done
    assert!(matches!(a, HostAction::Finished));
}

#[test]
fn missing_repo_config_initializes_first() {
    let mut m = Installer::new(HOME.to_string(), "editor-app".to_string());
    let a = m.step(HostEvent::Proceed);
    assert!(matches!(a, HostAction::ProbeRepoConfig { .. }));
    let a = m.step(HostEvent::RepoConfigExists(false));
    match a {
        HostAction::InitRepo { repo_dir } => {
            assert_eq!(repo_dir, "/home/user/.local/share/flatpak/repo");
        }
        other => panic!("expected repository initialization, got {:?}", other),
    }
    let a = m.step(HostEvent::Proceed);
    assert!(matches!(a, HostAction::AddRemote { .. }));
}

#[test]
fn pull_failure_is_fatal() {
    let mut m = Installer::new(HOME.to_string(), "editor-app".to_string());
    m.step(HostEvent::Proceed);
    m.step(HostEvent::RepoConfigExists(true));
    m.step(HostEvent::Proceed);
    m.step(HostEvent::Proceed);
    m.step(HostEvent::Proceed);
    let a = m.step(HostEvent::PullResult(false));
    assert!(matches!(a, HostAction::Fail { error: InstallError::PullFailed }));
}

#[test]
fn checkout_failure_is_fatal() {
    let mut m = Installer::new(HOME.to_string(), "editor-app".to_string());
    m.step(HostEvent::Proceed);
    m.step(HostEvent::RepoConfigExists(true));
    m.step(HostEvent::Proceed);
    m.step(HostEvent::Proceed);
    m.step(HostEvent::Proceed);
    m.step(HostEvent::PullResult(true));
    m.step(HostEvent::ResolvedCommit("abc".to_string()));
    m.step(HostEvent::CommitDirState { present: false, empty: true });
    let a = m.step(HostEvent::CheckoutResult(false));
    assert!(matches!(a, HostAction::Fail { error: InstallError::CheckoutFailed }));
}

#[test]
fn malformed_identifier_fails_install() {
    let mut m = Installer::new(HOME.to_string(), "a/b".to_string());
    let a = m.step(HostEvent::Proceed);
    assert!(matches!(a, HostAction::Fail { error: InstallError::InvalidReference }));
}

#[test]
fn unreadable_descriptor_fails_install() {
    let mut m = Installer::new(HOME.to_string(), "x.flatpakref".to_string());
    let a = m.step(HostEvent::Proceed);
    match a {
        HostAction::ReadDescriptor { path } => assert_eq!(path, "x.flatpakref"),
        other => panic!("expected a descriptor read, got {:?}", other),
    }
    let a = m.step(HostEvent::DescriptorContent(None));
    assert!(matches!(a, HostAction::Fail { error: InstallError::DescriptorMissing }));
}

#[test]
fn descriptor_without_required_fields_fails() {
    let mut m = Installer::new(HOME.to_string(), "x.flatpakref".to_string());
    m.step(HostEvent::Proceed);
    let a = m.step(HostEvent::DescriptorContent(Some(
        "[Flatpak Ref]\nTitle=No name here\n".to_string(),
    )));
    assert!(matches!(a, HostAction::Fail { error: InstallError::BadDescriptor }));
}

#[test]
fn descriptor_resolves_to_origin_remote() {
    let mut m = Installer::new(HOME.to_string(), "editor.flatpakref".to_string());
    m.step(HostEvent::Proceed);
    let a = m.step(HostEvent::DescriptorContent(Some(
        "[Flatpak Ref]\nName=org.editor\nUrl=https://example.test/repo/\nBranch=beta\n".to_string(),
    )));
    assert!(matches!(a, HostAction::ProbeRepoConfig { .. }));
    let a = m.step(HostEvent::RepoConfigExists(true));
    match a {
        HostAction::AddRemote { name, url, .. } => {
            assert_eq!(name, "origin");
            assert_eq!(url, "https://example.test/repo/");
        }
        other => panic!("expected the remote registration, got {:?}", other),
    }
    m.step(HostEvent::Proceed);
    let a = m.step(HostEvent::Proceed);
    assert!(matches!(a, HostAction::PatchRepoConfig { .. }));
    let a = m.step(HostEvent::Proceed);
    match a {
        HostAction::Pull { remote, reference, .. } => {
            assert_eq!(remote, "origin");
            assert_eq!(reference, "app/org.editor/x86_64/beta");
        }
        other => panic!("expected a pull, got {:?}", other),
    }
}

#[test]
fn dependency_cycle_is_rejected() {
    let mut m = Installer::new(HOME.to_string(), "editor-app".to_string());
    let first = m.step(HostEvent::Proceed);
    // metadata names the app's own reference as its runtime
    let run = drive_one_item(
        &mut m,
        first,
        "abc123",
        false,
        true,
        Some("[Application]\nruntime=app/editor-app/x86_64/stable\n"),
    );
    assert!(matches!(
        run.last().unwrap(),
        HostAction::Fail { error: InstallError::CyclicDependency }
    ));
}
