//! The sandbox lifecycle: an ephemeral root is driven through teardown,
//! provisioning, layout repair, run-hierarchy construction, resource
//! bridging, kernel pseudo-filesystem mounts, branding and launch. Each
//! phase is a pure plan — an ordered list of host steps — and a policy says
//! which failures abort, degrade, or are ignored.

use vstd::prelude::*;

use crate::paths::{jail_name_spec, jail_root_spec, jail_root_path, jail_name};
use crate::{bind_spec, mount_bind, MountModel, MountPoint};

verus! {

/// One host effect of a sandbox phase.
#[derive(Clone, Debug)]
pub enum Step {
    /// Unregister the confinement unit of a previous instance.
    UnregisterJail { name: String },
    /// Force-unmount a target; failures are tolerated.
    UnmountForce { target: String },
    /// Remove a directory tree.
    RemoveTree { path: String },
    /// Create a directory and its parents.
    CreateDir { path: String },
    /// Mount an in-memory filesystem onto the ephemeral root.
    MountTmpfs { target: String },
    /// Stream-copy a file tree through an archive pipe.
    CopyTree { source: String, target: String, fatal: bool },
    /// Create a symbolic link at `link` pointing at `value`.
    SymlinkTo { value: String, link: String },
    /// Copy one file.
    CopyFile { source: String, target: String },
    /// Write a file with fixed content.
    WriteFile { path: String, content: String },
    /// Ensure an empty file exists (a bind-mount anchor for a socket).
    EnsureFile { path: String },
    /// Perform a mount.
    Mount(MountPoint),
}

/// Mathematical model of a `Step`.
pub enum StepModel {
    UnregisterJail { name: Seq<char> },
    UnmountForce { target: Seq<char> },
    RemoveTree { path: Seq<char> },
    CreateDir { path: Seq<char> },
    MountTmpfs { target: Seq<char> },
    CopyTree { source: Seq<char>, target: Seq<char>, fatal: bool },
    SymlinkTo { value: Seq<char>, link: Seq<char> },
    CopyFile { source: Seq<char>, target: Seq<char> },
    WriteFile { path: Seq<char>, content: Seq<char> },
    EnsureFile { path: Seq<char> },
    Mount(MountModel),
}

impl View for Step {
    type V = StepModel;

    open spec fn view(&self) -> StepModel {
        match self {
            Step::UnregisterJail { name } => StepModel::UnregisterJail { name: name@ },
            Step::UnmountForce { target } => StepModel::UnmountForce { target: target@ },
            Step::RemoveTree { path } => StepModel::RemoveTree { path: path@ },
            Step::CreateDir { path } => StepModel::CreateDir { path: path@ },
            Step::MountTmpfs { target } => StepModel::MountTmpfs { target: target@ },
            Step::CopyTree { source, target, fatal } => StepModel::CopyTree {
                source: source@,
                target: target@,
                fatal: *fatal,
            },
            Step::SymlinkTo { value, link } => StepModel::SymlinkTo { value: value@, link: link@ },
            Step::CopyFile { source, target } => StepModel::CopyFile {
                source: source@,
                target: target@,
            },
            Step::WriteFile { path, content } => StepModel::WriteFile {
                path: path@,
                content: content@,
            },
            Step::EnsureFile { path } => StepModel::EnsureFile { path: path@ },
            Step::Mount(m) => StepModel::Mount(m@),
        }
    }
}

/// The models of a vector of steps.
pub open spec fn views(s: Seq<Step>) -> Seq<StepModel> {
    s.map_values(|st: Step| st@)
}

/// A step that creates a mount.
pub open spec fn is_mount_step(s: StepModel) -> bool {
    s is Mount || s is MountTmpfs
}

/// A step that undoes a previous instance: unregister, unmount, or remove.
pub open spec fn is_undo_step(s: StepModel) -> bool {
    s is UnregisterJail || s is UnmountForce || s is RemoveTree
}

/// What a step's failure means to the pipeline: teardown and repair steps
/// are best-effort, required mounts and tree provisioning abort, optional
/// bridges and the application tree degrade.
#[derive(Clone, Copy, PartialEq, Eq, Structural, Debug)]
pub enum FailurePolicy {
    /// Ignore the failure and continue.
    Tolerate,
    /// Log the loss of a feature and continue.
    Degrade,
    /// Abort the run.
    Abort,
}

/// The failure policy of each step kind.
pub open spec fn failure_policy_spec(s: StepModel) -> FailurePolicy {
    match s {
        StepModel::UnregisterJail { .. } => FailurePolicy::Tolerate,
        StepModel::UnmountForce { .. } => FailurePolicy::Tolerate,
        StepModel::RemoveTree { .. } => FailurePolicy::Tolerate,
        StepModel::CreateDir { .. } => FailurePolicy::Abort,
        StepModel::MountTmpfs { .. } => FailurePolicy::Abort,
        StepModel::CopyTree { fatal, .. } => if fatal {
            FailurePolicy::Abort
        } else {
            FailurePolicy::Degrade
        },
        StepModel::SymlinkTo { .. } => FailurePolicy::Tolerate,
        StepModel::CopyFile { .. } => FailurePolicy::Tolerate,
        StepModel::WriteFile { .. } => FailurePolicy::Tolerate,
        StepModel::EnsureFile { .. } => FailurePolicy::Tolerate,
        StepModel::Mount(m) => if m.required {
            FailurePolicy::Abort
        } else {
            FailurePolicy::Degrade
        },
    }
}

/// What to do when this step fails.
pub fn failure_policy(s: &Step) -> (r: FailurePolicy)
    ensures
        r == failure_policy_spec(s@),
{
    match s {
        Step::UnregisterJail { .. } => FailurePolicy::Tolerate,
        Step::UnmountForce { .. } => FailurePolicy::Tolerate,
        Step::RemoveTree { .. } => FailurePolicy::Tolerate,
        Step::CreateDir { .. } => FailurePolicy::Abort,
        Step::MountTmpfs { .. } => FailurePolicy::Abort,
        Step::CopyTree { fatal, .. } => if *fatal {
            FailurePolicy::Abort
        } else {
            FailurePolicy::Degrade
        },
        Step::SymlinkTo { .. } => FailurePolicy::Tolerate,
        Step::CopyFile { .. } => FailurePolicy::Tolerate,
        Step::WriteFile { .. } => FailurePolicy::Tolerate,
        Step::EnsureFile { .. } => FailurePolicy::Tolerate,
        Step::Mount(m) => if m.required {
            FailurePolicy::Abort
        } else {
            FailurePolicy::Degrade
        },
    }
}

/// The teardown plan for a previous instance of `app_id`: unregister its
/// jail, unmount every well-known mount target most-specific-first, unmount
/// the root itself, and remove the tree.
pub open spec fn teardown_plan_spec(
    app_id: Seq<char>,
    user: Seq<char>,
    uid: Seq<char>,
    wayland: Option<Seq<char>>,
) -> Seq<StepModel> {
    let root = jail_root_spec(app_id);
    seq![
        StepModel::UnregisterJail { name: jail_name_spec(app_id) },
        StepModel::UnmountForce { target: root + "/tmp/.X11-unix"@ },
        StepModel::UnmountForce { target: root + "/dev"@ },
        StepModel::UnmountForce { target: root + "/proc"@ },
        StepModel::UnmountForce { target: root + "/sys"@ },
        StepModel::UnmountForce { target: root + "/var/run/dbus"@ },
        StepModel::UnmountForce { target: root + "/run/host/fonts"@ },
        StepModel::UnmountForce { target: root + "/var/run/xdg/"@ + user + "/at-spi"@ },
    ] + (match wayland {
        Some(wl) => seq![
            StepModel::UnmountForce { target: root + "/run/user/"@ + uid + "/"@ + wl },
        ],
        None => Seq::<StepModel>::empty(),
    }) + seq![StepModel::UnmountForce { target: root }, StepModel::RemoveTree { path: root }]
}

/// Builds the teardown plan. `wayland` is the environment-advertised
/// secondary-display socket name, if any.
pub fn teardown_plan(app_id: &str, user: &str, uid: &str, wayland: Option<&str>) -> (r: Vec<Step>)
    ensures
        views(r@) == teardown_plan_spec(app_id@, user@, uid@, match wayland {
            Some(w) => Some(w@),
            None => None,
        }),
{
    let root = jail_root_path(app_id);
    let mut v: Vec<Step> = Vec::new();
    v.push(Step::UnregisterJail { name: jail_name(app_id) });
    v.push(Step::UnmountForce { target: String::from_str(root.as_str()).concat("/tmp/.X11-unix") });
    v.push(Step::UnmountForce { target: String::from_str(root.as_str()).concat("/dev") });
    v.push(Step::UnmountForce { target: String::from_str(root.as_str()).concat("/proc") });
    v.push(Step::UnmountForce { target: String::from_str(root.as_str()).concat("/sys") });
    v.push(Step::UnmountForce { target: String::from_str(root.as_str()).concat("/var/run/dbus") });
    v.push(
        Step::UnmountForce { target: String::from_str(root.as_str()).concat("/run/host/fonts") },
    );
    let mut atspi = String::from_str(root.as_str());
    atspi.append("/var/run/xdg/");
    atspi.append(user);
    atspi.append("/at-spi");
    v.push(Step::UnmountForce { target: atspi });
    match wayland {
        Some(wl) => {
            let mut wlt = String::from_str(root.as_str());
            wlt.append("/run/user/");
            wlt.append(uid);
            wlt.append("/");
            wlt.append(wl);
            v.push(Step::UnmountForce { target: wlt });
        },
        None => {},
    }
    v.push(Step::UnmountForce { target: root.clone() });
    v.push(Step::RemoveTree { path: root });
    proof {
        assert(views(v@) =~~= teardown_plan_spec(app_id@, user@, uid@, match wayland {
            Some(w) => Some(w@),
            None => None,
        }));
    }
    v
}

/// The provisioning plan: create the root, mount the in-memory filesystem
/// (required), copy the runtime tree (failure fatal), then the application
/// tree into `app` (failure degrades).
pub open spec fn provision_plan_spec(
    app_id: Seq<char>,
    rt_files: Seq<char>,
    app_files: Seq<char>,
) -> Seq<StepModel> {
    let root = jail_root_spec(app_id);
    seq![
        StepModel::CreateDir { path: root },
        StepModel::MountTmpfs { target: root },
        StepModel::CopyTree { source: rt_files, target: root, fatal: true },
        StepModel::CreateDir { path: root + "/app"@ },
        StepModel::CopyTree { source: app_files, target: root + "/app"@, fatal: false },
    ]
}

pub fn provision_plan(app_id: &str, rt_files: &str, app_files: &str) -> (r: Vec<Step>)
    ensures
        views(r@) == provision_plan_spec(app_id@, rt_files@, app_files@),
{
    let root = jail_root_path(app_id);
    let app_dir = String::from_str(root.as_str()).concat("/app");
    let mut v: Vec<Step> = Vec::new();
    v.push(Step::CreateDir { path: root.clone() });
    v.push(Step::MountTmpfs { target: root.clone() });
    v.push(Step::CopyTree { source: String::from_str(rt_files), target: root, fatal: true });
    v.push(Step::CreateDir { path: app_dir.clone() });
    v.push(Step::CopyTree { source: String::from_str(app_files), target: app_dir, fatal: false });
    proof {
        assert(views(v@) =~~= provision_plan_spec(app_id@, rt_files@, app_files@));
    }
    v
}

/// What the repair phase observed inside the freshly copied root.
pub struct RepairObs {
    pub usr_present: bool,
    pub usr_lib_present: bool,
    pub usr_bin_present: bool,
    pub usr_share_present: bool,
    pub lib_present: bool,
    pub bin_present: bool,
    pub share_present: bool,
    pub lib64_present: bool,
    pub machine_id_present: bool,
    pub host_machine_id_present: bool,
    pub dbus_machine_id_present: bool,
}

/// Fallback machine identity written when the host offers none.
pub fn fallback_machine_id() -> (r: &'static str)
    ensures
        r@ == "5c02456317b34d6983792070381665ea\n"@,
{
    "5c02456317b34d6983792070381665ea\n"
}

/// Link `usr` into being when the copied tree lacks it.
pub open spec fn repair_usr_part(root: Seq<char>, o: RepairObs) -> Seq<StepModel> {
    if !o.usr_present {
        seq![StepModel::CreateDir { path: root + "/usr"@ }]
    } else {
        Seq::<StepModel>::empty()
    }
}

/// Link `usr/lib` to the top-level `lib` when only the latter exists.
pub open spec fn repair_usr_lib_part(root: Seq<char>, o: RepairObs) -> Seq<StepModel> {
    if !o.usr_lib_present && o.lib_present {
        seq![StepModel::SymlinkTo { value: "../lib"@, link: root + "/usr/lib"@ }]
    } else {
        Seq::<StepModel>::empty()
    }
}

/// Link `usr/bin` to the top-level `bin` when only the latter exists.
pub open spec fn repair_usr_bin_part(root: Seq<char>, o: RepairObs) -> Seq<StepModel> {
    if !o.usr_bin_present && o.bin_present {
        seq![StepModel::SymlinkTo { value: "../bin"@, link: root + "/usr/bin"@ }]
    } else {
        Seq::<StepModel>::empty()
    }
}

/// Link `usr/share` to the top-level `share` when only the latter exists.
pub open spec fn repair_usr_share_part(root: Seq<char>, o: RepairObs) -> Seq<StepModel> {
    if !o.usr_share_present && o.share_present {
        seq![StepModel::SymlinkTo { value: "../share"@, link: root + "/usr/share"@ }]
    } else {
        Seq::<StepModel>::empty()
    }
}

/// Link `lib64` to `lib` when only `lib` exists.
pub open spec fn repair_lib64_part(root: Seq<char>, o: RepairObs) -> Seq<StepModel> {
    if !o.lib64_present && o.lib_present {
        seq![StepModel::SymlinkTo { value: "lib"@, link: root + "/lib64"@ }]
    } else {
        Seq::<StepModel>::empty()
    }
}

/// Provision a machine identity: the host's when it has one, else the fixed
/// fallback.
pub open spec fn repair_machine_id_part(root: Seq<char>, o: RepairObs) -> Seq<StepModel> {
    if !o.machine_id_present {
        if o.host_machine_id_present {
            seq![
                StepModel::CopyFile {
                    source: "/etc/machine-id"@,
                    target: root + "/etc/machine-id"@,
                },
            ]
        } else {
            seq![
                StepModel::WriteFile {
                    path: root + "/etc/machine-id"@,
                    content: "5c02456317b34d6983792070381665ea\n"@,
                },
            ]
        }
    } else {
        Seq::<StepModel>::empty()
    }
}

/// Give the message bus its conventional link to the machine identity.
pub open spec fn repair_dbus_id_part(root: Seq<char>, o: RepairObs) -> Seq<StepModel> {
    seq![StepModel::CreateDir { path: root + "/var/lib/dbus"@ }] + (
    if !o.dbus_machine_id_present {
        seq![
            StepModel::SymlinkTo {
                value: "/etc/machine-id"@,
                link: root + "/var/lib/dbus/machine-id"@,
            },
        ]
    } else {
        Seq::<StepModel>::empty()
    })
}

/// The layout-repair plan: link `usr/{lib,bin,share}` to the top-level
/// directories where only the latter exist, link `lib64` to `lib`, provision
/// a machine identity, and give the message bus its conventional link to it.
pub open spec fn repair_plan_spec(app_id: Seq<char>, o: RepairObs) -> Seq<StepModel> {
    let root = jail_root_spec(app_id);
    repair_usr_part(root, o) + repair_usr_lib_part(root, o) + repair_usr_bin_part(root, o)
        + repair_usr_share_part(root, o) + repair_lib64_part(root, o) + repair_machine_id_part(
        root,
        o,
    ) + repair_dbus_id_part(root, o)
}

fn push_repair_usr(v: &mut Vec<Step>, root: &String, o: &RepairObs)
    ensures
        views(final(v)@) == views(old(v)@) + repair_usr_part(root@, *o),
{
    if !o.usr_present {
        v.push(Step::CreateDir { path: String::from_str(root.as_str()).concat("/usr") });
    }
    proof {
        assert(views(v@) =~~= views(old(v)@) + repair_usr_part(root@, *o));
    }
}

fn push_repair_usr_lib(v: &mut Vec<Step>, root: &String, o: &RepairObs)
    ensures
        views(final(v)@) == views(old(v)@) + repair_usr_lib_part(root@, *o),
{
    if !o.usr_lib_present && o.lib_present {
        v.push(
            Step::SymlinkTo {
                value: String::from_str("../lib"),
                link: String::from_str(root.as_str()).concat("/usr/lib"),
            },
        );
    }
    proof {
        assert(views(v@) =~~= views(old(v)@) + repair_usr_lib_part(root@, *o));
    }
}

fn push_repair_usr_bin(v: &mut Vec<Step>, root: &String, o: &RepairObs)
    ensures
        views(final(v)@) == views(old(v)@) + repair_usr_bin_part(root@, *o),
{
    if !o.usr_bin_present && o.bin_present {
        v.push(
            Step::SymlinkTo {
                value: String::from_str("../bin"),
                link: String::from_str(root.as_str()).concat("/usr/bin"),
            },
        );
    }
    proof {
        assert(views(v@) =~~= views(old(v)@) + repair_usr_bin_part(root@, *o));
    }
}

fn push_repair_usr_share(v: &mut Vec<Step>, root: &String, o: &RepairObs)
    ensures
        views(final(v)@) == views(old(v)@) + repair_usr_share_part(root@, *o),
{
    if !o.usr_share_present && o.share_present {
        v.push(
            Step::SymlinkTo {
                value: String::from_str("../share"),
                link: String::from_str(root.as_str()).concat("/usr/share"),
            },
        );
    }
    proof {
        assert(views(v@) =~~= views(old(v)@) + repair_usr_share_part(root@, *o));
    }
}

fn push_repair_lib64(v: &mut Vec<Step>, root: &String, o: &RepairObs)
    ensures
        views(final(v)@) == views(old(v)@) + repair_lib64_part(root@, *o),
{
    if !o.lib64_present && o.lib_present {
        v.push(
            Step::SymlinkTo {
                value: String::from_str("lib"),
                link: String::from_str(root.as_str()).concat("/lib64"),
            },
        );
    }
    proof {
        assert(views(v@) =~~= views(old(v)@) + repair_lib64_part(root@, *o));
    }
}

fn push_repair_machine_id(v: &mut Vec<Step>, root: &String, o: &RepairObs)
    ensures
        views(final(v)@) == views(old(v)@) + repair_machine_id_part(root@, *o),
{
    if !o.machine_id_present {
        if o.host_machine_id_present {
            v.push(
                Step::CopyFile {
                    source: String::from_str("/etc/machine-id"),
                    target: String::from_str(root.as_str()).concat("/etc/machine-id"),
                },
            );
        } else {
            v.push(
                Step::WriteFile {
                    path: String::from_str(root.as_str()).concat("/etc/machine-id"),
                    content: String::from_str(fallback_machine_id()),
                },
            );
        }
    }
    proof {
        assert(views(v@) =~~= views(old(v)@) + repair_machine_id_part(root@, *o));
    }
}

fn push_repair_dbus_id(v: &mut Vec<Step>, root: &String, o: &RepairObs)
    ensures
        views(final(v)@) == views(old(v)@) + repair_dbus_id_part(root@, *o),
{
    v.push(Step::CreateDir { path: String::from_str(root.as_str()).concat("/var/lib/dbus") });
    if !o.dbus_machine_id_present {
        v.push(
            Step::SymlinkTo {
                value: String::from_str("/etc/machine-id"),
                link: String::from_str(root.as_str()).concat("/var/lib/dbus/machine-id"),
            },
        );
    }
    proof {
        assert(views(v@) =~~= views(old(v)@) + repair_dbus_id_part(root@, *o));
    }
}

pub fn repair_plan(app_id: &str, o: &RepairObs) -> (r: Vec<Step>)
    ensures
        views(r@) == repair_plan_spec(app_id@, *o),
{
    let root = jail_root_path(app_id);
    let mut v: Vec<Step> = Vec::new();
    proof {
        assert(views(v@) =~~= Seq::<StepModel>::empty());
    }
    push_repair_usr(&mut v, &root, o);
    push_repair_usr_lib(&mut v, &root, o);
    push_repair_usr_bin(&mut v, &root, o);
    push_repair_usr_share(&mut v, &root, o);
    push_repair_lib64(&mut v, &root, o);
    push_repair_machine_id(&mut v, &root, o);
    push_repair_dbus_id(&mut v, &root, o);
    proof {
        assert(views(v@) =~~= repair_plan_spec(app_id@, *o));
    }
    v
}

/// Content of the per-run instance descriptor applications expect.
pub open spec fn instance_descriptor_spec(app_id: Seq<char>) -> Seq<char> {
    "\n    [Instance]\n    instance-id=flatvodka\n    app-id="@ + app_id
        + "\n    arch=x86_64\n    flatpak-version=1.14.0\n    runtime-path=/usr\n    original-app-path=/app\n    "@
}

pub fn instance_descriptor(app_id: &str) -> (r: String)
    ensures
        r@ == instance_descriptor_spec(app_id@),
{
    let mut out = String::from_str("\n    [Instance]\n    instance-id=flatvodka\n    app-id=");
    out.append(app_id);
    out.append(
        "\n    arch=x86_64\n    flatpak-version=1.14.0\n    runtime-path=/usr\n    original-app-path=/app\n    ",
    );
    out
}

/// The run-hierarchy plan: the synthetic runtime-state tree and the instance
/// descriptor.
pub open spec fn hierarchy_plan_spec(app_id: Seq<char>, uid: Seq<char>) -> Seq<StepModel> {
    let root = jail_root_spec(app_id);
    seq![
        StepModel::CreateDir { path: root + "/run"@ },
        StepModel::CreateDir { path: root + "/run/flatpak"@ },
        StepModel::CreateDir { path: root + "/run/host"@ },
        StepModel::CreateDir { path: root + "/run/user/"@ + uid },
        StepModel::CreateDir { path: root + "/run/flatpak/app"@ },
        StepModel::CreateDir { path: root + "/run/flatpak/bus"@ },
        StepModel::CreateDir { path: root + "/run/flatpak/ld.so.conf.d"@ },
        StepModel::CreateDir { path: root + "/run/flatpak/p11-kit"@ },
        StepModel::WriteFile {
            path: root + "/run/user/"@ + uid + "/flatpak-info"@,
            content: instance_descriptor_spec(app_id),
        },
    ]
}

pub fn hierarchy_plan(app_id: &str, uid: &str) -> (r: Vec<Step>)
    ensures
        views(r@) == hierarchy_plan_spec(app_id@, uid@),
{
    let root = jail_root_path(app_id);
    let mut run_user = String::from_str(root.as_str());
    run_user.append("/run/user/");
    run_user.append(uid);
    let mut v: Vec<Step> = Vec::new();
    v.push(Step::CreateDir { path: String::from_str(root.as_str()).concat("/run") });
    v.push(Step::CreateDir { path: String::from_str(root.as_str()).concat("/run/flatpak") });
    v.push(Step::CreateDir { path: String::from_str(root.as_str()).concat("/run/host") });
    v.push(Step::CreateDir { path: run_user.clone() });
    v.push(Step::CreateDir { path: String::from_str(root.as_str()).concat("/run/flatpak/app") });
    v.push(Step::CreateDir { path: String::from_str(root.as_str()).concat("/run/flatpak/bus") });
    v.push(Step::CreateDir { path: String::from_str(root.as_str()).concat("/run/flatpak/ld.so.conf.d") });
    v.push(Step::CreateDir { path: String::from_str(root.as_str()).concat("/run/flatpak/p11-kit") });
    v.push(
        Step::WriteFile {
            path: run_user.concat("/flatpak-info"),
            content: instance_descriptor(app_id),
        },
    );
    proof {
        assert(views(v@) =~~= hierarchy_plan_spec(app_id@, uid@));
    }
    v
}

/// What the resource-bridging phase observed on the host.
pub struct BridgeObs {
    /// The host font directory exists.
    pub fonts_present: bool,
    /// The host os-release file exists.
    pub os_release_present: bool,
    /// The display-server socket directory exists.
    pub x11_present: bool,
    /// The environment-advertised secondary-display socket name, if set.
    pub wayland: Option<String>,
    /// That socket actually exists on the host.
    pub wayland_socket_present: bool,
    /// The audio-server socket exists.
    pub pulse_present: bool,
    /// The accessibility-bus socket exists.
    pub atspi_present: bool,
    /// The system message-bus socket exists.
    pub dbus_present: bool,
}

/// Font configuration handed to the confined process when host fonts are
/// bridged in.
pub open spec fn font_dirs_xml_spec() -> Seq<char> {
    "<?xml version=\"1.0\"?>\n        <!DOCTYPE fontconfig SYSTEM \"fonts.dtd\">\n        <fontconfig>\n        <dir>/run/host/fonts</dir>\n        <dir>/usr/local/share/fonts</dir>\n        </fontconfig>\n        "@
}

pub fn font_dirs_xml() -> (r: &'static str)
    ensures
        r@ == font_dirs_xml_spec(),
{
    "<?xml version=\"1.0\"?>\n        <!DOCTYPE fontconfig SYSTEM \"fonts.dtd\">\n        <fontconfig>\n        <dir>/run/host/fonts</dir>\n        <dir>/usr/local/share/fonts</dir>\n        </fontconfig>\n        "
}

/// Host fonts bridge: read-only, with the font search configuration beside it.
pub open spec fn fonts_part(root: Seq<char>, present: bool) -> Seq<StepModel> {
    if present {
        seq![
            StepModel::CreateDir { path: root + "/run/host/fonts"@ },
            StepModel::Mount(
                bind_spec("/usr/local/share/fonts"@, root + "/run/host/fonts"@, true),
            ),
            StepModel::WriteFile {
                path: root + "/run/host/font-dirs.xml"@,
                content: font_dirs_xml_spec(),
            },
        ]
    } else {
        Seq::<StepModel>::empty()
    }
}

/// Host identity copy.
pub open spec fn os_release_part(root: Seq<char>, present: bool) -> Seq<StepModel> {
    if present {
        seq![
            StepModel::CopyFile { source: "/etc/os-release"@, target: root + "/run/host/os-release"@ },
        ]
    } else {
        Seq::<StepModel>::empty()
    }
}

/// Display-server socket bridge.
pub open spec fn x11_part(root: Seq<char>, present: bool) -> Seq<StepModel> {
    if present {
        seq![
            StepModel::CreateDir { path: root + "/tmp/.X11-unix"@ },
            StepModel::Mount(bind_spec("/tmp/.X11-unix"@, root + "/tmp/.X11-unix"@, false)),
        ]
    } else {
        Seq::<StepModel>::empty()
    }
}

/// Secondary-display socket bridge: only when the environment names a socket
/// and the socket exists on the host.
pub open spec fn wayland_part(
    root: Seq<char>,
    uid: Seq<char>,
    wayland: Option<Seq<char>>,
    socket_present: bool,
) -> Seq<StepModel> {
    match wayland {
        Some(wl) => if socket_present {
            seq![
                StepModel::EnsureFile { path: root + "/run/user/"@ + uid + "/"@ + wl },
                StepModel::Mount(
                    bind_spec(
                        "/var/run/user/"@ + uid + "/"@ + wl,
                        root + "/run/user/"@ + uid + "/"@ + wl,
                        false,
                    ),
                ),
            ]
        } else {
            Seq::<StepModel>::empty()
        },
        None => Seq::<StepModel>::empty(),
    }
}

/// Audio-server socket bridge.
pub open spec fn pulse_part(root: Seq<char>, uid: Seq<char>, present: bool) -> Seq<StepModel> {
    if present {
        seq![
            StepModel::CreateDir { path: root + "/run/user/"@ + uid + "/pulse"@ },
            StepModel::EnsureFile { path: root + "/run/user/"@ + uid + "/pulse/native"@ },
            StepModel::Mount(
                bind_spec(
                    "/var/run/user/"@ + uid + "/pulse/native"@,
                    root + "/run/user/"@ + uid + "/pulse/native"@,
                    false,
                ),
            ),
        ]
    } else {
        Seq::<StepModel>::empty()
    }
}

/// Accessibility-bus socket bridge.
pub open spec fn atspi_part(root: Seq<char>, user: Seq<char>, present: bool) -> Seq<StepModel> {
    if present {
        seq![
            StepModel::CreateDir { path: root + "/var/run/xdg/"@ + user + "/at-spi"@ },
            StepModel::Mount(
                bind_spec(
                    "/var/run/xdg/"@ + user + "/at-spi"@,
                    root + "/var/run/xdg/"@ + user + "/at-spi"@,
                    false,
                ),
            ),
        ]
    } else {
        Seq::<StepModel>::empty()
    }
}

/// System message-bus socket bridge.
pub open spec fn dbus_part(root: Seq<char>, present: bool) -> Seq<StepModel> {
    if present {
        seq![
            StepModel::CreateDir { path: root + "/var/run/dbus"@ },
            StepModel::Mount(bind_spec("/var/run/dbus"@, root + "/var/run/dbus"@, false)),
        ]
    } else {
        Seq::<StepModel>::empty()
    }
}

/// The resource-bridging plan: each bridge is independent and optional; an
/// absent host resource is skipped without aborting. None of its mounts is
/// required.
pub open spec fn bridge_plan_spec(
    app_id: Seq<char>,
    user: Seq<char>,
    uid: Seq<char>,
    o: BridgeObs,
) -> Seq<StepModel> {
    let root = jail_root_spec(app_id);
    let wl = match o.wayland {
        Some(w) => Some(w@),
        None => None,
    };
    fonts_part(root, o.fonts_present) + os_release_part(root, o.os_release_present) + seq![
        StepModel::CreateDir { path: root + "/tmp"@ },
    ] + x11_part(root, o.x11_present) + wayland_part(root, uid, wl, o.wayland_socket_present)
        + pulse_part(root, uid, o.pulse_present) + atspi_part(root, user, o.atspi_present)
        + dbus_part(root, o.dbus_present)
}

fn push_fonts(v: &mut Vec<Step>, root: &String, present: bool)
    ensures
        views(final(v)@) == views(old(v)@) + fonts_part(root@, present),
{
    if present {
        v.push(Step::CreateDir { path: String::from_str(root.as_str()).concat("/run/host/fonts") });
        v.push(
            Step::Mount(
                mount_bind(
                    String::from_str("/usr/local/share/fonts"),
                    String::from_str(root.as_str()).concat("/run/host/fonts"),
                    true,
                ),
            ),
        );
        v.push(
            Step::WriteFile {
                path: String::from_str(root.as_str()).concat("/run/host/font-dirs.xml"),
                content: String::from_str(font_dirs_xml()),
            },
        );
    }
    proof {
        assert(views(v@) =~~= views(old(v)@) + fonts_part(root@, present));
    }
}

fn push_os_release(v: &mut Vec<Step>, root: &String, present: bool)
    ensures
        views(final(v)@) == views(old(v)@) + os_release_part(root@, present),
{
    if present {
        v.push(
            Step::CopyFile {
                source: String::from_str("/etc/os-release"),
                target: String::from_str(root.as_str()).concat("/run/host/os-release"),
            },
        );
    }
    proof {
        assert(views(v@) =~~= views(old(v)@) + os_release_part(root@, present));
    }
}

fn push_x11(v: &mut Vec<Step>, root: &String, present: bool)
    ensures
        views(final(v)@) == views(old(v)@) + x11_part(root@, present),
{
    if present {
        v.push(Step::CreateDir { path: String::from_str(root.as_str()).concat("/tmp/.X11-unix") });
        v.push(
            Step::Mount(
                mount_bind(
                    String::from_str("/tmp/.X11-unix"),
                    String::from_str(root.as_str()).concat("/tmp/.X11-unix"),
                    false,
                ),
            ),
        );
    }
    proof {
        assert(views(v@) =~~= views(old(v)@) + x11_part(root@, present));
    }
}

fn push_wayland(v: &mut Vec<Step>, root: &String, uid: &str, wayland: &Option<String>, socket_present: bool)
    ensures
        views(final(v)@) == views(old(v)@) + wayland_part(root@, uid@, match wayland { Some(w) => Some(w@), None => None }, socket_present),
{
    match wayland {
        Some(wl) => {
            if socket_present {
                let mut host = String::from_str("/var/run/user/");
                host.append(uid);
                host.append("/");
                host.append(wl.as_str());
                let mut target = String::from_str(root.as_str());
                target.append("/run/user/");
                target.append(uid);
                target.append("/");
                target.append(wl.as_str());
                v.push(Step::EnsureFile { path: target.clone() });
                v.push(Step::Mount(mount_bind(host, target, false)));
            }
        },
        None => {},
    }
    proof {
        assert(views(v@) =~~= views(old(v)@) + wayland_part(root@, uid@, match wayland {
            Some(w) => Some(w@),
            None => None,
        }, socket_present));
    }
}

fn push_pulse(v: &mut Vec<Step>, root: &String, uid: &str, present: bool)
    ensures
        views(final(v)@) == views(old(v)@) + pulse_part(root@, uid@, present),
{
    if present {
        let mut host = String::from_str("/var/run/user/");
        host.append(uid);
        host.append("/pulse/native");
        let mut run_user = String::from_str(root.as_str());
        run_user.append("/run/user/");
        run_user.append(uid);
        v.push(Step::CreateDir { path: run_user.clone().concat("/pulse") });
        v.push(Step::EnsureFile { path: run_user.clone().concat("/pulse/native") });
        v.push(Step::Mount(mount_bind(host, run_user.concat("/pulse/native"), false)));
    }
    proof {
        assert(views(v@) =~~= views(old(v)@) + pulse_part(root@, uid@, present));
    }
}

fn push_atspi(v: &mut Vec<Step>, root: &String, user: &str, present: bool)
    ensures
        views(final(v)@) == views(old(v)@) + atspi_part(root@, user@, present),
{
    if present {
        let mut host = String::from_str("/var/run/xdg/");
        host.append(user);
        host.append("/at-spi");
        let mut target = String::from_str(root.as_str());
        target.append("/var/run/xdg/");
        target.append(user);
        target.append("/at-spi");
        v.push(Step::CreateDir { path: target.clone() });
        v.push(Step::Mount(mount_bind(host, target, false)));
    }
    proof {
        assert(views(v@) =~~= views(old(v)@) + atspi_part(root@, user@, present));
    }
}

fn push_dbus(v: &mut Vec<Step>, root: &String, present: bool)
    ensures
        views(final(v)@) == views(old(v)@) + dbus_part(root@, present),
{
    if present {
        v.push(Step::CreateDir { path: String::from_str(root.as_str()).concat("/var/run/dbus") });
        v.push(
            Step::Mount(
                mount_bind(
                    String::from_str("/var/run/dbus"),
                    String::from_str(root.as_str()).concat("/var/run/dbus"),
                    false,
                ),
            ),
        );
    }
    proof {
        assert(views(v@) =~~= views(old(v)@) + dbus_part(root@, present));
    }
}

pub fn bridge_plan(app_id: &str, user: &str, uid: &str, o: &BridgeObs) -> (r: Vec<Step>)
    ensures
        views(r@) == bridge_plan_spec(app_id@, user@, uid@, *o),
{
    let root = jail_root_path(app_id);
    let mut v: Vec<Step> = Vec::new();
    proof {
        assert(views(v@) =~~= Seq::<StepModel>::empty());
    }
    push_fonts(&mut v, &root, o.fonts_present);
    push_os_release(&mut v, &root, o.os_release_present);
    let ghost before_tmp = views(v@);
    v.push(Step::CreateDir { path: String::from_str(root.as_str()).concat("/tmp") });
    proof {
        assert(views(v@) =~~= before_tmp + seq![
            StepModel::CreateDir { path: root@ + "/tmp"@ },
        ]);
    }
    push_x11(&mut v, &root, o.x11_present);
    push_wayland(&mut v, &root, uid, &o.wayland, o.wayland_socket_present);
    push_pulse(&mut v, &root, uid, o.pulse_present);
    push_atspi(&mut v, &root, user, o.atspi_present);
    push_dbus(&mut v, &root, o.dbus_present);
    proof {
        assert(views(v@) =~~= bridge_plan_spec(app_id@, user@, uid@, *o));
    }
    v
}

/// The kernel pseudo-filesystem plan: device, process-information and
/// system-information filesystems, all required.
pub open spec fn pseudo_fs_plan_spec(app_id: Seq<char>) -> Seq<StepModel> {
    let root = jail_root_spec(app_id);
    seq![
        StepModel::CreateDir { path: root + "/home/user"@ },
        StepModel::CreateDir { path: root + "/dev"@ },
        StepModel::CreateDir { path: root + "/proc"@ },
        StepModel::CreateDir { path: root + "/sys"@ },
        StepModel::Mount(
            MountModel {
                source: "devfs"@,
                target: root + "/dev"@,
                fstype: "devfs"@,
                readonly: false,
                required: true,
            },
        ),
        StepModel::Mount(
            MountModel {
                source: "linprocfs"@,
                target: root + "/proc"@,
                fstype: "linprocfs"@,
                readonly: false,
                required: true,
            },
        ),
        StepModel::Mount(
            MountModel {
                source: "linsysfs"@,
                target: root + "/sys"@,
                fstype: "linsysfs"@,
                readonly: false,
                required: true,
            },
        ),
    ]
}

pub fn pseudo_fs_plan(app_id: &str) -> (r: Vec<Step>)
    ensures
        views(r@) == pseudo_fs_plan_spec(app_id@),
{
    let root = jail_root_path(app_id);
    let mut v: Vec<Step> = Vec::new();
    v.push(Step::CreateDir { path: String::from_str(root.as_str()).concat("/home/user") });
    v.push(Step::CreateDir { path: String::from_str(root.as_str()).concat("/dev") });
    v.push(Step::CreateDir { path: String::from_str(root.as_str()).concat("/proc") });
    v.push(Step::CreateDir { path: String::from_str(root.as_str()).concat("/sys") });
    v.push(
        Step::Mount(
            MountPoint {
                source: String::from_str("devfs"),
                target: String::from_str(root.as_str()).concat("/dev"),
                fstype: String::from_str("devfs"),
                readonly: false,
                required: true,
            },
        ),
    );
    v.push(
        Step::Mount(
            MountPoint {
                source: String::from_str("linprocfs"),
                target: String::from_str(root.as_str()).concat("/proc"),
                fstype: String::from_str("linprocfs"),
                readonly: false,
                required: true,
            },
        ),
    );
    v.push(
        Step::Mount(
            MountPoint {
                source: String::from_str("linsysfs"),
                target: String::from_str(root.as_str()).concat("/sys"),
                fstype: String::from_str("linsysfs"),
                readonly: false,
                required: true,
            },
        ),
    );
    proof {
        assert(views(v@) =~~= pseudo_fs_plan_spec(app_id@));
    }
    v
}

/// The strictly sequential phases of one `run` invocation.
#[derive(Clone, Copy, PartialEq, Eq, Structural, Debug)]
pub enum RunPhase {
    Idle,
    Teardown,
    ProvisionRoot,
    ProvisionTrees,
    RepairLayout,
    BuildRunHierarchy,
    BridgeResources,
    BridgeKernelPseudoFs,
    Brand,
    Launch,
    Running,
    Exited,
}

/// The successor of each phase; there is no backtracking, and the root is
/// deliberately retained after exit.
pub open spec fn next_phase_spec(p: RunPhase) -> RunPhase {
    match p {
        RunPhase::Idle => RunPhase::Teardown,
        RunPhase::Teardown => RunPhase::ProvisionRoot,
        RunPhase::ProvisionRoot => RunPhase::ProvisionTrees,
        RunPhase::ProvisionTrees => RunPhase::RepairLayout,
        RunPhase::RepairLayout => RunPhase::BuildRunHierarchy,
        RunPhase::BuildRunHierarchy => RunPhase::BridgeResources,
        RunPhase::BridgeResources => RunPhase::BridgeKernelPseudoFs,
        RunPhase::BridgeKernelPseudoFs => RunPhase::Brand,
        RunPhase::Brand => RunPhase::Launch,
        RunPhase::Launch => RunPhase::Running,
        RunPhase::Running => RunPhase::Exited,
        RunPhase::Exited => RunPhase::Idle,
    }
}

pub fn next_phase(p: RunPhase) -> (r: RunPhase)
    ensures
        r == next_phase_spec(p),
{
    match p {
        RunPhase::Idle => RunPhase::Teardown,
        RunPhase::Teardown => RunPhase::ProvisionRoot,
        RunPhase::ProvisionRoot => RunPhase::ProvisionTrees,
        RunPhase::ProvisionTrees => RunPhase::RepairLayout,
        RunPhase::RepairLayout => RunPhase::BuildRunHierarchy,
        RunPhase::BuildRunHierarchy => RunPhase::BridgeResources,
        RunPhase::BridgeResources => RunPhase::BridgeKernelPseudoFs,
        RunPhase::BridgeKernelPseudoFs => RunPhase::Brand,
        RunPhase::Brand => RunPhase::Launch,
        RunPhase::Launch => RunPhase::Running,
        RunPhase::Running => RunPhase::Exited,
        RunPhase::Exited => RunPhase::Idle,
    }
}

/// Every step of the plan undoes a previous instance.
pub open spec fn all_undo(s: Seq<StepModel>) -> bool {
    forall|i: int| 0 <= i < s.len() ==> is_undo_step(#[trigger] s[i])
}

/// No step of the plan undoes anything.
pub open spec fn no_undo(s: Seq<StepModel>) -> bool {
    forall|i: int| 0 <= i < s.len() ==> !is_undo_step(#[trigger] s[i])
}

/// Concatenation keeps the undo classification of both halves.
proof fn lemma_undo_concat(a: Seq<StepModel>, b: Seq<StepModel>)
    ensures
        all_undo(a) && all_undo(b) ==> all_undo(a + b),
        no_undo(a) && no_undo(b) ==> no_undo(a + b),
{
    if all_undo(a) && all_undo(b) {
        assert forall|i: int| 0 <= i < (a + b).len() implies is_undo_step(#[trigger] (a + b)[i]) by {
            if i < a.len() {
                assert((a + b)[i] == a[i]);
            } else {
                assert((a + b)[i] == b[i - a.len()]);
            }
        }
    }
    if no_undo(a) && no_undo(b) {
        assert forall|i: int| 0 <= i < (a + b).len() implies !is_undo_step(#[trigger] (a + b)[i]) by {
            if i < a.len() {
                assert((a + b)[i] == a[i]);
            } else {
                assert((a + b)[i] == b[i - a.len()]);
            }
        }
    }
}

/// Teardown only undoes: the teardown plan mounts nothing, and every
/// well-known mount target of a prior instance — the display sockets, the
/// kernel pseudo-filesystems, the bus and accessibility sockets, the host
/// fonts and the root itself — is force-unmounted by it.
#[verifier::rlimit(100)]
#[verifier::spinoff_prover]
pub proof fn lemma_teardown_only_undoes(
    app_id: Seq<char>,
    user: Seq<char>,
    uid: Seq<char>,
    wayland: Option<Seq<char>>,
)
    ensures
        all_undo(teardown_plan_spec(app_id, user, uid, wayland)),
        forall|i: int|
            0 <= i < teardown_plan_spec(app_id, user, uid, wayland).len() ==> !is_mount_step(
                #[trigger] teardown_plan_spec(app_id, user, uid, wayland)[i],
            ),
        teardown_plan_spec(app_id, user, uid, wayland).contains(
            StepModel::UnmountForce { target: jail_root_spec(app_id) + "/tmp/.X11-unix"@ },
        ),
        teardown_plan_spec(app_id, user, uid, wayland).contains(
            StepModel::UnmountForce { target: jail_root_spec(app_id) + "/dev"@ },
        ),
        teardown_plan_spec(app_id, user, uid, wayland).contains(
            StepModel::UnmountForce { target: jail_root_spec(app_id) + "/proc"@ },
        ),
        teardown_plan_spec(app_id, user, uid, wayland).contains(
            StepModel::UnmountForce { target: jail_root_spec(app_id) + "/sys"@ },
        ),
        teardown_plan_spec(app_id, user, uid, wayland).contains(
            StepModel::UnmountForce { target: jail_root_spec(app_id) + "/var/run/dbus"@ },
        ),
        teardown_plan_spec(app_id, user, uid, wayland).contains(
            StepModel::UnmountForce { target: jail_root_spec(app_id) + "/run/host/fonts"@ },
        ),
        teardown_plan_spec(app_id, user, uid, wayland).contains(
            StepModel::UnmountForce {
                target: jail_root_spec(app_id) + "/var/run/xdg/"@ + user + "/at-spi"@,
            },
        ),
        wayland matches Some(wl) ==> teardown_plan_spec(app_id, user, uid, wayland).contains(
            StepModel::UnmountForce {
                target: jail_root_spec(app_id) + "/run/user/"@ + uid + "/"@ + wl,
            },
        ),
        teardown_plan_spec(app_id, user, uid, wayland).contains(
            StepModel::UnmountForce { target: jail_root_spec(app_id) },
        ),
{
    let td = teardown_plan_spec(app_id, user, uid, wayland);
    let root = jail_root_spec(app_id);
    let head = td.subrange(0, 8);
    let mid = match wayland {
        Some(wl) => seq![
            StepModel::UnmountForce { target: root + "/run/user/"@ + uid + "/"@ + wl },
        ],
        None => Seq::<StepModel>::empty(),
    };
    let tail = seq![StepModel::UnmountForce { target: root }, StepModel::RemoveTree { path: root }];
    assert(all_undo(head + mid)) by {
        assert(all_undo(head));
        assert(all_undo(mid));
        lemma_undo_concat(head, mid);
    }
    assert(all_undo(td)) by {
        assert(all_undo(tail));
        lemma_undo_concat(head + mid, tail);
        assert(td =~= (head + mid) + tail);
    }
    assert forall|i: int| 0 <= i < td.len() implies !is_mount_step(#[trigger] td[i]) by {
        assert(is_undo_step(td[i]));
    }
    match wayland {
        Some(wl) => {
            assert(td[8] == StepModel::UnmountForce {
                target: root + "/run/user/"@ + uid + "/"@ + wl,
            });
            assert(td[9] == StepModel::UnmountForce { target: root });
            assert(td.contains(td[8]));
            assert(td.contains(td[9]));
        },
        None => {
            assert(td[8] == StepModel::UnmountForce { target: root });
            assert(td.contains(td[8]));
        },
    }
    assert(td.contains(td[1]));
    assert(td.contains(td[2]));
    assert(td.contains(td[3]));
    assert(td.contains(td[4]));
    assert(td.contains(td[5]));
    assert(td.contains(td[6]));
    assert(td.contains(td[7]));
}

/// Teardown comes strictly before provisioning: no plan of the phases that
/// follow teardown undoes anything, so with the strict phase order every
/// unmount attempt stands before any new mount.
#[verifier::rlimit(100)]
#[verifier::spinoff_prover]
pub proof fn lemma_later_phases_undo_nothing(
    app_id: Seq<char>,
    user: Seq<char>,
    uid: Seq<char>,
    rt_files: Seq<char>,
    app_files: Seq<char>,
    repair: RepairObs,
    bridge: BridgeObs,
)
    ensures
        no_undo(provision_plan_spec(app_id, rt_files, app_files)),
        no_undo(repair_plan_spec(app_id, repair)),
        no_undo(hierarchy_plan_spec(app_id, uid)),
        no_undo(bridge_plan_spec(app_id, user, uid, bridge)),
        no_undo(pseudo_fs_plan_spec(app_id)),
{
    let root = jail_root_spec(app_id);
    assert(no_undo(provision_plan_spec(app_id, rt_files, app_files)));
    assert(no_undo(repair_plan_spec(app_id, repair))) by {
        assert(no_undo(repair_usr_part(root, repair)));
        assert(no_undo(repair_usr_lib_part(root, repair)));
        assert(no_undo(repair_usr_bin_part(root, repair)));
        assert(no_undo(repair_usr_share_part(root, repair)));
        assert(no_undo(repair_lib64_part(root, repair)));
        assert(no_undo(repair_machine_id_part(root, repair)));
        assert(no_undo(repair_dbus_id_part(root, repair)));
        lemma_undo_concat(repair_usr_part(root, repair), repair_usr_lib_part(root, repair));
        lemma_undo_concat(
            repair_usr_part(root, repair) + repair_usr_lib_part(root, repair),
            repair_usr_bin_part(root, repair),
        );
        lemma_undo_concat(
            repair_usr_part(root, repair) + repair_usr_lib_part(root, repair)
                + repair_usr_bin_part(root, repair),
            repair_usr_share_part(root, repair),
        );
        lemma_undo_concat(
            repair_usr_part(root, repair) + repair_usr_lib_part(root, repair)
                + repair_usr_bin_part(root, repair) + repair_usr_share_part(root, repair),
            repair_lib64_part(root, repair),
        );
        lemma_undo_concat(
            repair_usr_part(root, repair) + repair_usr_lib_part(root, repair)
                + repair_usr_bin_part(root, repair) + repair_usr_share_part(root, repair)
                + repair_lib64_part(root, repair),
            repair_machine_id_part(root, repair),
        );
        lemma_undo_concat(
            repair_usr_part(root, repair) + repair_usr_lib_part(root, repair)
                + repair_usr_bin_part(root, repair) + repair_usr_share_part(root, repair)
                + repair_lib64_part(root, repair) + repair_machine_id_part(root, repair),
            repair_dbus_id_part(root, repair),
        );
    }
    assert(no_undo(hierarchy_plan_spec(app_id, uid)));
    assert(no_undo(bridge_plan_spec(app_id, user, uid, bridge))) by {
        let wl = match bridge.wayland {
            Some(w) => Some(w@),
            None => None::<Seq<char>>,
        };
        let mid2 = seq![StepModel::CreateDir { path: root + "/tmp"@ }];
        assert(no_undo(fonts_part(root, bridge.fonts_present)));
        assert(no_undo(os_release_part(root, bridge.os_release_present)));
        assert(no_undo(mid2));
        assert(no_undo(x11_part(root, bridge.x11_present)));
        assert(no_undo(wayland_part(root, uid, wl, bridge.wayland_socket_present)));
        assert(no_undo(pulse_part(root, uid, bridge.pulse_present)));
        assert(no_undo(atspi_part(root, user, bridge.atspi_present)));
        assert(no_undo(dbus_part(root, bridge.dbus_present)));
        lemma_undo_concat(
            fonts_part(root, bridge.fonts_present),
            os_release_part(root, bridge.os_release_present),
        );
        lemma_undo_concat(
            fonts_part(root, bridge.fonts_present) + os_release_part(
                root,
                bridge.os_release_present,
            ),
            mid2,
        );
        lemma_undo_concat(
            fonts_part(root, bridge.fonts_present) + os_release_part(
                root,
                bridge.os_release_present,
            ) + mid2,
            x11_part(root, bridge.x11_present),
        );
        lemma_undo_concat(
            fonts_part(root, bridge.fonts_present) + os_release_part(
                root,
                bridge.os_release_present,
            ) + mid2 + x11_part(root, bridge.x11_present),
            wayland_part(root, uid, wl, bridge.wayland_socket_present),
        );
        lemma_undo_concat(
            fonts_part(root, bridge.fonts_present) + os_release_part(
                root,
                bridge.os_release_present,
            ) + mid2 + x11_part(root, bridge.x11_present) + wayland_part(
                root,
                uid,
                wl,
                bridge.wayland_socket_present,
            ),
            pulse_part(root, uid, bridge.pulse_present),
        );
        lemma_undo_concat(
            fonts_part(root, bridge.fonts_present) + os_release_part(
                root,
                bridge.os_release_present,
            ) + mid2 + x11_part(root, bridge.x11_present) + wayland_part(
                root,
                uid,
                wl,
                bridge.wayland_socket_present,
            ) + pulse_part(root, uid, bridge.pulse_present),
            atspi_part(root, user, bridge.atspi_present),
        );
        lemma_undo_concat(
            fonts_part(root, bridge.fonts_present) + os_release_part(
                root,
                bridge.os_release_present,
            ) + mid2 + x11_part(root, bridge.x11_present) + wayland_part(
                root,
                uid,
                wl,
                bridge.wayland_socket_present,
            ) + pulse_part(root, uid, bridge.pulse_present) + atspi_part(
                root,
                user,
                bridge.atspi_present,
            ),
            dbus_part(root, bridge.dbus_present),
        );
    }
    assert(no_undo(pseudo_fs_plan_spec(app_id)));
}

/// Optional-resource skip: when the environment names no secondary-display
/// socket, or the named socket does not exist on the host, the bridge plan
/// carries no step for it, and every other bridge is exactly what it would
/// be anyway — construction completes without that bridge and without
/// aborting.
pub proof fn lemma_wayland_skip(app_id: Seq<char>, user: Seq<char>, uid: Seq<char>, o: BridgeObs)
    requires
        o.wayland is None || !o.wayland_socket_present,
    ensures
        bridge_plan_spec(app_id, user, uid, o) == fonts_part(
            jail_root_spec(app_id),
            o.fonts_present,
        ) + os_release_part(jail_root_spec(app_id), o.os_release_present) + seq![
            StepModel::CreateDir { path: jail_root_spec(app_id) + "/tmp"@ },
        ] + x11_part(jail_root_spec(app_id), o.x11_present) + pulse_part(
            jail_root_spec(app_id),
            uid,
            o.pulse_present,
        ) + atspi_part(jail_root_spec(app_id), user, o.atspi_present) + dbus_part(
            jail_root_spec(app_id),
            o.dbus_present,
        ),
{
    let root = jail_root_spec(app_id);
    let wl = match o.wayland {
        Some(w) => Some(w@),
        None => None,
    };
    assert(wayland_part(root, uid, wl, o.wayland_socket_present) =~= Seq::<StepModel>::empty());
    assert(bridge_plan_spec(app_id, user, uid, o) =~= fonts_part(root, o.fonts_present)
        + os_release_part(root, o.os_release_present) + seq![
        StepModel::CreateDir { path: root + "/tmp"@ },
    ] + x11_part(root, o.x11_present) + pulse_part(root, uid, o.pulse_present) + atspi_part(
        root,
        user,
        o.atspi_present,
    ) + dbus_part(root, o.dbus_present));
}

} // verus!
