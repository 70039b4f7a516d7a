//! The installer, as an explicit state machine: it decides which
//! content-store commands to issue and in which order, and the caller
//! performs them and feeds back what the host observed. Runtime
//! dependencies are resolved iteratively over a work list with a visited
//! set; a reference that reintroduces itself is rejected.

use vstd::prelude::*;

use crate::inidoc::lookup_spec;
use crate::metadata::{descriptor_fields, metadata_runtime};
use crate::paths::{
    active_link, commit_dir, compat_config_path, compat_config_spec, get_repo_dir, install_base,
    install_base_spec, metadata_fallback, metadata_primary, repo_config_path, repo_config_spec,
    repo_dir_spec, commit_dir_spec,
};
use crate::reference::{
    canon_spec, resolve_descriptor, resolve_descriptor_spec, resolve_plain, resolve_plain_spec,
    RefKind, Resolution, ResolutionModel,
};
use crate::strutil::str_eq;

verus! {

/// Why an installation stopped.
#[derive(Clone, Copy, PartialEq, Eq, Structural, Debug)]
pub enum InstallError {
    /// The identifier is not a well-formed reference.
    InvalidReference,
    /// The descriptor file could not be read.
    DescriptorMissing,
    /// The descriptor file lacks its required fields or does not parse.
    BadDescriptor,
    /// The pull from the remote failed.
    PullFailed,
    /// The checkout of the pulled commit failed.
    CheckoutFailed,
    /// A runtime dependency reintroduced an already-installed reference.
    CyclicDependency,
}

/// What the machine waits for next.
#[derive(Clone, Copy, PartialEq, Eq, Structural, Debug)]
pub enum Phase {
    NextItem,
    AwaitDescriptor,
    AwaitRepoProbe,
    AwaitInit,
    AwaitRemoteAdd,
    AwaitVerifyOff,
    AwaitPatch,
    AwaitPull,
    AwaitCommit,
    AwaitCommitProbe,
    AwaitCheckout,
    AwaitActivate,
    AwaitMetadata,
    Complete,
    Failed(InstallError),
}

/// What the host reports back to the machine.
#[derive(Clone, Debug)]
pub enum HostEvent {
    /// The previous command completed (or the machine should begin).
    Proceed,
    /// Whether the repository configuration file exists.
    RepoConfigExists(bool),
    /// The content of the descriptor file, if it could be read.
    DescriptorContent(Option<String>),
    /// Whether the pull succeeded.
    PullResult(bool),
    /// The commit hash the reference resolves to.
    ResolvedCommit(String),
    /// Whether the commit directory exists, and whether it is empty.
    CommitDirState { present: bool, empty: bool },
    /// Whether the checkout succeeded.
    CheckoutResult(bool),
    /// The content of the unit's metadata descriptor, if one was readable.
    MetadataContent(Option<String>),
}

/// What the host must do next.
#[derive(Clone, Debug)]
pub enum HostAction {
    ReadDescriptor { path: String },
    ProbeRepoConfig { path: String },
    InitRepo { repo_dir: String },
    AddRemote { repo_dir: String, name: String, url: String },
    DisableVerify { repo_dir: String, name: String },
    PatchRepoConfig { primary: String, mirror: String },
    Pull { repo_dir: String, remote: String, reference: String },
    ResolveCommit { repo_dir: String, reference: String },
    ProbeCommitDir { path: String },
    Checkout { repo_dir: String, commit: String, target: String },
    UpdateActivePointer { link: String, commit: String },
    ReadMetadata { primary: String, fallback: String },
    Finished,
    Fail { error: InstallError },
}

/// The installer's state between two host interactions.
pub struct Installer {
    pub home: String,
    pub phase: Phase,
    /// Identifiers still to install, front first.
    pub queue: Vec<String>,
    /// Canonical references already taken on, in order.
    pub visited: Vec<String>,
    /// The resolved reference and remote of the item in progress.
    pub current: Option<Resolution>,
    /// The commit the current reference resolved to.
    pub commit: Option<String>,
}

/// The character sequences a vector of strings holds.
pub open spec fn deep(q: Seq<String>) -> Seq<Seq<char>> {
    q.map_values(|s: String| s@)
}

pub open spec fn qv(m: Installer) -> Seq<Seq<char>> {
    deep(m.queue@)
}

pub open spec fn vv(m: Installer) -> Seq<Seq<char>> {
    deep(m.visited@)
}

pub open spec fn cv(m: Installer) -> Option<ResolutionModel> {
    match m.current {
        Some(r) => Some(r@),
        None => None,
    }
}

pub open spec fn kv(m: Installer) -> Option<Seq<char>> {
    match m.commit {
        Some(c) => Some(c@),
        None => None,
    }
}

/// Canonical string of the reference in progress.
pub open spec fn cur_canon(m: Installer) -> Seq<char> {
    canon_spec(cv(m)->Some_0.reference)
}

/// Commit directory of the reference in progress.
pub open spec fn cur_commit_dir(m: Installer) -> Seq<char> {
    commit_dir_spec(install_base_spec(m.home@, cv(m)->Some_0.reference), kv(m)->Some_0)
}

/// Phases in which a resolved reference is in progress.
pub open spec fn has_current(p: Phase) -> bool {
    p is AwaitRepoProbe || p is AwaitInit || p is AwaitRemoteAdd || p is AwaitVerifyOff
        || p is AwaitPatch || p is AwaitPull || p is AwaitCommit || p is AwaitCommitProbe
        || p is AwaitCheckout || p is AwaitActivate || p is AwaitMetadata
}

/// Phases in which the commit hash is known.
pub open spec fn has_commit(p: Phase) -> bool {
    p is AwaitCommitProbe || p is AwaitCheckout || p is AwaitActivate || p is AwaitMetadata
}

/// Well-formedness: the data a phase speaks of is present.
pub open spec fn wf(m: Installer) -> bool {
    (has_current(m.phase) ==> cv(m) is Some) && (has_commit(m.phase) ==> kv(m) is Some)
}

/// The event kind each phase waits for.
pub open spec fn expects(p: Phase, e: HostEvent) -> bool {
    match p {
        Phase::NextItem => e is Proceed,
        Phase::AwaitDescriptor => e is DescriptorContent,
        Phase::AwaitRepoProbe => e is RepoConfigExists,
        Phase::AwaitInit => e is Proceed,
        Phase::AwaitRemoteAdd => e is Proceed,
        Phase::AwaitVerifyOff => e is Proceed,
        Phase::AwaitPatch => e is Proceed,
        Phase::AwaitPull => e is PullResult,
        Phase::AwaitCommit => e is ResolvedCommit,
        Phase::AwaitCommitProbe => e is CommitDirState,
        Phase::AwaitCheckout => e is CheckoutResult,
        Phase::AwaitActivate => e is Proceed,
        Phase::AwaitMetadata => e is MetadataContent,
        Phase::Complete => false,
        Phase::Failed(_) => false,
    }
}

/// Everything but the phase is kept.
pub open spec fn frame(pre: Installer, post: Installer) -> bool {
    post.home@ == pre.home@ && qv(post) == qv(pre) && vv(post) == vv(pre) && cv(post) == cv(pre)
        && kv(post) == kv(pre)
}

/// The machine stops with `err`.
pub open spec fn fail_rel(err: InstallError, post: Installer, a: HostAction) -> bool {
    post.phase == Phase::Failed(err) && (a matches HostAction::Fail { error } && error == err)
}

/// A freshly resolved item is taken on: a reference seen before is rejected,
/// otherwise it is recorded as visited and the repository probe is issued.
pub open spec fn proceed_resolved_rel(
    home: Seq<char>,
    queue: Seq<Seq<char>>,
    visited: Seq<Seq<char>>,
    res: ResolutionModel,
    post: Installer,
    a: HostAction,
) -> bool {
    post.home@ == home && qv(post) == queue && kv(post) is None && if visited.contains(
        canon_spec(res.reference),
    ) {
        vv(post) == visited && fail_rel(InstallError::CyclicDependency, post, a)
    } else {
        post.phase is AwaitRepoProbe && vv(post) == visited.push(canon_spec(res.reference)) && cv(
            post,
        ) == Some(res) && (a matches HostAction::ProbeRepoConfig { path } && path@
            == repo_config_spec(home))
    }
}

/// The machine turns to the next item of the work list, or finishes.
pub open spec fn advance_rel(
    home: Seq<char>,
    queue: Seq<Seq<char>>,
    visited: Seq<Seq<char>>,
    post: Installer,
    a: HostAction,
) -> bool {
    if queue.len() == 0 {
        post.home@ == home && post.phase is Complete && qv(post) == queue && vv(post) == visited
            && cv(post) is None && kv(post) is None && a is Finished
    } else {
        let id = queue[0];
        let rest = queue.drop_first();
        if ".flatpakref"@.is_suffix_of(id) {
            post.home@ == home && post.phase is AwaitDescriptor && qv(post) == rest && vv(post)
                == visited && cv(post) is None && kv(post) is None && (a matches
            HostAction::ReadDescriptor { path } && path@ == id)
        } else {
            match resolve_plain_spec(id) {
                None => post.home@ == home && qv(post) == rest && vv(post) == visited && fail_rel(
                    InstallError::InvalidReference,
                    post,
                    a,
                ),
                Some(res) => proceed_resolved_rel(home, rest, visited, res, post, a),
            }
        }
    }
}

/// The full transition relation of the installer: what one host interaction
/// does to the state and which action it demands next.
pub open spec fn step_rel(pre: Installer, e: HostEvent, post: Installer, a: HostAction) -> bool {
    match pre.phase {
        Phase::NextItem => advance_rel(pre.home@, qv(pre), vv(pre), post, a),
        Phase::AwaitDescriptor => match e {
            HostEvent::DescriptorContent(opt) => match opt {
                None => frame_fail(pre, post, a, InstallError::DescriptorMissing),
                Some(content) => {
                    let name = lookup_spec(content@, "Flatpak Ref"@, "Name"@);
                    let url = lookup_spec(content@, "Flatpak Ref"@, "Url"@);
                    let branch = lookup_spec(content@, "Flatpak Ref"@, "Branch"@);
                    if name is Some && url is Some {
                        proceed_resolved_rel(
                            pre.home@,
                            qv(pre),
                            vv(pre),
                            resolve_descriptor_spec(name->Some_0, url->Some_0, branch),
                            post,
                            a,
                        )
                    } else {
                        frame_fail(pre, post, a, InstallError::BadDescriptor)
                    }
                },
            },
            _ => true,
        },
        Phase::AwaitRepoProbe => match e {
            HostEvent::RepoConfigExists(found) => frame(pre, post) && if !found {
                post.phase is AwaitInit && (a matches HostAction::InitRepo { repo_dir } && repo_dir@
                    == repo_dir_spec(pre.home@))
            } else {
                post.phase is AwaitRemoteAdd && add_remote_action(pre, a)
            },
            _ => true,
        },
        Phase::AwaitInit => frame(pre, post) && post.phase is AwaitRemoteAdd && add_remote_action(
            pre,
            a,
        ),
        Phase::AwaitRemoteAdd => frame(pre, post) && post.phase is AwaitVerifyOff && (a matches
        HostAction::DisableVerify { repo_dir, name } && repo_dir@ == repo_dir_spec(pre.home@)
            && name@ == cv(pre)->Some_0.remote_name),
        Phase::AwaitVerifyOff => frame(pre, post) && post.phase is AwaitPatch && (a matches
        HostAction::PatchRepoConfig { primary, mirror } && primary@ == repo_config_spec(pre.home@)
            && mirror@ == compat_config_spec(pre.home@)),
        Phase::AwaitPatch => frame(pre, post) && post.phase is AwaitPull && (a matches
        HostAction::Pull { repo_dir, remote, reference } && repo_dir@ == repo_dir_spec(pre.home@)
            && remote@ == cv(pre)->Some_0.remote_name && reference@ == cur_canon(pre)),
        Phase::AwaitPull => match e {
            HostEvent::PullResult(ok) => if ok {
                frame(pre, post) && post.phase is AwaitCommit && (a matches
                HostAction::ResolveCommit { repo_dir, reference } && repo_dir@ == repo_dir_spec(
                    pre.home@,
                ) && reference@ == cur_canon(pre))
            } else {
                frame_fail(pre, post, a, InstallError::PullFailed)
            },
            _ => true,
        },
        Phase::AwaitCommit => match e {
            HostEvent::ResolvedCommit(c) => post.home@ == pre.home@ && qv(post) == qv(pre) && vv(
                post,
            ) == vv(pre) && cv(post) == cv(pre) && kv(post) == Some(c@) && post.phase
                is AwaitCommitProbe && (a matches HostAction::ProbeCommitDir { path } && path@
                == cur_commit_dir(post)),
            _ => true,
        },
        Phase::AwaitCommitProbe => match e {
            HostEvent::CommitDirState { present, empty } => frame(pre, post) && if !present
                || empty {
                post.phase is AwaitCheckout && (a matches HostAction::Checkout {
                    repo_dir,
                    commit,
                    target,
                } && repo_dir@ == repo_dir_spec(pre.home@) && commit@ == kv(pre)->Some_0 && target@
                    == cur_commit_dir(pre))
            } else {
                post.phase is AwaitActivate && activate_action(pre, a)
            },
            _ => true,
        },
        Phase::AwaitCheckout => match e {
            HostEvent::CheckoutResult(ok) => if ok {
                frame(pre, post) && post.phase is AwaitActivate && activate_action(pre, a)
            } else {
                frame_fail(pre, post, a, InstallError::CheckoutFailed)
            },
            _ => true,
        },
        Phase::AwaitActivate => if cv(pre)->Some_0.reference.kind is App {
            frame(pre, post) && post.phase is AwaitMetadata && (a matches HostAction::ReadMetadata {
                primary,
                fallback,
            } && primary@ == cur_commit_dir(pre) + "/metadata"@ && fallback@ == cur_commit_dir(pre)
                + "/files/metadata"@)
        } else {
            advance_rel(pre.home@, qv(pre), vv(pre), post, a)
        },
        Phase::AwaitMetadata => match e {
            HostEvent::MetadataContent(opt) => match opt {
                None => advance_rel(pre.home@, qv(pre), vv(pre), post, a),
                Some(content) => match lookup_spec(content@, "Application"@, "runtime"@) {
                    None => advance_rel(pre.home@, qv(pre), vv(pre), post, a),
                    Some(rt) => advance_rel(pre.home@, qv(pre).push(rt), vv(pre), post, a),
                },
            },
            _ => true,
        },
        Phase::Complete => true,
        Phase::Failed(_) => true,
    }
}

/// The machine stops with `err`, everything else kept.
pub open spec fn frame_fail(
    pre: Installer,
    post: Installer,
    a: HostAction,
    err: InstallError,
) -> bool {
    post.home@ == pre.home@ && qv(post) == qv(pre) && vv(post) == vv(pre) && fail_rel(err, post, a)
}

/// The remote of the item in progress is registered, idempotently and with
/// verification off by policy.
pub open spec fn add_remote_action(pre: Installer, a: HostAction) -> bool {
    a matches HostAction::AddRemote { repo_dir, name, url } && repo_dir@ == repo_dir_spec(pre.home@)
        && name@ == cv(pre)->Some_0.remote_name && url@ == cv(pre)->Some_0.remote_url
}

/// The active pointer of the item in progress is replaced by its commit.
pub open spec fn activate_action(pre: Installer, a: HostAction) -> bool {
    a matches HostAction::UpdateActivePointer { link, commit } && link@ == active_link_base(pre)
        && commit@ == kv(pre)->Some_0
}

/// Active pointer path of the item in progress.
pub open spec fn active_link_base(pre: Installer) -> Seq<char> {
    install_base_spec(pre.home@, cv(pre)->Some_0.reference) + "/active"@
}

/// Whether a vector of strings holds these characters.
pub fn contains_str(v: &Vec<String>, s: &str) -> (r: bool)
    ensures
        r == deep(v@).contains(s@),
{
    let mut i: usize = 0;
    while i < v.len()
        invariant
            0 <= i <= v@.len(),
            forall|k: int| 0 <= k < i ==> deep(v@)[k] != s@,
        decreases v@.len() - i,
    {
        if str_eq(v[i].as_str(), s) {
            proof {
                assert(deep(v@)[i as int] == s@);
            }
            return true;
        }
        i = i + 1;
    }
    proof {
        if deep(v@).contains(s@) {
            let w = choose|w: int| 0 <= w < deep(v@).len() && deep(v@)[w] == s@;
            assert(deep(v@)[w] == s@);
            assert(false);
        }
    }
    false
}

impl Installer {
    /// A fresh machine that will install `identifier` and its transitive
    /// runtime dependencies under `home`.
    pub fn new(home: String, identifier: String) -> (m: Installer)
        ensures
            m.home@ == home@,
            m.phase is NextItem,
            qv(m) =~= seq![identifier@],
            vv(m) =~= Seq::<Seq<char>>::empty(),
            cv(m) is None,
            kv(m) is None,
            wf(m),
    {
        let mut queue: Vec<String> = Vec::new();
        queue.push(identifier);
        let m = Installer {
            home,
            phase: Phase::NextItem,
            queue,
            visited: Vec::new(),
            current: None,
            commit: None,
        };
        proof {
            assert(deep(m.queue@) =~= seq![m.queue@[0]@]);
            assert(deep(m.visited@) =~= Seq::<Seq<char>>::empty());
        }
        m
    }

    /// Takes the next item off the work list, or finishes.
    fn advance(&mut self) -> (a: HostAction)
        ensures
            advance_rel(old(self).home@, qv(*old(self)), vv(*old(self)), *final(self), a),
            wf(*final(self)),
    {
        self.current = None;
        self.commit = None;
        if self.queue.len() == 0 {
            self.phase = Phase::Complete;
            return HostAction::Finished;
        }
        let id: String = self.queue.remove(0);
        proof {
            assert(deep(self.queue@) =~~= deep(old(self).queue@).drop_first());
            assert(id@ == deep(old(self).queue@)[0]);
        }
        if crate::reference::needs_descriptor(id.as_str()) {
            self.phase = Phase::AwaitDescriptor;
            return HostAction::ReadDescriptor { path: id };
        }
        match resolve_plain(id.as_str()) {
            None => {
                self.phase = Phase::Failed(InstallError::InvalidReference);
                HostAction::Fail { error: InstallError::InvalidReference }
            },
            Some(res) => self.take_on(res),
        }
    }

    /// Takes a resolved item on: rejects a reference seen before, else
    /// records it and asks for the repository probe.
    fn take_on(&mut self, res: Resolution) -> (a: HostAction)
        ensures
            proceed_resolved_rel(
                old(self).home@,
                qv(*old(self)),
                vv(*old(self)),
                res@,
                *final(self),
                a,
            ),
            wf(*final(self)),
    {
        self.commit = None;
        let canon = res.reference.canonical();
        if contains_str(&self.visited, canon.as_str()) {
            self.phase = Phase::Failed(InstallError::CyclicDependency);
            return HostAction::Fail { error: InstallError::CyclicDependency };
        }
        self.visited.push(canon);
        proof {
            assert(deep(self.visited@) =~~= deep(old(self).visited@).push(
                canon_spec(res@.reference),
            ));
        }
        self.current = Some(res);
        self.phase = Phase::AwaitRepoProbe;
        HostAction::ProbeRepoConfig { path: repo_config_path(self.home.as_str()) }
    }

    /// One interaction: consumes the event answering the previous action and
    /// says what the host must do next. The caller must answer with the
    /// event kind the current phase waits for (`expects`).
    ///
    /// The contract carries the machine's laws: a commit directory observed
    /// non-empty is never checked out again, and the active pointer is only
    /// ever pointed at a commit that was just observed non-empty or just
    /// checked out.
    pub fn step(&mut self, e: HostEvent) -> (a: HostAction)
        requires
            wf(*old(self)),
            expects(old(self).phase, e),
        ensures
            step_rel(*old(self), e, *final(self), a),
            wf(*final(self)),
            old(self).phase is AwaitCommitProbe && (e matches HostEvent::CommitDirState {
                present: true,
                empty: false,
            }) ==> !(a is Checkout) && a is UpdateActivePointer,
            a is UpdateActivePointer ==> (old(self).phase is AwaitCommitProbe && (e matches
            HostEvent::CommitDirState { present: true, empty: false })) || (old(self).phase
                is AwaitCheckout && e matches HostEvent::CheckoutResult(true)),
    {
        match self.phase {
            Phase::NextItem => self.advance(),
            Phase::AwaitDescriptor => match e {
                HostEvent::DescriptorContent(opt) => match opt {
                    None => {
                        self.phase = Phase::Failed(InstallError::DescriptorMissing);
                        HostAction::Fail { error: InstallError::DescriptorMissing }
                    },
                    Some(content) => match descriptor_fields(content.as_str()) {
                        Some(d) => {
                            let res = resolve_descriptor(
                                d.name.as_str(),
                                d.url.as_str(),
                                match &d.branch {
                                    Some(b) => Some(b.as_str()),
                                    None => None,
                                },
                            );
                            self.take_on(res)
                        },
                        None => {
                            self.phase = Phase::Failed(InstallError::BadDescriptor);
                            HostAction::Fail { error: InstallError::BadDescriptor }
                        },
                    },
                },
                _ => vstd::pervasive::unreached(),
            },
            Phase::AwaitRepoProbe => match e {
                HostEvent::RepoConfigExists(found) => {
                    if !found {
                        self.phase = Phase::AwaitInit;
                        HostAction::InitRepo { repo_dir: get_repo_dir(self.home.as_str()) }
                    } else {
                        self.phase = Phase::AwaitRemoteAdd;
                        self.make_add_remote()
                    }
                },
                _ => vstd::pervasive::unreached(),
            },
            Phase::AwaitInit => {
                self.phase = Phase::AwaitRemoteAdd;
                self.make_add_remote()
            },
            Phase::AwaitRemoteAdd => {
                self.phase = Phase::AwaitVerifyOff;
                let name = match &self.current {
                    Some(res) => res.remote_name.clone(),
                    None => vstd::pervasive::unreached(),
                };
                HostAction::DisableVerify { repo_dir: get_repo_dir(self.home.as_str()), name }
            },
            Phase::AwaitVerifyOff => {
                self.phase = Phase::AwaitPatch;
                HostAction::PatchRepoConfig {
                    primary: repo_config_path(self.home.as_str()),
                    mirror: compat_config_path(self.home.as_str()),
                }
            },
            Phase::AwaitPatch => {
                self.phase = Phase::AwaitPull;
                let (remote, reference) = match &self.current {
                    Some(res) => (res.remote_name.clone(), res.reference.canonical()),
                    None => vstd::pervasive::unreached(),
                };
                HostAction::Pull { repo_dir: get_repo_dir(self.home.as_str()), remote, reference }
            },
            Phase::AwaitPull => match e {
                HostEvent::PullResult(ok) => {
                    if ok {
                        self.phase = Phase::AwaitCommit;
                        let reference = match &self.current {
                            Some(res) => res.reference.canonical(),
                            None => vstd::pervasive::unreached(),
                        };
                        HostAction::ResolveCommit {
                            repo_dir: get_repo_dir(self.home.as_str()),
                            reference,
                        }
                    } else {
                        self.phase = Phase::Failed(InstallError::PullFailed);
                        HostAction::Fail { error: InstallError::PullFailed }
                    }
                },
                _ => vstd::pervasive::unreached(),
            },
            Phase::AwaitCommit => match e {
                HostEvent::ResolvedCommit(c) => {
                    self.commit = Some(c);
                    self.phase = Phase::AwaitCommitProbe;
                    HostAction::ProbeCommitDir { path: self.make_commit_dir() }
                },
                _ => vstd::pervasive::unreached(),
            },
            Phase::AwaitCommitProbe => match e {
                HostEvent::CommitDirState { present, empty } => {
                    if !present || empty {
                        self.phase = Phase::AwaitCheckout;
                        let commit = match &self.commit {
                            Some(c) => c.clone(),
                            None => vstd::pervasive::unreached(),
                        };
                        let target = self.make_commit_dir();
                        HostAction::Checkout {
                            repo_dir: get_repo_dir(self.home.as_str()),
                            commit,
                            target,
                        }
                    } else {
                        self.phase = Phase::AwaitActivate;
                        self.make_activate()
                    }
                },
                _ => vstd::pervasive::unreached(),
            },
            Phase::AwaitCheckout => match e {
                HostEvent::CheckoutResult(ok) => {
                    if ok {
                        self.phase = Phase::AwaitActivate;
                        self.make_activate()
                    } else {
                        self.phase = Phase::Failed(InstallError::CheckoutFailed);
                        HostAction::Fail { error: InstallError::CheckoutFailed }
                    }
                },
                _ => vstd::pervasive::unreached(),
            },
            Phase::AwaitActivate => {
                let is_app = match &self.current {
                    Some(res) => match res.reference.kind {
                        RefKind::App => true,
                        RefKind::Runtime => false,
                    },
                    None => vstd::pervasive::unreached(),
                };
                if is_app {
                    self.phase = Phase::AwaitMetadata;
                    let cd = self.make_commit_dir();
                    HostAction::ReadMetadata {
                        primary: metadata_primary(cd.as_str()),
                        fallback: metadata_fallback(cd.as_str()),
                    }
                } else {
                    self.advance()
                }
            },
            Phase::AwaitMetadata => match e {
                HostEvent::MetadataContent(opt) => match opt {
                    None => self.advance(),
                    Some(content) => match metadata_runtime(content.as_str()) {
                        None => self.advance(),
                        Some(rt) => {
                            self.queue.push(rt);
                            proof {
                                assert(deep(self.queue@) =~~= deep(old(self).queue@).push(
                                    lookup_spec(content@, "Application"@, "runtime"@)->Some_0,
                                ));
                            }
                            self.advance()
                        },
                    },
                },
                _ => vstd::pervasive::unreached(),
            },
            Phase::Complete => vstd::pervasive::unreached(),
            Phase::Failed(_) => vstd::pervasive::unreached(),
        }
    }

    /// The add-remote command for the item in progress.
    fn make_add_remote(&self) -> (a: HostAction)
        requires
            cv(*self) is Some,
        ensures
            add_remote_action(*self, a),
    {
        let (name, url) = match &self.current {
            Some(res) => (res.remote_name.clone(), res.remote_url.clone()),
            None => vstd::pervasive::unreached(),
        };
        HostAction::AddRemote { repo_dir: get_repo_dir(self.home.as_str()), name, url }
    }

    /// The commit directory path of the item in progress.
    fn make_commit_dir(&self) -> (r: String)
        requires
            cv(*self) is Some,
            kv(*self) is Some,
        ensures
            r@ == cur_commit_dir(*self),
    {
        let base = match &self.current {
            Some(res) => install_base(self.home.as_str(), &res.reference),
            None => vstd::pervasive::unreached(),
        };
        let commit = match &self.commit {
            Some(c) => c.clone(),
            None => vstd::pervasive::unreached(),
        };
        commit_dir(base.as_str(), commit.as_str())
    }

    /// The active-pointer update for the item in progress.
    fn make_activate(&self) -> (a: HostAction)
        requires
            cv(*self) is Some,
            kv(*self) is Some,
        ensures
            activate_action(*self, a),
    {
        let base = match &self.current {
            Some(res) => install_base(self.home.as_str(), &res.reference),
            None => vstd::pervasive::unreached(),
        };
        let commit = match &self.commit {
            Some(c) => c.clone(),
            None => vstd::pervasive::unreached(),
        };
        HostAction::UpdateActivePointer { link: active_link(base.as_str()), commit }
    }
}

/// Idempotence at the checkout gate: an installation whose commit directory
/// is already present and non-empty performs no checkout, yet the active
/// pointer is still updated for that commit.
pub proof fn lemma_idempotent_checkout_skip(
    pre: Installer,
    e: HostEvent,
    post: Installer,
    a: HostAction,
)
    requires
        step_rel(pre, e, post, a),
        pre.phase is AwaitCommitProbe,
        e matches HostEvent::CommitDirState { present: true, empty: false },
    ensures
        !(a is Checkout),
        a matches HostAction::UpdateActivePointer { link, commit } && link@ == active_link_base(pre)
            && commit@ == kv(pre)->Some_0,
        post.phase is AwaitActivate,
{
}

/// Active-pointer invariant: the machine only ever points the active pointer
/// at a commit whose directory it has just observed non-empty, or whose
/// checkout has just succeeded.
pub proof fn lemma_active_pointer_backed(
    pre: Installer,
    e: HostEvent,
    post: Installer,
    a: HostAction,
)
    requires
        step_rel(pre, e, post, a),
        a is UpdateActivePointer,
        !(pre.phase is Complete),
        !(pre.phase is Failed),
        expects(pre.phase, e),
    ensures
        (pre.phase is AwaitCommitProbe && (e matches HostEvent::CommitDirState {
            present: true,
            empty: false,
        })) || (pre.phase is AwaitCheckout && e matches HostEvent::CheckoutResult(true)),
{
    match pre.phase {
        Phase::NextItem => {
            assert(advance_rel(pre.home@, qv(pre), vv(pre), post, a));
        },
        _ => {},
    }
}

/// A run of one machine: each interaction answers what the phase asked for
/// and obeys the transition relation.
pub open spec fn run_rel(
    states: Seq<Installer>,
    events: Seq<HostEvent>,
    actions: Seq<HostAction>,
) -> bool {
    states.len() == events.len() + 1 && actions.len() == events.len() && forall|i: int|
        0 <= i < events.len() ==> expects(states[i].phase, #[trigger] events[i]) && step_rel(
            states[i],
            events[i],
            states[i + 1],
            actions[i],
        )
}

/// A checkout is only ever demanded in answer to an observation that the
/// commit directory is absent or empty.
proof fn lemma_checkout_needs_absent_or_empty(
    pre: Installer,
    e: HostEvent,
    post: Installer,
    a: HostAction,
)
    requires
        expects(pre.phase, e),
        step_rel(pre, e, post, a),
        a is Checkout,
    ensures
        e matches HostEvent::CommitDirState { present, empty } && (!present || empty),
{
}

/// Idempotence over a whole run: a run that never observes an absent or
/// empty commit directory performs no checkout at all. In particular a
/// second installation of already-materialized content checks nothing out.
pub proof fn lemma_run_without_missing_commit_checks_out_nothing(
    states: Seq<Installer>,
    events: Seq<HostEvent>,
    actions: Seq<HostAction>,
)
    requires
        run_rel(states, events, actions),
        forall|i: int|
            0 <= i < events.len() ==> !(#[trigger] events[i] matches HostEvent::CommitDirState {
                present,
                empty,
            } && (!present || empty)),
    ensures
        forall|i: int| 0 <= i < actions.len() ==> !(#[trigger] actions[i] is Checkout),
{
    assert forall|i: int| 0 <= i < actions.len() implies !(#[trigger] actions[i] is Checkout) by {
        if actions[i] is Checkout {
            lemma_checkout_needs_absent_or_empty(states[i], events[i], states[i + 1], actions[i]);
        }
    }
}

/// Active-pointer invariant over a whole run: every activation answers
/// either an observation of a non-empty commit directory or a successful
/// checkout, so the pointer is only ever moved onto materialized content.
pub proof fn lemma_run_activations_are_backed(
    states: Seq<Installer>,
    events: Seq<HostEvent>,
    actions: Seq<HostAction>,
)
    requires
        run_rel(states, events, actions),
    ensures
        forall|i: int|
            0 <= i < actions.len() && (#[trigger] actions[i]) is UpdateActivePointer ==> (events[i]
                matches HostEvent::CommitDirState { present: true, empty: false } || events[i]
                matches HostEvent::CheckoutResult(true)),
{
    assert forall|i: int|
        0 <= i < actions.len() && (#[trigger] actions[i]) is UpdateActivePointer implies (events[i]
        matches HostEvent::CommitDirState { present: true, empty: false } || events[i] matches
    HostEvent::CheckoutResult(true)) by {
        let pre = states[i];
        assert(expects(pre.phase, events[i]));
        assert(!(pre.phase is Complete));
        assert(!(pre.phase is Failed));
        lemma_active_pointer_backed(pre, events[i], states[i + 1], actions[i]);
    }
}

} // verus!
