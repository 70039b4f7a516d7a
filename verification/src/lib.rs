//! Verified core of a bundle-store installer and jail-based launcher.
//!
//! The library holds the decision logic: reference resolution, on-disk
//! layout paths, the installer and sandbox state machines, and the
//! fallback resolvers for libraries and caches. All host effects
//! (processes, mounts, filesystem access) are performed by the caller,
//! which drives the state machines with observed events.

use vstd::prelude::*;

pub mod filters;
pub mod inidoc;
pub mod install;
pub mod launch;
pub mod metadata;
pub mod paths;
pub mod reference;
pub mod sandbox;
pub mod strutil;

verus! {

/// A bind- or pseudo-filesystem mount request, to be performed by the host.
#[derive(Clone, Debug)]
pub struct MountPoint {
    pub source: String,
    pub target: String,
    pub fstype: String,
    pub readonly: bool,
    pub required: bool,
}

/// Mathematical model of a `MountPoint`.
pub struct MountModel {
    pub source: Seq<char>,
    pub target: Seq<char>,
    pub fstype: Seq<char>,
    pub readonly: bool,
    pub required: bool,
}

impl View for MountPoint {
    type V = MountModel;

    open spec fn view(&self) -> MountModel {
        MountModel {
            source: self.source@,
            target: self.target@,
            fstype: self.fstype@,
            readonly: self.readonly,
            required: self.required,
        }
    }
}

/// The bind-mount model `mount_bind` yields.
pub open spec fn bind_spec(source: Seq<char>, target: Seq<char>, ro: bool) -> MountModel {
    MountModel { source, target, fstype: "nullfs"@, readonly: ro, required: false }
}

/// Builds a bind-mount request (`nullfs`, optional mount) from source to target.
pub fn mount_bind(source: String, target: String, ro: bool) -> (m: MountPoint)
    ensures
        m@ == bind_spec(source@, target@, ro),
{
    MountPoint {
        source,
        target,
        fstype: String::from_str("nullfs"),
        readonly: ro,
        required: false,
    }
}

} // verus!
