//! The immutable configuration captured before the daemonization sequence
//! starts.
//!
//! Paths and symbolic names are OS-level byte strings, so an embedded
//! terminator byte can be detected and rejected before it ever reaches an OS
//! interface.

use vstd::prelude::*;

verus! {

/// The file-creation mask applied when the configuration does not choose
/// one: a conservative mask denying group and other write.
pub const DEFAULT_CREATION_MASK: u32 = 0o022;

/// How a target user or group is designated: by numeric id, or by a symbolic
/// name still to be resolved.
#[derive(Debug, PartialEq, Eq)]
pub enum Identity {
    Numeric(u32),
    Named(Vec<u8>),
}

/// The ghost image of an [`Identity`].
pub enum IdentityV {
    Numeric(u32),
    Named(Seq<u8>),
}

impl View for Identity {
    type V = IdentityV;

    open spec fn view(&self) -> IdentityV {
        match *self {
            Identity::Numeric(id) => IdentityV::Numeric(id),
            Identity::Named(n) => IdentityV::Named(n@),
        }
    }
}

/// The configuration of one daemonization sequence.  It is read-only once
/// the sequence begins; no component mutates it.
#[derive(Debug)]
pub struct DaemonConfig {
    /// Directory to change into after detachment; the filesystem root when
    /// absent.
    pub working_directory: Option<Vec<u8>>,
    /// Path of the pid file; when absent, no pid file is managed at all.
    pub pid_file_path: Option<Vec<u8>>,
    /// File-creation mask; [`DEFAULT_CREATION_MASK`] when absent.
    pub file_creation_mask: Option<u32>,
    /// New filesystem root, when the root is to be changed.
    pub chroot_path: Option<Vec<u8>>,
    /// Group to drop privileges to; applied strictly before the user.
    pub target_group: Option<Identity>,
    /// User to drop privileges to; applied strictly after the group.
    pub target_user: Option<Identity>,
    /// Whether the pid file is re-owned to the resolved identities after the
    /// privilege drop.
    pub chown_pid_file: bool,
}

/// The ghost image of a [`DaemonConfig`].
pub struct ConfigV {
    pub working_directory: Option<Seq<u8>>,
    pub pid_file_path: Option<Seq<u8>>,
    pub file_creation_mask: Option<u32>,
    pub chroot_path: Option<Seq<u8>>,
    pub target_group: Option<IdentityV>,
    pub target_user: Option<IdentityV>,
    pub chown_pid_file: bool,
}

impl View for DaemonConfig {
    type V = ConfigV;

    open spec fn view(&self) -> ConfigV {
        ConfigV {
            working_directory: match self.working_directory {
                Some(d) => Some(d@),
                None => None,
            },
            pid_file_path: match self.pid_file_path {
                Some(p) => Some(p@),
                None => None,
            },
            file_creation_mask: self.file_creation_mask,
            chroot_path: match self.chroot_path {
                Some(p) => Some(p@),
                None => None,
            },
            target_group: match self.target_group {
                Some(g) => Some(g@),
                None => None,
            },
            target_user: match self.target_user {
                Some(u) => Some(u@),
                None => None,
            },
            chown_pid_file: self.chown_pid_file,
        }
    }
}

impl DaemonConfig {
    /// A configuration from the three most common choices; every other field
    /// keeps its disabled default.
    pub fn new(
        pid_file_path: Option<Vec<u8>>,
        working_directory: Option<Vec<u8>>,
        file_creation_mask: Option<u32>,
    ) -> (r: DaemonConfig)
        ensures
            r.pid_file_path == pid_file_path,
            r.working_directory == working_directory,
            r.file_creation_mask == file_creation_mask,
            r.chroot_path is None,
            r.target_group is None,
            r.target_user is None,
            !r.chown_pid_file,
    {
        DaemonConfig {
            working_directory,
            pid_file_path,
            file_creation_mask,
            chroot_path: None,
            target_group: None,
            target_user: None,
            chown_pid_file: false,
        }
    }
}

impl Identity {
    /// An identical copy of this designation.
    pub fn duplicate(&self) -> (r: Identity)
        ensures
            r@ == self@,
    {
        match self {
            Identity::Numeric(id) => Identity::Numeric(*id),
            Identity::Named(n) => Identity::Named(clone_bytes(n)),
        }
    }
}

/// Whether a byte string holds an embedded terminator, which the OS path and
/// name interfaces cannot represent.
pub open spec fn contains_nul(s: Seq<u8>) -> bool {
    exists|i: int| 0 <= i < s.len() && s[i] == 0
}

/// The directory the sequence changes into: the configured one, or the
/// filesystem root.
pub open spec fn chdir_target(c: ConfigV) -> Seq<u8> {
    match c.working_directory {
        Some(d) => d,
        None => seq![47u8],
    }
}

/// The mask the sequence applies: the configured one, or the default.
pub open spec fn mask_value(c: ConfigV) -> u32 {
    match c.file_creation_mask {
        Some(m) => m,
        None => DEFAULT_CREATION_MASK,
    }
}

/// Executable check for an embedded terminator byte.
pub fn has_nul_byte(s: &Vec<u8>) -> (r: bool)
    ensures
        r == contains_nul(s@),
{
    let mut i: usize = 0;
    while i < s.len()
        invariant
            0 <= i <= s@.len(),
            forall|j: int| 0 <= j < i ==> s@[j] != 0,
        decreases s@.len() - i,
    {
        if s[i] == 0 {
            return true;
        }
        i = i + 1;
    }
    false
}

/// An identical copy of a byte string.
pub fn clone_bytes(v: &Vec<u8>) -> (r: Vec<u8>)
    ensures
        r@ == v@,
{
    let r = v.clone();
    proof {
        assert(r@ =~= v@);
    }
    r
}

} // verus!
