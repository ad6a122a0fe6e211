//! The daemonization orchestrator, as an explicit state machine.
//!
//! The sequence forks, becomes a session leader, sets the working directory
//! and file-creation mask, optionally changes the filesystem root and drops
//! privileges (group strictly before user), forks a second time, manages the
//! pid file, and finally redirects the standard streams — in that order,
//! aborting on the first failure with no rollback.
//!
//! The machine decides; the caller acts.  Each [`Daemon::step`] consumes the
//! outcome of the previously issued [`Action`] and either issues the next
//! action, tells the fork parent to exit, reports completion, or reports the
//! tagged error.  The transition function [`spec_step`] is the machine's
//! whole contract: every step is proved equal to it.

use vstd::prelude::*;

use crate::config::{
    chdir_target, clone_bytes, contains_nul, has_nul_byte, mask_value, ConfigV, DaemonConfig,
    Identity, IdentityV, DEFAULT_CREATION_MASK,
};
use crate::error::{Error, ErrorKind, ErrorV};
use crate::pid_text::{render_decimal, spec_decimal};
use crate::syscall::{fork_outcome, pid_outcome, syscall_outcome, ForkOutcome};

verus! {

/// The logical progress marker of the sequence.  Each non-terminal phase
/// names the action whose outcome the machine is waiting for; `Ready` waits
/// for the start signal, and `Daemonized` and `Failed` are terminal.
#[derive(Clone, Copy, Debug, PartialEq, Eq, Structural)]
pub enum Phase {
    Ready,
    FirstForkIssued,
    SessionIssued,
    DirectoryIssued,
    MaskIssued,
    RootIssued,
    GroupLookupIssued,
    GroupChangeIssued,
    UserLookupIssued,
    UserChangeIssued,
    SecondForkIssued,
    PidOpenIssued,
    PidLockIssued,
    PidReadIssued,
    PidWriteIssued,
    PidChownIssued,
    PidUnlockIssued,
    NullOpenIssued,
    StdinIssued,
    StdoutIssued,
    StderrIssued,
    Daemonized,
    Failed,
}

/// What the caller reports back to the machine.
#[derive(Clone, Copy, Debug, PartialEq, Eq, Structural)]
pub enum Event {
    /// The sequence is to begin.
    Start,
    /// A system call returned `ret`; `errno` is the error code captured
    /// right after it (meaningful when `ret` is negative).
    Syscall { ret: i64, errno: i32 },
    /// A name resolution finished: the numeric id, or nothing when the name
    /// did not resolve.
    Lookup { id: Option<u32> },
}

/// The next operation the caller is to perform.
#[derive(Debug, PartialEq, Eq)]
pub enum Action {
    /// Fork the process and report the raw return.
    Fork,
    /// Create a new session and become its leader.
    CreateSession,
    /// Change the working directory to the given path.
    ChangeDirectory(Vec<u8>),
    /// Install the file-creation mask; its primitive never fails, and the
    /// reported previous mask is diagnostic only.
    ApplyMask(u32),
    /// Change the filesystem root to the given path.
    ChangeRoot(Vec<u8>),
    /// Resolve a symbolic group name to a numeric id.
    LookupGroup(Vec<u8>),
    /// Apply the given group id.
    ChangeGroup(u32),
    /// Resolve a symbolic user name to a numeric id.
    LookupUser(Vec<u8>),
    /// Apply the given user id.
    ChangeUser(u32),
    /// Create-or-open the pid file for writing, truncating prior content,
    /// with owner-write world-read permission.
    OpenPidFile(Vec<u8>),
    /// Acquire the advisory non-blocking lock on the pid file descriptor.
    LockPidFile,
    /// Read this process's own id.
    ReadProcessId,
    /// Write exactly these bytes as the pid file's entire content.
    WritePidFile(Vec<u8>),
    /// Re-own the pid file to the resolved identities.
    ChownPidFile { uid: Option<u32>, gid: Option<u32> },
    /// Release the advisory lock.
    UnlockPidFile,
    /// Open the null device read-write.
    OpenNullDevice,
    /// Duplicate the null device onto standard input.
    RedirectStdin,
    /// Duplicate the null device onto standard output.
    RedirectStdout,
    /// Duplicate the null device onto standard error.
    RedirectStderr,
}

/// The ghost image of an [`Action`].
pub enum ActionV {
    Fork,
    CreateSession,
    ChangeDirectory(Seq<u8>),
    ApplyMask(u32),
    ChangeRoot(Seq<u8>),
    LookupGroup(Seq<u8>),
    ChangeGroup(u32),
    LookupUser(Seq<u8>),
    ChangeUser(u32),
    OpenPidFile(Seq<u8>),
    LockPidFile,
    ReadProcessId,
    WritePidFile(Seq<u8>),
    ChownPidFile { uid: Option<u32>, gid: Option<u32> },
    UnlockPidFile,
    OpenNullDevice,
    RedirectStdin,
    RedirectStdout,
    RedirectStderr,
}

impl View for Action {
    type V = ActionV;

    open spec fn view(&self) -> ActionV {
        match *self {
            Action::Fork => ActionV::Fork,
            Action::CreateSession => ActionV::CreateSession,
            Action::ChangeDirectory(d) => ActionV::ChangeDirectory(d@),
            Action::ApplyMask(m) => ActionV::ApplyMask(m),
            Action::ChangeRoot(p) => ActionV::ChangeRoot(p@),
            Action::LookupGroup(n) => ActionV::LookupGroup(n@),
            Action::ChangeGroup(g) => ActionV::ChangeGroup(g),
            Action::LookupUser(n) => ActionV::LookupUser(n@),
            Action::ChangeUser(u) => ActionV::ChangeUser(u),
            Action::OpenPidFile(p) => ActionV::OpenPidFile(p@),
            Action::LockPidFile => ActionV::LockPidFile,
            Action::ReadProcessId => ActionV::ReadProcessId,
            Action::WritePidFile(b) => ActionV::WritePidFile(b@),
            Action::ChownPidFile { uid, gid } => ActionV::ChownPidFile { uid, gid },
            Action::UnlockPidFile => ActionV::UnlockPidFile,
            Action::OpenNullDevice => ActionV::OpenNullDevice,
            Action::RedirectStdin => ActionV::RedirectStdin,
            Action::RedirectStdout => ActionV::RedirectStdout,
            Action::RedirectStderr => ActionV::RedirectStderr,
        }
    }
}

/// What one step of the machine tells the caller.
#[derive(Debug)]
pub enum Step {
    /// Perform this action and report its outcome.
    Continue(Action),
    /// This process is the parent of a fork: terminate immediately with a
    /// success exit code.  That is the defined success path for the
    /// invoking process, not an error.
    ExitParent,
    /// The sequence is complete: the process is a daemon.
    Done,
    /// The sequence aborted with this error; no further action follows.
    Fail(Error),
}

/// The ghost image of a [`Step`].
pub enum StepV {
    Continue(ActionV),
    ExitParent,
    Done,
    Fail(ErrorV),
}

impl View for Step {
    type V = StepV;

    open spec fn view(&self) -> StepV {
        match self {
            Step::Continue(a) => StepV::Continue(a@),
            Step::ExitParent => StepV::ExitParent,
            Step::Done => StepV::Done,
            Step::Fail(e) => StepV::Fail(e@),
        }
    }
}

/// The daemonization orchestrator: the configuration (read-only once the
/// sequence begins), the progress marker, the identities resolved by the
/// privilege transition, the recorded pid, and the terminal failure if one
/// occurred.
#[derive(Debug)]
pub struct Daemon {
    pub config: DaemonConfig,
    pub phase: Phase,
    pub resolved_gid: Option<u32>,
    pub resolved_uid: Option<u32>,
    pub pid: Option<u64>,
    pub failure: Option<Error>,
}

/// The ghost image of a [`Daemon`].
#[verifier::ext_equal]
pub struct DaemonV {
    pub config: ConfigV,
    pub phase: Phase,
    pub resolved_gid: Option<u32>,
    pub resolved_uid: Option<u32>,
    pub pid: Option<u64>,
    pub failure: Option<ErrorV>,
}

impl View for Daemon {
    type V = DaemonV;

    open spec fn view(&self) -> DaemonV {
        DaemonV {
            config: self.config@,
            phase: self.phase,
            resolved_gid: self.resolved_gid,
            resolved_uid: self.resolved_uid,
            pid: self.pid,
            failure: match self.failure {
                Some(e) => Some(e@),
                None => None,
            },
        }
    }
}

/// The machine's invariant: a terminally failed machine remembers its error.
pub open spec fn wf(s: DaemonV) -> bool {
    s.phase is Failed ==> s.failure is Some
}

/// The state a fresh machine starts in.
pub open spec fn init_state(c: ConfigV) -> DaemonV {
    DaemonV {
        config: c,
        phase: Phase::Ready,
        resolved_gid: None,
        resolved_uid: None,
        pid: None,
        failure: None,
    }
}

/// Which event kind a phase waits for.
pub open spec fn expected_event(p: Phase, e: Event) -> bool {
    match p {
        Phase::Ready => e is Start,
        Phase::GroupLookupIssued | Phase::UserLookupIssued => e is Lookup,
        Phase::Daemonized | Phase::Failed => true,
        _ => e is Syscall,
    }
}

/// An error as captured from a failing system call.
pub open spec fn os_err(k: ErrorKind, errno: i32) -> ErrorV {
    ErrorV { kind: k, os_code: Some(errno), description: None }
}

/// An error the OS never saw: no code, no description.
pub open spec fn bare_err(k: ErrorKind) -> ErrorV {
    ErrorV { kind: k, os_code: None, description: None }
}

/// The machine aborts with the given error.
pub open spec fn fail_to(pre: DaemonV, e: ErrorV) -> (DaemonV, StepV) {
    (DaemonV { phase: Phase::Failed, failure: Some(e), ..pre }, StepV::Fail(e))
}

/// The machine moves to the given phase and issues the given action.
pub open spec fn advance(pre: DaemonV, p: Phase, a: ActionV) -> (DaemonV, StepV) {
    (DaemonV { phase: p, ..pre }, StepV::Continue(a))
}

/// After session creation: change into the target directory, unless its
/// path cannot be represented.
pub open spec fn directory_dispatch(pre: DaemonV) -> (DaemonV, StepV) {
    let d = chdir_target(pre.config);
    if contains_nul(d) {
        fail_to(pre, bare_err(ErrorKind::PathEncodingFailed))
    } else {
        advance(pre, Phase::DirectoryIssued, ActionV::ChangeDirectory(d))
    }
}

/// After the mask: change the filesystem root when one is configured, else
/// go on to the privilege transition.
pub open spec fn root_dispatch(pre: DaemonV) -> (DaemonV, StepV) {
    match pre.config.chroot_path {
        Some(p) => if contains_nul(p) {
            fail_to(pre, bare_err(ErrorKind::PathEncodingFailed))
        } else {
            advance(pre, Phase::RootIssued, ActionV::ChangeRoot(p))
        },
        None => group_dispatch(pre),
    }
}

/// The group half of the privilege transition; it always precedes the user
/// half, since a process that has already dropped its user id generally may
/// no longer change its group.
pub open spec fn group_dispatch(pre: DaemonV) -> (DaemonV, StepV) {
    match pre.config.target_group {
        None => user_dispatch(pre),
        Some(IdentityV::Numeric(gid)) => advance(
            DaemonV { resolved_gid: Some(gid), ..pre },
            Phase::GroupChangeIssued,
            ActionV::ChangeGroup(gid),
        ),
        Some(IdentityV::Named(name)) => if contains_nul(name) {
            fail_to(pre, bare_err(ErrorKind::PathEncodingFailed))
        } else {
            advance(pre, Phase::GroupLookupIssued, ActionV::LookupGroup(name))
        },
    }
}

/// The user half of the privilege transition; with no target user the
/// machine goes straight to the second fork.
pub open spec fn user_dispatch(pre: DaemonV) -> (DaemonV, StepV) {
    match pre.config.target_user {
        None => advance(pre, Phase::SecondForkIssued, ActionV::Fork),
        Some(IdentityV::Numeric(uid)) => advance(
            DaemonV { resolved_uid: Some(uid), ..pre },
            Phase::UserChangeIssued,
            ActionV::ChangeUser(uid),
        ),
        Some(IdentityV::Named(name)) => if contains_nul(name) {
            fail_to(pre, bare_err(ErrorKind::PathEncodingFailed))
        } else {
            advance(pre, Phase::UserLookupIssued, ActionV::LookupUser(name))
        },
    }
}

/// After the second fork: manage the pid file when a path is configured,
/// else go straight to stream redirection.
pub open spec fn pid_file_dispatch(pre: DaemonV) -> (DaemonV, StepV) {
    match pre.config.pid_file_path {
        None => advance(pre, Phase::NullOpenIssued, ActionV::OpenNullDevice),
        Some(p) => if contains_nul(p) {
            fail_to(pre, bare_err(ErrorKind::PathEncodingFailed))
        } else {
            advance(pre, Phase::PidOpenIssued, ActionV::OpenPidFile(p))
        },
    }
}

/// After the pid is written: re-own the file when configured and a target
/// identity was resolved, else release the lock.
pub open spec fn chown_dispatch(pre: DaemonV) -> (DaemonV, StepV) {
    if pre.config.chown_pid_file && (pre.resolved_uid is Some || pre.resolved_gid is Some) {
        advance(
            pre,
            Phase::PidChownIssued,
            ActionV::ChownPidFile { uid: pre.resolved_uid, gid: pre.resolved_gid },
        )
    } else {
        advance(pre, Phase::PidUnlockIssued, ActionV::UnlockPidFile)
    }
}

/// The transition function: what one step of the machine does, for every
/// phase and event.  [`Daemon::step`] is proved equal to it.
pub open spec fn spec_step(pre: DaemonV, e: Event) -> (DaemonV, StepV)
    recommends
        expected_event(pre.phase, e),
        wf(pre),
{
    match pre.phase {
        Phase::Ready => advance(pre, Phase::FirstForkIssued, ActionV::Fork),
        Phase::FirstForkIssued => if e->ret < 0 {
            fail_to(pre, os_err(ErrorKind::ForkFailed, e->errno))
        } else if e->ret > 0 {
            (pre, StepV::ExitParent)
        } else {
            advance(pre, Phase::SessionIssued, ActionV::CreateSession)
        },
        Phase::SessionIssued => if e->ret < 0 {
            fail_to(pre, os_err(ErrorKind::SessionDetachFailed, e->errno))
        } else {
            directory_dispatch(pre)
        },
        Phase::DirectoryIssued => if e->ret < 0 {
            fail_to(pre, os_err(ErrorKind::DirectoryChangeFailed, e->errno))
        } else {
            advance(pre, Phase::MaskIssued, ActionV::ApplyMask(mask_value(pre.config)))
        },
        // The mask primitive never fails; the event only reports the
        // previous mask for diagnostics.
        Phase::MaskIssued => root_dispatch(pre),
        Phase::RootIssued => if e->ret < 0 {
            fail_to(pre, os_err(ErrorKind::RootChangeFailed, e->errno))
        } else {
            group_dispatch(pre)
        },
        Phase::GroupLookupIssued => match e->id {
            None => fail_to(pre, bare_err(ErrorKind::GroupLookupFailed)),
            Some(gid) => advance(
                DaemonV { resolved_gid: Some(gid), ..pre },
                Phase::GroupChangeIssued,
                ActionV::ChangeGroup(gid),
            ),
        },
        Phase::GroupChangeIssued => if e->ret < 0 {
            fail_to(pre, os_err(ErrorKind::GroupChangeFailed, e->errno))
        } else {
            user_dispatch(pre)
        },
        Phase::UserLookupIssued => match e->id {
            None => fail_to(pre, bare_err(ErrorKind::UserLookupFailed)),
            Some(uid) => advance(
                DaemonV { resolved_uid: Some(uid), ..pre },
                Phase::UserChangeIssued,
                ActionV::ChangeUser(uid),
            ),
        },
        Phase::UserChangeIssued => if e->ret < 0 {
            fail_to(pre, os_err(ErrorKind::UserChangeFailed, e->errno))
        } else {
            advance(pre, Phase::SecondForkIssued, ActionV::Fork)
        },
        Phase::SecondForkIssued => if e->ret < 0 {
            fail_to(pre, os_err(ErrorKind::ForkFailed, e->errno))
        } else if e->ret > 0 {
            (pre, StepV::ExitParent)
        } else {
            pid_file_dispatch(pre)
        },
        Phase::PidOpenIssued => if e->ret < 0 {
            fail_to(pre, os_err(ErrorKind::PidFileOpenFailed, e->errno))
        } else {
            advance(pre, Phase::PidLockIssued, ActionV::LockPidFile)
        },
        Phase::PidLockIssued => if e->ret < 0 {
            fail_to(pre, os_err(ErrorKind::PidFileLockFailed, e->errno))
        } else {
            advance(pre, Phase::PidReadIssued, ActionV::ReadProcessId)
        },
        Phase::PidReadIssued => if e->ret < 0 {
            fail_to(pre, os_err(ErrorKind::PidFileWriteFailed, e->errno))
        } else {
            advance(
                DaemonV { pid: Some(e->ret as u64), ..pre },
                Phase::PidWriteIssued,
                ActionV::WritePidFile(spec_decimal(e->ret as nat)),
            )
        },
        Phase::PidWriteIssued => if e->ret < 0 {
            fail_to(pre, os_err(ErrorKind::PidFileWriteFailed, e->errno))
        } else {
            chown_dispatch(pre)
        },
        Phase::PidChownIssued => if e->ret < 0 {
            fail_to(pre, os_err(ErrorKind::PidFileOwnershipChangeFailed, e->errno))
        } else {
            advance(pre, Phase::PidUnlockIssued, ActionV::UnlockPidFile)
        },
        Phase::PidUnlockIssued => if e->ret < 0 {
            fail_to(pre, os_err(ErrorKind::PidFileUnlockFailed, e->errno))
        } else {
            advance(pre, Phase::NullOpenIssued, ActionV::OpenNullDevice)
        },
        Phase::NullOpenIssued => if e->ret < 0 {
            fail_to(pre, os_err(ErrorKind::StreamRedirectFailed, e->errno))
        } else {
            advance(pre, Phase::StdinIssued, ActionV::RedirectStdin)
        },
        Phase::StdinIssued => if e->ret < 0 {
            fail_to(pre, os_err(ErrorKind::StreamRedirectFailed, e->errno))
        } else {
            advance(pre, Phase::StdoutIssued, ActionV::RedirectStdout)
        },
        Phase::StdoutIssued => if e->ret < 0 {
            fail_to(pre, os_err(ErrorKind::StreamRedirectFailed, e->errno))
        } else {
            advance(pre, Phase::StderrIssued, ActionV::RedirectStderr)
        },
        Phase::StderrIssued => if e->ret < 0 {
            fail_to(pre, os_err(ErrorKind::StreamRedirectFailed, e->errno))
        } else {
            (DaemonV { phase: Phase::Daemonized, ..pre }, StepV::Done)
        },
        Phase::Daemonized => (pre, StepV::Done),
        Phase::Failed => (
            pre,
            match pre.failure {
                Some(f) => StepV::Fail(f),
                None => StepV::Fail(bare_err(ErrorKind::ForkFailed)),
            },
        ),
    }
}

/// The raw values of a system-call event.
fn syscall_values(e: Event) -> (r: (i64, i32))
    requires
        e is Syscall,
    ensures
        r.0 == e->ret,
        r.1 == e->errno,
{
    match e {
        Event::Syscall { ret, errno } => (ret, errno),
        _ => unreached(),
    }
}

/// The resolved id of a lookup event.
fn lookup_value(e: Event) -> (r: Option<u32>)
    requires
        e is Lookup,
    ensures
        r == e->id,
{
    match e {
        Event::Lookup { id } => id,
        _ => unreached(),
    }
}

impl Daemon {
    /// A fresh machine for one daemonization sequence.
    pub fn new(config: DaemonConfig) -> (r: Daemon)
        ensures
            r@ == init_state(config@),
    {
        Daemon {
            config,
            phase: Phase::Ready,
            resolved_gid: None,
            resolved_uid: None,
            pid: None,
            failure: None,
        }
    }

    /// Aborts the sequence with the given error, remembering it.
    fn fail_with(&mut self, e: Error) -> (r: Step)
        ensures
            (final(self)@, r@) == fail_to(old(self)@, e@),
    {
        let kept = e.duplicate();
        self.phase = Phase::Failed;
        self.failure = Some(kept);
        Step::Fail(e)
    }

    /// The target directory of this configuration, as an owned path.
    fn chdir_target_vec(&self) -> (r: Vec<u8>)
        ensures
            r@ == chdir_target(self.config@),
    {
        match &self.config.working_directory {
            Some(d) => clone_bytes(d),
            None => {
                let mut v: Vec<u8> = Vec::new();
                v.push(47);
                proof {
                    assert(v@ =~= seq![47u8]);
                }
                v
            },
        }
    }

    fn directory_step(&mut self) -> (r: Step)
        ensures
            (final(self)@, r@) == directory_dispatch(old(self)@),
    {
        let d = self.chdir_target_vec();
        if has_nul_byte(&d) {
            self.fail_with(Error::bare(ErrorKind::PathEncodingFailed))
        } else {
            self.phase = Phase::DirectoryIssued;
            Step::Continue(Action::ChangeDirectory(d))
        }
    }

    fn root_step(&mut self) -> (r: Step)
        ensures
            (final(self)@, r@) == root_dispatch(old(self)@),
    {
        let path: Option<Vec<u8>> = match &self.config.chroot_path {
            Some(p) => Some(clone_bytes(p)),
            None => None,
        };
        match path {
            None => self.group_step(),
            Some(p) => {
                if has_nul_byte(&p) {
                    self.fail_with(Error::bare(ErrorKind::PathEncodingFailed))
                } else {
                    self.phase = Phase::RootIssued;
                    Step::Continue(Action::ChangeRoot(p))
                }
            },
        }
    }

    fn group_step(&mut self) -> (r: Step)
        ensures
            (final(self)@, r@) == group_dispatch(old(self)@),
    {
        let target: Option<Identity> = match &self.config.target_group {
            None => None,
            Some(id) => Some(id.duplicate()),
        };
        match target {
            None => self.user_step(),
            Some(Identity::Numeric(gid)) => {
                self.resolved_gid = Some(gid);
                self.phase = Phase::GroupChangeIssued;
                Step::Continue(Action::ChangeGroup(gid))
            },
            Some(Identity::Named(name)) => {
                if has_nul_byte(&name) {
                    self.fail_with(Error::bare(ErrorKind::PathEncodingFailed))
                } else {
                    self.phase = Phase::GroupLookupIssued;
                    Step::Continue(Action::LookupGroup(name))
                }
            },
        }
    }

    fn user_step(&mut self) -> (r: Step)
        ensures
            (final(self)@, r@) == user_dispatch(old(self)@),
    {
        let target: Option<Identity> = match &self.config.target_user {
            None => None,
            Some(id) => Some(id.duplicate()),
        };
        match target {
            None => {
                self.phase = Phase::SecondForkIssued;
                Step::Continue(Action::Fork)
            },
            Some(Identity::Numeric(uid)) => {
                self.resolved_uid = Some(uid);
                self.phase = Phase::UserChangeIssued;
                Step::Continue(Action::ChangeUser(uid))
            },
            Some(Identity::Named(name)) => {
                if has_nul_byte(&name) {
                    self.fail_with(Error::bare(ErrorKind::PathEncodingFailed))
                } else {
                    self.phase = Phase::UserLookupIssued;
                    Step::Continue(Action::LookupUser(name))
                }
            },
        }
    }

    fn pid_file_step(&mut self) -> (r: Step)
        ensures
            (final(self)@, r@) == pid_file_dispatch(old(self)@),
    {
        let path: Option<Vec<u8>> = match &self.config.pid_file_path {
            Some(p) => Some(clone_bytes(p)),
            None => None,
        };
        match path {
            None => {
                self.phase = Phase::NullOpenIssued;
                Step::Continue(Action::OpenNullDevice)
            },
            Some(p) => {
                if has_nul_byte(&p) {
                    self.fail_with(Error::bare(ErrorKind::PathEncodingFailed))
                } else {
                    self.phase = Phase::PidOpenIssued;
                    Step::Continue(Action::OpenPidFile(p))
                }
            },
        }
    }

    fn chown_step(&mut self) -> (r: Step)
        ensures
            (final(self)@, r@) == chown_dispatch(old(self)@),
    {
        if self.config.chown_pid_file && (self.resolved_uid.is_some()
            || self.resolved_gid.is_some()) {
            self.phase = Phase::PidChownIssued;
            Step::Continue(
                Action::ChownPidFile { uid: self.resolved_uid, gid: self.resolved_gid },
            )
        } else {
            self.phase = Phase::PidUnlockIssued;
            Step::Continue(Action::UnlockPidFile)
        }
    }

    /// A step that interprets a plain negative-sentinel syscall outcome
    /// under the given kind, and on success moves to the given phase and
    /// issues the given action.
    fn plain_step(&mut self, kind: ErrorKind, e: Event, p: Phase, a: Action) -> (r: Step)
        requires
            e is Syscall,
        ensures
            e->ret < 0 ==> (final(self)@, r@) == fail_to(old(self)@, os_err(kind, e->errno)),
            e->ret >= 0 ==> (final(self)@, r@) == advance(old(self)@, p, a@),
    {
        let (ret, errno) = syscall_values(e);
        match syscall_outcome(kind, ret, errno) {
            Err(err) => self.fail_with(err),
            Ok(_) => {
                self.phase = p;
                Step::Continue(a)
            },
        }
    }

    /// One step of the daemonization sequence: consumes the outcome of the
    /// previously issued action and decides what happens next, exactly as
    /// [`spec_step`] says.
    pub fn step(&mut self, event: Event) -> (r: Step)
        requires
            expected_event(old(self).phase, event),
            wf(old(self)@),
        ensures
            final(self)@ == spec_step(old(self)@, event).0,
            r@ == spec_step(old(self)@, event).1,
            wf(final(self)@),
    {
        match self.phase {
            Phase::Ready => {
                self.phase = Phase::FirstForkIssued;
                Step::Continue(Action::Fork)
            },
            Phase::FirstForkIssued => {
                let (ret, errno) = syscall_values(event);
                match fork_outcome(ret, errno) {
                    Err(e) => self.fail_with(e),
                    Ok(ForkOutcome::Parent) => Step::ExitParent,
                    Ok(ForkOutcome::Child) => {
                        self.phase = Phase::SessionIssued;
                        Step::Continue(Action::CreateSession)
                    },
                }
            },
            Phase::SessionIssued => {
                let (ret, errno) = syscall_values(event);
                match syscall_outcome(ErrorKind::SessionDetachFailed, ret, errno) {
                    Err(e) => self.fail_with(e),
                    Ok(_) => self.directory_step(),
                }
            },
            Phase::DirectoryIssued => {
                let mask = match self.config.file_creation_mask {
                    Some(m) => m,
                    None => DEFAULT_CREATION_MASK,
                };
                self.plain_step(
                    ErrorKind::DirectoryChangeFailed,
                    event,
                    Phase::MaskIssued,
                    Action::ApplyMask(mask),
                )
            },
            Phase::MaskIssued => self.root_step(),
            Phase::RootIssued => {
                let (ret, errno) = syscall_values(event);
                match syscall_outcome(ErrorKind::RootChangeFailed, ret, errno) {
                    Err(e) => self.fail_with(e),
                    Ok(_) => self.group_step(),
                }
            },
            Phase::GroupLookupIssued => {
                match lookup_value(event) {
                    None => self.fail_with(Error::bare(ErrorKind::GroupLookupFailed)),
                    Some(gid) => {
                        self.resolved_gid = Some(gid);
                        self.phase = Phase::GroupChangeIssued;
                        Step::Continue(Action::ChangeGroup(gid))
                    },
                }
            },
            Phase::GroupChangeIssued => {
                let (ret, errno) = syscall_values(event);
                match syscall_outcome(ErrorKind::GroupChangeFailed, ret, errno) {
                    Err(e) => self.fail_with(e),
                    Ok(_) => self.user_step(),
                }
            },
            Phase::UserLookupIssued => {
                match lookup_value(event) {
                    None => self.fail_with(Error::bare(ErrorKind::UserLookupFailed)),
                    Some(uid) => {
                        self.resolved_uid = Some(uid);
                        self.phase = Phase::UserChangeIssued;
                        Step::Continue(Action::ChangeUser(uid))
                    },
                }
            },
            Phase::UserChangeIssued => self.plain_step(
                ErrorKind::UserChangeFailed,
                event,
                Phase::SecondForkIssued,
                Action::Fork,
            ),
            Phase::SecondForkIssued => {
                let (ret, errno) = syscall_values(event);
                match fork_outcome(ret, errno) {
                    Err(e) => self.fail_with(e),
                    Ok(ForkOutcome::Parent) => Step::ExitParent,
                    Ok(ForkOutcome::Child) => self.pid_file_step(),
                }
            },
            Phase::PidOpenIssued => self.plain_step(
                ErrorKind::PidFileOpenFailed,
                event,
                Phase::PidLockIssued,
                Action::LockPidFile,
            ),
            Phase::PidLockIssued => self.plain_step(
                ErrorKind::PidFileLockFailed,
                event,
                Phase::PidReadIssued,
                Action::ReadProcessId,
            ),
            Phase::PidReadIssued => {
                let (ret, errno) = syscall_values(event);
                match pid_outcome(ret, errno) {
                    Err(e) => self.fail_with(e),
                    Ok(p) => {
                        self.pid = Some(p);
                        self.phase = Phase::PidWriteIssued;
                        Step::Continue(Action::WritePidFile(render_decimal(p)))
                    },
                }
            },
            Phase::PidWriteIssued => {
                let (ret, errno) = syscall_values(event);
                match syscall_outcome(ErrorKind::PidFileWriteFailed, ret, errno) {
                    Err(e) => self.fail_with(e),
                    Ok(_) => self.chown_step(),
                }
            },
            Phase::PidChownIssued => self.plain_step(
                ErrorKind::PidFileOwnershipChangeFailed,
                event,
                Phase::PidUnlockIssued,
                Action::UnlockPidFile,
            ),
            Phase::PidUnlockIssued => self.plain_step(
                ErrorKind::PidFileUnlockFailed,
                event,
                Phase::NullOpenIssued,
                Action::OpenNullDevice,
            ),
            Phase::NullOpenIssued => self.plain_step(
                ErrorKind::StreamRedirectFailed,
                event,
                Phase::StdinIssued,
                Action::RedirectStdin,
            ),
            Phase::StdinIssued => self.plain_step(
                ErrorKind::StreamRedirectFailed,
                event,
                Phase::StdoutIssued,
                Action::RedirectStdout,
            ),
            Phase::StdoutIssued => self.plain_step(
                ErrorKind::StreamRedirectFailed,
                event,
                Phase::StderrIssued,
                Action::RedirectStderr,
            ),
            Phase::StderrIssued => {
                let (ret, errno) = syscall_values(event);
                match syscall_outcome(ErrorKind::StreamRedirectFailed, ret, errno) {
                    Err(e) => self.fail_with(e),
                    Ok(_) => {
                        self.phase = Phase::Daemonized;
                        Step::Done
                    },
                }
            },
            Phase::Daemonized => Step::Done,
            Phase::Failed => match &self.failure {
                Some(f) => Step::Fail(f.duplicate()),
                None => unreached(),
            },
        }
    }
}

} // verus!
