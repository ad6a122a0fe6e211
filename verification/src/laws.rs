//! The laws of the daemonization sequence, proved over the transition
//! function.
//!
//! A run is the machine driven by an arbitrary sequence of events; the laws
//! speak of every run, whatever outcomes the operating system reports.

use vstd::prelude::*;

use crate::config::ConfigV;
use crate::error::ErrorKind;
use crate::machine::{
    bare_err, init_state, os_err, spec_step, ActionV, DaemonV, Event, Phase, StepV,
};

verus! {

/// The actions one step hands to the caller: one for a `Continue`, none
/// otherwise.
pub open spec fn emitted(st: StepV) -> Seq<ActionV> {
    match st {
        StepV::Continue(a) => seq![a],
        _ => Seq::empty(),
    }
}

/// The machine driven by a sequence of events: the state it ends in, and
/// every action it issued along the way, in order.
pub open spec fn spec_run(pre: DaemonV, es: Seq<Event>) -> (DaemonV, Seq<ActionV>)
    decreases es.len(),
{
    if es.len() == 0 {
        (pre, Seq::empty())
    } else {
        let first = spec_step(pre, es[0]);
        let rest = spec_run(first.0, es.skip(1));
        (rest.0, emitted(first.1) + rest.1)
    }
}

/// The configuration is read-only once the sequence begins: no step, and
/// hence no run, ever changes it.
pub proof fn lemma_config_read_only(pre: DaemonV, e: Event)
    ensures
        spec_step(pre, e).0.config == pre.config,
{
}

/// The configuration is unchanged across a whole run.
pub proof fn lemma_config_read_only_run(pre: DaemonV, es: Seq<Event>)
    ensures
        spec_run(pre, es).0.config == pre.config,
    decreases es.len(),
{
    if es.len() > 0 {
        lemma_config_read_only(pre, es[0]);
        lemma_config_read_only_run(spec_step(pre, es[0]).0, es.skip(1));
    }
}

/// Once failed, the machine stays failed and never issues another action:
/// an abort really is the end of the sequence.
pub proof fn lemma_failure_is_terminal(pre: DaemonV, es: Seq<Event>)
    requires
        pre.phase is Failed,
    ensures
        spec_run(pre, es).0.phase is Failed,
        spec_run(pre, es).1 == Seq::<ActionV>::empty(),
    decreases es.len(),
{
    if es.len() > 0 {
        lemma_failure_is_terminal(spec_step(pre, es[0]).0, es.skip(1));
        assert(spec_run(pre, es).1 =~= Seq::<ActionV>::empty());
    }
}

/// The phases in which the pid-file manager is at work.
pub open spec fn is_pid_file_phase(p: Phase) -> bool {
    match p {
        Phase::PidOpenIssued
        | Phase::PidLockIssued
        | Phase::PidReadIssued
        | Phase::PidWriteIssued
        | Phase::PidChownIssued
        | Phase::PidUnlockIssued => true,
        _ => false,
    }
}

/// The actions that touch the pid file or exist only for its sake.
pub open spec fn is_pid_file_action(a: ActionV) -> bool {
    match a {
        ActionV::OpenPidFile(_)
        | ActionV::LockPidFile
        | ActionV::ReadProcessId
        | ActionV::WritePidFile(_)
        | ActionV::ChownPidFile { .. }
        | ActionV::UnlockPidFile => true,
        _ => false,
    }
}

/// One step under a configuration without a pid-file path neither issues a
/// pid-file action nor enters a pid-file phase.
pub proof fn lemma_no_pid_path_step(pre: DaemonV, e: Event)
    requires
        pre.config.pid_file_path is None,
        !is_pid_file_phase(pre.phase),
    ensures
        !is_pid_file_phase(spec_step(pre, e).0.phase),
        spec_step(pre, e).1 matches StepV::Continue(a) ==> !is_pid_file_action(a),
{
}

/// With `pid_file_path` unset the pid-file manager is fully disabled: a run
/// from the start state never opens, locks, writes, re-owns or unlocks a pid
/// file, whatever the events report.
pub proof fn lemma_no_pid_path_disables_pid_file(pre: DaemonV, es: Seq<Event>)
    requires
        pre.config.pid_file_path is None,
        !is_pid_file_phase(pre.phase),
    ensures
        forall|j: int|
            0 <= j < spec_run(pre, es).1.len() ==> !is_pid_file_action(
                #[trigger] spec_run(pre, es).1[j],
            ),
    decreases es.len(),
{
    if es.len() > 0 {
        let first = spec_step(pre, es[0]);
        lemma_no_pid_path_step(pre, es[0]);
        lemma_config_read_only(pre, es[0]);
        lemma_no_pid_path_disables_pid_file(first.0, es.skip(1));
        let head = emitted(first.1);
        let rest = spec_run(first.0, es.skip(1)).1;
        assert forall|j: int| 0 <= j < spec_run(pre, es).1.len() implies !is_pid_file_action(
            spec_run(pre, es).1[j],
        ) by {
            if j < head.len() {
                assert(spec_run(pre, es).1[j] == head[j]);
            } else {
                assert(spec_run(pre, es).1[j] == rest[j - head.len()]);
            }
        }
    }
}

/// Every user change in a run is preceded by a group change.
pub open spec fn group_precedes_user(acts: Seq<ActionV>) -> bool {
    forall|j: int|
        0 <= j < acts.len() && acts[j] is ChangeUser ==> exists|i: int|
            0 <= i < j && #[trigger] acts[i] is ChangeGroup
}

/// The phases the machine can be in before the group change has been
/// issued.
pub open spec fn pre_group_phase(p: Phase) -> bool {
    match p {
        Phase::Ready
        | Phase::FirstForkIssued
        | Phase::SessionIssued
        | Phase::DirectoryIssued
        | Phase::MaskIssued
        | Phase::RootIssued
        | Phase::GroupLookupIssued
        | Phase::Failed => true,
        _ => false,
    }
}

/// With a target group configured, a step taken before the group change
/// either issues that change, or stays before it without issuing a user
/// change.
pub proof fn lemma_pre_group_step(pre: DaemonV, e: Event)
    requires
        pre.config.target_group is Some,
        pre_group_phase(pre.phase),
    ensures
        (spec_step(pre, e).1 matches StepV::Continue(a) && a is ChangeGroup) || (pre_group_phase(
            spec_step(pre, e).0.phase,
        ) && (spec_step(pre, e).1 matches StepV::Continue(a) ==> !(a is ChangeUser))),
{
}

/// With both a target group and a target user configured, the group change
/// is issued strictly before the user change in every run: dropping the
/// user first would forbid the subsequent group change.
pub proof fn lemma_group_change_precedes_user_change(pre: DaemonV, es: Seq<Event>)
    requires
        pre.config.target_group is Some,
        pre_group_phase(pre.phase),
    ensures
        group_precedes_user(spec_run(pre, es).1),
    decreases es.len(),
{
    let acts = spec_run(pre, es).1;
    if es.len() == 0 {
    } else {
        let first = spec_step(pre, es[0]);
        let head = emitted(first.1);
        let rest = spec_run(first.0, es.skip(1)).1;
        lemma_pre_group_step(pre, es[0]);
        lemma_config_read_only(pre, es[0]);
        if first.1 matches StepV::Continue(a) && a is ChangeGroup {
            assert forall|j: int| 0 <= j < acts.len() && acts[j] is ChangeUser implies exists|
                i: int,
            | 0 <= i < j && #[trigger] acts[i] is ChangeGroup by {
                assert(acts[0] == head[0]);
                assert(acts[0] is ChangeGroup);
                assert(0 < j);
            }
        } else {
            lemma_group_change_precedes_user_change(first.0, es.skip(1));
            assert forall|j: int| 0 <= j < acts.len() && acts[j] is ChangeUser implies exists|
                i: int,
            | 0 <= i < j && #[trigger] acts[i] is ChangeGroup by {
                let h = head.len() as int;
                assert(acts[j] == rest[j - h]);
                let w = choose|i: int| 0 <= i < j - h && #[trigger] rest[i] is ChangeGroup;
                assert(acts[w + h] == rest[w]);
            }
        }
    }
}

/// The same law, from the start of the sequence.
pub proof fn lemma_group_before_user_from_start(c: ConfigV, es: Seq<Event>)
    requires
        c.target_group is Some,
        c.target_user is Some,
    ensures
        group_precedes_user(spec_run(init_state(c), es).1),
{
    lemma_group_change_precedes_user_change(init_state(c), es);
}

/// A failed root change aborts the whole sequence: the step reports
/// `RootChangeFailed` with the captured OS code, the machine is terminally
/// failed, and no later step — privilege drop, pid file, stream redirect —
/// is ever issued.
pub proof fn lemma_root_change_failure(pre: DaemonV, e: Event, later: Seq<Event>)
    requires
        pre.phase is RootIssued,
        e is Syscall,
        e->ret < 0,
    ensures
        spec_step(pre, e).1 == StepV::Fail(os_err(ErrorKind::RootChangeFailed, e->errno)),
        spec_step(pre, e).0.phase is Failed,
        spec_run(spec_step(pre, e).0, later).1 == Seq::<ActionV>::empty(),
{
    lemma_failure_is_terminal(spec_step(pre, e).0, later);
}

/// An unresolvable symbolic user fails the lookup step itself with
/// `UserLookupFailed`: no action is issued, and the machine is terminally
/// failed, so no syscall attempting the privilege change ever follows.
pub proof fn lemma_user_lookup_miss(pre: DaemonV, e: Event, later: Seq<Event>)
    requires
        pre.phase is UserLookupIssued,
        e is Lookup,
        e->id is None,
    ensures
        spec_step(pre, e).1 == StepV::Fail(bare_err(ErrorKind::UserLookupFailed)),
        spec_step(pre, e).0.phase is Failed,
        spec_run(spec_step(pre, e).0, later).1 == Seq::<ActionV>::empty(),
{
    lemma_failure_is_terminal(spec_step(pre, e).0, later);
}

/// For a symbolic target user, a user-change action is only ever issued by
/// the lookup step that resolved the name, and it carries exactly the
/// resolved id.
pub proof fn lemma_named_user_change_needs_resolution(pre: DaemonV, e: Event)
    requires
        pre.config.target_user matches Some(u) && u is Named,
        crate::machine::expected_event(pre.phase, e),
        spec_step(pre, e).1 matches StepV::Continue(a) && a is ChangeUser,
    ensures
        pre.phase is UserLookupIssued,
        e is Lookup,
        e->id matches Some(uid) && spec_step(pre, e).1 == StepV::Continue(
            ActionV::ChangeUser(uid),
        ),
{
}

/// The phases from which the machine will issue no further fork: the second
/// fork has been issued, or the sequence is over.
pub open spec fn no_fork_ahead_phase(p: Phase) -> bool {
    match p {
        Phase::SecondForkIssued
        | Phase::PidOpenIssued
        | Phase::PidLockIssued
        | Phase::PidReadIssued
        | Phase::PidWriteIssued
        | Phase::PidChownIssued
        | Phase::PidUnlockIssued
        | Phase::NullOpenIssued
        | Phase::StdinIssued
        | Phase::StdoutIssued
        | Phase::StderrIssued
        | Phase::Daemonized
        | Phase::Failed => true,
        _ => false,
    }
}

/// The phases between session creation and the second fork: exactly one
/// fork may still be issued.
pub open spec fn one_fork_ahead_phase(p: Phase) -> bool {
    match p {
        Phase::SessionIssued
        | Phase::DirectoryIssued
        | Phase::MaskIssued
        | Phase::RootIssued
        | Phase::GroupLookupIssued
        | Phase::GroupChangeIssued
        | Phase::UserLookupIssued
        | Phase::UserChangeIssued => true,
        _ => false,
    }
}

/// A run holds at most one fork action.
pub open spec fn at_most_one_fork(acts: Seq<ActionV>) -> bool {
    forall|j: int, k: int|
        0 <= j < k < acts.len() ==> !(#[trigger] acts[j] is Fork && #[trigger] acts[k] is Fork)
}

/// Every fork action is preceded by a session-creation action.
pub open spec fn fork_after_session(acts: Seq<ActionV>) -> bool {
    forall|k: int|
        0 <= k < acts.len() && acts[k] is Fork ==> exists|i: int|
            0 <= i < k && #[trigger] acts[i] is CreateSession
}

/// Between any two fork actions stands a session-creation action: the two
/// forks straddle the session-creation step.
pub open spec fn session_straddled(acts: Seq<ActionV>) -> bool {
    forall|j: int, k: int|
        0 <= j < k < acts.len() && (#[trigger] acts[j] is Fork) && (#[trigger] acts[k] is Fork)
            ==> exists|i: int| j < i < k && #[trigger] acts[i] is CreateSession
}

/// Once the second fork is issued, no step issues a fork again.
pub proof fn lemma_no_fork_ahead_step(pre: DaemonV, e: Event)
    requires
        no_fork_ahead_phase(pre.phase),
    ensures
        no_fork_ahead_phase(spec_step(pre, e).0.phase),
        spec_step(pre, e).1 matches StepV::Continue(a) ==> !(a is Fork),
{
}

/// A run from such a phase holds no fork action at all.
pub proof fn lemma_no_fork_ahead_run(pre: DaemonV, es: Seq<Event>)
    requires
        no_fork_ahead_phase(pre.phase),
    ensures
        forall|k: int|
            0 <= k < spec_run(pre, es).1.len() ==> !(#[trigger] spec_run(pre, es).1[k] is Fork),
    decreases es.len(),
{
    if es.len() > 0 {
        let first = spec_step(pre, es[0]);
        lemma_no_fork_ahead_step(pre, es[0]);
        lemma_no_fork_ahead_run(first.0, es.skip(1));
        let head = emitted(first.1);
        let rest = spec_run(first.0, es.skip(1)).1;
        assert forall|k: int| 0 <= k < spec_run(pre, es).1.len() implies !(spec_run(pre, es).1[k]
            is Fork) by {
            if k < head.len() {
                assert(spec_run(pre, es).1[k] == head[k]);
            } else {
                assert(spec_run(pre, es).1[k] == rest[k - head.len()]);
            }
        }
    }
}

/// Between session creation and the second fork, one step either issues
/// that fork and passes the point of no further forks, or issues no fork
/// and stays before it.
pub proof fn lemma_one_fork_ahead_step(pre: DaemonV, e: Event)
    requires
        one_fork_ahead_phase(pre.phase),
    ensures
        (spec_step(pre, e).1 matches StepV::Continue(a) && a is Fork && no_fork_ahead_phase(
            spec_step(pre, e).0.phase,
        )) || ((spec_step(pre, e).1 matches StepV::Continue(a) ==> !(a is Fork)) && (
        one_fork_ahead_phase(spec_step(pre, e).0.phase) || no_fork_ahead_phase(
            spec_step(pre, e).0.phase,
        ))),
{
}

/// A run from between session creation and the second fork holds at most
/// one fork action.
pub proof fn lemma_one_fork_ahead_run(pre: DaemonV, es: Seq<Event>)
    requires
        one_fork_ahead_phase(pre.phase),
    ensures
        at_most_one_fork(spec_run(pre, es).1),
    decreases es.len(),
{
    let acts = spec_run(pre, es).1;
    if es.len() > 0 {
        let first = spec_step(pre, es[0]);
        let head = emitted(first.1);
        let rest = spec_run(first.0, es.skip(1)).1;
        lemma_one_fork_ahead_step(pre, es[0]);
        if first.1 matches StepV::Continue(a) && a is Fork {
            lemma_no_fork_ahead_run(first.0, es.skip(1));
            assert forall|j: int, k: int| 0 <= j < k < acts.len() implies !(acts[j] is Fork
                && acts[k] is Fork) by {
                assert(acts[k] == rest[k - 1]);
            }
        } else if one_fork_ahead_phase(first.0.phase) {
            lemma_one_fork_ahead_run(first.0, es.skip(1));
            assert forall|j: int, k: int| 0 <= j < k < acts.len() implies !(acts[j] is Fork
                && acts[k] is Fork) by {
                let h = head.len() as int;
                if j >= h {
                    assert(acts[j] == rest[j - h]);
                    assert(acts[k] == rest[k - h]);
                } else {
                    assert(acts[j] == head[j]);
                }
            }
        } else {
            lemma_no_fork_ahead_run(first.0, es.skip(1));
            assert forall|j: int, k: int| 0 <= j < k < acts.len() implies !(acts[j] is Fork
                && acts[k] is Fork) by {
                let h = head.len() as int;
                if k >= h {
                    assert(acts[k] == rest[k - h]);
                } else {
                    assert(acts[j] == head[j]);
                }
            }
        }
    }
}

/// A run from the first fork's aftermath issues at most one further fork,
/// and only after creating the session.
pub proof fn lemma_first_fork_run(pre: DaemonV, es: Seq<Event>)
    requires
        pre.phase is FirstForkIssued,
    ensures
        at_most_one_fork(spec_run(pre, es).1),
        fork_after_session(spec_run(pre, es).1),
    decreases es.len(),
{
    let acts = spec_run(pre, es).1;
    if es.len() > 0 {
        let first = spec_step(pre, es[0]);
        let head = emitted(first.1);
        let rest = spec_run(first.0, es.skip(1)).1;
        if first.0.phase is Failed {
            lemma_failure_is_terminal(first.0, es.skip(1));
        } else if first.0.phase is FirstForkIssued {
            lemma_first_fork_run(first.0, es.skip(1));
            assert(acts =~= rest);
        } else {
            // The child continues: the session-creation action is issued
            // first, and everything after it forks at most once.
            lemma_one_fork_ahead_run(first.0, es.skip(1));
            assert(head == seq![ActionV::CreateSession]);
            assert forall|j: int, k: int| 0 <= j < k < acts.len() implies !(acts[j] is Fork
                && acts[k] is Fork) by {
                if j >= 1 {
                    assert(acts[j] == rest[j - 1]);
                    assert(acts[k] == rest[k - 1]);
                }
            }
            assert forall|k: int| 0 <= k < acts.len() && acts[k] is Fork implies exists|i: int|
                0 <= i < k && #[trigger] acts[i] is CreateSession by {
                assert(acts[0] is CreateSession);
                assert(k >= 1);
            }
        }
    }
}

/// The two forks straddle the session-creation step in every run from the
/// start: the machine never forks twice back to back, which would leave the
/// daemon a session leader able to re-acquire a controlling terminal.
pub proof fn lemma_forks_straddle_session(c: ConfigV, es: Seq<Event>)
    ensures
        session_straddled(spec_run(init_state(c), es).1),
{
    let pre = init_state(c);
    let acts = spec_run(pre, es).1;
    if es.len() > 0 {
        let first = spec_step(pre, es[0]);
        let rest = spec_run(first.0, es.skip(1)).1;
        lemma_first_fork_run(first.0, es.skip(1));
        assert(emitted(first.1) == seq![ActionV::Fork]);
        assert forall|j: int, k: int|
            0 <= j < k < acts.len() && (acts[j] is Fork) && (acts[k] is Fork) implies exists|
            i: int,
        | j < i < k && #[trigger] acts[i] is CreateSession by {
            if j >= 1 {
                assert(acts[j] == rest[j - 1]);
                assert(acts[k] == rest[k - 1]);
                assert(false);
            } else {
                assert(acts[k] == rest[k - 1]);
                let w = choose|i: int| 0 <= i < k - 1 && #[trigger] rest[i] is CreateSession;
                assert(acts[w + 1] == rest[w]);
            }
        }
    }
}

/// The bytes the machine asks to have written as the pid file's content are
/// exactly the decimal text of the pid the OS reported, and that text
/// parses back to the same pid.
pub proof fn lemma_pid_write_bytes(pre: DaemonV, e: Event)
    requires
        pre.phase is PidReadIssued,
        e is Syscall,
        e->ret >= 0,
    ensures
        spec_step(pre, e).0.pid == Some(e->ret as u64),
        spec_step(pre, e).1 == StepV::Continue(
            ActionV::WritePidFile(crate::pid_text::spec_decimal(e->ret as nat)),
        ),
        crate::pid_text::spec_decimal_value(crate::pid_text::spec_decimal(e->ret as nat)) == e->ret
            as nat,
{
    crate::pid_text::lemma_decimal_round_trip(e->ret as nat);
}

} // verus!

