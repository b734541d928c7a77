//! `demo.sh install`'s flow as a state machine: the preconditions, then the
//! four layers in order — the global DXMT overlay (with its one-time stock
//! backup), the global wineopenxr, the bottle (files, then the registry), and
//! the host registration, the one privileged write. Each step takes what the
//! outside work answered and says what to print and what to do next.

use vstd::prelude::*;

use crate::events::Severity;
use crate::stages::{no_rows, one_row, owned_rows, rows_view};
use crate::stages::install::{
    backed_up_row, backed_up_row_spec, backup_commit, existing_backup_row, existing_backup_row_spec,
    host_registration_row, host_registration_row_spec, host_write_notice, missing_build_output_message,
    registered_rows, registered_rows_spec, BackupCommit, BackupState, HostWrite, CROSSOVER_NOT_FOUND,
    DXMT_ARTIFACTS_INCOMPLETE, REGISTERING, REGISTRY_ALREADY_SET, REG_ADD_FAILED,
};

verus! {

/// Where an install stands.
#[derive(Debug, Clone, Copy, PartialEq, Eq, Structural)]
pub enum InstallPhase {
    /// Waiting for the precondition facts.
    Preconditions,
    /// Layer 1 opened; waiting for the stock backup's state.
    Backup,
    /// Waiting for the copy of the stock overlay to a partial name.
    CopyingStock,
    /// Waiting for what the finished copy and the backup name look like.
    InspectingPartial,
    /// Waiting for the `mv` that commits the backup.
    Committing,
    /// Waiting for the partial copy's removal.
    Discarding,
    /// Waiting for layer 1's files (the DXMT overlay).
    OverlayFiles,
    /// Waiting for layer 2's files (the global wineopenxr).
    WineopenxrFiles,
    /// Waiting for layer 3's files (the bottle's dll and manifest).
    BottleFiles,
    /// Waiting for whether `system.reg` already registers the runtime.
    Registry,
    /// Waiting for `wine reg add`.
    RegAdd,
    /// Waiting for wine's lazy flush of `system.reg`.
    Flush,
    /// Layer 4 opened; waiting for whether the host registration is current.
    Host,
    /// Waiting for the privileged write.
    HostWrite,
    /// Finished cleanly.
    Done,
    /// Stopped on a die, a failed step or a cancellation.
    Failed,
}

/// One answer the install gets back from its outside work.
#[derive(Debug, Clone, PartialEq, Eq)]
pub enum InstallEvent {
    /// The preconditions: CrossOver.app found, the first missing build output
    /// (if any), and whether the DXMT artifacts are complete.
    Checked { cx_present: bool, missing_output: Option<String>, dxmt_ok: bool },
    /// The stock backup's state (after the partial captures were swept).
    Backup(BackupState),
    /// The copy of the stock overlay to a partial name succeeded or not.
    StockCopied(bool),
    /// Whether the partial copy exists, and whether the backup name was taken.
    PartialInspected { partial_is_dir: bool, backup_exists: bool },
    /// The committing `mv` succeeded or not.
    Committed(bool),
    /// The partial copy was removed.
    Discarded,
    /// A layer's `install_if_changed` copies all succeeded or not.
    FilesInstalled(bool),
    /// `system.reg` already registers wineopenxr.
    RegistryCurrent(bool),
    /// `wine reg add` exited zero or not.
    RegAdded(bool),
    /// The registration became visible in `system.reg` within the wait.
    Flushed(bool),
    /// The host registration is already current.
    HostCurrent(bool),
    /// How the privileged write ended.
    HostWritten(HostWrite),
    /// Stop landed.
    Cancelled,
}

/// The outside work an install step asks for, after its rows are printed.
#[derive(Debug, Clone, PartialEq, Eq)]
pub enum InstallWork {
    /// Open layer 1's section, sweep partial captures, and report the stock
    /// backup's state.
    InspectBackup,
    /// `cp -R` the stock overlay to a fresh partial name.
    CopyStock,
    /// Report whether the partial copy exists and whether the backup name is
    /// taken.
    InspectPartial,
    /// `mv` the partial copy to the backup name.
    CommitBackup,
    /// Remove the partial copy.
    DiscardPartial,
    /// Remove the partial copy, then fail with the copy's own error.
    DiscardAndFail,
    /// Open the layer's section (layers 2 and 3) and install its files.
    InstallFiles(InstallLayer),
    /// Read `system.reg`.
    CheckRegistry,
    /// `wine --bottle <name> --no-update reg add …`.
    RegAdd,
    /// Wait for the registration to reach `system.reg`.
    WaitFlush,
    /// Stop if cancelled, refuse an unrepresentable manifest path, open layer
    /// 4's section, and compare the host registration.
    CheckHost,
    /// The privileged host-manifest write (one authorization prompt).
    PrivilegedWrite,
    /// Die with this text.
    Die(String),
    /// Fail with the error the last step reported.
    Fail,
    /// Nothing is left to do.
    Finish,
}

/// A layer whose files are copied by `install_if_changed`.
#[derive(Debug, Clone, Copy, PartialEq, Eq, Structural)]
pub enum InstallLayer {
    Overlay,
    Wineopenxr,
    Bottle,
}

/// What an install step asks for: rows to print, then work to do.
pub struct InstallAction {
    pub rows: Vec<(Severity, String)>,
    pub work: InstallWork,
}

/// An install in progress.
pub struct InstallState {
    pub phase: InstallPhase,
    pub dry_run: bool,
    /// `<cx>/lib/dxmt.stock-backup`, as the rows print it.
    pub backup: String,
    /// The host registration's path, as the rows print it.
    pub host_xr_json: String,
}

/// [`InstallWork`] as plain values.
pub enum InstallWorkView {
    InspectBackup,
    CopyStock,
    InspectPartial,
    CommitBackup,
    DiscardPartial,
    DiscardAndFail,
    InstallFiles(InstallLayer),
    CheckRegistry,
    RegAdd,
    WaitFlush,
    CheckHost,
    PrivilegedWrite,
    Die(Seq<char>),
    Fail,
    Finish,
}

pub open spec fn install_work_view(w: InstallWork) -> InstallWorkView {
    match w {
        InstallWork::InspectBackup => InstallWorkView::InspectBackup,
        InstallWork::CopyStock => InstallWorkView::CopyStock,
        InstallWork::InspectPartial => InstallWorkView::InspectPartial,
        InstallWork::CommitBackup => InstallWorkView::CommitBackup,
        InstallWork::DiscardPartial => InstallWorkView::DiscardPartial,
        InstallWork::DiscardAndFail => InstallWorkView::DiscardAndFail,
        InstallWork::InstallFiles(l) => InstallWorkView::InstallFiles(l),
        InstallWork::CheckRegistry => InstallWorkView::CheckRegistry,
        InstallWork::RegAdd => InstallWorkView::RegAdd,
        InstallWork::WaitFlush => InstallWorkView::WaitFlush,
        InstallWork::CheckHost => InstallWorkView::CheckHost,
        InstallWork::PrivilegedWrite => InstallWorkView::PrivilegedWrite,
        InstallWork::Die(t) => InstallWorkView::Die(t@),
        InstallWork::Fail => InstallWorkView::Fail,
        InstallWork::Finish => InstallWorkView::Finish,
    }
}

/// The row list of an optional row.
pub open spec fn opt_row(r: Option<(Severity, Seq<char>)>) -> Seq<(Severity, Seq<char>)> {
    match r {
        Some(x) => seq![x],
        None => Seq::empty(),
    }
}

/// Whether the install has stopped.
pub open spec fn install_over(p: InstallPhase) -> bool {
    p == InstallPhase::Done || p == InstallPhase::Failed
}

/// What an install step decides: the next phase, the rows, the work.
pub open spec fn install_next_spec(
    phase: InstallPhase,
    dry_run: bool,
    backup: Seq<char>,
    host: Seq<char>,
    e: InstallEvent,
) -> (InstallPhase, Seq<(Severity, Seq<char>)>, InstallWorkView) {
    let none = Seq::<(Severity, Seq<char>)>::empty();
    if install_over(phase) {
        (phase, none, InstallWorkView::Finish)
    } else if e == InstallEvent::Cancelled {
        (InstallPhase::Failed, none, InstallWorkView::Fail)
    } else {
        match (phase, e) {
            (InstallPhase::Preconditions, InstallEvent::Checked { cx_present, missing_output, dxmt_ok }) =>
                if !cx_present {
                (InstallPhase::Failed, none, InstallWorkView::Die(CROSSOVER_NOT_FOUND@))
            } else if missing_output is Some {
                (
                    InstallPhase::Failed,
                    none,
                    InstallWorkView::Die(
                        "missing build output "@ + missing_output->0@ + " — ./demo.sh build first"@,
                    ),
                )
            } else if !dxmt_ok {
                (InstallPhase::Failed, none, InstallWorkView::Die(DXMT_ARTIFACTS_INCOMPLETE@))
            } else {
                (InstallPhase::Backup, none, InstallWorkView::InspectBackup)
            },
            (InstallPhase::Backup, InstallEvent::Backup(b)) => if b == BackupState::Missing {
                (InstallPhase::CopyingStock, none, InstallWorkView::CopyStock)
            } else {
                (
                    InstallPhase::OverlayFiles,
                    opt_row(existing_backup_row_spec(b, backup)),
                    InstallWorkView::InstallFiles(InstallLayer::Overlay),
                )
            },
            (InstallPhase::CopyingStock, InstallEvent::StockCopied(ok)) => if ok {
                (InstallPhase::InspectingPartial, none, InstallWorkView::InspectPartial)
            } else {
                (InstallPhase::Failed, none, InstallWorkView::DiscardAndFail)
            },
            (InstallPhase::InspectingPartial, InstallEvent::PartialInspected { partial_is_dir, backup_exists }) =>
                if !partial_is_dir {
                (
                    InstallPhase::OverlayFiles,
                    seq![backed_up_row_spec(dry_run, backup)],
                    InstallWorkView::InstallFiles(InstallLayer::Overlay),
                )
            } else if backup_exists {
                (InstallPhase::Discarding, none, InstallWorkView::DiscardPartial)
            } else {
                (InstallPhase::Committing, none, InstallWorkView::CommitBackup)
            },
            (InstallPhase::Committing, InstallEvent::Committed(ok)) => if ok {
                (
                    InstallPhase::OverlayFiles,
                    seq![backed_up_row_spec(dry_run, backup)],
                    InstallWorkView::InstallFiles(InstallLayer::Overlay),
                )
            } else {
                (InstallPhase::Failed, none, InstallWorkView::DiscardAndFail)
            },
            (InstallPhase::Discarding, InstallEvent::Discarded) => (
                InstallPhase::OverlayFiles,
                seq![backed_up_row_spec(dry_run, backup)],
                InstallWorkView::InstallFiles(InstallLayer::Overlay),
            ),
            (InstallPhase::OverlayFiles, InstallEvent::FilesInstalled(ok)) => if ok {
                (InstallPhase::WineopenxrFiles, none, InstallWorkView::InstallFiles(InstallLayer::Wineopenxr))
            } else {
                (InstallPhase::Failed, none, InstallWorkView::Fail)
            },
            (InstallPhase::WineopenxrFiles, InstallEvent::FilesInstalled(ok)) => if ok {
                (InstallPhase::BottleFiles, none, InstallWorkView::InstallFiles(InstallLayer::Bottle))
            } else {
                (InstallPhase::Failed, none, InstallWorkView::Fail)
            },
            (InstallPhase::BottleFiles, InstallEvent::FilesInstalled(ok)) => if ok {
                (InstallPhase::Registry, none, InstallWorkView::CheckRegistry)
            } else {
                (InstallPhase::Failed, none, InstallWorkView::Fail)
            },
            (InstallPhase::Registry, InstallEvent::RegistryCurrent(current)) => if current {
                (InstallPhase::Host, seq![(Severity::Info, REGISTRY_ALREADY_SET@)], InstallWorkView::CheckHost)
            } else {
                (InstallPhase::RegAdd, seq![(Severity::Info, REGISTERING@)], InstallWorkView::RegAdd)
            },
            (InstallPhase::RegAdd, InstallEvent::RegAdded(ok)) => if !ok {
                (InstallPhase::Failed, none, InstallWorkView::Die(REG_ADD_FAILED@))
            } else if dry_run {
                (InstallPhase::Host, registered_rows_spec(true, false), InstallWorkView::CheckHost)
            } else {
                (InstallPhase::Flush, none, InstallWorkView::WaitFlush)
            },
            (InstallPhase::Flush, InstallEvent::Flushed(flushed)) => (
                InstallPhase::Host,
                registered_rows_spec(false, flushed),
                InstallWorkView::CheckHost,
            ),
            (InstallPhase::Host, InstallEvent::HostCurrent(current)) => if current {
                (
                    InstallPhase::Done,
                    seq![(Severity::Info, "host registration already current"@)],
                    InstallWorkView::Finish,
                )
            } else {
                (
                    InstallPhase::HostWrite,
                    seq![(Severity::Info, "writing "@ + host + " (needs sudo)..."@)],
                    InstallWorkView::PrivilegedWrite,
                )
            },
            (InstallPhase::HostWrite, InstallEvent::HostWritten(w)) => (
                InstallPhase::Done,
                seq![host_registration_row_spec(w)],
                InstallWorkView::Finish,
            ),
            // An answer the phase does not wait for changes nothing.
            _ => (phase, none, InstallWorkView::Fail),
        }
    }
}

/// The state an install starts in.
pub fn install_start(dry_run: bool, backup: String, host_xr_json: String) -> (s: InstallState)
    ensures
        s.phase == InstallPhase::Preconditions,
        s.dry_run == dry_run,
        s.backup == backup,
        s.host_xr_json == host_xr_json,
{
    InstallState { phase: InstallPhase::Preconditions, dry_run, backup, host_xr_json }
}

fn action(rows: Vec<(Severity, String)>, work: InstallWork) -> (a: InstallAction)
    ensures
        a.rows == rows,
        a.work == work,
{
    InstallAction { rows, work }
}

/// One step of the install: the state after `e`, and the rows and work it
/// asks for.
pub fn install_step(s: InstallState, e: InstallEvent) -> (r: (InstallState, InstallAction))
    ensures
        ({
            let (p, rows, work) = install_next_spec(s.phase, s.dry_run, s.backup@, s.host_xr_json@, e);
            &&& r.0.phase == p
            &&& r.0.dry_run == s.dry_run
            &&& r.0.backup == s.backup
            &&& r.0.host_xr_json == s.host_xr_json
            &&& rows_view(r.1.rows@) == rows
            &&& install_work_view(r.1.work) == work
        }),
{
    let InstallState { phase, dry_run, backup, host_xr_json } = s;
    let over = match phase {
        InstallPhase::Done | InstallPhase::Failed => true,
        _ => false,
    };
    let (next, a) = if over {
        (phase, action(no_rows(), InstallWork::Finish))
    } else {
        match e {
            InstallEvent::Cancelled => (InstallPhase::Failed, action(no_rows(), InstallWork::Fail)),
            InstallEvent::Checked { cx_present, missing_output, dxmt_ok } => match phase {
                InstallPhase::Preconditions => if !cx_present {
                    (
                        InstallPhase::Failed,
                        action(no_rows(), InstallWork::Die(String::from_str(CROSSOVER_NOT_FOUND))),
                    )
                } else {
                    match missing_output {
                        Some(f) => (
                            InstallPhase::Failed,
                            action(no_rows(), InstallWork::Die(missing_build_output_message(f.as_str()))),
                        ),
                        None => if !dxmt_ok {
                            (
                                InstallPhase::Failed,
                                action(no_rows(), InstallWork::Die(String::from_str(DXMT_ARTIFACTS_INCOMPLETE))),
                            )
                        } else {
                            (InstallPhase::Backup, action(no_rows(), InstallWork::InspectBackup))
                        },
                    }
                },
                _ => (phase, action(no_rows(), InstallWork::Fail)),
            },
            InstallEvent::Backup(b) => match phase {
                InstallPhase::Backup => match b {
                    BackupState::Missing => (InstallPhase::CopyingStock, action(no_rows(), InstallWork::CopyStock)),
                    _ => {
                        let rows = match existing_backup_row(b, backup.as_str()) {
                            Some(r) => one_row(r),
                            None => no_rows(),
                        };
                        (InstallPhase::OverlayFiles, action(rows, InstallWork::InstallFiles(InstallLayer::Overlay)))
                    },
                },
                _ => (phase, action(no_rows(), InstallWork::Fail)),
            },
            InstallEvent::StockCopied(ok) => match phase {
                InstallPhase::CopyingStock => if ok {
                    (InstallPhase::InspectingPartial, action(no_rows(), InstallWork::InspectPartial))
                } else {
                    (InstallPhase::Failed, action(no_rows(), InstallWork::DiscardAndFail))
                },
                _ => (phase, action(no_rows(), InstallWork::Fail)),
            },
            InstallEvent::PartialInspected { partial_is_dir, backup_exists } => match phase {
                InstallPhase::InspectingPartial => match backup_commit(partial_is_dir, backup_exists) {
                    BackupCommit::Nothing => (
                        InstallPhase::OverlayFiles,
                        action(
                            one_row(backed_up_row(dry_run, backup.as_str())),
                            InstallWork::InstallFiles(InstallLayer::Overlay),
                        ),
                    ),
                    BackupCommit::Discard => (InstallPhase::Discarding, action(no_rows(), InstallWork::DiscardPartial)),
                    BackupCommit::Commit => (InstallPhase::Committing, action(no_rows(), InstallWork::CommitBackup)),
                },
                _ => (phase, action(no_rows(), InstallWork::Fail)),
            },
            InstallEvent::Committed(ok) => match phase {
                InstallPhase::Committing => if ok {
                    (
                        InstallPhase::OverlayFiles,
                        action(
                            one_row(backed_up_row(dry_run, backup.as_str())),
                            InstallWork::InstallFiles(InstallLayer::Overlay),
                        ),
                    )
                } else {
                    (InstallPhase::Failed, action(no_rows(), InstallWork::DiscardAndFail))
                },
                _ => (phase, action(no_rows(), InstallWork::Fail)),
            },
            InstallEvent::Discarded => match phase {
                InstallPhase::Discarding => (
                    InstallPhase::OverlayFiles,
                    action(
                        one_row(backed_up_row(dry_run, backup.as_str())),
                        InstallWork::InstallFiles(InstallLayer::Overlay),
                    ),
                ),
                _ => (phase, action(no_rows(), InstallWork::Fail)),
            },
            InstallEvent::FilesInstalled(ok) => match phase {
                InstallPhase::OverlayFiles => if ok {
                    (InstallPhase::WineopenxrFiles, action(no_rows(), InstallWork::InstallFiles(InstallLayer::Wineopenxr)))
                } else {
                    (InstallPhase::Failed, action(no_rows(), InstallWork::Fail))
                },
                InstallPhase::WineopenxrFiles => if ok {
                    (InstallPhase::BottleFiles, action(no_rows(), InstallWork::InstallFiles(InstallLayer::Bottle)))
                } else {
                    (InstallPhase::Failed, action(no_rows(), InstallWork::Fail))
                },
                InstallPhase::BottleFiles => if ok {
                    (InstallPhase::Registry, action(no_rows(), InstallWork::CheckRegistry))
                } else {
                    (InstallPhase::Failed, action(no_rows(), InstallWork::Fail))
                },
                _ => (phase, action(no_rows(), InstallWork::Fail)),
            },
            InstallEvent::RegistryCurrent(current) => match phase {
                InstallPhase::Registry => if current {
                    (
                        InstallPhase::Host,
                        action(one_row((Severity::Info, String::from_str(REGISTRY_ALREADY_SET))), InstallWork::CheckHost),
                    )
                } else {
                    (
                        InstallPhase::RegAdd,
                        action(one_row((Severity::Info, String::from_str(REGISTERING))), InstallWork::RegAdd),
                    )
                },
                _ => (phase, action(no_rows(), InstallWork::Fail)),
            },
            InstallEvent::RegAdded(ok) => match phase {
                InstallPhase::RegAdd => if !ok {
                    (InstallPhase::Failed, action(no_rows(), InstallWork::Die(String::from_str(REG_ADD_FAILED))))
                } else if dry_run {
                    (InstallPhase::Host, action(owned_rows(registered_rows(true, false)), InstallWork::CheckHost))
                } else {
                    (InstallPhase::Flush, action(no_rows(), InstallWork::WaitFlush))
                },
                _ => (phase, action(no_rows(), InstallWork::Fail)),
            },
            InstallEvent::Flushed(flushed) => match phase {
                InstallPhase::Flush => (
                    InstallPhase::Host,
                    action(owned_rows(registered_rows(false, flushed)), InstallWork::CheckHost),
                ),
                _ => (phase, action(no_rows(), InstallWork::Fail)),
            },
            InstallEvent::HostCurrent(current) => match phase {
                InstallPhase::Host => if current {
                    (
                        InstallPhase::Done,
                        action(
                            one_row((Severity::Info, String::from_str("host registration already current"))),
                            InstallWork::Finish,
                        ),
                    )
                } else {
                    (
                        InstallPhase::HostWrite,
                        action(
                            one_row((Severity::Info, host_write_notice(host_xr_json.as_str()))),
                            InstallWork::PrivilegedWrite,
                        ),
                    )
                },
                _ => (phase, action(no_rows(), InstallWork::Fail)),
            },
            InstallEvent::HostWritten(w) => match phase {
                InstallPhase::HostWrite => {
                    let (sev, t) = host_registration_row(w);
                    (InstallPhase::Done, action(one_row((sev, String::from_str(t))), InstallWork::Finish))
                },
                _ => (phase, action(no_rows(), InstallWork::Fail)),
            },
        }
    };
    (InstallState { phase: next, dry_run, backup, host_xr_json }, a)
}

// ── laws ─────────────────────────────────────────────────────────────────────

/// The order of the install's phases; every step moves forward or stays.
pub open spec fn install_rank(p: InstallPhase) -> nat {
    match p {
        InstallPhase::Preconditions => 0,
        InstallPhase::Backup => 1,
        InstallPhase::CopyingStock => 2,
        InstallPhase::InspectingPartial => 3,
        InstallPhase::Committing => 4,
        InstallPhase::Discarding => 4,
        InstallPhase::OverlayFiles => 5,
        InstallPhase::WineopenxrFiles => 6,
        InstallPhase::BottleFiles => 7,
        InstallPhase::Registry => 8,
        InstallPhase::RegAdd => 9,
        InstallPhase::Flush => 10,
        InstallPhase::Host => 11,
        InstallPhase::HostWrite => 12,
        InstallPhase::Done => 13,
        InstallPhase::Failed => 13,
    }
}

/// The layers come in order: layer 1's files are asked for only once the
/// stock backup is settled, layer 2's only after layer 1's succeeded, layer
/// 3's only after layer 2's, the registry only after layer 3's files, and the
/// privileged write only when the host registration was found stale. No step
/// ever goes back.
pub proof fn lemma_install_layers_in_order(
    p: InstallPhase,
    dry_run: bool,
    backup: Seq<char>,
    host: Seq<char>,
    e: InstallEvent,
)
    ensures
        ({
            let (q, rows, w) = install_next_spec(p, dry_run, backup, host, e);
            &&& install_rank(q) >= install_rank(p)
            &&& w == InstallWorkView::InstallFiles(InstallLayer::Overlay) ==> 1 <= install_rank(p) <= 4
            &&& w == InstallWorkView::InstallFiles(InstallLayer::Wineopenxr) ==> p == InstallPhase::OverlayFiles
                && e == InstallEvent::FilesInstalled(true)
            &&& w == InstallWorkView::InstallFiles(InstallLayer::Bottle) ==> p == InstallPhase::WineopenxrFiles
                && e == InstallEvent::FilesInstalled(true)
            &&& w == InstallWorkView::CheckRegistry ==> p == InstallPhase::BottleFiles && e
                == InstallEvent::FilesInstalled(true)
            &&& w == InstallWorkView::PrivilegedWrite ==> p == InstallPhase::Host && e
                == InstallEvent::HostCurrent(false) && q == InstallPhase::HostWrite
        }),
{
}

/// The works an install asks for over a run of answers `es`.
pub open spec fn install_works(
    p: InstallPhase,
    dry_run: bool,
    backup: Seq<char>,
    host: Seq<char>,
    es: Seq<InstallEvent>,
) -> Seq<InstallWorkView>
    decreases es.len(),
{
    if es.len() == 0 {
        Seq::empty()
    } else {
        let (q, rows, w) = install_next_spec(p, dry_run, backup, host, es[0]);
        seq![w] + install_works(q, dry_run, backup, host, es.drop_first())
    }
}

/// How many privileged writes a list of works holds.
pub open spec fn privileged_count(ws: Seq<InstallWorkView>) -> nat
    decreases ws.len(),
{
    if ws.len() == 0 {
        0
    } else {
        (if ws[0] == InstallWorkView::PrivilegedWrite { 1nat } else { 0nat }) + privileged_count(ws.drop_first())
    }
}

/// Install asks for sudo at most once: whatever the outside work answers, a
/// run asks for the privileged write at most once, and never again once it
/// is past the host check.
pub proof fn lemma_install_asks_for_sudo_at_most_once(
    p: InstallPhase,
    dry_run: bool,
    backup: Seq<char>,
    host: Seq<char>,
    es: Seq<InstallEvent>,
)
    ensures
        privileged_count(install_works(p, dry_run, backup, host, es)) <= (if install_rank(p) <= 11 {
            1nat
        } else {
            0nat
        }),
    decreases es.len(),
{
    if es.len() > 0 {
        let (q, rows, w) = install_next_spec(p, dry_run, backup, host, es[0]);
        lemma_install_layers_in_order(p, dry_run, backup, host, es[0]);
        lemma_install_asks_for_sudo_at_most_once(q, dry_run, backup, host, es.drop_first());
        let ws = install_works(p, dry_run, backup, host, es);
        assert(ws.drop_first() =~= install_works(q, dry_run, backup, host, es.drop_first()));
    }
}

/// A dry-run install claims nothing it only planned: it never waits for
/// wine's flush of `system.reg` (it never enters that phase), and the only
/// `ok` row one of its steps can print is the host-registration row, when the
/// privileged write itself reports the registration written; the backup, the
/// registry and every other row are `info` or `warn`.
pub proof fn lemma_install_dry_run_claims_nothing(p: InstallPhase, backup: Seq<char>, host: Seq<char>, e: InstallEvent)
    requires
        p != InstallPhase::Flush,
    ensures
        ({
            let (q, rows, w) = install_next_spec(p, true, backup, host, e);
            &&& q != InstallPhase::Flush
            &&& w != InstallWorkView::WaitFlush
            &&& forall|k: int|
                0 <= k < rows.len() && (#[trigger] rows[k]).0 == Severity::Success ==> rows[k] == (
                    Severity::Success,
                    "host registration written"@,
                ) && e == InstallEvent::HostWritten(HostWrite::Written)
        }),
{
    let (q, rows, w) = install_next_spec(p, true, backup, host, e);
    assert forall|k: int| 0 <= k < rows.len() && (#[trigger] rows[k]).0 == Severity::Success implies rows[k] == (
        Severity::Success,
        "host registration written"@,
    ) && e == InstallEvent::HostWritten(HostWrite::Written) by {
        if p == InstallPhase::Backup {
            if let InstallEvent::Backup(b) = e {
                if b != BackupState::Missing {
                    assert(existing_backup_row_spec(b, backup) is Some);
                }
            }
        }
    }
}

/// Work that touches a layer: anything past the preconditions but a die, a
/// failure or the finish.
pub open spec fn is_layer_work(w: InstallWorkView) -> bool {
    !(w is Die || w is Fail || w is Finish)
}

/// The preconditions are all-or-nothing and come in install.sh's order:
/// without CrossOver the install dies "CrossOver.app not found"; with a build
/// output missing it dies naming it; with the DXMT artifacts incomplete it
/// dies without touching the overlay — on a dry run as on a real one. The
/// stock backup, the first layer's first work, is asked for exactly when all
/// three hold, and the install never moves on otherwise.
pub proof fn lemma_install_preconditions(
    dry_run: bool,
    backup: Seq<char>,
    host: Seq<char>,
    cx_present: bool,
    missing_output: Option<String>,
    dxmt_ok: bool,
)
    ensures
        ({
            let n = install_next_spec(
                InstallPhase::Preconditions,
                dry_run,
                backup,
                host,
                InstallEvent::Checked { cx_present, missing_output, dxmt_ok },
            );
            &&& !cx_present ==> n == (
                InstallPhase::Failed,
                Seq::<(Severity, Seq<char>)>::empty(),
                InstallWorkView::Die("CrossOver.app not found"@),
            )
            &&& cx_present && missing_output is Some ==> n == (
                InstallPhase::Failed,
                Seq::<(Severity, Seq<char>)>::empty(),
                InstallWorkView::Die("missing build output "@ + missing_output->0@ + " — ./demo.sh build first"@),
            )
            &&& cx_present && missing_output is None && !dxmt_ok ==> n == (
                InstallPhase::Failed,
                Seq::<(Severity, Seq<char>)>::empty(),
                InstallWorkView::Die(
                    "ext/dxmt-artifacts missing or incomplete — ./demo.sh setup first (never half-applies the overlay)"@,
                ),
            )
            &&& (n.2 == InstallWorkView::InspectBackup) == (cx_present && missing_output is None && dxmt_ok)
            &&& n.0 == InstallPhase::Backup || n.0 == InstallPhase::Failed
            &&& n.0 == InstallPhase::Failed <==> !(cx_present && missing_output is None && dxmt_ok)
        }),
{
}

proof fn lemma_failed_install_asks_nothing(dry_run: bool, backup: Seq<char>, host: Seq<char>, es: Seq<InstallEvent>)
    ensures
        forall|i: int|
            0 <= i < install_works(InstallPhase::Failed, dry_run, backup, host, es).len() ==> #[trigger] install_works(
                InstallPhase::Failed,
                dry_run,
                backup,
                host,
                es,
            )[i] == InstallWorkView::Finish,
    decreases es.len(),
{
    if es.len() > 0 {
        lemma_failed_install_asks_nothing(dry_run, backup, host, es.drop_first());
        let ws = install_works(InstallPhase::Failed, dry_run, backup, host, es);
        let tail = install_works(InstallPhase::Failed, dry_run, backup, host, es.drop_first());
        assert(ws == seq![InstallWorkView::Finish] + tail);
        assert forall|i: int| 0 <= i < ws.len() implies #[trigger] ws[i] == InstallWorkView::Finish by {
            if i > 0 {
                assert(ws[i] == tail[i - 1]);
            }
        }
    }
}

/// No layer is touched unless every precondition held: a run whose
/// precondition check found CrossOver missing, a build output missing or the
/// DXMT artifacts incomplete asks, over all the answers that may follow, for
/// nothing but its die and then the finish — never the backup, a layer's
/// files, the registry or the privileged write.
pub proof fn lemma_no_layer_without_preconditions(
    dry_run: bool,
    backup: Seq<char>,
    host: Seq<char>,
    cx_present: bool,
    missing_output: Option<String>,
    dxmt_ok: bool,
    rest: Seq<InstallEvent>,
)
    requires
        !(cx_present && missing_output is None && dxmt_ok),
    ensures
        ({
            let ws = install_works(
                InstallPhase::Preconditions,
                dry_run,
                backup,
                host,
                seq![InstallEvent::Checked { cx_present, missing_output, dxmt_ok }] + rest,
            );
            &&& ws.len() == rest.len() + 1
            &&& ws[0] is Die
            &&& forall|i: int| 0 <= i < ws.len() ==> !is_layer_work(#[trigger] ws[i])
        }),
{
    let e = InstallEvent::Checked { cx_present, missing_output, dxmt_ok };
    let es = seq![e] + rest;
    lemma_install_preconditions(dry_run, backup, host, cx_present, missing_output, dxmt_ok);
    assert(es[0] == e);
    assert(es.drop_first() =~= rest);
    lemma_failed_install_asks_nothing(dry_run, backup, host, rest);
    lemma_works_len(InstallPhase::Failed, dry_run, backup, host, rest);
    let ws = install_works(InstallPhase::Preconditions, dry_run, backup, host, es);
    let tail = install_works(InstallPhase::Failed, dry_run, backup, host, rest);
    assert(ws == seq![install_next_spec(InstallPhase::Preconditions, dry_run, backup, host, e).2] + tail);
    assert forall|i: int| 0 <= i < ws.len() implies !is_layer_work(#[trigger] ws[i]) by {
        if i > 0 {
            assert(ws[i] == tail[i - 1]);
        }
    }
}

proof fn lemma_works_len(p: InstallPhase, dry_run: bool, backup: Seq<char>, host: Seq<char>, es: Seq<InstallEvent>)
    ensures
        install_works(p, dry_run, backup, host, es).len() == es.len(),
    decreases es.len(),
{
    if es.len() > 0 {
        let q = install_next_spec(p, dry_run, backup, host, es[0]).0;
        lemma_works_len(q, dry_run, backup, host, es.drop_first());
    }
}

/// A cancellation stops an unfinished install at once, whatever it waited
/// for, and a finished one asks for nothing more.
pub proof fn lemma_install_cancel_and_finish(p: InstallPhase, dry_run: bool, backup: Seq<char>, host: Seq<char>, e: InstallEvent)
    ensures
        p != InstallPhase::Done && p != InstallPhase::Failed ==> install_next_spec(
            p,
            dry_run,
            backup,
            host,
            InstallEvent::Cancelled,
        ) == (InstallPhase::Failed, Seq::<(Severity, Seq<char>)>::empty(), InstallWorkView::Fail),
        p == InstallPhase::Done || p == InstallPhase::Failed ==> install_next_spec(p, dry_run, backup, host, e)
            == (p, Seq::<(Severity, Seq<char>)>::empty(), InstallWorkView::Finish),
{
}

/// A layer's failed copy stops the install: no later layer, registry or host
/// work follows a failed `install_if_changed`.
pub proof fn lemma_install_failed_files_stop(dry_run: bool, backup: Seq<char>, host: Seq<char>, p: InstallPhase)
    requires
        p == InstallPhase::OverlayFiles || p == InstallPhase::WineopenxrFiles || p == InstallPhase::BottleFiles,
    ensures
        install_next_spec(p, dry_run, backup, host, InstallEvent::FilesInstalled(false)) == (
            InstallPhase::Failed,
            Seq::<(Severity, Seq<char>)>::empty(),
            InstallWorkView::Fail,
        ),
{
}

/// Layers 3 and 4, over all answers: a registry that already names
/// wineopenxr is left alone (no `reg add`); a failed `reg add` dies "reg add
/// failed"; a real `reg add` waits for wine's flush and a dry run does not; a
/// host registration found current is never rewritten, and a stale one is
/// the only way to the privileged write.
pub proof fn lemma_install_registry_and_host(dry_run: bool, backup: Seq<char>, host: Seq<char>)
    ensures
        install_next_spec(InstallPhase::Registry, dry_run, backup, host, InstallEvent::RegistryCurrent(true)).2
            == InstallWorkView::CheckHost,
        install_next_spec(InstallPhase::Registry, dry_run, backup, host, InstallEvent::RegistryCurrent(false)).2
            == InstallWorkView::RegAdd,
        install_next_spec(InstallPhase::RegAdd, dry_run, backup, host, InstallEvent::RegAdded(false)) == (
            InstallPhase::Failed,
            Seq::<(Severity, Seq<char>)>::empty(),
            InstallWorkView::Die("reg add failed"@),
        ),
        install_next_spec(InstallPhase::RegAdd, dry_run, backup, host, InstallEvent::RegAdded(true)).2 == (if dry_run {
            InstallWorkView::CheckHost
        } else {
            InstallWorkView::WaitFlush
        }),
        install_next_spec(InstallPhase::Host, dry_run, backup, host, InstallEvent::HostCurrent(true)) == (
            InstallPhase::Done,
            seq![(Severity::Info, "host registration already current"@)],
            InstallWorkView::Finish,
        ),
        install_next_spec(InstallPhase::Host, dry_run, backup, host, InstallEvent::HostCurrent(false)) == (
            InstallPhase::HostWrite,
            seq![(Severity::Info, "writing "@ + host + " (needs sudo)..."@)],
            InstallWorkView::PrivilegedWrite,
        ),
{
}

/// The stock backup is copied only when there is none: an existing backup,
/// full or emptied, is reported and never re-copied, and the overlay is
/// installed next; a missing one is copied to a partial name first, and a
/// failed copy discards the partial and fails before the overlay is touched.
pub proof fn lemma_install_backup_once(dry_run: bool, backup: Seq<char>, host: Seq<char>, b: BackupState)
    ensures
        ({
            let n = install_next_spec(InstallPhase::Backup, dry_run, backup, host, InstallEvent::Backup(b));
            &&& (n.2 == InstallWorkView::CopyStock) == (b == BackupState::Missing)
            &&& b != BackupState::Missing ==> n.2 == InstallWorkView::InstallFiles(InstallLayer::Overlay)
        }),
        install_next_spec(InstallPhase::CopyingStock, dry_run, backup, host, InstallEvent::StockCopied(false)) == (
            InstallPhase::Failed,
            Seq::<(Severity, Seq<char>)>::empty(),
            InstallWorkView::DiscardAndFail,
        ),
{
}

} // verus!
