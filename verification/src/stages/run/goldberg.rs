//! `launch-action: goldberg-stage` as steps: find `steam_api64.dll`, keep its
//! `.orig-steam` backup (minted once, never overwritten, and a reserved name
//! held by something else refuses the launch before the live dll is
//! touched), install the Goldberg dll when the bytes differ, then the appid
//! and the three flag files.

use vstd::prelude::*;

use crate::events::Severity;
use crate::stages::run::actions::{
    backup_action, backup_is_goldberg_warn, backup_refusal, goldberg_installed_line, orig_steam_path,
    steam_api_missing_die, steam_api_path, BackupAction, GOLDBERG_ALREADY_INSTALLED, STEAM_API_PLUGIN_REL,
    STEAM_API_ROOT_REL,
};
use crate::paths::join_path;
use crate::stages::{bare_die, no_rows, one_row, step_view, Die, StepAction};

verus! {

/// Where the Goldberg stage stands.
#[derive(Debug, Clone, Copy, PartialEq, Eq, Structural)]
pub enum GoldbergPhase {
    /// Waiting for what occupies the dll's path and the backup's name.
    Start,
    /// Waiting for the backup copy.
    Minting,
    /// Waiting for the provenance record.
    Recording,
    /// Waiting for the byte comparison of the live dll with Goldberg's.
    Compare,
    /// Waiting for the Goldberg dll's copy over the live one.
    Installing,
    /// Waiting for `steam_appid.txt`.
    AppId,
    /// Waiting for `steam_settings/` and its flag files.
    Flags,
    Done,
    Failed,
}

/// One answer the Goldberg stage gets back.
#[derive(Debug, Clone, Copy, PartialEq, Eq, Structural)]
pub enum GoldbergEvent {
    /// Whether the dll is a file, whether the backup name holds a regular
    /// file, and whether anything at all holds it.
    Probed { api_is_file: bool, backup_is_file: bool, backup_exists: bool },
    /// The backup copy succeeded or not; whether the live dll was already
    /// Goldberg's bytes when it was copied.
    BackupMinted { ok: bool, was_goldberg: bool },
    /// The best-effort provenance record was attempted.
    Recorded,
    /// The live dll has Goldberg's bytes.
    DllCompared(bool),
    /// The dll copy, the appid write or the flag files succeeded or not.
    Done(bool),
}

/// The outside work the Goldberg stage asks for.
#[derive(Debug, Clone, Copy, PartialEq, Eq, Structural)]
pub enum GoldbergWork {
    /// Compare the live dll with Goldberg's, then copy it to the backup name.
    MintBackup,
    /// Record that the backup just minted holds Goldberg (best effort).
    RecordProvenance,
    CompareDll,
    /// Copy the Goldberg dll over the live one.
    InstallDll,
    /// `steam_appid.txt` next to the dll: the appid digits, no newline.
    WriteAppId,
    /// `mkdir -p steam_settings`, then the three empty flag files.
    WriteFlagFiles,
    /// Fail with the error the last step reported.
    Fail,
    Die,
    /// Print the failed primitive's cause, then die.
    DieWithCause,
    Finish,
}

/// The Goldberg stage in progress.
pub struct GoldbergSetup {
    pub phase: GoldbergPhase,
    pub bs_dir: String,
    /// The live `steam_api64.dll`.
    pub api: String,
    /// `<api>.orig-steam`.
    pub backup: String,
}

/// The dll the stage works on: under the plugin directory when a file is
/// there, else at the game root.
pub open spec fn api_path_spec(bs_dir: Seq<char>, plugin_is_file: bool) -> Seq<char> {
    join_path(bs_dir, if plugin_is_file {
        STEAM_API_PLUGIN_REL@
    } else {
        STEAM_API_ROOT_REL@
    })
}

pub open spec fn backup_refusal_spec(backup: Seq<char>) -> (Seq<char>, Option<Seq<char>>) {
    (
        backup
            + " is not a regular file — it is the reserved name for the original steam_api64.dll, and Sabrage will not install Goldberg over the live dll without a usable backup"@,
        Some("move or delete "@ + backup),
    )
}

/// What a Goldberg step decides: the next phase, the rows, the work, the die.
pub open spec fn goldberg_next(
    phase: GoldbergPhase,
    bs_dir: Seq<char>,
    api: Seq<char>,
    backup: Seq<char>,
    e: GoldbergEvent,
) -> (GoldbergPhase, Seq<(Severity, Seq<char>)>, GoldbergWork, Option<(Seq<char>, Option<Seq<char>>)>) {
    let none = Seq::<(Severity, Seq<char>)>::empty();
    if phase == GoldbergPhase::Done || phase == GoldbergPhase::Failed {
        (phase, none, GoldbergWork::Finish, None)
    } else {
        match (phase, e) {
            (GoldbergPhase::Start, GoldbergEvent::Probed { api_is_file, backup_is_file, backup_exists }) =>
                if !api_is_file {
                (
                    GoldbergPhase::Failed,
                    none,
                    GoldbergWork::Die,
                    Some(("steam_api64.dll not found under "@ + bs_dir + " — is this a complete Beat Saber install?"@, None)),
                )
            } else if backup_is_file {
                (GoldbergPhase::Compare, none, GoldbergWork::CompareDll, None)
            } else if backup_exists {
                (GoldbergPhase::Failed, none, GoldbergWork::Die, Some(backup_refusal_spec(backup)))
            } else {
                (GoldbergPhase::Minting, none, GoldbergWork::MintBackup, None)
            },
            (GoldbergPhase::Minting, GoldbergEvent::BackupMinted { ok, was_goldberg }) => if !ok {
                (
                    GoldbergPhase::Failed,
                    none,
                    GoldbergWork::DieWithCause,
                    Some(("backup of original steam_api64.dll failed"@, None)),
                )
            } else if was_goldberg {
                (GoldbergPhase::Recording, none, GoldbergWork::RecordProvenance, None)
            } else {
                (GoldbergPhase::Compare, none, GoldbergWork::CompareDll, None)
            },
            (GoldbergPhase::Recording, GoldbergEvent::Recorded) => (
                GoldbergPhase::Compare,
                seq![
                    (
                        Severity::Warn,
                        "steam_api64.dll was already the Goldberg build, so "@ + backup
                            + " is a copy of Goldberg — the real Steam dll was never seen here and cannot be restored"@,
                    ),
                ],
                GoldbergWork::CompareDll,
                None,
            ),
            (GoldbergPhase::Compare, GoldbergEvent::DllCompared(same)) => if same {
                (GoldbergPhase::AppId, seq![(Severity::Info, GOLDBERG_ALREADY_INSTALLED@)], GoldbergWork::WriteAppId, None)
            } else {
                (GoldbergPhase::Installing, none, GoldbergWork::InstallDll, None)
            },
            (GoldbergPhase::Installing, GoldbergEvent::Done(ok)) => if ok {
                (
                    GoldbergPhase::AppId,
                    seq![(Severity::Success, "installed goldberg -> "@ + api)],
                    GoldbergWork::WriteAppId,
                    None,
                )
            } else {
                (GoldbergPhase::Failed, none, GoldbergWork::DieWithCause, Some(("goldberg install failed"@, None)))
            },
            (GoldbergPhase::AppId, GoldbergEvent::Done(ok)) => if ok {
                (GoldbergPhase::Flags, none, GoldbergWork::WriteFlagFiles, None)
            } else {
                (
                    GoldbergPhase::Failed,
                    none,
                    GoldbergWork::DieWithCause,
                    Some(("writing steam_appid.txt failed"@, None)),
                )
            },
            (GoldbergPhase::Flags, GoldbergEvent::Done(ok)) => if ok {
                (GoldbergPhase::Done, none, GoldbergWork::Finish, None)
            } else {
                (GoldbergPhase::Failed, none, GoldbergWork::Fail, None)
            },
            // An answer the phase does not wait for changes nothing.
            _ => (phase, none, GoldbergWork::Fail, None),
        }
    }
}

impl GoldbergSetup {
    /// The stage on `bs_dir`, once it is known whether the plugin directory
    /// holds the dll.
    pub fn new(bs_dir: String, plugin_is_file: bool) -> (s: GoldbergSetup)
        ensures
            s.phase == GoldbergPhase::Start,
            s.bs_dir == bs_dir,
            s.api@ == api_path_spec(bs_dir@, plugin_is_file),
            s.backup@ == s.api@ + ".orig-steam"@,
    {
        let api = steam_api_path(bs_dir.as_str(), plugin_is_file);
        let backup = orig_steam_path(api.as_str());
        GoldbergSetup { phase: GoldbergPhase::Start, bs_dir, api, backup }
    }

    fn go(&mut self, phase: GoldbergPhase, work: GoldbergWork) -> (a: StepAction<GoldbergWork>)
        ensures
            final(self).phase == phase,
            final(self).bs_dir == old(self).bs_dir,
            final(self).api == old(self).api,
            final(self).backup == old(self).backup,
            step_view(a) == (Seq::<(Severity, Seq<char>)>::empty(), work, None::<(Seq<char>, Option<Seq<char>>)>),
    {
        self.phase = phase;
        StepAction { rows: no_rows(), work, die: None }
    }

    fn die(&mut self, work: GoldbergWork, message: &str) -> (a: StepAction<GoldbergWork>)
        ensures
            final(self).phase == GoldbergPhase::Failed,
            final(self).bs_dir == old(self).bs_dir,
            final(self).api == old(self).api,
            final(self).backup == old(self).backup,
            step_view(a) == (Seq::<(Severity, Seq<char>)>::empty(), work, Some((message@, None::<Seq<char>>))),
    {
        self.phase = GoldbergPhase::Failed;
        StepAction { rows: no_rows(), work, die: bare_die(String::from_str(message)) }
    }

    /// One step: what the last piece of outside work answered in, the rows
    /// and the next work out.
    pub fn step(&mut self, e: GoldbergEvent) -> (a: StepAction<GoldbergWork>)
        ensures
            ({
                let n = goldberg_next(old(self).phase, old(self).bs_dir@, old(self).api@, old(self).backup@, e);
                final(self).phase == n.0 && step_view(a) == (n.1, n.2, n.3)
            }),
            final(self).bs_dir == old(self).bs_dir,
            final(self).api == old(self).api,
            final(self).backup == old(self).backup,
    {
        let ph = self.phase;
        if ph == GoldbergPhase::Done || ph == GoldbergPhase::Failed {
            return StepAction { rows: no_rows(), work: GoldbergWork::Finish, die: None };
        }
        match e {
            GoldbergEvent::Probed { api_is_file, backup_is_file, backup_exists } => {
                if ph != GoldbergPhase::Start {
                    self.go(ph, GoldbergWork::Fail)
                } else if !api_is_file {
                    self.phase = GoldbergPhase::Failed;
                    let m = steam_api_missing_die(self.bs_dir.as_str());
                    StepAction { rows: no_rows(), work: GoldbergWork::Die, die: bare_die(m) }
                } else {
                    match backup_action(backup_is_file, backup_exists) {
                        BackupAction::Keep => self.go(GoldbergPhase::Compare, GoldbergWork::CompareDll),
                        BackupAction::Refuse => {
                            self.phase = GoldbergPhase::Failed;
                            let (message, remedy) = backup_refusal(self.backup.as_str());
                            StepAction {
                                rows: no_rows(),
                                work: GoldbergWork::Die,
                                die: Some(Die { message, remedy: Some(remedy) }),
                            }
                        },
                        BackupAction::Mint => self.go(GoldbergPhase::Minting, GoldbergWork::MintBackup),
                    }
                }
            },
            GoldbergEvent::BackupMinted { ok, was_goldberg } => {
                if ph != GoldbergPhase::Minting {
                    self.go(ph, GoldbergWork::Fail)
                } else if !ok {
                    self.die(GoldbergWork::DieWithCause, "backup of original steam_api64.dll failed")
                } else if was_goldberg {
                    self.go(GoldbergPhase::Recording, GoldbergWork::RecordProvenance)
                } else {
                    self.go(GoldbergPhase::Compare, GoldbergWork::CompareDll)
                }
            },
            GoldbergEvent::Recorded => {
                if ph != GoldbergPhase::Recording {
                    self.go(ph, GoldbergWork::Fail)
                } else {
                    self.phase = GoldbergPhase::Compare;
                    let w = backup_is_goldberg_warn(self.backup.as_str());
                    StepAction { rows: one_row((Severity::Warn, w)), work: GoldbergWork::CompareDll, die: None }
                }
            },
            GoldbergEvent::DllCompared(same) => {
                if ph != GoldbergPhase::Compare {
                    self.go(ph, GoldbergWork::Fail)
                } else if same {
                    self.phase = GoldbergPhase::AppId;
                    StepAction {
                        rows: one_row((Severity::Info, String::from_str(GOLDBERG_ALREADY_INSTALLED))),
                        work: GoldbergWork::WriteAppId,
                        die: None,
                    }
                } else {
                    self.go(GoldbergPhase::Installing, GoldbergWork::InstallDll)
                }
            },
            GoldbergEvent::Done(ok) => {
                if ph == GoldbergPhase::Installing {
                    if ok {
                        self.phase = GoldbergPhase::AppId;
                        let l = goldberg_installed_line(self.api.as_str());
                        StepAction { rows: one_row((Severity::Success, l)), work: GoldbergWork::WriteAppId, die: None }
                    } else {
                        self.die(GoldbergWork::DieWithCause, "goldberg install failed")
                    }
                } else if ph == GoldbergPhase::AppId {
                    if ok {
                        self.go(GoldbergPhase::Flags, GoldbergWork::WriteFlagFiles)
                    } else {
                        self.die(GoldbergWork::DieWithCause, "writing steam_appid.txt failed")
                    }
                } else if ph == GoldbergPhase::Flags {
                    if ok {
                        self.go(GoldbergPhase::Done, GoldbergWork::Finish)
                    } else {
                        self.go(GoldbergPhase::Failed, GoldbergWork::Fail)
                    }
                } else {
                    self.go(ph, GoldbergWork::Fail)
                }
            },
        }
    }
}

/// The backup is minted at most once and the live dll is never replaced
/// without one: the stage asks for the backup copy only when nothing holds
/// the reserved name, refuses (before any copy) when something other than a
/// regular file holds it, and asks for the Goldberg copy only from the
/// comparison step, which it reaches only past the backup decision.
pub proof fn lemma_goldberg_backup_first(
    phase: GoldbergPhase,
    bs_dir: Seq<char>,
    api: Seq<char>,
    backup: Seq<char>,
    e: GoldbergEvent,
)
    ensures
        ({
            let n = goldberg_next(phase, bs_dir, api, backup, e);
            &&& n.2 == GoldbergWork::MintBackup ==> phase == GoldbergPhase::Start && e == (GoldbergEvent::Probed {
                api_is_file: true,
                backup_is_file: false,
                backup_exists: false,
            })
            &&& n.2 == GoldbergWork::InstallDll ==> phase == GoldbergPhase::Compare && e == GoldbergEvent::DllCompared(false)
            &&& n.0 == GoldbergPhase::Compare && phase != GoldbergPhase::Compare ==> phase == GoldbergPhase::Start
                || phase == GoldbergPhase::Minting || phase == GoldbergPhase::Recording
            &&& phase == GoldbergPhase::Start && e == (GoldbergEvent::Probed {
                api_is_file: true,
                backup_is_file: false,
                backup_exists: true,
            }) ==> n.0 == GoldbergPhase::Failed && n.3 == Some(backup_refusal_spec(backup))
        }),
{
}

/// The files the Goldberg stage touches, as plain values: the live dll's
/// bytes (`None`: no file), the backup name's content (`None`: no regular
/// file), whether something other than a regular file holds the backup name,
/// the Goldberg dll's bytes, and whether `steam_appid.txt` and the three flag
/// files were written.
pub struct GoldbergFiles {
    pub api: Option<Seq<u8>>,
    pub backup: Option<Seq<u8>>,
    pub backup_other: bool,
    pub gbe: Seq<u8>,
    pub appid: bool,
    pub flags: bool,
}

/// What the stage's first probe sees.
pub open spec fn goldberg_probe(f: GoldbergFiles) -> GoldbergEvent {
    GoldbergEvent::Probed {
        api_is_file: f.api is Some,
        backup_is_file: f.backup is Some,
        backup_exists: f.backup is Some || f.backup_other,
    }
}

/// The outside work done as asked, on a machine where every copy and write
/// succeeds: the files afterwards, and the answer handed back (`None` when
/// the work ends the run).
pub open spec fn goldberg_work_done(f: GoldbergFiles, w: GoldbergWork) -> (GoldbergFiles, Option<GoldbergEvent>) {
    match w {
        GoldbergWork::MintBackup => (
            GoldbergFiles { backup: f.api, ..f },
            Some(GoldbergEvent::BackupMinted { ok: true, was_goldberg: f.api == Some(f.gbe) }),
        ),
        GoldbergWork::RecordProvenance => (f, Some(GoldbergEvent::Recorded)),
        GoldbergWork::CompareDll => (f, Some(GoldbergEvent::DllCompared(f.api == Some(f.gbe)))),
        GoldbergWork::InstallDll => (GoldbergFiles { api: Some(f.gbe), ..f }, Some(GoldbergEvent::Done(true))),
        GoldbergWork::WriteAppId => (GoldbergFiles { appid: true, ..f }, Some(GoldbergEvent::Done(true))),
        GoldbergWork::WriteFlagFiles => (GoldbergFiles { flags: true, ..f }, Some(GoldbergEvent::Done(true))),
        _ => (f, None),
    }
}

/// The stage run from `phase` on answer `e`, at most `fuel` steps: the phase
/// it stops in and the files it leaves.
pub open spec fn goldberg_run(
    phase: GoldbergPhase,
    bs_dir: Seq<char>,
    api: Seq<char>,
    backup: Seq<char>,
    f: GoldbergFiles,
    e: GoldbergEvent,
    fuel: nat,
) -> (GoldbergPhase, GoldbergFiles)
    decreases fuel,
{
    let n = goldberg_next(phase, bs_dir, api, backup, e);
    let (g, next) = goldberg_work_done(f, n.2);
    match next {
        Some(e2) => if fuel == 0 {
            (n.0, g)
        } else {
            goldberg_run(n.0, bs_dir, api, backup, g, e2, (fuel - 1) as nat)
        },
        None => (n.0, g),
    }
}

/// A whole stage on `f`, from its probe.
pub open spec fn goldberg_stage_run(bs_dir: Seq<char>, api: Seq<char>, backup: Seq<char>, f: GoldbergFiles) -> (
    GoldbergPhase,
    GoldbergFiles,
) {
    goldberg_run(GoldbergPhase::Start, bs_dir, api, backup, f, goldberg_probe(f), 10)
}

/// Run twice, the stage is idempotent on the files: on a game whose live dll
/// holds `a` and whose backup name is free, the first run mints the backup
/// from `a`, installs Goldberg and writes the appid and the flag files; the
/// second run finds the backup and never refreshes it, and leaves every file
/// as the first run left it. Both runs finish cleanly.
pub proof fn lemma_goldberg_twice(
    bs_dir: Seq<char>,
    api: Seq<char>,
    backup: Seq<char>,
    a: Seq<u8>,
    gbe: Seq<u8>,
    appid: bool,
    flags: bool,
)
    ensures
        ({
            let f0 = GoldbergFiles { api: Some(a), backup: None, backup_other: false, gbe, appid, flags };
            let r1 = goldberg_stage_run(bs_dir, api, backup, f0);
            let r2 = goldberg_stage_run(bs_dir, api, backup, r1.1);
            let done = GoldbergFiles { api: Some(gbe), backup: Some(a), backup_other: false, gbe, appid: true, flags: true };
            &&& r1.0 == GoldbergPhase::Done
            &&& r1.1 == done
            &&& r2.0 == GoldbergPhase::Done
            &&& r2.1 == done
        }),
{
    let f0 = GoldbergFiles { api: Some(a), backup: None, backup_other: false, gbe, appid, flags };
    let done = GoldbergFiles { api: Some(gbe), backup: Some(a), backup_other: false, gbe, appid: true, flags: true };
    let f1 = GoldbergFiles { backup: Some(a), ..f0 };
    let f2 = GoldbergFiles { api: Some(gbe), ..f1 };
    let f3 = GoldbergFiles { appid: true, ..f2 };
    let r = |ph: GoldbergPhase, f: GoldbergFiles, e: GoldbergEvent, fuel: nat|
        goldberg_run(ph, bs_dir, api, backup, f, e, fuel);
    // First run: backup minted from `a`, then the shared tail.
    assert(r(GoldbergPhase::Flags, done, GoldbergEvent::Done(true), 5) == (GoldbergPhase::Done, done));
    assert(r(GoldbergPhase::AppId, f3, GoldbergEvent::Done(true), 6) == (GoldbergPhase::Done, done));
    if a == gbe {
        assert(f1 == f2);
        assert(r(GoldbergPhase::Compare, f1, GoldbergEvent::DllCompared(true), 7) == (GoldbergPhase::Done, done));
        assert(r(GoldbergPhase::Recording, f1, GoldbergEvent::Recorded, 8) == (GoldbergPhase::Done, done));
        assert(r(GoldbergPhase::Minting, f1, GoldbergEvent::BackupMinted { ok: true, was_goldberg: true }, 9) == (
            GoldbergPhase::Done,
            done,
        ));
    } else {
        assert(r(GoldbergPhase::Installing, f2, GoldbergEvent::Done(true), 7) == (GoldbergPhase::Done, done));
        assert(r(GoldbergPhase::Compare, f1, GoldbergEvent::DllCompared(false), 8) == (GoldbergPhase::Done, done));
        assert(r(GoldbergPhase::Minting, f1, GoldbergEvent::BackupMinted { ok: true, was_goldberg: false }, 9) == (
            GoldbergPhase::Done,
            done,
        ));
    }
    assert(goldberg_stage_run(bs_dir, api, backup, f0) == (GoldbergPhase::Done, done));
    // Second run: the backup is found and kept.
    assert(r(GoldbergPhase::Flags, done, GoldbergEvent::Done(true), 7) == (GoldbergPhase::Done, done));
    assert(r(GoldbergPhase::AppId, done, GoldbergEvent::Done(true), 8) == (GoldbergPhase::Done, done));
    assert(r(GoldbergPhase::Compare, done, GoldbergEvent::DllCompared(true), 9) == (GoldbergPhase::Done, done));
    assert(goldberg_stage_run(bs_dir, api, backup, done) == (GoldbergPhase::Done, done));
}

/// The stage's dies and failures, over every path: without the dll it dies
/// naming the game directory; a failed backup copy, Goldberg copy or appid
/// write dies with its cause first and the step's own text; a failed flag
/// file fails with its own error. None of them asks for anything more.
pub proof fn lemma_goldberg_failures(
    bs_dir: Seq<char>,
    api: Seq<char>,
    backup: Seq<char>,
    backup_is_file: bool,
    backup_exists: bool,
    was_goldberg: bool,
)
    ensures
        goldberg_next(
            GoldbergPhase::Start,
            bs_dir,
            api,
            backup,
            GoldbergEvent::Probed { api_is_file: false, backup_is_file, backup_exists },
        ) == (
            GoldbergPhase::Failed,
            Seq::<(Severity, Seq<char>)>::empty(),
            GoldbergWork::Die,
            Some(
                (
                    "steam_api64.dll not found under "@ + bs_dir + " — is this a complete Beat Saber install?"@,
                    None::<Seq<char>>,
                ),
            ),
        ),
        goldberg_next(
            GoldbergPhase::Minting,
            bs_dir,
            api,
            backup,
            GoldbergEvent::BackupMinted { ok: false, was_goldberg },
        ) == (
            GoldbergPhase::Failed,
            Seq::<(Severity, Seq<char>)>::empty(),
            GoldbergWork::DieWithCause,
            Some(("backup of original steam_api64.dll failed"@, None::<Seq<char>>)),
        ),
        goldberg_next(GoldbergPhase::Installing, bs_dir, api, backup, GoldbergEvent::Done(false)) == (
            GoldbergPhase::Failed,
            Seq::<(Severity, Seq<char>)>::empty(),
            GoldbergWork::DieWithCause,
            Some(("goldberg install failed"@, None::<Seq<char>>)),
        ),
        goldberg_next(GoldbergPhase::AppId, bs_dir, api, backup, GoldbergEvent::Done(false)) == (
            GoldbergPhase::Failed,
            Seq::<(Severity, Seq<char>)>::empty(),
            GoldbergWork::DieWithCause,
            Some(("writing steam_appid.txt failed"@, None::<Seq<char>>)),
        ),
        goldberg_next(GoldbergPhase::Flags, bs_dir, api, backup, GoldbergEvent::Done(false)) == (
            GoldbergPhase::Failed,
            Seq::<(Severity, Seq<char>)>::empty(),
            GoldbergWork::Fail,
            None::<(Seq<char>, Option<Seq<char>>)>,
        ),
{
}

/// The comparison's rows: a live dll already holding Goldberg's bytes is
/// reported and left alone, a different one is replaced and the replacement
/// named; either way the appid comes next, and only after the dll is settled.
pub proof fn lemma_goldberg_install_rows(bs_dir: Seq<char>, api: Seq<char>, backup: Seq<char>, e: GoldbergEvent, phase: GoldbergPhase)
    ensures
        goldberg_next(GoldbergPhase::Compare, bs_dir, api, backup, GoldbergEvent::DllCompared(true)) == (
            GoldbergPhase::AppId,
            seq![(Severity::Info, "goldberg already installed"@)],
            GoldbergWork::WriteAppId,
            None::<(Seq<char>, Option<Seq<char>>)>,
        ),
        goldberg_next(GoldbergPhase::Installing, bs_dir, api, backup, GoldbergEvent::Done(true)) == (
            GoldbergPhase::AppId,
            seq![(Severity::Success, "installed goldberg -> "@ + api)],
            GoldbergWork::WriteAppId,
            None::<(Seq<char>, Option<Seq<char>>)>,
        ),
        goldberg_next(phase, bs_dir, api, backup, e).2 == GoldbergWork::WriteAppId ==> (phase == GoldbergPhase::Compare
            && e == GoldbergEvent::DllCompared(true)) || (phase == GoldbergPhase::Installing && e
            == GoldbergEvent::Done(true)),
        goldberg_next(phase, bs_dir, api, backup, e).2 == GoldbergWork::WriteFlagFiles ==> phase == GoldbergPhase::AppId
            && e == GoldbergEvent::Done(true),
{
}

} // verus!
