use sabrage_core::events::Severity;
use sabrage_core::stages::run::guards::{AudioAction, AudioGuard, AudioRelease};
use sabrage_core::stages::run::preflight::gate_warn_text;
use uuid::Uuid;
use sabrage_core::process::ProcInfo;
use sabrage_core::stages::run::actions::{
    forward_args, is_already_exists, reverse_cleanup_args, reverse_cleanup_due, wineserver_reset_outcome, removed_ports, rollback_commands, spawn_retry, SpawnFailure,
};
use sabrage_core::stages::stop::{kill_args, reap_targets};
use sabrage_core::stages::build::flow::{BuildEvent, BuildPhase, BuildSetup, BuildTarget, BuildWork};
use sabrage_core::stages::install::flow::{
    install_start, install_step, InstallEvent, InstallLayer, InstallPhase, InstallState, InstallWork,
};
use sabrage_core::stages::install::{BackupState, HostWrite};
use sabrage_core::stages::run::goldberg::{GoldbergEvent, GoldbergPhase, GoldbergSetup, GoldbergWork};
use sabrage_core::stages::setup::flow::{
    config_step, ConfigDecision, ExtractOutcome, PinnedEvent, PinnedPhase, PinnedSetup, PinnedWork,
    SubmodulesEvent, SubmodulesPhase, SubmodulesSetup, SubmodulesWork,
};
use sabrage_core::stages::StepAction;

fn feed(s: InstallState, e: InstallEvent) -> (InstallState, Vec<(Severity, String)>, InstallWork) {
    let (s, a) = install_step(s, e);
    (s, a.rows, a.work)
}

fn happy_install(dry_run: bool) -> (Vec<InstallWork>, Vec<(Severity, String)>, InstallPhase) {
    let mut s = install_start(dry_run, "/cx/lib/dxmt.stock-backup".into(), "/h/xr.json".into());
    let mut works = Vec::new();
    let mut rows = Vec::new();
    let events = vec![
        InstallEvent::Checked { cx_present: true, missing_output: None, dxmt_ok: true },
        InstallEvent::Backup(BackupState::Present),
        InstallEvent::FilesInstalled(true),
        InstallEvent::FilesInstalled(true),
        InstallEvent::FilesInstalled(true),
        InstallEvent::RegistryCurrent(false),
        InstallEvent::RegAdded(true),
    ];
    for e in events {
        let (n, r, w) = feed(s, e);
        s = n;
        rows.extend(r);
        works.push(w);
    }
    if !dry_run {
        let (n, r, w) = feed(s, InstallEvent::Flushed(true));
        s = n;
        rows.extend(r);
        works.push(w);
    }
    let (n, r, w) = feed(s, InstallEvent::HostCurrent(false));
    s = n;
    rows.extend(r);
    works.push(w);
    let done = if dry_run { HostWrite::Planned } else { HostWrite::Written };
    let (n, r, w) = feed(s, InstallEvent::HostWritten(done));
    rows.extend(r);
    works.push(w);
    (works, rows, n.phase)
}

#[test]
fn install_runs_its_four_layers_in_order_and_asks_for_sudo_once() {
    let (works, rows, phase) = happy_install(false);
    assert_eq!(
        works,
        vec![
            InstallWork::InspectBackup,
            InstallWork::InstallFiles(InstallLayer::Overlay),
            InstallWork::InstallFiles(InstallLayer::Wineopenxr),
            InstallWork::InstallFiles(InstallLayer::Bottle),
            InstallWork::CheckRegistry,
            InstallWork::RegAdd,
            InstallWork::WaitFlush,
            InstallWork::CheckHost,
            InstallWork::PrivilegedWrite,
            InstallWork::Finish,
        ]
    );
    assert_eq!(works.iter().filter(|w| **w == InstallWork::PrivilegedWrite).count(), 1);
    assert_eq!(phase, InstallPhase::Done);
    assert_eq!(rows[0], (Severity::Info, "stock DXMT backup already exists".to_string()));
    assert_eq!(rows.last().unwrap(), &(Severity::Success, "host registration written".to_string()));
    assert!(rows.contains(&(Severity::Info, "writing /h/xr.json (needs sudo)...".to_string())));
}

#[test]
fn a_dry_run_install_skips_the_flush_and_plans_the_host_write() {
    let (works, rows, phase) = happy_install(true);
    assert!(!works.contains(&InstallWork::WaitFlush));
    assert_eq!(phase, InstallPhase::Done);
    assert!(rows.contains(&(Severity::Info, "would register ActiveRuntime".to_string())));
    assert_eq!(rows.last().unwrap(), &(Severity::Info, "would write host registration".to_string()));
}

#[test]
fn a_current_host_registration_skips_layer_four() {
    let mut s = install_start(false, "/b".into(), "/h/xr.json".into());
    for e in [
        InstallEvent::Checked { cx_present: true, missing_output: None, dxmt_ok: true },
        InstallEvent::Backup(BackupState::Present),
        InstallEvent::FilesInstalled(true),
        InstallEvent::FilesInstalled(true),
        InstallEvent::FilesInstalled(true),
    ] {
        s = install_step(s, e).0;
    }
    let (s, a) = install_step(s, InstallEvent::RegistryCurrent(true));
    assert_eq!(a.rows, vec![(Severity::Info, "registry ActiveRuntime already set".to_string())]);
    assert_eq!(a.work, InstallWork::CheckHost);
    let (s, a) = install_step(s, InstallEvent::HostCurrent(true));
    assert_eq!(a.work, InstallWork::Finish);
    assert_eq!(a.rows, vec![(Severity::Info, "host registration already current".to_string())]);
    assert_eq!(s.phase, InstallPhase::Done);
}

#[test]
fn install_checks_its_preconditions_before_any_layer() {
    let s = install_start(false, "/b".into(), "/h".into());
    let (s, a) = install_step(s, InstallEvent::Checked { cx_present: false, missing_output: None, dxmt_ok: true });
    assert_eq!(a.work, InstallWork::Die("CrossOver.app not found".to_string()));
    assert_eq!(s.phase, InstallPhase::Failed);

    let s = install_start(false, "/b".into(), "/h".into());
    let (_, a) = install_step(
        s,
        InstallEvent::Checked { cx_present: true, missing_output: Some("/r/lib/x.dll".into()), dxmt_ok: true },
    );
    assert_eq!(a.work, InstallWork::Die("missing build output /r/lib/x.dll — ./demo.sh build first".to_string()));
}

#[test]
fn a_missing_backup_is_copied_then_committed() {
    let mut s = install_start(false, "/cx/lib/dxmt.stock-backup".into(), "/h".into());
    s = install_step(s, InstallEvent::Checked { cx_present: true, missing_output: None, dxmt_ok: true }).0;
    let (s, a) = install_step(s, InstallEvent::Backup(BackupState::Missing));
    assert_eq!(a.work, InstallWork::CopyStock);
    let (s, a) = install_step(s, InstallEvent::StockCopied(true));
    assert_eq!(a.work, InstallWork::InspectPartial);
    let (s, a) = install_step(s, InstallEvent::PartialInspected { partial_is_dir: true, backup_exists: false });
    assert_eq!(a.work, InstallWork::CommitBackup);
    let (_, a) = install_step(s, InstallEvent::Committed(true));
    assert_eq!(a.rows, vec![(Severity::Success, "backed up stock DXMT -> /cx/lib/dxmt.stock-backup".to_string())]);
    assert_eq!(a.work, InstallWork::InstallFiles(InstallLayer::Overlay));
}

#[test]
fn a_cancelled_install_stops() {
    let s = install_start(false, "/b".into(), "/h".into());
    let (s, a) = install_step(s, InstallEvent::Cancelled);
    assert_eq!(a.work, InstallWork::Fail);
    assert_eq!(s.phase, InstallPhase::Failed);
}

#[test]
fn config_step_creates_only_when_absent_and_never_overwrites() {
    assert_eq!(
        config_step(true, None, false, "alvr", "/c/oxrsys-runtime.toml"),
        ConfigDecision::Report(Severity::Info, "config present: /c/oxrsys-runtime.toml (protocol=alvr)".into())
    );
    assert_eq!(config_step(false, None, false, "", "/c/t.toml"), ConfigDecision::CreateNew { planned: false });
    assert_eq!(config_step(false, None, true, "", "/c/t.toml"), ConfigDecision::CreateNew { planned: true });
    // Another writer won the race: the file is reported, not replaced.
    assert_eq!(
        config_step(false, Some(false), false, "oxrsys", "/c/t.toml"),
        ConfigDecision::Report(
            Severity::Warn,
            "config present with protocol='oxrsys' — the demo needs protocol = \"alvr\"; edit /c/t.toml yourself (not overwriting)"
                .into()
        )
    );
    assert_eq!(
        config_step(false, Some(true), false, "", "/c/t.toml"),
        ConfigDecision::Report(
            Severity::Success,
            "wrote /c/t.toml (protocol=alvr, 42 Mbps, encoder_process=auto)".into()
        )
    );
    assert_eq!(
        config_step(false, Some(true), true, "", "/c/t.toml"),
        ConfigDecision::Report(
            Severity::Info,
            "would write /c/t.toml (protocol=alvr, 42 Mbps, encoder_process=auto)".into()
        )
    );
}

fn rows_of<W>(a: &StepAction<W>) -> Vec<(Severity, String)> {
    a.rows.clone()
}

#[test]
fn submodules_run_three_commands_then_check_both_postconditions() {
    let mut s = SubmodulesSetup::new(false, "/repo".into());
    let a = s.step(SubmodulesEvent::Begin);
    assert_eq!(a.work, SubmodulesWork::TopLevel);
    assert_eq!(rows_of(&a)[0].1, "initializing submodules (first fetch is large: ALVR + the wine source tree)...");
    assert_eq!(s.step(SubmodulesEvent::GitDone(true)).work, SubmodulesWork::Wine);
    assert_eq!(s.step(SubmodulesEvent::GitDone(true)).work, SubmodulesWork::Openvr);
    assert_eq!(s.step(SubmodulesEvent::GitDone(true)).work, SubmodulesWork::ProbeHeader);
    let a = s.step(SubmodulesEvent::HeaderFound(true));
    assert_eq!(rows_of(&a), vec![(Severity::Success, "submodules ready".to_string())]);
    assert_eq!(a.work, SubmodulesWork::ReadConnectionRs);
    let a = s.step(SubmodulesEvent::ConnectionRs(Some("fn is_streaming_nonblocking() {}".into())));
    assert_eq!(a.work, SubmodulesWork::Finish);
    assert_eq!(s.phase, SubmodulesPhase::Done);
}

#[test]
fn submodules_die_on_a_missing_patch_set_but_only_plan_on_a_dry_run() {
    let mut s = SubmodulesSetup::new(false, "/repo".into());
    s.phase = SubmodulesPhase::Patchset;
    let a = s.step(SubmodulesEvent::ConnectionRs(None));
    assert_eq!(a.work, SubmodulesWork::Die);
    assert_eq!(
        a.die.unwrap().message,
        "ALVR submodule is missing the oxrsys patches — run: git -C \"/repo\" submodule update --checkout ext/ALVR"
    );

    let mut s = SubmodulesSetup::new(true, "/repo".into());
    s.phase = SubmodulesPhase::Header;
    let a = s.step(SubmodulesEvent::HeaderFound(false));
    assert_eq!(
        rows_of(&a),
        vec![(Severity::Info, "would initialize submodules (nothing was fetched under --dry-run)".to_string())]
    );
    let a = s.step(SubmodulesEvent::ConnectionRs(None));
    assert_eq!(a.work, SubmodulesWork::Finish);
    assert!(a.die.is_none());

    let mut s = SubmodulesSetup::new(false, "/repo".into());
    s.phase = SubmodulesPhase::TopLevel;
    assert_eq!(s.step(SubmodulesEvent::GitDone(false)).work, SubmodulesWork::Fail);
}

#[test]
fn pinned_keeps_a_foreign_goldberg_and_extracts_dxmt() {
    let mut s = PinnedSetup::new(false, "/g/steam_api64.dll".into(), "/r/ext/dxmt-artifacts".into());
    let a = s.step(PinnedEvent::GoldbergProbed { present: true, hash_matches: false });
    assert_eq!(a.work, PinnedWork::CheckDxmt);
    assert_eq!(rows_of(&a)[0].0, Severity::Warn);
    assert_eq!(s.step(PinnedEvent::DxmtPresent(false)).work, PinnedWork::DownloadDxmt);
    assert_eq!(s.step(PinnedEvent::Done(true)).work, PinnedWork::RemoveArtifacts);
    assert_eq!(s.step(PinnedEvent::Done(true)).work, PinnedWork::Extract);
    assert_eq!(s.step(PinnedEvent::Extracted(ExtractOutcome::Extracted)).work, PinnedWork::CheckFiles);
    assert_eq!(s.step(PinnedEvent::FilesChecked(true)).work, PinnedWork::WriteMarker);
    let a = s.step(PinnedEvent::Done(true));
    assert_eq!(
        rows_of(&a),
        vec![(Severity::Success, "extracted ext/dxmt-artifacts (provenance marker written)".to_string())]
    );
    assert_eq!(s.phase, PinnedPhase::Done);
}

#[test]
fn pinned_downloads_a_missing_goldberg_and_stops_when_dxmt_is_present() {
    let mut s = PinnedSetup::new(false, "/g".into(), "/d".into());
    assert_eq!(
        s.step(PinnedEvent::GoldbergProbed { present: false, hash_matches: false }).work,
        PinnedWork::DownloadGoldberg
    );
    assert_eq!(s.step(PinnedEvent::Done(true)).work, PinnedWork::CheckDxmt);
    let a = s.step(PinnedEvent::DxmtPresent(true));
    assert_eq!(
        rows_of(&a),
        vec![(Severity::Info, "already present: dxmt-artifacts (sha256 marker matches)".to_string())]
    );
}

#[test]
fn pinned_dies_on_a_failed_or_incomplete_extraction() {
    let mut s = PinnedSetup::new(false, "/g".into(), "/d".into());
    s.phase = PinnedPhase::Extracting;
    let a = s.step(PinnedEvent::Extracted(ExtractOutcome::Failed));
    assert_eq!(a.die.unwrap().message, "extraction failed");

    let mut s = PinnedSetup::new(false, "/g".into(), "/d".into());
    s.phase = PinnedPhase::Verifying;
    let a = s.step(PinnedEvent::FilesChecked(false));
    assert_eq!(a.die.unwrap().message, "extracted dxmt-artifacts are incomplete — delete /d and re-run setup");

    // A dry run plans the marker and never claims the extraction.
    let mut s = PinnedSetup::new(true, "/g".into(), "/d".into());
    s.phase = PinnedPhase::Verifying;
    assert_eq!(s.step(PinnedEvent::FilesChecked(false)).work, PinnedWork::WriteMarker);
    let a = s.step(PinnedEvent::Done(true));
    assert_eq!(
        rows_of(&a),
        vec![(Severity::Info, "would extract ext/dxmt-artifacts and write the provenance marker".to_string())]
    );
}

#[test]
fn goldberg_mints_the_backup_once_then_installs() {
    let mut g = GoldbergSetup::new("/bs".into(), true);
    assert_eq!(g.api, "/bs/Beat Saber_Data/Plugins/x86_64/steam_api64.dll");
    assert_eq!(g.backup, "/bs/Beat Saber_Data/Plugins/x86_64/steam_api64.dll.orig-steam");
    let a = g.step(GoldbergEvent::Probed { api_is_file: true, backup_is_file: false, backup_exists: false });
    assert_eq!(a.work, GoldbergWork::MintBackup);
    assert_eq!(g.step(GoldbergEvent::BackupMinted { ok: true, was_goldberg: false }).work, GoldbergWork::CompareDll);
    assert_eq!(g.step(GoldbergEvent::DllCompared(false)).work, GoldbergWork::InstallDll);
    let a = g.step(GoldbergEvent::Done(true));
    assert_eq!(
        rows_of(&a),
        vec![(
            Severity::Success,
            "installed goldberg -> /bs/Beat Saber_Data/Plugins/x86_64/steam_api64.dll".to_string()
        )]
    );
    assert_eq!(a.work, GoldbergWork::WriteAppId);
    assert_eq!(g.step(GoldbergEvent::Done(true)).work, GoldbergWork::WriteFlagFiles);
    assert_eq!(g.step(GoldbergEvent::Done(true)).work, GoldbergWork::Finish);
    assert_eq!(g.phase, GoldbergPhase::Done);
}

#[test]
fn goldberg_keeps_an_existing_backup_and_refuses_an_occupied_name() {
    let mut g = GoldbergSetup::new("/bs".into(), false);
    let a = g.step(GoldbergEvent::Probed { api_is_file: true, backup_is_file: true, backup_exists: true });
    assert_eq!(a.work, GoldbergWork::CompareDll);
    let a = g.step(GoldbergEvent::DllCompared(true));
    assert_eq!(rows_of(&a), vec![(Severity::Info, "goldberg already installed".to_string())]);

    let mut g = GoldbergSetup::new("/bs".into(), false);
    let a = g.step(GoldbergEvent::Probed { api_is_file: true, backup_is_file: false, backup_exists: true });
    assert_eq!(a.work, GoldbergWork::Die);
    let d = a.die.unwrap();
    assert!(d.message.starts_with("/bs/steam_api64.dll.orig-steam is not a regular file"));
    assert_eq!(d.remedy.as_deref(), Some("move or delete /bs/steam_api64.dll.orig-steam"));

    let mut g = GoldbergSetup::new("/bs".into(), false);
    let a = g.step(GoldbergEvent::Probed { api_is_file: false, backup_is_file: false, backup_exists: false });
    assert_eq!(
        a.die.unwrap().message,
        "steam_api64.dll not found under /bs — is this a complete Beat Saber install?"
    );
}

#[test]
fn goldberg_warns_when_the_backup_is_itself_goldberg_and_dies_with_causes() {
    let mut g = GoldbergSetup::new("/bs".into(), false);
    g.step(GoldbergEvent::Probed { api_is_file: true, backup_is_file: false, backup_exists: false });
    assert_eq!(
        g.step(GoldbergEvent::BackupMinted { ok: true, was_goldberg: true }).work,
        GoldbergWork::RecordProvenance
    );
    let a = g.step(GoldbergEvent::Recorded);
    assert_eq!(rows_of(&a)[0].0, Severity::Warn);
    assert_eq!(a.work, GoldbergWork::CompareDll);

    let mut g = GoldbergSetup::new("/bs".into(), false);
    g.step(GoldbergEvent::Probed { api_is_file: true, backup_is_file: false, backup_exists: false });
    let a = g.step(GoldbergEvent::BackupMinted { ok: false, was_goldberg: false });
    assert_eq!(a.work, GoldbergWork::DieWithCause);
    assert_eq!(a.die.unwrap().message, "backup of original steam_api64.dll failed");

    let mut g = GoldbergSetup::new("/bs".into(), false);
    g.phase = GoldbergPhase::AppId;
    let a = g.step(GoldbergEvent::Done(false));
    assert_eq!(a.die.unwrap().message, "writing steam_appid.txt failed");
}

fn build_gated(b: &mut BuildSetup) -> StepAction<BuildWork> {
    b.step(BuildEvent::Gated {
        cmake: true,
        ninja: true,
        mingw: true,
        rustup_listing: Some("aarch64-apple-darwin\nx86_64-apple-darwin\n".into()),
        runtime_is_dir: true,
    })
}

#[test]
fn build_runs_its_trees_in_order_and_sweeps_the_outputs() {
    let mut b = BuildSetup::new(false, "/h/built".into(), "/h/build".into(), "/r/staged".into());
    let a = build_gated(&mut b);
    assert_eq!(a.work, BuildWork::Configure(BuildTarget::Oxrsys));
    assert_eq!(b.step(BuildEvent::ChildDone(true)).work, BuildWork::Build(BuildTarget::Oxrsys));
    let a = b.step(BuildEvent::ChildDone(true));
    assert_eq!(rows_of(&a)[0], (Severity::Success, "oxrsys built".to_string()));
    assert_eq!(a.work, BuildWork::Configure(BuildTarget::Helper));
    assert_eq!(b.step(BuildEvent::ChildDone(true)).work, BuildWork::Build(BuildTarget::Helper));
    assert_eq!(b.step(BuildEvent::ChildDone(true)).work, BuildWork::CheckHelper);
    let a = b.step(BuildEvent::HelperBuilt { is_file: true, is_arm64: true, lipo_archs: "arm64".into() });
    assert_eq!(a.work, BuildWork::CopyHelper);
    let a = b.step(BuildEvent::HelperCopied { ok: true, copied: true });
    assert_eq!(rows_of(&a), vec![(Severity::Success, "installed: /r/staged".to_string())]);
    assert_eq!(a.work, BuildWork::CheckStaged);
    let a = b.step(BuildEvent::StagedChecked { is_arm64: true, lipo_archs: "arm64".into() });
    assert_eq!(a.work, BuildWork::Configure(BuildTarget::Wineopenxr));
    assert_eq!(b.step(BuildEvent::ChildDone(true)).work, BuildWork::Build(BuildTarget::Wineopenxr));
    assert_eq!(b.step(BuildEvent::ChildDone(true)).work, BuildWork::CargoDashboard);
    assert_eq!(b.step(BuildEvent::ChildDone(true)).work, BuildWork::CheckOutputs);
    let a = b.step(BuildEvent::OutputsChecked(None));
    assert_eq!(rows_of(&a), vec![(Severity::Success, "all build outputs present".to_string())]);
    assert_eq!(b.phase, BuildPhase::Done);
}

#[test]
fn build_gates_die_in_shell_order() {
    let mut b = BuildSetup::new(false, "/h".into(), "/hb".into(), "/s".into());
    let a = b.step(BuildEvent::Gated { cmake: true, ninja: false, mingw: false, rustup_listing: None, runtime_is_dir: true });
    assert_eq!(a.die.unwrap().message, "ninja missing — brew install cmake ninja mingw-w64");

    let mut b = BuildSetup::new(false, "/h".into(), "/hb".into(), "/s".into());
    let a = b.step(BuildEvent::Gated { cmake: true, ninja: true, mingw: true, rustup_listing: None, runtime_is_dir: true });
    assert!(a.die.unwrap().message.starts_with("rustup x86_64-apple-darwin target missing"));

    let mut b = BuildSetup::new(false, "/h".into(), "/hb".into(), "/s".into());
    let a = b.step(BuildEvent::Gated {
        cmake: true,
        ninja: true,
        mingw: true,
        rustup_listing: Some("x86_64-apple-darwin".into()),
        runtime_is_dir: false,
    });
    assert_eq!(a.die.unwrap().message, "submodules not initialized — ./demo.sh setup");
}

#[test]
fn a_wrong_arch_staged_helper_is_repaired_once() {
    let mut b = BuildSetup::new(false, "/h".into(), "/hb".into(), "/s".into());
    b.phase = BuildPhase::HelperStaged;
    assert_eq!(
        b.step(BuildEvent::StagedChecked { is_arm64: false, lipo_archs: "x86_64".into() }).work,
        BuildWork::RepairStaged
    );
    assert_eq!(b.step(BuildEvent::Repaired(true)).work, BuildWork::CheckStaged);
    let a = b.step(BuildEvent::StagedChecked { is_arm64: false, lipo_archs: "x86_64".into() });
    assert_eq!(
        a.die.unwrap().message,
        "staged encoder helper is not an arm64 executable (x86_64) — delete /s and re-run ./demo.sh build"
    );
}

#[test]
fn a_dry_run_build_narrates_in_the_future_and_skips_the_sweep() {
    let mut b = BuildSetup::new(true, "/h".into(), "/hb".into(), "/s".into());
    build_gated(&mut b);
    b.step(BuildEvent::ChildDone(true));
    let a = b.step(BuildEvent::ChildDone(true));
    assert_eq!(rows_of(&a)[0], (Severity::Info, "would build oxrsys (build-x64)".to_string()));
    b.step(BuildEvent::ChildDone(true));
    b.step(BuildEvent::ChildDone(true));
    // Nothing was built: the missing helper is not a die.
    assert_eq!(
        b.step(BuildEvent::HelperBuilt { is_file: false, is_arm64: false, lipo_archs: String::new() }).work,
        BuildWork::CopyHelper
    );
    let a = b.step(BuildEvent::HelperCopied { ok: true, copied: true });
    assert_eq!(rows_of(&a)[0], (Severity::Success, "would install: /s".to_string()));
    assert_eq!(a.work, BuildWork::Configure(BuildTarget::Wineopenxr));
    b.step(BuildEvent::ChildDone(true));
    b.step(BuildEvent::ChildDone(true));
    let a = b.step(BuildEvent::ChildDone(true));
    assert_eq!(a.work, BuildWork::Finish);
    assert_eq!(
        rows_of(&a)[1],
        (
            Severity::Info,
            "build-output presence sweep skipped under --dry-run (nothing was built)".to_string()
        )
    );
}

#[test]
fn a_failed_dashboard_build_dies_with_the_retry_hint() {
    let mut b = BuildSetup::new(false, "/h".into(), "/hb".into(), "/s".into());
    b.phase = BuildPhase::Dashboard;
    let a = b.step(BuildEvent::ChildDone(false));
    assert!(a.die.unwrap().message.starts_with("alvr_dashboard build failed"));
    let mut b = BuildSetup::new(false, "/h".into(), "/hb".into(), "/s".into());
    b.phase = BuildPhase::OxrsysBuild;
    assert_eq!(b.step(BuildEvent::ChildError).work, BuildWork::Fail);
}

#[test]
fn a_rollback_removes_each_streaming_forward_and_forgets_only_the_removed() {
    let specs = vec!["tcp:9943".to_string(), "tcp:9944".to_string()];
    assert_eq!(
        rollback_commands("S1", &specs),
        vec![
            vec!["-s", "S1", "forward", "--remove", "tcp:9943"],
            vec!["-s", "S1", "forward", "--remove", "tcp:9944"],
        ]
        .into_iter()
        .map(|c| c.into_iter().map(String::from).collect::<Vec<_>>())
        .collect::<Vec<_>>()
    );
    assert_eq!(removed_ports(&vec![9943, 9944], &vec![true, false]), vec![9943]);
    assert_eq!(removed_ports(&vec![9943, 9944], &vec![false, false]), Vec::<u16>::new());
}

#[test]
fn a_real_reap_signals_only_identities_that_still_match() {
    let a = ProcInfo { pid: 10, start_time: 1, exe: "/x".into() };
    let b = ProcInfo { pid: 11, start_time: 2, exe: "/y".into() };
    let procs = vec![a.clone(), b.clone()];
    assert_eq!(reap_targets(&procs, &vec![false, true], false), vec![b.clone()]);
    assert_eq!(reap_targets(&procs, &vec![false, false], false), Vec::<ProcInfo>::new());
    // A dry run plans a kill per match.
    assert_eq!(reap_targets(&procs, &vec![false, false], true), procs);
    assert_eq!(kill_args(4242), vec!["-TERM".to_string(), "4242".to_string()]);
}

#[test]
fn tests_eexist_is_the_only_retryable_spawn_error() {
    assert!(is_already_exists(SpawnFailure::AlreadyExists));
    assert!(!is_already_exists(SpawnFailure::Other));
    assert!(!is_already_exists(SpawnFailure::Cancelled));
    assert!(spawn_retry(SpawnFailure::AlreadyExists, 0));
    assert!(!spawn_retry(SpawnFailure::AlreadyExists, 99));
    assert!(!spawn_retry(SpawnFailure::Other, 0));
}

#[test]
fn actions_eexist_is_the_only_retryable_spawn_error() {
    assert!(is_already_exists(SpawnFailure::AlreadyExists));
    assert!(!is_already_exists(SpawnFailure::Other));
    assert!(!is_already_exists(SpawnFailure::Cancelled));
}

#[test]
fn a_cancelled_switch_leaves_the_guard_armed_for_the_teardown() {
    let mut record: Option<String> = None;
    let (mut g, _) = AudioGuard::arm(
        Uuid::nil(),
        false,
        "/opt/homebrew/bin/SwitchAudioSource".into(),
        "MacBook Pro Speakers",
        &mut record,
        true,
    );
    assert!(matches!(g.saved(true), AudioAction::Switch { .. }));
    // The switch's error travels: no row, the record untouched, the guard
    // still armed for the teardown's release.
    assert_eq!(g.switch_errored(), AudioAction::Fail);
    assert_eq!(record.as_deref(), Some("MacBook Pro Speakers"));
    assert_eq!(
        g.release(),
        AudioRelease::Restore {
            previous: "MacBook Pro Speakers".to_string(),
            bin: "/opt/homebrew/bin/SwitchAudioSource".to_string()
        }
    );
}

#[test]
fn the_game_version_warn_is_run_shs_and_other_warns_keep_their_message() {
    assert_eq!(
        gate_warn_text("game.version", "doctor's text", "1.40.0"),
        "Beat Saber version '1.40.0' != 1.29.4 — the Meta gate may block startup"
    );
    assert_eq!(gate_warn_text("host.manifest", "points elsewhere", "1.40.0"), "points elsewhere");
}

#[test]
fn a_forward_names_its_port_twice_on_one_device() {
    assert_eq!(
        forward_args("S1", "tcp:9943"),
        vec!["-s", "S1", "forward", "tcp:9943", "tcp:9943"]
            .into_iter()
            .map(String::from)
            .collect::<Vec<_>>()
    );
}

#[test]
fn a_timed_out_wineserver_wait_warns_with_the_survivors_and_dies() {
    let (rows, die) = wineserver_reset_outcome(true, true, "12 wineserver ");
    assert_eq!(
        rows,
        vec![(Severity::Warn, "wineserver still alive after 5s: 12 wineserver ".to_string())]
    );
    assert_eq!(die.unwrap().message, "kill the listed wineserver(s) manually, then re-run");
    let (rows, die) = wineserver_reset_outcome(true, false, "");
    assert_eq!(rows, vec![(Severity::Success, "wineserver down".to_string())]);
    assert!(die.is_none());
    // No wineserver on the machine: the shell reaches `ok` anyway.
    let (rows, die) = wineserver_reset_outcome(false, true, "");
    assert_eq!(rows, vec![(Severity::Success, "wineserver down".to_string())]);
    assert!(die.is_none());
}

#[test]
fn reverse_tunnels_are_cleared_only_for_alvr_with_adb() {
    assert!(reverse_cleanup_due("alvr", true));
    assert!(!reverse_cleanup_due("oxrsys", true));
    assert!(!reverse_cleanup_due("alvr", false));
    assert_eq!(
        reverse_cleanup_args("S1"),
        vec!["-s", "S1", "reverse", "--remove-all"].into_iter().map(String::from).collect::<Vec<_>>()
    );
}

/// An in-memory game directory for the Goldberg stage.
struct GameFiles {
    api: Option<Vec<u8>>,
    backup: Option<Vec<u8>>,
    gbe: Vec<u8>,
    appid: Option<String>,
    flags: bool,
}

/// Run the Goldberg stage once over `f`, every copy and write succeeding.
fn run_goldberg_on(f: &mut GameFiles) -> GoldbergPhase {
    let mut g = GoldbergSetup::new("/bs".into(), false);
    let mut e = GoldbergEvent::Probed {
        api_is_file: f.api.is_some(),
        backup_is_file: f.backup.is_some(),
        backup_exists: f.backup.is_some(),
    };
    loop {
        let a = g.step(e);
        e = match a.work {
            GoldbergWork::MintBackup => {
                let was_goldberg = f.api.as_ref() == Some(&f.gbe);
                f.backup = f.api.clone();
                GoldbergEvent::BackupMinted { ok: true, was_goldberg }
            }
            GoldbergWork::RecordProvenance => GoldbergEvent::Recorded,
            GoldbergWork::CompareDll => GoldbergEvent::DllCompared(f.api.as_ref() == Some(&f.gbe)),
            GoldbergWork::InstallDll => {
                f.api = Some(f.gbe.clone());
                GoldbergEvent::Done(true)
            }
            GoldbergWork::WriteAppId => {
                f.appid = Some("620980".to_string());
                GoldbergEvent::Done(true)
            }
            GoldbergWork::WriteFlagFiles => {
                f.flags = true;
                GoldbergEvent::Done(true)
            }
            _ => return g.phase,
        };
    }
}

/// The Goldberg stage run twice: the backup is minted once from the real dll
/// and never refreshed.
#[test]
fn goldberg_twice_keeps_the_first_backup() {
    let mut f = GameFiles {
        api: Some(b"REAL-STEAM".to_vec()),
        backup: None,
        gbe: b"GOLDBERG".to_vec(),
        appid: None,
        flags: false,
    };
    assert_eq!(run_goldberg_on(&mut f), GoldbergPhase::Done);
    assert_eq!(run_goldberg_on(&mut f), GoldbergPhase::Done);
    assert_eq!(f.backup.as_deref(), Some(&b"REAL-STEAM"[..]));
    assert_eq!(f.api.as_deref(), Some(&b"GOLDBERG"[..]));
    assert_eq!(f.appid.as_deref(), Some("620980"));
    assert!(f.flags);
}
