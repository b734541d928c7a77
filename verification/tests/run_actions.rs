use sabrage_core::events::{step, Severity, Stage, StageEvent};
use sabrage_core::process::ProcInfo;
use sabrage_core::stages::run::actions::{
    adb_reverse_cleared_line, backup_action, backup_is_goldberg_warn, backup_refusal,
    banner_events, first_device_serial, forget_removed_forwards, format_survivors,
    goldberg_installed_line, next_log_attempt, orig_steam_path, spawn_retry_allowed,
    steam_api_missing_die, steam_api_path, stream_forward_specs, wine_env,
    wineserver_still_alive_warn, wired_entry, wired_forward_failed_die, wired_forwards_up_line,
    BackupAction, ForwardOutcome, WiredAction, WiredEntry, WiredFailure, WiredForward,
    WiredSetup, BANNER_TITLE, GOLDBERG_FLAG_FILES, LAUNCH_ACTION_IDS, LOG_NAME_ATTEMPTS,
    WIRED_NEEDS_ADB_DIE, WIRED_NO_QUEST_DIE,
};
use uuid::Uuid;
use sabrage_core::stages::run::actions::wine_command;
use sabrage_core::stages::run::actions::{relaunch_log_line, wineserver_section_title, WINESERVER_DOWN};

/// The contract's streaming ports, in contract order.
const STREAM_PORTS: [u16; 2] = [9943, 9944];

fn texts(evs: &[StageEvent]) -> Vec<String> {
    evs.iter()
        .map(|e| match e {
            StageEvent::Text { text, .. } => text.clone(),
            StageEvent::Section { title, .. } => format!("-- {title}"),
            StageEvent::Line { severity, text, .. } => {
                let sev = match severity {
                    Severity::Info => "info",
                    Severity::Success => "ok",
                    Severity::Warn => "warn",
                };
                format!("[{sev}] {text}")
            }
        })
        .collect()
}

fn proc(pid: u32, exe: &str) -> ProcInfo {
    ProcInfo {
        pid,
        start_time: 1,
        exe: exe.to_string(),
    }
}

#[test]
fn the_action_ids_match_the_contract_in_order() {
    let from_contract = vec![
        "adb-forward-hygiene",
        "wineserver-reset",
        "goldberg-stage",
        "audio-route",
        "dashboard",
        "adb-reverse-cleanup",
        "launch-wine",
    ];
    assert_eq!(LAUNCH_ACTION_IDS.to_vec(), from_contract);
    // The two guarded ones are in the list but implemented in `guards`.
    assert!(LAUNCH_ACTION_IDS.contains(&"audio-route"));
    assert!(LAUNCH_ACTION_IDS.contains(&"dashboard"));
    // Launch is always last.
    assert_eq!(LAUNCH_ACTION_IDS[6], "launch-wine");
}

#[test]
fn actions_one_step_id_per_action_plus_the_three_run_only_phases() {
    assert_eq!(
        Stage::Run.steps().len(),
        LAUNCH_ACTION_IDS.len() + 3,
        "run's step list and the contract's action list must stay aligned"
    );
}

#[test]
fn actions_first_device_serial_matches_the_awk_program() {
    // NR>1 skips the header; only an exact `device` state counts.
    assert_eq!(
        first_device_serial("List of devices attached\n1WMHH0X\tdevice\n"),
        Some("1WMHH0X".to_string())
    );
    assert_eq!(
        first_device_serial("List of devices attached\nabc\tunauthorized\ndef\tdevice\n"),
        Some("def".to_string())
    );
    assert_eq!(first_device_serial("List of devices attached\n"), None);
    assert_eq!(first_device_serial(""), None);
    assert_eq!(first_device_serial("List of devices attached\n\n\n"), None);
    assert_eq!(
        first_device_serial("List of devices attached\nabc\toffline\n"),
        None
    );
}

#[test]
fn the_wired_ports_come_from_the_contract() {
    assert_eq!(
        stream_forward_specs(&STREAM_PORTS.to_vec()),
        vec!["tcp:9943".to_string(), "tcp:9944".to_string()]
    );
}

#[test]
fn wine_env_reproduces_run_shs_exports_including_caller_precedence() {
    let rt = "/repo/ext/oxrsys/build-x64/runtime/oxrsys-runtime.json";
    let quiet = wine_env(false, None, 620980, rt);
    assert_eq!(
        quiet,
        vec![
            (
                "XR_RUNTIME_JSON".to_string(),
                "/repo/ext/oxrsys/build-x64/runtime/oxrsys-runtime.json".to_string()
            ),
            ("CX_GRAPHICS_BACKEND".to_string(), "dxmt".to_string()),
            ("WINEDEBUG".to_string(), "-all".to_string()),
            ("SteamAppId".to_string(), "620980".to_string()),
            ("SteamGameId".to_string(), "620980".to_string()),
        ]
    );

    let verbose = wine_env(true, None, 620980, rt);
    assert_eq!(verbose[2].1, "fixme-all,+openxr");

    // The caller's preset wins in BOTH branches.
    assert_eq!(wine_env(false, Some("+d3d11"), 1, rt)[2].1, "+d3d11");
    assert_eq!(wine_env(true, Some("+d3d11"), 1, rt)[2].1, "+d3d11");
    // `${WINEDEBUG:-…}` treats empty exactly like unset.
    assert_eq!(wine_env(false, Some(""), 1, rt)[2].1, "-all");
    assert_eq!(wine_env(true, Some(""), 1, rt)[2].1, "fixme-all,+openxr");
}

#[test]
fn the_banner_is_run_shs_nine_lines_in_order() {
    let evs = banner_events(
        Uuid::nil(),
        "Steam",
        "Z:\\games\\Beat Saber.exe",
        "/repo/logs/beatsaber-20260829-101112.log",
    );
    assert_eq!(
        texts(&evs),
        vec![
            "",
            "-- launching Beat Saber through the bridge",
            "   put the headset ON and open the ALVR client; first frame can take ~30s.",
            "   pause in-game = X/A button or the Quest system button",
            "   (the left-menu-button pause is a Beat Saber/Unity limitation on every OpenXR runtime)",
            "   stop: Ctrl-C here, or ./demo.sh stop --bottle Steam from another shell",
            "   exe: Z:\\games\\Beat Saber.exe",
            "   log: /repo/logs/beatsaber-20260829-101112.log",
            "",
        ]
    );
    // Only the banner headline is a Section; everything else is verbatim Text.
    assert_eq!(
        evs.iter()
            .filter(|e| matches!(e, StageEvent::Section { .. }))
            .count(),
        1
    );
    for ev in &evs {
        if matches!(ev, StageEvent::Text { .. }) {
            assert_eq!(ev.step(), Some(step::RUN_LAUNCH));
        }
    }
    assert_eq!(BANNER_TITLE, "launching Beat Saber through the bridge");
}

#[test]
fn orig_steam_suffixes_the_whole_name() {
    assert_eq!(
        orig_steam_path("/g/steam_api64.dll"),
        "/g/steam_api64.dll.orig-steam"
    );
}

#[test]
fn actions_survivors_render_as_pid_basename_pairs_with_a_trailing_space() {
    let procs = vec![proc(12, "/x/bin/wineserver"), proc(34, "")];
    assert_eq!(
        format_survivors(&procs, "wineserver"),
        "12 wineserver 34 wineserver "
    );
    assert_eq!(format_survivors(&vec![], "wineserver"), "");
}

#[test]
fn the_guarded_actions_are_listed_and_launch_is_last() {
    assert!(LAUNCH_ACTION_IDS.contains(&"audio-route"));
    assert!(LAUNCH_ACTION_IDS.contains(&"dashboard"));
    assert_eq!(LAUNCH_ACTION_IDS[6], "launch-wine");
}

#[test]
fn tests_one_step_id_per_action_plus_the_three_run_only_phases() {
    assert_eq!(
        Stage::Run.steps().len(),
        LAUNCH_ACTION_IDS.len() + 3,
        "run's step list and the contract's action list must stay aligned"
    );
}

#[test]
fn tests_first_device_serial_matches_the_awk_program() {
    assert_eq!(
        first_device_serial("List of devices attached\n1WMHH0X\tdevice\n"),
        Some("1WMHH0X".to_string())
    );
    assert_eq!(
        first_device_serial("List of devices attached\nabc\tunauthorized\ndef\tdevice\n"),
        Some("def".to_string())
    );
    assert_eq!(first_device_serial("List of devices attached\n"), None);
    assert_eq!(first_device_serial(""), None);
    assert_eq!(first_device_serial("List of devices attached\n\n\n"), None);
    assert_eq!(
        first_device_serial("List of devices attached\nabc\toffline\n"),
        None
    );
}

#[test]
fn the_banner_is_one_section_with_every_text_row_on_the_launch_step() {
    let evs = banner_events(
        Uuid::nil(),
        "Steam",
        "Z:\\games\\Beat Saber.exe",
        "/repo/logs/beatsaber-20260829-101112.log",
    );
    assert_eq!(
        evs.iter()
            .filter(|e| matches!(e, StageEvent::Section { .. }))
            .count(),
        1
    );
    for ev in &evs {
        if matches!(ev, StageEvent::Text { .. }) {
            assert_eq!(ev.step(), Some(step::RUN_LAUNCH));
        }
    }
}

#[test]
fn tests_survivors_render_as_pid_basename_pairs_with_a_trailing_space() {
    let procs = vec![proc(12, "/x/bin/wineserver"), proc(34, "")];
    assert_eq!(
        format_survivors(&procs, "wineserver"),
        "12 wineserver 34 wineserver "
    );
    assert_eq!(format_survivors(&vec![], "wineserver"), "");
}

// ── the --wired forward setup ───────────────────────────────────────────────

#[test]
fn the_forward_hygiene_entry_follows_run_shs_branches() {
    assert_eq!(wired_entry(false, true), WiredEntry::ClearForwards);
    assert_eq!(wired_entry(false, false), WiredEntry::Nothing);
    assert_eq!(wired_entry(true, false), WiredEntry::NeedsAdb);
    assert_eq!(wired_entry(true, true), WiredEntry::ProbeDevice);
    assert_eq!(
        WIRED_NEEDS_ADB_DIE,
        "--wired needs adb (Android platform-tools) on PATH or under ~/Library/Android/sdk"
    );
    assert_eq!(
        WIRED_NO_QUEST_DIE,
        "--wired: no Quest over adb — connect USB and check 'adb devices'"
    );
}

#[test]
fn wired_plans_both_forwards_each_after_its_saved_record() {
    let ports = STREAM_PORTS.to_vec();
    let (mut setup, first) = WiredSetup::start("1WMHH0X".to_string(), &ports);
    assert_eq!(
        first,
        WiredAction::Record(WiredForward {
            serial: "1WMHH0X".into(),
            port: 9943
        })
    );
    assert_eq!(setup.saved(true), WiredAction::Forward("tcp:9943".into()));
    assert_eq!(
        setup.forwarded(ForwardOutcome::Success),
        WiredAction::Record(WiredForward {
            serial: "1WMHH0X".into(),
            port: 9944
        })
    );
    assert_eq!(setup.saved(true), WiredAction::Forward("tcp:9944".into()));
    assert_eq!(
        setup.forwarded(ForwardOutcome::Success),
        WiredAction::Up(
            "wired mode: adb forward tcp:9943/tcp:9944 up on 1WMHH0X \
             (a later non-wired run clears these two)"
                .to_string()
        )
    );
}

#[test]
fn a_failed_forward_rolls_back_and_dies_with_run_shs_text() {
    let ports = STREAM_PORTS.to_vec();
    let (mut setup, _) = WiredSetup::start("1WMHH0X".to_string(), &ports);
    setup.saved(true);
    setup.forwarded(ForwardOutcome::Success);
    setup.saved(true);
    assert_eq!(
        setup.forwarded(ForwardOutcome::ExitFailure),
        WiredAction::RollBack(WiredFailure::Die(
            "adb forward tcp:9944 tcp:9944 failed on 1WMHH0X — check the USB connection \
             (adb devices)"
                .to_string()
        ))
    );

    let (mut setup, _) = WiredSetup::start("S".to_string(), &ports);
    setup.saved(true);
    assert_eq!(
        setup.forwarded(ForwardOutcome::SpawnError),
        WiredAction::RollBack(WiredFailure::DieWithCause(wired_forward_failed_die(
            "tcp:9943", "S"
        )))
    );
}

#[test]
fn a_cancellation_or_a_failed_save_still_rolls_back() {
    let ports = STREAM_PORTS.to_vec();
    let (mut setup, _) = WiredSetup::start("S".to_string(), &ports);
    setup.saved(true);
    assert_eq!(
        setup.forwarded(ForwardOutcome::Cancelled),
        WiredAction::RollBack(WiredFailure::Cancelled)
    );

    // A save failing between the two ports: the first forward is up, and
    // the rollback takes it down.
    let (mut setup, _) = WiredSetup::start("S".to_string(), &ports);
    setup.saved(true);
    setup.forwarded(ForwardOutcome::Success);
    assert_eq!(
        setup.saved(false),
        WiredAction::RollBack(WiredFailure::SaveFailed)
    );
}

#[test]
fn a_rollback_keeps_forwards_whose_removal_failed() {
    let mut record = vec![
        WiredForward {
            serial: "S".into(),
            port: 9943,
        },
        WiredForward {
            serial: "S".into(),
            port: 9944,
        },
        WiredForward {
            serial: "OTHER".into(),
            port: 9943,
        },
    ];
    forget_removed_forwards(&mut record, "S", &vec![9943]);
    assert_eq!(
        record,
        vec![
            WiredForward {
                serial: "S".into(),
                port: 9944
            },
            WiredForward {
                serial: "OTHER".into(),
                port: 9943
            },
        ]
    );
    // Nothing removed: the record stays whole.
    let mut record = vec![WiredForward {
        serial: "S".into(),
        port: 9943,
    }];
    forget_removed_forwards(&mut record, "S", &vec![]);
    assert_eq!(record.len(), 1);
}

#[test]
fn the_up_line_joins_the_specs_with_a_slash() {
    assert_eq!(
        wired_forwards_up_line(&vec!["tcp:1".to_string(), "tcp:2".to_string()], "X"),
        "wired mode: adb forward tcp:1/tcp:2 up on X (a later non-wired run clears these two)"
    );
}

// ── wineserver reset, goldberg, reverse, log name ──────────────────────────

#[test]
fn the_wineserver_warn_names_the_five_second_budget() {
    assert_eq!(
        wineserver_still_alive_warn("12 wineserver "),
        "wineserver still alive after 5s: 12 wineserver "
    );
}

#[test]
fn goldberg_texts_and_paths_are_run_shs() {
    assert_eq!(
        steam_api_path("/bs", true),
        "/bs/Beat Saber_Data/Plugins/x86_64/steam_api64.dll"
    );
    assert_eq!(steam_api_path("/bs/", false), "/bs/steam_api64.dll");
    assert_eq!(
        steam_api_missing_die("/bs"),
        "steam_api64.dll not found under /bs — is this a complete Beat Saber install?"
    );
    assert_eq!(
        goldberg_installed_line("/bs/steam_api64.dll"),
        "installed goldberg -> /bs/steam_api64.dll"
    );
    assert_eq!(
        GOLDBERG_FLAG_FILES,
        ["offline.txt", "disable_networking.txt", "disable_overlay.txt"]
    );
    let (msg, remedy) = backup_refusal("/g/steam_api64.dll.orig-steam");
    assert_eq!(
        msg,
        "/g/steam_api64.dll.orig-steam is not a regular file — it is the reserved name for \
         the original steam_api64.dll, and Sabrage will not install Goldberg over the live dll \
         without a usable backup"
    );
    assert_eq!(remedy, "move or delete /g/steam_api64.dll.orig-steam");
    assert_eq!(
        backup_is_goldberg_warn("/g/b"),
        "steam_api64.dll was already the Goldberg build, so /g/b is a copy of Goldberg — the \
         real Steam dll was never seen here and cannot be restored"
    );
}

#[test]
fn the_backup_is_made_once_and_never_over_a_conflict() {
    assert_eq!(backup_action(true, true), BackupAction::Keep);
    assert_eq!(backup_action(false, true), BackupAction::Refuse);
    assert_eq!(backup_action(false, false), BackupAction::Mint);
}

#[test]
fn the_reverse_cleanup_line_names_the_quest() {
    assert_eq!(
        adb_reverse_cleared_line("1WMHH0X"),
        "Quest 1WMHH0X: cleared adb reverse tunnels (ALVR manages its own)"
    );
}

#[test]
fn the_log_name_search_stops_at_a_free_name_or_the_budget() {
    assert_eq!(next_log_attempt(0, false), None);
    assert_eq!(next_log_attempt(0, true), Some(1));
    assert_eq!(next_log_attempt(LOG_NAME_ATTEMPTS - 1, true), None);
    assert!(spawn_retry_allowed(0));
    assert!(!spawn_retry_allowed(LOG_NAME_ATTEMPTS - 1));
}

#[test]
fn the_launch_argv_is_run_shs() {
    let (program, args) = wine_command(
        &Some("/Applications/CrossOver.app/x/bin/wine".into()),
        "Steam",
        "C:\\Program Files (x86)\\Steam\\steamapps\\common\\BS\\Beat Saber.exe",
    );
    assert_eq!(program, "/Applications/CrossOver.app/x/bin/wine");
    assert_eq!(
        args,
        vec![
            "--bottle",
            "Steam",
            "--no-update",
            "--cx-app",
            "C:\\Program Files (x86)\\Steam\\steamapps\\common\\BS\\Beat Saber.exe"
        ]
    );
    // No CrossOver: the bare name stands in, as the shell's empty "$WINE" does.
    assert_eq!(wine_command(&None, "Steam", "x").0, "wine");
}

#[test]
fn the_wineserver_and_relaunch_rows_are_verbatim() {
    assert_eq!(
        wineserver_section_title("Steam"),
        "resetting wineserver for bottle 'Steam'"
    );
    assert_eq!(WINESERVER_DOWN, "wineserver down");
    assert_eq!(
        relaunch_log_line("/repo/logs/beatsaber-20260829-101112-1.log"),
        "   log: /repo/logs/beatsaber-20260829-101112-1.log"
    );
}
