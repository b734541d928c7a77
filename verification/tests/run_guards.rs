use sabrage_core::events::Severity;
use sabrage_core::process::ProcInfo;
use sabrage_core::stages::run::guards::{
    audio_eligibility, audio_restored_after, audio_restored_line, audio_switched_line,
    blackhole_listed, blackhole_not_present_line, blackhole_switch_failed_line,
    dashboard_eligibility, dashboard_row, output_devices, AudioEligibility, AudioGuard,
    AudioAction, AudioRelease, DashboardEligibility, DashboardGuard, DashboardRelease, AUDIO_DISABLED_LINE,
    DASHBOARD_CLOSED_LINE, DASHBOARD_DISABLED_LINE, DASHBOARD_NOT_BUILT_LINE,
    DASHBOARD_OPENING_LINE,
};
use uuid::Uuid;

#[test]
fn audio_eligibility_is_run_shs_if_elif_chain() {
    let bin = || Some("/opt/homebrew/bin/SwitchAudioSource".to_string());
    // --no-audio wins over everything, binary present or not.
    assert_eq!(
        audio_eligibility(true, "alvr", bin()),
        AudioEligibility::Disabled
    );
    assert_eq!(
        audio_eligibility(true, "oxrsys", None),
        AudioEligibility::Disabled
    );
    // Both conditions must hold for the switch to be attempted.
    assert_eq!(
        audio_eligibility(false, "alvr", bin()),
        AudioEligibility::Probe(bin().unwrap())
    );
    assert_eq!(
        audio_eligibility(false, "oxrsys", bin()),
        AudioEligibility::Skip
    );
    assert_eq!(
        audio_eligibility(false, "alvr", None),
        AudioEligibility::Skip
    );
}

#[test]
fn blackhole_is_matched_as_a_whole_line() {
    assert!(blackhole_listed("MacBook Pro Speakers\nBlackHole 2ch\n"));
    assert!(blackhole_listed("BlackHole 2ch"));
    // grep -qx: a substring or a longer name is NOT a match.
    assert!(!blackhole_listed("BlackHole 2ch (Aggregate)\n"));
    assert!(!blackhole_listed("My BlackHole 2ch\n"));
    assert!(!blackhole_listed("BlackHole 16ch\n"));
    assert!(!blackhole_listed(""));
}

#[test]
fn dashboard_eligibility_is_run_shs_if_elif_chain() {
    assert_eq!(dashboard_eligibility(true, "alvr", true), DashboardEligibility::Disabled);
    assert_eq!(dashboard_eligibility(true, "oxrsys", false), DashboardEligibility::Disabled);
    assert_eq!(dashboard_eligibility(false, "oxrsys", true), DashboardEligibility::Skip);
    assert_eq!(dashboard_eligibility(false, "alvr", true), DashboardEligibility::Spawn);
    assert_eq!(dashboard_eligibility(false, "alvr", false), DashboardEligibility::NotBuilt);
}

#[test]
fn the_guard_texts_are_run_shs_verbatim() {
    assert_eq!(
        audio_switched_line("MacBook Pro Speakers"),
        "audio: default output -> BlackHole 2ch (was: MacBook Pro Speakers)"
    );
    assert_eq!(
        audio_restored_line("MacBook Pro Speakers"),
        "audio: restored output -> MacBook Pro Speakers"
    );
    assert_eq!(
        DASHBOARD_OPENING_LINE,
        "dashboard: ALVR server dashboard opening (connects once the game is up)"
    );
    assert_eq!(DASHBOARD_CLOSED_LINE, "dashboard: closed");
}

#[test]
fn the_other_audio_and_dashboard_rows_are_verbatim() {
    assert_eq!(
        AUDIO_DISABLED_LINE,
        "audio routing disabled (--no-audio) — sound stays on the Mac"
    );
    assert_eq!(
        blackhole_not_present_line(),
        "BlackHole 2ch not present (brew install blackhole-2ch + reboot) — audio stays on the Mac"
    );
    assert_eq!(
        blackhole_switch_failed_line(),
        "could not switch output to BlackHole 2ch — audio stays on the Mac"
    );
    assert_eq!(
        dashboard_row(DashboardEligibility::Disabled),
        Some((Severity::Info, DASHBOARD_DISABLED_LINE))
    );
    assert_eq!(
        dashboard_row(DashboardEligibility::NotBuilt),
        Some((Severity::Warn, DASHBOARD_NOT_BUILT_LINE))
    );
    assert_eq!(dashboard_row(DashboardEligibility::Skip), None);
    assert_eq!(dashboard_row(DashboardEligibility::Spawn), None);
}

#[test]
fn the_device_list_is_one_name_per_line() {
    assert_eq!(
        output_devices("MacBook Pro Speakers\nBlackHole 2ch\n"),
        vec!["MacBook Pro Speakers".to_string(), "BlackHole 2ch".to_string()]
    );
}

#[test]
fn the_audio_guard_records_the_device_before_switching_and_restores_it_once() {
    let mut record: Option<String> = None;
    let (mut g, first) = AudioGuard::arm(
        Uuid::nil(),
        false,
        "/opt/homebrew/bin/SwitchAudioSource".to_string(),
        "MacBook Pro Speakers\n",
        &mut record,
        true,
    );
    // The record names the device first, and the save is asked for before
    // any switch.
    assert_eq!(record.as_deref(), Some("MacBook Pro Speakers"));
    assert_eq!(first, AudioAction::SaveRecord);
    // Not saved yet: a drop restores nothing, since nothing was switched.
    assert_eq!(g.drop_restore(), None);
    // The save succeeded: now, and only now, the switch is handed out.
    assert_eq!(
        g.saved(true),
        AudioAction::Switch {
            bin: "/opt/homebrew/bin/SwitchAudioSource".to_string(),
            device: "BlackHole 2ch".to_string()
        }
    );
    assert!(matches!(g.switched(true, &mut record), AudioAction::Switched(_)));
    // A guard dropped unreleased restores its device.
    assert!(g.drop_restore().is_some());
    assert_eq!(
        g.release(),
        AudioRelease::Restore {
            previous: "MacBook Pro Speakers".to_string(),
            bin: "/opt/homebrew/bin/SwitchAudioSource".to_string()
        }
    );
    // Released: the second release owes nothing, and the drop restores nothing.
    assert_eq!(g.release(), AudioRelease::Nothing);
    assert_eq!(g.drop_restore(), None);
}

#[test]
fn a_failed_save_aborts_before_any_switch() {
    let mut record: Option<String> = None;
    let (mut g, _) = AudioGuard::arm(Uuid::nil(), false, "/bin/sas".into(), "Speakers", &mut record, true);
    assert_eq!(g.saved(false), AudioAction::Abort);
    assert_eq!(g.drop_restore(), None);
    assert_eq!(g.release(), AudioRelease::Nothing);
}

#[test]
fn an_unfinished_restore_outranks_the_current_reading() {
    // The last session never restored its device: the Mac now reads
    // BlackHole, and the carried device is the one to put back.
    let mut record = Some("Yifei\u{2019}s AirPods Pro".to_string());
    let (mut g, _) = AudioGuard::arm(
        Uuid::nil(),
        false,
        "/bin/sas".to_string(),
        "BlackHole 2ch",
        &mut record,
        false,
    );
    assert_eq!(record.as_deref(), Some("Yifei\u{2019}s AirPods Pro"));
    assert!(matches!(g.saved(true), AudioAction::Switch { .. }));
    // A failed switch never forgets a carried device's record.
    assert!(matches!(
        g.switched(false, &mut record),
        AudioAction::SwitchFailed { save: false, .. }
    ));
    assert_eq!(record.as_deref(), Some("Yifei\u{2019}s AirPods Pro"));

    // Not carried: a failed switch clears the record and asks for a save.
    let mut record = None;
    let (mut g, _) = AudioGuard::arm(Uuid::nil(), false, "/bin/sas".into(), "Speakers", &mut record, true);
    g.saved(true);
    assert_eq!(
        g.switched(false, &mut record),
        AudioAction::SwitchFailed {
            warn: blackhole_switch_failed_line(),
            save: true
        }
    );
    assert_eq!(record, None);
}

#[test]
fn a_disarmed_or_dry_run_guard_restores_nothing_on_drop() {
    let mut record = None;
    let (mut g, _) = AudioGuard::arm(Uuid::nil(), false, "/bin/sas".into(), "Speakers", &mut record, true);
    g.saved(true);
    g.disarm();
    assert_eq!(g.drop_restore(), None);

    let mut record = None;
    let (mut g, _) = AudioGuard::arm(Uuid::nil(), true, "/bin/sas".into(), "Speakers", &mut record, true);
    g.saved(true);
    assert_eq!(g.drop_restore(), None);

    let inert = AudioGuard::inert(Uuid::nil(), false);
    assert_eq!(inert.drop_restore(), None);
}

#[test]
fn the_restored_flag_follows_what_the_release_owed() {
    let restore = AudioRelease::Restore {
        previous: "Speakers".into(),
        bin: "/bin/sas".into(),
    };
    assert_eq!(audio_restored_after(&AudioRelease::Nothing, false), None);
    assert_eq!(audio_restored_after(&restore, true), Some(true));
    assert_eq!(audio_restored_after(&restore, false), Some(false));
    assert_eq!(audio_restored_after(&AudioRelease::NoSwitcher, false), Some(true));
}

#[test]
fn the_dashboard_guard_closes_its_own_process_once() {
    let who = ProcInfo {
        pid: 4242,
        start_time: 1786300214,
        exe: "/repo/ext/ALVR/target/release/alvr_dashboard".to_string(),
    };
    let mut record: Option<ProcInfo> = None;
    let mut g = DashboardGuard::inert(Uuid::nil(), false);
    assert_eq!(g.drop_target(), None);
    g.spawned(who.clone(), &mut record);
    assert_eq!(record, Some(who.clone()));
    assert_eq!(g.drop_target(), Some(who.clone()));
    assert_eq!(g.held(), Some(who.clone()));
    assert_eq!(g.release_checked(true), DashboardRelease::Kill(4242));
    assert_eq!(g.release_checked(true), DashboardRelease::Nothing);
    assert_eq!(g.drop_target(), None);

    let mut record = None;
    let mut g = DashboardGuard::inert(Uuid::nil(), false);
    g.spawned(
        ProcInfo {
            pid: 1,
            start_time: 2,
            exe: "/d".into(),
        },
        &mut record,
    );
    g.disarm();
    assert_eq!(g.drop_target(), None);
}

#[test]
fn release_never_signals_an_identity_that_no_longer_matches() {
    let mut record = None;
    let mut g = DashboardGuard::inert(Uuid::nil(), false);
    g.spawned(
        ProcInfo {
            pid: 77,
            start_time: 0,
            exe: "/d".into(),
        },
        &mut record,
    );
    assert_eq!(g.release_checked(false), DashboardRelease::Forget);
    assert_eq!(g.drop_target(), None);
}
