use sabrage_core::events::Severity;
use sabrage_core::process::ProcInfo;
use sabrage_core::stages::stop::{
    audio_output_line, audio_report, audio_unreadable_warn, dashboard_reap_msg,
    foreign_helper_warn, format_survivors, helper_reap_msg, is_foreign_helper,
    no_leftover_helper_row, ports_row, ports_unreadable_warn, reap_row, stale_listeners_text,
    survivors_row, AudioReport, AUDIO_RESTORE_HINT, AUDIO_STILL_BLACKHOLE_WARN,
    BEAT_SABER_EXE_SUFFIX, LSOF_ARGS, NO_LEFTOVER_HELPER,
};
use sabrage_core::stages::STOP_WINESERVER_WAIT_SECS;
use sabrage_core::stages::stop::audio_rows;
use sabrage_core::stages::stop::foreign_helper_rows;
use sabrage_core::stages::stop::stop_section_title;

/// (label, (pid, exe) survivors, expected rendering).
type SurvivorCase<'a> = (&'a str, &'a [(u32, &'a str)], &'a str);

fn procs(input: &[(u32, &str)]) -> Vec<ProcInfo> {
    input
        .iter()
        .map(|(pid, exe)| ProcInfo {
            pid: *pid,
            start_time: 0,
            exe: exe.to_string(),
        })
        .collect()
}

#[test]
fn format_survivors_matches_the_pgrep_lf_shape() {
    let cases: &[SurvivorCase<'_>] = &[
        ("no survivors", &[], ""),
        (
            "two survivors, pgrep -lf shape",
            &[
                (111, "/repo/ext/oxrsys/build-x64/Beat Saber.exe"),
                (222, "/other/place/Beat Saber.exe"),
            ],
            "111 Beat Saber.exe 222 Beat Saber.exe ",
        ),
        (
            "path with no file name falls back to the suffix",
            &[(7, "/")],
            "7 Beat Saber.exe ",
        ),
    ];
    for (label, input, expected) in cases {
        assert_eq!(format_survivors(&procs(input)), *expected, "{label}");
    }
}

#[test]
fn audio_branch_text_is_verbatim() {
    assert_eq!(
        AUDIO_STILL_BLACKHOLE_WARN,
        "Mac audio output is still BlackHole 2ch (a run that died uncleanly could not \
             restore it)"
    );
    assert_eq!(
        AUDIO_RESTORE_HINT,
        "restore with: SwitchAudioSource -t output -s '<device>'   (list: SwitchAudioSource \
             -a -t output)"
    );
}

#[test]
fn audio_report_branches_on_the_exact_blackhole_name() {
    assert_eq!(audio_report("BlackHole 2ch"), AudioReport::StillBlackhole);
    // Whole-string comparison, not substring.
    assert_eq!(
        audio_report("BlackHole 2ch (aggregate)"),
        AudioReport::Restored("BlackHole 2ch (aggregate)".to_string())
    );
    assert_eq!(
        audio_report("MacBook Pro Speakers"),
        AudioReport::Restored("MacBook Pro Speakers".to_string())
    );
    assert_eq!(audio_report(""), AudioReport::Restored(String::new()));
}

#[test]
fn the_other_audio_rows_are_verbatim() {
    assert_eq!(
        audio_unreadable_warn(2),
        "could not read the current audio output device: SwitchAudioSource did not answer \
         within 2s (check it with: SwitchAudioSource -c -t output)"
    );
    assert_eq!(audio_output_line("Speakers"), "audio output: Speakers");
}

#[test]
fn the_survivor_row_is_ok_only_when_nothing_survived() {
    assert_eq!(
        survivors_row(&vec![]),
        (Severity::Success, "game and wineserver down".to_string())
    );
    assert_eq!(
        survivors_row(&procs(&[(9, "/x/Beat Saber.exe")])),
        (
            Severity::Warn,
            "Beat Saber processes survived: 9 Beat Saber.exe ".to_string()
        )
    );
    assert_eq!(BEAT_SABER_EXE_SUFFIX, "Beat Saber.exe");
    assert_eq!(STOP_WINESERVER_WAIT_SECS, 4);
}

#[test]
fn the_listener_list_is_sorted_unique_and_skips_the_header() {
    let lsof = "COMMAND   PID USER   FD   TYPE DEVICE SIZE/OFF NODE NAME\n\
                vrserver 812 me 10u IPv4 0x1 0t0 UDP *:9944\n\
                alvr 77 me 11u IPv4 0x2 0t0 TCP *:9943 (LISTEN)\n\
                vrserver 812 me 12u IPv4 0x3 0t0 TCP *:9943 (LISTEN)\n";
    assert_eq!(stale_listeners_text(lsof), "alvr(77) vrserver(812) ");
    assert_eq!(stale_listeners_text(""), "");
    assert_eq!(
        stale_listeners_text("COMMAND PID USER\n"),
        "",
        "a header alone lists nothing"
    );
    assert_eq!(LSOF_ARGS, ["-nP", "-iUDP:9944", "-iTCP:9943"]);
}

#[test]
fn the_port_row_branches_on_what_lsof_said() {
    assert_eq!(
        ports_row(&Some(String::new()), 3),
        (Severity::Success, "streaming ports free".to_string())
    );
    assert_eq!(
        ports_row(&Some("alvr(77) ".to_string()), 3),
        (
            Severity::Warn,
            "streaming ports still held by: alvr(77) ".to_string()
        )
    );
    assert_eq!(
        ports_row(&None, 3),
        (Severity::Warn, ports_unreadable_warn(3))
    );
    assert_eq!(
        ports_unreadable_warn(3),
        "could not read the streaming ports: lsof did not answer within 3s — check them with: \
         lsof -nP -iUDP:9944 -iTCP:9943"
    );
}

#[test]
fn the_reap_rows_say_what_happened() {
    let helper = helper_reap_msg();
    assert_eq!(
        reap_row(helper, true, &vec![]),
        (
            Severity::Info,
            "would terminate the leftover encoder helper".to_string()
        )
    );
    assert_eq!(
        reap_row(helper, false, &vec![]),
        (
            Severity::Success,
            "encoder helper killed (the runtime owns it — this one outlived its game)".to_string()
        )
    );
    assert_eq!(
        reap_row(dashboard_reap_msg(), false, &procs(&[(5, "/x/alvr_dashboard")])),
        (
            Severity::Warn,
            "ALVR dashboard still running after SIGTERM: 5 alvr_dashboard ".to_string()
        )
    );
    assert_eq!(
        dashboard_reap_msg().killed,
        "ALVR dashboard closed (left over from a run that died uncleanly)"
    );
}

#[test]
fn the_not_found_row_prints_only_when_nothing_foreign_and_no_local_match() {
    assert_eq!(no_leftover_helper_row(false, false), Some(NO_LEFTOVER_HELPER));
    assert_eq!(no_leftover_helper_row(false, true), None);
    assert_eq!(no_leftover_helper_row(true, false), None);
    assert_eq!(NO_LEFTOVER_HELPER, "no leftover encoder helper");
}

#[test]
fn a_foreign_helper_is_one_outside_this_checkout() {
    let root = "/repo";
    assert!(is_foreign_helper(
        "/other/ext/oxrsys/build-x64/runtime/oxrsys-encoder-helper",
        "/other/ext/oxrsys/build-x64/runtime/oxrsys-encoder-helper",
        root
    ));
    assert!(!is_foreign_helper(
        "/repo/ext/oxrsys/build-x64/runtime/oxrsys-encoder-helper",
        "/repo/ext/oxrsys/build-x64/runtime/oxrsys-encoder-helper",
        root
    ));
    // Component-wise: /repository is not under /repo.
    assert!(is_foreign_helper(
        "/repository/oxrsys-encoder-helper",
        "/repository/oxrsys-encoder-helper",
        root
    ));
    // A cmdline match that is not the helper binary is not a helper at all.
    assert!(!is_foreign_helper("/other/bin/zsh", "/other/bin/zsh", root));
    assert_eq!(
        foreign_helper_warn(&ProcInfo {
            pid: 31,
            start_time: 0,
            exe: "/other/oxrsys-encoder-helper".into()
        }),
        "leftover encoder helper from another checkout: 31 /other/oxrsys-encoder-helper — \
         stop it from that checkout"
    );
}

#[test]
fn the_audio_rows_follow_stop_shs_branch() {
    assert_eq!(
        audio_rows(&Some("BlackHole 2ch\n".into()), 2),
        vec![
            (Severity::Warn, AUDIO_STILL_BLACKHOLE_WARN.to_string()),
            (Severity::Info, AUDIO_RESTORE_HINT.to_string())
        ]
    );
    assert_eq!(
        audio_rows(&Some("MacBook Pro Speakers\n\n".into()), 2),
        vec![(Severity::Success, "audio output: MacBook Pro Speakers".to_string())]
    );
    assert_eq!(
        audio_rows(&None, 2),
        vec![(Severity::Warn, audio_unreadable_warn(2))]
    );
}

#[test]
fn a_foreign_helper_is_reported_whatever_the_local_reap_did() {
    let matches = procs(&[
        (10, "/other/ext/oxrsys/build-x64/runtime/oxrsys-encoder-helper"),
        (11, "/usr/bin/tail"),
        (12, "/repo/ext/oxrsys/build-x64/runtime/oxrsys-encoder-helper"),
    ]);
    let resolved: Vec<String> = matches.iter().map(|p| p.exe.clone()).collect();
    for local_matched in [false, true] {
        assert_eq!(
            foreign_helper_rows(&matches, &resolved, "/repo", local_matched),
            vec![(
                Severity::Warn,
                "leftover encoder helper from another checkout: 10 \
                 /other/ext/oxrsys/build-x64/runtime/oxrsys-encoder-helper — stop it from that \
                 checkout"
                    .to_string()
            )]
        );
    }
    // Nothing foreign: the not-found row only when the local reap found none.
    let local_only = procs(&[(12, "/repo/oxrsys-encoder-helper")]);
    let resolved: Vec<String> = local_only.iter().map(|p| p.exe.clone()).collect();
    assert_eq!(
        foreign_helper_rows(&local_only, &resolved, "/repo", false),
        vec![(Severity::Success, NO_LEFTOVER_HELPER.to_string())]
    );
    assert!(foreign_helper_rows(&local_only, &resolved, "/repo", true).is_empty());
    assert_eq!(
        foreign_helper_rows(&vec![], &vec![], "/repo", false),
        vec![(Severity::Success, NO_LEFTOVER_HELPER.to_string())]
    );
}

#[test]
fn the_stop_section_names_the_bottle() {
    assert_eq!(
        stop_section_title("Steam"),
        "stopping wineserver for bottle 'Steam' (takes the game with it)"
    );
}
