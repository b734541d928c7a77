use std::collections::BTreeSet;

use sabrage_core::events::Severity;
use sabrage_core::stages::run::preflight::autofix_planned_message;
use sabrage_core::stages::run::preflight::{
    after_fix_decision, autofix_verdict, block_die, cannot_verify_message, encoder_mode,
    encoder_notice, game_version_warn, gate_decision, goldberg_tolerated_detail,
    missing_fix_die, not_applicable_reason, post_fix_die, preflight_slugs, preflight_step,
    protocol_gate, protocol_row_detail, protocol_row_needs_detail, resolve_toml_facts,
    unrecognized_encoder_warn, AutofixVerdict, CheckSpec, CheckStatus, DieContext, EncoderMode,
    Gate, GateDecision, PreflightAction, HELPER_SLUGS, INPROC_NOTICE,
};

fn spec(slug: &str, gate: Gate) -> CheckSpec {
    CheckSpec {
        slug: slug.to_string(),
        native_gate: gate,
        fix: None,
    }
}

/// The contract's check list as the launch sees it: doctor-only rows
/// interleaved with the gated ones, in contract order.
fn contract_rows() -> Vec<CheckSpec> {
    vec![
        spec("bottle.named", Gate::Block),
        spec("bottle.exists", Gate::Block),
        spec("host.xcode", Gate::Ungated),
        spec("dep.goldberg", Gate::Block),
        spec("game.present", Gate::Block),
        spec("game.version", Gate::Warn),
        spec("cfg.protocol.supported", Gate::Block),
        spec("cfg.protocol.legacy-oxrsys", Gate::Block),
        spec("overlay.dxmt-d3d11", Gate::Block),
        spec("bottle.gfx-dxmt", Gate::Autofix),
        spec("build.helper-staged", Gate::Autofix),
        spec("build.helper-arm64", Gate::Autofix),
        spec("host.disk-space", Gate::Ungated),
        spec("run.wine-exec", Gate::Block),
        spec("run.bridge-built", Gate::Block),
        spec("run.wired-adb", Gate::Block),
    ]
}

fn gate_of(slug: &str) -> Gate {
    contract_rows()
        .into_iter()
        .find(|c| c.slug == slug)
        .map(|c| c.native_gate)
        .expect("slug is in the contract")
}

#[test]
fn the_slug_list_is_unique_gating_only_and_includes_the_run_only_slugs() {
    let slugs = preflight_slugs(&contract_rows());
    assert!(!slugs.is_empty());

    // No duplicates, and nothing ungated sneaks in.
    let unique: BTreeSet<_> = slugs.iter().collect();
    assert_eq!(unique.len(), slugs.len());
    for slug in &slugs {
        assert_ne!(gate_of(slug), Gate::Ungated, "{slug} is doctor-only");
    }

    // The run-only slugs exist only here — they have no doctor row at all.
    assert!(slugs.contains(&"run.wine-exec".to_string()));
    assert!(slugs.contains(&"run.bridge-built".to_string()));
    assert!(slugs.contains(&"run.wired-adb".to_string()));
}

#[test]
fn every_gated_slug_is_accounted_for() {
    for slug in preflight_slugs(&contract_rows()) {
        match gate_of(&slug) {
            Gate::Autofix => assert!(
                slug == "bottle.gfx-dxmt" || HELPER_SLUGS.contains(&slug.as_str()),
                "{slug} is gated autofix but has no fix"
            ),
            Gate::Warn => assert_eq!(
                slug, "game.version",
                "a second warn-gated slug needs its own run.sh text"
            ),
            Gate::Block | Gate::Ungated => {}
        }
    }
}

#[test]
fn the_slug_list_keeps_contract_order() {
    assert_eq!(
        preflight_slugs(&contract_rows()),
        vec![
            "bottle.named",
            "bottle.exists",
            "dep.goldberg",
            "game.present",
            "game.version",
            "cfg.protocol.supported",
            "cfg.protocol.legacy-oxrsys",
            "overlay.dxmt-d3d11",
            "bottle.gfx-dxmt",
            "build.helper-staged",
            "build.helper-arm64",
            "run.wine-exec",
            "run.bridge-built",
            "run.wired-adb",
        ]
    );
    assert!(preflight_slugs(&vec![]).is_empty());
}

#[test]
fn applicability_table() {
    assert_eq!(
        not_applicable_reason(false, "run.wired-adb", EncoderMode::HelperRequired),
        Some("not --wired")
    );
    assert_eq!(
        not_applicable_reason(true, "run.wired-adb", EncoderMode::HelperRequired),
        None
    );

    // inproc: both helper slugs are not applicable; everything else is.
    for slug in HELPER_SLUGS {
        assert_eq!(
            not_applicable_reason(true, slug, EncoderMode::Inproc),
            Some("encoder_process=inproc — the native helper is disabled")
        );
        assert_eq!(
            not_applicable_reason(true, slug, EncoderMode::HelperRequired),
            None
        );
        assert_eq!(
            not_applicable_reason(true, slug, EncoderMode::UnrecognizedTreatedAsAuto),
            None,
            "an unrecognized value still requires the helper"
        );
    }
    assert_eq!(
        not_applicable_reason(true, "game.present", EncoderMode::Inproc),
        None
    );
}

#[test]
fn encoder_process_defaults_to_auto_exactly_like_the_shell() {
    // Missing file: nothing was read at all.
    let facts = resolve_toml_facts(false, None, String::new(), None, String::new());
    assert!(!facts.present);
    assert_eq!(facts.protocol, "");
    assert_eq!(facts.encoder_process, "auto");

    let facts = resolve_toml_facts(true, Some("alvr".into()), "alvr".into(), None, String::new());
    assert!(facts.present);
    assert_eq!(facts.protocol, "alvr");
    assert_eq!(facts.encoder_process, "auto");

    let facts = resolve_toml_facts(
        true,
        Some("alvr".into()),
        "alvr".into(),
        Some("inproc".into()),
        "inproc".into(),
    );
    assert_eq!(facts.encoder_process, "inproc");

    // A shadowed key: the value the runtime accepts wins over the raw last one.
    let facts = resolve_toml_facts(true, Some("alvr".into()), "bogus".into(), None, "x".into());
    assert_eq!(facts.protocol, "alvr");
    assert_eq!(facts.encoder_process, "x");
}

#[test]
fn the_encoder_case_matches_run_shs() {
    assert_eq!(encoder_mode("native"), EncoderMode::HelperRequired);
    assert_eq!(encoder_mode("auto"), EncoderMode::HelperRequired);
    assert_eq!(encoder_mode("inproc"), EncoderMode::Inproc);
    assert_eq!(encoder_mode("gpu"), EncoderMode::UnrecognizedTreatedAsAuto);
    assert!(EncoderMode::UnrecognizedTreatedAsAuto.needs_helper());
    assert!(!EncoderMode::Inproc.needs_helper());

    assert_eq!(encoder_notice(EncoderMode::HelperRequired, "auto"), None);
    assert_eq!(
        encoder_notice(EncoderMode::Inproc, "inproc"),
        Some((Severity::Info, INPROC_NOTICE.to_string()))
    );
    assert_eq!(
        INPROC_NOTICE,
        "encoder_process=inproc — in-process x86_64 encode (native helper disabled)"
    );
    assert_eq!(
        encoder_notice(EncoderMode::UnrecognizedTreatedAsAuto, "gpu"),
        Some((
            Severity::Warn,
            "oxrsys-runtime.toml encoder_process='gpu' unrecognized — the runtime treats \
             unknown values as auto"
                .to_string()
        ))
    );
    assert_eq!(
        unrecognized_encoder_warn("x"),
        "oxrsys-runtime.toml encoder_process='x' unrecognized — the runtime treats unknown \
         values as auto"
    );
    assert_eq!(
        game_version_warn("1.40.0"),
        "Beat Saber version '1.40.0' != 1.29.4 — the Meta gate may block startup"
    );
}

/// Walk the contract's preflight the way the launch does, returning how many
/// times the encoder notice was printed and every action taken.
fn walk(wired: bool, mode: EncoderMode) -> (usize, Vec<(String, PreflightAction)>) {
    let mut emitted = false;
    let mut notices = 0;
    let mut actions = Vec::new();
    for slug in preflight_slugs(&contract_rows()) {
        let (notice, next, action) = preflight_step(&slug, gate_of(&slug), wired, mode, emitted);
        if notice {
            notices += 1;
        }
        emitted = next;
        actions.push((slug, action));
    }
    (notices, actions)
}

#[test]
fn the_encoder_notice_is_printed_once_before_the_helper_rows() {
    let (notices, actions) = walk(false, EncoderMode::Inproc);
    assert_eq!(notices, 1);
    let helper: Vec<_> = actions
        .iter()
        .filter(|(s, _)| HELPER_SLUGS.contains(&s.as_str()))
        .collect();
    assert_eq!(helper.len(), 2);
    for (_, a) in helper {
        assert_eq!(
            *a,
            PreflightAction::Skip("encoder_process=inproc — the native helper is disabled")
        );
    }
    let (notices, actions) = walk(true, EncoderMode::HelperRequired);
    assert_eq!(notices, 1);
    for (slug, a) in actions {
        let want = PreflightAction::Evaluate(gate_of(&slug) == Gate::Autofix);
        assert_eq!(a, want, "{slug}");
    }
    // Not --wired: only the adb row is skipped.
    let (_, actions) = walk(false, EncoderMode::HelperRequired);
    let skipped: Vec<_> = actions
        .iter()
        .filter(|(_, a)| matches!(a, PreflightAction::Skip(_)))
        .map(|(s, _)| s.as_str())
        .collect();
    assert_eq!(skipped, vec!["run.wired-adb"]);
}

#[test]
fn the_gate_follows_the_row_status_except_for_goldberg_and_the_protocol() {
    assert_eq!(
        gate_decision("game.present", CheckStatus::Pass, true),
        GateDecision::Report
    );
    assert_eq!(
        gate_decision("game.present", CheckStatus::Info, false),
        GateDecision::Report
    );
    assert_eq!(
        gate_decision("game.version", CheckStatus::Warn, false),
        GateDecision::ReportAndWarn
    );
    assert_eq!(
        gate_decision("run.wine-exec", CheckStatus::Skipped, false),
        GateDecision::CannotVerify
    );
    assert_eq!(
        gate_decision("run.wine-exec", CheckStatus::NotImplemented, false),
        GateDecision::CannotVerify
    );
    assert_eq!(
        gate_decision("run.wine-exec", CheckStatus::Fail, false),
        GateDecision::Block
    );
    // A Goldberg dll that is present but not the pinned build is tolerated.
    assert_eq!(
        gate_decision("dep.goldberg", CheckStatus::Fail, true),
        GateDecision::GoldbergTolerated { annotate: true }
    );
    assert_eq!(
        gate_decision("dep.goldberg", CheckStatus::Pass, true),
        GateDecision::GoldbergTolerated { annotate: false }
    );
    assert_eq!(
        gate_decision("dep.goldberg", CheckStatus::Fail, false),
        GateDecision::Block
    );
    assert_eq!(
        gate_decision("cfg.protocol.supported", CheckStatus::Fail, false),
        GateDecision::Protocol
    );
    assert_eq!(
        goldberg_tolerated_detail("/repo/gbe/steam_api64.dll"),
        "present at /repo/gbe/steam_api64.dll — run tolerates a hash mismatch (run.sh line \
         54); only a missing file blocks the launch"
    );
    assert_eq!(
        cannot_verify_message("run.wine-exec", "no wine", &Some("install CrossOver".into())),
        "cannot verify run.wine-exec: no wine — install CrossOver"
    );
    assert_eq!(
        cannot_verify_message("run.wine-exec", "no wine", &None),
        "cannot verify run.wine-exec: no wine"
    );
}

#[test]
fn the_protocol_rows_are_decided_from_one_read() {
    let toml = "/cfg/oxrsys-runtime.toml";
    let steam = Some("Steam".to_string());
    assert!(protocol_gate("cfg.protocol.supported", true, "alvr", toml, &steam).is_ok());
    assert!(protocol_gate("cfg.protocol.legacy-oxrsys", true, "alvr", toml, &steam).is_ok());
    assert!(protocol_gate("cfg.protocol.supported", true, "oxrsys", toml, &steam).is_ok());

    let d = protocol_gate("cfg.protocol.supported", false, "", toml, &steam).unwrap_err();
    assert_eq!(d.message, "/cfg/oxrsys-runtime.toml missing — ./demo.sh setup");
    assert_eq!(d.remedy.as_deref(), Some("./demo.sh setup"));

    let d = protocol_gate("cfg.protocol.legacy-oxrsys", true, "oxrsys", toml, &steam).unwrap_err();
    assert_eq!(
        d.message,
        "protocol=oxrsys (legacy USB path) — the demo path is alvr\n       Sabrage does not \
         launch the legacy protocol — use ./demo.sh run --bottle Steam"
    );
    assert_eq!(
        d.remedy.as_deref(),
        Some("set protocol = \"alvr\" in /cfg/oxrsys-runtime.toml")
    );

    let d = protocol_gate("cfg.protocol.supported", true, "udp", toml, &None).unwrap_err();
    assert_eq!(
        d.message,
        "oxrsys-runtime.toml protocol='udp' is not valid for the demo\n       set protocol = \
         \"alvr\" in /cfg/oxrsys-runtime.toml (or delete the file and re-run ./demo.sh setup)"
    );
    assert!(protocol_gate("cfg.protocol.legacy-oxrsys", true, "udp", toml, &None).is_ok());

    assert!(protocol_row_needs_detail(true, "alvr", CheckStatus::Fail));
    assert!(!protocol_row_needs_detail(true, "alvr", CheckStatus::Pass));
    assert!(!protocol_row_needs_detail(false, "alvr", CheckStatus::Fail));
    assert!(protocol_row_detail(toml).starts_with("the launch reads /cfg/oxrsys-runtime.toml "));
}

fn die_ctx(bottle: Option<&str>) -> DieContext {
    DieContext {
        bottle_name: bottle.map(str::to_string),
        existing_bottles: vec!["Steam".into(), "Other".into()],
        named_prefix: "/b/Steam".into(),
        bs_dir: "/games/BS".into(),
        depot_command: "depotdownloader -app 620980".into(),
    }
}

#[test]
fn block_dies_are_run_shs_strings() {
    let ctx = die_ctx(Some("Steam"));
    assert_eq!(
        block_die("bottle.named", &die_ctx(None), "m", &None),
        (
            "CrossOver bottle name required: pass --bottle <name> or set WINEVR_BOTTLE.\n       \
             Existing bottles: Steam Other "
                .to_string(),
            None
        )
    );
    assert_eq!(
        block_die("bottle.exists", &ctx, "m", &None).0,
        "bottle 'Steam' not found at /b/Steam — create it in CrossOver (win11_64) first"
    );
    assert_eq!(
        block_die("dep.goldberg", &ctx, "m", &None),
        (
            "Goldberg dll missing — ./demo.sh setup".to_string(),
            Some("./demo.sh setup".to_string())
        )
    );
    assert_eq!(
        block_die("game.present", &ctx, "m", &None).0,
        "Beat Saber not found at /games/BS\n       download 1.29.4: depotdownloader -app \
         620980\n       (or pass --bs-dir / set WINEVR_BS_DIR)"
    );
    assert_eq!(
        block_die("overlay.dxmt-d3d11", &ctx, "m", &None),
        (
            "CrossOver DXMT overlay stale (CrossOver update?) — ./demo.sh install --bottle Steam"
                .to_string(),
            Some("./demo.sh install --bottle Steam".to_string())
        )
    );
    assert_eq!(
        block_die("host.manifest", &die_ctx(None), "m", &None).0,
        "host OpenXR registration missing — ./demo.sh install --bottle <name>"
    );
    // A slug without a shell sentence dies with the row's own words.
    assert_eq!(
        block_die("run.wine-exec", &ctx, "wine not found", &Some("install CrossOver".into())),
        (
            "wine not found".to_string(),
            Some("install CrossOver".to_string())
        )
    );
}

#[test]
fn autofix_decides_from_the_recheck() {
    assert_eq!(autofix_verdict(CheckStatus::Pass, false, false, CheckStatus::Pass), AutofixVerdict::NoFixNeeded);
    assert_eq!(autofix_verdict(CheckStatus::Fail, true, true, CheckStatus::Fail), AutofixVerdict::PlannedUnderDryRun);
    assert_eq!(autofix_verdict(CheckStatus::Fail, false, true, CheckStatus::Fail), AutofixVerdict::StillFailing);
    assert_eq!(autofix_verdict(CheckStatus::Fail, false, true, CheckStatus::Skipped), AutofixVerdict::StillFailing);
    assert_eq!(autofix_verdict(CheckStatus::Fail, false, true, CheckStatus::Pass), AutofixVerdict::Fixed);
    assert_eq!(after_fix_decision(CheckStatus::Warn), GateDecision::ReportAndWarn);
    assert_eq!(after_fix_decision(CheckStatus::NotImplemented), GateDecision::CannotVerify);
    assert_eq!(after_fix_decision(CheckStatus::Pass), GateDecision::Report);

    assert_eq!(
        post_fix_die("bottle.gfx-dxmt", &Some("/b/Steam/cxbottle.conf".into()), "/h"),
        (
            "could not force graphics backend to dxmt in /b/Steam/cxbottle.conf".to_string(),
            None
        )
    );
    assert_eq!(
        post_fix_die("build.helper-staged", &None, "/r/oxrsys-encoder-helper"),
        (
            "encoder helper restage failed validation at /r/oxrsys-encoder-helper — ./demo.sh build"
                .to_string(),
            Some("./demo.sh build".to_string())
        )
    );
    let d = missing_fix_die("bottle.gfx-dxmt");
    assert_eq!(
        d.message,
        "bottle.gfx-dxmt is gated autofix but names no fix this build can apply"
    );
    assert_eq!(d.remedy.as_deref(), Some("./demo.sh doctor --bottle <name>"));
}

#[test]
fn a_planned_autofix_says_so() {
    assert_eq!(
        autofix_planned_message("graphics backend is d3dmetal"),
        "graphics backend is d3dmetal — auto-fix planned (dry run)"
    );
}
