//! Contract-ordered launch gates: which slugs the launch evaluates, which
//! apply, and what each gate decides and says — run.sh's `die` strings
//! verbatim.

use vstd::prelude::*;

use crate::events::Severity;
use crate::stages::{bottle_name_or_placeholder, bottle_name_required_message,
    bottle_not_found_message, bottle_or_placeholder, spaced_names, Die};
use crate::text::{chars_eq_str, opt_view, str_chars};

verus! {

/// How one side gates a check at launch.
#[derive(Debug, Clone, Copy, PartialEq, Eq, Structural)]
pub enum Gate {
    /// A failure stops the launch.
    Block,
    /// A finding is reported and the launch continues.
    Warn,
    /// A failure is fixed, re-checked, and only then decided.
    Autofix,
    /// Not evaluated at launch at all (doctor-only).
    Ungated,
}

/// One check of the contract, as the launch sees it.
#[derive(Debug, Clone, PartialEq, Eq)]
pub struct CheckSpec {
    pub slug: String,
    pub native_gate: Gate,
    /// The contract's fix id, when the check has one.
    pub fix: Option<String>,
}

/// The slugs of every gating check, in contract order.
pub open spec fn native_preflight(checks: Seq<CheckSpec>) -> Seq<Seq<char>>
    decreases checks.len(),
{
    if checks.len() == 0 {
        Seq::empty()
    } else {
        let rest = native_preflight(checks.drop_last());
        if checks.last().native_gate != Gate::Ungated {
            rest.push(checks.last().slug@)
        } else {
            rest
        }
    }
}

/// The launch-preflight slugs, in contract order: exactly the checks whose
/// `native_gate` gates, derived from the contract's check list `checks`.
pub fn preflight_slugs(checks: &Vec<CheckSpec>) -> (out: Vec<String>)
    ensures
        out@.map_values(|s: String| s@) == native_preflight(checks@),
{
    let mut out: Vec<String> = Vec::new();
    let mut i: usize = 0;
    while i < checks.len()
        invariant
            i <= checks@.len(),
            out@.map_values(|s: String| s@) == native_preflight(checks@.take(i as int)),
        decreases checks.len() - i,
    {
        proof {
            assert(checks@.take(i + 1).drop_last() =~= checks@.take(i as int));
        }
        if checks[i].native_gate != Gate::Ungated {
            let ghost before = out@;
            out.push(checks[i].slug.clone());
            proof {
                assert(out@.map_values(|s: String| s@) =~= before.map_values(|s: String| s@).push(
                    checks@[i as int].slug@,
                ));
            }
        }
        i = i + 1;
    }
    assert(checks@.take(i as int) =~= checks@);
    out
}

/// The two autofix-gated helper slugs, in contract order.
pub const HELPER_SLUGS: [&'static str; 2] = ["build.helper-staged", "build.helper-arm64"];

pub open spec fn is_helper_slug(slug: Seq<char>) -> bool {
    slug == "build.helper-staged"@ || slug == "build.helper-arm64"@
}

/// run.sh's `case "$ENCODER_PROC"`.
#[derive(Debug, Clone, Copy, PartialEq, Eq, Structural)]
pub enum EncoderMode {
    /// `native|auto` — helper required, nothing printed.
    HelperRequired,
    /// `inproc` — helper checks skipped, one `info` row.
    Inproc,
    /// Anything else — one `warn` row, then treated exactly like `auto`.
    UnrecognizedTreatedAsAuto,
}

pub open spec fn encoder_mode_spec(encoder_process: Seq<char>) -> EncoderMode {
    if encoder_process == "native"@ || encoder_process == "auto"@ {
        EncoderMode::HelperRequired
    } else if encoder_process == "inproc"@ {
        EncoderMode::Inproc
    } else {
        EncoderMode::UnrecognizedTreatedAsAuto
    }
}

pub fn encoder_mode(encoder_process: &str) -> (m: EncoderMode)
    ensures
        m == encoder_mode_spec(encoder_process@),
{
    let e = str_chars(encoder_process);
    if chars_eq_str(&e, "native") || chars_eq_str(&e, "auto") {
        EncoderMode::HelperRequired
    } else if chars_eq_str(&e, "inproc") {
        EncoderMode::Inproc
    } else {
        EncoderMode::UnrecognizedTreatedAsAuto
    }
}

impl EncoderMode {
    /// The helper pair applies unless the runtime encodes in-process.
    pub fn needs_helper(self) -> (r: bool)
        ensures
            r == (self != EncoderMode::Inproc),
    {
        self != EncoderMode::Inproc
    }
}

/// An unrecognized `encoder_process` is treated exactly like `auto`: the
/// helper is still required.
pub proof fn lemma_unrecognized_encoder_still_needs_the_helper(e: Seq<char>)
    ensures
        encoder_mode_spec(e) != EncoderMode::Inproc <==> e != "inproc"@,
{
    reveal_strlit("inproc");
    reveal_strlit("native");
    reveal_strlit("auto");
    assert("inproc"@[0] != "native"@[0]);
    assert("inproc"@.len() != "auto"@.len());
}

pub const NOT_WIRED_REASON: &'static str = "not --wired";

pub const INPROC_REASON: &'static str = "encoder_process=inproc — the native helper is disabled";

/// Why a slug is not evaluated at all: `run.wired-adb` outside `--wired`, and
/// the helper pair under `encoder_process = "inproc"`.
pub open spec fn not_applicable_spec(wired: bool, slug: Seq<char>, mode: EncoderMode) -> Option<
    Seq<char>,
> {
    if slug == "run.wired-adb"@ && !wired {
        Some(NOT_WIRED_REASON@)
    } else if is_helper_slug(slug) && mode == EncoderMode::Inproc {
        Some(INPROC_REASON@)
    } else {
        None
    }
}

pub fn not_applicable_reason(wired: bool, slug: &str, mode: EncoderMode) -> (r: Option<&'static str>)
    ensures
        match r {
            Some(t) => not_applicable_spec(wired, slug@, mode) == Some(t@),
            None => not_applicable_spec(wired, slug@, mode) is None,
        },
{
    let s = str_chars(slug);
    if chars_eq_str(&s, "run.wired-adb") && !wired {
        Some(NOT_WIRED_REASON)
    } else if (chars_eq_str(&s, "build.helper-staged") || chars_eq_str(&s, "build.helper-arm64"))
        && !mode.needs_helper() {
        Some(INPROC_REASON)
    } else {
        None
    }
}

/// run.sh's `inproc` `info` line, verbatim.
pub const INPROC_NOTICE: &'static str =
    "encoder_process=inproc — in-process x86_64 encode (native helper disabled)";

/// run.sh line 89's `warn`.
pub fn unrecognized_encoder_warn(encoder_process: &str) -> (s: String)
    ensures
        s@ == "oxrsys-runtime.toml encoder_process='"@ + encoder_process@
            + "' unrecognized — the runtime treats unknown values as auto"@,
{
    let mut s = String::from_str("oxrsys-runtime.toml encoder_process='");
    s.append(encoder_process);
    s.append("' unrecognized — the runtime treats unknown values as auto");
    s
}

/// run.sh's `warn` for the one `warn`-gated row.
pub fn game_version_warn(version: &str) -> (s: String)
    ensures
        s@ == "Beat Saber version '"@ + version@ + "' != 1.29.4 — the Meta gate may block startup"@,
{
    let mut s = String::from_str("Beat Saber version '");
    s.append(version);
    s.append("' != 1.29.4 — the Meta gate may block startup");
    s
}

/// The line run.sh prints at its `case "$ENCODER_PROC"`, once: `info` for
/// `inproc`, `warn` for an unrecognized value, nothing for `native`/`auto`.
pub fn encoder_notice(mode: EncoderMode, encoder_process: &str) -> (r: Option<(Severity, String)>)
    ensures
        mode == EncoderMode::HelperRequired ==> r is None,
        mode == EncoderMode::Inproc ==> (r matches Some((sev, t)) && sev == Severity::Info && t@
            == INPROC_NOTICE@),
        mode == EncoderMode::UnrecognizedTreatedAsAuto ==> (r matches Some((sev, t)) && sev
            == Severity::Warn && t@ == "oxrsys-runtime.toml encoder_process='"@ + encoder_process@
            + "' unrecognized — the runtime treats unknown values as auto"@),
{
    match mode {
        EncoderMode::HelperRequired => None,
        EncoderMode::Inproc => Some((Severity::Info, String::from_str(INPROC_NOTICE))),
        EncoderMode::UnrecognizedTreatedAsAuto => Some(
            (Severity::Warn, unrecognized_encoder_warn(encoder_process)),
        ),
    }
}

/// `oxrsys-runtime.toml` as the launch reads it.
#[derive(Debug, Clone, PartialEq, Eq)]
pub struct TomlFacts {
    /// `[ -f "$TOML" ]`.
    pub present: bool,
    /// `$PROTOCOL`.
    pub protocol: String,
    /// `${ENCODER_PROC:-auto}`, already defaulted.
    pub encoder_process: String,
}

/// The value a key resolves to: the last one the runtime would accept, else
/// the raw last assignment (which the die text quotes back).
pub open spec fn resolved(accepted: Option<Seq<char>>, raw: Seq<char>) -> Seq<char> {
    match accepted {
        Some(a) => a,
        None => raw,
    }
}

/// Resolve the two facts from one read of the file: each key's last value
/// the runtime would accept, falling back to its raw last assignment, with an
/// empty `encoder_process` read as `auto` exactly like the shell's `:-auto`.
pub fn resolve_toml_facts(
    present: bool,
    accepted_protocol: Option<String>,
    raw_protocol: String,
    accepted_encoder: Option<String>,
    raw_encoder: String,
) -> (f: TomlFacts)
    ensures
        f.present == present,
        f.protocol@ == resolved(opt_view(accepted_protocol), raw_protocol@),
        f.encoder_process@ == if resolved(opt_view(accepted_encoder), raw_encoder@).len() == 0 {
            "auto"@
        } else {
            resolved(opt_view(accepted_encoder), raw_encoder@)
        },
{
    let protocol = match accepted_protocol {
        Some(p) => p,
        None => raw_protocol,
    };
    let encoder = match accepted_encoder {
        Some(e) => e,
        None => raw_encoder,
    };
    let encoder_process = if encoder.as_str().unicode_len() == 0 {
        String::from_str("auto")
    } else {
        encoder
    };
    TomlFacts { present, protocol, encoder_process }
}

/// A check's verdict.
#[derive(Debug, Clone, Copy, PartialEq, Eq, Structural)]
pub enum CheckStatus {
    Pass,
    Info,
    Warn,
    Skipped,
    NotImplemented,
    Fail,
}

/// What the `block` / `warn` gate does with one evaluated row.
#[derive(Debug, Clone, Copy, PartialEq, Eq, Structural)]
pub enum GateDecision {
    /// `dep.goldberg` with the dll present: reported, never gated; `annotate`
    /// says the row gets the tolerated-mismatch detail.
    GoldbergTolerated { annotate: bool },
    /// One of the two protocol rows: decided from the single `$PROTOCOL` read.
    Protocol,
    /// Reported, the launch continues.
    Report,
    /// Reported plus a `warn` row, the launch continues.
    ReportAndWarn,
    /// Applicable but unverifiable: fatal, never a pass.
    CannotVerify,
    /// A `block` failure: the row, then run.sh's die.
    Block,
}

pub open spec fn is_protocol_slug(slug: Seq<char>) -> bool {
    slug == "cfg.protocol.supported"@ || slug == "cfg.protocol.legacy-oxrsys"@
}

pub open spec fn gate_decision_spec(slug: Seq<char>, status: CheckStatus, gbe_dll_present: bool) -> GateDecision {
    if slug == "dep.goldberg"@ && gbe_dll_present {
        GateDecision::GoldbergTolerated { annotate: status != CheckStatus::Pass }
    } else if is_protocol_slug(slug) {
        GateDecision::Protocol
    } else {
        match status {
            CheckStatus::Pass | CheckStatus::Info => GateDecision::Report,
            CheckStatus::Warn => GateDecision::ReportAndWarn,
            CheckStatus::Skipped | CheckStatus::NotImplemented => GateDecision::CannotVerify,
            CheckStatus::Fail => GateDecision::Block,
        }
    }
}

/// The `block` / `warn` gate's decision. run.sh's goldberg gate dies only
/// when the dll is gone, so a present dll never blocks whatever doctor says.
pub fn gate_decision(slug: &str, status: CheckStatus, gbe_dll_present: bool) -> (d: GateDecision)
    ensures
        d == gate_decision_spec(slug@, status, gbe_dll_present),
{
    let s = str_chars(slug);
    if chars_eq_str(&s, "dep.goldberg") && gbe_dll_present {
        GateDecision::GoldbergTolerated { annotate: status != CheckStatus::Pass }
    } else if chars_eq_str(&s, "cfg.protocol.supported") || chars_eq_str(
        &s,
        "cfg.protocol.legacy-oxrsys",
    ) {
        GateDecision::Protocol
    } else {
        match status {
            CheckStatus::Pass | CheckStatus::Info => GateDecision::Report,
            CheckStatus::Warn => GateDecision::ReportAndWarn,
            CheckStatus::Skipped | CheckStatus::NotImplemented => GateDecision::CannotVerify,
            CheckStatus::Fail => GateDecision::Block,
        }
    }
}

/// The text of the `warn` row a `ReportAndWarn` decision adds: for
/// `game.version`, the only `warn`-gated row, run.sh's own version warning
/// over the game's version string; for any other slug, the row's own message.
pub open spec fn gate_warn_text_spec(slug: Seq<char>, message: Seq<char>, bs_version: Seq<char>) -> Seq<char> {
    if slug == "game.version"@ {
        "Beat Saber version '"@ + bs_version + "' != 1.29.4 — the Meta gate may block startup"@
    } else {
        message
    }
}

pub fn gate_warn_text(slug: &str, message: &str, bs_version: &str) -> (s: String)
    ensures
        s@ == gate_warn_text_spec(slug@, message@, bs_version@),
{
    if chars_eq_str(&str_chars(slug), "game.version") {
        game_version_warn(bs_version)
    } else {
        String::from_str(message)
    }
}

/// An applicable check that reached no verdict never lets the launch on.
pub proof fn lemma_unverifiable_never_passes(slug: Seq<char>, gbe_dll_present: bool)
    requires
        !(slug == "dep.goldberg"@ && gbe_dll_present),
        !is_protocol_slug(slug),
    ensures
        gate_decision_spec(slug, CheckStatus::Skipped, gbe_dll_present) == GateDecision::CannotVerify,
        gate_decision_spec(slug, CheckStatus::NotImplemented, gbe_dll_present)
            == GateDecision::CannotVerify,
        gate_decision_spec(slug, CheckStatus::Fail, gbe_dll_present) == GateDecision::Block,
{
}

/// The detail a tolerated goldberg row carries.
pub fn goldberg_tolerated_detail(gbe_dll: &str) -> (s: String)
    ensures
        s@ == "present at "@ + gbe_dll@
            + " — run tolerates a hash mismatch (run.sh line 54); only a missing file blocks the launch"@,
{
    let mut s = String::from_str("present at ");
    s.append(gbe_dll);
    s.append(
        " — run tolerates a hash mismatch (run.sh line 54); only a missing file blocks the launch",
    );
    s
}

/// "Applicable but unverifiable": the check's reason, then its remedy.
pub open spec fn cannot_verify_message_spec(slug: Seq<char>, reason: Seq<char>, remedy: Option<Seq<char>>) -> Seq<char> {
    let head = "cannot verify "@ + slug + ": "@ + reason;
    match remedy {
        Some(r) => head + " — "@ + r,
        None => head,
    }
}

pub fn cannot_verify_message(slug: &str, reason: &str, remedy: &Option<String>) -> (s: String)
    ensures
        s@ == cannot_verify_message_spec(slug@, reason@, opt_view(*remedy)),
{
    let mut s = String::from_str("cannot verify ");
    s.append(slug);
    s.append(": ");
    s.append(reason);
    match remedy {
        Some(r) => {
            s.append(" — ");
            s.append(r.as_str());
        },
        None => {},
    }
    s
}

// ── the protocol gate ───────────────────────────────────────────────────────

/// Whether a protocol row gets the explanation that the launch reads the file
/// the way the runtime does: doctor's `awk` verdict disagrees with an `alvr`
/// the launch will honour.
pub fn protocol_row_needs_detail(present: bool, protocol: &str, status: CheckStatus) -> (r: bool)
    ensures
        r == (present && protocol@ == "alvr"@ && (status == CheckStatus::Fail || status
            == CheckStatus::Warn)),
{
    present && chars_eq_str(&str_chars(protocol), "alvr") && (status == CheckStatus::Fail || status
        == CheckStatus::Warn)
}

/// That explanation.
pub fn protocol_row_detail(toml: &str) -> (s: String)
    ensures
        s@ == "the launch reads "@ + toml@
            + " the way the runtime does: the last value it would accept is protocol='alvr', so this row does not block the launch (doctor emulates run.sh's awk, which sees the last assignment as written)"@,
{
    let mut s = String::from_str("the launch reads ");
    s.append(toml);
    s.append(
        " the way the runtime does: the last value it would accept is protocol='alvr', so this row does not block the launch (doctor emulates run.sh's awk, which sees the last assignment as written)",
    );
    s
}

pub open spec fn toml_missing_message(toml: Seq<char>) -> Seq<char> {
    toml + " missing — ./demo.sh setup"@
}

pub open spec fn set_alvr_remedy(toml: Seq<char>) -> Seq<char> {
    "set protocol = \"alvr\" in "@ + toml
}

pub open spec fn legacy_oxrsys_message(bottle: Seq<char>) -> Seq<char> {
    "protocol=oxrsys (legacy USB path) — the demo path is alvr\n       Sabrage does not launch the legacy protocol — use ./demo.sh run --bottle "@
        + bottle
}

pub open spec fn invalid_protocol_message(protocol: Seq<char>, toml: Seq<char>) -> Seq<char> {
    "oxrsys-runtime.toml protocol='"@ + protocol
        + "' is not valid for the demo\n       set protocol = \"alvr\" in "@ + toml
        + " (or delete the file and re-run ./demo.sh setup)"@
}

/// run.sh's protocol gate, as (message, remedy) when the launch dies.
pub open spec fn protocol_gate_spec(
    slug: Seq<char>,
    present: bool,
    protocol: Seq<char>,
    toml: Seq<char>,
    bottle: Seq<char>,
) -> Option<(Seq<char>, Seq<char>)> {
    if !present {
        Some((toml_missing_message(toml), "./demo.sh setup"@))
    } else if protocol == "alvr"@ {
        None
    } else if slug == "cfg.protocol.supported"@ && protocol == "oxrsys"@ {
        None
    } else if slug == "cfg.protocol.legacy-oxrsys"@ && protocol == "oxrsys"@ {
        Some((legacy_oxrsys_message(bottle), set_alvr_remedy(toml)))
    } else if slug == "cfg.protocol.supported"@ {
        Some((invalid_protocol_message(protocol, toml), set_alvr_remedy(toml)))
    } else {
        None
    }
}

/// run.sh's protocol gate for one of the two protocol rows, decided from the
/// single `$PROTOCOL` read: a missing file dies with the setup remedy; `alvr`
/// passes both rows; `oxrsys` passes the supported-set row and is refused by
/// the legacy row; anything else dies on the supported-set row.
/// `bottle_name` is `$WINEVR_BOTTLE`, `<name>` when unset.
pub fn protocol_gate(
    slug: &str,
    present: bool,
    protocol: &str,
    toml: &str,
    bottle_name: &Option<String>,
) -> (r: Result<(), Die>)
    ensures
        match protocol_gate_spec(
            slug@,
            present,
            protocol@,
            toml@,
            bottle_or_placeholder(opt_view(*bottle_name)),
        ) {
            None => r is Ok,
            Some((m, rem)) => r matches Err(d) && d.message@ == m && opt_view(d.remedy) == Some(rem),
        },
{
    let s = str_chars(slug);
    let p = str_chars(protocol);
    if !present {
        let mut m = String::from_str(toml);
        m.append(" missing — ./demo.sh setup");
        return Err(Die { message: m, remedy: Some(String::from_str("./demo.sh setup")) });
    }
    if chars_eq_str(&p, "alvr") {
        return Ok(());
    }
    let supported = chars_eq_str(&s, "cfg.protocol.supported");
    let legacy = chars_eq_str(&s, "cfg.protocol.legacy-oxrsys");
    let oxrsys = chars_eq_str(&p, "oxrsys");
    let mut remedy = String::from_str("set protocol = \"alvr\" in ");
    remedy.append(toml);
    if supported && oxrsys {
        Ok(())
    } else if legacy && oxrsys {
        let mut m = String::from_str(
            "protocol=oxrsys (legacy USB path) — the demo path is alvr\n       Sabrage does not launch the legacy protocol — use ./demo.sh run --bottle ",
        );
        let name = bottle_name_or_placeholder(bottle_name);
        m.append(name.as_str());
        Err(Die { message: m, remedy: Some(remedy) })
    } else if supported {
        let mut m = String::from_str("oxrsys-runtime.toml protocol='");
        m.append(protocol);
        m.append("' is not valid for the demo\n       set protocol = \"alvr\" in ");
        m.append(toml);
        m.append(" (or delete the file and re-run ./demo.sh setup)");
        Err(Die { message: m, remedy: Some(remedy) })
    } else {
        Ok(())
    }
}

/// A missing toml always stops the launch, and `alvr` never does.
pub proof fn lemma_protocol_gate_edges(slug: Seq<char>, protocol: Seq<char>, toml: Seq<char>, bottle: Seq<char>)
    ensures
        protocol_gate_spec(slug, false, protocol, toml, bottle) is Some,
        protocol_gate_spec(slug, true, "alvr"@, toml, bottle) is None,
{
}

// ── die texts ────────────────────────────────────────────────────────────────

/// What the block-gate die texts interpolate, beyond the slug and the row.
pub struct DieContext {
    /// `$WINEVR_BOTTLE`.
    pub bottle_name: Option<String>,
    /// The machine's bottles, for the missing-name die.
    pub existing_bottles: Vec<String>,
    /// The prefix the named bottle would have.
    pub named_prefix: String,
    /// `$BS_DIR`.
    pub bs_dir: String,
    /// The contract's `DepotDownloader` command for `$BS_DIR`.
    pub depot_command: String,
}

pub open spec fn install_command(bottle: Seq<char>) -> Seq<char> {
    "./demo.sh install --bottle "@ + bottle
}

/// The `block`-gate die for one slug — run.sh's `die` string verbatim, with
/// its interpolations; `message`/`remedy` are the row's own words, used for
/// the slugs whose text the check already carries.
pub open spec fn block_die_spec(
    slug: Seq<char>,
    bottle: Seq<char>,
    existing: Seq<Seq<char>>,
    named_prefix: Seq<char>,
    bs_dir: Seq<char>,
    depot: Seq<char>,
    message: Seq<char>,
    remedy: Option<Seq<char>>,
) -> (Seq<char>, Option<Seq<char>>) {
    let install = install_command(bottle);
    if slug == "bottle.named"@ {
        (bottle_name_required_message(existing), None)
    } else if slug == "bottle.exists"@ {
        (bottle_not_found_message(bottle, named_prefix), None)
    } else if slug == "dep.goldberg"@ {
        ("Goldberg dll missing — ./demo.sh setup"@, Some("./demo.sh setup"@))
    } else if slug == "game.present"@ {
        (
            "Beat Saber not found at "@ + bs_dir + "\n       download 1.29.4: "@ + depot
                + "\n       (or pass --bs-dir / set WINEVR_BS_DIR)"@,
            None,
        )
    } else if slug == "overlay.dxmt-d3d11"@ || slug == "overlay.dxmt-winemetal"@ {
        ("CrossOver DXMT overlay stale (CrossOver update?) — "@ + install, Some(install))
    } else if slug == "overlay.woxr-dll"@ || slug == "overlay.woxr-so"@ {
        ("CrossOver wineopenxr overlay stale (CrossOver update?) — "@ + install, Some(install))
    } else if slug == "bottle.woxr-dll"@ {
        ("bottle wineopenxr.dll stale/missing — "@ + install, Some(install))
    } else if slug == "bottle.manifest"@ {
        ("bottle OpenXR manifest missing — "@ + install, Some(install))
    } else if slug == "bottle.registry"@ {
        ("bottle ActiveRuntime registry key missing — "@ + install, Some(install))
    } else if slug == "host.manifest"@ {
        ("host OpenXR registration missing — "@ + install, Some(install))
    } else {
        (message, remedy)
    }
}

fn with_install(head: &str, install: &String) -> (r: (String, Option<String>))
    ensures
        r.0@ == head@ + install@,
        opt_view(r.1) == Some(install@),
{
    let mut m = String::from_str(head);
    m.append(install.as_str());
    (m, Some(install.clone()))
}

/// The `block`-gate die text for one slug. `message`/`remedy` are the failing
/// row's, which `run.wine-exec`, `run.bridge-built`, `run.wired-adb` and any
/// slug without a shell sentence die with.
pub fn block_die(slug: &str, ctx: &DieContext, message: &str, remedy: &Option<String>) -> (r: (String, Option<String>))
    ensures
        (r.0@, opt_view(r.1)) == block_die_spec(
            slug@,
            bottle_or_placeholder(opt_view(ctx.bottle_name)),
            ctx.existing_bottles@.map_values(|n: String| n@),
            ctx.named_prefix@,
            ctx.bs_dir@,
            ctx.depot_command@,
            message@,
            opt_view(*remedy),
        ),
{
    let s = str_chars(slug);
    let bottle = bottle_name_or_placeholder(&ctx.bottle_name);
    let mut install = String::from_str("./demo.sh install --bottle ");
    install.append(bottle.as_str());
    if chars_eq_str(&s, "bottle.named") {
        let mut m = String::from_str(
            "CrossOver bottle name required: pass --bottle <name> or set WINEVR_BOTTLE.\n       Existing bottles: ",
        );
        let listed = spaced_names(&ctx.existing_bottles);
        m.append(listed.as_str());
        (m, None)
    } else if chars_eq_str(&s, "bottle.exists") {
        let mut m = String::from_str("bottle '");
        m.append(bottle.as_str());
        m.append("' not found at ");
        m.append(ctx.named_prefix.as_str());
        m.append(" — create it in CrossOver (win11_64) first");
        (m, None)
    } else if chars_eq_str(&s, "dep.goldberg") {
        (
            String::from_str("Goldberg dll missing — ./demo.sh setup"),
            Some(String::from_str("./demo.sh setup")),
        )
    } else if chars_eq_str(&s, "game.present") {
        let mut m = String::from_str("Beat Saber not found at ");
        m.append(ctx.bs_dir.as_str());
        m.append("\n       download 1.29.4: ");
        m.append(ctx.depot_command.as_str());
        m.append("\n       (or pass --bs-dir / set WINEVR_BS_DIR)");
        (m, None)
    } else if chars_eq_str(&s, "overlay.dxmt-d3d11") || chars_eq_str(&s, "overlay.dxmt-winemetal") {
        with_install("CrossOver DXMT overlay stale (CrossOver update?) — ", &install)
    } else if chars_eq_str(&s, "overlay.woxr-dll") || chars_eq_str(&s, "overlay.woxr-so") {
        with_install("CrossOver wineopenxr overlay stale (CrossOver update?) — ", &install)
    } else if chars_eq_str(&s, "bottle.woxr-dll") {
        with_install("bottle wineopenxr.dll stale/missing — ", &install)
    } else if chars_eq_str(&s, "bottle.manifest") {
        with_install("bottle OpenXR manifest missing — ", &install)
    } else if chars_eq_str(&s, "bottle.registry") {
        with_install("bottle ActiveRuntime registry key missing — ", &install)
    } else if chars_eq_str(&s, "host.manifest") {
        with_install("host OpenXR registration missing — ", &install)
    } else {
        let rem = match remedy {
            Some(r) => Some(r.clone()),
            None => None,
        };
        (String::from_str(message), rem)
    }
}

/// run.sh's die for "the auto-fix ran and the condition is still there":
/// the graphics-backend rewrite names the bottle's `cxbottle.conf` (`conf`,
/// empty when no bottle resolved), every other slug the staged helper.
pub open spec fn post_fix_die_spec(slug: Seq<char>, conf: Seq<char>, helper_staged: Seq<char>) -> (Seq<char>, Option<Seq<char>>) {
    if slug == "bottle.gfx-dxmt"@ {
        ("could not force graphics backend to dxmt in "@ + conf, None)
    } else {
        (
            "encoder helper restage failed validation at "@ + helper_staged
                + " — ./demo.sh build"@,
            Some("./demo.sh build"@),
        )
    }
}

pub fn post_fix_die(slug: &str, conf: &Option<String>, helper_staged: &str) -> (r: (String, Option<String>))
    ensures
        (r.0@, opt_view(r.1)) == post_fix_die_spec(
            slug@,
            match conf {
                Some(c) => c@,
                None => Seq::empty(),
            },
            helper_staged@,
        ),
{
    if chars_eq_str(&str_chars(slug), "bottle.gfx-dxmt") {
        let mut m = String::from_str("could not force graphics backend to dxmt in ");
        match conf {
            Some(c) => m.append(c.as_str()),
            None => {},
        }
        (m, None)
    } else {
        let mut m = String::from_str("encoder helper restage failed validation at ");
        m.append(helper_staged);
        m.append(" — ./demo.sh build");
        (m, Some(String::from_str("./demo.sh build")))
    }
}

/// The die when an `autofix`-gated slug names no fix this build can apply.
pub fn missing_fix_die(slug: &str) -> (d: Die)
    ensures
        d.message@ == slug@ + " is gated autofix but names no fix this build can apply"@,
        opt_view(d.remedy) == Some("./demo.sh doctor --bottle <name>"@),
{
    let mut m = String::from_str(slug);
    m.append(" is gated autofix but names no fix this build can apply");
    Die { message: m, remedy: Some(String::from_str("./demo.sh doctor --bottle <name>")) }
}

/// What the `autofix` gate does after evaluating (and possibly fixing and
/// re-checking) one row.
#[derive(Debug, Clone, Copy, PartialEq, Eq, Structural)]
pub enum AutofixVerdict {
    /// Nothing to fix: the row goes through the shared non-Fail gate.
    NoFixNeeded,
    /// A dry run planned a change, so the re-check still fails: report the
    /// plan, never "the fix failed".
    PlannedUnderDryRun,
    /// The condition is still there after the fix: the row, then the
    /// post-fix die.
    StillFailing,
    /// Fixed: report the fix, then gate the re-checked row.
    Fixed,
}

pub open spec fn autofix_verdict_spec(pre: CheckStatus, dry_run: bool, changed: bool, rechecked: CheckStatus) -> AutofixVerdict {
    if pre != CheckStatus::Fail {
        AutofixVerdict::NoFixNeeded
    } else if dry_run && changed && rechecked == CheckStatus::Fail {
        AutofixVerdict::PlannedUnderDryRun
    } else if rechecked == CheckStatus::Fail || rechecked == CheckStatus::Skipped {
        AutofixVerdict::StillFailing
    } else {
        AutofixVerdict::Fixed
    }
}

/// The `autofix` gate's decision from the pre-fix status, whether the run is
/// a dry run, whether the fix reported a change, and the re-check's status.
pub fn autofix_verdict(pre: CheckStatus, dry_run: bool, changed: bool, rechecked: CheckStatus) -> (v: AutofixVerdict)
    ensures
        v == autofix_verdict_spec(pre, dry_run, changed, rechecked),
{
    if pre != CheckStatus::Fail {
        AutofixVerdict::NoFixNeeded
    } else if dry_run && changed && rechecked == CheckStatus::Fail {
        AutofixVerdict::PlannedUnderDryRun
    } else if rechecked == CheckStatus::Fail || rechecked == CheckStatus::Skipped {
        AutofixVerdict::StillFailing
    } else {
        AutofixVerdict::Fixed
    }
}

/// A real run never reports a still-failing fix as merely planned.
pub proof fn lemma_real_runs_never_plan(pre: CheckStatus, changed: bool, rechecked: CheckStatus)
    ensures
        autofix_verdict_spec(pre, false, changed, rechecked) != AutofixVerdict::PlannedUnderDryRun,
        pre == CheckStatus::Fail && rechecked == CheckStatus::Fail ==> autofix_verdict_spec(
            pre,
            false,
            changed,
            rechecked,
        ) == AutofixVerdict::StillFailing,
{
}

/// What a `block`/`warn` decision makes of a non-Fail row of an `autofix` slug.
pub open spec fn after_fix_decision_spec(status: CheckStatus) -> GateDecision {
    match status {
        CheckStatus::Skipped | CheckStatus::NotImplemented => GateDecision::CannotVerify,
        CheckStatus::Warn => GateDecision::ReportAndWarn,
        _ => GateDecision::Report,
    }
}

pub fn after_fix_decision(status: CheckStatus) -> (d: GateDecision)
    ensures
        d == after_fix_decision_spec(status),
{
    match status {
        CheckStatus::Skipped | CheckStatus::NotImplemented => GateDecision::CannotVerify,
        CheckStatus::Warn => GateDecision::ReportAndWarn,
        _ => GateDecision::Report,
    }
}

/// What the preflight walk does with one slug, once the encoder notice has
/// been dealt with.
#[derive(Debug, Clone, Copy, PartialEq, Eq)]
pub enum PreflightAction {
    /// Reported as skipped, with this reason; nothing is evaluated.
    Skip(&'static str),
    /// Evaluated, then handed to the `autofix` path (`true`) or to the
    /// `block`/`warn` gate (`false`).
    Evaluate(bool),
}

/// Whether the walk owes the encoder notice before this slug: the first
/// helper slug it meets, and only that one.
pub open spec fn notice_due(slug: Seq<char>, notice_emitted: bool) -> bool {
    is_helper_slug(slug) && !notice_emitted
}

/// One step of the launch preflight walk. From the slug, its contract gate,
/// `--wired`, the encoder mode and whether the notice was already printed, it
/// returns whether to print the encoder notice now, the flag the next step
/// carries, and what to do with the slug. The notice comes before the
/// applicability decision: run.sh prints it at its `case`, whether or not the
/// helper checks then run.
pub fn preflight_step(slug: &str, native_gate: Gate, wired: bool, mode: EncoderMode, notice_emitted: bool) -> (r: (bool, bool, PreflightAction))
    ensures
        r.0 == notice_due(slug@, notice_emitted),
        r.1 == (notice_emitted || is_helper_slug(slug@)),
        match r.2 {
            PreflightAction::Skip(reason) => not_applicable_spec(wired, slug@, mode) == Some(reason@),
            PreflightAction::Evaluate(autofix) => not_applicable_spec(wired, slug@, mode) is None
                && autofix == (native_gate == Gate::Autofix),
        },
{
    let s = str_chars(slug);
    let helper = chars_eq_str(&s, "build.helper-staged") || chars_eq_str(&s, "build.helper-arm64");
    let notice = helper && !notice_emitted;
    let action = match not_applicable_reason(wired, slug, mode) {
        Some(reason) => PreflightAction::Skip(reason),
        None => PreflightAction::Evaluate(native_gate == Gate::Autofix),
    };
    (notice, notice_emitted || helper, action)
}

/// How many times a walk over `slugs`, starting with the flag `emitted`,
/// prints the encoder notice.
pub open spec fn notices_printed(slugs: Seq<Seq<char>>, emitted: bool) -> nat
    decreases slugs.len(),
{
    if slugs.len() == 0 {
        0
    } else {
        (if notice_due(slugs[0], emitted) { 1nat } else { 0nat }) + notices_printed(
            slugs.drop_first(),
            emitted || is_helper_slug(slugs[0]),
        )
    }
}

/// The encoder notice is printed at most once per launch: exactly once when
/// the walk meets a helper slug, never otherwise.
pub proof fn lemma_encoder_notice_once(slugs: Seq<Seq<char>>)
    ensures
        notices_printed(slugs, false) == (if exists|i: int| 0 <= i < slugs.len() && is_helper_slug(#[trigger] slugs[i]) { 1nat } else { 0nat }),
{
    lemma_notices_printed(slugs, false);
}

proof fn lemma_notices_printed(slugs: Seq<Seq<char>>, emitted: bool)
    ensures
        notices_printed(slugs, emitted) == (if !emitted && exists|i: int| 0 <= i < slugs.len() && is_helper_slug(#[trigger] slugs[i]) { 1nat } else { 0nat }),
    decreases slugs.len(),
{
    if slugs.len() > 0 {
        let rest = slugs.drop_first();
        lemma_notices_printed(rest, emitted || is_helper_slug(slugs[0]));
        if exists|i: int| 0 <= i < rest.len() && is_helper_slug(#[trigger] rest[i]) {
            let i = choose|i: int| 0 <= i < rest.len() && is_helper_slug(#[trigger] rest[i]);
            assert(slugs[i + 1] == rest[i]);
        }
        if exists|i: int| 0 <= i < slugs.len() && is_helper_slug(#[trigger] slugs[i]) {
            let i = choose|i: int| 0 <= i < slugs.len() && is_helper_slug(#[trigger] slugs[i]);
            if i > 0 {
                assert(rest[i - 1] == slugs[i]);
            }
        }
    }
}

/// The row a dry run reports for an `autofix` slug whose fix it only
/// planned: the re-check's own message, marked as planned.
pub fn autofix_planned_message(rechecked: &str) -> (s: String)
    ensures
        s@ == rechecked@ + " — auto-fix planned (dry run)"@,
{
    let mut s = String::from_str(rechecked);
    s.append(" — auto-fix planned (dry run)");
    s
}

} // verus!
