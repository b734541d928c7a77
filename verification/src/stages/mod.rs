//! Stage orchestration policy: what a stage invocation amounts to, which
//! stages a live session or a contract skew refuses, and the shell's
//! `require_bottle` die text. The operation lock and the dispatcher that
//! runs a stage around these decisions live with the process that owns them.

use vstd::prelude::*;

use crate::events::{Severity, Stage, stage_verb};
use crate::stages::build::{DASHBOARD_BUILT, HELPER_BUILT, OXRSYS_BUILT, WINEOPENXR_BUILT};
use crate::stages::install::{backed_up_row_spec, install_row_spec, registered_rows_spec};
use crate::stages::setup::{
    config_written_row_spec, DXMT_WOULD_EXTRACT_INFO, PATCHSET_WOULD_CHECKOUT_INFO,
    SUBMODULES_WOULD_INIT_INFO,
};
use crate::text::opt_view;

pub mod build;
pub mod install;
pub mod run;
pub mod setup;
pub mod stop;

verus! {

/// `run`'s wineserver-reset budget in seconds: **5 s, fatal on timeout**.
///
/// Deliberately distinct from [`STOP_WINESERVER_WAIT_SECS`]; never unify them.
pub const RUN_WINESERVER_WAIT_SECS: u64 = 5;

/// `stop`'s wineserver-wait budget in seconds: **4 s, never fatal**.
pub const STOP_WINESERVER_WAIT_SECS: u64 = 4;

/// The row a stage prints when it has to queue behind another operation.
pub const WAITING_FOR_OPERATION: &'static str = "waiting for another Sabrage operation to finish";

/// The cross-process operation lock's file name, under Sabrage's own support
/// directory.
pub const OPERATION_LOCK_FILE_NAME: &'static str = "operation.lock";

/// The stage-relevant slice of the `WINEVR_*` environment, plus `dry_run`.
#[derive(Debug, Clone, PartialEq, Eq)]
pub struct StageOptions {
    /// `WINEVR_BOTTLE` / `--bottle`.
    pub bottle_name: Option<String>,
    /// `WINEVR_BS_DIR` / `--bs-dir`, as a path string.
    pub bs_dir_override: Option<String>,
    /// Plan, do not mutate.
    pub dry_run: bool,
    /// `WINEVR_VERBOSE` / `--verbose`.
    pub verbose: bool,
    /// `WINEVR_NO_AUDIO` / `--no-audio`: leave the Mac's audio output alone.
    pub no_audio: bool,
    /// `WINEVR_NO_DASHBOARD` / `--no-dashboard`: do not launch `alvr_dashboard`.
    pub no_dashboard: bool,
    /// `WINEVR_WIRED` / `--wired`: USB streaming over adb forwards.
    pub wired: bool,
}

impl Default for StageOptions {
    /// No bottle, no override, every flag off.
    fn default() -> (o: StageOptions)
        ensures
            o.bottle_name is None,
            o.bs_dir_override is None,
            !o.dry_run && !o.verbose && !o.no_audio && !o.no_dashboard && !o.wired,
    {
        StageOptions {
            bottle_name: None,
            bs_dir_override: None,
            dry_run: false,
            verbose: false,
            no_audio: false,
            no_dashboard: false,
            wired: false,
        }
    }
}

/// A `WINEVR_*` value as demo.sh reads it: set, and not empty.
pub open spec fn env_set(v: Option<Seq<char>>) -> bool {
    v matches Some(s) && s.len() > 0
}

/// An optional string that is `None` unless it is set and non-empty.
pub open spec fn non_empty(v: Option<Seq<char>>) -> Option<Seq<char>> {
    if env_set(v) {
        v
    } else {
        None
    }
}

fn is_set(v: &Option<String>) -> (r: bool)
    ensures
        r == env_set(opt_view(*v)),
{
    match v {
        Some(s) => s.as_str().unicode_len() > 0,
        None => false,
    }
}

impl StageOptions {
    /// The options from the values of `WINEVR_BOTTLE`, `WINEVR_BS_DIR`,
    /// `WINEVR_VERBOSE`, `WINEVR_NO_AUDIO`, `WINEVR_NO_DASHBOARD` and
    /// `WINEVR_WIRED`, exactly as demo.sh reads them: an empty value is
    /// unset, and any non-empty one turns a flag on. `dry_run` has no shell
    /// counterpart and stays off.
    pub fn from_env_values(
        bottle: Option<String>,
        bs_dir: Option<String>,
        verbose: Option<String>,
        no_audio: Option<String>,
        no_dashboard: Option<String>,
        wired: Option<String>,
    ) -> (o: StageOptions)
        ensures
            opt_view(o.bottle_name) == non_empty(opt_view(bottle)),
            opt_view(o.bs_dir_override) == non_empty(opt_view(bs_dir)),
            !o.dry_run,
            o.verbose == env_set(opt_view(verbose)),
            o.no_audio == env_set(opt_view(no_audio)),
            o.no_dashboard == env_set(opt_view(no_dashboard)),
            o.wired == env_set(opt_view(wired)),
    {
        let bottle_set = is_set(&bottle);
        let bs_dir_set = is_set(&bs_dir);
        StageOptions {
            bottle_name: if bottle_set { bottle } else { None },
            bs_dir_override: if bs_dir_set { bs_dir } else { None },
            dry_run: false,
            verbose: is_set(&verbose),
            no_audio: is_set(&no_audio),
            no_dashboard: is_set(&no_dashboard),
            wired: is_set(&wired),
        }
    }
}

/// A `die`: the message the shell prints, and the remedy a front end offers.
#[derive(Debug, Clone, PartialEq, Eq)]
pub struct Die {
    pub message: String,
    pub remedy: Option<String>,
}

/// What a stage invocation amounted to.
#[derive(Debug, Clone, Copy, PartialEq, Eq, Structural)]
pub struct StageOutcome {
    pub stage: Stage,
    pub ok: bool,
    /// What `./demo.sh <stage>` would have exited with.
    pub exit_code_equiv: i32,
}

impl StageOutcome {
    /// A stage that finished cleanly.
    pub fn success(stage: Stage) -> (o: StageOutcome)
        ensures
            o == (StageOutcome { stage, ok: true, exit_code_equiv: 0 }),
    {
        StageOutcome { stage, ok: true, exit_code_equiv: 0 }
    }

    /// The outcome carried by the finish event of a failed stage.
    pub fn failed(stage: Stage, exit_code_equiv: i32) -> (o: StageOutcome)
        ensures
            o == (StageOutcome { stage, ok: false, exit_code_equiv }),
    {
        StageOutcome { stage, ok: false, exit_code_equiv }
    }

    /// The outcome of a stage that ran to completion with an exit code:
    /// `ok == (code == 0)`.
    pub fn from_code(stage: Stage, exit_code_equiv: i32) -> (o: StageOutcome)
        ensures
            o == (StageOutcome { stage, ok: exit_code_equiv == 0, exit_code_equiv }),
    {
        StageOutcome { stage, ok: exit_code_equiv == 0, exit_code_equiv }
    }
}

/// The outcome a finished stage reports: `Ok(code)` is a stage that ran to
/// completion with that code, `Err(code)` one that failed with that exit code.
pub open spec fn finish_outcome_spec(stage: Stage, result: Result<i32, i32>) -> StageOutcome {
    match result {
        Ok(code) => StageOutcome { stage, ok: code == 0, exit_code_equiv: code },
        Err(code) => StageOutcome { stage, ok: false, exit_code_equiv: code },
    }
}

/// Project a stage's result onto the outcome its finish event carries — the
/// single place the bracket closes.
pub fn finish_outcome(stage: Stage, result: &Result<i32, i32>) -> (o: StageOutcome)
    ensures
        o == finish_outcome_spec(stage, *result),
{
    match result {
        Ok(code) => StageOutcome::from_code(stage, *code),
        Err(code) => StageOutcome::failed(stage, *code),
    }
}

/// A stage reports ok exactly when it ran to completion with exit code 0, and
/// the reported code is always the one the stage produced.
pub proof fn lemma_outcome_ok_iff_clean_exit(stage: Stage, result: Result<i32, i32>)
    ensures
        finish_outcome_spec(stage, result).ok <==> result == Ok::<i32, i32>(0),
        finish_outcome_spec(stage, result).stage == stage,
        finish_outcome_spec(stage, result).exit_code_equiv == match result {
            Ok(c) => c,
            Err(c) => c,
        },
        finish_outcome_spec(stage, Ok(0)) == (StageOutcome { stage, ok: true, exit_code_equiv: 0 }),
{
}

// ── refusals ─────────────────────────────────────────────────────────────────

/// The three stages that replace artifacts a running session has open. `run`
/// reconciles the previous session itself and `stop` is the way out of one.
pub open spec fn forbidden_while_session_live(stage: Stage) -> bool {
    stage == Stage::Setup || stage == Stage::Build || stage == Stage::Install
}

/// The stages that write contract-derived bytes onto the machine — every one
/// but `stop`, the way out of every bad state.
pub open spec fn gated_by_contract_identity(stage: Stage) -> bool {
    stage != Stage::Stop
}

pub fn stage_is_forbidden_while_session_live(stage: Stage) -> (r: bool)
    ensures
        r == forbidden_while_session_live(stage),
{
    match stage {
        Stage::Setup | Stage::Build | Stage::Install => true,
        _ => false,
    }
}

pub fn stage_is_gated_by_contract_identity(stage: Stage) -> (r: bool)
    ensures
        r == gated_by_contract_identity(stage),
{
    match stage {
        Stage::Stop => false,
        _ => true,
    }
}

/// `$WINEVR_BOTTLE` as a die string interpolates it, `<name>` when unset.
pub open spec fn bottle_or_placeholder(bottle_name: Option<Seq<char>>) -> Seq<char> {
    match bottle_name {
        Some(n) => n,
        None => "<name>"@,
    }
}

/// `$WINEVR_BOTTLE`, or `<name>` when unset.
pub fn bottle_name_or_placeholder(bottle_name: &Option<String>) -> (s: String)
    ensures
        s@ == bottle_or_placeholder(opt_view(*bottle_name)),
{
    match bottle_name {
        Some(n) => n.clone(),
        None => String::from_str("<name>"),
    }
}

/// The message of the live-session refusal.
pub open spec fn session_live_message(stage: Stage, reason: Seq<char>) -> Seq<char> {
    "refusing to run "@ + stage_verb(stage) + " while a session is live — "@ + reason
        + "; stop the session first"@
}

/// Its remedy.
pub open spec fn session_live_remedy(bottle_name: Option<Seq<char>>) -> Seq<char> {
    "./demo.sh stop --bottle "@ + bottle_or_placeholder(bottle_name)
}

/// The `die` a stage produces when a live session is seen (`reason` is why
/// the machine looks live), or `None` when the stage may proceed: only
/// `setup`, `build` and `install` are ever refused, and only while `reason`
/// is `Some`.
pub fn session_live_refusal(stage: Stage, reason: &Option<String>, bottle_name: &Option<String>) -> (d: Option<Die>)
    ensures
        d is Some <==> (forbidden_while_session_live(stage) && reason is Some),
        d matches Some(die) ==> is_session_live_die(die, stage, reason->0@, opt_view(*bottle_name)),
{
    if !stage_is_forbidden_while_session_live(stage) {
        return None;
    }
    match reason {
        None => None,
        Some(reason) => {
            let mut message = String::from_str("refusing to run ");
            message.append(stage.verb());
            message.append(" while a session is live — ");
            message.append(reason.as_str());
            message.append("; stop the session first");
            let mut remedy = String::from_str("./demo.sh stop --bottle ");
            let name = bottle_name_or_placeholder(bottle_name);
            remedy.append(name.as_str());
            Some(Die { message, remedy: Some(remedy) })
        },
    }
}

/// Every refusal a stage owes before it may dispatch: a live session first,
/// then contract skew. `skew` is the contract-identity check's die, when the
/// binary does not match the checkout.
pub open spec fn dispatch_refusal_spec(stage: Stage, live: bool, skewed: bool) -> u8 {
    if forbidden_while_session_live(stage) && live {
        1
    } else if gated_by_contract_identity(stage) && skewed {
        2
    } else {
        0
    }
}

pub fn before_dispatch_refusal(
    stage: Stage,
    session_reason: &Option<String>,
    skew: Option<Die>,
    bottle_name: &Option<String>,
) -> (d: Option<Die>)
    ensures
        dispatch_refusal_spec(stage, session_reason is Some, skew is Some) == 0 <==> d is None,
        dispatch_refusal_spec(stage, session_reason is Some, skew is Some) == 1 ==> (d matches Some(
            die,
        ) && is_session_live_die(die, stage, session_reason->0@, opt_view(*bottle_name))),
        dispatch_refusal_spec(stage, session_reason is Some, skew is Some) == 2 ==> d == skew,
{
    let live = session_live_refusal(stage, session_reason, bottle_name);
    if live.is_some() {
        return live;
    }
    if stage_is_gated_by_contract_identity(stage) {
        skew
    } else {
        None
    }
}

/// `die` is the live-session refusal for `stage`, `reason` and the bottle name.
pub open spec fn is_session_live_die(
    die: Die,
    stage: Stage,
    reason: Seq<char>,
    bottle_name: Option<Seq<char>>,
) -> bool {
    die.message@ == session_live_message(stage, reason) && opt_view(die.remedy) == Some(
        session_live_remedy(bottle_name),
    )
}

/// `stop` is never refused, and `run` only ever on contract skew.
pub proof fn lemma_stop_is_always_admitted(live: bool, skewed: bool)
    ensures
        dispatch_refusal_spec(Stage::Stop, live, skewed) == 0,
        dispatch_refusal_spec(Stage::Run, live, skewed) != 1,
        dispatch_refusal_spec(Stage::Run, live, skewed) == 2 <==> skewed,
{
}

// ── require_bottle ───────────────────────────────────────────────────────────

/// Each name followed by one space — the shell's `tr '\n' ' '` over a list.
pub open spec fn spaced(names: Seq<Seq<char>>) -> Seq<char>
    decreases names.len(),
{
    if names.len() == 0 {
        Seq::empty()
    } else {
        spaced(names.drop_last()) + names.last() + " "@
    }
}

/// `lib.sh`'s die when no bottle was named: two lines, the second listing
/// the existing bottles, each followed by a space.
pub open spec fn bottle_name_required_message(existing: Seq<Seq<char>>) -> Seq<char> {
    "CrossOver bottle name required: pass --bottle <name> or set WINEVR_BOTTLE.\n       Existing bottles: "@
        + spaced(existing)
}

/// `lib.sh`'s die when the named bottle has no `cxbottle.conf`.
pub open spec fn bottle_not_found_message(name: Seq<char>, prefix: Seq<char>) -> Seq<char> {
    "bottle '"@ + name + "' not found at "@ + prefix
        + " — create it in CrossOver (win11_64) first"@
}

/// Each element of `names` followed by one space.
pub fn spaced_names(names: &Vec<String>) -> (s: String)
    ensures
        s@ == spaced(names@.map_values(|n: String| n@)),
{
    let mut s = String::new();
    let mut i: usize = 0;
    while i < names.len()
        invariant
            i <= names@.len(),
            s@ == spaced(names@.map_values(|n: String| n@).take(i as int)),
        decreases names.len() - i,
    {
        s.append(names[i].as_str());
        s.append(" ");
        proof {
            let v = names@.map_values(|n: String| n@);
            assert(v.take(i + 1).drop_last() =~= v.take(i as int));
        }
        i = i + 1;
    }
    assert(names@.map_values(|n: String| n@).take(i as int) =~= names@.map_values(|n: String| n@));
    s
}

/// `lib.sh`'s `require_bottle`: `Ok` when a bottle was named and found,
/// otherwise the die for whichever of the two conditions failed.
/// `existing` is the machine's bottle list and `named_prefix` the prefix the
/// named bottle would have.
pub fn require_bottle(
    bottle_name: &Option<String>,
    bottle_found: bool,
    existing: &Vec<String>,
    named_prefix: &str,
) -> (r: Result<(), Die>)
    ensures
        r is Ok <==> (bottle_name is Some && bottle_found),
        bottle_name is None ==> (r matches Err(d) && d.message@ == bottle_name_required_message(
            existing@.map_values(|n: String| n@),
        ) && d.remedy is None),
        (bottle_name matches Some(n) && !bottle_found) ==> (r matches Err(d) && d.message@
            == bottle_not_found_message(bottle_name->0@, named_prefix@) && d.remedy is None),
{
    match bottle_name {
        None => {
            let mut message = String::from_str(
                "CrossOver bottle name required: pass --bottle <name> or set WINEVR_BOTTLE.\n       Existing bottles: ",
            );
            let listed = spaced_names(existing);
            message.append(listed.as_str());
            Err(Die { message, remedy: None })
        },
        Some(name) => {
            if bottle_found {
                Ok(())
            } else {
                let mut message = String::from_str("bottle '");
                message.append(name.as_str());
                message.append("' not found at ");
                message.append(named_prefix);
                message.append(" — create it in CrossOver (win11_64) first");
                Err(Die { message, remedy: None })
            }
        },
    }
}

// ── rows ─────────────────────────────────────────────────────────────────────

/// Rows as plain values.
pub open spec fn rows_view(rows: Seq<(Severity, String)>) -> Seq<(Severity, Seq<char>)> {
    rows.map_values(|r: (Severity, String)| (r.0, r.1@))
}

/// One row.
pub fn one_row(r: (Severity, String)) -> (v: Vec<(Severity, String)>)
    ensures
        rows_view(v@) == seq![(r.0, r.1@)],
{
    let mut v: Vec<(Severity, String)> = Vec::new();
    v.push(r);
    assert(rows_view(v@) =~= seq![(r.0, r.1@)]);
    v
}

/// No rows.
pub fn no_rows() -> (v: Vec<(Severity, String)>)
    ensures
        rows_view(v@) == Seq::<(Severity, Seq<char>)>::empty(),
{
    let v: Vec<(Severity, String)> = Vec::new();
    assert(rows_view(v@) =~= Seq::<(Severity, Seq<char>)>::empty());
    v
}

/// Rows with static text, owned.
pub fn owned_rows(rows: Vec<(Severity, &'static str)>) -> (v: Vec<(Severity, String)>)
    ensures
        rows_view(v@) == rows@.map_values(|r: (Severity, &'static str)| (r.0, r.1@)),
{
    let mut v: Vec<(Severity, String)> = Vec::new();
    let mut i: usize = 0;
    while i < rows.len()
        invariant
            i <= rows@.len(),
            rows_view(v@) == rows@.take(i as int).map_values(|r: (Severity, &'static str)| (r.0, r.1@)),
        decreases rows.len() - i,
    {
        let ghost before = v@;
        let (sev, t) = rows[i];
        v.push((sev, String::from_str(t)));
        proof {
            assert(rows_view(v@) =~= rows_view(before).push((sev, t@)));
            assert(rows@.take(i + 1) =~= rows@.take(i as int).push(rows@[i as int]));
            assert(rows@.take(i + 1).map_values(|r: (Severity, &'static str)| (r.0, r.1@)) =~= rows@.take(
                i as int,
            ).map_values(|r: (Severity, &'static str)| (r.0, r.1@)).push((sev, t@)));
        }
        i = i + 1;
    }
    assert(rows@.take(i as int) =~= rows@);
    v
}

/// What one step of a stage's flow asks for: rows to print, then work to
/// do; `die` is the `die` (message and remedy) when the work is to die.
pub struct StepAction<W> {
    pub rows: Vec<(Severity, String)>,
    pub work: W,
    pub die: Option<Die>,
}

/// A `die` as plain values: its message and its remedy.
pub open spec fn die_view(d: Option<Die>) -> Option<(Seq<char>, Option<Seq<char>>)> {
    match d {
        Some(d) => Some((d.message@, opt_view(d.remedy))),
        None => None,
    }
}

/// A step's action as plain values: the rows, the work, the die.
pub open spec fn step_view<W>(a: StepAction<W>) -> (Seq<(Severity, Seq<char>)>, W, Option<(Seq<char>, Option<Seq<char>>)>) {
    (rows_view(a.rows@), a.work, die_view(a.die))
}

/// A die without a remedy.
pub fn bare_die(message: String) -> (d: Option<Die>)
    ensures
        die_view(d) == Some((message@, None::<Seq<char>>)),
{
    Some(Die { message, remedy: None })
}

// ── dry runs ─────────────────────────────────────────────────────────────────

/// A row in the future tense: it begins with `would `.
pub open spec fn says_would(t: Seq<char>) -> bool {
    t.len() >= 6 && t.subrange(0, 6) == "would "@
}

proof fn lemma_would_prefix(head: Seq<char>, tail: Seq<char>)
    requires
        says_would(head),
    ensures
        says_would(head + tail),
{
    assert((head + tail).subrange(0, 6) =~= head.subrange(0, 6));
}

/// A dry run never claims work it only planned: every row that reports a
/// copy, a stock backup, a written config, a registration, an extraction, a
/// fetched checkout or a build says `would …` under `--dry-run`.
pub proof fn lemma_dry_run_rows_say_would(dst: Seq<char>, backup: Seq<char>, toml: Seq<char>, flushed: bool)
    ensures
        says_would(install_row_spec(true, true, dst).1),
        says_would(backed_up_row_spec(true, backup).1),
        says_would(config_written_row_spec(true, toml).1),
        registered_rows_spec(true, flushed).len() == 1,
        says_would(registered_rows_spec(true, flushed)[0].1),
        says_would(DXMT_WOULD_EXTRACT_INFO@),
        says_would(SUBMODULES_WOULD_INIT_INFO@),
        says_would(PATCHSET_WOULD_CHECKOUT_INFO@),
        says_would(OXRSYS_BUILT.1@),
        says_would(HELPER_BUILT.1@),
        says_would(WINEOPENXR_BUILT.1@),
        says_would(DASHBOARD_BUILT.1@),
{
    reveal_strlit("would ");
    reveal_strlit("would install: ");
    reveal_strlit("would back up stock DXMT -> ");
    reveal_strlit("would write ");
    reveal_strlit("would register ActiveRuntime");
    reveal_strlit("would extract ext/dxmt-artifacts and write the provenance marker");
    reveal_strlit("would initialize submodules (nothing was fetched under --dry-run)");
    reveal_strlit(
        "would check out the ALVR oxrsys patch set (branch oxrsys-v20.14.1; nothing was fetched under --dry-run)",
    );
    reveal_strlit("would build oxrsys (build-x64)");
    reveal_strlit("would build the encoder helper and stage it next to the runtime dylib");
    reveal_strlit("would build wineopenxr");
    reveal_strlit("would build the ALVR dashboard");
    assert("would register ActiveRuntime"@.subrange(0, 6) =~= "would "@);
    assert(DXMT_WOULD_EXTRACT_INFO@.subrange(0, 6) =~= "would "@);
    assert(SUBMODULES_WOULD_INIT_INFO@.subrange(0, 6) =~= "would "@);
    assert(PATCHSET_WOULD_CHECKOUT_INFO@.subrange(0, 6) =~= "would "@);
    assert(OXRSYS_BUILT.1@.subrange(0, 6) =~= "would "@);
    assert(HELPER_BUILT.1@.subrange(0, 6) =~= "would "@);
    assert(WINEOPENXR_BUILT.1@.subrange(0, 6) =~= "would "@);
    assert(DASHBOARD_BUILT.1@.subrange(0, 6) =~= "would "@);
    assert("would install: "@.subrange(0, 6) =~= "would "@);
    lemma_would_prefix("would install: "@, dst);
    assert("would back up stock DXMT -> "@.subrange(0, 6) =~= "would "@);
    lemma_would_prefix("would back up stock DXMT -> "@, backup);
    assert("would write "@.subrange(0, 6) =~= "would "@);
    lemma_would_prefix("would write "@, toml);
    lemma_would_prefix("would write "@ + toml, " (protocol=alvr, 42 Mbps, encoder_process=auto)"@);
}

} // verus!
