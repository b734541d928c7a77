//! The seven ordered launch actions — run.sh's `# launch-action:` tags — as
//! the decisions and renderings each makes around its outside work.

use vstd::prelude::*;

use crate::events::{stage_steps, step, RunId, Severity, Stage, StageEvent};
use crate::paths::{file_name, join_path, join_rel, path_file_name};
use crate::process::ProcInfo;
use crate::stages::{bare_die, die_view, one_row, rows_view, Die, RUN_WINESERVER_WAIT_SECS};
use crate::text::{
    select, strings_view,
    chars_eq_str, chars_to_string, decimal, join, join_strings, lines, opt_view, split_lines,
    split_words, str_chars, u64_to_string, views, words,
};

verus! {

/// run.sh's `# launch-action:` ids, in execution order.
pub const LAUNCH_ACTION_IDS: [&'static str; 7] = [
    "adb-forward-hygiene",
    "wineserver-reset",
    "goldberg-stage",
    "audio-route",
    "dashboard",
    "adb-reverse-cleanup",
    "launch-wine",
];

/// `run` reports under one step per launch action plus its own three phases:
/// the preflight first, supervise and teardown last.
pub proof fn lemma_run_steps_align_with_launch_actions()
    ensures
        stage_steps(Stage::Run).len() == LAUNCH_ACTION_IDS@.len() + 3,
        stage_steps(Stage::Run)[0] == step::RUN_PREFLIGHT,
        stage_steps(Stage::Run)[8] == step::RUN_SUPERVISE,
        stage_steps(Stage::Run)[9] == step::RUN_TEARDOWN,
{
}

/// How many `beatsaber-<ts>[-n].log` names to try before letting the spawn
/// surface the `EEXIST` itself.
pub const LOG_NAME_ATTEMPTS: u32 = 100;

/// The device run.sh routes the Mac's output to.
pub const BLACKHOLE_DEVICE: &'static str = "BlackHole 2ch";

// ── 1. adb forward hygiene ──────────────────────────────────────────────────

/// The first row at or after `k` whose second field is exactly `device`,
/// yielding its first field.
pub open spec fn first_device_from(ls: Seq<Seq<char>>, k: int) -> Option<Seq<char>>
    decreases ls.len() - k,
{
    if k < 0 || k >= ls.len() {
        None
    } else {
        let w = words(ls[k]);
        if w.len() >= 2 && w[1] == "device"@ {
            Some(w[0])
        } else {
            first_device_from(ls, k + 1)
        }
    }
}

/// `awk 'NR>1 && $2=="device"{print $1; exit}'` over `adb devices`' stdout.
pub open spec fn first_device_serial_spec(stdout: Seq<char>) -> Option<Seq<char>> {
    first_device_from(lines(stdout), 1)
}

/// `awk 'NR>1 && $2=="device"{print $1; exit}'`: the header line is skipped,
/// and only a row whose state is exactly `device` counts.
pub fn first_device_serial(stdout: &str) -> (r: Option<String>)
    ensures
        opt_view(r) == first_device_serial_spec(stdout@),
{
    let cs = str_chars(stdout);
    let ls = split_lines(&cs);
    let mut k: usize = 1;
    while k < ls.len()
        invariant
            views(ls@) == lines(stdout@),
            1 <= k,
            first_device_from(views(ls@), 1) == first_device_from(views(ls@), k as int),
        decreases ls.len() - k,
    {
        let w = split_words(&ls[k]);
        proof {
            assert(views(ls@)[k as int] == ls@[k as int]@);
        }
        if w.len() >= 2 && chars_eq_str(&w[1], "device") {
            proof {
                assert(views(w@)[1] == w@[1]@);
                assert(views(w@)[0] == w@[0]@);
            }
            return Some(chars_to_string(&w[0]));
        }
        proof {
            if w.len() >= 2 {
                assert(views(w@)[1] == w@[1]@);
            }
        }
        k = k + 1;
    }
    None
}

/// `tcp:<port>` for each streaming port, in order.
pub open spec fn forward_spec(port: u16) -> Seq<char> {
    "tcp:"@ + decimal(port as nat)
}

/// `tcp:<port>` for each of the contract's streaming ports.
pub fn stream_forward_specs(ports: &Vec<u16>) -> (out: Vec<String>)
    ensures
        out@.len() == ports@.len(),
        forall|i: int| 0 <= i < ports@.len() ==> #[trigger] out@[i]@ == forward_spec(ports@[i]),
{
    let mut out: Vec<String> = Vec::new();
    let mut i: usize = 0;
    while i < ports.len()
        invariant
            i <= ports@.len(),
            out@.len() == i,
            forall|j: int| 0 <= j < i ==> #[trigger] out@[j]@ == forward_spec(ports@[j]),
        decreases ports.len() - i,
    {
        let mut s = String::from_str("tcp:");
        let digits = u64_to_string(ports[i] as u64);
        s.append(digits.as_str());
        out.push(s);
        i = i + 1;
    }
    out
}

/// One `--wired` forward on record: `adb -s <serial> forward tcp:<port>`.
#[derive(Debug, Clone, PartialEq, Eq)]
pub struct WiredForward {
    pub serial: String,
    pub port: u16,
}

/// The record after a rollback: a forward leaves it only when its removal
/// on `serial` succeeded (`removed`); an indeterminate one stays.
pub open spec fn unremoved(fs: Seq<WiredForward>, serial: Seq<char>, removed: Seq<u16>) -> Seq<
    WiredForward,
>
    decreases fs.len(),
{
    if fs.len() == 0 {
        Seq::empty()
    } else {
        let rest = unremoved(fs.drop_last(), serial, removed);
        let f = fs.last();
        if f.serial@ == serial && removed.contains(f.port) {
            rest
        } else {
            rest.push(f)
        }
    }
}

/// Bring the forward record back in line after a rollback: drop exactly the
/// forwards on `serial` whose removal succeeded.
pub fn forget_removed_forwards(forwards: &mut Vec<WiredForward>, serial: &str, removed: &Vec<u16>)
    ensures
        final(forwards)@ == unremoved(old(forwards)@, serial@, removed@),
{
    let ghost orig = forwards@;
    let mut kept: Vec<WiredForward> = Vec::new();
    let mut i: usize = 0;
    while i < forwards.len()
        invariant
            forwards@ == orig,
            i <= orig.len(),
            kept@ == unremoved(orig.take(i as int), serial@, removed@),
        decreases forwards.len() - i,
    {
        let f = &forwards[i];
        let mut hit = false;
        let mut j: usize = 0;
        while j < removed.len()
            invariant
                j <= removed@.len(),
                hit == removed@.take(j as int).contains(f.port),
            decreases removed.len() - j,
        {
            if removed[j] == f.port {
                hit = true;
            }
            proof {
                let a = removed@.take(j as int);
                let b = removed@.take(j + 1);
                assert(b =~= a.push(removed@[j as int]));
                if a.contains(f.port) {
                    let k = choose|k: int| 0 <= k < a.len() && a[k] == f.port;
                    assert(b[k] == f.port);
                }
                if removed@[j as int] == f.port {
                    assert(b[j as int] == f.port);
                }
                if b.contains(f.port) {
                    let k = choose|k: int| 0 <= k < b.len() && b[k] == f.port;
                    if k < j {
                        assert(a[k] == f.port);
                    }
                }
            }
            j = j + 1;
        }
        assert(removed@.take(j as int) =~= removed@);
        let same_serial = chars_eq_str(&str_chars(f.serial.as_str()), serial);
        proof {
            assert(orig.take(i + 1).drop_last() =~= orig.take(i as int));
        }
        if !(same_serial && hit) {
            kept.push(WiredForward { serial: f.serial.clone(), port: f.port });
        }
        i = i + 1;
    }
    assert(orig.take(i as int) =~= orig);
    *forwards = kept;
}

/// `adb -s <serial> forward <local> <local>`'s arguments: the forward that
/// creates one streaming port on one device.
pub fn forward_args(serial: &str, local: &str) -> (v: Vec<String>)
    ensures
        strings_view(v@) == seq!["-s"@, serial@, "forward"@, local@, local@],
{
    let mut v: Vec<String> = Vec::new();
    v.push(String::from_str("-s"));
    v.push(String::from_str(serial));
    v.push(String::from_str("forward"));
    v.push(String::from_str(local));
    v.push(String::from_str(local));
    assert(strings_view(v@) =~= seq!["-s"@, serial@, "forward"@, local@, local@]);
    v
}

/// A rollback's removal commands: `adb -s <serial> forward --remove <local>`
/// for each streaming forward, in contract order. Never `--remove-all`.
pub fn rollback_commands(serial: &str, specs: &Vec<String>) -> (v: Vec<Vec<String>>)
    ensures
        v@.len() == specs@.len(),
        forall|i: int|
            0 <= i < specs@.len() ==> strings_view((#[trigger] v@[i])@) == seq![
                "-s"@,
                serial@,
                "forward"@,
                "--remove"@,
                specs@[i]@,
            ],
{
    let mut v: Vec<Vec<String>> = Vec::new();
    let mut i: usize = 0;
    while i < specs.len()
        invariant
            i <= specs@.len(),
            v@.len() == i,
            forall|k: int|
                0 <= k < i ==> strings_view((#[trigger] v@[k])@) == seq![
                    "-s"@,
                    serial@,
                    "forward"@,
                    "--remove"@,
                    specs@[k]@,
                ],
        decreases specs.len() - i,
    {
        let mut c: Vec<String> = Vec::new();
        c.push(String::from_str("-s"));
        c.push(String::from_str(serial));
        c.push(String::from_str("forward"));
        c.push(String::from_str("--remove"));
        c.push(specs[i].clone());
        assert(strings_view(c@) =~= seq!["-s"@, serial@, "forward"@, "--remove"@, specs@[i as int]@]);
        v.push(c);
        i = i + 1;
    }
    v
}

/// The ports whose removal succeeded (`ok[i]` for `ports[i]`), in order: the
/// ones a rollback may forget.
pub fn removed_ports(ports: &Vec<u16>, ok: &Vec<bool>) -> (v: Vec<u16>)
    requires
        ports@.len() == ok@.len(),
    ensures
        v@ == select(ports@, ok@),
{
    let mut v: Vec<u16> = Vec::new();
    let mut i: usize = 0;
    while i < ports.len()
        invariant
            i <= ports@.len(),
            ports@.len() == ok@.len(),
            v@ == select(ports@.take(i as int), ok@.take(i as int)),
        decreases ports.len() - i,
    {
        proof {
            assert(ports@.take(i + 1).take(i as int) =~= ports@.take(i as int));
            assert(ok@.take(i + 1).take(i as int) =~= ok@.take(i as int));
        }
        if ok[i] {
            v.push(ports[i]);
        }
        i = i + 1;
    }
    proof {
        assert(ports@.take(i as int) =~= ports@);
        assert(ok@.take(i as int) =~= ok@);
    }
    v
}

/// run.sh:109's die, for one port on one device.
pub fn wired_forward_failed_die(local: &str, serial: &str) -> (s: String)
    ensures
        s@ == "adb forward "@ + local@ + " "@ + local@ + " failed on "@ + serial@
            + " — check the USB connection (adb devices)"@,
{
    let mut s = String::from_str("adb forward ");
    s.append(local);
    s.append(" ");
    s.append(local);
    s.append(" failed on ");
    s.append(serial);
    s.append(" — check the USB connection (adb devices)");
    s
}

/// run.sh:112, with the port list rendered from the contract.
pub fn wired_forwards_up_line(specs: &Vec<String>, serial: &str) -> (s: String)
    ensures
        s@ == "wired mode: adb forward "@ + join(specs@.map_values(|x: String| x@), "/"@) + " up on "@
            + serial@ + " (a later non-wired run clears these two)"@,
{
    let mut s = String::from_str("wired mode: adb forward ");
    let joined = join_strings(specs, "/");
    s.append(joined.as_str());
    s.append(" up on ");
    s.append(serial);
    s.append(" (a later non-wired run clears these two)");
    s
}

/// run.sh:104's die: `--wired` with no adb found.
pub const WIRED_NEEDS_ADB_DIE: &'static str =
    "--wired needs adb (Android platform-tools) on PATH or under ~/Library/Android/sdk";

/// run.sh:105's die: no device in state `device`.
pub const WIRED_NO_QUEST_DIE: &'static str =
    "--wired: no Quest over adb — connect USB and check 'adb devices'";

/// How `adb-forward-hygiene` begins.
#[derive(Debug, Clone, Copy, PartialEq, Eq, Structural)]
pub enum WiredEntry {
    /// Not `--wired`, adb present: remove this pipeline's two forwards,
    /// per serial, tolerating failed removals.
    ClearForwards,
    /// Not `--wired` and no adb: nothing to do.
    Nothing,
    /// `--wired` and no adb: die with [`WIRED_NEEDS_ADB_DIE`].
    NeedsAdb,
    /// `--wired`: probe for the first device and set the forwards up on it.
    ProbeDevice,
}

pub fn wired_entry(wired: bool, adb_present: bool) -> (e: WiredEntry)
    ensures
        e == (if !wired {
            if adb_present { WiredEntry::ClearForwards } else { WiredEntry::Nothing }
        } else if !adb_present {
            WiredEntry::NeedsAdb
        } else {
            WiredEntry::ProbeDevice
        }),
{
    if !wired {
        if adb_present { WiredEntry::ClearForwards } else { WiredEntry::Nothing }
    } else if !adb_present {
        WiredEntry::NeedsAdb
    } else {
        WiredEntry::ProbeDevice
    }
}

/// Where the `--wired` forward setup stands.
#[derive(Debug, Clone, Copy, PartialEq, Eq, Structural)]
pub enum WiredPhase {
    /// The record naming the current port was handed out to be saved.
    AwaitSave,
    /// That save succeeded, and `adb forward` for the current port was handed
    /// out.
    AwaitForward,
    /// Every port is up, or the setup rolled back.
    Finished,
}

/// How one `adb forward` ended.
#[derive(Debug, Clone, Copy, PartialEq, Eq, Structural)]
pub enum ForwardOutcome {
    Success,
    /// adb ran and exited non-zero.
    ExitFailure,
    /// adb could not be run at all.
    SpawnError,
    /// Stop landed while it ran.
    Cancelled,
}

/// Why the forward setup rolled back.
#[derive(Debug, Clone, PartialEq, Eq)]
pub enum WiredFailure {
    /// The record could not be saved; the save's own error travels.
    SaveFailed,
    /// `adb forward` exited non-zero: run.sh:109's die.
    Die(String),
    /// `adb forward` could not run: the executor's cause, then run.sh:109's die.
    DieWithCause(String),
    /// Stop landed: the cancellation travels and no die row is printed.
    Cancelled,
}

/// The outside work the forward setup asks for next.
#[derive(Debug, Clone, PartialEq, Eq)]
pub enum WiredAction {
    /// Append this forward to the session record and save the record — before
    /// the `adb forward` that creates it.
    Record(WiredForward),
    /// Run `adb -s <serial> forward <local> <local>`.
    Forward(String),
    /// Every port is up: print this `info` line.
    Up(String),
    /// Remove every streaming forward on the device, forget those whose
    /// removal succeeded, save, then fail this way.
    RollBack(WiredFailure),
}

/// The forward setup's state, as plain values.
pub struct WiredSetupView {
    pub serial: Seq<char>,
    pub ports: Seq<u16>,
    /// The port being worked on.
    pub index: nat,
    pub phase: WiredPhase,
}

/// `--wired`'s forward setup on one device: for each streaming port, in
/// contract order, the record first, then the forward; any failure rolls
/// everything back.
pub struct WiredSetup {
    serial: String,
    ports: Vec<u16>,
    specs: Vec<String>,
    index: usize,
    phase: WiredPhase,
}

impl View for WiredSetup {
    type V = WiredSetupView;

    closed spec fn view(&self) -> WiredSetupView {
        WiredSetupView {
            serial: self.serial@,
            ports: self.ports@,
            index: self.index as nat,
            phase: self.phase,
        }
    }
}

/// One answer the forward setup gets back from its outside work.
#[derive(Debug, Clone, Copy, PartialEq, Eq, Structural)]
pub enum WiredEvent {
    /// The record was saved (`true`) or the save failed.
    Saved(bool),
    /// The `adb forward` ended this way.
    Forwarded(ForwardOutcome),
}

/// A [`WiredFailure`] as plain values.
pub enum WiredFailureView {
    SaveFailed,
    Die(Seq<char>),
    DieWithCause(Seq<char>),
    Cancelled,
}

/// A [`WiredAction`] as plain values.
pub enum WiredStep {
    Record(Seq<char>, u16),
    Forward(Seq<char>),
    Up(Seq<char>),
    RollBack(WiredFailureView),
}

pub open spec fn wired_failure_view(f: WiredFailure) -> WiredFailureView {
    match f {
        WiredFailure::SaveFailed => WiredFailureView::SaveFailed,
        WiredFailure::Die(t) => WiredFailureView::Die(t@),
        WiredFailure::DieWithCause(t) => WiredFailureView::DieWithCause(t@),
        WiredFailure::Cancelled => WiredFailureView::Cancelled,
    }
}

pub open spec fn wired_step_view(a: WiredAction) -> WiredStep {
    match a {
        WiredAction::Record(f) => WiredStep::Record(f.serial@, f.port),
        WiredAction::Forward(l) => WiredStep::Forward(l@),
        WiredAction::Up(t) => WiredStep::Up(t@),
        WiredAction::RollBack(f) => WiredStep::RollBack(wired_failure_view(f)),
    }
}

/// run.sh:112's line for the setup's ports.
pub open spec fn wired_up_line(v: WiredSetupView) -> Seq<char> {
    "wired mode: adb forward "@ + join(v.ports.map_values(|p: u16| forward_spec(p)), "/"@) + " up on "@
        + v.serial + " (a later non-wired run clears these two)"@
}

/// run.sh:109's die for the current port.
pub open spec fn wired_die_line(v: WiredSetupView) -> Seq<char> {
    let local = forward_spec(v.ports[v.index as int]);
    "adb forward "@ + local + " "@ + local + " failed on "@ + v.serial
        + " — check the USB connection (adb devices)"@
}

/// The state after `e`; an answer the phase does not wait for changes nothing.
pub open spec fn wired_next(v: WiredSetupView, e: WiredEvent) -> WiredSetupView {
    match e {
        WiredEvent::Saved(ok) => if v.phase == WiredPhase::AwaitSave {
            WiredSetupView { phase: if ok { WiredPhase::AwaitForward } else { WiredPhase::Finished }, ..v }
        } else {
            v
        },
        WiredEvent::Forwarded(o) => if v.phase == WiredPhase::AwaitForward {
            if o == ForwardOutcome::Success && v.index + 1 < v.ports.len() {
                WiredSetupView { index: v.index + 1, phase: WiredPhase::AwaitSave, ..v }
            } else {
                WiredSetupView { phase: WiredPhase::Finished, ..v }
            }
        } else {
            v
        },
    }
}

/// The outside work asked for after `e`; `None` for an answer the phase does
/// not wait for.
pub open spec fn wired_emits(v: WiredSetupView, e: WiredEvent) -> Option<WiredStep> {
    match e {
        WiredEvent::Saved(ok) => if v.phase != WiredPhase::AwaitSave {
            None
        } else if ok {
            Some(WiredStep::Forward(forward_spec(v.ports[v.index as int])))
        } else {
            Some(WiredStep::RollBack(WiredFailureView::SaveFailed))
        },
        WiredEvent::Forwarded(o) => if v.phase != WiredPhase::AwaitForward {
            None
        } else {
            match o {
                ForwardOutcome::Success => if v.index + 1 < v.ports.len() {
                    Some(WiredStep::Record(v.serial, v.ports[v.index + 1int]))
                } else {
                    Some(WiredStep::Up(wired_up_line(v)))
                },
                ForwardOutcome::ExitFailure => Some(WiredStep::RollBack(WiredFailureView::Die(wired_die_line(v)))),
                ForwardOutcome::SpawnError => Some(
                    WiredStep::RollBack(WiredFailureView::DieWithCause(wired_die_line(v))),
                ),
                ForwardOutcome::Cancelled => Some(WiredStep::RollBack(WiredFailureView::Cancelled)),
            }
        },
    }
}

/// Write before mutate: the setup asks for a port's `adb forward` only as its
/// answer to the successful save of the record naming that port, which it
/// handed out at the step just before.
pub proof fn lemma_record_saved_before_forward(v: WiredSetupView, e1: WiredEvent, e2: WiredEvent)
    requires
        v.index < v.ports.len(),
        wired_emits(v, e1) is Some,
        wired_emits(wired_next(v, e1), e2) matches Some(WiredStep::Forward(_)),
    ensures
        ({
            let w = wired_next(v, e1);
            &&& e2 == WiredEvent::Saved(true)
            &&& w.index < w.ports.len()
            &&& wired_emits(v, e1) == Some(WiredStep::Record(w.serial, w.ports[w.index as int]))
            &&& wired_emits(w, e2) == Some(WiredStep::Forward(forward_spec(w.ports[w.index as int])))
        }),
{
}

/// Any failure rolls the forwards back, over every port: a failed save of a
/// port's record runs no forward for it; an `adb forward` that exited
/// non-zero dies with run.sh's text naming `tcp:<port>` and the device; one
/// that could not run dies the same way after its cause; a cancelled one
/// rolls back with no die. A successful forward moves on to the next port's
/// record, or reports every port up after the last.
pub proof fn lemma_wired_outcomes(v: WiredSetupView)
    requires
        v.index < v.ports.len(),
    ensures
        v.phase == WiredPhase::AwaitSave ==> wired_emits(v, WiredEvent::Saved(false)) == Some(
            WiredStep::RollBack(WiredFailureView::SaveFailed),
        ) && wired_next(v, WiredEvent::Saved(false)).phase == WiredPhase::Finished,
        v.phase == WiredPhase::AwaitForward ==> ({
            let local = "tcp:"@ + decimal(v.ports[v.index as int] as nat);
            let die = "adb forward "@ + local + " "@ + local + " failed on "@ + v.serial
                + " — check the USB connection (adb devices)"@;
            &&& wired_emits(v, WiredEvent::Forwarded(ForwardOutcome::ExitFailure)) == Some(
                WiredStep::RollBack(WiredFailureView::Die(die)),
            )
            &&& wired_emits(v, WiredEvent::Forwarded(ForwardOutcome::SpawnError)) == Some(
                WiredStep::RollBack(WiredFailureView::DieWithCause(die)),
            )
            &&& wired_emits(v, WiredEvent::Forwarded(ForwardOutcome::Cancelled)) == Some(
                WiredStep::RollBack(WiredFailureView::Cancelled),
            )
            &&& v.index + 1 < v.ports.len() ==> wired_emits(v, WiredEvent::Forwarded(ForwardOutcome::Success)) == Some(
                WiredStep::Record(v.serial, v.ports[v.index + 1int]),
            )
            &&& v.index + 1 == v.ports.len() ==> wired_emits(v, WiredEvent::Forwarded(ForwardOutcome::Success))
                is Some && wired_emits(v, WiredEvent::Forwarded(ForwardOutcome::Success))->0 is Up
            &&& forall|o: ForwardOutcome|
                o != ForwardOutcome::Success ==> #[trigger] wired_next(v, WiredEvent::Forwarded(o)).phase
                    == WiredPhase::Finished
        }),
{
}

/// The steps a run of the forward setup hands out, in order, each with the
/// answer it came from: the events are fed one after another from `v`, and
/// an answer the phase does not wait for hands out nothing.
pub open spec fn wired_trace(v: WiredSetupView, evs: Seq<WiredEvent>) -> Seq<(WiredEvent, WiredStep)>
    decreases evs.len(),
{
    if evs.len() == 0 {
        Seq::empty()
    } else {
        let rest = wired_trace(wired_next(v, evs[0]), evs.drop_first());
        match wired_emits(v, evs[0]) {
            Some(s) => seq![(evs[0], s)] + rest,
            None => rest,
        }
    }
}

/// The step handed out just before the `i`-th of `tr`; `first` is the one
/// handed out before the trace began.
pub open spec fn step_before(first: WiredStep, tr: Seq<(WiredEvent, WiredStep)>, i: int) -> WiredStep {
    if i == 0 {
        first
    } else {
        tr[i - 1].1
    }
}

/// Every `adb forward` in `tr` answers the successful save of a record, and
/// that record — the step handed out just before it — names the port the
/// forward creates, on `serial`.
pub open spec fn forwards_follow_saved_records(serial: Seq<char>, first: WiredStep, tr: Seq<(WiredEvent, WiredStep)>) -> bool {
    forall|i: int|
        0 <= i < tr.len() && (#[trigger] tr[i]).1 is Forward ==> tr[i].0 == WiredEvent::Saved(true) && (step_before(
            first,
            tr,
            i,
        ) matches WiredStep::Record(s, p) && s == serial && tr[i].1 == WiredStep::Forward(forward_spec(p)))
}

proof fn lemma_trace_forwards(v: WiredSetupView, first: WiredStep, evs: Seq<WiredEvent>)
    requires
        v.phase != WiredPhase::Finished ==> v.index < v.ports.len(),
        v.phase == WiredPhase::AwaitSave ==> first == WiredStep::Record(v.serial, v.ports[v.index as int]),
    ensures
        forwards_follow_saved_records(v.serial, first, wired_trace(v, evs)),
    decreases evs.len(),
{
    if evs.len() > 0 {
        let e = evs[0];
        let w = wired_next(v, e);
        let rest = evs.drop_first();
        match wired_emits(v, e) {
            None => {
                assert(w == v);
                lemma_trace_forwards(w, first, rest);
            },
            Some(s) => {
                lemma_trace_forwards(w, s, rest);
                let tr = wired_trace(v, evs);
                let tail = wired_trace(w, rest);
                assert(tr == seq![(e, s)] + tail);
                assert forall|i: int| 0 <= i < tr.len() && (#[trigger] tr[i]).1 is Forward implies tr[i].0
                    == WiredEvent::Saved(true) && (step_before(first, tr, i) matches WiredStep::Record(sr, p) && sr
                    == v.serial && tr[i].1 == WiredStep::Forward(forward_spec(p))) by {
                    if i > 0 {
                        assert(tr[i] == tail[i - 1]);
                        assert(step_before(first, tr, i) == step_before(s, tail, i - 1));
                    }
                }
            },
        }
    }
}

/// Write before mutate, over a whole run: from the start that names the
/// first port, whatever the outside work answers, every `adb forward` the
/// setup asks for is its answer to the successful save of the record handed
/// out just before it, and that record names the forward's own port.
pub proof fn lemma_every_forward_follows_its_saved_record(serial: Seq<char>, ports: Seq<u16>, evs: Seq<WiredEvent>)
    requires
        ports.len() > 0,
    ensures
        forwards_follow_saved_records(
            serial,
            WiredStep::Record(serial, ports[0]),
            wired_trace(WiredSetupView { serial, ports, index: 0, phase: WiredPhase::AwaitSave }, evs),
        ),
{
    lemma_trace_forwards(
        WiredSetupView { serial, ports, index: 0, phase: WiredPhase::AwaitSave },
        WiredStep::Record(serial, ports[0]),
        evs,
    );
}

impl WiredSetup {
    /// The setup's internal consistency: the rendered forwards match the
    /// ports, and an unfinished setup works on an existing port.
    pub closed spec fn wf(&self) -> bool {
        &&& self.specs@.len() == self.ports@.len()
        &&& forall|i: int| 0 <= i < self.ports@.len() ==> #[trigger] self.specs@[i]@ == forward_spec(self.ports@[i])
        &&& self.phase != WiredPhase::Finished ==> self.index < self.ports@.len()
    }

    /// Start the setup on `serial` once the device probe found it: the first
    /// port's record is handed out; with no ports at all, the setup is
    /// already up.
    pub fn start(serial: String, ports: &Vec<u16>) -> (r: (WiredSetup, WiredAction))
        ensures
            r.0.wf(),
            r.0@.serial == serial@,
            r.0@.ports == ports@,
            r.0@.index == 0,
            ports@.len() > 0 ==> r.0@.phase == WiredPhase::AwaitSave && wired_step_view(r.1) == WiredStep::Record(
                serial@,
                ports@[0],
            ),
            ports@.len() == 0 ==> r.0@.phase == WiredPhase::Finished && wired_step_view(r.1) == WiredStep::Up(
                wired_up_line(r.0@),
            ),
    {
        let specs = stream_forward_specs(ports);
        let mut ps: Vec<u16> = Vec::new();
        let mut i: usize = 0;
        while i < ports.len()
            invariant
                i <= ports@.len(),
                ps@ == ports@.take(i as int),
            decreases ports.len() - i,
        {
            ps.push(ports[i]);
            proof {
                assert(ports@.take(i + 1) =~= ports@.take(i as int).push(ports@[i as int]));
            }
            i = i + 1;
        }
        assert(ports@.take(i as int) =~= ports@);
        if ports.len() == 0 {
            let line = wired_forwards_up_line(&specs, serial.as_str());
            let setup = WiredSetup { serial, ports: ps, specs, index: 0, phase: WiredPhase::Finished };
            proof {
                assert(setup.specs@.map_values(|x: String| x@) =~= setup.ports@.map_values(
                    |p: u16| forward_spec(p),
                ));
            }
            (setup, WiredAction::Up(line))
        } else {
            let first = WiredForward { serial: serial.clone(), port: ps[0] };
            let setup = WiredSetup { serial, ports: ps, specs, index: 0, phase: WiredPhase::AwaitSave };
            (setup, WiredAction::Record(first))
        }
    }

    /// The record naming the current port was saved (`ok`) or not. Only a
    /// saved record lets its forward run; a failed save rolls back.
    pub fn saved(&mut self, ok: bool) -> (a: WiredAction)
        requires
            old(self).wf(),
            old(self)@.phase == WiredPhase::AwaitSave,
        ensures
            final(self).wf(),
            final(self)@ == wired_next(old(self)@, WiredEvent::Saved(ok)),
            Some(wired_step_view(a)) == wired_emits(old(self)@, WiredEvent::Saved(ok)),
    {
        if ok {
            self.phase = WiredPhase::AwaitForward;
            let local = self.specs[self.index].clone();
            WiredAction::Forward(local)
        } else {
            self.phase = WiredPhase::Finished;
            WiredAction::RollBack(WiredFailure::SaveFailed)
        }
    }

    /// The current port's `adb forward` ended with `outcome`. Success moves on
    /// to the next port's record, or reports every port up; anything else
    /// rolls back.
    pub fn forwarded(&mut self, outcome: ForwardOutcome) -> (a: WiredAction)
        requires
            old(self).wf(),
            old(self)@.phase == WiredPhase::AwaitForward,
        ensures
            final(self).wf(),
            final(self)@ == wired_next(old(self)@, WiredEvent::Forwarded(outcome)),
            Some(wired_step_view(a)) == wired_emits(old(self)@, WiredEvent::Forwarded(outcome)),
    {
        match outcome {
            ForwardOutcome::Success => {
                if self.index < self.ports.len() - 1 {
                    self.index = self.index + 1;
                    self.phase = WiredPhase::AwaitSave;
                    WiredAction::Record(WiredForward { serial: self.serial.clone(), port: self.ports[self.index] })
                } else {
                    self.phase = WiredPhase::Finished;
                    let line = wired_forwards_up_line(&self.specs, self.serial.as_str());
                    proof {
                        assert(self.specs@.map_values(|x: String| x@) =~= self.ports@.map_values(
                            |p: u16| forward_spec(p),
                        ));
                    }
                    WiredAction::Up(line)
                }
            },
            ForwardOutcome::ExitFailure => {
                self.phase = WiredPhase::Finished;
                WiredAction::RollBack(
                    WiredFailure::Die(wired_forward_failed_die(self.specs[self.index].as_str(), self.serial.as_str())),
                )
            },
            ForwardOutcome::SpawnError => {
                self.phase = WiredPhase::Finished;
                WiredAction::RollBack(
                    WiredFailure::DieWithCause(
                        wired_forward_failed_die(self.specs[self.index].as_str(), self.serial.as_str()),
                    ),
                )
            },
            ForwardOutcome::Cancelled => {
                self.phase = WiredPhase::Finished;
                WiredAction::RollBack(WiredFailure::Cancelled)
            },
        }
    }
}

// ── 2. wineserver reset ─────────────────────────────────────────────────────

/// One survivor as `pgrep -lf … | tr '\n' ' '` shows it: `<pid> <exe name> `,
/// with `fallback` for an exe path that has no file name.
pub open spec fn survivor_entry(p: ProcInfo, fallback: Seq<char>) -> Seq<char> {
    let name = match path_file_name(p.exe@) {
        Some(n) => n,
        None => fallback,
    };
    decimal(p.pid as nat) + " "@ + name + " "@
}

/// Every survivor's entry, in order.
pub open spec fn survivors_text(ps: Seq<ProcInfo>, fallback: Seq<char>) -> Seq<char>
    decreases ps.len(),
{
    if ps.len() == 0 {
        Seq::empty()
    } else {
        survivors_text(ps.drop_last(), fallback) + survivor_entry(ps.last(), fallback)
    }
}

/// `"<pid> <exe-basename> "` per process — the shape of
/// `pgrep -lf wineserver | tr '\n' ' '`.
pub fn format_survivors(procs: &Vec<ProcInfo>, fallback: &str) -> (s: String)
    ensures
        s@ == survivors_text(procs@, fallback@),
{
    let mut s = String::new();
    let mut i: usize = 0;
    while i < procs.len()
        invariant
            i <= procs@.len(),
            s@ == survivors_text(procs@.take(i as int), fallback@),
        decreases procs.len() - i,
    {
        let p = &procs[i];
        let pid = u64_to_string(p.pid as u64);
        s.append(pid.as_str());
        s.append(" ");
        match file_name(p.exe.as_str()) {
            Some(n) => s.append(n.as_str()),
            None => s.append(fallback),
        }
        s.append(" ");
        proof {
            assert(procs@.take(i + 1).drop_last() =~= procs@.take(i as int));
        }
        i = i + 1;
    }
    assert(procs@.take(i as int) =~= procs@);
    s
}

/// run.sh:135's warn: `wineserver still alive after 5s: <survivors>`.
pub fn wineserver_still_alive_warn(survivors: &str) -> (s: String)
    ensures
        s@ == "wineserver still alive after "@ + decimal(RUN_WINESERVER_WAIT_SECS as nat) + "s: "@
            + survivors@,
{
    let mut s = String::from_str("wineserver still alive after ");
    let secs = u64_to_string(RUN_WINESERVER_WAIT_SECS);
    s.append(secs.as_str());
    s.append("s: ");
    s.append(survivors);
    s
}

/// run.sh:136's die, verbatim.
/// run.sh's `ok` once the bottle's wineserver is down.
pub const WINESERVER_DOWN: &'static str = "wineserver down";

/// The section `wineserver-reset` opens.
pub fn wineserver_section_title(bottle_name: &str) -> (s: String)
    ensures
        s@ == "resetting wineserver for bottle '"@ + bottle_name@ + "'"@,
{
    let mut s = String::from_str("resetting wineserver for bottle '");
    s.append(bottle_name);
    s.append("'");
    s
}

pub const WINESERVER_MANUAL_KILL_DIE: &'static str =
    "kill the listed wineserver(s) manually, then re-run";

/// How `wineserver-reset` ends: `present` says whether CrossOver's
/// `wineserver` exists on this machine (the shell's empty `$WINESERVER`
/// "runs", fails silently and reaches `ok` anyway); `timed_out` whether the
/// bounded `-w` wait ran out; `survivors` the rendered survivor list. The
/// rows, then the die when the wait timed out — a timeout is fatal here.
pub fn wineserver_reset_outcome(present: bool, timed_out: bool, survivors: &str) -> (r: (Vec<(Severity, String)>, Option<Die>))
    ensures
        !(present && timed_out) ==> rows_view(r.0@) == seq![(Severity::Success, WINESERVER_DOWN@)] && r.1 is None,
        present && timed_out ==> rows_view(r.0@) == seq![
            (
                Severity::Warn,
                "wineserver still alive after "@ + decimal(RUN_WINESERVER_WAIT_SECS as nat) + "s: "@ + survivors@,
            ),
        ] && die_view(r.1) == Some((WINESERVER_MANUAL_KILL_DIE@, None::<Seq<char>>)),
{
    if present && timed_out {
        let w = wineserver_still_alive_warn(survivors);
        (one_row((Severity::Warn, w)), bare_die(String::from_str(WINESERVER_MANUAL_KILL_DIE)))
    } else {
        (one_row((Severity::Success, String::from_str(WINESERVER_DOWN))), None)
    }
}

/// `WINEPREFIX=<prefix> wineserver -k` (`kill`) or `-w`: the argument.
pub fn wineserver_arg(kill: bool) -> (s: &'static str)
    ensures
        s@ == if kill {
            "-k"@
        } else {
            "-w"@
        },
{
    if kill {
        "-k"
    } else {
        "-w"
    }
}

// ── 3. Goldberg ─────────────────────────────────────────────────────────────

/// `"$API.orig-steam"` — a suffix on the whole file name, not an extension swap.
pub fn orig_steam_path(api: &str) -> (s: String)
    ensures
        s@ == api@ + ".orig-steam"@,
{
    let mut s = String::from_str(api);
    s.append(".orig-steam");
    s
}

/// Where the game keeps `steam_api64.dll` under its plugin directory.
pub const STEAM_API_PLUGIN_REL: &'static str = "Beat Saber_Data/Plugins/x86_64/steam_api64.dll";

/// Where the game keeps `steam_api64.dll` at its root.
pub const STEAM_API_ROOT_REL: &'static str = "steam_api64.dll";

/// `$BS_DIR/Beat Saber_Data/Plugins/x86_64/steam_api64.dll` when that is a
/// file (`plugin_is_file`), else `$BS_DIR/steam_api64.dll` — returned even
/// when it is absent, so the caller produces run.sh:145's die for it.
pub fn steam_api_path(bs_dir: &str, plugin_is_file: bool) -> (s: String)
    ensures
        s@ == join_path(bs_dir@, if plugin_is_file {
            STEAM_API_PLUGIN_REL@
        } else {
            STEAM_API_ROOT_REL@
        }),
{
    if plugin_is_file {
        join_rel(bs_dir, STEAM_API_PLUGIN_REL)
    } else {
        join_rel(bs_dir, STEAM_API_ROOT_REL)
    }
}

/// The three `steam_settings/` flag files, truncate-created empty (`: >`).
pub const GOLDBERG_FLAG_FILES: [&'static str; 3] = [
    "offline.txt",
    "disable_networking.txt",
    "disable_overlay.txt",
];

/// run.sh:145's die.
pub fn steam_api_missing_die(bs_dir: &str) -> (s: String)
    ensures
        s@ == "steam_api64.dll not found under "@ + bs_dir@
            + " — is this a complete Beat Saber install?"@,
{
    let mut s = String::from_str("steam_api64.dll not found under ");
    s.append(bs_dir);
    s.append(" — is this a complete Beat Saber install?");
    s
}

/// run.sh:148's `info`, verbatim.
pub const GOLDBERG_ALREADY_INSTALLED: &'static str = "goldberg already installed";

/// run.sh:149's `ok`.
pub fn goldberg_installed_line(api: &str) -> (s: String)
    ensures
        s@ == "installed goldberg -> "@ + api@,
{
    let mut s = String::from_str("installed goldberg -> ");
    s.append(api);
    s
}

/// What the Goldberg stage does about `<api>.orig-steam`, the only copy of
/// the real Steam dll on the machine.
#[derive(Debug, Clone, Copy, PartialEq, Eq, Structural)]
pub enum BackupAction {
    /// A usable backup is already there: it is never refreshed.
    Keep,
    /// Something that is not a regular file holds the reserved name: refuse
    /// before touching the live dll.
    Refuse,
    /// No backup yet: copy the live dll to it once.
    Mint,
}

/// The backup decision from what occupies the reserved name: a regular file
/// (`backup_is_file`), something else (`backup_exists`), or nothing.
pub fn backup_action(backup_is_file: bool, backup_exists: bool) -> (a: BackupAction)
    ensures
        backup_is_file ==> a == BackupAction::Keep,
        !backup_is_file && backup_exists ==> a == BackupAction::Refuse,
        !backup_is_file && !backup_exists ==> a == BackupAction::Mint,
{
    if backup_is_file {
        BackupAction::Keep
    } else if backup_exists {
        BackupAction::Refuse
    } else {
        BackupAction::Mint
    }
}

/// The refusal when the reserved backup name is not a regular file: the
/// message, and the remedy that clears it.
pub fn backup_refusal(backup: &str) -> (r: (String, String))
    ensures
        r.0@ == backup@
            + " is not a regular file — it is the reserved name for the original steam_api64.dll, and Sabrage will not install Goldberg over the live dll without a usable backup"@,
        r.1@ == "move or delete "@ + backup@,
{
    let mut m = String::from_str(backup);
    m.append(
        " is not a regular file — it is the reserved name for the original steam_api64.dll, and Sabrage will not install Goldberg over the live dll without a usable backup",
    );
    let mut r = String::from_str("move or delete ");
    r.append(backup);
    (m, r)
}

/// The warn when the backup just minted is itself a copy of Goldberg.
pub fn backup_is_goldberg_warn(backup: &str) -> (s: String)
    ensures
        s@ == "steam_api64.dll was already the Goldberg build, so "@ + backup@
            + " is a copy of Goldberg — the real Steam dll was never seen here and cannot be restored"@,
{
    let mut s = String::from_str("steam_api64.dll was already the Goldberg build, so ");
    s.append(backup);
    s.append(
        " is a copy of Goldberg — the real Steam dll was never seen here and cannot be restored",
    );
    s
}

/// Whether `adb-reverse-cleanup` runs: only under `protocol = "alvr"`, and
/// only with adb on the machine (then a device must still be found).
pub fn reverse_cleanup_due(protocol: &str, adb_present: bool) -> (r: bool)
    ensures
        r == (protocol@ == "alvr"@ && adb_present),
{
    adb_present && chars_eq_str(&str_chars(protocol), "alvr")
}

/// `adb -s <serial> reverse --remove-all`'s arguments — correct for reverse
/// tunnels, which the ALVR client owns, unlike `forward --remove-all`.
pub fn reverse_cleanup_args(serial: &str) -> (v: Vec<String>)
    ensures
        strings_view(v@) == seq!["-s"@, serial@, "reverse"@, "--remove-all"@],
{
    let mut v: Vec<String> = Vec::new();
    v.push(String::from_str("-s"));
    v.push(String::from_str(serial));
    v.push(String::from_str("reverse"));
    v.push(String::from_str("--remove-all"));
    assert(strings_view(v@) =~= seq!["-s"@, serial@, "reverse"@, "--remove-all"@]);
    v
}

// ── 6. adb reverse cleanup ──────────────────────────────────────────────────

/// run.sh:222's `info`.
pub fn adb_reverse_cleared_line(serial: &str) -> (s: String)
    ensures
        s@ == "Quest "@ + serial@ + ": cleared adb reverse tunnels (ALVR manages its own)"@,
{
    let mut s = String::from_str("Quest ");
    s.append(serial);
    s.append(": cleared adb reverse tunnels (ALVR manages its own)");
    s
}

// ── 7. launch ───────────────────────────────────────────────────────────────

/// `WINEDEBUG` as run.sh exports it: the caller's non-empty preset wins in
/// both branches; otherwise the branch's default.
pub open spec fn wine_debug(verbose: bool, inherited: Option<Seq<char>>) -> Seq<char> {
    let preset = match inherited {
        Some(v) => v,
        None => Seq::empty(),
    };
    if preset.len() > 0 {
        preset
    } else if verbose {
        "fixme-all,+openxr"@
    } else {
        "-all"@
    }
}

/// The caller's preset `WINEDEBUG` wins whether or not `--verbose` was given,
/// and an empty preset counts as unset.
pub proof fn lemma_winedebug_preset_wins(v: Seq<char>, verbose: bool)
    ensures
        v.len() > 0 ==> wine_debug(verbose, Some(v)) == v,
        wine_debug(verbose, Some(Seq::empty())) == wine_debug(verbose, None),
{
}

/// The launch environment — run.sh lines 242–248, in export order.
pub fn wine_env(verbose: bool, inherited_winedebug: Option<&str>, appid: u64, runtime_json: &str) -> (env: Vec<(String, String)>)
    ensures
        env@.len() == 5,
        env@[0].0@ == "XR_RUNTIME_JSON"@ && env@[0].1@ == runtime_json@,
        env@[1].0@ == "CX_GRAPHICS_BACKEND"@ && env@[1].1@ == "dxmt"@,
        env@[2].0@ == "WINEDEBUG"@ && env@[2].1@ == wine_debug(
            verbose,
            match inherited_winedebug {
                Some(v) => Some(v@),
                None => None,
            },
        ),
        env@[3].0@ == "SteamAppId"@ && env@[3].1@ == decimal(appid as nat),
        env@[4].0@ == "SteamGameId"@ && env@[4].1@ == decimal(appid as nat),
{
    let winedebug = match inherited_winedebug {
        Some(v) => {
            if v.unicode_len() > 0 {
                String::from_str(v)
            } else if verbose {
                String::from_str("fixme-all,+openxr")
            } else {
                String::from_str("-all")
            }
        },
        None => {
            if verbose {
                String::from_str("fixme-all,+openxr")
            } else {
                String::from_str("-all")
            }
        },
    };
    let mut env: Vec<(String, String)> = Vec::new();
    env.push((String::from_str("XR_RUNTIME_JSON"), String::from_str(runtime_json)));
    env.push((String::from_str("CX_GRAPHICS_BACKEND"), String::from_str("dxmt")));
    env.push((String::from_str("WINEDEBUG"), winedebug));
    env.push((String::from_str("SteamAppId"), u64_to_string(appid)));
    env.push((String::from_str("SteamGameId"), u64_to_string(appid)));
    env
}

/// The banner headline, rendered `-- <title>`.
pub const BANNER_TITLE: &'static str = "launching Beat Saber through the bridge";

/// run.sh's launch argv: `"$WINE" --bottle "$WINEVR_BOTTLE" --no-update
/// --cx-app "$BS_WIN"`, with the bare name `wine` standing in for a machine
/// without CrossOver (what the shell's empty `"$WINE"` amounts to).
pub fn wine_command(wine: &Option<String>, bottle_name: &str, bs_win: &str) -> (r: (String, Vec<String>))
    ensures
        r.0@ == match wine {
            Some(w) => w@,
            None => "wine"@,
        },
        strings_view(r.1@) == seq!["--bottle"@, bottle_name@, "--no-update"@, "--cx-app"@, bs_win@],
{
    let program = match wine {
        Some(w) => w.clone(),
        None => String::from_str("wine"),
    };
    let mut args: Vec<String> = Vec::new();
    args.push(String::from_str("--bottle"));
    args.push(String::from_str(bottle_name));
    args.push(String::from_str("--no-update"));
    args.push(String::from_str("--cx-app"));
    args.push(String::from_str(bs_win));
    assert(strings_view(args@) =~= seq!["--bottle"@, bottle_name@, "--no-update"@, "--cx-app"@, bs_win@]);
    (program, args)
}

/// run.sh lines 252–260, one entry per banner line; entry 1 is the headline.
pub open spec fn banner_lines(bottle_name: Seq<char>, bs_win: Seq<char>, log: Seq<char>) -> Seq<
    Seq<char>,
> {
    seq![
        Seq::empty(),
        BANNER_TITLE@,
        "   put the headset ON and open the ALVR client; first frame can take ~30s."@,
        "   pause in-game = X/A button or the Quest system button"@,
        "   (the left-menu-button pause is a Beat Saber/Unity limitation on every OpenXR runtime)"@,
        "   stop: Ctrl-C here, or ./demo.sh stop --bottle "@ + bottle_name + " from another shell"@,
        "   exe: "@ + bs_win,
        "   log: "@ + log,
        Seq::empty(),
    ]
}

/// `ev` is a text row of run `run_id` on the launch step, reading `text`.
pub open spec fn is_launch_text(ev: StageEvent, run_id: RunId, text: Seq<char>) -> bool {
    ev matches StageEvent::Text { run_id: r, step: Some(s), text: t } && r == run_id && s@
        == step::RUN_LAUNCH@ && t@ == text
}

fn launch_text(run_id: RunId, text: String) -> (ev: StageEvent)
    ensures
        is_launch_text(ev, run_id, text@),
{
    StageEvent::Text { run_id, step: Some(String::from_str(step::RUN_LAUNCH)), text }
}

/// run.sh lines 252–260 as the exact event sequence: the headline is the one
/// section, every other line is verbatim text on the launch step.
pub fn banner_events(run_id: RunId, bottle_name: &str, bs_win: &str, log: &str) -> (v: Vec<StageEvent>)
    ensures
        v@.len() == 9,
        v@[1] matches StageEvent::Section { run_id: r, title } && r == run_id && title@ == BANNER_TITLE@,
        forall|i: int|
            0 <= i < 9 && i != 1 ==> #[trigger] is_launch_text(
                v@[i],
                run_id,
                banner_lines(bottle_name@, bs_win@, log@)[i],
            ),
{
    let mut stop = String::from_str("   stop: Ctrl-C here, or ./demo.sh stop --bottle ");
    stop.append(bottle_name);
    stop.append(" from another shell");
    let mut exe = String::from_str("   exe: ");
    exe.append(bs_win);
    let mut log_line = String::from_str("   log: ");
    log_line.append(log);
    let mut v: Vec<StageEvent> = Vec::new();
    v.push(launch_text(run_id, String::new()));
    v.push(StageEvent::Section { run_id, title: String::from_str(BANNER_TITLE) });
    v.push(
        launch_text(
            run_id,
            String::from_str(
                "   put the headset ON and open the ALVR client; first frame can take ~30s.",
            ),
        ),
    );
    v.push(
        launch_text(
            run_id,
            String::from_str("   pause in-game = X/A button or the Quest system button"),
        ),
    );
    v.push(
        launch_text(
            run_id,
            String::from_str(
                "   (the left-menu-button pause is a Beat Saber/Unity limitation on every OpenXR runtime)",
            ),
        ),
    );
    v.push(launch_text(run_id, stop));
    v.push(launch_text(run_id, exe));
    v.push(launch_text(run_id, log_line));
    v.push(launch_text(run_id, String::new()));
    proof {
        let ls = banner_lines(bottle_name@, bs_win@, log@);
        assert(ls[0] =~= Seq::<char>::empty());
        assert(ls[8] =~= Seq::<char>::empty());
    }
    v
}

/// The corrected `   log: <path>` row after a spawn lost the `create_new`
/// race and took the next name, so the printed path is never a lie.
pub fn relaunch_log_line(log: &str) -> (s: String)
    ensures
        s@ == "   log: "@ + log@,
{
    let mut s = String::from_str("   log: ");
    s.append(log);
    s
}

/// Whether the log-name search stops at `attempt`: the candidate is free, or
/// the attempt budget is spent and the spawn's own `EEXIST` will speak.
pub open spec fn log_search_done(attempt: u32, candidate_exists: bool) -> bool {
    attempt + 1 >= LOG_NAME_ATTEMPTS || !candidate_exists
}

/// One step of the `beatsaber-<ts>[-n].log` search: `Some(next attempt)` to
/// keep probing, `None` to take the candidate at `attempt`.
pub fn next_log_attempt(attempt: u32, candidate_exists: bool) -> (r: Option<u32>)
    requires
        attempt < LOG_NAME_ATTEMPTS,
    ensures
        r is None <==> log_search_done(attempt, candidate_exists),
        r matches Some(n) ==> n == attempt + 1 && n < LOG_NAME_ATTEMPTS,
{
    if attempt + 1 >= LOG_NAME_ATTEMPTS || !candidate_exists {
        None
    } else {
        Some(attempt + 1)
    }
}

/// Whether a spawn that lost the `create_new` race on `attempt` may take the
/// next candidate.
pub fn spawn_retry_allowed(attempt: u32) -> (r: bool)
    ensures
        r == (attempt + 1 < LOG_NAME_ATTEMPTS),
{
    attempt < LOG_NAME_ATTEMPTS - 1
}

/// How a detached spawn of wine failed, as far as the launch cares.
#[derive(Debug, Clone, Copy, PartialEq, Eq, Structural)]
pub enum SpawnFailure {
    /// The log file's `create_new` found the name taken (`EEXIST`).
    AlreadyExists,
    /// Stop landed.
    Cancelled,
    /// Any other failure.
    Other,
}

/// True for the `EEXIST` a detached spawn raises when the chosen log name was
/// taken between the probe and the open.
pub fn is_already_exists(f: SpawnFailure) -> (r: bool)
    ensures
        r == (f == SpawnFailure::AlreadyExists),
{
    match f {
        SpawnFailure::AlreadyExists => true,
        _ => false,
    }
}

/// Whether a failed spawn on `attempt` is retried with the next log name:
/// only an `EEXIST`, and only while names are left; anything else is the
/// launch's error.
pub fn spawn_retry(f: SpawnFailure, attempt: u32) -> (r: bool)
    ensures
        r == (f == SpawnFailure::AlreadyExists && attempt + 1 < LOG_NAME_ATTEMPTS),
{
    is_already_exists(f) && spawn_retry_allowed(attempt)
}

} // verus!
