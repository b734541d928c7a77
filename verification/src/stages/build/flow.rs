//! `demo.sh build`'s flow as steps: the gates, then oxrsys, the arm64
//! encoder helper (built, arch-gated, staged, and repaired when the staged
//! copy is not an executable arm64 binary), wineopenxr and the ALVR
//! dashboard, then the output sweep — each step taking what the outside work
//! answered and saying what to print and what to run next.

use vstd::prelude::*;

use crate::events::Severity;
use crate::stages::build::{
    helper_missing_binary_message, helper_repaired_line, helper_source_gate, helper_wrong_arch_message,
    missing_output_message, narrate_built, rustup_has_target, staged_helper_unusable_message, tool_gate_message,
    HelperSourceGate, ALL_OUTPUTS_PRESENT, DASHBOARD_BUILDING, DASHBOARD_BUILD_FAILED_MESSAGE, DASHBOARD_BUILT,
    HELPER_BUILDING, HELPER_BUILT, OUTPUTS_SWEEP_SKIPPED, OXRSYS_BUILDING, OXRSYS_BUILT, REQUIRED_TOOLS,
    RUSTUP_TARGET_MISSING_MESSAGE, SUBMODULES_NOT_INITIALIZED_MESSAGE, WINEOPENXR_BUILDING, WINEOPENXR_BUILT,
};
use crate::stages::{bare_die, no_rows, rows_view, step_view, StepAction};
use crate::text::{contains_str, opt_view};

verus! {

/// Where a build stands.
#[derive(Debug, Clone, Copy, PartialEq, Eq, Structural)]
pub enum BuildPhase {
    /// Waiting for the tool, rustup and submodule gates.
    Gates,
    OxrsysConfigure,
    OxrsysBuild,
    HelperConfigure,
    HelperBuild,
    /// Waiting for what the helper build produced.
    HelperSource,
    /// Waiting for the helper's copy next to the runtime dylib.
    HelperCopy,
    /// Waiting for whether the staged copy is an executable arm64 binary.
    HelperStaged,
    /// Waiting for the staged copy's removal and re-copy.
    HelperRepair,
    /// Waiting for whether the re-copy is an executable arm64 binary.
    HelperRepairCheck,
    WineopenxrConfigure,
    WineopenxrBuild,
    Dashboard,
    /// Waiting for the output sweep.
    Outputs,
    Done,
    Failed,
}

/// A tree the build configures and builds with cmake.
#[derive(Debug, Clone, Copy, PartialEq, Eq, Structural)]
pub enum BuildTarget {
    Oxrsys,
    Helper,
    Wineopenxr,
}

/// One answer the build gets back.
#[derive(Debug, Clone, PartialEq, Eq)]
pub enum BuildEvent {
    /// Whether `cmake`, `ninja` and `x86_64-w64-mingw32-gcc` resolved on the
    /// search path; `rustup target list --installed`'s output (`None` when
    /// rustup is missing or could not run); whether `oxrsys/runtime` is a
    /// directory.
    Gated { cmake: bool, ninja: bool, mingw: bool, rustup_listing: Option<String>, runtime_is_dir: bool },
    /// The child ran and exited zero or not.
    ChildDone(bool),
    /// The child could not be run, or stop landed: that error travels.
    ChildError,
    /// The built helper: a file? arm64? and `lipo -archs`' output.
    HelperBuilt { is_file: bool, is_arm64: bool, lipo_archs: String },
    /// The copy next to the runtime dylib failed (`ok` false), or copied
    /// bytes (`copied`) or found them unchanged.
    HelperCopied { ok: bool, copied: bool },
    /// Whether the staged copy is an executable arm64 binary, and `lipo`'s
    /// output for it.
    StagedChecked { is_arm64: bool, lipo_archs: String },
    /// The staged copy's removal and re-copy succeeded or not.
    Repaired(bool),
    /// The first missing build output, or `None`.
    OutputsChecked(Option<String>),
}

/// The outside work the build asks for.
#[derive(Debug, Clone, Copy, PartialEq, Eq, Structural)]
pub enum BuildWork {
    /// `cmake -S … -B …` for the target.
    Configure(BuildTarget),
    /// `cmake --build …` for the target.
    Build(BuildTarget),
    CheckHelper,
    CopyHelper,
    CheckStaged,
    RepairStaged,
    /// `cargo build -p alvr_dashboard --release` in `ext/ALVR`.
    CargoDashboard,
    CheckOutputs,
    Fail,
    Die,
    Finish,
}

/// A build in progress.
pub struct BuildSetup {
    pub phase: BuildPhase,
    pub dry_run: bool,
    /// The helper as the build leaves it.
    pub helper_built: String,
    /// The helper's build directory.
    pub helper_build_dir: String,
    /// The helper staged next to the runtime dylib.
    pub staged: String,
}

/// A build step's narration: `ok(built)`, or `info(would)` on a dry run.
pub open spec fn narrated(dry_run: bool, pair: (&'static str, &'static str)) -> (Severity, Seq<char>) {
    if dry_run {
        (Severity::Info, pair.1@)
    } else {
        (Severity::Success, pair.0@)
    }
}

/// The tool gate's die: the first of the three tools that did not resolve.
pub open spec fn tool_gate_spec(cmake: bool, ninja: bool, mingw: bool) -> Option<Seq<char>> {
    if !cmake {
        Some(REQUIRED_TOOLS[0]@ + " missing — brew install cmake ninja mingw-w64"@)
    } else if !ninja {
        Some(REQUIRED_TOOLS[1]@ + " missing — brew install cmake ninja mingw-w64"@)
    } else if !mingw {
        Some(REQUIRED_TOOLS[2]@ + " missing — brew install cmake ninja mingw-w64"@)
    } else {
        None
    }
}

/// The rows that close the helper's staging and open wineopenxr's build.
pub open spec fn helper_done_rows(dry_run: bool) -> Seq<(Severity, Seq<char>)> {
    seq![narrated(dry_run, HELPER_BUILT), (Severity::Info, WINEOPENXR_BUILDING@)]
}

/// The row after the helper's copy.
pub open spec fn helper_copy_row(dry_run: bool, copied: bool, staged: Seq<char>) -> (Severity, Seq<char>) {
    if !copied {
        (Severity::Info, "unchanged: "@ + staged)
    } else if dry_run {
        (Severity::Success, "would install: "@ + staged)
    } else {
        (Severity::Success, "installed: "@ + staged)
    }
}

/// What a build step decides: the next phase, the rows, the work, the die.
pub open spec fn build_next(
    phase: BuildPhase,
    dry_run: bool,
    helper_built: Seq<char>,
    helper_build_dir: Seq<char>,
    staged: Seq<char>,
    e: BuildEvent,
) -> (BuildPhase, Seq<(Severity, Seq<char>)>, BuildWork, Option<(Seq<char>, Option<Seq<char>>)>) {
    let none = Seq::<(Severity, Seq<char>)>::empty();
    let fail = (BuildPhase::Failed, none, BuildWork::Fail, None);
    if phase == BuildPhase::Done || phase == BuildPhase::Failed {
        (phase, none, BuildWork::Finish, None)
    } else if e == BuildEvent::ChildError && phase != BuildPhase::Gates && phase != BuildPhase::HelperSource
        && phase != BuildPhase::HelperCopy && phase != BuildPhase::HelperStaged && phase != BuildPhase::HelperRepair
        && phase != BuildPhase::HelperRepairCheck && phase != BuildPhase::Outputs {
        fail
    } else {
        match (phase, e) {
            (BuildPhase::Gates, BuildEvent::Gated { cmake, ninja, mingw, rustup_listing, runtime_is_dir }) =>
                if tool_gate_spec(cmake, ninja, mingw) is Some {
                (BuildPhase::Failed, none, BuildWork::Die, Some((tool_gate_spec(cmake, ninja, mingw)->0, None)))
            } else if !(opt_view(rustup_listing) matches Some(l) && contains_str(l, "x86_64-apple-darwin"@)) {
                (BuildPhase::Failed, none, BuildWork::Die, Some((RUSTUP_TARGET_MISSING_MESSAGE@, None)))
            } else if !runtime_is_dir {
                (BuildPhase::Failed, none, BuildWork::Die, Some((SUBMODULES_NOT_INITIALIZED_MESSAGE@, None)))
            } else {
                (
                    BuildPhase::OxrsysConfigure,
                    seq![(Severity::Info, OXRSYS_BUILDING@)],
                    BuildWork::Configure(BuildTarget::Oxrsys),
                    None,
                )
            },
            (BuildPhase::OxrsysConfigure, BuildEvent::ChildDone(ok)) => if ok {
                (BuildPhase::OxrsysBuild, none, BuildWork::Build(BuildTarget::Oxrsys), None)
            } else {
                fail
            },
            (BuildPhase::OxrsysBuild, BuildEvent::ChildDone(ok)) => if ok {
                (
                    BuildPhase::HelperConfigure,
                    seq![narrated(dry_run, OXRSYS_BUILT), (Severity::Info, HELPER_BUILDING@)],
                    BuildWork::Configure(BuildTarget::Helper),
                    None,
                )
            } else {
                fail
            },
            (BuildPhase::HelperConfigure, BuildEvent::ChildDone(ok)) => if ok {
                (BuildPhase::HelperBuild, none, BuildWork::Build(BuildTarget::Helper), None)
            } else {
                fail
            },
            (BuildPhase::HelperBuild, BuildEvent::ChildDone(ok)) => if ok {
                (BuildPhase::HelperSource, none, BuildWork::CheckHelper, None)
            } else {
                fail
            },
            (BuildPhase::HelperSource, BuildEvent::HelperBuilt { is_file, is_arm64, lipo_archs }) => if !dry_run
                && !is_file {
                (
                    BuildPhase::Failed,
                    none,
                    BuildWork::Die,
                    Some(("encoder helper build produced no binary at "@ + helper_built, None)),
                )
            } else if !dry_run && !is_arm64 {
                (
                    BuildPhase::Failed,
                    none,
                    BuildWork::Die,
                    Some(
                        (
                            "encoder helper is not an arm64 executable ("@ + lipo_archs@ + ") — delete "@
                                + helper_build_dir + " and re-run ./demo.sh build"@,
                            None,
                        ),
                    ),
                )
            } else {
                (BuildPhase::HelperCopy, none, BuildWork::CopyHelper, None)
            },
            (BuildPhase::HelperCopy, BuildEvent::HelperCopied { ok, copied }) => if !ok {
                fail
            } else if dry_run {
                (
                    BuildPhase::WineopenxrConfigure,
                    seq![helper_copy_row(dry_run, copied, staged)] + helper_done_rows(dry_run),
                    BuildWork::Configure(BuildTarget::Wineopenxr),
                    None,
                )
            } else {
                (BuildPhase::HelperStaged, seq![helper_copy_row(dry_run, copied, staged)], BuildWork::CheckStaged, None)
            },
            (BuildPhase::HelperStaged, BuildEvent::StagedChecked { is_arm64, lipo_archs }) => if is_arm64 {
                (
                    BuildPhase::WineopenxrConfigure,
                    helper_done_rows(dry_run),
                    BuildWork::Configure(BuildTarget::Wineopenxr),
                    None,
                )
            } else {
                (BuildPhase::HelperRepair, none, BuildWork::RepairStaged, None)
            },
            (BuildPhase::HelperRepair, BuildEvent::Repaired(ok)) => if ok {
                (BuildPhase::HelperRepairCheck, none, BuildWork::CheckStaged, None)
            } else {
                fail
            },
            (BuildPhase::HelperRepairCheck, BuildEvent::StagedChecked { is_arm64, lipo_archs }) => if is_arm64 {
                (
                    BuildPhase::WineopenxrConfigure,
                    seq![
                        (
                            Severity::Success,
                            "repaired: "@ + staged + " (the staged copy was not an executable arm64 binary)"@,
                        ),
                    ] + helper_done_rows(dry_run),
                    BuildWork::Configure(BuildTarget::Wineopenxr),
                    None,
                )
            } else {
                (
                    BuildPhase::Failed,
                    none,
                    BuildWork::Die,
                    Some(
                        (
                            "staged encoder helper is not an arm64 executable ("@ + lipo_archs@ + ") — delete "@
                                + staged + " and re-run ./demo.sh build"@,
                            None,
                        ),
                    ),
                )
            },
            (BuildPhase::WineopenxrConfigure, BuildEvent::ChildDone(ok)) => if ok {
                (BuildPhase::WineopenxrBuild, none, BuildWork::Build(BuildTarget::Wineopenxr), None)
            } else {
                fail
            },
            (BuildPhase::WineopenxrBuild, BuildEvent::ChildDone(ok)) => if ok {
                (
                    BuildPhase::Dashboard,
                    seq![narrated(dry_run, WINEOPENXR_BUILT), (Severity::Info, DASHBOARD_BUILDING@)],
                    BuildWork::CargoDashboard,
                    None,
                )
            } else {
                fail
            },
            (BuildPhase::Dashboard, BuildEvent::ChildDone(ok)) => if !ok {
                (BuildPhase::Failed, none, BuildWork::Die, Some((DASHBOARD_BUILD_FAILED_MESSAGE@, None)))
            } else if dry_run {
                (
                    BuildPhase::Done,
                    seq![narrated(dry_run, DASHBOARD_BUILT), (Severity::Info, OUTPUTS_SWEEP_SKIPPED@)],
                    BuildWork::Finish,
                    None,
                )
            } else {
                (BuildPhase::Outputs, seq![narrated(dry_run, DASHBOARD_BUILT)], BuildWork::CheckOutputs, None)
            },
            (BuildPhase::Outputs, BuildEvent::OutputsChecked(missing)) => match missing {
                Some(p) => (
                    BuildPhase::Failed,
                    none,
                    BuildWork::Die,
                    Some(("expected build output missing: "@ + p@, None)),
                ),
                None => (BuildPhase::Done, seq![(Severity::Success, ALL_OUTPUTS_PRESENT@)], BuildWork::Finish, None),
            },
            // An answer the phase does not wait for changes nothing.
            _ => (phase, none, BuildWork::Fail, None),
        }
    }
}

fn push_row(v: &mut Vec<(Severity, String)>, sev: Severity, t: String)
    ensures
        rows_view(final(v)@) == rows_view(old(v)@).push((sev, t@)),
{
    let ghost before = v@;
    v.push((sev, t));
    assert(rows_view(v@) =~= rows_view(before).push((sev, t@)));
}

fn narrated_row(v: &mut Vec<(Severity, String)>, dry_run: bool, pair: (&'static str, &'static str))
    ensures
        rows_view(final(v)@) == rows_view(old(v)@).push(narrated(dry_run, pair)),
{
    let (sev, t) = narrate_built(dry_run, pair.0, pair.1);
    push_row(v, sev, String::from_str(t));
}

impl BuildSetup {
    pub fn new(dry_run: bool, helper_built: String, helper_build_dir: String, staged: String) -> (s: BuildSetup)
        ensures
            s.phase == BuildPhase::Gates,
            s.dry_run == dry_run,
            s.helper_built == helper_built,
            s.helper_build_dir == helper_build_dir,
            s.staged == staged,
    {
        BuildSetup { phase: BuildPhase::Gates, dry_run, helper_built, helper_build_dir, staged }
    }

    fn go(&mut self, phase: BuildPhase, rows: Vec<(Severity, String)>, work: BuildWork) -> (a: StepAction<BuildWork>)
        ensures
            final(self).phase == phase,
            final(self).dry_run == old(self).dry_run,
            final(self).helper_built == old(self).helper_built,
            final(self).helper_build_dir == old(self).helper_build_dir,
            final(self).staged == old(self).staged,
            step_view(a) == (rows_view(rows@), work, None::<(Seq<char>, Option<Seq<char>>)>),
    {
        self.phase = phase;
        StepAction { rows, work, die: None }
    }

    fn die(&mut self, message: String) -> (a: StepAction<BuildWork>)
        ensures
            final(self).phase == BuildPhase::Failed,
            final(self).dry_run == old(self).dry_run,
            final(self).helper_built == old(self).helper_built,
            final(self).helper_build_dir == old(self).helper_build_dir,
            final(self).staged == old(self).staged,
            step_view(a) == (Seq::<(Severity, Seq<char>)>::empty(), BuildWork::Die, Some((message@, None::<Seq<char>>))),
    {
        self.phase = BuildPhase::Failed;
        StepAction { rows: no_rows(), work: BuildWork::Die, die: bare_die(message) }
    }

    fn helper_done(&mut self, mut rows: Vec<(Severity, String)>) -> (a: StepAction<BuildWork>)
        ensures
            final(self).phase == BuildPhase::WineopenxrConfigure,
            final(self).dry_run == old(self).dry_run,
            final(self).helper_built == old(self).helper_built,
            final(self).helper_build_dir == old(self).helper_build_dir,
            final(self).staged == old(self).staged,
            step_view(a) == (rows_view(rows@) + helper_done_rows(old(self).dry_run), BuildWork::Configure(
                BuildTarget::Wineopenxr,
            ), None::<(Seq<char>, Option<Seq<char>>)>),
    {
        let ghost first = rows_view(rows@);
        narrated_row(&mut rows, self.dry_run, HELPER_BUILT);
        push_row(&mut rows, Severity::Info, String::from_str(WINEOPENXR_BUILDING));
        assert(rows_view(rows@) =~= first + helper_done_rows(self.dry_run));
        self.go(BuildPhase::WineopenxrConfigure, rows, BuildWork::Configure(BuildTarget::Wineopenxr))
    }

    fn child_done(&mut self, ok: bool) -> (a: StepAction<BuildWork>)
        requires
            old(self).phase == BuildPhase::OxrsysConfigure || old(self).phase == BuildPhase::OxrsysBuild
                || old(self).phase == BuildPhase::HelperConfigure || old(self).phase == BuildPhase::HelperBuild
                || old(self).phase == BuildPhase::WineopenxrConfigure || old(self).phase == BuildPhase::WineopenxrBuild
                || old(self).phase == BuildPhase::Dashboard,
        ensures
            ({
                let n = build_next(
                    old(self).phase,
                    old(self).dry_run,
                    old(self).helper_built@,
                    old(self).helper_build_dir@,
                    old(self).staged@,
                    BuildEvent::ChildDone(ok),
                );
                final(self).phase == n.0 && step_view(a) == (n.1, n.2, n.3)
            }),
            final(self).dry_run == old(self).dry_run,
            final(self).helper_built == old(self).helper_built,
            final(self).helper_build_dir == old(self).helper_build_dir,
            final(self).staged == old(self).staged,
    {
        let ph = self.phase;
        if ph == BuildPhase::Dashboard {
            if !ok {
                return self.die(String::from_str(DASHBOARD_BUILD_FAILED_MESSAGE));
            }
            let mut rows = no_rows();
            narrated_row(&mut rows, self.dry_run, DASHBOARD_BUILT);
            if self.dry_run {
                push_row(&mut rows, Severity::Info, String::from_str(OUTPUTS_SWEEP_SKIPPED));
                return self.go(BuildPhase::Done, rows, BuildWork::Finish);
            }
            return self.go(BuildPhase::Outputs, rows, BuildWork::CheckOutputs);
        }
        if !ok {
            return self.go(BuildPhase::Failed, no_rows(), BuildWork::Fail);
        }
        if ph == BuildPhase::OxrsysConfigure {
            self.go(BuildPhase::OxrsysBuild, no_rows(), BuildWork::Build(BuildTarget::Oxrsys))
        } else if ph == BuildPhase::OxrsysBuild {
            let mut rows = no_rows();
            narrated_row(&mut rows, self.dry_run, OXRSYS_BUILT);
            push_row(&mut rows, Severity::Info, String::from_str(HELPER_BUILDING));
            self.go(BuildPhase::HelperConfigure, rows, BuildWork::Configure(BuildTarget::Helper))
        } else if ph == BuildPhase::HelperConfigure {
            self.go(BuildPhase::HelperBuild, no_rows(), BuildWork::Build(BuildTarget::Helper))
        } else if ph == BuildPhase::HelperBuild {
            self.go(BuildPhase::HelperSource, no_rows(), BuildWork::CheckHelper)
        } else if ph == BuildPhase::WineopenxrConfigure {
            self.go(BuildPhase::WineopenxrBuild, no_rows(), BuildWork::Build(BuildTarget::Wineopenxr))
        } else {
            let mut rows = no_rows();
            narrated_row(&mut rows, self.dry_run, WINEOPENXR_BUILT);
            push_row(&mut rows, Severity::Info, String::from_str(DASHBOARD_BUILDING));
            self.go(BuildPhase::Dashboard, rows, BuildWork::CargoDashboard)
        }
    }

    fn gates(&mut self, cmake: bool, ninja: bool, mingw: bool, rustup_listing: Option<String>, runtime_is_dir: bool) -> (a:
        StepAction<BuildWork>)
        requires
            old(self).phase == BuildPhase::Gates,
        ensures
            ({
                let n = build_next(
                    old(self).phase,
                    old(self).dry_run,
                    old(self).helper_built@,
                    old(self).helper_build_dir@,
                    old(self).staged@,
                    BuildEvent::Gated { cmake, ninja, mingw, rustup_listing, runtime_is_dir },
                );
                final(self).phase == n.0 && step_view(a) == (n.1, n.2, n.3)
            }),
            final(self).dry_run == old(self).dry_run,
            final(self).helper_built == old(self).helper_built,
            final(self).helper_build_dir == old(self).helper_build_dir,
            final(self).staged == old(self).staged,
    {
        let resolved = vec![cmake, ninja, mingw];
        match tool_gate_message(&resolved) {
            Some(m) => {
                proof {
                    let i = choose|i: int|
                        0 <= i < 3 && !resolved@[i] && (forall|j: int| 0 <= j < i ==> resolved@[j]) && m@
                            == REQUIRED_TOOLS[i]@ + " missing — brew install cmake ninja mingw-w64"@;
                    assert(i == 0 ==> !cmake);
                    assert(i == 1 ==> cmake && !ninja);
                    assert(i == 2 ==> cmake && ninja && !mingw);
                }
                return self.die(m);
            },
            None => {
                assert(resolved@[0] && resolved@[1] && resolved@[2]);
            },
        }
        let has_target = match &rustup_listing {
            Some(l) => rustup_has_target(l.as_str()),
            None => false,
        };
        if !has_target {
            return self.die(String::from_str(RUSTUP_TARGET_MISSING_MESSAGE));
        }
        if !runtime_is_dir {
            return self.die(String::from_str(SUBMODULES_NOT_INITIALIZED_MESSAGE));
        }
        let mut rows = no_rows();
        push_row(&mut rows, Severity::Info, String::from_str(OXRSYS_BUILDING));
        self.go(BuildPhase::OxrsysConfigure, rows, BuildWork::Configure(BuildTarget::Oxrsys))
    }

    /// One step: what the last piece of outside work answered in, the rows
    /// and the next work out.
    pub fn step(&mut self, e: BuildEvent) -> (a: StepAction<BuildWork>)
        ensures
            ({
                let n = build_next(
                    old(self).phase,
                    old(self).dry_run,
                    old(self).helper_built@,
                    old(self).helper_build_dir@,
                    old(self).staged@,
                    e,
                );
                final(self).phase == n.0 && step_view(a) == (n.1, n.2, n.3)
            }),
            final(self).dry_run == old(self).dry_run,
            final(self).helper_built == old(self).helper_built,
            final(self).helper_build_dir == old(self).helper_build_dir,
            final(self).staged == old(self).staged,
    {
        let ph = self.phase;
        if ph == BuildPhase::Done || ph == BuildPhase::Failed {
            return StepAction { rows: no_rows(), work: BuildWork::Finish, die: None };
        }
        let child_phase = ph == BuildPhase::OxrsysConfigure || ph == BuildPhase::OxrsysBuild || ph
            == BuildPhase::HelperConfigure || ph == BuildPhase::HelperBuild || ph == BuildPhase::WineopenxrConfigure
            || ph == BuildPhase::WineopenxrBuild || ph == BuildPhase::Dashboard;
        match e {
            BuildEvent::ChildError => {
                if child_phase {
                    self.go(BuildPhase::Failed, no_rows(), BuildWork::Fail)
                } else {
                    self.go(ph, no_rows(), BuildWork::Fail)
                }
            },
            BuildEvent::ChildDone(ok) => {
                if child_phase {
                    self.child_done(ok)
                } else {
                    self.go(ph, no_rows(), BuildWork::Fail)
                }
            },
            BuildEvent::Gated { cmake, ninja, mingw, rustup_listing, runtime_is_dir } => {
                if ph == BuildPhase::Gates {
                    self.gates(cmake, ninja, mingw, rustup_listing, runtime_is_dir)
                } else {
                    self.go(ph, no_rows(), BuildWork::Fail)
                }
            },
            BuildEvent::HelperBuilt { is_file, is_arm64, lipo_archs } => {
                if ph != BuildPhase::HelperSource {
                    return self.go(ph, no_rows(), BuildWork::Fail);
                }
                match helper_source_gate(self.dry_run, is_file, is_arm64) {
                    HelperSourceGate::MissingBinary => {
                        let m = helper_missing_binary_message(self.helper_built.as_str());
                        self.die(m)
                    },
                    HelperSourceGate::WrongArch => {
                        let m = helper_wrong_arch_message(lipo_archs.as_str(), self.helper_build_dir.as_str());
                        self.die(m)
                    },
                    HelperSourceGate::Proceed => self.go(BuildPhase::HelperCopy, no_rows(), BuildWork::CopyHelper),
                }
            },
            BuildEvent::HelperCopied { ok, copied } => {
                if ph != BuildPhase::HelperCopy {
                    return self.go(ph, no_rows(), BuildWork::Fail);
                }
                if !ok {
                    return self.go(BuildPhase::Failed, no_rows(), BuildWork::Fail);
                }
                let mut t = if !copied {
                    String::from_str("unchanged: ")
                } else if self.dry_run {
                    String::from_str("would install: ")
                } else {
                    String::from_str("installed: ")
                };
                t.append(self.staged.as_str());
                let sev = if copied {
                    Severity::Success
                } else {
                    Severity::Info
                };
                let mut rows = no_rows();
                push_row(&mut rows, sev, t);
                if self.dry_run {
                    self.helper_done(rows)
                } else {
                    self.go(BuildPhase::HelperStaged, rows, BuildWork::CheckStaged)
                }
            },
            BuildEvent::StagedChecked { is_arm64, lipo_archs } => {
                if ph == BuildPhase::HelperStaged {
                    if is_arm64 {
                        let a = self.helper_done(no_rows());
                        assert(Seq::<(Severity, Seq<char>)>::empty() + helper_done_rows(self.dry_run)
                            =~= helper_done_rows(self.dry_run));
                        a
                    } else {
                        self.go(BuildPhase::HelperRepair, no_rows(), BuildWork::RepairStaged)
                    }
                } else if ph == BuildPhase::HelperRepairCheck {
                    if is_arm64 {
                        let mut rows = no_rows();
                        push_row(&mut rows, Severity::Success, helper_repaired_line(self.staged.as_str()));
                        self.helper_done(rows)
                    } else {
                        let m = staged_helper_unusable_message(lipo_archs.as_str(), self.staged.as_str());
                        self.die(m)
                    }
                } else {
                    self.go(ph, no_rows(), BuildWork::Fail)
                }
            },
            BuildEvent::Repaired(ok) => {
                if ph != BuildPhase::HelperRepair {
                    self.go(ph, no_rows(), BuildWork::Fail)
                } else if ok {
                    self.go(BuildPhase::HelperRepairCheck, no_rows(), BuildWork::CheckStaged)
                } else {
                    self.go(BuildPhase::Failed, no_rows(), BuildWork::Fail)
                }
            },
            BuildEvent::OutputsChecked(missing) => {
                if ph != BuildPhase::Outputs {
                    return self.go(ph, no_rows(), BuildWork::Fail);
                }
                match missing {
                    Some(p) => {
                        let m = missing_output_message(p.as_str());
                        self.die(m)
                    },
                    None => {
                        let mut rows = no_rows();
                        push_row(&mut rows, Severity::Success, String::from_str(ALL_OUTPUTS_PRESENT));
                        self.go(BuildPhase::Done, rows, BuildWork::Finish)
                    },
                }
            },
        }
    }
}

/// The phases a dry run can be in: those that follow a real helper copy or a
/// real build — the staged-helper checks and the output sweep — are not
/// among them.
pub open spec fn dry_run_phase(p: BuildPhase) -> bool {
    p != BuildPhase::HelperStaged && p != BuildPhase::HelperRepair && p != BuildPhase::HelperRepairCheck && p
        != BuildPhase::Outputs
}

/// Whether a row claims a build or an output as done.
pub open spec fn claims_built(r: (Severity, Seq<char>)) -> bool {
    r == (Severity::Success, OXRSYS_BUILT.0@) || r == (Severity::Success, HELPER_BUILT.0@) || r == (
        Severity::Success,
        WINEOPENXR_BUILT.0@,
    ) || r == (Severity::Success, DASHBOARD_BUILT.0@) || r == (Severity::Success, ALL_OUTPUTS_PRESENT@)
}

/// A dry run never claims a build: it stays out of the phases that check
/// what a real build staged or produced, asks for neither check, and prints
/// no row that says a tree was built or that every output is present.
pub proof fn lemma_build_dry_run_claims_nothing(
    phase: BuildPhase,
    helper_built: Seq<char>,
    helper_build_dir: Seq<char>,
    staged: Seq<char>,
    e: BuildEvent,
)
    requires
        dry_run_phase(phase),
    ensures
        ({
            let n = build_next(phase, true, helper_built, helper_build_dir, staged, e);
            &&& dry_run_phase(n.0)
            &&& n.2 != BuildWork::CheckStaged
            &&& n.2 != BuildWork::CheckOutputs
            &&& forall|k: int| 0 <= k < n.1.len() ==> !claims_built(#[trigger] n.1[k])
        }),
{
    let n = build_next(phase, true, helper_built, helper_build_dir, staged, e);
    assert forall|k: int| 0 <= k < n.1.len() implies !claims_built(#[trigger] n.1[k]) by {
        assert(n.1[k].0 == Severity::Info || n.1[k].1 == "would install: "@ + staged);
        if n.1[k].0 != Severity::Info {
            reveal_strlit("would install: ");
            reveal_strlit("oxrsys built");
            reveal_strlit("encoder helper built (arm64) and staged next to the runtime dylib");
            reveal_strlit("wineopenxr built");
            reveal_strlit("ALVR dashboard built");
            reveal_strlit("all build outputs present");
            assert(n.1[k].1[0] == 'w');
            assert(OXRSYS_BUILT.0@[0] == 'o');
            assert(HELPER_BUILT.0@[0] == 'e');
            assert(WINEOPENXR_BUILT.0@[0] == 'w' && WINEOPENXR_BUILT.0@[1] == 'i');
            assert(n.1[k].1[1] == 'o');
            assert(DASHBOARD_BUILT.0@[0] == 'A');
            assert(ALL_OUTPUTS_PRESENT@[0] == 'a');
        }
    }
}

/// The first tool build.sh finds missing, in its order.
pub open spec fn first_missing_tool(cmake: bool, ninja: bool, mingw: bool) -> Seq<char> {
    if !cmake {
        "cmake"@
    } else if !ninja {
        "ninja"@
    } else {
        "x86_64-w64-mingw32-gcc"@
    }
}

/// The gates, in build.sh's order: a missing `cmake`, `ninja` or
/// `x86_64-w64-mingw32-gcc` dies naming the first of them; then a rustup
/// without the x86_64 target (or no rustup at all) dies; then submodules not
/// initialized dies. The build configures oxrsys exactly when every gate
/// passed, and never runs anything after a die.
pub proof fn lemma_build_gates(
    dry_run: bool,
    helper_built: Seq<char>,
    helper_build_dir: Seq<char>,
    staged: Seq<char>,
    cmake: bool,
    ninja: bool,
    mingw: bool,
    rustup_listing: Option<String>,
    runtime_is_dir: bool,
)
    ensures
        ({
            let n = build_next(
                BuildPhase::Gates,
                dry_run,
                helper_built,
                helper_build_dir,
                staged,
                BuildEvent::Gated { cmake, ninja, mingw, rustup_listing, runtime_is_dir },
            );
            let has_target = opt_view(rustup_listing) matches Some(l) && contains_str(l, "x86_64-apple-darwin"@);
            &&& !(cmake && ninja && mingw) ==> n == (
                BuildPhase::Failed,
                Seq::<(Severity, Seq<char>)>::empty(),
                BuildWork::Die,
                Some(
                    (
                        first_missing_tool(cmake, ninja, mingw) + " missing — brew install cmake ninja mingw-w64"@,
                        None::<Seq<char>>,
                    ),
                ),
            )
            &&& cmake && ninja && mingw && !has_target ==> n == (
                BuildPhase::Failed,
                Seq::<(Severity, Seq<char>)>::empty(),
                BuildWork::Die,
                Some(
                    (
                        "rustup x86_64-apple-darwin target missing — install rustup via https://rustup.rs and source ~/.cargo/env, then: rustup toolchain install stable && rustup target add x86_64-apple-darwin"@,
                        None::<Seq<char>>,
                    ),
                ),
            )
            &&& cmake && ninja && mingw && has_target && !runtime_is_dir ==> n == (
                BuildPhase::Failed,
                Seq::<(Severity, Seq<char>)>::empty(),
                BuildWork::Die,
                Some(("submodules not initialized — ./demo.sh setup"@, None::<Seq<char>>)),
            )
            &&& (n.2 == BuildWork::Configure(BuildTarget::Oxrsys)) == (cmake && ninja && mingw && has_target
                && runtime_is_dir)
            &&& n.0 == BuildPhase::Failed || n.0 == BuildPhase::OxrsysConfigure
        }),
{
    reveal_strlit("cmake");
    reveal_strlit("ninja");
    reveal_strlit("x86_64-w64-mingw32-gcc");
    assert(REQUIRED_TOOLS[0]@ == "cmake"@);
    assert(REQUIRED_TOOLS[1]@ == "ninja"@);
    assert(REQUIRED_TOOLS[2]@ == "x86_64-w64-mingw32-gcc"@);
}

/// A failed cmake or ninja child, or one that could not run, stops the build
/// with its own error before anything later; a failed dashboard build dies
/// with build.sh's retry hint.
pub proof fn lemma_build_child_failures_stop(
    phase: BuildPhase,
    dry_run: bool,
    helper_built: Seq<char>,
    helper_build_dir: Seq<char>,
    staged: Seq<char>,
)
    requires
        phase == BuildPhase::OxrsysConfigure || phase == BuildPhase::OxrsysBuild || phase == BuildPhase::HelperConfigure
            || phase == BuildPhase::HelperBuild || phase == BuildPhase::WineopenxrConfigure || phase
            == BuildPhase::WineopenxrBuild || phase == BuildPhase::Dashboard,
    ensures
        build_next(phase, dry_run, helper_built, helper_build_dir, staged, BuildEvent::ChildError) == (
            BuildPhase::Failed,
            Seq::<(Severity, Seq<char>)>::empty(),
            BuildWork::Fail,
            None::<(Seq<char>, Option<Seq<char>>)>,
        ),
        phase != BuildPhase::Dashboard ==> build_next(
            phase,
            dry_run,
            helper_built,
            helper_build_dir,
            staged,
            BuildEvent::ChildDone(false),
        ) == (
            BuildPhase::Failed,
            Seq::<(Severity, Seq<char>)>::empty(),
            BuildWork::Fail,
            None::<(Seq<char>, Option<Seq<char>>)>,
        ),
        phase == BuildPhase::Dashboard ==> build_next(
            phase,
            dry_run,
            helper_built,
            helper_build_dir,
            staged,
            BuildEvent::ChildDone(false),
        ) == (
            BuildPhase::Failed,
            Seq::<(Severity, Seq<char>)>::empty(),
            BuildWork::Die,
            Some(
                (
                    "alvr_dashboard build failed — retry with: (cd ext/ALVR && cargo build -p alvr_dashboard --release)"@,
                    None::<Seq<char>>,
                ),
            ),
        ),
{
}

/// The trees build in build.sh's order, each configured before it is built
/// and each started only after the one before finished: oxrsys, the helper,
/// wineopenxr, then the dashboard.
pub proof fn lemma_build_order(
    phase: BuildPhase,
    dry_run: bool,
    helper_built: Seq<char>,
    helper_build_dir: Seq<char>,
    staged: Seq<char>,
    e: BuildEvent,
)
    ensures
        ({
            let n = build_next(phase, dry_run, helper_built, helper_build_dir, staged, e);
            &&& n.2 == BuildWork::Build(BuildTarget::Oxrsys) ==> phase == BuildPhase::OxrsysConfigure && e
                == BuildEvent::ChildDone(true)
            &&& n.2 == BuildWork::Configure(BuildTarget::Helper) ==> phase == BuildPhase::OxrsysBuild && e
                == BuildEvent::ChildDone(true)
            &&& n.2 == BuildWork::Build(BuildTarget::Helper) ==> phase == BuildPhase::HelperConfigure && e
                == BuildEvent::ChildDone(true)
            &&& n.2 == BuildWork::CheckHelper ==> phase == BuildPhase::HelperBuild && e == BuildEvent::ChildDone(true)
            &&& n.2 == BuildWork::Build(BuildTarget::Wineopenxr) ==> phase == BuildPhase::WineopenxrConfigure && e
                == BuildEvent::ChildDone(true)
            &&& n.2 == BuildWork::CargoDashboard ==> phase == BuildPhase::WineopenxrBuild && e
                == BuildEvent::ChildDone(true)
            &&& n.2 == BuildWork::CheckOutputs ==> phase == BuildPhase::Dashboard && e == BuildEvent::ChildDone(true)
                && !dry_run
        }),
{
}

/// On a real run the built helper's postconditions are enforced: no binary
/// dies naming where it was expected, a binary of the wrong architecture dies
/// with `lipo`'s answer; the helper is copied only when both hold, or on a
/// dry run, which built nothing.
pub proof fn lemma_build_helper_gate(
    dry_run: bool,
    helper_built: Seq<char>,
    helper_build_dir: Seq<char>,
    staged: Seq<char>,
    is_file: bool,
    is_arm64: bool,
    lipo_archs: String,
)
    ensures
        ({
            let n = build_next(
                BuildPhase::HelperSource,
                dry_run,
                helper_built,
                helper_build_dir,
                staged,
                BuildEvent::HelperBuilt { is_file, is_arm64, lipo_archs },
            );
            &&& !dry_run && !is_file ==> n.0 == BuildPhase::Failed && n.3 == Some(
                ("encoder helper build produced no binary at "@ + helper_built, None::<Seq<char>>),
            )
            &&& !dry_run && is_file && !is_arm64 ==> n.0 == BuildPhase::Failed && n.3 == Some(
                (
                    "encoder helper is not an arm64 executable ("@ + lipo_archs@ + ") — delete "@ + helper_build_dir
                        + " and re-run ./demo.sh build"@,
                    None::<Seq<char>>,
                ),
            )
            &&& (n.2 == BuildWork::CopyHelper) == (dry_run || is_file && is_arm64)
        }),
{
}

} // verus!
