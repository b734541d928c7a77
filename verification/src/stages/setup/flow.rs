//! setup's sub-steps that alternate outside work and decisions — the config,
//! the submodules and the pinned dependencies — as steps from what the
//! outside work answered to the rows to print and the work to do next.

use vstd::prelude::*;

use crate::events::Severity;
use crate::stages::setup::{
    config_written_row, config_written_row_spec, dxmt_extract_row, dxmt_incomplete_message,
    existing_config_row, existing_config_row_spec, goldberg_fetch_needed, goldberg_kept_warn,
    patchset_missing_message, patchset_present, DXMT_ALREADY_PRESENT, DXMT_WOULD_EXTRACT_INFO,
    EXTRACTION_FAILED, INITIALIZING_SUBMODULES, OPENVR_MISSING, PATCHSET_PRESENT,
    PATCHSET_WOULD_CHECKOUT_INFO, SUBMODULES_READY, SUBMODULES_WOULD_INIT_INFO,
};
use crate::stages::{bare_die, no_rows, one_row, step_view, StepAction};
use crate::text::{contains_str, opt_view};

verus! {

// ── config ──────────────────────────────────────────────────────────────────

/// What setup does about `oxrsys-runtime.toml`.
#[derive(Debug, Clone, PartialEq, Eq)]
pub enum ConfigDecision {
    /// Create the file exclusively — the creation fails on a file that
    /// exists — with the template; `planned` when a dry run only records
    /// the creation.
    CreateNew { planned: bool },
    /// Print this row; nothing is written.
    Report(Severity, String),
}

/// A [`ConfigDecision`] as plain values.
pub enum ConfigDecisionView {
    CreateNew { planned: bool },
    Report(Severity, Seq<char>),
}

pub open spec fn config_decision_view(d: ConfigDecision) -> ConfigDecisionView {
    match d {
        ConfigDecision::CreateNew { planned } => ConfigDecisionView::CreateNew { planned },
        ConfigDecision::Report(sev, t) => ConfigDecisionView::Report(sev, t@),
    }
}

impl ConfigDecisionView {
    /// The decision puts bytes on disk.
    pub open spec fn writes(self) -> bool {
        self matches ConfigDecisionView::CreateNew { planned } && !planned
    }
}

pub open spec fn config_step_spec(
    toml_is_file: bool,
    created: Option<bool>,
    dry_run: bool,
    protocol: Seq<char>,
    toml: Seq<char>,
) -> ConfigDecisionView {
    if toml_is_file {
        ConfigDecisionView::Report(existing_config_row_spec(protocol, toml).0, existing_config_row_spec(protocol, toml).1)
    } else {
        match created {
            None => ConfigDecisionView::CreateNew { planned: dry_run },
            Some(false) => ConfigDecisionView::Report(existing_config_row_spec(protocol, toml).0, existing_config_row_spec(protocol, toml).1),
            Some(true) => ConfigDecisionView::Report(config_written_row_spec(dry_run, toml).0, config_written_row_spec(dry_run, toml).1),
        }
    }
}

/// setup's config step. `toml_is_file`: a config was there when probed;
/// `created`: how the exclusive creation went once it was tried (`false`:
/// another writer created the file first); `protocol`: the existing file's
/// `protocol` as the shell's recipe reads it, used only to report it.
pub fn config_step(toml_is_file: bool, created: Option<bool>, dry_run: bool, protocol: &str, toml: &str) -> (d:
    ConfigDecision)
    ensures
        config_decision_view(d) == config_step_spec(toml_is_file, created, dry_run, protocol@, toml@),
        toml_is_file ==> !config_decision_view(d).writes(),
        dry_run ==> !config_decision_view(d).writes(),
{
    if toml_is_file {
        let r = existing_config_row(protocol, toml);
        ConfigDecision::Report(r.0, r.1)
    } else {
        match created {
            None => ConfigDecision::CreateNew { planned: dry_run },
            Some(false) => {
                let r = existing_config_row(protocol, toml);
                ConfigDecision::Report(r.0, r.1)
            },
            Some(true) => {
                let r = config_written_row(dry_run, toml);
                ConfigDecision::Report(r.0, r.1)
            },
        }
    }
}

/// Setup never overwrites a config: the one write it asks for is an exclusive
/// creation, asked only when no config was seen and no creation was tried,
/// and never performed on a dry run; a config that was there, or that another
/// writer created first, is only reported.
pub proof fn lemma_config_never_overwrites(
    toml_is_file: bool,
    created: Option<bool>,
    dry_run: bool,
    protocol: Seq<char>,
    toml: Seq<char>,
)
    ensures
        config_step_spec(toml_is_file, created, dry_run, protocol, toml) is CreateNew ==> !toml_is_file
            && created is None,
        config_step_spec(toml_is_file, created, dry_run, protocol, toml).writes() ==> !toml_is_file
            && created is None && !dry_run,
        toml_is_file || created == Some(false) ==> config_step_spec(toml_is_file, created, dry_run, protocol, toml)
            == ConfigDecisionView::Report(existing_config_row_spec(protocol, toml).0, existing_config_row_spec(protocol, toml).1),
{
}

/// What the config step prints, over all inputs: a config it did not write —
/// there when probed, or created first by another writer — is reported,
/// `info` when its protocol is `alvr` and setup.sh's "not overwriting" `warn`
/// otherwise; the one it created is reported as written, or as "would write"
/// on a dry run; with no file and no creation tried, it asks for the
/// exclusive creation, planned exactly on a dry run.
pub proof fn lemma_config_rows(
    toml_is_file: bool,
    created: Option<bool>,
    dry_run: bool,
    protocol: Seq<char>,
    toml: Seq<char>,
)
    ensures
        ({
            let d = config_step_spec(toml_is_file, created, dry_run, protocol, toml);
            &&& (toml_is_file || created == Some(false)) && protocol == "alvr"@ ==> d == ConfigDecisionView::Report(
                Severity::Info,
                "config present: "@ + toml + " (protocol=alvr)"@,
            )
            &&& (toml_is_file || created == Some(false)) && protocol != "alvr"@ ==> d == ConfigDecisionView::Report(
                Severity::Warn,
                "config present with protocol='"@ + protocol + "' — the demo needs protocol = \"alvr\"; edit "@ + toml
                    + " yourself (not overwriting)"@,
            )
            &&& !toml_is_file && created == Some(true) && !dry_run ==> d == ConfigDecisionView::Report(
                Severity::Success,
                "wrote "@ + toml + " (protocol=alvr, 42 Mbps, encoder_process=auto)"@,
            )
            &&& !toml_is_file && created == Some(true) && dry_run ==> d == ConfigDecisionView::Report(
                Severity::Info,
                "would write "@ + toml + " (protocol=alvr, 42 Mbps, encoder_process=auto)"@,
            )
            &&& !toml_is_file && created is None ==> d == (ConfigDecisionView::CreateNew { planned: dry_run })
        }),
{
}

// ── submodules ──────────────────────────────────────────────────────────────

/// Where setup's submodule step stands.
#[derive(Debug, Clone, Copy, PartialEq, Eq, Structural)]
pub enum SubmodulesPhase {
    Start,
    /// Waiting for the top-level `ext/` submodules.
    TopLevel,
    /// Waiting for wineopenxr's own submodules.
    Wine,
    /// Waiting for ALVR's `openvr`.
    Openvr,
    /// Waiting for whether `openvr_driver.h` materialized.
    Header,
    /// Waiting for ALVR's `connection.rs`.
    Patchset,
    Done,
    Failed,
}

/// One answer the submodule step gets back.
#[derive(Debug, Clone, PartialEq, Eq)]
pub enum SubmodulesEvent {
    Begin,
    /// The last `git submodule` command succeeded or not (its error travels).
    GitDone(bool),
    /// Whether `openvr/headers/openvr_driver.h` is a file.
    HeaderFound(bool),
    /// `alvr/server_core/src/connection.rs`, read lossily; `None` when it
    /// cannot be read.
    ConnectionRs(Option<String>),
}

/// The outside work the submodule step asks for.
#[derive(Debug, Clone, Copy, PartialEq, Eq, Structural)]
pub enum SubmodulesWork {
    /// The first of [`super::submodule_commands`].
    TopLevel,
    /// The second.
    Wine,
    /// The third.
    Openvr,
    ProbeHeader,
    ReadConnectionRs,
    /// Fail with the error the last step reported.
    Fail,
    Die,
    Finish,
}

/// setup's submodule step in progress.
pub struct SubmodulesSetup {
    pub phase: SubmodulesPhase,
    pub dry_run: bool,
    /// The checkout, as the patch-set die prints it.
    pub root: String,
}

pub open spec fn patchset_found(t: Option<Seq<char>>) -> bool {
    t matches Some(x) && contains_str(x, "is_streaming_nonblocking"@)
}

pub open spec fn patchset_missing_spec(root: Seq<char>) -> Seq<char> {
    "ALVR submodule is missing the oxrsys patches — run: git -C \""@ + root
        + "\" submodule update --checkout ext/ALVR"@
}

/// What a submodule step decides: the next phase, the rows, the work, the die.
pub open spec fn submodules_next(phase: SubmodulesPhase, dry_run: bool, root: Seq<char>, e: SubmodulesEvent) -> (
    SubmodulesPhase,
    Seq<(Severity, Seq<char>)>,
    SubmodulesWork,
    Option<(Seq<char>, Option<Seq<char>>)>,
) {
    let none = Seq::<(Severity, Seq<char>)>::empty();
    if phase == SubmodulesPhase::Done || phase == SubmodulesPhase::Failed {
        (phase, none, SubmodulesWork::Finish, None)
    } else {
        match (phase, e) {
            (SubmodulesPhase::Start, SubmodulesEvent::Begin) => (
                SubmodulesPhase::TopLevel,
                seq![(Severity::Info, INITIALIZING_SUBMODULES@)],
                SubmodulesWork::TopLevel,
                None,
            ),
            (SubmodulesPhase::TopLevel, SubmodulesEvent::GitDone(ok)) => if ok {
                (SubmodulesPhase::Wine, none, SubmodulesWork::Wine, None)
            } else {
                (SubmodulesPhase::Failed, none, SubmodulesWork::Fail, None)
            },
            (SubmodulesPhase::Wine, SubmodulesEvent::GitDone(ok)) => if ok {
                (SubmodulesPhase::Openvr, none, SubmodulesWork::Openvr, None)
            } else {
                (SubmodulesPhase::Failed, none, SubmodulesWork::Fail, None)
            },
            (SubmodulesPhase::Openvr, SubmodulesEvent::GitDone(ok)) => if ok {
                (SubmodulesPhase::Header, none, SubmodulesWork::ProbeHeader, None)
            } else {
                (SubmodulesPhase::Failed, none, SubmodulesWork::Fail, None)
            },
            (SubmodulesPhase::Header, SubmodulesEvent::HeaderFound(found)) => if found {
                (
                    SubmodulesPhase::Patchset,
                    seq![(Severity::Success, SUBMODULES_READY@)],
                    SubmodulesWork::ReadConnectionRs,
                    None,
                )
            } else if dry_run {
                (
                    SubmodulesPhase::Patchset,
                    seq![(Severity::Info, SUBMODULES_WOULD_INIT_INFO@)],
                    SubmodulesWork::ReadConnectionRs,
                    None,
                )
            } else {
                (SubmodulesPhase::Failed, none, SubmodulesWork::Die, Some((OPENVR_MISSING@, None)))
            },
            (SubmodulesPhase::Patchset, SubmodulesEvent::ConnectionRs(t)) => if patchset_found(opt_view(t)) {
                (SubmodulesPhase::Done, seq![(Severity::Success, PATCHSET_PRESENT@)], SubmodulesWork::Finish, None)
            } else if dry_run {
                (
                    SubmodulesPhase::Done,
                    seq![(Severity::Info, PATCHSET_WOULD_CHECKOUT_INFO@)],
                    SubmodulesWork::Finish,
                    None,
                )
            } else {
                (SubmodulesPhase::Failed, none, SubmodulesWork::Die, Some((patchset_missing_spec(root), None)))
            },
            // An answer the phase does not wait for changes nothing.
            _ => (phase, none, SubmodulesWork::Fail, None),
        }
    }
}

impl SubmodulesSetup {
    pub fn new(dry_run: bool, root: String) -> (s: SubmodulesSetup)
        ensures
            s.phase == SubmodulesPhase::Start,
            s.dry_run == dry_run,
            s.root == root,
    {
        SubmodulesSetup { phase: SubmodulesPhase::Start, dry_run, root }
    }

    fn fail(&mut self) -> (a: StepAction<SubmodulesWork>)
        ensures
            final(self).phase == SubmodulesPhase::Failed,
            final(self).dry_run == old(self).dry_run,
            final(self).root == old(self).root,
            step_view(a) == (Seq::<(Severity, Seq<char>)>::empty(), SubmodulesWork::Fail, None::<
                (Seq<char>, Option<Seq<char>>),
            >),
    {
        self.phase = SubmodulesPhase::Failed;
        StepAction { rows: no_rows(), work: SubmodulesWork::Fail, die: None }
    }

    /// One step: what the last piece of outside work answered in, the rows
    /// and the next work out.
    pub fn step(&mut self, e: SubmodulesEvent) -> (a: StepAction<SubmodulesWork>)
        ensures
            ({
                let n = submodules_next(old(self).phase, old(self).dry_run, old(self).root@, e);
                final(self).phase == n.0 && step_view(a) == (n.1, n.2, n.3)
            }),
            final(self).dry_run == old(self).dry_run,
            final(self).root == old(self).root,
    {
        let ph = self.phase;
        if ph == SubmodulesPhase::Done || ph == SubmodulesPhase::Failed {
            return StepAction { rows: no_rows(), work: SubmodulesWork::Finish, die: None };
        }
        match e {
            SubmodulesEvent::Begin => {
                if ph == SubmodulesPhase::Start {
                    self.phase = SubmodulesPhase::TopLevel;
                    StepAction {
                        rows: one_row((Severity::Info, String::from_str(INITIALIZING_SUBMODULES))),
                        work: SubmodulesWork::TopLevel,
                        die: None,
                    }
                } else {
                    StepAction { rows: no_rows(), work: SubmodulesWork::Fail, die: None }
                }
            },
            SubmodulesEvent::GitDone(ok) => {
                if ph != SubmodulesPhase::TopLevel && ph != SubmodulesPhase::Wine && ph != SubmodulesPhase::Openvr {
                    StepAction { rows: no_rows(), work: SubmodulesWork::Fail, die: None }
                } else if !ok {
                    self.fail()
                } else if ph == SubmodulesPhase::TopLevel {
                    self.phase = SubmodulesPhase::Wine;
                    StepAction { rows: no_rows(), work: SubmodulesWork::Wine, die: None }
                } else if ph == SubmodulesPhase::Wine {
                    self.phase = SubmodulesPhase::Openvr;
                    StepAction { rows: no_rows(), work: SubmodulesWork::Openvr, die: None }
                } else {
                    self.phase = SubmodulesPhase::Header;
                    StepAction { rows: no_rows(), work: SubmodulesWork::ProbeHeader, die: None }
                }
            },
            SubmodulesEvent::HeaderFound(found) => {
                if ph != SubmodulesPhase::Header {
                    StepAction { rows: no_rows(), work: SubmodulesWork::Fail, die: None }
                } else if found {
                    self.phase = SubmodulesPhase::Patchset;
                    StepAction {
                        rows: one_row((Severity::Success, String::from_str(SUBMODULES_READY))),
                        work: SubmodulesWork::ReadConnectionRs,
                        die: None,
                    }
                } else if self.dry_run {
                    self.phase = SubmodulesPhase::Patchset;
                    StepAction {
                        rows: one_row((Severity::Info, String::from_str(SUBMODULES_WOULD_INIT_INFO))),
                        work: SubmodulesWork::ReadConnectionRs,
                        die: None,
                    }
                } else {
                    self.phase = SubmodulesPhase::Failed;
                    StepAction {
                        rows: no_rows(),
                        work: SubmodulesWork::Die,
                        die: bare_die(String::from_str(OPENVR_MISSING)),
                    }
                }
            },
            SubmodulesEvent::ConnectionRs(t) => {
                if ph != SubmodulesPhase::Patchset {
                    return StepAction { rows: no_rows(), work: SubmodulesWork::Fail, die: None };
                }
                let present = match &t {
                    Some(x) => patchset_present(x.as_str()),
                    None => false,
                };
                if present {
                    self.phase = SubmodulesPhase::Done;
                    StepAction {
                        rows: one_row((Severity::Success, String::from_str(PATCHSET_PRESENT))),
                        work: SubmodulesWork::Finish,
                        die: None,
                    }
                } else if self.dry_run {
                    self.phase = SubmodulesPhase::Done;
                    StepAction {
                        rows: one_row((Severity::Info, String::from_str(PATCHSET_WOULD_CHECKOUT_INFO))),
                        work: SubmodulesWork::Finish,
                        die: None,
                    }
                } else {
                    self.phase = SubmodulesPhase::Failed;
                    let m = patchset_missing_message(self.root.as_str());
                    StepAction { rows: no_rows(), work: SubmodulesWork::Die, die: bare_die(m) }
                }
            },
        }
    }
}

/// A dry run never claims a state it only planned: on a dry run the
/// submodule step prints no `ok` row unless the postcondition it names holds,
/// and it never dies on a postcondition.
pub proof fn lemma_submodules_dry_run_never_dies(phase: SubmodulesPhase, root: Seq<char>, e: SubmodulesEvent)
    ensures
        submodules_next(phase, true, root, e).2 != SubmodulesWork::Die,
        phase == SubmodulesPhase::Header && e == SubmodulesEvent::HeaderFound(false) ==> submodules_next(
            phase,
            true,
            root,
            e,
        ).1 == seq![(Severity::Info, SUBMODULES_WOULD_INIT_INFO@)],
{
}

/// The submodule commands run in setup.sh's order, each only after the one
/// before it succeeded, and the postconditions are checked only after all
/// three: the header once the last command succeeded, the patch set once the
/// header check passed or was planned.
pub proof fn lemma_submodules_in_order(phase: SubmodulesPhase, dry_run: bool, root: Seq<char>, e: SubmodulesEvent)
    ensures
        ({
            let n = submodules_next(phase, dry_run, root, e);
            &&& n.2 == SubmodulesWork::TopLevel ==> phase == SubmodulesPhase::Start && e == SubmodulesEvent::Begin
            &&& n.2 == SubmodulesWork::Wine ==> phase == SubmodulesPhase::TopLevel && e == SubmodulesEvent::GitDone(true)
            &&& n.2 == SubmodulesWork::Openvr ==> phase == SubmodulesPhase::Wine && e == SubmodulesEvent::GitDone(true)
            &&& n.2 == SubmodulesWork::ProbeHeader ==> phase == SubmodulesPhase::Openvr && e
                == SubmodulesEvent::GitDone(true)
            &&& n.2 == SubmodulesWork::ReadConnectionRs ==> phase == SubmodulesPhase::Header && (e
                == SubmodulesEvent::HeaderFound(true) || dry_run && e == SubmodulesEvent::HeaderFound(false))
        }),
{
}

// ── pinned dependencies ─────────────────────────────────────────────────────

/// Where setup's pinned-dependency step stands.
#[derive(Debug, Clone, Copy, PartialEq, Eq, Structural)]
pub enum PinnedPhase {
    /// Waiting for the Goldberg dll's probe.
    Start,
    /// Waiting for the Goldberg dll's download.
    Goldberg,
    /// Waiting for whether the DXMT artifacts are already in place.
    DxmtCheck,
    /// Waiting for the DXMT tarball's download.
    DxmtDownload,
    /// Waiting for the old artifacts' removal.
    Removing,
    /// Waiting for the extraction.
    Extracting,
    /// Waiting for whether the extracted files are complete.
    Verifying,
    /// Waiting for the provenance marker's write.
    Marker,
    Done,
    Failed,
}

/// How the tarball's extraction ended.
#[derive(Debug, Clone, Copy, PartialEq, Eq, Structural)]
pub enum ExtractOutcome {
    Extracted,
    /// Stop landed: the cancellation travels.
    Cancelled,
    Failed,
}

/// One answer the pinned-dependency step gets back.
#[derive(Debug, Clone, Copy, PartialEq, Eq, Structural)]
pub enum PinnedEvent {
    /// Whether the Goldberg dll is a file, and whether its hash is the pinned
    /// one.
    GoldbergProbed { present: bool, hash_matches: bool },
    /// A download, the removal or the marker write succeeded or not (its
    /// error travels).
    Done(bool),
    /// The DXMT artifacts are in place with a matching marker.
    DxmtPresent(bool),
    Extracted(ExtractOutcome),
    /// The extracted files are complete.
    FilesChecked(bool),
}

/// The outside work the pinned-dependency step asks for.
#[derive(Debug, Clone, Copy, PartialEq, Eq, Structural)]
pub enum PinnedWork {
    DownloadGoldberg,
    CheckDxmt,
    DownloadDxmt,
    RemoveArtifacts,
    Extract,
    CheckFiles,
    WriteMarker,
    Fail,
    Die,
    Finish,
}

/// setup's pinned-dependency step in progress.
pub struct PinnedSetup {
    pub phase: PinnedPhase,
    pub dry_run: bool,
    /// What the extraction check found, once it ran.
    pub extracted_ok: bool,
    /// The Goldberg dll's path, as the rows print it.
    pub gbe: String,
    /// `ext/dxmt-artifacts`, as the rows print it.
    pub dxmt_art: String,
}

/// The row after the marker write: `ok` only for files a real run extracted.
pub open spec fn dxmt_done_row(extracted_ok: bool, dry_run: bool) -> (Severity, Seq<char>) {
    if extracted_ok && !dry_run {
        (Severity::Success, "extracted ext/dxmt-artifacts (provenance marker written)"@)
    } else {
        (Severity::Info, DXMT_WOULD_EXTRACT_INFO@)
    }
}

/// What a pinned-dependency step decides: the next phase, what the extraction
/// check found, the rows, the work, the die.
pub open spec fn pinned_next(
    phase: PinnedPhase,
    dry_run: bool,
    extracted_ok: bool,
    gbe: Seq<char>,
    dxmt_art: Seq<char>,
    e: PinnedEvent,
) -> (PinnedPhase, bool, Seq<(Severity, Seq<char>)>, PinnedWork, Option<(Seq<char>, Option<Seq<char>>)>) {
    let none = Seq::<(Severity, Seq<char>)>::empty();
    let fail = (PinnedPhase::Failed, extracted_ok, none, PinnedWork::Fail, None);
    if phase == PinnedPhase::Done || phase == PinnedPhase::Failed {
        (phase, extracted_ok, none, PinnedWork::Finish, None)
    } else {
        match (phase, e) {
            (PinnedPhase::Start, PinnedEvent::GoldbergProbed { present, hash_matches }) => if !(present
                && !hash_matches) {
                (PinnedPhase::Goldberg, extracted_ok, none, PinnedWork::DownloadGoldberg, None)
            } else {
                (
                    PinnedPhase::DxmtCheck,
                    extracted_ok,
                    seq![
                        (
                            Severity::Warn,
                            "Goldberg dll present with a non-pinned hash — keeping it (delete "@ + gbe
                                + " to re-fetch the pinned build)"@,
                        ),
                    ],
                    PinnedWork::CheckDxmt,
                    None,
                )
            },
            (PinnedPhase::Goldberg, PinnedEvent::Done(ok)) => if ok {
                (PinnedPhase::DxmtCheck, extracted_ok, none, PinnedWork::CheckDxmt, None)
            } else {
                fail
            },
            (PinnedPhase::DxmtCheck, PinnedEvent::DxmtPresent(p)) => if p {
                (PinnedPhase::Done, extracted_ok, seq![(Severity::Info, DXMT_ALREADY_PRESENT@)], PinnedWork::Finish, None)
            } else {
                (PinnedPhase::DxmtDownload, extracted_ok, none, PinnedWork::DownloadDxmt, None)
            },
            (PinnedPhase::DxmtDownload, PinnedEvent::Done(ok)) => if ok {
                (PinnedPhase::Removing, extracted_ok, none, PinnedWork::RemoveArtifacts, None)
            } else {
                fail
            },
            (PinnedPhase::Removing, PinnedEvent::Done(ok)) => if ok {
                (PinnedPhase::Extracting, extracted_ok, none, PinnedWork::Extract, None)
            } else {
                fail
            },
            (PinnedPhase::Extracting, PinnedEvent::Extracted(o)) => match o {
                ExtractOutcome::Extracted => (PinnedPhase::Verifying, extracted_ok, none, PinnedWork::CheckFiles, None),
                ExtractOutcome::Cancelled => fail,
                ExtractOutcome::Failed => (
                    PinnedPhase::Failed,
                    extracted_ok,
                    none,
                    PinnedWork::Die,
                    Some((EXTRACTION_FAILED@, None)),
                ),
            },
            (PinnedPhase::Verifying, PinnedEvent::FilesChecked(x)) => if x || dry_run {
                (PinnedPhase::Marker, x, none, PinnedWork::WriteMarker, None)
            } else {
                (
                    PinnedPhase::Failed,
                    x,
                    none,
                    PinnedWork::Die,
                    Some(("extracted dxmt-artifacts are incomplete — delete "@ + dxmt_art + " and re-run setup"@, None)),
                )
            },
            (PinnedPhase::Marker, PinnedEvent::Done(ok)) => if ok {
                (PinnedPhase::Done, extracted_ok, seq![dxmt_done_row(extracted_ok, dry_run)], PinnedWork::Finish, None)
            } else {
                fail
            },
            // An answer the phase does not wait for changes nothing.
            _ => (phase, extracted_ok, none, PinnedWork::Fail, None),
        }
    }
}

impl PinnedSetup {
    pub fn new(dry_run: bool, gbe: String, dxmt_art: String) -> (s: PinnedSetup)
        ensures
            s.phase == PinnedPhase::Start,
            s.dry_run == dry_run,
            !s.extracted_ok,
            s.gbe == gbe,
            s.dxmt_art == dxmt_art,
    {
        PinnedSetup { phase: PinnedPhase::Start, dry_run, extracted_ok: false, gbe, dxmt_art }
    }

    fn go(&mut self, phase: PinnedPhase, work: PinnedWork) -> (a: StepAction<PinnedWork>)
        ensures
            final(self).phase == phase,
            final(self).dry_run == old(self).dry_run,
            final(self).extracted_ok == old(self).extracted_ok,
            final(self).gbe == old(self).gbe,
            final(self).dxmt_art == old(self).dxmt_art,
            step_view(a) == (Seq::<(Severity, Seq<char>)>::empty(), work, None::<(Seq<char>, Option<Seq<char>>)>),
    {
        self.phase = phase;
        StepAction { rows: no_rows(), work, die: None }
    }

    /// One step: what the last piece of outside work answered in, the rows
    /// and the next work out.
    pub fn step(&mut self, e: PinnedEvent) -> (a: StepAction<PinnedWork>)
        ensures
            ({
                let n = pinned_next(
                    old(self).phase,
                    old(self).dry_run,
                    old(self).extracted_ok,
                    old(self).gbe@,
                    old(self).dxmt_art@,
                    e,
                );
                final(self).phase == n.0 && final(self).extracted_ok == n.1 && step_view(a) == (n.2, n.3, n.4)
            }),
            final(self).dry_run == old(self).dry_run,
            final(self).gbe == old(self).gbe,
            final(self).dxmt_art == old(self).dxmt_art,
    {
        let ph = self.phase;
        if ph == PinnedPhase::Done || ph == PinnedPhase::Failed {
            return StepAction { rows: no_rows(), work: PinnedWork::Finish, die: None };
        }
        match e {
            PinnedEvent::GoldbergProbed { present, hash_matches } => {
                if ph != PinnedPhase::Start {
                    self.go(ph, PinnedWork::Fail)
                } else if goldberg_fetch_needed(present, hash_matches) {
                    self.go(PinnedPhase::Goldberg, PinnedWork::DownloadGoldberg)
                } else {
                    self.phase = PinnedPhase::DxmtCheck;
                    let w = goldberg_kept_warn(self.gbe.as_str());
                    StepAction { rows: one_row((Severity::Warn, w)), work: PinnedWork::CheckDxmt, die: None }
                }
            },
            PinnedEvent::Done(ok) => {
                if ph != PinnedPhase::Goldberg && ph != PinnedPhase::DxmtDownload && ph != PinnedPhase::Removing && ph
                    != PinnedPhase::Marker {
                    self.go(ph, PinnedWork::Fail)
                } else if !ok {
                    self.go(PinnedPhase::Failed, PinnedWork::Fail)
                } else if ph == PinnedPhase::Goldberg {
                    self.go(PinnedPhase::DxmtCheck, PinnedWork::CheckDxmt)
                } else if ph == PinnedPhase::DxmtDownload {
                    self.go(PinnedPhase::Removing, PinnedWork::RemoveArtifacts)
                } else if ph == PinnedPhase::Removing {
                    self.go(PinnedPhase::Extracting, PinnedWork::Extract)
                } else {
                    self.phase = PinnedPhase::Done;
                    let row = match dxmt_extract_row(self.extracted_ok, self.dry_run) {
                        Some((sev, t)) => (sev, String::from_str(t)),
                        None => (Severity::Info, String::from_str(DXMT_WOULD_EXTRACT_INFO)),
                    };
                    StepAction { rows: one_row(row), work: PinnedWork::Finish, die: None }
                }
            },
            PinnedEvent::DxmtPresent(p) => {
                if ph != PinnedPhase::DxmtCheck {
                    self.go(ph, PinnedWork::Fail)
                } else if p {
                    self.phase = PinnedPhase::Done;
                    StepAction {
                        rows: one_row((Severity::Info, String::from_str(DXMT_ALREADY_PRESENT))),
                        work: PinnedWork::Finish,
                        die: None,
                    }
                } else {
                    self.go(PinnedPhase::DxmtDownload, PinnedWork::DownloadDxmt)
                }
            },
            PinnedEvent::Extracted(o) => {
                if ph != PinnedPhase::Extracting {
                    self.go(ph, PinnedWork::Fail)
                } else {
                    match o {
                        ExtractOutcome::Extracted => self.go(PinnedPhase::Verifying, PinnedWork::CheckFiles),
                        ExtractOutcome::Cancelled => self.go(PinnedPhase::Failed, PinnedWork::Fail),
                        ExtractOutcome::Failed => {
                            self.phase = PinnedPhase::Failed;
                            StepAction {
                                rows: no_rows(),
                                work: PinnedWork::Die,
                                die: bare_die(String::from_str(EXTRACTION_FAILED)),
                            }
                        },
                    }
                }
            },
            PinnedEvent::FilesChecked(x) => {
                if ph != PinnedPhase::Verifying {
                    self.go(ph, PinnedWork::Fail)
                } else {
                    self.extracted_ok = x;
                    if x || self.dry_run {
                        self.go(PinnedPhase::Marker, PinnedWork::WriteMarker)
                    } else {
                        self.phase = PinnedPhase::Failed;
                        let m = dxmt_incomplete_message(self.dxmt_art.as_str());
                        StepAction { rows: no_rows(), work: PinnedWork::Die, die: bare_die(m) }
                    }
                }
            },
        }
    }
}

/// A present Goldberg dll with a non-pinned hash is kept, never silently
/// replaced: the step that sees it asks for no download and warns instead.
pub proof fn lemma_pinned_keeps_a_foreign_goldberg(extracted_ok: bool, dry_run: bool, gbe: Seq<char>, dxmt_art: Seq<char>)
    ensures
        ({
            let n = pinned_next(
                PinnedPhase::Start,
                dry_run,
                extracted_ok,
                gbe,
                dxmt_art,
                PinnedEvent::GoldbergProbed { present: true, hash_matches: false },
            );
            &&& n.3 == PinnedWork::CheckDxmt
            &&& n.2.len() == 1
            &&& n.2[0].0 == Severity::Warn
        }),
{
}

/// The extraction's `ok` row is printed only for files a real run extracted
/// and checked: a dry run, or files that were never checked complete, never
/// get it.
pub proof fn lemma_pinned_ok_row_only_when_extracted(
    phase: PinnedPhase,
    dry_run: bool,
    extracted_ok: bool,
    gbe: Seq<char>,
    dxmt_art: Seq<char>,
    e: PinnedEvent,
)
    ensures
        ({
            let n = pinned_next(phase, dry_run, extracted_ok, gbe, dxmt_art, e);
            n.2.contains((Severity::Success, "extracted ext/dxmt-artifacts (provenance marker written)"@))
                ==> !dry_run && extracted_ok && phase == PinnedPhase::Marker
        }),
{
    let n = pinned_next(phase, dry_run, extracted_ok, gbe, dxmt_art, e);
    if n.2.contains((Severity::Success, "extracted ext/dxmt-artifacts (provenance marker written)"@)) {
        let k = choose|k: int| 0 <= k < n.2.len() && n.2[k] == (Severity::Success, "extracted ext/dxmt-artifacts (provenance marker written)"@);
        assert(n.2[k].0 == Severity::Success);
    }
}

/// The provenance marker is written only after the extracted files were
/// checked, and only when they are complete or the run is a dry run, which
/// only plans the write; the old artifacts are removed only after the new
/// tarball was downloaded.
pub proof fn lemma_pinned_marker_after_check(
    phase: PinnedPhase,
    dry_run: bool,
    extracted_ok: bool,
    gbe: Seq<char>,
    dxmt_art: Seq<char>,
    e: PinnedEvent,
)
    ensures
        ({
            let n = pinned_next(phase, dry_run, extracted_ok, gbe, dxmt_art, e);
            &&& n.3 == PinnedWork::WriteMarker ==> phase == PinnedPhase::Verifying && (e == PinnedEvent::FilesChecked(
                true,
            ) || dry_run && e == PinnedEvent::FilesChecked(false))
            &&& n.3 == PinnedWork::RemoveArtifacts ==> phase == PinnedPhase::DxmtDownload && e == PinnedEvent::Done(true)
            &&& n.3 == PinnedWork::Extract ==> phase == PinnedPhase::Removing && e == PinnedEvent::Done(true)
        }),
{
}

/// A failed download, removal or marker write stops the pinned step with the
/// failure's own error, and nothing after it runs: in every phase that waits
/// for one of them, `Done(false)` ends in `Failed` with no row and no die.
pub proof fn lemma_pinned_failures_stop(
    phase: PinnedPhase,
    dry_run: bool,
    extracted_ok: bool,
    gbe: Seq<char>,
    dxmt_art: Seq<char>,
)
    requires
        phase == PinnedPhase::Goldberg || phase == PinnedPhase::DxmtDownload || phase == PinnedPhase::Removing
            || phase == PinnedPhase::Marker,
    ensures
        pinned_next(phase, dry_run, extracted_ok, gbe, dxmt_art, PinnedEvent::Done(false)) == (
            PinnedPhase::Failed,
            extracted_ok,
            Seq::<(Severity, Seq<char>)>::empty(),
            PinnedWork::Fail,
            None::<(Seq<char>, Option<Seq<char>>)>,
        ),
{
}

/// The DXMT check is asked for only once the Goldberg dll is settled: after
/// its download succeeded, or when a present dll with a non-pinned hash is
/// kept. A missing or pinned dll is always downloaded first.
pub proof fn lemma_pinned_dxmt_only_after_goldberg(
    phase: PinnedPhase,
    dry_run: bool,
    extracted_ok: bool,
    gbe: Seq<char>,
    dxmt_art: Seq<char>,
    e: PinnedEvent,
)
    ensures
        ({
            let n = pinned_next(phase, dry_run, extracted_ok, gbe, dxmt_art, e);
            &&& n.3 == PinnedWork::CheckDxmt ==> (phase == PinnedPhase::Goldberg && e == PinnedEvent::Done(true)) || (
            phase == PinnedPhase::Start && e == (PinnedEvent::GoldbergProbed { present: true, hash_matches: false }))
            &&& n.3 == PinnedWork::DownloadGoldberg ==> phase == PinnedPhase::Start && (e
                == (PinnedEvent::GoldbergProbed { present: false, hash_matches: false }) || e
                == (PinnedEvent::GoldbergProbed { present: false, hash_matches: true }) || e
                == (PinnedEvent::GoldbergProbed { present: true, hash_matches: true }))
            &&& phase == PinnedPhase::Start && (e == (PinnedEvent::GoldbergProbed { present: false, hash_matches: false })
                || e == (PinnedEvent::GoldbergProbed { present: true, hash_matches: true })) ==> n.3
                == PinnedWork::DownloadGoldberg && n.0 == PinnedPhase::Goldberg
        }),
{
}

/// The extraction's outcomes: a cancellation fails with its own error, any
/// other failure dies "extraction failed", and only a finished extraction
/// goes on to check the files.
pub proof fn lemma_pinned_extraction(dry_run: bool, extracted_ok: bool, gbe: Seq<char>, dxmt_art: Seq<char>, o: ExtractOutcome)
    ensures
        ({
            let n = pinned_next(PinnedPhase::Extracting, dry_run, extracted_ok, gbe, dxmt_art, PinnedEvent::Extracted(o));
            &&& o == ExtractOutcome::Cancelled ==> n.0 == PinnedPhase::Failed && n.3 == PinnedWork::Fail && n.4 is None
            &&& o == ExtractOutcome::Failed ==> n.0 == PinnedPhase::Failed && n.3 == PinnedWork::Die && n.4 == Some(
                ("extraction failed"@, None::<Seq<char>>),
            )
            &&& (n.3 == PinnedWork::CheckFiles) == (o == ExtractOutcome::Extracted)
        }),
{
}

/// A real run with incomplete extracted files dies naming the directory to
/// delete, and writes no marker.
pub proof fn lemma_pinned_incomplete_dies(extracted_ok: bool, gbe: Seq<char>, dxmt_art: Seq<char>)
    ensures
        pinned_next(PinnedPhase::Verifying, false, extracted_ok, gbe, dxmt_art, PinnedEvent::FilesChecked(false))
            == (
            PinnedPhase::Failed,
            false,
            Seq::<(Severity, Seq<char>)>::empty(),
            PinnedWork::Die,
            Some(("extracted dxmt-artifacts are incomplete — delete "@ + dxmt_art + " and re-run setup"@, None::<Seq<char>>)),
        ),
{
}

/// A failed `git submodule` command stops the step with its own error before
/// the next command or any check.
pub proof fn lemma_submodules_git_failure_stops(phase: SubmodulesPhase, dry_run: bool, root: Seq<char>)
    requires
        phase == SubmodulesPhase::TopLevel || phase == SubmodulesPhase::Wine || phase == SubmodulesPhase::Openvr,
    ensures
        submodules_next(phase, dry_run, root, SubmodulesEvent::GitDone(false)) == (
            SubmodulesPhase::Failed,
            Seq::<(Severity, Seq<char>)>::empty(),
            SubmodulesWork::Fail,
            None::<(Seq<char>, Option<Seq<char>>)>,
        ),
{
}

/// On a real run the two postconditions are enforced: a missing `openvr`
/// header dies with setup.sh's text, and an ALVR checkout without the oxrsys
/// patch set dies naming the checkout to fix.
pub proof fn lemma_submodules_real_run_postconditions(root: Seq<char>, t: Option<String>)
    ensures
        submodules_next(SubmodulesPhase::Header, false, root, SubmodulesEvent::HeaderFound(false)) == (
            SubmodulesPhase::Failed,
            Seq::<(Severity, Seq<char>)>::empty(),
            SubmodulesWork::Die,
            Some(
                (
                    "ALVR openvr submodule did not materialize — check network/auth and re-run setup"@,
                    None::<Seq<char>>,
                ),
            ),
        ),
        !(opt_view(t) matches Some(x) && contains_str(x, "is_streaming_nonblocking"@)) ==> submodules_next(
            SubmodulesPhase::Patchset,
            false,
            root,
            SubmodulesEvent::ConnectionRs(t),
        ).3 == Some(
            (
                "ALVR submodule is missing the oxrsys patches — run: git -C \""@ + root
                    + "\" submodule update --checkout ext/ALVR"@,
                None::<Seq<char>>,
            ),
        ),
{
}

} // verus!
