//! What a stage tells its front end: the event shapes the stage renderers
//! produce, and the step ids every row is attributed to.

use vstd::prelude::*;

pub mod step;

verus! {

/// `uuid::Uuid`, carried through as the identity of one stage invocation.
#[verifier::external_type_specification]
#[verifier::external_body]
pub struct ExUuid(uuid::Uuid);

/// The identity of one stage invocation.
pub type RunId = uuid::Uuid;

/// A row's severity, the shell's `info` / `ok` / `warn`.
#[derive(Debug, Clone, Copy, PartialEq, Eq, Structural)]
pub enum Severity {
    Info,
    /// The shell's `ok`.
    Success,
    Warn,
}

/// One event a stage emits.
#[derive(Debug)]
pub enum StageEvent {
    /// A verbatim line of text, leading spaces and empty lines included.
    Text { run_id: RunId, step: Option<String>, text: String },
    /// A section banner, rendered `-- <title>`.
    Section { run_id: RunId, title: String },
    /// A row attributed to a step: `info` / `ok` / `warn`.
    Line { run_id: RunId, step: Option<String>, severity: Severity, text: String },
}

impl StageEvent {
    /// The step this event is attributed to, if any.
    pub fn step(&self) -> (r: Option<&str>)
        ensures
            r matches Some(s) ==> (match self {
                StageEvent::Text { step, .. } => step matches Some(t) && s@ == t@,
                StageEvent::Line { step, .. } => step matches Some(t) && s@ == t@,
                StageEvent::Section { .. } => false,
            }),
            r is None ==> (match self {
                StageEvent::Text { step, .. } => step is None,
                StageEvent::Line { step, .. } => step is None,
                StageEvent::Section { .. } => true,
            }),
    {
        match self {
            StageEvent::Text { step, .. } => match step {
                Some(s) => Some(s.as_str()),
                None => None,
            },
            StageEvent::Line { step, .. } => match step {
                Some(s) => Some(s.as_str()),
                None => None,
            },
            StageEvent::Section { .. } => None,
        }
    }
}

/// One `./demo.sh <verb>`.
#[derive(Debug, Clone, Copy, PartialEq, Eq, Structural)]
pub enum Stage {
    Setup,
    Build,
    Install,
    Run,
    Stop,
}

/// The verb `./demo.sh` takes for `stage`.
pub open spec fn stage_verb(stage: Stage) -> Seq<char> {
    match stage {
        Stage::Setup => "setup"@,
        Stage::Build => "build"@,
        Stage::Install => "install"@,
        Stage::Run => "run"@,
        Stage::Stop => "stop"@,
    }
}

/// The step ids a stage reports under, in execution order.
pub open spec fn stage_steps(stage: Stage) -> Seq<&'static str> {
    match stage {
        Stage::Setup => seq![step::SETUP_SUBMODULES, step::SETUP_PINNED, step::SETUP_CONFIG, step::SETUP_GAME],
        Stage::Build => seq![
            step::BUILD_TOOLS,
            step::BUILD_OXRSYS,
            step::BUILD_HELPER,
            step::BUILD_WINEOPENXR,
            step::BUILD_DASHBOARD,
            step::BUILD_OUTPUTS,
        ],
        Stage::Install => seq![
            step::INSTALL_DXMT_OVERLAY,
            step::INSTALL_WINEOPENXR,
            step::INSTALL_BOTTLE,
            step::INSTALL_HOST_MANIFEST,
        ],
        Stage::Run => seq![
            step::RUN_PREFLIGHT,
            step::RUN_ADB_FORWARDS,
            step::RUN_WINESERVER,
            step::RUN_GOLDBERG,
            step::RUN_AUDIO,
            step::RUN_DASHBOARD,
            step::RUN_ADB_REVERSE,
            step::RUN_LAUNCH,
            step::RUN_SUPERVISE,
            step::RUN_TEARDOWN,
        ],
        Stage::Stop => seq![step::STOP_WINESERVER, step::STOP_PORTS, step::STOP_REAP, step::STOP_AUDIO],
    }
}

impl Stage {
    /// The verb `./demo.sh` takes for this stage.
    pub fn verb(&self) -> (s: &'static str)
        ensures
            s@ == stage_verb(*self),
    {
        match self {
            Stage::Setup => "setup",
            Stage::Build => "build",
            Stage::Install => "install",
            Stage::Run => "run",
            Stage::Stop => "stop",
        }
    }

    /// This stage's step ids, in execution order. `run`'s are one per launch
    /// action plus its three own phases: preflight, supervise and teardown.
    pub fn steps(&self) -> (v: Vec<&'static str>)
        ensures
            v@ == stage_steps(*self),
    {
        match self {
            Stage::Setup => vec![
                step::SETUP_SUBMODULES,
                step::SETUP_PINNED,
                step::SETUP_CONFIG,
                step::SETUP_GAME,
            ],
            Stage::Build => vec![
                step::BUILD_TOOLS,
                step::BUILD_OXRSYS,
                step::BUILD_HELPER,
                step::BUILD_WINEOPENXR,
                step::BUILD_DASHBOARD,
                step::BUILD_OUTPUTS,
            ],
            Stage::Install => vec![
                step::INSTALL_DXMT_OVERLAY,
                step::INSTALL_WINEOPENXR,
                step::INSTALL_BOTTLE,
                step::INSTALL_HOST_MANIFEST,
            ],
            Stage::Run => vec![
                step::RUN_PREFLIGHT,
                step::RUN_ADB_FORWARDS,
                step::RUN_WINESERVER,
                step::RUN_GOLDBERG,
                step::RUN_AUDIO,
                step::RUN_DASHBOARD,
                step::RUN_ADB_REVERSE,
                step::RUN_LAUNCH,
                step::RUN_SUPERVISE,
                step::RUN_TEARDOWN,
            ],
            Stage::Stop => vec![
                step::STOP_WINESERVER,
                step::STOP_PORTS,
                step::STOP_REAP,
                step::STOP_AUDIO,
            ],
        }
    }
}

} // verus!
