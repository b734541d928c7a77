//! Step ids: the key every row of a stage is grouped and sorted by,
//! `<stage>.<position>.<name>` with the position in the stage's own order.

use vstd::prelude::*;

verus! {

pub const SETUP_SUBMODULES: &'static str = "setup.1.submodules";
pub const SETUP_PINNED: &'static str = "setup.2.pinned";
pub const SETUP_CONFIG: &'static str = "setup.3.config";
pub const SETUP_GAME: &'static str = "setup.4.game";

pub const BUILD_TOOLS: &'static str = "build.1.tools";
pub const BUILD_OXRSYS: &'static str = "build.2.oxrsys";
pub const BUILD_HELPER: &'static str = "build.3.helper";
pub const BUILD_WINEOPENXR: &'static str = "build.4.wineopenxr";
pub const BUILD_DASHBOARD: &'static str = "build.5.dashboard";
pub const BUILD_OUTPUTS: &'static str = "build.6.outputs";

pub const INSTALL_DXMT_OVERLAY: &'static str = "install.1.dxmt-overlay";
pub const INSTALL_WINEOPENXR: &'static str = "install.2.wineopenxr";
pub const INSTALL_BOTTLE: &'static str = "install.3.bottle";
pub const INSTALL_HOST_MANIFEST: &'static str = "install.4.host-manifest";

pub const RUN_PREFLIGHT: &'static str = "run.1.preflight";
pub const RUN_ADB_FORWARDS: &'static str = "run.2.adb-forwards";
pub const RUN_WINESERVER: &'static str = "run.3.wineserver";
pub const RUN_GOLDBERG: &'static str = "run.4.goldberg";
pub const RUN_AUDIO: &'static str = "run.5.audio";
pub const RUN_DASHBOARD: &'static str = "run.6.dashboard";
pub const RUN_ADB_REVERSE: &'static str = "run.7.adb-reverse";
pub const RUN_LAUNCH: &'static str = "run.8.launch";
pub const RUN_SUPERVISE: &'static str = "run.9.supervise";
pub const RUN_TEARDOWN: &'static str = "run.10.teardown";

pub const STOP_WINESERVER: &'static str = "stop.1.wineserver";
pub const STOP_PORTS: &'static str = "stop.2.ports";
pub const STOP_REAP: &'static str = "stop.3.reap";
pub const STOP_AUDIO: &'static str = "stop.4.audio";

} // verus!
