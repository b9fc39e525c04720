//! The run lifecycle orchestrator's setup half: given a target platform
//! and the build output description, decide how a run begins.
//!
//! A desktop target resolves the built binary and executes it directly; a
//! simulator target looks up the requested device and prepares a
//! [`SimDeviceRunner`] for the boot/install/launch sequence. Either way
//! the originating client's registration is required, and the returned
//! plan carries the sink operations that open the session. The streaming
//! half lives in [`crate::stream`].

use vstd::prelude::*;

use crate::error::DaemonError;
use crate::event::SinkOp;
use crate::event::SinkOpView;
use crate::event::ops_view;
use crate::simctl::SimDeviceRunner;
use crate::state::DaemonState;

verus! {

/// A target platform for one run.
#[derive(Clone, Copy, PartialEq, Eq, Structural, Debug)]
pub enum Platform {
    /// The desktop: the built binary executes directly.
    MacOs,
    /// A phone simulator device.
    Ios,
    /// A watch simulator device.
    WatchOs,
    /// A TV simulator device.
    TvOs,
}

impl Platform {
    /// Whether this platform is the desktop one.
    pub fn is_mac_os(&self) -> (r: bool)
        ensures
            r == (*self is MacOs),
    {
        match self {
            Platform::MacOs => true,
            _ => false,
        }
    }
}

/// Where the client renders the session's log buffer.
#[derive(Clone, Copy, PartialEq, Eq, Structural, Debug)]
pub enum BufferDirection {
    /// Split the window horizontally.
    Horizontal,
    /// Split the window vertically.
    Vertical,
    /// Use a floating window.
    Float,
}

/// The originating client of a run request.
pub struct Client {
    /// The client's process identifier.
    pub pid: u64,
}

/// What the core reads of a build's settings: the product's bundle
/// identifier, the directory holding the built application bundle, and
/// the resolved path of the built binary when the settings resolve one.
pub struct BuildSettings {
    /// Bundle identifier of the built product.
    pub product_bundle_identifier: String,
    /// Directory containing the built application bundle.
    pub metal_library_output_dir: String,
    /// Resolved path of the built binary; `None` when the build settings
    /// do not resolve one.
    pub output_binary_path: Option<String>,
}

/// One run to orchestrate: the requesting client, the target to run, the
/// platform to run it on, the requested device if any, the client-side
/// buffer direction, and extra launch arguments.
pub struct Runner {
    /// The requesting client.
    pub client: Client,
    /// The target being run.
    pub target: String,
    /// The platform the target runs on.
    pub platform: Platform,
    /// Unique identifier of the requested simulator device, if any.
    pub udid: Option<String>,
    /// Where the client renders the log buffer.
    pub direction: Option<BufferDirection>,
    /// Extra arguments for the launched program.
    pub args: Vec<String>,
}

/// How a run begins, decided from the platform and the build settings.
#[derive(Debug)]
pub enum RunPlan {
    /// Execute the built binary directly; `ops` opens the session's log.
    Desktop {
        /// Path of the binary to execute.
        program: String,
        /// Sink operations opening the session.
        ops: Vec<SinkOp>,
    },
    /// Boot, install and launch on a simulator device; `ops` opens the
    /// session's log.
    Simulator {
        /// The prepared device runner.
        runner: SimDeviceRunner,
        /// Sink operations opening the session.
        ops: Vec<SinkOp>,
    },
}

/// What starting a desktop run guarantees: it fails exactly when the
/// client is gone or the build settings resolve no binary, and otherwise
/// yields the resolved binary with a freshly opened log.
pub open spec fn macos_run_post(
    runner: Runner,
    state: DaemonState,
    settings: BuildSettings,
    r: Result<RunPlan, DaemonError>,
) -> bool {
    &&& !state.has_client(runner.client.pid) ==> (r matches Err(e) && e is Run)
    &&& state.has_client(runner.client.pid) && settings.output_binary_path is None ==> (
    r matches Err(e) && e is BuildSettings)
    &&& state.has_client(runner.client.pid) ==> (settings.output_binary_path matches Some(p) ==> (
    r matches Ok(plan) && plan matches RunPlan::Desktop { program, ops } && program@ == p@
        && ops_view(ops@) == seq![SinkOpView::LogTitle, SinkOpView::OpenWin]))
}

/// What starting a simulator run guarantees: it fails exactly when the
/// client is gone or no known device carries the requested identifier,
/// and otherwise yields a device runner for that device, this target and
/// the built bundle, with the session marked running.
pub open spec fn simctl_run_post(
    runner: Runner,
    state: DaemonState,
    settings: BuildSettings,
    r: Result<RunPlan, DaemonError>,
) -> bool {
    &&& !state.has_client(runner.client.pid) ==> (r matches Err(e) && e is Run)
    &&& state.has_client(runner.client.pid) && !sim_device_requested(runner, state) ==> (
    r matches Err(e) && e matches DaemonError::Run(m) && m@ == "udid not found!!"@)
    &&& state.has_client(runner.client.pid) && sim_device_requested(runner, state) ==> (
    r matches Ok(plan) && plan matches RunPlan::Simulator { runner: dr, ops } && (
    runner.udid matches Some(u) && dr.device.udid@ == u@) && dr.target@ == runner.target@
        && dr.app_id@ == settings.product_bundle_identifier@ && dr.path_to_app@
        == settings.metal_library_output_dir@ && (exists|i: int|
        0 <= i < state.devices@.len() && (#[trigger] state.devices@[i])@ == dr.device@) && ops_view(
        ops@,
    ) == seq![SinkOpView::SetRunning])
}

/// Whether the run names a device identifier that the state's device
/// snapshot knows.
pub open spec fn sim_device_requested(runner: Runner, state: DaemonState) -> bool {
    runner.udid matches Some(u) && exists|i: int|
        0 <= i < state.devices@.len() && (#[trigger] state.devices@[i]).udid@ == u@
}

impl Runner {
    /// Begins a run: the desktop branch for a desktop platform, the
    /// simulator branch for every other platform.
    pub fn run(self, state: &DaemonState, settings: BuildSettings) -> (r: Result<
        RunPlan,
        DaemonError,
    >)
        ensures
            self.platform is MacOs ==> macos_run_post(self, *state, settings, r),
            !(self.platform is MacOs) ==> simctl_run_post(self, *state, settings, r),
    {
        if self.platform.is_mac_os() {
            self.run_as_macos_app(state, settings)
        } else {
            self.run_with_simctl(state, settings)
        }
    }

    /// Begins a desktop run: requires the client to still be registered,
    /// resolves the built binary from the build settings, and opens the
    /// session's log (title, then window).
    pub fn run_as_macos_app(self, state: &DaemonState, settings: BuildSettings) -> (r: Result<
        RunPlan,
        DaemonError,
    >)
        ensures
            macos_run_post(self, *state, settings, r),
    {
        if !state.contains_client(self.client.pid) {
            return Err(DaemonError::Run(String::from_str("client not found")));
        }
        match settings.output_binary_path {
            None => Err(
                DaemonError::BuildSettings(
                    String::from_str("no output binary path in build settings"),
                ),
            ),
            Some(program) => {
                let mut ops: Vec<SinkOp> = Vec::new();
                ops.push(SinkOp::LogTitle);
                ops.push(SinkOp::OpenWin);
                proof {
                    assert(ops_view(ops@) =~= seq![SinkOpView::LogTitle, SinkOpView::OpenWin]);
                }
                Ok(RunPlan::Desktop { program, ops })
            },
        }
    }

    /// Begins a simulator run: requires the client to still be registered,
    /// looks the requested device up in the device snapshot, marks the
    /// session running, and prepares the boot/install/launch runner.
    pub fn run_with_simctl(self, state: &DaemonState, settings: BuildSettings) -> (r: Result<
        RunPlan,
        DaemonError,
    >)
        ensures
            simctl_run_post(self, *state, settings, r),
    {
        if !state.contains_client(self.client.pid) {
            return Err(DaemonError::Run(String::from_str("client not found")));
        }
        let device = match &self.udid {
            Some(u) => state.find_device(u.as_str()),
            None => None,
        };
        match device {
            None => Err(DaemonError::Run(String::from_str("udid not found!!"))),
            Some(device) => {
                let mut ops: Vec<SinkOp> = Vec::new();
                ops.push(SinkOp::SetRunning);
                proof {
                    assert(ops_view(ops@) =~= seq![SinkOpView::SetRunning]);
                }
                let runner = SimDeviceRunner::new(
                    device,
                    self.target,
                    settings.product_bundle_identifier,
                    settings.metal_library_output_dir,
                );
                Ok(RunPlan::Simulator { runner, ops })
            },
        }
    }
}

} // verus!
