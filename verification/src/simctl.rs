//! Simulator-device run steps: boot, install, launch.
//!
//! The device-control collaborator performs the operations themselves; the
//! functions here decide what each outcome means — which lines the client
//! log receives, whether the session keeps going, and which error
//! propagates. An operation's outcome is handed in as `None` for success
//! or `Some(message)` for a failure with its human-readable text.

use vstd::prelude::*;

use crate::error::DaemonError;
use crate::event::SinkOp;
use crate::event::SinkOpView;
use crate::state::SimDevice;
use crate::util::contains_seq;
use crate::util::contains_str;

verus! {

/// The text by which an already-booted device reports a boot failure that
/// is really a success.
pub open spec fn booted_marker() -> Seq<char> {
    "current state Booted"@
}

/// Runs one built application on one simulator device.
#[derive(Debug)]
pub struct SimDeviceRunner {
    /// The device to run on.
    pub device: SimDevice,
    /// The target being run, named in every status line.
    pub target: String,
    /// Bundle identifier of the application to install and launch.
    pub app_id: String,
    /// Path of the built application bundle.
    pub path_to_app: String,
}

impl SimDeviceRunner {
    /// Builds a runner for one device, target and application bundle.
    pub fn new(device: SimDevice, target: String, app_id: String, path_to_app: String) -> (r:
        SimDeviceRunner)
        ensures
            r.device@ == device@,
            r.target@ == target@,
            r.app_id@ == app_id@,
            r.path_to_app@ == path_to_app@,
    {
        SimDeviceRunner { device, target, app_id, path_to_app }
    }

    /// The status line logged when booting begins.
    pub fn booting_msg(&self) -> (r: String)
        ensures
            r@ == "[Run:"@ + self.target@ + "] Booting "@ + self.device.name@,
    {
        let r = String::from_str("[Run:").concat(self.target.as_str()).concat(
            "] Booting ",
        ).concat(self.device.name.as_str());
        proof {
            assert(r@ =~= "[Run:"@ + self.target@ + "] Booting "@ + self.device.name@);
        }
        r
    }

    /// The status line logged when installing begins.
    pub fn installing_msg(&self) -> (r: String)
        ensures
            r@ == "[Run:"@ + self.target@ + "] Installing "@ + self.app_id@,
    {
        let r = String::from_str("[Run:").concat(self.target.as_str()).concat(
            "] Installing ",
        ).concat(self.app_id.as_str());
        proof {
            assert(r@ =~= "[Run:"@ + self.target@ + "] Installing "@ + self.app_id@);
        }
        r
    }

    /// The status line logged when launching begins.
    pub fn launching_msg(&self) -> (r: String)
        ensures
            r@ == "[Run:"@ + self.target@ + "] Launching "@ + self.app_id@,
    {
        let r = String::from_str("[Run:").concat(self.target.as_str()).concat(
            "] Launching ",
        ).concat(self.app_id.as_str());
        proof {
            assert(r@ =~= "[Run:"@ + self.target@ + "] Launching "@ + self.app_id@);
        }
        r
    }

    /// The status line logged once the launch call has returned and the
    /// application's console is attached.
    pub fn connected_msg(&self) -> (r: String)
        ensures
            r@ == "[Run:"@ + self.target@ + "] Connected"@,
    {
        let r = String::from_str("[Run:").concat(self.target.as_str()).concat("] Connected");
        proof {
            assert(r@ =~= "[Run:"@ + self.target@ + "] Connected"@);
        }
        r
    }

    /// Classifies the outcome of the boot call. Booting is idempotent: a
    /// failure whose message says the device is already in the booted
    /// state is a success and nothing is logged. Any other failure is
    /// terminal: its message is logged, the log's status is set to failed,
    /// and the error propagates.
    pub fn boot(&self, boot_error: Option<String>) -> (r: (Vec<SinkOp>, Result<(), DaemonError>))
        ensures
            match boot_error {
                None => r.1 is Ok && r.0@.len() == 0,
                Some(m) => if contains_seq(m@, booted_marker()) {
                    r.1 is Ok && r.0@.len() == 0
                } else {
                    &&& r.0@.len() == 2
                    &&& r.0@[0]@ == SinkOpView::Log(m@)
                    &&& r.0@[1]@ == (SinkOpView::SetStatusEnd { success: false, finished: true })
                    &&& (r.1 matches Err(e) && e matches DaemonError::Run(c) && c@ == m@)
                },
            },
    {
        match boot_error {
            None => (Vec::new(), Ok(())),
            Some(m) => {
                if contains_str(m.as_str(), "current state Booted") {
                    (Vec::new(), Ok(()))
                } else {
                    let mut ops: Vec<SinkOp> = Vec::new();
                    ops.push(SinkOp::Log(m.clone()));
                    ops.push(SinkOp::SetStatusEnd { success: false, finished: true });
                    (ops, Err(DaemonError::Run(m)))
                }
            },
        }
    }

    /// Classifies the outcome of the install call: any failure is logged,
    /// marks the session failed, and propagates. No retry.
    pub fn install(&self, install_error: Option<String>) -> (r: (
        Vec<SinkOp>,
        Result<(), DaemonError>,
    ))
        ensures
            match install_error {
                None => r.1 is Ok && r.0@.len() == 0,
                Some(m) => {
                    &&& r.0@.len() == 2
                    &&& r.0@[0]@ == SinkOpView::Log(m@)
                    &&& r.0@[1]@ == (SinkOpView::SetStatusEnd { success: false, finished: true })
                    &&& (r.1 matches Err(e) && e matches DaemonError::Run(c) && c@ == m@)
                },
            },
    {
        self.ok_or_abort(install_error)
    }

    /// Maps an operation outcome to its sink operations and result: a
    /// failure is logged to the client, the log's status is set to failed,
    /// and the error propagates.
    fn ok_or_abort(&self, res: Option<String>) -> (r: (Vec<SinkOp>, Result<(), DaemonError>))
        ensures
            match res {
                None => r.1 is Ok && r.0@.len() == 0,
                Some(m) => {
                    &&& r.0@.len() == 2
                    &&& r.0@[0]@ == SinkOpView::Log(m@)
                    &&& r.0@[1]@ == (SinkOpView::SetStatusEnd { success: false, finished: true })
                    &&& (r.1 matches Err(e) && e matches DaemonError::Run(c) && c@ == m@)
                },
            },
    {
        match res {
            None => (Vec::new(), Ok(())),
            Some(m) => {
                let mut ops: Vec<SinkOp> = Vec::new();
                ops.push(SinkOp::Log(m.clone()));
                ops.push(SinkOp::SetStatusEnd { success: false, finished: true });
                (ops, Err(DaemonError::Run(m)))
            },
        }
    }

    /// The full launch invocation: the platform's launch facility is asked
    /// to terminate any prior running instance of the application and to
    /// attach its console, for the runner's device and bundle identifier.
    pub fn launch_argv(&self) -> (r: Vec<String>)
        ensures
            r@.len() == 7,
            r@[0]@ == "xcrun"@,
            r@[1]@ == "simctl"@,
            r@[2]@ == "launch"@,
            r@[3]@ == "--terminate-running-process"@,
            r@[4]@ == "--console"@,
            r@[5]@ == self.device.udid@,
            r@[6]@ == self.app_id@,
    {
        let mut v: Vec<String> = Vec::new();
        v.push(String::from_str("xcrun"));
        v.push(String::from_str("simctl"));
        v.push(String::from_str("launch"));
        v.push(String::from_str("--terminate-running-process"));
        v.push(String::from_str("--console"));
        v.push(self.device.udid.clone());
        v.push(self.app_id.clone());
        v
    }
}

} // verus!
