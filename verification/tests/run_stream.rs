use xcodebase::error::DaemonError;
use xcodebase::event::OutputEvent;
use xcodebase::event::SinkOp;
use xcodebase::runner::BuildSettings;
use xcodebase::runner::Client;
use xcodebase::runner::Platform;
use xcodebase::runner::RunPlan;
use xcodebase::runner::Runner;
use xcodebase::simctl::SimDeviceRunner;
use xcodebase::state::DaemonState;
use xcodebase::state::SimDevice;
use xcodebase::stream::desktop_drain;
use xcodebase::stream::desktop_step;
use xcodebase::stream::sim_drain;
use xcodebase::stream::sim_step;
use xcodebase::util::as_section;
use xcodebase::util::contains_str;
use xcodebase::util::error_line;
use xcodebase::util::separator;

fn device() -> SimDevice {
    SimDevice {
        udid: "UD-1".to_string(),
        name: "iPhone 13".to_string(),
        is_booted: false,
    }
}

fn sim_runner() -> SimDeviceRunner {
    SimDeviceRunner::new(
        device(),
        "App".to_string(),
        "com.example.app".to_string(),
        "/build/out".to_string(),
    )
}

fn logged(op: &SinkOp) -> Option<&str> {
    match op {
        SinkOp::Log(s) => Some(s.as_str()),
        _ => None,
    }
}

#[test]
fn boot_already_booted_is_success() {
    let runner = sim_runner();
    let err = "Unable to boot device in current state Booted".to_string();
    let (ops, res) = runner.boot(Some(err));
    assert!(res.is_ok());
    assert!(ops.is_empty());
}

#[test]
fn boot_other_failure_is_terminal() {
    let runner = sim_runner();
    let (ops, res) = runner.boot(Some("device disconnected".to_string()));
    assert_eq!(ops.len(), 2);
    assert_eq!(logged(&ops[0]), Some("device disconnected"));
    assert!(matches!(
        ops[1],
        SinkOp::SetStatusEnd {
            success: false,
            finished: true
        }
    ));
    match res.unwrap_err() {
        DaemonError::Run(m) => assert_eq!(m, "device disconnected"),
        other => panic!("wrong error: {:?}", other.message()),
    }
}

#[test]
fn boot_success_logs_nothing() {
    let (ops, res) = sim_runner().boot(None);
    assert!(res.is_ok());
    assert!(ops.is_empty());
}

#[test]
fn install_failure_is_logged_and_propagates() {
    let (ops, res) = sim_runner().install(Some("no space".to_string()));
    assert_eq!(ops.len(), 2);
    assert_eq!(logged(&ops[0]), Some("no space"));
    assert!(matches!(
        ops[1],
        SinkOp::SetStatusEnd {
            success: false,
            finished: true
        }
    ));
    assert!(matches!(res, Err(DaemonError::Run(_))));
    let (ops, res) = sim_runner().install(None);
    assert!(ops.is_empty());
    assert!(res.is_ok());
}

#[test]
fn status_messages_name_target_and_subject() {
    let runner = sim_runner();
    assert_eq!(runner.booting_msg(), "[Run:App] Booting iPhone 13");
    assert_eq!(runner.installing_msg(), "[Run:App] Installing com.example.app");
    assert_eq!(runner.launching_msg(), "[Run:App] Launching com.example.app");
    assert_eq!(runner.connected_msg(), "[Run:App] Connected");
}

#[test]
fn launch_argv_terminates_prior_instance_and_attaches_console() {
    let argv = sim_runner().launch_argv();
    assert_eq!(
        argv,
        vec![
            "xcrun",
            "simctl",
            "launch",
            "--terminate-running-process",
            "--console",
            "UD-1",
            "com.example.app",
        ]
    );
}

#[test]
fn suppressed_diagnostic_never_reaches_the_log() {
    let events = vec![
        OutputEvent::Stdout("before".to_string()),
        OutputEvent::Stdout("mat4x4: ignoring singular matrix".to_string()),
        OutputEvent::Stdout("after".to_string()),
        OutputEvent::Exit(Some("0".to_string())),
    ];
    let ops = sim_drain(&events);
    let lines: Vec<&str> = ops.iter().filter_map(logged).collect();
    assert_eq!(lines, vec!["before", "after", "[Exit] 0"]);
    for line in lines {
        assert!(!contains_str(line, "ignoring singular matrix"));
    }
}

#[test]
fn sim_stream_prefixes_errors_and_renders_exit() {
    let events = vec![
        OutputEvent::Stdout("hello".to_string()),
        OutputEvent::Stderr("oops".to_string()),
        OutputEvent::Error("bad".to_string()),
        OutputEvent::Exit(Some("3".to_string())),
    ];
    let ops = sim_drain(&events);
    let lines: Vec<&str> = ops.iter().filter_map(logged).collect();
    assert_eq!(lines, vec!["hello", "[Error] oops", "[Error] bad", "[Exit] 3"]);
}

#[test]
fn sim_exit_without_status_renders_error_line() {
    let step = sim_step(true, &OutputEvent::Exit(None));
    assert!(step.done);
    assert_eq!(step.ops.len(), 1);
    assert_eq!(logged(&step.ops[0]), Some("[Error] Unable to get exit code"));
}

#[test]
fn sim_stream_stops_when_client_vanishes() {
    let step = sim_step(false, &OutputEvent::Stdout("line".to_string()));
    assert!(step.done);
    assert!(step.ops.is_empty());
}

#[test]
fn desktop_stream_orders_lines_and_marks_success() {
    let events = vec![
        OutputEvent::Stdout("A".to_string()),
        OutputEvent::Stderr("B".to_string()),
        OutputEvent::Exit(Some("0".to_string())),
    ];
    let ops = desktop_drain(&events);
    assert_eq!(ops.len(), 4);
    assert_eq!(logged(&ops[0]), Some("A"));
    assert_eq!(logged(&ops[1]), Some("[Error] B"));
    // The terminal section is the success-status line: an empty message
    // framed by rules.
    let sep = separator();
    assert_eq!(logged(&ops[2]), Some(format!("{sep}\n\n{sep}").as_str()));
    assert!(matches!(
        ops[3],
        SinkOp::SetStatusEnd {
            success: true,
            finished: true
        }
    ));
}

#[test]
fn desktop_exit_code_one_renders_panic_and_fails() {
    let step = desktop_step(true, &OutputEvent::Exit(Some("1".to_string())));
    assert!(step.done);
    assert_eq!(step.ops.len(), 2);
    let line = logged(&step.ops[0]).unwrap();
    assert!(contains_str(line, "Panic 1"));
    let sep = separator();
    assert_eq!(line, format!("{sep}\nPanic 1\n{sep}"));
    assert!(matches!(
        step.ops[1],
        SinkOp::SetStatusEnd {
            success: false,
            finished: true
        }
    ));
}

#[test]
fn formatting_helpers_are_exact() {
    assert_eq!(error_line("x"), "[Error] x");
    let sep = separator();
    assert!(sep.chars().all(|c| c == '-'));
    assert_eq!(as_section("msg"), format!("{sep}\nmsg\n{sep}"));
    assert!(contains_str("abcdef", "cde"));
    assert!(contains_str("abc", ""));
    assert!(!contains_str("abc", "abcd"));
    assert!(!contains_str("abcdef", "cdf"));
}

fn state_with_client_and_device() -> DaemonState {
    let mut state = DaemonState::new();
    state.clients.push(xcodebase::state::ClientEntry { pid: 7, sink: 1 });
    state.devices.push(device());
    state
}

fn settings() -> BuildSettings {
    BuildSettings {
        product_bundle_identifier: "com.example.app".to_string(),
        metal_library_output_dir: "/build/out".to_string(),
        output_binary_path: Some("/build/out/App".to_string()),
    }
}

fn runner_for(platform: Platform, udid: Option<&str>) -> Runner {
    Runner {
        client: Client { pid: 7 },
        target: "App".to_string(),
        platform,
        udid: udid.map(|u| u.to_string()),
        direction: None,
        args: vec![],
    }
}

#[test]
fn desktop_run_resolves_binary_and_opens_log() {
    let state = state_with_client_and_device();
    let plan = runner_for(Platform::MacOs, None).run(&state, settings()).unwrap();
    match plan {
        RunPlan::Desktop { program, ops } => {
            assert_eq!(program, "/build/out/App");
            assert!(matches!(ops[0], SinkOp::LogTitle));
            assert!(matches!(ops[1], SinkOp::OpenWin));
            assert_eq!(ops.len(), 2);
        }
        RunPlan::Simulator { .. } => panic!("desktop platform took the simulator branch"),
    }
}

#[test]
fn desktop_run_fails_without_resolved_binary() {
    let state = state_with_client_and_device();
    let mut s = settings();
    s.output_binary_path = None;
    let err = runner_for(Platform::MacOs, None).run(&state, s).unwrap_err();
    assert!(matches!(err, DaemonError::BuildSettings(_)));
}

#[test]
fn run_fails_when_client_is_gone() {
    let state = DaemonState::new();
    let err = runner_for(Platform::MacOs, None)
        .run(&state, settings())
        .unwrap_err();
    assert!(matches!(err, DaemonError::Run(_)));
    let err = runner_for(Platform::Ios, Some("UD-1"))
        .run(&state, settings())
        .unwrap_err();
    assert!(matches!(err, DaemonError::Run(_)));
}

#[test]
fn simulator_run_requires_known_device() {
    let state = state_with_client_and_device();
    let err = runner_for(Platform::Ios, Some("UD-9"))
        .run(&state, settings())
        .unwrap_err();
    match err {
        DaemonError::Run(m) => assert_eq!(m, "udid not found!!"),
        other => panic!("wrong error: {:?}", other.message()),
    }
    let err = runner_for(Platform::Ios, None)
        .run(&state, settings())
        .unwrap_err();
    assert!(matches!(err, DaemonError::Run(_)));
}

#[test]
fn simulator_run_prepares_device_runner() {
    let state = state_with_client_and_device();
    let plan = runner_for(Platform::Ios, Some("UD-1"))
        .run(&state, settings())
        .unwrap();
    match plan {
        RunPlan::Simulator { runner, ops } => {
            assert_eq!(ops.len(), 1);
            assert!(matches!(ops[0], SinkOp::SetRunning));
            assert_eq!(runner.device.udid, "UD-1");
            assert_eq!(runner.device.name, "iPhone 13");
            assert_eq!(runner.target, "App");
            assert_eq!(runner.app_id, "com.example.app");
            assert_eq!(runner.path_to_app, "/build/out");
        }
        RunPlan::Desktop { .. } => panic!("simulator platform took the desktop branch"),
    }
}
