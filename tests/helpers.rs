use workxgoam::helpers::{
    helper_file_name, helper_location, kill_request, launch_request, shutdown_steps, startup_helpers, BuildMode,
    HelperKind, HelperLocation, Platform, ShutdownStep, SpawnError, SpawnRequest,
};

fn req(program: &str, args: &[&str], visible: bool) -> SpawnRequest {
    SpawnRequest { program: program.to_string(), args: args.iter().map(|a| a.to_string()).collect(), visible }
}

#[test]
fn backend_runs_hidden_without_arguments() {
    let r = launch_request(HelperKind::Backend, Platform::Windows, BuildMode::Release, "C:\\app\\WorkXFlaskServer.exe".to_string(), true, String::new());
    assert_eq!(r, Ok(req("C:\\app\\WorkXFlaskServer.exe", &[], false)));
}

#[test]
fn missing_backend_is_a_spawn_error() {
    let r = launch_request(HelperKind::Backend, Platform::Linux, BuildMode::Release, "/opt/app/WorkXFlaskServer.exe".to_string(), false, String::new());
    assert_eq!(r, Err(SpawnError::Missing("/opt/app/WorkXFlaskServer.exe".to_string())));
}

#[test]
fn file_monitor_runs_in_a_console_on_windows() {
    for mode in [BuildMode::Debug, BuildMode::Release] {
        let r = launch_request(HelperKind::FileMonitor, Platform::Windows, mode, "C:\\p\\realtime_transcribe.py".to_string(), false, "D:\\out".to_string());
        assert_eq!(
            r,
            Ok(req(
                "cmd",
                &["/c", "start", "cmd", "/k", "python", "C:\\p\\realtime_transcribe.py", "--source", "output", "--outdir", "D:\\out", "--azure"],
                true
            ))
        );
    }
}

#[test]
fn file_monitor_elsewhere_is_unsupported() {
    for p in [Platform::Linux, Platform::MacOs, Platform::Other] {
        let r = launch_request(HelperKind::FileMonitor, p, BuildMode::Debug, "x".to_string(), true, "/tmp/out".to_string());
        assert_eq!(r, Err(SpawnError::Unsupported));
    }
}

#[test]
fn monitor_gui_in_development_builds() {
    let dir = "/tmp/out".to_string();
    let path = "/src/src-python/wav_monitor_gui.py".to_string();
    assert_eq!(
        launch_request(HelperKind::MonitorGui, Platform::Windows, BuildMode::Debug, path.clone(), true, dir.clone()),
        Ok(req("cmd", &["/c", "start", "cmd", "/k", "python", "/src/src-python/wav_monitor_gui.py", "--monitor-dir", "/tmp/out"], true))
    );
    assert_eq!(
        launch_request(HelperKind::MonitorGui, Platform::Linux, BuildMode::Debug, path.clone(), true, dir.clone()),
        Ok(req("gnome-terminal", &["--", "python", "/src/src-python/wav_monitor_gui.py", "--monitor-dir", "/tmp/out"], true))
    );
    assert_eq!(
        launch_request(HelperKind::MonitorGui, Platform::MacOs, BuildMode::Debug, path.clone(), true, dir.clone()),
        Ok(req("open", &["-a", "Terminal", "/src/src-python/wav_monitor_gui.py", "--monitor-dir", "/tmp/out"], true))
    );
    assert_eq!(
        launch_request(HelperKind::MonitorGui, Platform::Other, BuildMode::Debug, path, true, dir),
        Err(SpawnError::Unsupported)
    );
}

#[test]
fn monitor_gui_in_release_builds() {
    assert_eq!(
        launch_request(HelperKind::MonitorGui, Platform::Windows, BuildMode::Release, "C:\\app\\wav_monitor_gui.exe".to_string(), true, "D:\\out".to_string()),
        Ok(req("C:\\app\\wav_monitor_gui.exe", &["--monitor-dir", "D:\\out"], false))
    );
    assert_eq!(
        launch_request(HelperKind::MonitorGui, Platform::Windows, BuildMode::Release, "C:\\app\\wav_monitor_gui.exe".to_string(), false, "D:\\out".to_string()),
        Err(SpawnError::Missing("C:\\app\\wav_monitor_gui.exe".to_string()))
    );
}

#[test]
fn helper_files_and_places() {
    assert_eq!(helper_file_name(HelperKind::Backend, BuildMode::Release), "WorkXFlaskServer.exe");
    assert_eq!(helper_file_name(HelperKind::FileMonitor, BuildMode::Debug), "realtime_transcribe.py");
    assert_eq!(helper_file_name(HelperKind::FileMonitor, BuildMode::Release), "realtime_transcribe.exe");
    assert_eq!(helper_file_name(HelperKind::MonitorGui, BuildMode::Debug), "wav_monitor_gui.py");
    assert_eq!(helper_file_name(HelperKind::MonitorGui, BuildMode::Release), "wav_monitor_gui.exe");
    assert_eq!(helper_location(HelperKind::Backend, BuildMode::Debug), HelperLocation::ExecutableDir);
    assert_eq!(helper_location(HelperKind::MonitorGui, BuildMode::Debug), HelperLocation::ScriptDir);
    assert_eq!(helper_location(HelperKind::FileMonitor, BuildMode::Release), HelperLocation::ExecutableDir);
}

#[test]
fn backend_starts_only_in_release_builds() {
    assert_eq!(startup_helpers(BuildMode::Release), vec![HelperKind::Backend]);
    assert_eq!(startup_helpers(BuildMode::Debug), Vec::<HelperKind>::new());
}

#[test]
fn shutdown_clears_flag_then_ends_helpers_on_windows() {
    assert_eq!(
        shutdown_steps(Platform::Windows),
        vec![
            ShutdownStep::ClearFlag,
            ShutdownStep::Kill(req("taskkill", &["/F", "/IM", "WorkXFlaskServer.exe"], false)),
            ShutdownStep::Kill(req("taskkill", &["/F", "/IM", "wav_monitor.exe"], false)),
            ShutdownStep::Kill(req("taskkill", &["/F", "/IM", "wav_monitor_gui.exe"], false)),
        ]
    );
}

#[test]
fn shutdown_uses_pkill_on_unix() {
    for p in [Platform::Linux, Platform::MacOs] {
        assert_eq!(
            shutdown_steps(p),
            vec![
                ShutdownStep::ClearFlag,
                ShutdownStep::Kill(req("pkill", &["WorkXFlaskServer.exe"], false)),
                ShutdownStep::Kill(req("pkill", &["wav_monitor.py"], false)),
                ShutdownStep::Kill(req("pkill", &["wav_monitor_gui.py"], false)),
            ]
        );
    }
    assert_eq!(kill_request(Platform::Linux, HelperKind::MonitorGui), req("pkill", &["wav_monitor_gui.py"], false));
}

#[test]
fn shutdown_elsewhere_only_clears_flag() {
    assert_eq!(shutdown_steps(Platform::Other), vec![ShutdownStep::ClearFlag]);
}
