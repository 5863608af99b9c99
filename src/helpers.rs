//! The auxiliary processes: what to launch for each, and how to end them
//! by name at shutdown.

use vstd::prelude::*;

verus! {

/// The helper processes the application runs beside itself.
#[derive(Debug, Clone, Copy, PartialEq, Eq, Structural)]
pub enum HelperKind {
    /// The local HTTP backend.
    Backend,
    /// The transcription helper that watches recordings.
    FileMonitor,
    /// The monitoring window.
    MonitorGui,
}

/// The operating system the application runs on.
#[derive(Debug, Clone, Copy, PartialEq, Eq, Structural)]
pub enum Platform {
    Windows,
    Linux,
    MacOs,
    Other,
}

/// Development builds run the helpers from their scripts; release builds
/// run the packaged executables beside the application.
#[derive(Debug, Clone, Copy, PartialEq, Eq, Structural)]
pub enum BuildMode {
    Debug,
    Release,
}

/// Where a helper's file is looked for.
#[derive(Debug, Clone, Copy, PartialEq, Eq, Structural)]
pub enum HelperLocation {
    /// The project's script directory.
    ScriptDir,
    /// The directory of the running executable.
    ExecutableDir,
}

/// Why a helper could not be launched.
#[derive(Debug, PartialEq, Eq)]
pub enum SpawnError {
    /// The helper's executable is not at this path.
    Missing(String),
    /// This helper cannot be launched on this platform in this build.
    Unsupported,
    /// The operating system refused the launch; its message.
    Launch(String),
    /// The supervisor cannot track another handle.
    Untracked,
}

/// A process to launch: the program, its arguments, and whether it gets a
/// console window.
#[derive(Debug, PartialEq, Eq)]
pub struct SpawnRequest {
    pub program: String,
    pub args: Vec<String>,
    pub visible: bool,
}

/// What to do on a graceful close, in order.
#[derive(Debug, PartialEq, Eq)]
pub enum ShutdownStep {
    /// Remove the session flag file.
    ClearFlag,
    /// Run this command to end every process of one helper by name.
    Kill(SpawnRequest),
}

pub open spec fn texts(v: Seq<String>) -> Seq<Seq<char>> {
    v.map_values(|s: String| s@)
}

pub open spec fn request_is(r: SpawnRequest, program: Seq<char>, args: Seq<Seq<char>>, visible: bool) -> bool {
    &&& r.program@ == program
    &&& texts(r.args@) == args
    &&& r.visible == visible
}

/// The file name of a helper in each build.
pub open spec fn helper_file(kind: HelperKind, mode: BuildMode) -> Seq<char> {
    match kind {
        HelperKind::Backend => "WorkXFlaskServer.exe"@,
        HelperKind::FileMonitor => match mode {
            BuildMode::Debug => "realtime_transcribe.py"@,
            BuildMode::Release => "realtime_transcribe.exe"@,
        },
        HelperKind::MonitorGui => match mode {
            BuildMode::Debug => "wav_monitor_gui.py"@,
            BuildMode::Release => "wav_monitor_gui.exe"@,
        },
    }
}

/// Scripts run from the project in development builds; everything else
/// sits beside the executable.
pub open spec fn helper_dir(kind: HelperKind, mode: BuildMode) -> HelperLocation {
    if mode is Debug && !(kind is Backend) {
        HelperLocation::ScriptDir
    } else {
        HelperLocation::ExecutableDir
    }
}

/// `cmd /c start cmd /k python <script> <tail>`: a new console that runs
/// the script with the Python interpreter.
pub open spec fn console_python(script: Seq<char>, tail: Seq<Seq<char>>) -> Seq<Seq<char>> {
    seq!["/c"@, "start"@, "cmd"@, "/k"@, "python"@, script] + tail
}

pub open spec fn monitor_args(dir: Seq<char>) -> Seq<Seq<char>> {
    seq!["--source"@, "output"@, "--outdir"@, dir, "--azure"@]
}

pub open spec fn gui_args(dir: Seq<char>) -> Seq<Seq<char>> {
    seq!["--monitor-dir"@, dir]
}

/// What launching a helper amounts to.
pub enum LaunchPlan {
    Run { program: Seq<char>, args: Seq<Seq<char>>, visible: bool },
    Missing,
    Unsupported,
}

/// The launch of `kind` from the file at `path` (which `exists` or not),
/// handing it the output directory `dir`.
pub open spec fn launch_plan(
    kind: HelperKind,
    platform: Platform,
    mode: BuildMode,
    path: Seq<char>,
    exists: bool,
    dir: Seq<char>,
) -> LaunchPlan {
    match kind {
        HelperKind::Backend => if exists {
            LaunchPlan::Run { program: path, args: Seq::empty(), visible: false }
        } else {
            LaunchPlan::Missing
        },
        HelperKind::FileMonitor => if platform is Windows {
            LaunchPlan::Run {
                program: "cmd"@,
                args: console_python(path, monitor_args(dir)),
                visible: true,
            }
        } else {
            LaunchPlan::Unsupported
        },
        HelperKind::MonitorGui => match mode {
            BuildMode::Debug => match platform {
                Platform::Windows => LaunchPlan::Run {
                    program: "cmd"@,
                    args: console_python(path, gui_args(dir)),
                    visible: true,
                },
                Platform::Linux => LaunchPlan::Run {
                    program: "gnome-terminal"@,
                    args: seq!["--"@, "python"@, path] + gui_args(dir),
                    visible: true,
                },
                Platform::MacOs => LaunchPlan::Run {
                    program: "open"@,
                    args: seq!["-a"@, "Terminal"@, path] + gui_args(dir),
                    visible: true,
                },
                Platform::Other => LaunchPlan::Unsupported,
            },
            BuildMode::Release => if exists {
                LaunchPlan::Run { program: path, args: gui_args(dir), visible: false }
            } else {
                LaunchPlan::Missing
            },
        },
    }
}

/// `r` is what `plan` describes, with `path` reported when the file is
/// missing.
pub open spec fn follows_plan(r: Result<SpawnRequest, SpawnError>, plan: LaunchPlan, path: Seq<char>) -> bool {
    match plan {
        LaunchPlan::Run { program, args, visible } => r matches Ok(q) && request_is(
            q,
            program,
            args,
            visible,
        ),
        LaunchPlan::Missing => r matches Err(e) && (e matches SpawnError::Missing(p) && p@ == path),
        LaunchPlan::Unsupported => r matches Err(e) && e is Unsupported,
    }
}

/// The name under which a helper's processes are ended at shutdown. For
/// the file monitor it is `wav_monitor`, not the name of the transcription
/// script launched for it.
pub open spec fn process_name(platform: Platform, kind: HelperKind) -> Seq<char> {
    match kind {
        HelperKind::Backend => "WorkXFlaskServer.exe"@,
        HelperKind::FileMonitor => if platform is Windows {
            "wav_monitor.exe"@
        } else {
            "wav_monitor.py"@
        },
        HelperKind::MonitorGui => if platform is Windows {
            "wav_monitor_gui.exe"@
        } else {
            "wav_monitor_gui.py"@
        },
    }
}

/// Platforms where processes can be ended by name.
pub open spec fn can_kill_by_name(platform: Platform) -> bool {
    !(platform is Other)
}

/// `taskkill /F /IM <name>` on Windows, `pkill <name>` elsewhere.
pub open spec fn kill_command(platform: Platform, kind: HelperKind) -> (Seq<char>, Seq<Seq<char>>) {
    if platform is Windows {
        ("taskkill"@, seq!["/F"@, "/IM"@, process_name(platform, kind)])
    } else {
        ("pkill"@, seq![process_name(platform, kind)])
    }
}

/// The helpers in the order they are ended.
pub open spec fn helper_order() -> Seq<HelperKind> {
    seq![HelperKind::Backend, HelperKind::FileMonitor, HelperKind::MonitorGui]
}

fn text(s: &str) -> (r: String)
    ensures
        r@ == s@,
{
    String::from_str(s)
}

fn push_text(v: &mut Vec<String>, s: &str)
    ensures
        texts(final(v)@) == texts(old(v)@).push(s@),
{
    v.push(String::from_str(s));
    assert(texts(final(v)@) =~= texts(old(v)@).push(s@));
}

fn push_owned(v: &mut Vec<String>, s: String)
    ensures
        texts(final(v)@) == texts(old(v)@).push(s@),
{
    let ghost sv = s@;
    v.push(s);
    assert(texts(final(v)@) =~= texts(old(v)@).push(sv));
}

/// The file name of `kind` in a `mode` build.
pub fn helper_file_name(kind: HelperKind, mode: BuildMode) -> (r: String)
    ensures
        r@ == helper_file(kind, mode),
{
    match kind {
        HelperKind::Backend => text("WorkXFlaskServer.exe"),
        HelperKind::FileMonitor => match mode {
            BuildMode::Debug => text("realtime_transcribe.py"),
            BuildMode::Release => text("realtime_transcribe.exe"),
        },
        HelperKind::MonitorGui => match mode {
            BuildMode::Debug => text("wav_monitor_gui.py"),
            BuildMode::Release => text("wav_monitor_gui.exe"),
        },
    }
}

/// The directory where the file of `kind` is looked for in a `mode` build.
pub fn helper_location(kind: HelperKind, mode: BuildMode) -> (r: HelperLocation)
    ensures
        r == helper_dir(kind, mode),
{
    match (kind, mode) {
        (HelperKind::Backend, _) => HelperLocation::ExecutableDir,
        (_, BuildMode::Debug) => HelperLocation::ScriptDir,
        (_, BuildMode::Release) => HelperLocation::ExecutableDir,
    }
}

/// The helpers started with the application: the backend in release
/// builds, none in development builds (where it runs on its own).
pub fn startup_helpers(mode: BuildMode) -> (r: Vec<HelperKind>)
    ensures
        r@ == (if mode is Release {
            seq![HelperKind::Backend]
        } else {
            Seq::<HelperKind>::empty()
        }),
{
    let mut r: Vec<HelperKind> = Vec::new();
    if let BuildMode::Release = mode {
        r.push(HelperKind::Backend);
    }
    assert(r@ =~= (if mode is Release {
        seq![HelperKind::Backend]
    } else {
        Seq::<HelperKind>::empty()
    }));
    r
}

fn console_python_request(script: String, tail_dir: String, gui: bool) -> (r: SpawnRequest)
    ensures
        request_is(
            r,
            "cmd"@,
            console_python(
                script@,
                if gui {
                    gui_args(tail_dir@)
                } else {
                    monitor_args(tail_dir@)
                },
            ),
            true,
        ),
{
    let ghost sv = script@;
    let ghost dv = tail_dir@;
    let mut args: Vec<String> = Vec::new();
    push_text(&mut args, "/c");
    push_text(&mut args, "start");
    push_text(&mut args, "cmd");
    push_text(&mut args, "/k");
    push_text(&mut args, "python");
    push_owned(&mut args, script);
    if gui {
        push_text(&mut args, "--monitor-dir");
        push_owned(&mut args, tail_dir);
    } else {
        push_text(&mut args, "--source");
        push_text(&mut args, "output");
        push_text(&mut args, "--outdir");
        push_owned(&mut args, tail_dir);
        push_text(&mut args, "--azure");
    }
    assert(texts(args@) =~= console_python(
        sv,
        if gui {
            gui_args(dv)
        } else {
            monitor_args(dv)
        },
    ));
    SpawnRequest { program: text("cmd"), args, visible: true }
}

/// The process to launch for `kind`, from the file at `helper_path`
/// (`helper_exists` says whether it is there), handing it the output
/// directory `monitor_dir`: see `launch_plan`.
pub fn launch_request(
    kind: HelperKind,
    platform: Platform,
    mode: BuildMode,
    helper_path: String,
    helper_exists: bool,
    monitor_dir: String,
) -> (r: Result<SpawnRequest, SpawnError>)
    ensures
        follows_plan(
            r,
            launch_plan(kind, platform, mode, helper_path@, helper_exists, monitor_dir@),
            helper_path@,
        ),
{
    let ghost pv = helper_path@;
    let ghost dv = monitor_dir@;
    match kind {
        HelperKind::Backend => {
            if !helper_exists {
                return Err(SpawnError::Missing(helper_path));
            }
            let args: Vec<String> = Vec::new();
            assert(texts(args@) =~= Seq::<Seq<char>>::empty());
            Ok(SpawnRequest { program: helper_path, args, visible: false })
        },
        HelperKind::FileMonitor => match platform {
            Platform::Windows => Ok(console_python_request(helper_path, monitor_dir, false)),
            _ => Err(SpawnError::Unsupported),
        },
        HelperKind::MonitorGui => match mode {
            BuildMode::Debug => match platform {
                Platform::Windows => Ok(console_python_request(helper_path, monitor_dir, true)),
                Platform::Linux => {
                    let mut args: Vec<String> = Vec::new();
                    push_text(&mut args, "--");
                    push_text(&mut args, "python");
                    push_owned(&mut args, helper_path);
                    push_text(&mut args, "--monitor-dir");
                    push_owned(&mut args, monitor_dir);
                    assert(texts(args@) =~= seq!["--"@, "python"@, pv] + gui_args(dv));
                    Ok(SpawnRequest { program: text("gnome-terminal"), args, visible: true })
                },
                Platform::MacOs => {
                    let mut args: Vec<String> = Vec::new();
                    push_text(&mut args, "-a");
                    push_text(&mut args, "Terminal");
                    push_owned(&mut args, helper_path);
                    push_text(&mut args, "--monitor-dir");
                    push_owned(&mut args, monitor_dir);
                    assert(texts(args@) =~= seq!["-a"@, "Terminal"@, pv] + gui_args(dv));
                    Ok(SpawnRequest { program: text("open"), args, visible: true })
                },
                Platform::Other => Err(SpawnError::Unsupported),
            },
            BuildMode::Release => {
                if !helper_exists {
                    return Err(SpawnError::Missing(helper_path));
                }
                let mut args: Vec<String> = Vec::new();
                push_text(&mut args, "--monitor-dir");
                push_owned(&mut args, monitor_dir);
                assert(texts(args@) =~= gui_args(dv));
                Ok(SpawnRequest { program: helper_path, args, visible: false })
            },
        },
    }
}

fn process_name_of(platform: Platform, kind: HelperKind) -> (r: String)
    ensures
        r@ == process_name(platform, kind),
{
    match kind {
        HelperKind::Backend => text("WorkXFlaskServer.exe"),
        HelperKind::FileMonitor => match platform {
            Platform::Windows => text("wav_monitor.exe"),
            _ => text("wav_monitor.py"),
        },
        HelperKind::MonitorGui => match platform {
            Platform::Windows => text("wav_monitor_gui.exe"),
            _ => text("wav_monitor_gui.py"),
        },
    }
}

/// The command that ends every process of `kind` by name: see
/// `kill_command`. Ending by name may also match unrelated processes of the
/// same name; it is the fallback for helpers of an earlier run.
pub fn kill_request(platform: Platform, kind: HelperKind) -> (r: SpawnRequest)
    ensures
        request_is(r, kill_command(platform, kind).0, kill_command(platform, kind).1, false),
{
    let name = process_name_of(platform, kind);
    let ghost nv = name@;
    let mut args: Vec<String> = Vec::new();
    match platform {
        Platform::Windows => {
            push_text(&mut args, "/F");
            push_text(&mut args, "/IM");
            push_owned(&mut args, name);
            assert(texts(args@) =~= kill_command(platform, kind).1);
            SpawnRequest { program: text("taskkill"), args, visible: false }
        },
        _ => {
            push_owned(&mut args, name);
            assert(texts(args@) =~= kill_command(platform, kind).1);
            SpawnRequest { program: text("pkill"), args, visible: false }
        },
    }
}

/// The cleanup of a graceful close: first the session flag is cleared,
/// then each helper is ended by name, backend first. Where processes cannot
/// be ended by name only the flag is cleared. Every step is attempted
/// whatever the others gave.
pub fn shutdown_steps(platform: Platform) -> (r: Vec<ShutdownStep>)
    ensures
        r@.len() == (if can_kill_by_name(platform) {
            4int
        } else {
            1int
        }),
        r@[0] is ClearFlag,
        forall|i: int|
            1 <= i < r@.len() ==> (#[trigger] r@[i] matches ShutdownStep::Kill(q) && request_is(
                q,
                kill_command(platform, helper_order()[i - 1]).0,
                kill_command(platform, helper_order()[i - 1]).1,
                false,
            )),
{
    let mut r: Vec<ShutdownStep> = Vec::new();
    r.push(ShutdownStep::ClearFlag);
    match platform {
        Platform::Other => {},
        _ => {
            r.push(ShutdownStep::Kill(kill_request(platform, HelperKind::Backend)));
            r.push(ShutdownStep::Kill(kill_request(platform, HelperKind::FileMonitor)));
            r.push(ShutdownStep::Kill(kill_request(platform, HelperKind::MonitorGui)));
        },
    }
    r
}

} // verus!
