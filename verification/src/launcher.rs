//! The launcher's decisions: which runtime to start, its argv, working
//! directory and environment, how signals are relayed to the child, and
//! the exit code the launcher ends with.
use vstd::prelude::*;
use crate::json::{JsonValue, member_str, get_str};
use crate::path::{join_path, path_join};
use crate::sdk_paths::Platform;
use crate::text::{concat, str_eq};

verus! {

/// Which runtime the launcher hands control to.
#[derive(Debug, Clone, Copy, PartialEq, Eq, Structural)]
pub enum MainProcess {
    /// The bundled `bun` runtime running `Resources/main.js`.
    Bun,
    /// A native `main` binary.
    Native,
}

/// How to start the child.
pub struct LaunchPlan {
    /// The program, then its arguments.
    pub argv: Vec<String>,
    /// The child's working directory (the executable's directory).
    pub cwd: String,
    /// Variables set on top of the inherited environment.
    pub env: Vec<(String, String)>,
}

/// `Resources/build.json` selects the native binary only with
/// `"mainProcess": "zig"`; anything else (or no readable file) means bun.
pub fn detect_main_process(build_json: Option<&JsonValue>) -> (r: MainProcess)
    ensures
        r == (match build_json {
            Some(v) => if member_str(*v, "mainProcess"@) == Some("zig"@) {
                MainProcess::Native
            } else {
                MainProcess::Bun
            },
            None => MainProcess::Bun,
        }),
{
    match build_json {
        Some(v) => match get_str(v, "mainProcess") {
            Some(m) => if str_eq(m, "zig") {
                MainProcess::Native
            } else {
                MainProcess::Bun
            },
            None => MainProcess::Bun,
        },
        None => MainProcess::Bun,
    }
}

/// A dev build has `"channel": "dev"` in `Resources/version.json`.
pub fn is_dev_build(version_json: Option<&JsonValue>) -> (r: bool)
    ensures
        r == (match version_json {
            Some(v) => member_str(*v, "channel"@) == Some("dev"@),
            None => false,
        }),
{
    match version_json {
        Some(v) => match get_str(v, "channel") {
            Some(c) => str_eq(c, "dev"),
            None => false,
        },
        None => false,
    }
}

/// Config files larger than this many bytes are treated as unreadable.
pub const MAX_CONFIG_BYTES: u64 = 10240;

/// Whether a config file of `len` bytes is read at all.
pub fn config_file_size_ok(len: u64) -> (r: bool)
    ensures
        r == (len <= MAX_CONFIG_BYTES),
{
    len <= MAX_CONFIG_BYTES
}

/// `<exe_dir>/../Resources/<name>`, keeping the `..`.
pub open spec fn resources_path(exe_dir: Seq<char>, name: Seq<char>, sep: char) -> Seq<char> {
    path_join(path_join(path_join(exe_dir, ".."@, sep), "Resources"@, sep), name, sep)
}

/// `<exe_dir>/../Resources/<name>`.
pub fn join_resources(exe_dir: &str, name: &str, sep: char) -> (r: String)
    ensures
        r@ == resources_path(exe_dir@, name@, sep),
{
    let s = join_path(exe_dir, "..", sep);
    let s = join_path(s.as_str(), "Resources", sep);
    join_path(s.as_str(), name, sep)
}

/// What the environment setup reads: `LD_LIBRARY_PATH` and whether the
/// CEF and SwiftShader libraries sit next to the executable.
pub struct LaunchEnv {
    pub ld_library_path: Option<String>,
    pub has_libcef: bool,
    pub has_swiftshader: bool,
}

/// The `LD_PRELOAD` list: the present libraries, `:`-separated.
pub open spec fn ld_preload_spec(has_libcef: bool, has_swiftshader: bool) -> Option<Seq<char>> {
    if has_libcef && has_swiftshader {
        Some("./libcef.so:./libvk_swiftshader.so"@)
    } else if has_libcef {
        Some("./libcef.so"@)
    } else if has_swiftshader {
        Some("./libvk_swiftshader.so"@)
    } else {
        None
    }
}

/// The environment overrides for the child, as (name, value) pairs in
/// order: on Linux `LD_LIBRARY_PATH` (the executable's directory in front
/// of any existing value), `LD_PRELOAD` when a library is present, and
/// `ICU_DATA`; on Windows only `ICU_DATA`; none on macOS.
pub open spec fn build_env_spec(platform: Platform, exe_dir: Seq<char>, env: LaunchEnv) -> Seq<
    (Seq<char>, Seq<char>),
> {
    match platform {
        Platform::Linux => {
            let lib = match env.ld_library_path {
                Some(e) => if e@.len() > 0 {
                    exe_dir + ":"@ + e@
                } else {
                    exe_dir
                },
                None => exe_dir,
            };
            let first = seq![("LD_LIBRARY_PATH"@, lib)];
            let with_preload = match ld_preload_spec(env.has_libcef, env.has_swiftshader) {
                Some(p) => first.push(("LD_PRELOAD"@, p)),
                None => first,
            };
            with_preload.push(("ICU_DATA"@, exe_dir))
        },
        Platform::Windows => seq![("ICU_DATA"@, exe_dir)],
        Platform::MacOs => Seq::empty(),
    }
}

/// The view of an environment list.
pub open spec fn env_view(v: Seq<(String, String)>) -> Seq<(Seq<char>, Seq<char>)> {
    v.map_values(|p: (String, String)| (p.0@, p.1@))
}

/// Compute the environment overrides.
pub fn build_env(platform: Platform, exe_dir: &str, env: &LaunchEnv) -> (r: Vec<(String, String)>)
    ensures
        env_view(r@) == build_env_spec(platform, exe_dir@, *env),
{
    let mut out: Vec<(String, String)> = Vec::new();
    match platform {
        Platform::Linux => {
            let lib = match &env.ld_library_path {
                Some(e) => if !e.as_str().is_empty() {
                    let s = concat(String::from_str(exe_dir), ":");
                    concat(s, e.as_str())
                } else {
                    String::from_str(exe_dir)
                },
                None => String::from_str(exe_dir),
            };
            out.push((String::from_str("LD_LIBRARY_PATH"), lib));
            if env.has_libcef && env.has_swiftshader {
                out.push((String::from_str("LD_PRELOAD"), String::from_str("./libcef.so:./libvk_swiftshader.so")));
            } else if env.has_libcef {
                out.push((String::from_str("LD_PRELOAD"), String::from_str("./libcef.so")));
            } else if env.has_swiftshader {
                out.push((String::from_str("LD_PRELOAD"), String::from_str("./libvk_swiftshader.so")));
            }
            out.push((String::from_str("ICU_DATA"), String::from_str(exe_dir)));
            proof {
                assert(env_view(out@) =~= build_env_spec(platform, exe_dir@, *env));
            }
        },
        Platform::Windows => {
            out.push((String::from_str("ICU_DATA"), String::from_str(exe_dir)));
            proof {
                assert(env_view(out@) =~= build_env_spec(platform, exe_dir@, *env));
            }
        },
        Platform::MacOs => {
            proof {
                assert(env_view(out@) =~= build_env_spec(platform, exe_dir@, *env));
            }
        },
    }
    out
}

/// The child's argv: bun on macOS is found through the working directory
/// (`./bun`), elsewhere by its full path (`bun.exe` on Windows), with
/// `../Resources/main.js`; the native binary is `main` (`main.exe`) by
/// its full path.
pub open spec fn argv_spec(main_process: MainProcess, platform: Platform, exe_dir: Seq<char>, sep: char) -> Seq<
    Seq<char>,
> {
    match main_process {
        MainProcess::Bun => {
            let main_js = resources_path(exe_dir, "main.js"@, sep);
            match platform {
                Platform::MacOs => seq!["./bun"@, main_js],
                Platform::Windows => seq![path_join(exe_dir, "bun.exe"@, sep), main_js],
                Platform::Linux => seq![path_join(exe_dir, "bun"@, sep), main_js],
            }
        },
        MainProcess::Native => match platform {
            Platform::Windows => seq![path_join(exe_dir, "main.exe"@, sep)],
            _ => seq![path_join(exe_dir, "main"@, sep)],
        },
    }
}

/// The child's environment overrides: none on macOS; only `ICU_DATA` (the
/// executable's directory) on Windows; on Linux `LD_LIBRARY_PATH` with the
/// executable's directory first (before a non-empty inherited value),
/// then `LD_PRELOAD` naming the bundled `./libcef.so` and
/// `./libvk_swiftshader.so` that are present (only when one is), then
/// `ICU_DATA`.
pub proof fn lemma_launch_env(exe_dir: Seq<char>, env: LaunchEnv)
    ensures
        build_env_spec(Platform::MacOs, exe_dir, env).len() == 0,
        build_env_spec(Platform::Windows, exe_dir, env) == seq![("ICU_DATA"@, exe_dir)],
        ({
            let e = build_env_spec(Platform::Linux, exe_dir, env);
            let n: int = if env.has_libcef || env.has_swiftshader {
                3
            } else {
                2
            };
            &&& e.len() == n
            &&& e[0].0 == "LD_LIBRARY_PATH"@
            &&& e[0].1 == (match env.ld_library_path {
                Some(v) => if v@.len() > 0 {
                    exe_dir + ":"@ + v@
                } else {
                    exe_dir
                },
                None => exe_dir,
            })
            &&& e[n - 1] == ("ICU_DATA"@, exe_dir)
            &&& env.has_libcef && env.has_swiftshader ==> e[1] == ("LD_PRELOAD"@, "./libcef.so:./libvk_swiftshader.so"@)
            &&& env.has_libcef && !env.has_swiftshader ==> e[1] == ("LD_PRELOAD"@, "./libcef.so"@)
            &&& !env.has_libcef && env.has_swiftshader ==> e[1] == ("LD_PRELOAD"@, "./libvk_swiftshader.so"@)
        }),
{
}

/// What the child runs: a native main process is the single program
/// `main` in the executable's directory (`main.exe` on Windows); a bun main
/// process is the bundled `bun` (`./bun`, found through the working
/// directory, on macOS; `bun.exe` beside the executable on Windows) given
/// `<exe_dir>/../Resources/main.js`.
pub proof fn lemma_launch_argv(exe_dir: Seq<char>, sep: char)
    ensures
        argv_spec(MainProcess::Native, Platform::Linux, exe_dir, sep) == seq![path_join(exe_dir, "main"@, sep)],
        argv_spec(MainProcess::Native, Platform::MacOs, exe_dir, sep) == seq![path_join(exe_dir, "main"@, sep)],
        argv_spec(MainProcess::Native, Platform::Windows, exe_dir, sep) == seq![
            path_join(exe_dir, "main.exe"@, sep),
        ],
        forall|p: Platform|
            argv_spec(MainProcess::Bun, p, exe_dir, sep) == seq![
                match p {
                    Platform::MacOs => "./bun"@,
                    Platform::Windows => path_join(exe_dir, "bun.exe"@, sep),
                    Platform::Linux => path_join(exe_dir, "bun"@, sep),
                },
                path_join(path_join(path_join(exe_dir, ".."@, sep), "Resources"@, sep), "main.js"@, sep),
            ],
{
}

/// Build the launch plan.
pub fn build_plan(
    main_process: MainProcess,
    platform: Platform,
    exe_dir: &str,
    env: &LaunchEnv,
    sep: char,
) -> (r: LaunchPlan)
    ensures
        r.argv@.map_values(|a: String| a@) == argv_spec(main_process, platform, exe_dir@, sep),
        r.cwd@ == exe_dir@,
        env_view(r.env@) == build_env_spec(platform, exe_dir@, *env),
{
    let mut argv: Vec<String> = Vec::new();
    match main_process {
        MainProcess::Bun => {
            let main_js = join_resources(exe_dir, "main.js", sep);
            match platform {
                Platform::MacOs => argv.push(String::from_str("./bun")),
                Platform::Windows => argv.push(join_path(exe_dir, "bun.exe", sep)),
                Platform::Linux => argv.push(join_path(exe_dir, "bun", sep)),
            }
            argv.push(main_js);
        },
        MainProcess::Native => match platform {
            Platform::Windows => argv.push(join_path(exe_dir, "main.exe", sep)),
            _ => argv.push(join_path(exe_dir, "main", sep)),
        },
    }
    proof {
        assert(argv@.map_values(|a: String| a@) =~= argv_spec(main_process, platform, exe_dir@, sep));
    }
    LaunchPlan { argv, cwd: String::from_str(exe_dir), env: build_env(platform, exe_dir, env) }
}

/// The Windows command line: the program and its first argument, each
/// quoted; `None` for an empty argv.
pub open spec fn windows_command_line_spec(argv: Seq<Seq<char>>) -> Option<Seq<char>> {
    if argv.len() == 0 {
        None
    } else if argv.len() == 1 {
        Some("\""@ + argv[0] + "\""@)
    } else {
        Some("\""@ + argv[0] + "\" \""@ + argv[1] + "\""@)
    }
}

/// Build the Windows command line.
pub fn windows_command_line(argv: &Vec<String>) -> (r: Option<String>)
    ensures
        match r {
            Some(s) => windows_command_line_spec(argv@.map_values(|a: String| a@)) == Some(s@),
            None => windows_command_line_spec(argv@.map_values(|a: String| a@)) is None,
        },
{
    if argv.len() == 0 {
        return None;
    }
    let s = concat(String::from_str("\""), argv[0].as_str());
    if argv.len() == 1 {
        return Some(concat(s, "\""));
    }
    let s = concat(s, "\" \"");
    let s = concat(s, argv[1].as_str());
    Some(concat(s, "\""))
}

/// The launcher's exit code for a child that exited with `c`: a zero exit
/// is success, and a non-zero exit stays non-zero. It keeps the low eight
/// bits of `c` (all a process exit code can carry), and a non-zero `c`
/// whose low eight bits are all zero becomes 1.
pub open spec fn exit_code_spec(c: i32) -> u8 {
    if c == 0 {
        0
    } else if c as u8 == 0 {
        1
    } else {
        c as u8
    }
}

/// The launcher's exit code for how the child ended: see `exit_code_spec`
/// for an exit code, `128 + signal` (wrapping) for a child killed by a
/// signal, and 1 otherwise.
pub fn exit_code_from_status(code: Option<i32>, signal: Option<i32>) -> (r: u8)
    ensures
        r == (match code {
            Some(c) => exit_code_spec(c),
            None => match signal {
                Some(s) => ((128 + (s as u8)) % 256) as u8,
                None => 1u8,
            },
        }),
        code matches Some(c) ==> (r == 0 <==> c == 0),
{
    match code {
        Some(c) => {
            let low = c as u8;
            if c != 0 && low == 0 {
                1
            } else {
                low
            }
        },
        None => match signal {
            Some(s) => 128u8.wrapping_add(s as u8),
            None => 1,
        },
    }
}

/// Whether the `ELECTROBUN_CONSOLE` variable forces console mode: it must
/// be exactly `1`.
pub fn console_forced(value: Option<&str>) -> (r: bool)
    ensures
        r == (match value {
            Some(v) => v@ == "1"@,
            None => false,
        }),
{
    match value {
        Some(v) => str_eq(v, "1"),
        None => false,
    }
}

/// What the signal handler does.
#[derive(Debug, Clone, Copy, PartialEq, Eq, Structural)]
pub enum SignalAction {
    /// Arm the 10-second safety alarm (first interrupt).
    ArmAlarm,
    /// Cancel the alarm and kill the whole process group (second
    /// interrupt).
    KillGroup,
    /// Forward the signal to the child.
    Forward { pid: i32, signal: i32 },
    /// Nothing to do (no child yet).
    Ignore,
}

/// The seconds the first interrupt gives the child to quit.
pub const SAFETY_TIMEOUT_SECS: u32 = 10;

/// What to do for `signal`, given how many interrupts came before and the
/// child's pid (0: not spawned yet). `sigint` is the interrupt's number.
pub fn signal_action(signal: i32, sigint: i32, prior_interrupts: i32, child_pid: i32) -> (r: SignalAction)
    ensures
        signal == sigint ==> r == (if prior_interrupts == 0 {
            SignalAction::ArmAlarm
        } else {
            SignalAction::KillGroup
        }),
        signal != sigint ==> r == (if child_pid > 0 {
            SignalAction::Forward { pid: child_pid, signal }
        } else {
            SignalAction::Ignore
        }),
{
    if signal == sigint {
        if prior_interrupts == 0 {
            SignalAction::ArmAlarm
        } else {
            SignalAction::KillGroup
        }
    } else if child_pid > 0 {
        SignalAction::Forward { pid: child_pid, signal }
    } else {
        SignalAction::Ignore
    }
}

/// The relay's state: the child's pid (0 until spawned) and the
/// interrupts seen.
pub struct SignalState {
    pub child_pid: i32,
    pub interrupts: i32,
}

impl SignalState {
    /// No child, no interrupt yet.
    pub fn new() -> (r: SignalState)
        ensures
            r.child_pid == 0,
            r.interrupts == 0,
    {
        SignalState { child_pid: 0, interrupts: 0 }
    }
}

/// Record the spawned child's pid.
pub fn set_child_pid(state: &mut SignalState, pid: i32)
    ensures
        final(state).child_pid == pid,
        final(state).interrupts == old(state).interrupts,
{
    state.child_pid = pid;
}

/// Handle a signal: interrupts are counted (wrapping), and the action is
/// decided from the count before this one.
pub fn on_signal(state: &mut SignalState, signal: i32, sigint: i32) -> (r: SignalAction)
    ensures
        final(state).child_pid == old(state).child_pid,
        signal == sigint ==> final(state).interrupts == old(state).interrupts.wrapping_add(1),
        signal != sigint ==> final(state).interrupts == old(state).interrupts,
        r == signal_action_spec(signal, sigint, old(state).interrupts, old(state).child_pid),
{
    let prior = state.interrupts;
    if signal == sigint {
        state.interrupts = prior.wrapping_add(1);
    }
    signal_action(signal, sigint, prior, state.child_pid)
}

/// [`signal_action`] as a specification.
pub open spec fn signal_action_spec(signal: i32, sigint: i32, prior_interrupts: i32, child_pid: i32) -> SignalAction {
    if signal == sigint {
        if prior_interrupts == 0 {
            SignalAction::ArmAlarm
        } else {
            SignalAction::KillGroup
        }
    } else if child_pid > 0 {
        SignalAction::Forward { pid: child_pid, signal }
    } else {
        SignalAction::Ignore
    }
}

/// The first interrupt only arms the safety alarm; the one after it kills
/// the process group; other signals go to the child once it runs.
pub proof fn lemma_interrupt_sequence(sigint: i32, other: i32, child_pid: i32)
    requires
        other != sigint,
        child_pid > 0,
    ensures
        signal_action_spec(sigint, sigint, 0, child_pid) == SignalAction::ArmAlarm,
        signal_action_spec(sigint, sigint, 0i32.wrapping_add(1), child_pid) == SignalAction::KillGroup,
        signal_action_spec(other, sigint, 0, child_pid) == (SignalAction::Forward {
            pid: child_pid,
            signal: other,
        }),
        signal_action_spec(other, sigint, 0, 0) == SignalAction::Ignore,
{
}

} // verus!
