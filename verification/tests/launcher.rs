use electrobun::json::{JsonNumber, JsonValue};
use electrobun::launcher::{
    build_env, build_plan, config_file_size_ok, console_forced, detect_main_process, exit_code_from_status, is_dev_build,
    join_resources, on_signal, set_child_pid, signal_action, windows_command_line, LaunchEnv, MainProcess,
    SignalAction, SignalState,
};
use electrobun::sdk_paths::Platform;

fn obj(k: &str, v: &str) -> JsonValue {
    JsonValue::Object(vec![(k.to_string(), JsonValue::String(v.to_string()))])
}

fn env(lib: Option<&str>, cef: bool, swift: bool) -> LaunchEnv {
    LaunchEnv { ld_library_path: lib.map(|s| s.to_string()), has_libcef: cef, has_swiftshader: swift }
}

#[test]
fn main_process_from_build_json() {
    assert_eq!(detect_main_process(Some(&obj("mainProcess", "zig"))), MainProcess::Native);
    assert_eq!(detect_main_process(Some(&obj("mainProcess", "native"))), MainProcess::Bun);
    assert_eq!(detect_main_process(Some(&obj("other", "zig"))), MainProcess::Bun);
    let number = JsonValue::Object(vec![(
        "mainProcess".to_string(),
        JsonValue::Number(JsonNumber { as_i64: Some(1), float_as_u32: None, text: "1".to_string() }),
    )]);
    assert_eq!(detect_main_process(Some(&number)), MainProcess::Bun);
    assert_eq!(detect_main_process(None), MainProcess::Bun);
}

#[test]
fn dev_build_from_version_json() {
    assert!(is_dev_build(Some(&obj("channel", "dev"))));
    assert!(!is_dev_build(Some(&obj("channel", "stable"))));
    assert!(!is_dev_build(None));
    assert!(config_file_size_ok(10240));
    assert!(!config_file_size_ok(10241));
}

#[test]
fn plans_per_platform() {
    let linux = build_plan(MainProcess::Bun, Platform::Linux, "/opt/a/bin", &env(None, false, false), '/');
    assert_eq!(linux.argv, vec!["/opt/a/bin/bun", "/opt/a/bin/../Resources/main.js"]);
    assert_eq!(linux.cwd, "/opt/a/bin");
    let mac = build_plan(MainProcess::Bun, Platform::MacOs, "/A.app/Contents/MacOS", &env(None, true, true), '/');
    assert_eq!(mac.argv, vec!["./bun", "/A.app/Contents/MacOS/../Resources/main.js"]);
    assert!(mac.env.is_empty());
    let native = build_plan(MainProcess::Native, Platform::Windows, "C:\\A", &env(None, false, false), '\\');
    assert_eq!(native.argv, vec!["C:\\A\\main.exe"]);
    assert_eq!(native.env, vec![("ICU_DATA".to_string(), "C:\\A".to_string())]);
    assert_eq!(join_resources("/x", "build.json", '/'), "/x/../Resources/build.json");
}

#[test]
fn linux_environment() {
    let e = build_env(Platform::Linux, "/d", &env(Some("/usr/lib"), true, true));
    assert_eq!(
        e,
        vec![
            ("LD_LIBRARY_PATH".to_string(), "/d:/usr/lib".to_string()),
            ("LD_PRELOAD".to_string(), "./libcef.so:./libvk_swiftshader.so".to_string()),
            ("ICU_DATA".to_string(), "/d".to_string()),
        ]
    );
    let e = build_env(Platform::Linux, "/d", &env(Some(""), false, true));
    assert_eq!(e[0], ("LD_LIBRARY_PATH".to_string(), "/d".to_string()));
    assert_eq!(e[1], ("LD_PRELOAD".to_string(), "./libvk_swiftshader.so".to_string()));
    let e = build_env(Platform::Linux, "/d", &env(None, false, false));
    assert_eq!(e.len(), 2);
}

#[test]
fn exit_codes() {
    assert_eq!(exit_code_from_status(Some(0), None), 0);
    assert_eq!(exit_code_from_status(Some(3), None), 3);
    assert_eq!(exit_code_from_status(Some(256 + 7), None), 7);
    assert_eq!(exit_code_from_status(Some(-1), None), 255);
    assert_eq!(exit_code_from_status(Some(256), None), 1);
    assert_eq!(exit_code_from_status(Some(-256), None), 1);
    assert_eq!(exit_code_from_status(None, Some(15)), 143);
    assert_eq!(exit_code_from_status(None, Some(200)), 72);
    assert_eq!(exit_code_from_status(None, None), 1);
}

#[test]
fn signals_relay() {
    let sigint = 2;
    let mut state = SignalState::new();
    assert_eq!(on_signal(&mut state, 15, sigint), SignalAction::Ignore);
    set_child_pid(&mut state, 4242);
    assert_eq!(on_signal(&mut state, 15, sigint), SignalAction::Forward { pid: 4242, signal: 15 });
    assert_eq!(on_signal(&mut state, sigint, sigint), SignalAction::ArmAlarm);
    assert_eq!(on_signal(&mut state, sigint, sigint), SignalAction::KillGroup);
    assert_eq!(on_signal(&mut state, sigint, sigint), SignalAction::KillGroup);
    assert_eq!(state.interrupts, 3);
    assert_eq!(signal_action(1, sigint, 0, 0), SignalAction::Ignore);
}

#[test]
fn windows_command_lines() {
    assert_eq!(windows_command_line(&vec![]), None);
    assert_eq!(windows_command_line(&vec!["C:\\bun.exe".to_string()]), Some("\"C:\\bun.exe\"".to_string()));
    assert_eq!(
        windows_command_line(&vec!["a".to_string(), "b c".to_string(), "d".to_string()]),
        Some("\"a\" \"b c\"".to_string())
    );
}

#[test]
fn console_forced_only_by_one() {
    assert!(console_forced(Some("1")));
    assert!(!console_forced(Some("0")));
    assert!(!console_forced(Some("1 ")));
    assert!(!console_forced(Some("")));
    assert!(!console_forced(None));
}
