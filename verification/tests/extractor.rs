use electrobun::extractor::{
    adjacent_archive_candidates, canonical_join, desktop_file_name, macos_update_names, fix_cef_symlinks, fix_executable_permissions, install_dirs,
    installer_app_data_dir, launcher_path, plan_tar_entry, TarPlan, rewrite_desktop_entry, safe_relative_path,
    tar_file_name, windows_shortcut_script, windows_uninstall_reg, AppMetadata, InstallerEnv,
    TarEntryAction, TarEntryKind,
};
use electrobun::sdk_paths::Platform;

fn meta(name: &str, channel: &str, hash: Option<&str>) -> AppMetadata {
    AppMetadata {
        identifier: "com.example.app".to_string(),
        name: name.to_string(),
        channel: channel.to_string(),
        hash: hash.map(|h| h.to_string()),
    }
}

#[test]
fn bundle_names() {
    assert_eq!(meta("My App 1.0", "stable", None).bundle_base_name(), "MyApp1-0");
    assert_eq!(meta("My App", "canary", None).bundle_base_name(), "MyApp-canary");
    assert_eq!(meta("", "dev", None).bundle_base_name(), "-dev");
}

#[test]
fn install_locations() {
    let (scratch, app) = install_dirs(&meta("A", "beta", None), "/home/u/.local/share", '/');
    assert_eq!(scratch, "/home/u/.local/share/com.example.app/beta/self-extraction");
    assert_eq!(app, "/home/u/.local/share/com.example.app/beta/app");
    assert_eq!(tar_file_name(&meta("A", "beta", Some("abc"))), "abc.tar");
    assert_eq!(tar_file_name(&meta("A", "beta", None)), "current.tar");
}

#[test]
fn member_paths() {
    assert_eq!(safe_relative_path("a/./b//c/").unwrap(), vec!["a", "b", "c"]);
    assert_eq!(safe_relative_path("./x").unwrap(), vec!["x"]);
    assert_eq!(safe_relative_path("").unwrap(), Vec::<String>::new());
    assert_eq!(safe_relative_path("a\\b").unwrap(), vec!["a\\b"]);
    assert_eq!(safe_relative_path("/etc/passwd").unwrap_err(), "path traversal rejected: /etc/passwd");
    assert!(safe_relative_path("\\x").is_err());
    assert!(safe_relative_path("C:x").is_err());
    assert!(safe_relative_path("a/../b").is_err());
    assert!(safe_relative_path("a\\..\\b").is_err());
    assert!(safe_relative_path("..").is_err());
    assert!(safe_relative_path("...").is_ok());
    // A multi-byte first character puts a continuation byte at index 1.
    assert!(safe_relative_path("é:").is_ok());
}

#[test]
fn member_plans() {
    assert_eq!(plan_tar_entry(TarEntryKind::Directory, "d/").unwrap().0, TarEntryAction::CreateDir);
    assert_eq!(plan_tar_entry(TarEntryKind::Continuous, "f").unwrap().0, TarEntryAction::WriteFile);
    assert_eq!(plan_tar_entry(TarEntryKind::Symlink, "l").unwrap().0, TarEntryAction::Symlink);
    assert_eq!(plan_tar_entry(TarEntryKind::XHeader, "h").unwrap().0, TarEntryAction::Skip);
    assert_eq!(plan_tar_entry(TarEntryKind::Link, "h").unwrap_err(), "hard links are not supported");
    assert_eq!(plan_tar_entry(TarEntryKind::Other, "h").unwrap_err(), "unsupported tar entry type");
    // The path is checked before the kind.
    assert_eq!(plan_tar_entry(TarEntryKind::Link, "/h").unwrap_err(), "path traversal rejected: /h");
}

#[test]
fn fixups() {
    assert_eq!(
        fix_executable_permissions("/opt/a", '/'),
        vec!["/opt/a/bin/launcher", "/opt/a/bin/bun", "/opt/a/bin/bspatch", "/opt/a/bin/bsdiff", "/opt/a/bin/zig-zstd"]
    );
    let plan = fix_cef_symlinks("/opt/a", '/');
    assert_eq!(plan.cef_dir, "/opt/a/bin/cef");
    assert_eq!(plan.links.len(), 5);
    assert_eq!(plan.links[0], ("/opt/a/bin/libcef.so".to_string(), "cef/libcef.so".to_string()));
    assert_eq!(plan.links[4], ("/opt/a/bin/libvulkan.so.1".to_string(), "cef/libvulkan.so.1".to_string()));
    assert_eq!(launcher_path("/opt/a", '/'), "/opt/a/bin/launcher");
    assert_eq!(desktop_file_name(&meta("My App", "stable", None)), "My App.desktop");
}

#[test]
fn desktop_entry_rewrite() {
    let content = "[Desktop Entry]\n\nName=X\nExec=old\nIcon=old.png\nTerminal=false";
    assert_eq!(
        rewrite_desktop_entry(content, "/opt/a/bin/launcher", Some("/opt/a/icon.png")),
        "[Desktop Entry]\nName=X\nExec=\"/opt/a/bin/launcher\"\nIcon=/opt/a/icon.png\nTerminal=false\n"
    );
    assert_eq!(
        rewrite_desktop_entry(content, "L", None),
        "[Desktop Entry]\nName=X\nExec=\"L\"\nIcon=old.png\nTerminal=false\n"
    );
    assert_eq!(rewrite_desktop_entry("", "L", None), "");
}

#[test]
fn windows_texts() {
    let ps = windows_shortcut_script("D\\A.lnk", "T", "W", "I");
    assert_eq!(
        ps,
        "$WshShell = New-Object -ComObject WScript.Shell\n$Shortcut = $WshShell.CreateShortcut(\"D\\A.lnk\")\n$Shortcut.TargetPath = \"T\"\n$Shortcut.WorkingDirectory = \"W\"\n$Shortcut.IconLocation = \"I\"\n$Shortcut.WindowStyle = 1\n$Shortcut.Save()\n"
    );
    let reg = windows_uninstall_reg(&meta("App", "beta", None), "C:\\A");
    assert!(reg.starts_with("Windows Registry Editor Version 5.00\r\n\r\n[HKEY_CURRENT_USER\\Software\\Microsoft\\Windows\\CurrentVersion\\Uninstall\\com.example.app]\r\n"));
    assert!(reg.contains("@=\"App (beta)\"\r\n\"DisplayName\"=\"App (beta)\"\r\n"));
    assert!(reg.contains("\"UninstallString\"=\"cmd.exe /c rmdir /s /q \\\"C:\\A\\\"\"\r\n"));
    assert!(reg.ends_with("\"NoRepair\"=dword:00000001\r\n"));
}

#[test]
fn installer_data_dirs() {
    let none = InstallerEnv { localappdata: None, appdata: None, userprofile: None, xdg_data_home: None, home: None };
    assert_eq!(installer_app_data_dir(Platform::Linux, &none, '/').unwrap_err(), "HOME not set");
    assert_eq!(installer_app_data_dir(Platform::Windows, &none, '\\').unwrap_err(), "USERPROFILE not set");
    let linux = InstallerEnv { home: Some("/h".to_string()), ..none_env() };
    assert_eq!(installer_app_data_dir(Platform::Linux, &linux, '/').unwrap(), "/h/.local/share");
    let xdg = InstallerEnv { xdg_data_home: Some(String::new()), home: Some("/h".to_string()), ..none_env() };
    // An empty value still counts as set here.
    assert_eq!(installer_app_data_dir(Platform::Linux, &xdg, '/').unwrap(), "");
    let win = InstallerEnv { userprofile: Some("C:\\U".to_string()), ..none_env() };
    assert_eq!(installer_app_data_dir(Platform::Windows, &win, '\\').unwrap(), "C:\\U\\AppData\\Local");
    let win2 = InstallerEnv { appdata: Some("R".to_string()), userprofile: Some("C:\\U".to_string()), ..none_env() };
    assert_eq!(installer_app_data_dir(Platform::Windows, &win2, '\\').unwrap(), "R");
}

fn none_env() -> InstallerEnv {
    InstallerEnv { localappdata: None, appdata: None, userprofile: None, xdg_data_home: None, home: None }
}

#[test]
fn canonical_joins() {
    assert_eq!(canonical_join("/Apps/X.app/Contents/MacOS", "../../", '/'), "/Apps/X.app");
    assert_eq!(canonical_join("/Apps/X.app/Contents/MacOS", "../Resources/", '/'), "/Apps/X.app/Contents/Resources");
    assert_eq!(canonical_join("/a", "./b/./c", '/'), "/a/b/c");
    assert_eq!(canonical_join("/", "..", '/'), "/");
    assert_eq!(canonical_join("a", "..", '/'), "");
}

#[test]
fn macos_names() {
    let n = macos_update_names(&meta("My App", "canary", Some("abc"))).unwrap();
    assert_eq!(n.archive, "abc.tar.zst");
    assert_eq!(n.tar, "abc.tar");
    assert_eq!(n.bundle, "MyApp-canary.app");
    match macos_update_names(&meta("My App", "stable", None)) {
        Err(e) => assert_eq!(e, "macOS metadata missing hash"),
        Ok(_) => panic!("hash is required"),
    }
}

#[test]
fn adjacent_candidates_prefer_installer_dir() {
    let (archives, metadata) = adjacent_archive_candidates("C:\\Apps", "setup", '\\');
    assert_eq!(archives, vec!["C:\\Apps\\.installer\\setup.tar.zst".to_string(), "C:\\Apps\\setup.tar.zst".to_string()]);
    assert_eq!(
        metadata,
        vec!["C:\\Apps\\.installer\\setup.metadata.json".to_string(), "C:\\Apps\\setup.metadata.json".to_string()]
    );
}

#[test]
fn tar_plan_confines_symlinks() {
    let mut plan = TarPlan::new();
    // A link out of the destination is refused, and so is what would go through it.
    assert_eq!(
        plan.plan_member(TarEntryKind::Symlink, "a", Some("/etc")).unwrap_err(),
        "path traversal rejected: a -> /etc"
    );
    assert!(plan.plan_member(TarEntryKind::Symlink, "a", Some("C:x")).is_err());
    assert!(plan.plan_member(TarEntryKind::Symlink, "a", Some("..")).is_err());
    assert!(plan.plan_member(TarEntryKind::Symlink, "d/a", Some("../../x")).is_err());
    assert!(plan.plan_member(TarEntryKind::Symlink, "a", Some("x/../..")).is_err());
    // `..` after a name is refused even when it stays inside.
    assert!(plan.plan_member(TarEntryKind::Symlink, "d/a", Some("x/../y")).is_err());
    assert_eq!(
        plan.plan_member(TarEntryKind::Symlink, "a", None).unwrap_err(),
        "symlink missing target"
    );
    // A link inside is fine; nothing may then be written beneath it.
    let (action, parts) = plan.plan_member(TarEntryKind::Symlink, "a", Some(".")).unwrap();
    assert_eq!((action, parts), (TarEntryAction::Symlink, vec!["a".to_string()]));
    assert_eq!(
        plan.plan_member(TarEntryKind::Regular, "a/passwd", None).unwrap_err(),
        "path traversal rejected: a/passwd"
    );
    assert!(plan.plan_member(TarEntryKind::Directory, "./a/b/", None).is_err());
    // The link itself may be replaced by a file (it is unlinked first).
    assert_eq!(plan.plan_member(TarEntryKind::Regular, "a", None).unwrap().0, TarEntryAction::WriteFile);
    // A framework-style layout is accepted.
    assert!(plan.plan_member(TarEntryKind::Directory, "F.framework/Versions/A/", None).is_ok());
    assert!(plan.plan_member(TarEntryKind::Regular, "F.framework/Versions/A/F", None).is_ok());
    assert!(plan.plan_member(TarEntryKind::Symlink, "F.framework/Versions/Current", Some("A")).is_ok());
    assert!(plan.plan_member(TarEntryKind::Symlink, "F.framework/F", Some("Versions/Current/F")).is_ok());
    assert!(plan.plan_member(TarEntryKind::Symlink, "F.framework/Versions/B/lib", Some("../../../x")).is_ok());
    // A link may not replace a directory that earlier members lie in.
    assert_eq!(
        plan.plan_member(TarEntryKind::Symlink, "F.framework/Versions", Some("A")).unwrap_err(),
        "path traversal rejected: F.framework/Versions"
    );
    // Metadata members are not written and not checked against links.
    assert_eq!(plan.plan_member(TarEntryKind::XHeader, "a/h", None).unwrap().0, TarEntryAction::Skip);
}
