use electrobun::sdk_paths::{
    app_data_dir, bundle_paths, cache_dir, config_dir, home_dir, linux_xdg_user_dir, logs_dir, temp_dir,
    user_dir, user_dirs_config_path, EnvVars, Paths, Platform, UserDir,
};
use electrobun::sdk_types::{AppInfo, OwnedAppInfo};
use electrobun::path::join_path;

fn env() -> EnvVars {
    EnvVars {
        home: Some("/home/u".to_string()),
        userprofile: None,
        localappdata: None,
        appdata: None,
        xdg_data_home: None,
        xdg_cache_home: None,
        xdg_state_home: None,
        xdg_config_home: None,
        temp: None,
        tmp: None,
        tmpdir: None,
    }
}

#[test]
fn join_follows_pathbuf_push() {
    assert_eq!(join_path("/a", "b", '/'), "/a/b");
    assert_eq!(join_path("/a/", "b", '/'), "/a/b");
    assert_eq!(join_path("", "b", '/'), "b");
    assert_eq!(join_path("/a", "/b", '/'), "/b");
    assert_eq!(join_path("C:\\x", "y", '\\'), "C:\\x\\y");
    let p = std::path::Path::new("/opt/app").join("bin/launcher");
    assert_eq!(join_path("/opt/app", "bin/launcher", '/'), p.to_string_lossy());
}

#[test]
fn home_needs_home_or_userprofile() {
    assert_eq!(home_dir(Platform::Linux, &env()).unwrap(), "/home/u");
    let mut e = env();
    e.home = Some(String::new());
    assert_eq!(home_dir(Platform::Linux, &e).unwrap_err().name, "HOME");
    e.userprofile = Some("C:\\Users\\u".to_string());
    assert_eq!(home_dir(Platform::Windows, &e).unwrap(), "C:\\Users\\u");
    assert!(home_dir(Platform::MacOs, &e).is_err());
}

#[test]
fn linux_directories() {
    let e = env();
    assert_eq!(app_data_dir(Platform::Linux, "/home/u", &e, '/'), "/home/u/.local/share");
    assert_eq!(cache_dir(Platform::Linux, "/home/u", &e, '/'), "/home/u/.cache");
    assert_eq!(logs_dir(Platform::Linux, "/home/u", &e, '/'), "/home/u/.local/state");
    assert_eq!(config_dir(Platform::Linux, "/home/u", &e, '/'), "/home/u/.config");
    assert_eq!(temp_dir(Platform::Linux, "/home/u", &e, '/'), "/tmp");
    let mut x = env();
    x.xdg_data_home = Some("/data".to_string());
    x.xdg_cache_home = Some(String::new());
    x.tmpdir = Some("/var/tmp".to_string());
    assert_eq!(app_data_dir(Platform::Linux, "/home/u", &x, '/'), "/data");
    assert_eq!(cache_dir(Platform::Linux, "/home/u", &x, '/'), "/home/u/.cache");
    assert_eq!(temp_dir(Platform::Linux, "/home/u", &x, '/'), "/var/tmp");
}

#[test]
fn mac_and_windows_directories() {
    let e = env();
    assert_eq!(app_data_dir(Platform::MacOs, "/Users/u", &e, '/'), "/Users/u/Library/Application Support");
    assert_eq!(cache_dir(Platform::MacOs, "/Users/u", &e, '/'), "/Users/u/Library/Caches");
    assert_eq!(logs_dir(Platform::MacOs, "/Users/u", &e, '/'), "/Users/u/Library/Logs");
    assert_eq!(user_dir(Platform::MacOs, "/Users/u", UserDir::Videos, None, '/'), "/Users/u/Movies");
    assert_eq!(app_data_dir(Platform::Windows, "C:\\U", &e, '\\'), "C:\\U\\AppData\\Local");
    assert_eq!(config_dir(Platform::Windows, "C:\\U", &e, '\\'), "C:\\U\\AppData\\Roaming");
    assert_eq!(temp_dir(Platform::Windows, "C:\\U", &e, '\\'), "C:\\U\\AppData\\Local\\Temp");
    let mut w = env();
    w.tmp = Some("T2".to_string());
    assert_eq!(temp_dir(Platform::Windows, "C:\\U", &w, '\\'), "T2");
    w.temp = Some("T1".to_string());
    assert_eq!(temp_dir(Platform::Windows, "C:\\U", &w, '\\'), "T1");
    assert_eq!(user_dir(Platform::Windows, "C:\\U", UserDir::Videos, None, '\\'), "C:\\U\\Videos");
}

#[test]
fn xdg_user_dirs_file() {
    let content = "# comment\nXDG_DESKTOP_DIR=\"$HOME/Schreibtisch\"\n  XDG_MUSIC_DIR = x\nXDG_MUSIC_DIR=\"$HOME/M\"\r\nXDG_VIDEOS_DIR=/media/$HOME$HOME\n";
    assert_eq!(linux_xdg_user_dir("/home/u", "XDG_DESKTOP_DIR", "Desktop", Some(content), '/'), "/home/u/Schreibtisch");
    // The key must match exactly before '='.
    assert_eq!(linux_xdg_user_dir("/home/u", "XDG_MUSIC_DIR", "Music", Some(content), '/'), "/home/u/M");
    assert_eq!(linux_xdg_user_dir("/home/u", "XDG_VIDEOS_DIR", "Videos", Some(content), '/'), "/media//home/u/home/u");
    assert_eq!(linux_xdg_user_dir("/home/u", "XDG_PICTURES_DIR", "Pictures", Some(content), '/'), "/home/u/Pictures");
    assert_eq!(linux_xdg_user_dir("/home/u", "XDG_PICTURES_DIR", "Pictures", None, '/'), "/home/u/Pictures");
    assert_eq!(linux_xdg_user_dir("/h", "K", "F", Some("K=\"\""), '/'), "");
    assert_eq!(linux_xdg_user_dir("/h", "K", "F", Some("K=\""), '/'), "\"");
    assert_eq!(user_dirs_config_path("/home/u", '/'), "/home/u/.config/user-dirs.dirs");
}

#[test]
fn resolve_builds_app_scoped_dirs() {
    let owned = OwnedAppInfo { identifier: "com.ex".to_string(), name: "Ex".to_string(), channel: "canary".to_string() };
    let info = owned.borrowed();
    let p = Paths::resolve(Platform::Linux, &env(), None, &info, '/').unwrap();
    assert_eq!(p.home, "/home/u");
    assert_eq!(p.user_data, "/home/u/.local/share/com.ex/canary");
    assert_eq!(p.user_cache, "/home/u/.cache/com.ex/canary");
    assert_eq!(p.user_logs, "/home/u/.local/state/com.ex/canary");
    assert_eq!(p.documents, "/home/u/Documents");
    let empty = AppInfo { identifier: "", name: "x", channel: "stable" };
    let q = Paths::resolve(Platform::Linux, &env(), None, &empty, '/').unwrap();
    assert_eq!(q.user_data, q.app_data);
    let mut no_home = env();
    no_home.home = None;
    assert!(Paths::resolve(Platform::Linux, &no_home, None, &info, '/').is_err());
}

#[test]
fn bundle_layout() {
    let b = bundle_paths("/Apps/X.app/Contents/MacOS", '/');
    assert_eq!(b.exe_dir, "/Apps/X.app/Contents/MacOS");
    assert_eq!(b.resources_dir, "/Apps/X.app/Contents/MacOS/../Resources");
}
