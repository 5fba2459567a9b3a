//! Where an app's files go: the OS directories for each platform, from the
//! environment and the home directory, the Linux `user-dirs.dirs` entries,
//! and the app-scoped directories under them.
use vstd::prelude::*;
use crate::path::{is_sep, join_path, path_join};
use crate::sdk_types::AppInfo;
use crate::text::{
    chars_of, find_char, find_char_from, first_index_of, lemma_find_char_from, push_char, str_eq,
    string_from_chars, trim_bounds, trim_spec, TrimSet,
};

verus! {

/// The platform the directories are resolved for.
#[derive(Clone, Copy, PartialEq, Eq, Structural, Debug)]
pub enum Platform {
    MacOs,
    Windows,
    Linux,
}

/// The environment variables the resolution reads (`None` when unset).
pub struct EnvVars {
    pub home: Option<String>,
    pub userprofile: Option<String>,
    pub localappdata: Option<String>,
    pub appdata: Option<String>,
    pub xdg_data_home: Option<String>,
    pub xdg_cache_home: Option<String>,
    pub xdg_state_home: Option<String>,
    pub xdg_config_home: Option<String>,
    pub temp: Option<String>,
    pub tmp: Option<String>,
    pub tmpdir: Option<String>,
}

/// A variable's value, an empty value counting as unset.
pub open spec fn env_spec(v: Option<String>) -> Option<Seq<char>> {
    match v {
        Some(s) => if s@.len() > 0 {
            Some(s@)
        } else {
            None
        },
        None => None,
    }
}

fn env_value(v: &Option<String>) -> (r: Option<&str>)
    ensures
        match r {
            Some(s) => env_spec(*v) == Some(s@),
            None => env_spec(*v) is None,
        },
{
    match v {
        Some(s) => if s.as_str().is_empty() {
            None
        } else {
            Some(s.as_str())
        },
        None => None,
    }
}

/// A required variable was unset.
#[derive(Clone, Copy, Debug)]
pub struct MissingEnv {
    pub name: &'static str,
}

/// The home directory: `USERPROFILE` then `HOME` on Windows, `HOME`
/// elsewhere.
pub open spec fn home_dir_spec(platform: Platform, env: EnvVars) -> Option<Seq<char>> {
    match platform {
        Platform::Windows => match env_spec(env.userprofile) {
            Some(p) => Some(p),
            None => env_spec(env.home),
        },
        _ => env_spec(env.home),
    }
}

/// The home directory, or the missing `HOME`.
pub fn home_dir(platform: Platform, env: &EnvVars) -> (r: Result<String, MissingEnv>)
    ensures
        match r {
            Ok(h) => home_dir_spec(platform, *env) == Some(h@),
            Err(e) => home_dir_spec(platform, *env) is None && e.name@ == "HOME"@,
        },
{
    if platform == Platform::Windows {
        if let Some(p) = env_value(&env.userprofile) {
            return Ok(String::from_str(p));
        }
    }
    match env_value(&env.home) {
        Some(h) => Ok(String::from_str(h)),
        None => Err(MissingEnv { name: "HOME" }),
    }
}

/// `home` with `parts` joined on.
pub open spec fn join_all(home: Seq<char>, parts: Seq<Seq<char>>, sep: char) -> Seq<char>
    decreases parts.len(),
{
    if parts.len() == 0 {
        home
    } else {
        path_join(join_all(home, parts.drop_last(), sep), parts.last(), sep)
    }
}

fn join2(home: &str, a: &str, b: &str, sep: char) -> (r: String)
    ensures
        r@ == join_all(home@, seq![a@, b@], sep),
{
    let s = join_path(home, a, sep);
    proof {
        assert(seq![a@, b@].drop_last() =~= seq![a@]);
        assert(seq![a@].drop_last() =~= Seq::<Seq<char>>::empty());
        reveal_with_fuel(join_all, 3);
    }
    join_path(s.as_str(), b, sep)
}

fn join1(home: &str, a: &str, sep: char) -> (r: String)
    ensures
        r@ == join_all(home@, seq![a@], sep),
{
    proof {
        assert(seq![a@].drop_last() =~= Seq::<Seq<char>>::empty());
        reveal_with_fuel(join_all, 2);
    }
    join_path(home, a, sep)
}

/// The variable's value, or `home` with `parts` joined on.
pub open spec fn env_or_join(v: Option<String>, home: Seq<char>, parts: Seq<Seq<char>>, sep: char) -> Seq<
    char,
> {
    match env_spec(v) {
        Some(p) => p,
        None => join_all(home, parts, sep),
    }
}

/// The application-support / data directory.
pub open spec fn app_data_dir_spec(platform: Platform, home: Seq<char>, env: EnvVars, sep: char) -> Seq<
    char,
> {
    match platform {
        Platform::MacOs => join_all(home, seq!["Library"@, "Application Support"@], sep),
        Platform::Windows => env_or_join(env.localappdata, home, seq!["AppData"@, "Local"@], sep),
        Platform::Linux => env_or_join(env.xdg_data_home, home, seq![".local"@, "share"@], sep),
    }
}

/// The cache directory.
pub open spec fn cache_dir_spec(platform: Platform, home: Seq<char>, env: EnvVars, sep: char) -> Seq<char> {
    match platform {
        Platform::MacOs => join_all(home, seq!["Library"@, "Caches"@], sep),
        Platform::Windows => env_or_join(env.localappdata, home, seq!["AppData"@, "Local"@], sep),
        Platform::Linux => env_or_join(env.xdg_cache_home, home, seq![".cache"@], sep),
    }
}

/// The logs directory.
pub open spec fn logs_dir_spec(platform: Platform, home: Seq<char>, env: EnvVars, sep: char) -> Seq<char> {
    match platform {
        Platform::MacOs => join_all(home, seq!["Library"@, "Logs"@], sep),
        Platform::Windows => env_or_join(env.localappdata, home, seq!["AppData"@, "Local"@], sep),
        Platform::Linux => env_or_join(env.xdg_state_home, home, seq![".local"@, "state"@], sep),
    }
}

/// The config directory.
pub open spec fn config_dir_spec(platform: Platform, home: Seq<char>, env: EnvVars, sep: char) -> Seq<
    char,
> {
    match platform {
        Platform::MacOs => join_all(home, seq!["Library"@, "Application Support"@], sep),
        Platform::Windows => env_or_join(env.appdata, home, seq!["AppData"@, "Roaming"@], sep),
        Platform::Linux => env_or_join(env.xdg_config_home, home, seq![".config"@], sep),
    }
}

/// The temp directory: `TEMP`, `TMP` or `<home>\AppData\Local\Temp` on
/// Windows; `TMPDIR` or `/tmp` elsewhere.
pub open spec fn temp_dir_spec(platform: Platform, home: Seq<char>, env: EnvVars, sep: char) -> Seq<char> {
    match platform {
        Platform::Windows => match env_spec(env.temp) {
            Some(t) => t,
            None => match env_spec(env.tmp) {
                Some(t) => t,
                None => join_all(home, seq!["AppData"@, "Local"@, "Temp"@], sep),
            },
        },
        _ => match env_spec(env.tmpdir) {
            Some(t) => t,
            None => "/tmp"@,
        },
    }
}

fn env_or_join2(v: &Option<String>, home: &str, a: &str, b: &str, sep: char) -> (r: String)
    ensures
        r@ == env_or_join(*v, home@, seq![a@, b@], sep),
{
    match env_value(v) {
        Some(p) => String::from_str(p),
        None => join2(home, a, b, sep),
    }
}

fn env_or_join1(v: &Option<String>, home: &str, a: &str, sep: char) -> (r: String)
    ensures
        r@ == env_or_join(*v, home@, seq![a@], sep),
{
    match env_value(v) {
        Some(p) => String::from_str(p),
        None => join1(home, a, sep),
    }
}

/// The application-support / data directory.
pub fn app_data_dir(platform: Platform, home: &str, env: &EnvVars, sep: char) -> (r: String)
    ensures
        r@ == app_data_dir_spec(platform, home@, *env, sep),
{
    match platform {
        Platform::MacOs => join2(home, "Library", "Application Support", sep),
        Platform::Windows => env_or_join2(&env.localappdata, home, "AppData", "Local", sep),
        Platform::Linux => env_or_join2(&env.xdg_data_home, home, ".local", "share", sep),
    }
}

/// The cache directory.
pub fn cache_dir(platform: Platform, home: &str, env: &EnvVars, sep: char) -> (r: String)
    ensures
        r@ == cache_dir_spec(platform, home@, *env, sep),
{
    match platform {
        Platform::MacOs => join2(home, "Library", "Caches", sep),
        Platform::Windows => env_or_join2(&env.localappdata, home, "AppData", "Local", sep),
        Platform::Linux => env_or_join1(&env.xdg_cache_home, home, ".cache", sep),
    }
}

/// The logs directory.
pub fn logs_dir(platform: Platform, home: &str, env: &EnvVars, sep: char) -> (r: String)
    ensures
        r@ == logs_dir_spec(platform, home@, *env, sep),
{
    match platform {
        Platform::MacOs => join2(home, "Library", "Logs", sep),
        Platform::Windows => env_or_join2(&env.localappdata, home, "AppData", "Local", sep),
        Platform::Linux => env_or_join2(&env.xdg_state_home, home, ".local", "state", sep),
    }
}

/// The config directory.
pub fn config_dir(platform: Platform, home: &str, env: &EnvVars, sep: char) -> (r: String)
    ensures
        r@ == config_dir_spec(platform, home@, *env, sep),
{
    match platform {
        Platform::MacOs => join2(home, "Library", "Application Support", sep),
        Platform::Windows => env_or_join2(&env.appdata, home, "AppData", "Roaming", sep),
        Platform::Linux => env_or_join1(&env.xdg_config_home, home, ".config", sep),
    }
}

/// The temp directory.
pub fn temp_dir(platform: Platform, home: &str, env: &EnvVars, sep: char) -> (r: String)
    ensures
        r@ == temp_dir_spec(platform, home@, *env, sep),
{
    match platform {
        Platform::Windows => {
            if let Some(t) = env_value(&env.temp) {
                return String::from_str(t);
            }
            if let Some(t) = env_value(&env.tmp) {
                return String::from_str(t);
            }
            let s = join2(home, "AppData", "Local", sep);
            proof {
                assert(seq!["AppData"@, "Local"@, "Temp"@].drop_last() =~= seq!["AppData"@, "Local"@]);
            }
            join_path(s.as_str(), "Temp", sep)
        },
        _ => match env_value(&env.tmpdir) {
            Some(t) => String::from_str(t),
            None => String::from_str("/tmp"),
        },
    }
}

// ---- user directories ----

/// The user directories resolved per platform.
#[derive(Clone, Copy, PartialEq, Eq, Structural, Debug)]
pub enum UserDir {
    Documents,
    Downloads,
    Desktop,
    Pictures,
    Music,
    Videos,
}

/// The folder name under the home directory on macOS.
pub open spec fn mac_name(kind: UserDir) -> Seq<char> {
    match kind {
        UserDir::Documents => "Documents"@,
        UserDir::Downloads => "Downloads"@,
        UserDir::Desktop => "Desktop"@,
        UserDir::Pictures => "Pictures"@,
        UserDir::Music => "Music"@,
        UserDir::Videos => "Movies"@,
    }
}

/// The folder name under the home directory on Windows, and the Linux
/// fallback.
pub open spec fn plain_name(kind: UserDir) -> Seq<char> {
    match kind {
        UserDir::Documents => "Documents"@,
        UserDir::Downloads => "Downloads"@,
        UserDir::Desktop => "Desktop"@,
        UserDir::Pictures => "Pictures"@,
        UserDir::Music => "Music"@,
        UserDir::Videos => "Videos"@,
    }
}

/// The `user-dirs.dirs` key of a user directory.
pub open spec fn xdg_key(kind: UserDir) -> Seq<char> {
    match kind {
        UserDir::Documents => "XDG_DOCUMENTS_DIR"@,
        UserDir::Downloads => "XDG_DOWNLOAD_DIR"@,
        UserDir::Desktop => "XDG_DESKTOP_DIR"@,
        UserDir::Pictures => "XDG_PICTURES_DIR"@,
        UserDir::Music => "XDG_MUSIC_DIR"@,
        UserDir::Videos => "XDG_VIDEOS_DIR"@,
    }
}

fn mac_name_exec(kind: UserDir) -> (r: &'static str)
    ensures
        r@ == mac_name(kind),
{
    match kind {
        UserDir::Documents => "Documents",
        UserDir::Downloads => "Downloads",
        UserDir::Desktop => "Desktop",
        UserDir::Pictures => "Pictures",
        UserDir::Music => "Music",
        UserDir::Videos => "Movies",
    }
}

fn plain_name_exec(kind: UserDir) -> (r: &'static str)
    ensures
        r@ == plain_name(kind),
{
    match kind {
        UserDir::Documents => "Documents",
        UserDir::Downloads => "Downloads",
        UserDir::Desktop => "Desktop",
        UserDir::Pictures => "Pictures",
        UserDir::Music => "Music",
        UserDir::Videos => "Videos",
    }
}

fn xdg_key_exec(kind: UserDir) -> (r: &'static str)
    ensures
        r@ == xdg_key(kind),
{
    match kind {
        UserDir::Documents => "XDG_DOCUMENTS_DIR",
        UserDir::Downloads => "XDG_DOWNLOAD_DIR",
        UserDir::Desktop => "XDG_DESKTOP_DIR",
        UserDir::Pictures => "XDG_PICTURES_DIR",
        UserDir::Music => "XDG_MUSIC_DIR",
        UserDir::Videos => "XDG_VIDEOS_DIR",
    }
}

/// `s` without one pair of surrounding double quotes (when it has at least
/// two characters and starts and ends with one).
pub open spec fn unquote(s: Seq<char>) -> Seq<char> {
    if s.len() >= 2 && s[0] == '"' && s.last() == '"' {
        s.subrange(1, s.len() - 1)
    } else {
        s
    }
}

/// `s` with every `pat` replaced by `rep`, scanning left to right (what
/// `str::replace` gives for a non-empty pattern).
pub open spec fn replace_all(s: Seq<char>, pat: Seq<char>, rep: Seq<char>) -> Seq<char>
    decreases s.len(),
{
    if pat.len() == 0 || s.len() < pat.len() {
        s
    } else if s.take(pat.len() as int) == pat {
        rep + replace_all(s.skip(pat.len() as int), pat, rep)
    } else {
        seq![s[0]] + replace_all(s.skip(1), pat, rep)
    }
}

/// The value of the entry `key` in one trimmed `user-dirs.dirs` line, if
/// the line is such an entry (blank lines and `#` comments are not).
pub open spec fn xdg_line_value(line: Seq<char>, key: Seq<char>) -> Option<Seq<char>> {
    if line.len() == 0 || line[0] == '#' {
        None
    } else {
        match first_index_of(line, '=') {
            Some(eq) => if line.take(eq) == key {
                Some(unquote(trim_spec(line.skip(eq + 1), TrimSet::SpaceTabCr)))
            } else {
                None
            },
            None => None,
        }
    }
}

/// The value of the first entry `key` in the lines of `c` from `pos` on.
pub open spec fn xdg_lookup(c: Seq<char>, pos: int, key: Seq<char>) -> Option<Seq<char>>
    decreases c.len() - pos,
{
    if pos < 0 || pos > c.len() {
        None
    } else {
        let end = match find_char_from(c, '\n', pos) {
            Some(e) => e,
            None => c.len() as int,
        };
        match xdg_line_value(trim_spec(c.subrange(pos, end), TrimSet::SpaceTabCr), key) {
            Some(v) => Some(v),
            None => match find_char_from(c, '\n', pos) {
                Some(e) => {
                    proof {
                        lemma_find_char_from(c, '\n', pos);
                    }
                    xdg_lookup(c, e + 1, key)
                },
                None => None,
            },
        }
    }
}

/// A Linux user directory: the `user-dirs.dirs` entry `key` with `$HOME`
/// replaced by the home directory, or `<home>/<fallback>` when the file
/// could not be read or has no such entry.
pub open spec fn linux_xdg_user_dir_spec(
    home: Seq<char>,
    key: Seq<char>,
    fallback: Seq<char>,
    content: Option<Seq<char>>,
    sep: char,
) -> Seq<char> {
    match content {
        Some(c) => match xdg_lookup(c, 0, key) {
            Some(v) => replace_all(v, "$HOME"@, home),
            None => path_join(home, fallback, sep),
        },
        None => path_join(home, fallback, sep),
    }
}

/// The `user-dirs.dirs` file under a home directory.
pub fn user_dirs_config_path(home: &str, sep: char) -> (r: String)
    ensures
        r@ == join_all(home@, seq![".config"@, "user-dirs.dirs"@], sep),
{
    join2(home, ".config", "user-dirs.dirs", sep)
}

/// Replace every `$HOME` in `v[from..to]` by `home`.
fn replace_home(v: &[char], from: usize, to: usize, home: &str) -> (r: String)
    requires
        from <= to <= v.len(),
    ensures
        r@ == replace_all(v@.subrange(from as int, to as int), "$HOME"@, home@),
{
    let pat = chars_of("$HOME");
    proof {
        reveal_strlit("$HOME");
    }
    let mut out = String::new();
    let mut i = from;
    while i < to
        invariant
            from <= i <= to <= v.len(),
            pat@ == "$HOME"@,
            pat@ =~= seq!['$', 'H', 'O', 'M', 'E'],
            out@ + replace_all(v@.subrange(i as int, to as int), pat@, home@) == replace_all(
                v@.subrange(from as int, to as int),
                pat@,
                home@,
            ),
        decreases to - i,
    {
        let ghost s = v@.subrange(i as int, to as int);
        if to - i >= 5 && v[i] == '$' && v[i + 1] == 'H' && v[i + 2] == 'O' && v[i + 3] == 'M'
            && v[i + 4] == 'E' {
            proof {
                assert(s.take(5) =~= pat@);
                assert(s.skip(5) =~= v@.subrange(i + 5, to as int));
                assert(out@ + (home@ + replace_all(s.skip(5), pat@, home@)) =~= (out@ + home@)
                    + replace_all(s.skip(5), pat@, home@));
            }
            out = crate::text::concat(out, home);
            i += 5;
        } else {
            proof {
                if s.len() >= 5 {
                    assert(s.take(5) != pat@) by {
                        assert(s.take(5)[0] == v@[i as int]);
                        assert(s.take(5)[1] == v@[i + 1]);
                        assert(s.take(5)[2] == v@[i + 2]);
                        assert(s.take(5)[3] == v@[i + 3]);
                        assert(s.take(5)[4] == v@[i + 4]);
                    }
                }
                assert(s.skip(1) =~= v@.subrange(i + 1, to as int));
                assert(out@ + (seq![s[0]] + replace_all(s.skip(1), pat@, home@)) =~= out@.push(v@[i as int])
                    + replace_all(s.skip(1), pat@, home@));
            }
            push_char(&mut out, v[i]);
            i += 1;
        }
    }
    proof {
        assert(out@ + replace_all(v@.subrange(to as int, to as int), pat@, home@) =~= out@);
    }
    out
}

/// The value of the entry `key` in one `user-dirs.dirs` line `v[a..b]`.
fn xdg_line(v: &[char], a: usize, b: usize, key: &[char]) -> (r: Option<(usize, usize)>)
    requires
        a <= b <= v.len(),
    ensures
        match r {
            Some((x, y)) => a <= x <= y <= b && xdg_line_value(
                trim_spec(v@.subrange(a as int, b as int), TrimSet::SpaceTabCr),
                key@,
            ) == Some(v@.subrange(x as int, y as int)),
            None => xdg_line_value(
                trim_spec(v@.subrange(a as int, b as int), TrimSet::SpaceTabCr),
                key@,
            ) is None,
        },
{
    let (s, e) = trim_bounds(v, a, b, TrimSet::SpaceTabCr);
    let ghost line = v@.subrange(s as int, e as int);
    if s == e || v[s] == '#' {
        return None;
    }
    let eq = match find_char(v, '=', s, e) {
        Some(q) => q,
        None => return None,
    };
    if !crate::text::eq_range(v, s, eq, key) {
        proof {
            assert(line.take(eq - s) =~= v@.subrange(s as int, eq as int));
        }
        return None;
    }
    proof {
        assert(line.take(eq - s) =~= v@.subrange(s as int, eq as int));
    }
    let (vs, ve) = trim_bounds(v, eq + 1, e, TrimSet::SpaceTabCr);
    proof {
        assert(line.skip(eq - s + 1) =~= v@.subrange(eq + 1, e as int));
    }
    if ve - vs >= 2 && v[vs] == '"' && v[ve - 1] == '"' {
        proof {
            let t = v@.subrange(vs as int, ve as int);
            assert(t.subrange(1, t.len() - 1) =~= v@.subrange(vs + 1, ve - 1));
        }
        Some((vs + 1, ve - 1))
    } else {
        Some((vs, ve))
    }
}

/// A Linux user directory from the `user-dirs.dirs` text (`None` when the
/// file could not be read).
pub fn linux_xdg_user_dir(home: &str, key: &str, fallback_name: &str, content: Option<&str>, sep: char) -> (r:
    String)
    ensures
        r@ == linux_xdg_user_dir_spec(
            home@,
            key@,
            fallback_name@,
            match content {
                Some(c) => Some(c@),
                None => None,
            },
            sep,
        ),
{
    let text = match content {
        Some(c) => c,
        None => return join_path(home, fallback_name, sep),
    };
    let v = chars_of(text);
    let k = chars_of(key);
    let mut pos: usize = 0;
    loop
        invariant
            content == Some(text),
            v@ == text@,
            k@ == key@,
            pos <= v@.len(),
            xdg_lookup(v@, 0, key@) == xdg_lookup(v@, pos as int, key@),
        ensures
            xdg_lookup(v@, 0, key@) is None,
        decreases v@.len() + 1 - pos,
    {
        let end = match find_char(v.as_slice(), '\n', pos, v.len()) {
            Some(e) => e,
            None => v.len(),
        };
        proof {
            lemma_find_char_from(v@, '\n', pos as int);
            crate::text::lemma_find_from_sub(v@, '\n', pos as int, pos as int);
            assert(v@.subrange(pos as int, v@.len() as int) == v@.subrange(pos as int, v.len() as int));
            let e_spec = match find_char_from(v@, '\n', pos as int) {
                Some(e) => e,
                None => v@.len() as int,
            };
            assert(end == e_spec);
        }
        match xdg_line(v.as_slice(), pos, end, k.as_slice()) {
            Some((x, y)) => {
                proof {
                    assert(xdg_lookup(v@, pos as int, key@) == Some(v@.subrange(x as int, y as int)));
                }
                let r = replace_home(v.as_slice(), x, y, home);
                proof {
                    assert(xdg_lookup(text@, 0, key@) == Some(v@.subrange(x as int, y as int)));
                    assert(r@ == replace_all(v@.subrange(x as int, y as int), "$HOME"@, home@));
                }
                return r;
            },
            None => {},
        }
        if end == v.len() {
            proof {
                assert(xdg_lookup(v@, pos as int, key@) is None);
            }
            break;
        }
        proof {
            assert(xdg_lookup(v@, pos as int, key@) == xdg_lookup(v@, end + 1, key@));
        }
        pos = end + 1;
    }
    join_path(home, fallback_name, sep)
}

/// A user directory for the platform.
pub open spec fn user_dir_spec(
    platform: Platform,
    home: Seq<char>,
    kind: UserDir,
    user_dirs: Option<Seq<char>>,
    sep: char,
) -> Seq<char> {
    match platform {
        Platform::MacOs => path_join(home, mac_name(kind), sep),
        Platform::Windows => path_join(home, plain_name(kind), sep),
        Platform::Linux => linux_xdg_user_dir_spec(home, xdg_key(kind), plain_name(kind), user_dirs, sep),
    }
}

/// The base directories per platform: on macOS under `~/Library`
/// (`Application Support` for data and config, `Caches`, `Logs`); on
/// Windows `LOCALAPPDATA` (else `~\\AppData\\Local`) for data, cache and logs
/// and `APPDATA` (else `~\\AppData\\Roaming`) for config; on Linux the XDG
/// variables, else `~/.local/share`, `~/.cache`, `~/.local/state` and
/// `~/.config`. Temp is `TMPDIR` or `/tmp`, and on Windows `TEMP`, then
/// `TMP`, then `~\\AppData\\Local\\Temp`.
pub proof fn lemma_base_dirs(home: Seq<char>, env: EnvVars, sep: char)
    ensures
        app_data_dir_spec(Platform::MacOs, home, env, sep) == path_join(
            path_join(home, "Library"@, sep),
            "Application Support"@,
            sep,
        ),
        cache_dir_spec(Platform::MacOs, home, env, sep) == path_join(path_join(home, "Library"@, sep), "Caches"@, sep),
        logs_dir_spec(Platform::MacOs, home, env, sep) == path_join(path_join(home, "Library"@, sep), "Logs"@, sep),
        config_dir_spec(Platform::MacOs, home, env, sep) == path_join(
            path_join(home, "Library"@, sep),
            "Application Support"@,
            sep,
        ),
        env_spec(env.localappdata) is None ==> {
            &&& app_data_dir_spec(Platform::Windows, home, env, sep) == path_join(
                path_join(home, "AppData"@, sep),
                "Local"@,
                sep,
            )
            &&& cache_dir_spec(Platform::Windows, home, env, sep) == path_join(
                path_join(home, "AppData"@, sep),
                "Local"@,
                sep,
            )
            &&& logs_dir_spec(Platform::Windows, home, env, sep) == path_join(
                path_join(home, "AppData"@, sep),
                "Local"@,
                sep,
            )
        },
        env_spec(env.localappdata) matches Some(v) ==> {
            &&& app_data_dir_spec(Platform::Windows, home, env, sep) == v
            &&& cache_dir_spec(Platform::Windows, home, env, sep) == v
            &&& logs_dir_spec(Platform::Windows, home, env, sep) == v
        },
        config_dir_spec(Platform::Windows, home, env, sep) == (match env_spec(env.appdata) {
            Some(v) => v,
            None => path_join(path_join(home, "AppData"@, sep), "Roaming"@, sep),
        }),
        app_data_dir_spec(Platform::Linux, home, env, sep) == (match env_spec(env.xdg_data_home) {
            Some(v) => v,
            None => path_join(path_join(home, ".local"@, sep), "share"@, sep),
        }),
        cache_dir_spec(Platform::Linux, home, env, sep) == (match env_spec(env.xdg_cache_home) {
            Some(v) => v,
            None => path_join(home, ".cache"@, sep),
        }),
        logs_dir_spec(Platform::Linux, home, env, sep) == (match env_spec(env.xdg_state_home) {
            Some(v) => v,
            None => path_join(path_join(home, ".local"@, sep), "state"@, sep),
        }),
        config_dir_spec(Platform::Linux, home, env, sep) == (match env_spec(env.xdg_config_home) {
            Some(v) => v,
            None => path_join(home, ".config"@, sep),
        }),
        temp_dir_spec(Platform::Linux, home, env, sep) == (match env_spec(env.tmpdir) {
            Some(v) => v,
            None => "/tmp"@,
        }),
        temp_dir_spec(Platform::MacOs, home, env, sep) == (match env_spec(env.tmpdir) {
            Some(v) => v,
            None => "/tmp"@,
        }),
        temp_dir_spec(Platform::Windows, home, env, sep) == (match (env_spec(env.temp), env_spec(env.tmp)) {
            (Some(v), _) => v,
            (None, Some(v)) => v,
            (None, None) => path_join(path_join(path_join(home, "AppData"@, sep), "Local"@, sep), "Temp"@, sep),
        }),
{
    reveal_with_fuel(join_all, 4);
    assert(seq!["Library"@, "Application Support"@].drop_last() =~= seq!["Library"@]);
    assert(seq!["Library"@, "Caches"@].drop_last() =~= seq!["Library"@]);
    assert(seq!["Library"@, "Logs"@].drop_last() =~= seq!["Library"@]);
    assert(seq!["AppData"@, "Local"@].drop_last() =~= seq!["AppData"@]);
    assert(seq!["AppData"@, "Roaming"@].drop_last() =~= seq!["AppData"@]);
    assert(seq![".local"@, "share"@].drop_last() =~= seq![".local"@]);
    assert(seq![".local"@, "state"@].drop_last() =~= seq![".local"@]);
    assert(seq!["AppData"@, "Local"@, "Temp"@].drop_last() =~= seq!["AppData"@, "Local"@]);
    assert(seq![".cache"@].drop_last() =~= Seq::<Seq<char>>::empty());
    assert(seq![".config"@].drop_last() =~= Seq::<Seq<char>>::empty());
    assert(seq!["Library"@].drop_last() =~= Seq::<Seq<char>>::empty());
    assert(seq!["AppData"@].drop_last() =~= Seq::<Seq<char>>::empty());
    assert(seq![".local"@].drop_last() =~= Seq::<Seq<char>>::empty());
}

/// On Linux each user folder is looked up under its own `user-dirs.dirs`
/// key, falling back to its plain name under the home directory.
pub proof fn lemma_linux_user_dir_keys(home: Seq<char>, user_dirs: Option<Seq<char>>, sep: char)
    ensures
        user_dir_spec(Platform::Linux, home, UserDir::Documents, user_dirs, sep) == linux_xdg_user_dir_spec(
            home,
            "XDG_DOCUMENTS_DIR"@,
            "Documents"@,
            user_dirs,
            sep,
        ),
        user_dir_spec(Platform::Linux, home, UserDir::Downloads, user_dirs, sep) == linux_xdg_user_dir_spec(
            home,
            "XDG_DOWNLOAD_DIR"@,
            "Downloads"@,
            user_dirs,
            sep,
        ),
        user_dir_spec(Platform::Linux, home, UserDir::Desktop, user_dirs, sep) == linux_xdg_user_dir_spec(
            home,
            "XDG_DESKTOP_DIR"@,
            "Desktop"@,
            user_dirs,
            sep,
        ),
        user_dir_spec(Platform::Linux, home, UserDir::Pictures, user_dirs, sep) == linux_xdg_user_dir_spec(
            home,
            "XDG_PICTURES_DIR"@,
            "Pictures"@,
            user_dirs,
            sep,
        ),
        user_dir_spec(Platform::Linux, home, UserDir::Music, user_dirs, sep) == linux_xdg_user_dir_spec(
            home,
            "XDG_MUSIC_DIR"@,
            "Music"@,
            user_dirs,
            sep,
        ),
        user_dir_spec(Platform::Linux, home, UserDir::Videos, user_dirs, sep) == linux_xdg_user_dir_spec(
            home,
            "XDG_VIDEOS_DIR"@,
            "Videos"@,
            user_dirs,
            sep,
        ),
{
}

/// Joining different names (neither starting with a separator) onto the
/// same base gives different paths.
pub proof fn lemma_join_distinct(base: Seq<char>, a: Seq<char>, b: Seq<char>, sep: char)
    requires
        a != b,
        a.len() > 0,
        b.len() > 0,
        !is_sep(a[0], sep),
        !is_sep(b[0], sep),
    ensures
        path_join(base, a, sep) != path_join(base, b, sep),
{
    let x = if base.len() == 0 || is_sep(base.last(), sep) {
        base
    } else {
        base.push(sep)
    };
    assert(path_join(base, a, sep) == x + a);
    assert(path_join(base, b, sep) == x + b);
    assert((x + a).skip(x.len() as int) =~= a);
    assert((x + b).skip(x.len() as int) =~= b);
}

/// The user folders on macOS and Windows are fixed names under the home
/// directory (macOS keeps videos in `Movies`), as they are on Linux when
/// there is no `user-dirs.dirs`; on macOS and Windows different kinds of
/// folder resolve to different paths.
pub proof fn lemma_user_dir_names(home: Seq<char>, user_dirs: Option<Seq<char>>, sep: char)
    requires
        sep == '/' || sep == '\\',
    ensures
        user_dir_spec(Platform::MacOs, home, UserDir::Documents, user_dirs, sep) == path_join(home, "Documents"@, sep),
        user_dir_spec(Platform::MacOs, home, UserDir::Downloads, user_dirs, sep) == path_join(home, "Downloads"@, sep),
        user_dir_spec(Platform::MacOs, home, UserDir::Desktop, user_dirs, sep) == path_join(home, "Desktop"@, sep),
        user_dir_spec(Platform::MacOs, home, UserDir::Pictures, user_dirs, sep) == path_join(home, "Pictures"@, sep),
        user_dir_spec(Platform::MacOs, home, UserDir::Music, user_dirs, sep) == path_join(home, "Music"@, sep),
        user_dir_spec(Platform::MacOs, home, UserDir::Videos, user_dirs, sep) == path_join(home, "Movies"@, sep),
        user_dir_spec(Platform::Windows, home, UserDir::Documents, user_dirs, sep) == path_join(home, "Documents"@, sep),
        user_dir_spec(Platform::Windows, home, UserDir::Downloads, user_dirs, sep) == path_join(home, "Downloads"@, sep),
        user_dir_spec(Platform::Windows, home, UserDir::Desktop, user_dirs, sep) == path_join(home, "Desktop"@, sep),
        user_dir_spec(Platform::Windows, home, UserDir::Pictures, user_dirs, sep) == path_join(home, "Pictures"@, sep),
        user_dir_spec(Platform::Windows, home, UserDir::Music, user_dirs, sep) == path_join(home, "Music"@, sep),
        user_dir_spec(Platform::Windows, home, UserDir::Videos, user_dirs, sep) == path_join(home, "Videos"@, sep),
        user_dir_spec(Platform::Linux, home, UserDir::Documents, None, sep) == path_join(home, "Documents"@, sep),
        user_dir_spec(Platform::Linux, home, UserDir::Downloads, None, sep) == path_join(home, "Downloads"@, sep),
        user_dir_spec(Platform::Linux, home, UserDir::Desktop, None, sep) == path_join(home, "Desktop"@, sep),
        user_dir_spec(Platform::Linux, home, UserDir::Pictures, None, sep) == path_join(home, "Pictures"@, sep),
        user_dir_spec(Platform::Linux, home, UserDir::Music, None, sep) == path_join(home, "Music"@, sep),
        user_dir_spec(Platform::Linux, home, UserDir::Videos, None, sep) == path_join(home, "Videos"@, sep),
        forall|k1: UserDir, k2: UserDir|
            k1 != k2 ==> user_dir_spec(Platform::MacOs, home, k1, user_dirs, sep) != user_dir_spec(
                Platform::MacOs,
                home,
                k2,
                user_dirs,
                sep,
            ),
        forall|k1: UserDir, k2: UserDir|
            k1 != k2 ==> user_dir_spec(Platform::Windows, home, k1, user_dirs, sep) != user_dir_spec(
                Platform::Windows,
                home,
                k2,
                user_dirs,
                sep,
            ),
{
    reveal_strlit("Documents");
    reveal_strlit("Downloads");
    reveal_strlit("Desktop");
    reveal_strlit("Pictures");
    reveal_strlit("Music");
    reveal_strlit("Movies");
    reveal_strlit("Videos");
    assert("Documents"@[2] != "Downloads"@[2]);
    assert forall|k1: UserDir, k2: UserDir| k1 != k2 implies user_dir_spec(Platform::MacOs, home, k1, user_dirs, sep)
        != user_dir_spec(Platform::MacOs, home, k2, user_dirs, sep) by {
        lemma_join_distinct(home, mac_name(k1), mac_name(k2), sep);
    }
    assert forall|k1: UserDir, k2: UserDir| k1 != k2 implies user_dir_spec(Platform::Windows, home, k1, user_dirs, sep)
        != user_dir_spec(Platform::Windows, home, k2, user_dirs, sep) by {
        lemma_join_distinct(home, plain_name(k1), plain_name(k2), sep);
    }
}

/// A user directory for the platform (`user_dirs`: the text of the Linux
/// `user-dirs.dirs`, when it could be read).
pub fn user_dir(platform: Platform, home: &str, kind: UserDir, user_dirs: Option<&str>, sep: char) -> (r:
    String)
    ensures
        r@ == user_dir_spec(
            platform,
            home@,
            kind,
            match user_dirs {
                Some(c) => Some(c@),
                None => None,
            },
            sep,
        ),
{
    match platform {
        Platform::MacOs => join_path(home, mac_name_exec(kind), sep),
        Platform::Windows => join_path(home, plain_name_exec(kind), sep),
        Platform::Linux => linux_xdg_user_dir(
            home,
            xdg_key_exec(kind),
            plain_name_exec(kind),
            user_dirs,
            sep,
        ),
    }
}

/// `base/<identifier>/<channel>`, or `base` when either is empty.
pub open spec fn app_scoped_dir_spec(base: Seq<char>, identifier: Seq<char>, channel: Seq<char>, sep: char) -> Seq<
    char,
> {
    if identifier.len() == 0 || channel.len() == 0 {
        base
    } else {
        path_join(path_join(base, identifier, sep), channel, sep)
    }
}

/// The app-scoped directory under `base`.
pub fn build_app_scoped_dir(base: &str, app_info: &AppInfo, sep: char) -> (r: String)
    ensures
        r@ == app_scoped_dir_spec(base@, app_info.identifier@, app_info.channel@, sep),
{
    if app_info.identifier.is_empty() || app_info.channel.is_empty() {
        return String::from_str(base);
    }
    let s = join_path(base, app_info.identifier, sep);
    join_path(s.as_str(), app_info.channel, sep)
}

/// Every directory resolved for an app.
pub struct Paths {
    pub home: String,
    pub app_data: String,
    pub config: String,
    pub cache: String,
    pub temp: String,
    pub logs: String,
    pub documents: String,
    pub downloads: String,
    pub desktop: String,
    pub pictures: String,
    pub music: String,
    pub videos: String,
    pub user_data: String,
    pub user_cache: String,
    pub user_logs: String,
}

impl Paths {
    /// Resolve every directory for `app_info` (fails only without a home
    /// directory).
    pub fn resolve(
        platform: Platform,
        env: &EnvVars,
        user_dirs: Option<&str>,
        app_info: &AppInfo,
        sep: char,
    ) -> (r: Result<Paths, MissingEnv>)
        ensures
            match r {
                Err(e) => home_dir_spec(platform, *env) is None && e.name@ == "HOME"@,
                Ok(p) => {
                    let h = p.home@;
                    let ud = match user_dirs {
                        Some(c) => Some(c@),
                        None => None,
                    };
                    &&& home_dir_spec(platform, *env) == Some(h)
                    &&& p.app_data@ == app_data_dir_spec(platform, h, *env, sep)
                    &&& p.config@ == config_dir_spec(platform, h, *env, sep)
                    &&& p.cache@ == cache_dir_spec(platform, h, *env, sep)
                    &&& p.temp@ == temp_dir_spec(platform, h, *env, sep)
                    &&& p.logs@ == logs_dir_spec(platform, h, *env, sep)
                    &&& p.documents@ == user_dir_spec(platform, h, UserDir::Documents, ud, sep)
                    &&& p.downloads@ == user_dir_spec(platform, h, UserDir::Downloads, ud, sep)
                    &&& p.desktop@ == user_dir_spec(platform, h, UserDir::Desktop, ud, sep)
                    &&& p.pictures@ == user_dir_spec(platform, h, UserDir::Pictures, ud, sep)
                    &&& p.music@ == user_dir_spec(platform, h, UserDir::Music, ud, sep)
                    &&& p.videos@ == user_dir_spec(platform, h, UserDir::Videos, ud, sep)
                    &&& p.user_data@ == app_scoped_dir_spec(
                        p.app_data@,
                        app_info.identifier@,
                        app_info.channel@,
                        sep,
                    )
                    &&& p.user_cache@ == app_scoped_dir_spec(
                        p.cache@,
                        app_info.identifier@,
                        app_info.channel@,
                        sep,
                    )
                    &&& p.user_logs@ == app_scoped_dir_spec(
                        p.logs@,
                        app_info.identifier@,
                        app_info.channel@,
                        sep,
                    )
                },
            },
    {
        let home = match home_dir(platform, env) {
            Ok(h) => h,
            Err(e) => return Err(e),
        };
        let h = home.as_str();
        let app_data = app_data_dir(platform, h, env, sep);
        let config = config_dir(platform, h, env, sep);
        let cache = cache_dir(platform, h, env, sep);
        let temp = temp_dir(platform, h, env, sep);
        let logs = logs_dir(platform, h, env, sep);
        let documents = user_dir(platform, h, UserDir::Documents, user_dirs, sep);
        let downloads = user_dir(platform, h, UserDir::Downloads, user_dirs, sep);
        let desktop = user_dir(platform, h, UserDir::Desktop, user_dirs, sep);
        let pictures = user_dir(platform, h, UserDir::Pictures, user_dirs, sep);
        let music = user_dir(platform, h, UserDir::Music, user_dirs, sep);
        let videos = user_dir(platform, h, UserDir::Videos, user_dirs, sep);
        let user_data = build_app_scoped_dir(app_data.as_str(), app_info, sep);
        let user_cache = build_app_scoped_dir(cache.as_str(), app_info, sep);
        let user_logs = build_app_scoped_dir(logs.as_str(), app_info, sep);
        Ok(
            Paths {
                home,
                app_data,
                config,
                cache,
                temp,
                logs,
                documents,
                downloads,
                desktop,
                pictures,
                music,
                videos,
                user_data,
                user_cache,
                user_logs,
            },
        )
    }
}

/// The executable's directory and the bundle's `Resources` directory
/// (`<exe_dir>/../Resources`).
pub struct BundlePaths {
    pub exe_dir: String,
    pub resources_dir: String,
}

/// The bundle layout around `exe_dir`.
pub fn bundle_paths(exe_dir: &str, sep: char) -> (r: BundlePaths)
    ensures
        r.exe_dir@ == exe_dir@,
        r.resources_dir@ == join_all(exe_dir@, seq![".."@, "Resources"@], sep),
{
    BundlePaths { exe_dir: String::from_str(exe_dir), resources_dir: join2(exe_dir, "..", "Resources", sep) }
}

} // verus!
