//! The installer's decisions: the bundle's name, where it is installed,
//! which tar members may be written and how, and the post-install fixups
//! (executable bits, CEF symlinks, desktop entries and shortcuts).
use vstd::prelude::*;
use crate::path::{join_path, path_join};
use crate::sdk_paths::{Platform, join_all};
use crate::text::{chars_of, concat, push_char, str_eq, string_from_chars};

verus! {

/// Identity of the app being installed.
pub struct AppMetadata {
    pub identifier: String,
    pub name: String,
    pub channel: String,
    /// Content hash of the compressed bundle.
    pub hash: Option<String>,
}

/// `s` without spaces and with dots turned into dashes.
pub open spec fn sanitize_name(s: Seq<char>) -> Seq<char>
    decreases s.len(),
{
    if s.len() == 0 {
        Seq::empty()
    } else {
        let rest = sanitize_name(s.drop_last());
        if s.last() == ' ' {
            rest
        } else if s.last() == '.' {
            rest.push('-')
        } else {
            rest.push(s.last())
        }
    }
}

/// The on-disk bundle name: the sanitized name, followed by `-<channel>`
/// for every channel but `stable`.
pub open spec fn bundle_base_name_spec(name: Seq<char>, channel: Seq<char>) -> Seq<char> {
    if channel == "stable"@ {
        sanitize_name(name)
    } else {
        sanitize_name(name) + "-"@ + channel
    }
}

/// A sanitized name holds no space and no dot, and is no longer than the
/// name.
pub proof fn lemma_sanitized_name(s: Seq<char>)
    ensures
        !sanitize_name(s).contains(' '),
        !sanitize_name(s).contains('.'),
        sanitize_name(s).len() <= s.len(),
    decreases s.len(),
{
    if s.len() > 0 {
        lemma_sanitized_name(s.drop_last());
        let rest = sanitize_name(s.drop_last());
        let r = sanitize_name(s);
        assert forall|k: int| 0 <= k < r.len() implies r[k] != ' ' && r[k] != '.' by {
            if k < rest.len() {
                assert(r[k] == rest[k]);
                assert(rest[k] != ' ' && rest[k] != '.') by {
                    if rest[k] == ' ' || rest[k] == '.' {
                        assert(rest.contains(rest[k]));
                    }
                }
            }
        }
    }
}

impl AppMetadata {
    /// The on-disk bundle name.
    pub fn bundle_base_name(&self) -> (r: String)
        ensures
            r@ == bundle_base_name_spec(self.name@, self.channel@),
    {
        let v = chars_of(self.name.as_str());
        let mut s = String::new();
        let mut i: usize = 0;
        while i < v.len()
            invariant
                v@ == self.name@,
                i <= v@.len(),
                s@ == sanitize_name(v@.take(i as int)),
            decreases v.len() - i,
        {
            proof {
                assert(v@.take(i + 1).drop_last() =~= v@.take(i as int));
                assert(v@.take(i + 1).last() == v@[i as int]);
            }
            if v[i] == '.' {
                push_char(&mut s, '-');
            } else if v[i] != ' ' {
                push_char(&mut s, v[i]);
            }
            i += 1;
        }
        proof {
            assert(v@.take(v@.len() as int) =~= v@);
        }
        if str_eq(self.channel.as_str(), "stable") {
            s
        } else {
            let s = concat(s, "-");
            concat(s, self.channel.as_str())
        }
    }
}

/// The scratch and install directories:
/// `<data_dir>/<identifier>/<channel>/{self-extraction,app}`.
pub fn install_dirs(metadata: &AppMetadata, data_dir: &str, sep: char) -> (r: (String, String))
    ensures
        r.0@ == path_join(
            path_join(path_join(data_dir@, metadata.identifier@, sep), metadata.channel@, sep),
            "self-extraction"@,
            sep,
        ),
        r.1@ == path_join(
            path_join(path_join(data_dir@, metadata.identifier@, sep), metadata.channel@, sep),
            "app"@,
            sep,
        ),
{
    let base = join_path(data_dir, metadata.identifier.as_str(), sep);
    let base = join_path(base.as_str(), metadata.channel.as_str(), sep);
    (join_path(base.as_str(), "self-extraction", sep), join_path(base.as_str(), "app", sep))
}

/// The name the decompressed tar is kept under: `<hash>.tar`, or
/// `current.tar` without a hash.
pub fn tar_file_name(metadata: &AppMetadata) -> (r: String)
    ensures
        r@ == match metadata.hash {
            Some(h) => h@ + ".tar"@,
            None => "current.tar"@,
        },
{
    match &metadata.hash {
        Some(h) => concat(String::from_str(h.as_str()), ".tar"),
        None => String::from_str("current.tar"),
    }
}

// ---- tar members ----

/// Whether `c` separates components in a member path (either slash).
pub open spec fn is_any_slash(c: char) -> bool {
    c == '/' || c == '\\'
}

/// The first index at or after `from` holding a separator (`'/'` only, or
/// either slash when `both`).
pub open spec fn next_sep(s: Seq<char>, from: int, both: bool) -> int
    decreases s.len() - from,
{
    if from < 0 || from >= s.len() {
        s.len() as int
    } else if s[from] == '/' || (both && s[from] == '\\') {
        from
    } else {
        next_sep(s, from + 1, both)
    }
}

/// Whether some component of `s` from `pos` on, split at either slash, is
/// `..`.
pub open spec fn has_parent_component(s: Seq<char>, pos: int) -> bool
    decreases s.len() + 1 - pos,
{
    if pos < 0 || pos > s.len() {
        false
    } else {
        let end = next_sep(s, pos, true);
        if s.subrange(pos, end) == ".."@ {
            true
        } else if end < s.len() {
            proof {
                lemma_next_sep(s, pos, true);
            }
            has_parent_component(s, end + 1)
        } else {
            false
        }
    }
}

/// The normal components of `s` from `pos` on, split at `'/'`, without
/// empty and `.` components.
pub open spec fn normal_components(s: Seq<char>, pos: int) -> Seq<Seq<char>>
    decreases s.len() + 1 - pos,
{
    if pos < 0 || pos > s.len() {
        Seq::empty()
    } else {
        let end = next_sep(s, pos, false);
        let c = s.subrange(pos, end);
        let rest = if end < s.len() {
            proof {
                lemma_next_sep(s, pos, false);
            }
            normal_components(s, end + 1)
        } else {
            Seq::empty()
        };
        if c.len() == 0 || c == "."@ {
            rest
        } else {
            seq![c] + rest
        }
    }
}

/// A member path is refused when it starts with a slash, names a drive
/// (its second byte is `':'`), or has a `..` component.
pub open spec fn escapes_root(s: Seq<char>) -> bool {
    ||| (s.len() > 0 && is_any_slash(s[0]))
    ||| (s.len() >= 2 && (s[0] as u32) < 128 && s[1] == ':')
    ||| has_parent_component(s, 0)
}

/// The refusal text for a member path.
pub open spec fn traversal_message(s: Seq<char>) -> Seq<char> {
    "path traversal rejected: "@ + s
}

pub proof fn lemma_next_sep(s: Seq<char>, from: int, both: bool)
    requires
        0 <= from <= s.len(),
    ensures
        from <= next_sep(s, from, both) <= s.len(),
        next_sep(s, from, both) < s.len() ==> (s[next_sep(s, from, both)] == '/' || (both && s[next_sep(s, from, both)] == '\\')),
        forall|k: int| from <= k < next_sep(s, from, both) ==> !(s[k] == '/' || (both && s[k] == '\\')),
    decreases s.len() - from,
{
    if from < s.len() && !(s[from] == '/' || (both && s[from] == '\\')) {
        lemma_next_sep(s, from + 1, both);
    }
}

fn find_sep(v: &[char], from: usize, both: bool) -> (r: usize)
    requires
        from <= v.len(),
    ensures
        r == next_sep(v@, from as int, both),
{
    let mut i = from;
    while i < v.len()
        invariant
            from <= i <= v.len(),
            next_sep(v@, from as int, both) == next_sep(v@, i as int, both),
        decreases v.len() - i,
    {
        if v[i] == '/' || (both && v[i] == '\\') {
            return i;
        }
        i += 1;
    }
    i
}

/// Check a tar member path and give its normal components (to join onto
/// the extraction directory), or the refusal text.
pub fn safe_relative_path(raw: &str) -> (r: Result<Vec<String>, String>)
    ensures
        match r {
            Ok(parts) => !escapes_root(raw@) && parts@.map_values(|p: String| p@)
                == normal_components(raw@, 0),
            Err(e) => escapes_root(raw@) && e@ == traversal_message(raw@),
        },
{
    let v = chars_of(raw);
    let refuse = concat(String::from_str("path traversal rejected: "), raw);
    if v.len() > 0 && (v[0] == '/' || v[0] == '\\') {
        return Err(refuse);
    }
    if v.len() >= 2 && (v[0] as u32) < 128 && v[1] == ':' {
        return Err(refuse);
    }
    let mut pos: usize = 0;
    loop
        invariant
            v@ == raw@,
            refuse@ == traversal_message(raw@),
            pos <= v@.len(),
            has_parent_component(v@, 0) == has_parent_component(v@, pos as int),
        ensures
            !has_parent_component(v@, 0),
        decreases v@.len() + 1 - pos,
    {
        let end = find_sep(v.as_slice(), pos, true);
        proof {
            lemma_next_sep(v@, pos as int, true);
        }
        proof {
            reveal_strlit("..");
            assert(".."@ =~= seq!['.', '.']);
        }
        if end - pos == 2 && v[pos] == '.' && v[pos + 1] == '.' {
            proof {
                assert(v@.subrange(pos as int, end as int) =~= ".."@);
                assert(has_parent_component(v@, pos as int));
            }
            return Err(refuse);
        }
        proof {
            let sub = v@.subrange(pos as int, end as int);
            if end - pos == 2 {
                assert(sub[0] == v@[pos as int]);
                assert(sub[1] == v@[pos + 1]);
                assert(sub != ".."@) by {
                    if sub == ".."@ {
                        assert(sub[0] == '.' && sub[1] == '.');
                    }
                }
            } else {
                assert(sub.len() != ".."@.len());
            }
        }
        if end == v.len() {
            break;
        }
        pos = end + 1;
    }
    Ok(split_components(raw))
}

/// The normal components of `raw` (split at `'/'`, without empty and `.`
/// components; `..` is kept).
pub fn split_components(raw: &str) -> (parts: Vec<String>)
    ensures
        parts@.map_values(|p: String| p@) == normal_components(raw@, 0),
{
    let v = chars_of(raw);
    let mut parts: Vec<String> = Vec::new();
    let mut pos: usize = 0;
    loop
        invariant_except_break
            parts@.map_values(|p: String| p@) + normal_components(v@, pos as int) == normal_components(
                v@,
                0,
            ),
        invariant
            v@ == raw@,
            pos <= v@.len(),
        ensures
            parts@.map_values(|p: String| p@) == normal_components(v@, 0),
        decreases v@.len() + 1 - pos,
    {
        let end = find_sep(v.as_slice(), pos, false);
        proof {
            lemma_next_sep(v@, pos as int, false);
            reveal_strlit(".");
        }
        let ghost c = v@.subrange(pos as int, end as int);
        let ghost rest = if end < v@.len() {
            normal_components(v@, end + 1)
        } else {
            Seq::<Seq<char>>::empty()
        };
        let ghost before = parts@.map_values(|p: String| p@);
        if !(end == pos || (end - pos == 1 && v[pos] == '.')) {
            parts.push(string_from_chars(v.as_slice(), pos, end));
            proof {
                assert(c != "."@) by {
                    if c.len() == 1 {
                        assert(c[0] == v@[pos as int]);
                    }
                }
                assert(parts@.map_values(|p: String| p@) =~= before.push(c));
                assert(before + (seq![c] + rest) =~= before.push(c) + rest);
            }
        } else {
            proof {
                if end - pos == 1 {
                    assert(c =~= "."@);
                }
            }
        }
        if end == v.len() {
            proof {
                assert(parts@.map_values(|p: String| p@) + Seq::<Seq<char>>::empty() =~= parts@.map_values(
                    |p: String| p@,
                ));
            }
            break;
        }
        pos = end + 1;
    }
    parts
}

/// Every position just after a slash (of either kind) is reached by the
/// `..` scan that starts at `p`.
proof fn lemma_scan_reaches(s: Seq<char>, p: int, q: int)
    requires
        0 <= p <= q <= s.len(),
        q == p || is_any_slash(s[q - 1]),
        !has_parent_component(s, p),
    ensures
        !has_parent_component(s, q),
    decreases q - p,
{
    if q > p {
        lemma_next_sep(s, p, true);
        let end = next_sep(s, p, true);
        assert(end <= q - 1) by {
            if end > q - 1 {
                assert(!(s[q - 1] == '/' || s[q - 1] == '\\'));
            }
        }
        assert(end < s.len());
        lemma_scan_reaches(s, end + 1, q);
    }
}

/// A segment between slashes that holds no backslash ends where the scan
/// over both slashes ends.
proof fn lemma_same_end(s: Seq<char>, pos: int)
    requires
        0 <= pos <= s.len(),
        !s.subrange(pos, next_sep(s, pos, false)).contains('\\'),
    ensures
        next_sep(s, pos, true) == next_sep(s, pos, false),
    decreases s.len() - pos,
{
    lemma_next_sep(s, pos, false);
    if pos < s.len() && s[pos] != '/' {
        assert(s.subrange(pos, next_sep(s, pos, false))[0] == s[pos]);
        assert(s[pos] != '\\');
        assert(next_sep(s, pos, false) == next_sep(s, pos + 1, false));
        assert(s.subrange(pos + 1, next_sep(s, pos + 1, false)) =~= s.subrange(
            pos,
            next_sep(s, pos, false),
        ).drop_first());
        let t = s.subrange(pos + 1, next_sep(s, pos + 1, false));
        if t.contains('\\') {
            let k = choose|k: int| 0 <= k < t.len() && #[trigger] t[k] == '\\';
            assert(s.subrange(pos, next_sep(s, pos, false))[k + 1] == '\\');
        }
        lemma_same_end(s, pos + 1);
    }
}

proof fn lemma_components_from(s: Seq<char>, pos: int)
    requires
        0 <= pos <= s.len(),
        pos == 0 || s[pos - 1] == '/',
        !has_parent_component(s, 0),
    ensures
        forall|i: int|
            0 <= i < normal_components(s, pos).len() ==> {
                let c = #[trigger] normal_components(s, pos)[i];
                &&& c.len() > 0
                &&& c != "."@
                &&& c != ".."@
                &&& !c.contains('/')
            },
    decreases s.len() + 1 - pos,
{
    reveal_strlit("..");
    lemma_next_sep(s, pos, false);
    let end = next_sep(s, pos, false);
    let c = s.subrange(pos, end);
    assert(!c.contains('/')) by {
        if c.contains('/') {
            let k = choose|k: int| 0 <= k < c.len() && c[k] == '/';
            assert(s[pos + k] == '/');
        }
    }
    if c == ".."@ {
        assert(!c.contains('\\')) by {
            assert(".."@ =~= seq!['.', '.']);
        }
        lemma_same_end(s, pos);
        lemma_scan_reaches(s, 0, pos);
        assert(has_parent_component(s, pos));
    }
    if end < s.len() {
        lemma_components_from(s, end + 1);
    }
    let rest = if end < s.len() {
        normal_components(s, end + 1)
    } else {
        Seq::<Seq<char>>::empty()
    };
    assert(normal_components(s, pos) == if c.len() == 0 || c == "."@ {
        rest
    } else {
        seq![c] + rest
    });
    if !(c.len() == 0 || c == "."@) {
        assert forall|i: int| 0 <= i < normal_components(s, pos).len() implies {
            let d = #[trigger] normal_components(s, pos)[i];
            &&& d.len() > 0
            &&& d != "."@
            &&& d != ".."@
            &&& !d.contains('/')
        } by {
            if i > 0 {
                assert(normal_components(s, pos)[i] == rest[i - 1]);
            }
        }
    }
}

/// A member path that is accepted stays inside the extraction directory:
/// each of its components is a plain, non-empty name without a slash that
/// is neither `.` nor `..`.
pub proof fn lemma_accepted_paths_stay_inside(s: Seq<char>)
    requires
        !escapes_root(s),
    ensures
        forall|i: int|
            0 <= i < normal_components(s, 0).len() ==> {
                let c = #[trigger] normal_components(s, 0)[i];
                &&& c.len() > 0
                &&& c != "."@
                &&& c != ".."@
                &&& !c.contains('/')
            },
{
    lemma_components_from(s, 0);
}

/// The files a macOS update uses: the compressed archive and the tar it
/// decompresses to (both named by the bundle's hash), and the bundle
/// directory inside the archive.
pub struct MacUpdateNames {
    pub archive: String,
    pub tar: String,
    pub bundle: String,
}

/// The macOS update's file names; the metadata must carry a hash.
pub fn macos_update_names(metadata: &AppMetadata) -> (r: Result<MacUpdateNames, String>)
    ensures
        match metadata.hash {
            None => r matches Err(e) && e@ == "macOS metadata missing hash"@,
            Some(h) => r matches Ok(n) && n.archive@ == h@ + ".tar.zst"@ && n.tar@ == h@ + ".tar"@
                && n.bundle@ == bundle_base_name_spec(metadata.name@, metadata.channel@) + ".app"@,
        },
{
    let hash = match &metadata.hash {
        Some(h) => h.as_str(),
        None => return Err(String::from_str("macOS metadata missing hash")),
    };
    let archive = concat(String::from_str(hash), ".tar.zst");
    let tar = concat(String::from_str(hash), ".tar");
    let bundle = concat(metadata.bundle_base_name(), ".app");
    Ok(MacUpdateNames { archive, tar, bundle })
}

/// Where an installer looks for a sidecar archive and metadata named after
/// its own stem, in order: the `.installer` directory beside it, then its
/// own directory. Gives the archive candidates and the metadata candidates.
pub fn adjacent_archive_candidates(exe_dir: &str, stem: &str, sep: char) -> (r: (Vec<String>, Vec<String>))
    ensures
        r.0@.len() == 2,
        r.1@.len() == 2,
        r.0@[0]@ == path_join(path_join(exe_dir@, ".installer"@, sep), stem@ + ".tar.zst"@, sep),
        r.0@[1]@ == path_join(exe_dir@, stem@ + ".tar.zst"@, sep),
        r.1@[0]@ == path_join(path_join(exe_dir@, ".installer"@, sep), stem@ + ".metadata.json"@, sep),
        r.1@[1]@ == path_join(exe_dir@, stem@ + ".metadata.json"@, sep),
{
    let archive_name = concat(String::from_str(stem), ".tar.zst");
    let metadata_name = concat(String::from_str(stem), ".metadata.json");
    let installer_dir = join_path(exe_dir, ".installer", sep);
    let mut archives: Vec<String> = Vec::new();
    archives.push(join_path(installer_dir.as_str(), archive_name.as_str(), sep));
    archives.push(join_path(exe_dir, archive_name.as_str(), sep));
    let mut metadata: Vec<String> = Vec::new();
    metadata.push(join_path(installer_dir.as_str(), metadata_name.as_str(), sep));
    metadata.push(join_path(exe_dir, metadata_name.as_str(), sep));
    (archives, metadata)
}

/// The kinds of tar members.
#[derive(Clone, Copy, PartialEq, Eq, Structural, Debug)]
pub enum TarEntryKind {
    Directory,
    Regular,
    Continuous,
    Symlink,
    GnuLongName,
    GnuLongLink,
    XHeader,
    XGlobalHeader,
    Link,
    Other,
}

/// What to do with a tar member.
#[derive(Clone, Copy, PartialEq, Eq, Structural, Debug)]
pub enum TarEntryAction {
    /// Create the directory.
    CreateDir,
    /// Create the parent directory and unpack the file.
    WriteFile,
    /// Create the parent directory and the symlink (its target is needed).
    Symlink,
    /// A metadata member folded into the next one: nothing to write.
    Skip,
}

/// What to do with a member of `kind`, or the refusal text.
pub open spec fn tar_entry_action_spec(kind: TarEntryKind) -> Result<TarEntryAction, Seq<char>> {
    match kind {
        TarEntryKind::Directory => Ok(TarEntryAction::CreateDir),
        TarEntryKind::Regular | TarEntryKind::Continuous => Ok(TarEntryAction::WriteFile),
        TarEntryKind::Symlink => Ok(TarEntryAction::Symlink),
        TarEntryKind::GnuLongName | TarEntryKind::GnuLongLink | TarEntryKind::XHeader
        | TarEntryKind::XGlobalHeader => Ok(TarEntryAction::Skip),
        TarEntryKind::Link => Err("hard links are not supported"@),
        TarEntryKind::Other => Err("unsupported tar entry type"@),
    }
}

/// Plan a tar member: its path is checked first, then its kind decides.
/// Gives the action and the member's components.
pub fn plan_tar_entry(kind: TarEntryKind, raw_path: &str) -> (r: Result<(TarEntryAction, Vec<String>), String>)
    ensures
        match r {
            Ok((action, parts)) => !escapes_root(raw_path@) && parts@.map_values(|p: String| p@)
                == normal_components(raw_path@, 0) && tar_entry_action_spec(kind) == Ok::<
                TarEntryAction,
                Seq<char>,
            >(action),
            Err(e) => if escapes_root(raw_path@) {
                e@ == traversal_message(raw_path@)
            } else {
                tar_entry_action_spec(kind) == Err::<TarEntryAction, Seq<char>>(e@)
            },
        },
{
    let parts = match safe_relative_path(raw_path) {
        Ok(p) => p,
        Err(e) => return Err(e),
    };
    let action = match kind {
        TarEntryKind::Directory => TarEntryAction::CreateDir,
        TarEntryKind::Regular | TarEntryKind::Continuous => TarEntryAction::WriteFile,
        TarEntryKind::Symlink => TarEntryAction::Symlink,
        TarEntryKind::GnuLongName | TarEntryKind::GnuLongLink | TarEntryKind::XHeader
        | TarEntryKind::XGlobalHeader => TarEntryAction::Skip,
        TarEntryKind::Link => return Err(String::from_str("hard links are not supported")),
        TarEntryKind::Other => return Err(String::from_str("unsupported tar entry type")),
    };
    Ok((action, parts))
}

// ---- confining the extraction ----

/// The components a list of strings stands for.
pub open spec fn comps_of(v: Seq<String>) -> Seq<Seq<char>> {
    v.map_values(|p: String| p@)
}

/// `p` is a proper prefix of `f`: a directory above `f`.
pub open spec fn is_proper_prefix(p: Seq<Seq<char>>, f: Seq<Seq<char>>) -> bool {
    p.len() < f.len() && f.take(p.len() as int) == p
}

/// A component that names an entry inside its directory: non-empty, without
/// a slash, and neither `.` nor `..`.
pub open spec fn plain_component(c: Seq<char>) -> bool {
    &&& c.len() > 0
    &&& c != "."@
    &&& c != ".."@
    &&& !c.contains('/')
}

/// The number of leading `..` components.
pub open spec fn leading_parents(c: Seq<Seq<char>>) -> nat
    decreases c.len(),
{
    if c.len() > 0 && c[0] == ".."@ {
        1 + leading_parents(c.drop_first())
    } else {
        0
    }
}

/// A symlink target is accepted for a link whose parent directory is
/// `parent` (components under the destination) when it is relative, climbs
/// with its leading `..` components no higher than the destination, and
/// then only names entries (no later `..`).
pub open spec fn link_target_ok(parent: Seq<Seq<char>>, target: Seq<char>) -> bool {
    let cs = normal_components(target, 0);
    let k = leading_parents(cs);
    &&& !(target.len() > 0 && is_any_slash(target[0]))
    &&& !(target.len() >= 2 && (target[0] as u32) < 128 && target[1] == ':')
    &&& k <= parent.len()
    &&& forall|i: int| k <= i < cs.len() ==> cs[i] != ".."@
}

/// Where an accepted target points, as components under the destination.
pub open spec fn link_target_resolved(parent: Seq<Seq<char>>, target: Seq<char>) -> Seq<Seq<char>> {
    let cs = normal_components(target, 0);
    let k = leading_parents(cs);
    parent.take(parent.len() - k) + cs.skip(k as int)
}

proof fn lemma_components_basic(s: Seq<char>, pos: int)
    requires
        0 <= pos <= s.len(),
        pos == 0 || s[pos - 1] == '/',
    ensures
        forall|i: int|
            0 <= i < normal_components(s, pos).len() ==> {
                let c = #[trigger] normal_components(s, pos)[i];
                &&& c.len() > 0
                &&& c != "."@
                &&& !c.contains('/')
            },
    decreases s.len() + 1 - pos,
{
    lemma_next_sep(s, pos, false);
    let end = next_sep(s, pos, false);
    let c = s.subrange(pos, end);
    assert(!c.contains('/')) by {
        if c.contains('/') {
            let k = choose|k: int| 0 <= k < c.len() && c[k] == '/';
            assert(s[pos + k] == '/');
        }
    }
    if end < s.len() {
        lemma_components_basic(s, end + 1);
    }
    let rest = if end < s.len() {
        normal_components(s, end + 1)
    } else {
        Seq::<Seq<char>>::empty()
    };
    if !(c.len() == 0 || c == "."@) {
        assert forall|i: int| 0 <= i < normal_components(s, pos).len() implies {
            let d = #[trigger] normal_components(s, pos)[i];
            &&& d.len() > 0
            &&& d != "."@
            &&& !d.contains('/')
        } by {
            if i > 0 {
                assert(normal_components(s, pos)[i] == rest[i - 1]);
            }
        }
    }
}

proof fn lemma_leading_parents(c: Seq<Seq<char>>)
    ensures
        leading_parents(c) <= c.len(),
        forall|i: int| 0 <= i < leading_parents(c) ==> c[i] == ".."@,
    decreases c.len(),
{
    if c.len() > 0 && c[0] == ".."@ {
        lemma_leading_parents(c.drop_first());
        assert forall|i: int| 0 <= i < leading_parents(c) implies c[i] == ".."@ by {
            if i > 0 {
                assert(c[i] == c.drop_first()[i - 1]);
            }
        }
    }
}

/// An accepted symlink target stays inside the destination: when the link's
/// parent directory is made of plain components, so is the place its target
/// names.
pub proof fn lemma_link_targets_stay_inside(parent: Seq<Seq<char>>, target: Seq<char>)
    requires
        forall|i: int| 0 <= i < parent.len() ==> plain_component(#[trigger] parent[i]),
        link_target_ok(parent, target),
    ensures
        forall|i: int|
            0 <= i < link_target_resolved(parent, target).len() ==> plain_component(
                #[trigger] link_target_resolved(parent, target)[i],
            ),
{
    let cs = normal_components(target, 0);
    let k = leading_parents(cs);
    lemma_leading_parents(cs);
    lemma_components_basic(target, 0);
    let r = link_target_resolved(parent, target);
    let n = parent.len() - k;
    assert forall|i: int| 0 <= i < r.len() implies plain_component(#[trigger] r[i]) by {
        if i < n {
            assert(r[i] == parent[i]);
        } else {
            assert(r[i] == cs[k + (i - n)]);
            assert(cs[k + (i - n)] != ".."@);
        }
    }
}

/// Whether some planned link lies above `comps`.
pub open spec fn under_planned_link(links: Seq<Seq<Seq<char>>>, comps: Seq<Seq<char>>) -> bool {
    exists|j: int| 0 <= j < links.len() && is_proper_prefix(#[trigger] links[j], comps)
}

/// Whether `comps` lies above some planned member.
pub open spec fn above_planned_member(members: Seq<Seq<Seq<char>>>, comps: Seq<Seq<char>>) -> bool {
    exists|j: int| 0 <= j < members.len() && is_proper_prefix(comps, #[trigger] members[j])
}

/// The members accepted so far (their components), and those of them that
/// are symlinks. Extraction is confined to the destination because no
/// accepted member lies below a planned symlink, and every symlink target
/// stays inside (see [`lemma_link_targets_stay_inside`]).
pub struct TarPlan {
    pub members: Vec<Vec<String>>,
    pub links: Vec<Vec<String>>,
}

/// What planning a member decides, given the members and links planned
/// before it: the action, or the refusal text.
pub open spec fn member_plan_spec(
    members: Seq<Seq<Seq<char>>>,
    links: Seq<Seq<Seq<char>>>,
    kind: TarEntryKind,
    raw: Seq<char>,
    target: Option<Seq<char>>,
) -> Result<TarEntryAction, Seq<char>> {
    let comps = normal_components(raw, 0);
    if escapes_root(raw) {
        Err(traversal_message(raw))
    } else {
        match tar_entry_action_spec(kind) {
            Err(e) => Err(e),
            Ok(a) => if a == TarEntryAction::Skip {
                Ok(a)
            } else if under_planned_link(links, comps) {
                Err(traversal_message(raw))
            } else if a == TarEntryAction::Symlink {
                match target {
                    None => Err("symlink missing target"@),
                    Some(t) => if comps.len() == 0 {
                        Err(traversal_message(raw))
                    } else if !link_target_ok(comps.drop_last(), t) {
                        Err(traversal_message(raw + " -> "@ + t))
                    } else if above_planned_member(members, comps) {
                        Err(traversal_message(raw))
                    } else {
                        Ok(a)
                    },
                }
            } else {
                Ok(a)
            },
        }
    }
}

impl TarPlan {
    pub open spec fn members_view(&self) -> Seq<Seq<Seq<char>>> {
        self.members@.map_values(|v: Vec<String>| comps_of(v@))
    }

    pub open spec fn links_view(&self) -> Seq<Seq<Seq<char>>> {
        self.links@.map_values(|v: Vec<String>| comps_of(v@))
    }

    /// No planned member lies below a planned symlink.
    pub open spec fn wf(&self) -> bool {
        forall|i: int, j: int|
            0 <= i < self.members_view().len() && 0 <= j < self.links_view().len()
                ==> !is_proper_prefix(#[trigger] self.links_view()[j], #[trigger] self.members_view()[i])
    }

    /// Nothing planned yet.
    pub fn new() -> (r: TarPlan)
        ensures
            r.wf(),
            r.members_view() == Seq::<Seq<Seq<char>>>::empty(),
            r.links_view() == Seq::<Seq<Seq<char>>>::empty(),
    {
        let r = TarPlan { members: Vec::new(), links: Vec::new() };
        proof {
            assert(r.members_view() =~= Seq::<Seq<Seq<char>>>::empty());
            assert(r.links_view() =~= Seq::<Seq<Seq<char>>>::empty());
        }
        r
    }

    /// Plan the next member of the archive: its path, then its kind, then
    /// where it lies and (for a symlink) where its target points. An
    /// accepted member other than a skipped one is remembered. Gives the
    /// action and the member's components, or the refusal text.
    pub fn plan_member(&mut self, kind: TarEntryKind, raw_path: &str, link_target: Option<&str>) -> (r:
        Result<(TarEntryAction, Vec<String>), String>)
        requires
            old(self).wf(),
        ensures
            final(self).wf(),
            match r {
                Ok((action, parts)) => {
                    &&& member_plan_spec(
                        old(self).members_view(),
                        old(self).links_view(),
                        kind,
                        raw_path@,
                        match link_target {
                            Some(t) => Some(t@),
                            None => None,
                        },
                    ) == Ok::<TarEntryAction, Seq<char>>(action)
                    &&& comps_of(parts@) == normal_components(raw_path@, 0)
                    &&& final(self).members_view() == (if action == TarEntryAction::Skip {
                        old(self).members_view()
                    } else {
                        old(self).members_view().push(comps_of(parts@))
                    })
                    &&& final(self).links_view() == (if action == TarEntryAction::Symlink {
                        old(self).links_view().push(comps_of(parts@))
                    } else {
                        old(self).links_view()
                    })
                },
                Err(e) => {
                    &&& member_plan_spec(
                        old(self).members_view(),
                        old(self).links_view(),
                        kind,
                        raw_path@,
                        match link_target {
                            Some(t) => Some(t@),
                            None => None,
                        },
                    ) == Err::<TarEntryAction, Seq<char>>(e@)
                    &&& final(self).members_view() == old(self).members_view()
                    &&& final(self).links_view() == old(self).links_view()
                },
            },
    {
        let (action, parts) = match plan_tar_entry(kind, raw_path) {
            Ok(p) => p,
            Err(e) => return Err(e),
        };
        if action == TarEntryAction::Skip {
            return Ok((action, parts));
        }
        if under_any_link(&self.links, &parts) {
            return Err(concat(String::from_str("path traversal rejected: "), raw_path));
        }
        if action == TarEntryAction::Symlink {
            let t = match link_target {
                Some(t) => t,
                None => return Err(String::from_str("symlink missing target")),
            };
            if parts.len() == 0 {
                return Err(concat(String::from_str("path traversal rejected: "), raw_path));
            }
            if !target_within(&parts, t) {
                let m = concat(String::from_str("path traversal rejected: "), raw_path);
                let m = concat(m, " -> ");
                let m = concat(m, t);
                proof {
                    assert(m@ =~= traversal_message(raw_path@ + " -> "@ + t@));
                }
                return Err(m);
            }
            if above_any_member(&self.members, &parts) {
                return Err(concat(String::from_str("path traversal rejected: "), raw_path));
            }
            let ghost old_members = self.members_view();
            let ghost old_links = self.links_view();
            let ghost c = comps_of(parts@);
            self.members.push(copy_components(&parts));
            self.links.push(copy_components(&parts));
            proof {
                assert(self.members_view() =~= old_members.push(c));
                assert(self.links_view() =~= old_links.push(c));
                assert forall|i: int, j: int|
                    0 <= i < self.members_view().len() && 0 <= j < self.links_view().len()
                        implies !is_proper_prefix(#[trigger] self.links_view()[j], #[trigger] self.members_view()[i]) by {
                    if i < old_members.len() && j < old_links.len() {
                        assert(self.members_view()[i] == old_members[i]);
                        assert(self.links_view()[j] == old_links[j]);
                    } else if j < old_links.len() {
                        assert(self.links_view()[j] == old_links[j]);
                    } else if i < old_members.len() {
                        assert(self.members_view()[i] == old_members[i]);
                    }
                }
            }
        } else {
            let ghost old_members = self.members_view();
            let ghost c = comps_of(parts@);
            self.members.push(copy_components(&parts));
            proof {
                assert(self.members_view() =~= old_members.push(c));
                assert forall|i: int, j: int|
                    0 <= i < self.members_view().len() && 0 <= j < self.links_view().len()
                        implies !is_proper_prefix(#[trigger] self.links_view()[j], #[trigger] self.members_view()[i]) by {
                    if i < old_members.len() {
                        assert(self.members_view()[i] == old_members[i]);
                    }
                }
            }
        }
        Ok((action, parts))
    }
}

/// A copy of a component list.
fn copy_components(v: &Vec<String>) -> (r: Vec<String>)
    ensures
        comps_of(r@) == comps_of(v@),
{
    let mut r: Vec<String> = Vec::new();
    let mut i: usize = 0;
    while i < v.len()
        invariant
            i <= v.len(),
            comps_of(r@) == comps_of(v@).take(i as int),
        decreases v.len() - i,
    {
        let ghost before = r@;
        let c = String::from_str(v[i].as_str());
        r.push(c);
        proof {
            assert(r@ == before.push(c));
            assert(c@ == v@[i as int]@);
            assert(comps_of(r@) =~= comps_of(before).push(c@));
            assert(comps_of(v@).take(i + 1) =~= comps_of(v@).take(i as int).push(v@[i as int]@));
        }
        i += 1;
    }
    proof {
        assert(comps_of(v@).take(v.len() as int) =~= comps_of(v@));
    }
    r
}

/// Whether `p` is a proper prefix of `f`.
fn proper_prefix(p: &Vec<String>, f: &Vec<String>) -> (r: bool)
    ensures
        r == is_proper_prefix(comps_of(p@), comps_of(f@)),
{
    if p.len() >= f.len() {
        return false;
    }
    let mut i: usize = 0;
    while i < p.len()
        invariant
            p.len() < f.len(),
            i <= p.len(),
            comps_of(f@).take(i as int) == comps_of(p@).take(i as int),
        decreases p.len() - i,
    {
        if !str_eq(p[i].as_str(), f[i].as_str()) {
            proof {
                assert(comps_of(f@).take(p.len() as int)[i as int] != comps_of(p@)[i as int]);
            }
            return false;
        }
        proof {
            assert(comps_of(f@).take(i + 1) =~= comps_of(p@).take(i + 1));
        }
        i += 1;
    }
    proof {
        assert(comps_of(p@).take(p.len() as int) =~= comps_of(p@));
    }
    true
}

/// Whether some link in `links` lies above `comps`.
fn under_any_link(links: &Vec<Vec<String>>, comps: &Vec<String>) -> (r: bool)
    ensures
        r == under_planned_link(links@.map_values(|v: Vec<String>| comps_of(v@)), comps_of(comps@)),
{
    let ghost lv = links@.map_values(|v: Vec<String>| comps_of(v@));
    let mut j: usize = 0;
    while j < links.len()
        invariant
            j <= links.len(),
            lv == links@.map_values(|v: Vec<String>| comps_of(v@)),
            forall|k: int| 0 <= k < j ==> !is_proper_prefix(#[trigger] lv[k], comps_of(comps@)),
        decreases links.len() - j,
    {
        if proper_prefix(&links[j], comps) {
            proof {
                assert(lv[j as int] == comps_of(links@[j as int]@));
            }
            return true;
        }
        proof {
            assert(lv[j as int] == comps_of(links@[j as int]@));
        }
        j += 1;
    }
    false
}

/// Whether `comps` lies above some member in `members`.
fn above_any_member(members: &Vec<Vec<String>>, comps: &Vec<String>) -> (r: bool)
    ensures
        r == above_planned_member(members@.map_values(|v: Vec<String>| comps_of(v@)), comps_of(comps@)),
{
    let ghost mv = members@.map_values(|v: Vec<String>| comps_of(v@));
    let mut j: usize = 0;
    while j < members.len()
        invariant
            j <= members.len(),
            mv == members@.map_values(|v: Vec<String>| comps_of(v@)),
            forall|k: int| 0 <= k < j ==> !is_proper_prefix(comps_of(comps@), #[trigger] mv[k]),
        decreases members.len() - j,
    {
        if proper_prefix(comps, &members[j]) {
            proof {
                assert(mv[j as int] == comps_of(members@[j as int]@));
            }
            return true;
        }
        proof {
            assert(mv[j as int] == comps_of(members@[j as int]@));
        }
        j += 1;
    }
    false
}

/// Whether `target` is an accepted target for a symlink at `parts`.
fn target_within(parts: &Vec<String>, target: &str) -> (r: bool)
    requires
        parts.len() > 0,
    ensures
        r == link_target_ok(comps_of(parts@).drop_last(), target@),
{
    let v = chars_of(target);
    if v.len() > 0 && (v[0] == '/' || v[0] == '\\') {
        return false;
    }
    if v.len() >= 2 && (v[0] as u32) < 128 && v[1] == ':' {
        return false;
    }
    let cs = split_components(target);
    let ghost csv = normal_components(target@, 0);
    proof {
        reveal_strlit("..");
    }
    let mut k: usize = 0;
    proof {
        assert(csv.skip(0) =~= csv);
    }
    while k < cs.len() && str_eq(cs[k].as_str(), "..")
        invariant
            k <= cs.len(),
            comps_of(cs@) == csv,
            forall|i: int| 0 <= i < k ==> csv[i] == ".."@,
            leading_parents(csv) == k + leading_parents(csv.skip(k as int)),
        decreases cs.len() - k,
    {
        proof {
            assert(csv[k as int] == cs@[k as int]@);
            assert(csv.skip(k as int).drop_first() =~= csv.skip(k + 1));
            assert(csv.skip(k as int)[0] == csv[k as int]);
        }
        k += 1;
    }
    proof {
        if k < cs.len() {
            assert(csv[k as int] == cs@[k as int]@);
            assert(csv.skip(k as int)[0] == csv[k as int]);
        } else {
            assert(csv.skip(k as int).len() == 0);
        }
        assert(leading_parents(csv) == k);
    }
    if k > parts.len() - 1 {
        return false;
    }
    let mut i = k;
    while i < cs.len()
        invariant
            k <= i <= cs.len(),
            comps_of(cs@) == csv,
            forall|m: int| k <= m < i ==> csv[m] != ".."@,
            leading_parents(csv) == k,
            csv == normal_components(target@, 0),
        decreases cs.len() - i,
    {
        proof {
            assert(csv[i as int] == cs@[i as int]@);
        }
        if str_eq(cs[i].as_str(), "..") {
            return false;
        }
        i += 1;
    }
    true
}

// ---- post-install fixups ----

/// The bundle-relative executables that get mode 0755.
pub open spec fn executables() -> Seq<Seq<char>> {
    seq!["bin/launcher"@, "bin/bun"@, "bin/bspatch"@, "bin/bsdiff"@, "bin/zig-zstd"@]
}

/// The paths to mark executable (those that exist) under `app_dir`.
pub fn fix_executable_permissions(app_dir: &str, sep: char) -> (r: Vec<String>)
    ensures
        r@.len() == executables().len(),
        forall|i: int| 0 <= i < r@.len() ==> (#[trigger] r@[i])@ == path_join(app_dir@, executables()[i], sep),
{
    let mut r: Vec<String> = Vec::new();
    r.push(join_path(app_dir, "bin/launcher", sep));
    r.push(join_path(app_dir, "bin/bun", sep));
    r.push(join_path(app_dir, "bin/bspatch", sep));
    r.push(join_path(app_dir, "bin/bsdiff", sep));
    r.push(join_path(app_dir, "bin/zig-zstd", sep));
    r
}

/// The CEF libraries that get `bin/<lib> -> cef/<lib>` symlinks.
pub open spec fn cef_libs() -> Seq<Seq<char>> {
    seq!["libcef.so"@, "libEGL.so"@, "libGLESv2.so"@, "libvk_swiftshader.so"@, "libvulkan.so.1"@]
}

/// The CEF symlinks to recreate: only when `cef_dir` exists, each link
/// (after removing what is there) pointing at `cef/<lib>`.
pub struct CefSymlinkPlan {
    pub cef_dir: String,
    /// (link path, target) pairs.
    pub links: Vec<(String, String)>,
}

/// Plan the CEF symlinks under `app_dir`.
pub fn fix_cef_symlinks(app_dir: &str, sep: char) -> (r: CefSymlinkPlan)
    ensures
        r.cef_dir@ == path_join(path_join(app_dir@, "bin"@, sep), "cef"@, sep),
        r.links@.len() == cef_libs().len(),
        forall|i: int|
            0 <= i < r.links@.len() ==> (#[trigger] r.links@[i]).0@ == path_join(
                path_join(app_dir@, "bin"@, sep),
                cef_libs()[i],
                sep,
            ) && r.links@[i].1@ == "cef/"@ + cef_libs()[i],
{
    let bin_dir = join_path(app_dir, "bin", sep);
    let cef_dir = join_path(bin_dir.as_str(), "cef", sep);
    let mut links: Vec<(String, String)> = Vec::new();
    links.push((join_path(bin_dir.as_str(), "libcef.so", sep), concat(String::from_str("cef/"), "libcef.so")));
    links.push((join_path(bin_dir.as_str(), "libEGL.so", sep), concat(String::from_str("cef/"), "libEGL.so")));
    links.push(
        (join_path(bin_dir.as_str(), "libGLESv2.so", sep), concat(String::from_str("cef/"), "libGLESv2.so")),
    );
    links.push(
        (
            join_path(bin_dir.as_str(), "libvk_swiftshader.so", sep),
            concat(String::from_str("cef/"), "libvk_swiftshader.so"),
        ),
    );
    links.push(
        (
            join_path(bin_dir.as_str(), "libvulkan.so.1", sep),
            concat(String::from_str("cef/"), "libvulkan.so.1"),
        ),
    );
    CefSymlinkPlan { cef_dir, links }
}

/// One rewritten `.desktop` line (without its newline), or `None` for a
/// dropped (empty) line.
pub open spec fn desktop_line(line: Seq<char>, launcher: Seq<char>, icon: Option<Seq<char>>) -> Option<
    Seq<char>,
> {
    if line.len() == 0 {
        None
    } else if line.len() >= 5 && line.take(5) == "Exec="@ {
        Some("Exec=\""@ + launcher + "\""@)
    } else if line.len() >= 5 && line.take(5) == "Icon="@ {
        match icon {
            Some(i) => Some("Icon="@ + i),
            None => Some(line),
        }
    } else {
        Some(line)
    }
}

/// The rewritten lines of `content` from `pos` on, each ending in a
/// newline.
pub open spec fn rewrite_desktop_from(
    content: Seq<char>,
    pos: int,
    launcher: Seq<char>,
    icon: Option<Seq<char>>,
) -> Seq<char>
    decreases content.len() + 1 - pos,
{
    if pos < 0 || pos > content.len() {
        Seq::empty()
    } else {
        let end = next_sep_nl(content, pos);
        let here = match desktop_line(content.subrange(pos, end), launcher, icon) {
            Some(l) => l.push('\n'),
            None => Seq::empty(),
        };
        if end < content.len() {
            proof {
                lemma_next_nl(content, pos);
            }
            here + rewrite_desktop_from(content, end + 1, launcher, icon)
        } else {
            here
        }
    }
}

/// The first newline at or after `from` (the length when there is none).
pub open spec fn next_sep_nl(s: Seq<char>, from: int) -> int
    decreases s.len() - from,
{
    if from < 0 || from >= s.len() {
        s.len() as int
    } else if s[from] == '\n' {
        from
    } else {
        next_sep_nl(s, from + 1)
    }
}

pub proof fn lemma_next_nl(s: Seq<char>, from: int)
    requires
        0 <= from <= s.len(),
    ensures
        from <= next_sep_nl(s, from) <= s.len(),
    decreases s.len() - from,
{
    if from < s.len() && s[from] != '\n' {
        lemma_next_nl(s, from + 1);
    }
}

/// Point the `Exec=` line at the launcher and, with an icon, the `Icon=`
/// line at the icon; empty lines are dropped and every line ends in a
/// newline.
pub fn rewrite_desktop_entry(content: &str, launcher: &str, icon: Option<&str>) -> (r: String)
    ensures
        r@ == rewrite_desktop_from(
            content@,
            0,
            launcher@,
            match icon {
                Some(i) => Some(i@),
                None => None,
            },
        ),
{
    let ghost ic = match icon {
        Some(i) => Some(i@),
        None => None,
    };
    let v = chars_of(content);
    let exec_prefix = chars_of("Exec=");
    let icon_prefix = chars_of("Icon=");
    let mut out = String::new();
    let mut pos: usize = 0;
    loop
        invariant_except_break
            out@ + rewrite_desktop_from(v@, pos as int, launcher@, ic) == rewrite_desktop_from(
                v@,
                0,
                launcher@,
                ic,
            ),
        invariant
            v@ == content@,
            exec_prefix@ == "Exec="@,
            icon_prefix@ == "Icon="@,
            ic == match icon {
                Some(i) => Some(i@),
                None => None::<Seq<char>>,
            },
            pos <= v@.len(),
        ensures
            out@ == rewrite_desktop_from(v@, 0, launcher@, ic),
        decreases v@.len() + 1 - pos,
    {
        let mut end = pos;
        while end < v.len() && v[end] != '\n'
            invariant
                pos <= end <= v@.len(),
                next_sep_nl(v@, pos as int) == next_sep_nl(v@, end as int),
            decreases v.len() - end,
        {
            end += 1;
        }
        proof {
            lemma_next_nl(v@, pos as int);
        }
        let ghost line = v@.subrange(pos as int, end as int);
        let ghost before = out@;
        if end > pos {
            let is_exec = end - pos >= 5 && crate::text::eq_range(
                v.as_slice(),
                pos,
                pos + 5,
                exec_prefix.as_slice(),
            );
            let is_icon = end - pos >= 5 && crate::text::eq_range(
                v.as_slice(),
                pos,
                pos + 5,
                icon_prefix.as_slice(),
            );
            proof {
                if end - pos >= 5 {
                    assert(line.take(5) =~= v@.subrange(pos as int, pos + 5));
                }
            }
            if is_exec {
                out = concat(out, "Exec=\"");
                out = concat(out, launcher);
                out = concat(out, "\"");
            } else if is_icon && icon.is_some() {
                out = concat(out, "Icon=");
                out = concat(out, icon.unwrap());
            } else {
                out = concat(out, string_from_chars(v.as_slice(), pos, end).as_str());
            }
            push_char(&mut out, '\n');
            proof {
                let here = desktop_line(line, launcher@, ic)->0.push('\n');
                assert(out@ =~= before + here);
            }
        }
        if end == v.len() {
            proof {
                assert(out@ + Seq::<char>::empty() =~= out@);
            }
            break;
        }
        proof {
            let here = match desktop_line(line, launcher@, ic) {
                Some(l) => l.push('\n'),
                None => Seq::empty(),
            };
            assert(rewrite_desktop_from(v@, pos as int, launcher@, ic) == here
                + rewrite_desktop_from(v@, end + 1, launcher@, ic));
            assert(before + (here + rewrite_desktop_from(v@, end + 1, launcher@, ic)) =~= out@
                + rewrite_desktop_from(v@, end + 1, launcher@, ic));
        }
        pos = end + 1;
    }
    out
}

/// The `.desktop` file name for an app.
pub fn desktop_file_name(metadata: &AppMetadata) -> (r: String)
    ensures
        r@ == metadata.name@ + ".desktop"@,
{
    concat(String::from_str(metadata.name.as_str()), ".desktop")
}

/// The launcher inside an installed app.
pub fn launcher_path(app_dir: &str, sep: char) -> (r: String)
    ensures
        r@ == path_join(path_join(app_dir@, "bin"@, sep), "launcher"@, sep),
{
    let s = join_path(app_dir, "bin", sep);
    join_path(s.as_str(), "launcher", sep)
}

/// The PowerShell script that creates a Windows shortcut.
pub open spec fn windows_shortcut_script_spec(
    lnk: Seq<char>,
    target: Seq<char>,
    working_dir: Seq<char>,
    icon: Seq<char>,
) -> Seq<char> {
    "$WshShell = New-Object -ComObject WScript.Shell\n$Shortcut = $WshShell.CreateShortcut(\""@ + lnk
        + "\")\n$Shortcut.TargetPath = \""@ + target + "\"\n$Shortcut.WorkingDirectory = \""@
        + working_dir + "\"\n$Shortcut.IconLocation = \""@ + icon
        + "\"\n$Shortcut.WindowStyle = 1\n$Shortcut.Save()\n"@
}

/// Build the shortcut script.
pub fn windows_shortcut_script(lnk: &str, target: &str, working_dir: &str, icon: &str) -> (r: String)
    ensures
        r@ == windows_shortcut_script_spec(lnk@, target@, working_dir@, icon@),
{
    let s = concat(
        String::from_str(
            "$WshShell = New-Object -ComObject WScript.Shell\n$Shortcut = $WshShell.CreateShortcut(\"",
        ),
        lnk,
    );
    let s = concat(s, "\")\n$Shortcut.TargetPath = \"");
    let s = concat(s, target);
    let s = concat(s, "\"\n$Shortcut.WorkingDirectory = \"");
    let s = concat(s, working_dir);
    let s = concat(s, "\"\n$Shortcut.IconLocation = \"");
    let s = concat(s, icon);
    concat(s, "\"\n$Shortcut.WindowStyle = 1\n$Shortcut.Save()\n")
}

/// The `.reg` text registering the app's uninstall entry.
pub open spec fn uninstall_reg_spec(identifier: Seq<char>, display: Seq<char>, dir: Seq<char>) -> Seq<char> {
    "Windows Registry Editor Version 5.00\r\n\r\n[HKEY_CURRENT_USER\\Software\\Microsoft\\Windows\\CurrentVersion\\Uninstall\\"@
        + identifier + "]\r\n@=\""@ + display + "\"\r\n\"DisplayName\"=\""@ + display
        + "\"\r\n\"DisplayVersion\"=\"1.0\"\r\n\"Publisher\"=\"Electrobun\"\r\n\"InstallLocation\"=\""@
        + dir + "\"\r\n\"UninstallString\"=\"cmd.exe /c rmdir /s /q \\\""@ + dir
        + "\\\"\"\r\n\"NoModify\"=dword:00000001\r\n\"NoRepair\"=dword:00000001\r\n"@
}

/// Build the uninstall `.reg` text; the display name is `<name>
/// (<channel>)`.
pub fn windows_uninstall_reg(metadata: &AppMetadata, app_dir: &str) -> (r: String)
    ensures
        r@ == uninstall_reg_spec(
            metadata.identifier@,
            metadata.name@ + " ("@ + metadata.channel@ + ")"@,
            app_dir@,
        ),
{
    let display = concat(String::from_str(metadata.name.as_str()), " (");
    let display = concat(display, metadata.channel.as_str());
    let display = concat(display, ")");
    let d = display.as_str();
    let s = concat(
        String::from_str(
            "Windows Registry Editor Version 5.00\r\n\r\n[HKEY_CURRENT_USER\\Software\\Microsoft\\Windows\\CurrentVersion\\Uninstall\\",
        ),
        metadata.identifier.as_str(),
    );
    let s = concat(s, "]\r\n@=\"");
    let s = concat(s, d);
    let s = concat(s, "\"\r\n\"DisplayName\"=\"");
    let s = concat(s, d);
    let s = concat(
        s,
        "\"\r\n\"DisplayVersion\"=\"1.0\"\r\n\"Publisher\"=\"Electrobun\"\r\n\"InstallLocation\"=\"",
    );
    let s = concat(s, app_dir);
    let s = concat(s, "\"\r\n\"UninstallString\"=\"cmd.exe /c rmdir /s /q \\\"");
    let s = concat(s, app_dir);
    concat(s, "\\\"\"\r\n\"NoModify\"=dword:00000001\r\n\"NoRepair\"=dword:00000001\r\n")
}

/// What `PathBuf::pop` leaves of a path (its parent, or the path itself
/// when it has none).
pub uninterp spec fn path_pop_spec(p: Seq<char>) -> Seq<char>;

/// std's `PathBuf::pop` on the path `p`.
#[verifier::external_body]
fn path_pop(p: &str) -> (r: String)
    ensures
        r@ == path_pop_spec(p@),
{
    let mut buf = std::path::PathBuf::from(p);
    buf.pop();
    buf.to_string_lossy().into_owned()
}

/// Join the `/`-separated parts of `rel` from `pos` onto `acc`: empty and
/// `.` parts are skipped, `..` drops the last component, other parts are
/// pushed.
pub open spec fn canonical_join_from(acc: Seq<char>, rel: Seq<char>, pos: int, sep: char) -> Seq<char>
    decreases rel.len() + 1 - pos,
{
    if pos < 0 || pos > rel.len() {
        acc
    } else {
        let end = next_sep(rel, pos, false);
        let part = rel.subrange(pos, end);
        let next = if part.len() == 0 || part == "."@ {
            acc
        } else if part == ".."@ {
            path_pop_spec(acc)
        } else {
            path_join(acc, part, sep)
        };
        if end < rel.len() {
            proof {
                lemma_next_sep(rel, pos, false);
            }
            canonical_join_from(next, rel, end + 1, sep)
        } else {
            next
        }
    }
}

/// Join `rel` onto `base`, resolving `.` and `..` without looking at the
/// file system.
pub fn canonical_join(base: &str, rel: &str, sep: char) -> (r: String)
    ensures
        r@ == canonical_join_from(base@, rel@, 0, sep),
{
    let v = chars_of(rel);
    let mut out = String::from_str(base);
    let mut pos: usize = 0;
    proof {
        reveal_strlit(".");
        reveal_strlit("..");
        assert(".."@ =~= seq!['.', '.']);
        assert("."@ =~= seq!['.']);
    }
    loop
        invariant_except_break
            canonical_join_from(out@, v@, pos as int, sep) == canonical_join_from(base@, rel@, 0, sep),
        invariant
            v@ == rel@,
            pos <= v@.len(),
            ".."@ =~= seq!['.', '.'],
            "."@ =~= seq!['.'],
        ensures
            out@ == canonical_join_from(base@, rel@, 0, sep),
        decreases v@.len() + 1 - pos,
    {
        let end = find_sep(v.as_slice(), pos, false);
        proof {
            lemma_next_sep(v@, pos as int, false);
        }
        let ghost part = v@.subrange(pos as int, end as int);
        let ghost before = out@;
        let len = end - pos;
        if len == 0 || (len == 1 && v[pos] == '.') {
            proof {
                if len == 1 {
                    assert(part =~= "."@);
                }
            }
        } else if len == 2 && v[pos] == '.' && v[pos + 1] == '.' {
            proof {
                assert(part =~= ".."@);
            }
            out = path_pop(out.as_str());
        } else {
            proof {
                assert(part != "."@) by {
                    if len == 1 {
                        assert(part[0] == v@[pos as int]);
                        assert(("."@)[0] == '.');
                    } else {
                        assert(part.len() != ("."@).len());
                    }
                }
                assert(part != ".."@) by {
                    if len == 2 {
                        assert(part[0] == v@[pos as int]);
                        assert(part[1] == v@[pos + 1]);
                    }
                }
            }
            let piece = string_from_chars(v.as_slice(), pos, end);
            out = join_path(out.as_str(), piece.as_str(), sep);
        }
        if end == v.len() {
            break;
        }
        pos = end + 1;
    }
    out
}

/// The environment the installer reads (values as `std::env::var` gives
/// them: present even when empty).
pub struct InstallerEnv {
    pub localappdata: Option<String>,
    pub appdata: Option<String>,
    pub userprofile: Option<String>,
    pub xdg_data_home: Option<String>,
    pub home: Option<String>,
}

/// The data directory on macOS (`dirs::data_dir`), which reads the
/// environment; nothing is said of the result.
#[verifier::external_body]
fn dirs_data_dir() -> (r: Option<String>) {
    dirs::data_dir().map(|p| p.to_string_lossy().into_owned())
}

/// The installer's application-data root, or the error text: Windows
/// tries `LOCALAPPDATA`, `APPDATA`, then `<USERPROFILE>\AppData\Local`;
/// Linux `XDG_DATA_HOME`, then `<HOME>/.local/share`; macOS asks the
/// `dirs` crate.
pub fn installer_app_data_dir(platform: Platform, env: &InstallerEnv, sep: char) -> (r: Result<String, String>)
    ensures
        platform == Platform::Windows ==> match (env.localappdata, env.appdata, env.userprofile) {
            (Some(l), _, _) => r matches Ok(s) && s@ == l@,
            (None, Some(a), _) => r matches Ok(s) && s@ == a@,
            (None, None, Some(u)) => r matches Ok(s) && s@ == join_all(
                u@,
                seq!["AppData"@, "Local"@],
                sep,
            ),
            (None, None, None) => r matches Err(e) && e@ == "USERPROFILE not set"@,
        },
        platform == Platform::Linux ==> match (env.xdg_data_home, env.home) {
            (Some(x), _) => r matches Ok(s) && s@ == x@,
            (None, Some(h)) => r matches Ok(s) && s@ == join_all(h@, seq![".local"@, "share"@], sep),
            (None, None) => r matches Err(e) && e@ == "HOME not set"@,
        },
        platform == Platform::MacOs && r is Err ==> r->Err_0@ == "could not resolve data dir"@,
{
    match platform {
        Platform::Windows => {
            if let Some(l) = &env.localappdata {
                return Ok(String::from_str(l.as_str()));
            }
            if let Some(a) = &env.appdata {
                return Ok(String::from_str(a.as_str()));
            }
            match &env.userprofile {
                Some(u) => {
                    let s = join_path(u.as_str(), "AppData", sep);
                    proof {
                        assert(seq!["AppData"@, "Local"@].drop_last() =~= seq!["AppData"@]);
                        assert(seq!["AppData"@].drop_last() =~= Seq::<Seq<char>>::empty());
                        reveal_with_fuel(join_all, 3);
                    }
                    Ok(join_path(s.as_str(), "Local", sep))
                },
                None => Err(String::from_str("USERPROFILE not set")),
            }
        },
        Platform::Linux => {
            if let Some(x) = &env.xdg_data_home {
                return Ok(String::from_str(x.as_str()));
            }
            match &env.home {
                Some(h) => {
                    let s = join_path(h.as_str(), ".local", sep);
                    proof {
                        assert(seq![".local"@, "share"@].drop_last() =~= seq![".local"@]);
                        assert(seq![".local"@].drop_last() =~= Seq::<Seq<char>>::empty());
                        reveal_with_fuel(join_all, 3);
                    }
                    Ok(join_path(s.as_str(), "share", sep))
                },
                None => Err(String::from_str("HOME not set")),
            }
        },
        Platform::MacOs => match dirs_data_dir() {
            Some(d) => Ok(d),
            None => Err(String::from_str("could not resolve data dir")),
        },
    }
}

} // verus!
