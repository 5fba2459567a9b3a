//! Plain value types of the SDK surface and the tags and defaults they
//! carry across the C ABI.
use vstd::prelude::*;
use crate::text::concat;

verus! {

/// Web renderer backend.
#[derive(Debug, Clone, Copy, PartialEq, Eq, Structural)]
pub enum Renderer {
    /// Platform-native webview.
    Native,
    /// Chromium Embedded Framework.
    Cef,
}

impl Renderer {
    /// The lowercase tag passed across the C ABI.
    pub fn as_tag(self) -> (r: &'static str)
        ensures
            r@ == (match self {
                Renderer::Native => "native"@,
                Renderer::Cef => "cef"@,
            }),
    {
        match self {
            Renderer::Native => "native",
            Renderer::Cef => "cef",
        }
    }
}

impl Default for Renderer {
    fn default() -> (r: Renderer)
        ensures
            r == Renderer::Native,
    {
        Renderer::Native
    }
}

/// Borrowed application identity.
#[derive(Debug, Clone, Copy)]
pub struct AppInfo<'a> {
    pub identifier: &'a str,
    pub name: &'a str,
    pub channel: &'a str,
}

/// Owned application identity (as read from the bundle's `version.json`).
#[derive(Debug, Clone)]
pub struct OwnedAppInfo {
    pub identifier: String,
    pub name: String,
    pub channel: String,
}

impl OwnedAppInfo {
    /// Borrow this identity.
    pub fn borrowed(&self) -> (r: AppInfo<'_>)
        ensures
            r.identifier@ == self.identifier@,
            r.name@ == self.name@,
            r.channel@ == self.channel@,
    {
        AppInfo {
            identifier: self.identifier.as_str(),
            name: self.name.as_str(),
            channel: self.channel.as_str(),
        }
    }
}

/// Window style flags.
#[derive(Debug, Clone, Copy, PartialEq, Eq, Structural)]
pub struct WindowStyle {
    pub borderless: bool,
    pub titled: bool,
    pub closable: bool,
    pub miniaturizable: bool,
    pub resizable: bool,
    pub unified_title_and_toolbar: bool,
    pub full_screen: bool,
    pub full_size_content_view: bool,
    pub utility_window: bool,
    pub doc_modal_window: bool,
    pub nonactivating_panel: bool,
    pub hud_window: bool,
}

impl Default for WindowStyle {
    /// Titled, closable, miniaturizable and resizable; nothing else.
    fn default() -> (r: WindowStyle)
        ensures
            r == (WindowStyle {
                borderless: false,
                titled: true,
                closable: true,
                miniaturizable: true,
                resizable: true,
                unified_title_and_toolbar: false,
                full_screen: false,
                full_size_content_view: false,
                utility_window: false,
                doc_modal_window: false,
                nonactivating_panel: false,
                hud_window: false,
            }),
    {
        WindowStyle {
            borderless: false,
            titled: true,
            closable: true,
            miniaturizable: true,
            resizable: true,
            unified_title_and_toolbar: false,
            full_screen: false,
            full_size_content_view: false,
            utility_window: false,
            doc_modal_window: false,
            nonactivating_panel: false,
            hud_window: false,
        }
    }
}

/// The callbacks a window reports its events to (`None` slots are not
/// installed), one type per kind of event.
#[derive(Debug, Clone, Copy)]
pub struct WindowCallbacks<C, M, R, F, B, K> {
    pub close: Option<C>,
    pub move_: Option<M>,
    pub resize: Option<R>,
    pub focus: Option<F>,
    pub blur: Option<B>,
    pub key: Option<K>,
}

impl<C, M, R, F, B, K> Default for WindowCallbacks<C, M, R, F, B, K> {
    /// No callback installed.
    fn default() -> (r: Self)
        ensures
            r.close is None,
            r.move_ is None,
            r.resize is None,
            r.focus is None,
            r.blur is None,
            r.key is None,
    {
        WindowCallbacks { close: None, move_: None, resize: None, focus: None, blur: None, key: None }
    }
}

/// The navigation, event and bridge callbacks of a webview.
#[derive(Debug, Clone, Copy)]
pub struct WebviewCallbacks<N, E, P> {
    pub decide_navigation: Option<N>,
    pub event: Option<E>,
    pub event_bridge: Option<P>,
    /// The host bridge; it takes precedence over `bun_bridge`.
    pub host_bridge: Option<P>,
    /// The bridge used when no host bridge is given.
    pub bun_bridge: Option<P>,
    pub internal_bridge: Option<P>,
}

impl<N, E, P> Default for WebviewCallbacks<N, E, P> {
    /// No callback installed.
    fn default() -> (r: Self)
        ensures
            r.decide_navigation is None,
            r.event is None,
            r.event_bridge is None,
            r.host_bridge is None,
            r.bun_bridge is None,
            r.internal_bridge is None,
    {
        WebviewCallbacks {
            decide_navigation: None,
            event: None,
            event_bridge: None,
            host_bridge: None,
            bun_bridge: None,
            internal_bridge: None,
        }
    }
}

impl<N, E, P: Copy> WebviewCallbacks<N, E, P> {
    /// The bridge handed to the core: the host bridge, else the bun bridge.
    pub fn host_bridge_or_bun(&self) -> (r: Option<P>)
        ensures
            r == (if self.host_bridge is Some {
                self.host_bridge
            } else {
                self.bun_bridge
            }),
    {
        match self.host_bridge {
            Some(h) => Some(h),
            None => self.bun_bridge,
        }
    }
}

/// Options for creating a tray.
#[derive(Debug, Clone)]
pub struct TrayOptions<'a> {
    pub title: &'a str,
    pub image: &'a str,
    pub is_template: bool,
    pub width: u32,
    pub height: u32,
}

impl<'a> TrayOptions<'a> {
    /// An 18x18, untitled, non-template tray for `image`.
    pub fn new(image: &'a str) -> (r: TrayOptions<'a>)
        ensures
            r.title@ == ""@,
            r.image == image,
            !r.is_template,
            r.width == 18,
            r.height == 18,
    {
        TrayOptions { title: "", image, is_template: false, width: 18, height: 18 }
    }
}

/// Options for showing a notification.
#[derive(Debug, Clone)]
pub struct NotificationOptions<'a> {
    pub title: &'a str,
    pub body: &'a str,
    pub subtitle: &'a str,
    pub silent: bool,
}

impl<'a> NotificationOptions<'a> {
    /// A notification with `title`, no body or subtitle, with sound.
    pub fn new(title: &'a str) -> (r: NotificationOptions<'a>)
        ensures
            r.title == title,
            r.body@ == ""@,
            r.subtitle@ == ""@,
            !r.silent,
    {
        NotificationOptions { title, body: "", subtitle: "", silent: false }
    }
}

/// Filter for reading cookies; unset fields match anything.
#[derive(Debug, Clone, Default)]
pub struct CookieFilter {
    pub url: Option<String>,
    pub name: Option<String>,
    pub domain: Option<String>,
    pub path: Option<String>,
    pub secure: Option<bool>,
    pub session: Option<bool>,
}

/// Storage categories a session can clear.
#[derive(Debug, Clone, Copy, PartialEq, Eq, Structural)]
pub enum StorageType {
    Cookies,
    LocalStorage,
    SessionStorage,
    IndexedDb,
    WebSql,
    Cache,
    All,
}

/// The JSON tag of a storage category.
pub open spec fn storage_tag(t: StorageType) -> Seq<char> {
    match t {
        StorageType::Cookies => "cookies"@,
        StorageType::LocalStorage => "localStorage"@,
        StorageType::SessionStorage => "sessionStorage"@,
        StorageType::IndexedDb => "indexedDB"@,
        StorageType::WebSql => "webSQL"@,
        StorageType::Cache => "cache"@,
        StorageType::All => "all"@,
    }
}

impl StorageType {
    /// The JSON tag.
    pub fn as_tag(self) -> (r: &'static str)
        ensures
            r@ == storage_tag(self),
    {
        match self {
            StorageType::Cookies => "cookies",
            StorageType::LocalStorage => "localStorage",
            StorageType::SessionStorage => "sessionStorage",
            StorageType::IndexedDb => "indexedDB",
            StorageType::WebSql => "webSQL",
            StorageType::Cache => "cache",
            StorageType::All => "all",
        }
    }
}

/// The quoted tags of `types`, comma-separated.
pub open spec fn quoted_tags(types: Seq<StorageType>) -> Seq<char>
    decreases types.len(),
{
    if types.len() == 0 {
        Seq::empty()
    } else if types.len() == 1 {
        "\""@ + storage_tag(types[0]) + "\""@
    } else {
        quoted_tags(types.drop_last()) + ",\""@ + storage_tag(types.last()) + "\""@
    }
}

/// The storage-type list a session clears, as JSON: `["all"]` for an
/// empty selection, else the tags in order.
pub open spec fn storage_types_json_spec(types: Seq<StorageType>) -> Seq<char> {
    if types.len() == 0 {
        "[\"all\"]"@
    } else {
        "["@ + quoted_tags(types) + "]"@
    }
}

/// The JSON list of storage types to clear.
pub fn storage_types_json(types: &[StorageType]) -> (r: String)
    ensures
        r@ == storage_types_json_spec(types@),
{
    if types.len() == 0 {
        return String::from_str("[\"all\"]");
    }
    let mut s = String::new();
    let mut i: usize = 0;
    while i < types.len()
        invariant
            i <= types@.len(),
            s@ == quoted_tags(types@.take(i as int)),
        decreases types.len() - i,
    {
        proof {
            assert(types@.take(i + 1).drop_last() =~= types@.take(i as int));
            assert(types@.take(i + 1).last() == types@[i as int]);
        }
        if i == 0 {
            s = concat(s, "\"");
        } else {
            s = concat(s, ",\"");
        }
        s = concat(s, types[i].as_tag());
        s = concat(s, "\"");
        proof {
            if i == 0 {
                assert(types@.take(0) =~= Seq::<StorageType>::empty());
                assert(types@.take(1)[0] == types@[0]);
            }
        }
        i += 1;
    }
    proof {
        assert(types@.take(types@.len() as int) =~= types@);
    }
    let s = concat(String::from_str("["), s.as_str());
    concat(s, "]")
}

/// The script that hands a host message to a webview's page directly,
/// used when the message transport is not ready.
pub open spec fn host_message_js(message_json: Seq<char>) -> Seq<char> {
    "window.__electrobun.receiveMessageFromHost("@ + message_json + ");"@
}

/// Build the direct-delivery script for a host message.
pub fn host_message_fallback_js(message_json: &str) -> (r: String)
    ensures
        r@ == host_message_js(message_json@),
{
    let s = concat(String::from_str("window.__electrobun.receiveMessageFromHost("), message_json);
    concat(s, ");")
}

/// The partition a session uses by default.
pub const DEFAULT_PARTITION: &'static str = "persist:default";

/// Sessions, scoped to a partition.
pub struct Session;

/// Options for an open-file dialog.
#[derive(Debug, Clone)]
pub struct OpenFileDialogOptions<'a> {
    pub starting_folder: &'a str,
    pub allowed_file_types: &'a str,
    pub can_choose_files: bool,
    pub can_choose_directory: bool,
    pub allows_multiple_selection: bool,
}

impl Default for OpenFileDialogOptions<'_> {
    /// Start in `~/`, any file type, files and directories, several at once.
    fn default() -> (r: Self)
        ensures
            r.starting_folder@ == "~/"@,
            r.allowed_file_types@ == "*"@,
            r.can_choose_files,
            r.can_choose_directory,
            r.allows_multiple_selection,
    {
        OpenFileDialogOptions {
            starting_folder: "~/",
            allowed_file_types: "*",
            can_choose_files: true,
            can_choose_directory: true,
            allows_multiple_selection: true,
        }
    }
}

/// Options for a message box.
#[derive(Debug, Clone)]
pub struct MessageBoxOptions<'a> {
    pub box_type: &'a str,
    pub title: &'a str,
    pub message: &'a str,
    pub detail: &'a str,
    pub buttons: &'a [&'a str],
    pub default_id: i32,
    pub cancel_id: i32,
}

impl Default for MessageBoxOptions<'_> {
    /// An `info` box with one `OK` button, no cancel button.
    fn default() -> (r: Self)
        ensures
            r.box_type@ == "info"@,
            r.title@ == ""@,
            r.message@ == ""@,
            r.detail@ == ""@,
            r.buttons@.len() == 1,
            r.buttons@[0]@ == "OK"@,
            r.default_id == 0,
            r.cancel_id == -1,
    {
        MessageBoxOptions {
            box_type: "info",
            title: "",
            message: "",
            detail: "",
            buttons: &["OK"],
            default_id: 0,
            cancel_id: -1,
        }
    }
}

/// The button labels as passed across the ABI: joined with `,`.
pub open spec fn joined_buttons(b: Seq<Seq<char>>) -> Seq<char>
    decreases b.len(),
{
    if b.len() == 0 {
        Seq::empty()
    } else if b.len() == 1 {
        b[0]
    } else {
        joined_buttons(b.drop_last()) + ","@ + b.last()
    }
}

/// Join button labels with `,`.
pub fn join_buttons(buttons: &[&str]) -> (r: String)
    ensures
        r@ == joined_buttons(buttons@.map_values(|b: &str| b@)),
{
    let mut s = String::new();
    let mut i: usize = 0;
    while i < buttons.len()
        invariant
            i <= buttons@.len(),
            s@ == joined_buttons(buttons@.take(i as int).map_values(|b: &str| b@)),
        decreases buttons.len() - i,
    {
        proof {
            assert(buttons@.take(i + 1).map_values(|b: &str| b@).drop_last() =~= buttons@.take(
                i as int,
            ).map_values(|b: &str| b@));
        }
        if i > 0 {
            s = concat(s, ",");
        } else {
            proof {
                assert(buttons@.take(0).map_values(|b: &str| b@) =~= Seq::<Seq<char>>::empty());
            }
        }
        s = concat(s, buttons[i]);
        i += 1;
    }
    proof {
        assert(buttons@.take(buttons@.len() as int) =~= buttons@);
    }
    s
}

} // verus!
