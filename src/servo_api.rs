//! The stable boundary towards an embedded rendering engine: a configuration
//! value in, lifecycle events out, and a terminal result.

use vstd::prelude::*;

verus! {

/// Errors from the embedded browser path.
#[derive(Debug, Clone, PartialEq, Eq)]
pub enum BrowserError {
    InitFailed(String),
    LoadFailed(String),
    WindowFailed(String),
    EventLoopError(String),
    TransportUrlError(String),
}

/// Configuration of the browser window.
#[derive(Debug, Clone)]
pub struct BrowserConfig {
    /// Address to load; structured transport addresses are accepted.
    pub url: String,
    /// Window title.
    pub title: String,
    /// Window width in pixels.
    pub width: u32,
    /// Window height in pixels.
    pub height: u32,
    /// Whether the window can be resized.
    pub resizable: bool,
    /// Whether the window shows decorations (title bar, borders).
    pub decorated: bool,
    /// Whether the window starts fullscreen.
    pub fullscreen: bool,
    /// Whether developer tools are enabled.
    pub devtools: bool,
    /// Custom user agent (`None` keeps the engine's own).
    pub user_agent: Option<String>,
    /// Directory of user scripts, if any.
    pub userscripts_dir: Option<String>,
}

pub open spec fn default_url() -> Seq<char> {
    seq!['a', 'b', 'o', 'u', 't', ':', 'b', 'l', 'a', 'n', 'k']
}

pub open spec fn default_title() -> Seq<char> {
    seq!['H', 'a', 'r', 'b', 'o', 'r']
}

impl Default for BrowserConfig {
    fn default() -> (r: Self)
        ensures
            r.url@ == default_url(),
            r.title@ == default_title(),
            r.width == 1024,
            r.height == 768,
            r.resizable,
            r.decorated,
            !r.fullscreen,
            !r.devtools,
            r.user_agent is None,
            r.userscripts_dir is None,
    {
        let url = String::from_str("about:blank");
        let title = String::from_str("Harbor");
        proof {
            reveal_strlit("about:blank");
            reveal_strlit("Harbor");
        }
        BrowserConfig {
            url,
            title,
            width: 1024,
            height: 768,
            resizable: true,
            decorated: true,
            fullscreen: false,
            devtools: false,
            user_agent: None,
            userscripts_dir: None,
        }
    }
}


impl BrowserConfig {
    /// A configuration that loads `url`, with every other setting at its
    /// default.
    pub fn new(url: &str) -> (r: Self)
        ensures
            r.url@ == url@,
            r.title@ == default_title(),
            r.width == 1024,
            r.height == 768,
            r.resizable,
            r.decorated,
            !r.fullscreen,
            !r.devtools,
            r.user_agent is None,
            r.userscripts_dir is None,
    {
        let mut config = BrowserConfig::default();
        config.url = String::from_str(url);
        config
    }

    /// Sets the window title.
    pub fn with_title(self, title: &str) -> (r: Self)
        ensures
            r == (BrowserConfig { title: r.title, ..self }),
            r.title@ == title@,
    {
        BrowserConfig { title: String::from_str(title), ..self }
    }

    /// Sets the window size.
    pub fn with_size(self, width: u32, height: u32) -> (r: Self)
        ensures
            r == (BrowserConfig { width, height, ..self }),
    {
        BrowserConfig { width, height, ..self }
    }

    /// Enables or disables resizing.
    pub fn with_resizable(self, resizable: bool) -> (r: Self)
        ensures
            r == (BrowserConfig { resizable, ..self }),
    {
        BrowserConfig { resizable, ..self }
    }

    /// Enables or disables window decorations.
    pub fn with_decorated(self, decorated: bool) -> (r: Self)
        ensures
            r == (BrowserConfig { decorated, ..self }),
    {
        BrowserConfig { decorated, ..self }
    }

    /// Enables or disables fullscreen mode.
    pub fn with_fullscreen(self, fullscreen: bool) -> (r: Self)
        ensures
            r == (BrowserConfig { fullscreen, ..self }),
    {
        BrowserConfig { fullscreen, ..self }
    }

    /// Enables or disables developer tools.
    pub fn with_devtools(self, devtools: bool) -> (r: Self)
        ensures
            r == (BrowserConfig { devtools, ..self }),
    {
        BrowserConfig { devtools, ..self }
    }
}

/// Lifecycle events that the embedded browser reports.
#[derive(Debug, Clone, PartialEq, Eq)]
pub enum BrowserEvent {
    /// The window was created.
    WindowCreated,
    /// The page finished loading.
    LoadComplete,
    /// The page title changed.
    TitleChanged(String),
    /// The user asked to close the window.
    CloseRequested,
    /// The browser met an error.
    Error(String),
}

/// Whether `s` begins with `p`.
pub open spec fn starts_with(s: Seq<char>, p: Seq<char>) -> bool {
    p.len() <= s.len() && s.subrange(0, p.len() as int) == p
}

/// Tests whether `s` begins with `p`.
pub fn has_prefix(s: &str, p: &str) -> (r: bool)
    ensures
        r == starts_with(s@, p@),
{
    let n = s.unicode_len();
    let m = p.unicode_len();
    if m > n {
        return false;
    }
    let mut i: usize = 0;
    while i < m
        invariant
            m <= n,
            n == s@.len(),
            m == p@.len(),
            i <= m,
            forall|j: int| 0 <= j < i ==> s@[j] == p@[j],
        decreases m - i,
    {
        if s.get_char(i) != p.get_char(i) {
            assert(s@.subrange(0, m as int)[i as int] != p@[i as int]);
            return false;
        }
        i = i + 1;
    }
    assert(s@.subrange(0, m as int) =~= p@);
    true
}

/// The address schemes that the embedded browser is known to understand.
pub open spec fn supported_scheme(url: Seq<char>) -> bool {
    ||| starts_with(url, "http://"@)
    ||| starts_with(url, "https://"@)
    ||| starts_with(url, "http::tcp//"@)
    ||| starts_with(url, "https::tcp//"@)
    ||| starts_with(url, "http::unix//"@)
    ||| starts_with(url, "http::unix///"@)
    ||| starts_with(url, "http::tor//"@)
    ||| starts_with(url, "about:"@)
    ||| starts_with(url, "file://"@)
}

/// Whether `url` begins with one of the schemes of [`supported_scheme`].
/// Other addresses are still handed to the engine, which has the last word.
pub fn has_supported_scheme(url: &str) -> (r: bool)
    ensures
        r == supported_scheme(url@),
{
    has_prefix(url, "http://") || has_prefix(url, "https://") || has_prefix(url, "http::tcp//")
        || has_prefix(url, "https::tcp//") || has_prefix(url, "http::unix//") || has_prefix(
        url,
        "http::unix///",
    ) || has_prefix(url, "http::tor//") || has_prefix(url, "about:") || has_prefix(url, "file://")
}

pub open spec fn empty_url_message() -> Seq<char> {
    "URL cannot be empty"@
}

/// Checks an address before it is handed to the engine: only the empty
/// address is refused.
pub fn validate_transport_url(url: &str) -> (r: Result<(), BrowserError>)
    ensures
        url@.len() == 0 <==> r is Err,
        r matches Err(e) ==> (e matches BrowserError::TransportUrlError(m) && m@
            == empty_url_message()),
{
    if url.is_empty() {
        return Err(BrowserError::TransportUrlError(String::from_str("URL cannot be empty")));
    }
    Ok(())
}

/// Whether the embedded rendering engine is part of this build. It is not:
/// the browser window is reached through the companion launcher instead.
pub fn is_browser_available() -> (r: bool)
    ensures
        !r,
{
    false
}

pub open spec fn engine_version() -> Seq<char> {
    "0.0.1-dev"@
}

/// Version of the embedded engine boundary.
pub fn servo_version() -> (r: &'static str)
    ensures
        r@ == engine_version(),
{
    "0.0.1-dev"
}

pub open spec fn engine_pending_message() -> Seq<char> {
    "Servo browser engine integration is pending. Use --backend-only flag to run without browser window, or wait for Servo integration to be completed."@
}

/// Runs the embedded browser with `config` until its window closes.
///
/// The address is validated first. This build has no embedded engine: after
/// reporting that the window was created, the run ends with `InitFailed`,
/// and the caller falls back to the backend-only mode.
pub fn run_browser<F: Fn(BrowserEvent)>(config: BrowserConfig, event_callback: Option<F>) -> (r:
    Result<(), BrowserError>)
    requires
        event_callback matches Some(f) ==> f.requires((BrowserEvent::WindowCreated,)),
    ensures
        config.url@.len() == 0 ==> (r matches Err(BrowserError::TransportUrlError(m)) && m@
            == empty_url_message()),
        config.url@.len() != 0 ==> (r matches Err(BrowserError::InitFailed(m)) && m@
            == engine_pending_message()),
{
    match validate_transport_url(config.url.as_str()) {
        Err(e) => Err(e),
        Ok(()) => run_servo_impl(config, event_callback),
    }
}

/// The engine side of [`run_browser`].
fn run_servo_impl<F: Fn(BrowserEvent)>(_config: BrowserConfig, event_callback: Option<F>) -> (r:
    Result<(), BrowserError>)
    requires
        event_callback matches Some(f) ==> f.requires((BrowserEvent::WindowCreated,)),
    ensures
        r matches Err(BrowserError::InitFailed(m)) && m@ == engine_pending_message(),
{
    if let Some(callback) = &event_callback {
        callback(BrowserEvent::WindowCreated);
    }
    Err(
        BrowserError::InitFailed(
            String::from_str(
                "Servo browser engine integration is pending. Use --backend-only flag to run without browser window, or wait for Servo integration to be completed.",
            ),
        ),
    )
}

} // verus!
