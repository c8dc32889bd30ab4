//! The companion browser: which executable to use, how to launch it, and how
//! to translate a structured address for the system's generic opener.
//!
//! Discovery weighs, in a fixed order, what the caller found on the machine
//! (a [`Discovery`]); launching yields a [`LaunchCommand`] that the caller
//! spawns. Neither touches the file system or the environment.

use crate::servo_api::{has_prefix, starts_with};
use vstd::prelude::*;

verus! {

/// Environment variable that names a browser executable.
pub const BROWSER_ENV_VAR: &'static str = "HARBOR_BROWSER";

/// Environment variable through which the window title reaches the browser.
pub const TITLE_ENV_VAR: &'static str = "HARBOR_WINDOW_TITLE";

/// Name of the managed rendering engine's executable.
pub const ENGINE_BINARY: &'static str = "servoshell";

/// Errors of the companion browser.
#[derive(Debug, Clone, PartialEq, Eq)]
pub enum FrontendError {
    /// No strategy produced a browser.
    NoBrowserFound,
    /// The browser could not be spawned.
    StartFailed(String),
    /// The browser exited unexpectedly.
    BrowserCrashed(String),
    /// An operating-system error, as text.
    Io(String),
}

/// How to open the browser window.
#[derive(Debug, Clone)]
pub struct WindowConfig {
    /// Address to load; structured transport addresses are accepted.
    pub url: String,
    /// Window title.
    pub title: String,
    /// Window width in pixels.
    pub width: u32,
    /// Window height in pixels.
    pub height: u32,
    /// Whether the window can be resized.
    pub resizable: bool,
    /// Whether the window shows decorations.
    pub decorated: bool,
    /// Whether the window starts fullscreen.
    pub fullscreen: bool,
    /// Whether developer tools are enabled.
    pub devtools: bool,
}

/// The browser that discovery chose.
#[derive(Debug, Clone, PartialEq, Eq)]
pub enum BrowserType {
    /// The managed engine at this path.
    Servoshell(String),
    /// The system's generic document opener.
    SystemBrowser,
    /// An executable that the user named, at this path.
    Custom(String),
}

/// What the caller found on this machine, for each discovery strategy.
#[derive(Debug, Clone)]
pub struct Discovery {
    /// Whether the launcher's explicit browser path exists.
    pub explicit_exists: bool,
    /// The value of [`BROWSER_ENV_VAR`], if set, and whether that path exists.
    pub env_override: Option<(String, bool)>,
    /// Where the search of the executable path found [`ENGINE_BINARY`].
    pub in_path: Option<String>,
    /// The locations of [`install_locations`], in that order and
    /// tilde-expanded, each with whether it exists.
    pub installed: Vec<(String, bool)>,
    /// Whether the system's generic opener can be used on this machine.
    pub system_opener: bool,
}

/// Finds and launches the companion browser.
#[derive(Debug, Clone)]
pub struct BrowserLauncher {
    browser_path: Option<String>,
    allow_system_fallback: bool,
}

/// The index of the first location in `locs` that exists, or `locs.len()`.
pub open spec fn first_present(locs: Seq<(String, bool)>) -> int
    decreases locs.len(),
{
    if locs.len() == 0 {
        0
    } else if locs[0].1 {
        0
    } else {
        1 + first_present(locs.drop_first())
    }
}

/// The path of `candidate` when it exists.
pub open spec fn existing(candidate: Option<(String, bool)>) -> Option<String> {
    match candidate {
        Some((path, exists)) => if exists {
            Some(path)
        } else {
            None
        },
        None => None,
    }
}

/// The outcome of discovery, strategy by strategy: the explicit path, the
/// environment override, the executable path search, the conventional
/// locations, and the system opener when the fallback is allowed.
pub open spec fn discovered(
    explicit: Option<String>,
    allow_system_fallback: bool,
    d: Discovery,
) -> Result<BrowserType, FrontendError> {
    let k = first_present(d.installed@);
    if explicit is Some && d.explicit_exists {
        Ok(BrowserType::Custom(explicit->0))
    } else if existing(d.env_override) is Some {
        Ok(BrowserType::Custom(existing(d.env_override)->0))
    } else if d.in_path is Some {
        Ok(BrowserType::Servoshell(d.in_path->0))
    } else if k < d.installed@.len() {
        Ok(BrowserType::Servoshell(d.installed@[k].0))
    } else if allow_system_fallback && d.system_opener {
        Ok(BrowserType::SystemBrowser)
    } else {
        Err(FrontendError::NoBrowserFound)
    }
}

/// The conventional install locations, in the order they are tried.
pub open spec fn install_location_list() -> Seq<Seq<char>> {
    seq![
        "./target/release/servoshell"@,
        "./target/debug/servoshell"@,
        "~/.local/bin/servoshell"@,
        "~/.cargo/bin/servoshell"@,
        "/usr/local/bin/servoshell"@,
        "/usr/bin/servoshell"@,
    ]
}

/// The conventional install locations of the managed engine, in the order
/// they are tried: build outputs, user-local directories, system directories.
/// A leading `~/` stands for the user's home directory.
pub fn install_locations() -> (r: Vec<&'static str>)
    ensures
        r@.len() == install_location_list().len(),
        forall|i: int| 0 <= i < r@.len() ==> #[trigger] r@[i]@ == install_location_list()[i],
{
    let r = vec![
        "./target/release/servoshell",
        "./target/debug/servoshell",
        "~/.local/bin/servoshell",
        "~/.cargo/bin/servoshell",
        "/usr/local/bin/servoshell",
        "/usr/bin/servoshell",
    ];
    assert(r@.len() == 6);
    r
}

impl BrowserLauncher {
    /// The explicit browser path, if one was set.
    pub closed spec fn path_spec(&self) -> Option<String> {
        self.browser_path
    }

    /// Whether the system opener may serve as the last resort.
    pub closed spec fn fallback_spec(&self) -> bool {
        self.allow_system_fallback
    }

    /// A launcher with no explicit path that allows the system fallback.
    pub fn new() -> (r: Self)
        ensures
            r.path_spec() is None,
            r.fallback_spec(),
    {
        BrowserLauncher { browser_path: None, allow_system_fallback: true }
    }

    /// Sets an explicit browser path, tried before every other strategy.
    pub fn with_browser(self, path: &str) -> (r: Self)
        ensures
            r.path_spec() matches Some(p) && p@ == path@,
            r.fallback_spec() == self.fallback_spec(),
    {
        BrowserLauncher { browser_path: Some(String::from_str(path)), ..self }
    }

    /// Forbids the system fallback.
    pub fn no_fallback(self) -> (r: Self)
        ensures
            r.path_spec() == self.path_spec(),
            !r.fallback_spec(),
    {
        BrowserLauncher { allow_system_fallback: false, ..self }
    }

    /// The explicit browser path, if one was set.
    pub fn browser_path(&self) -> (r: Option<&str>)
        ensures
            r is Some == self.path_spec() is Some,
            r matches Some(p) ==> p@ == self.path_spec()->0@,
    {
        match &self.browser_path {
            Some(p) => Some(p.as_str()),
            None => None,
        }
    }

    /// Whether the system opener may serve as the last resort.
    pub fn allows_system_fallback(&self) -> (r: bool)
        ensures
            r == self.fallback_spec(),
    {
        self.allow_system_fallback
    }

    /// Chooses the browser from what was found on the machine: the first
    /// strategy that succeeds wins.
    pub fn find_browser(&self, found: &Discovery) -> (r: Result<BrowserType, FrontendError>)
        ensures
            r == discovered(self.path_spec(), self.fallback_spec(), *found),
    {
        if let Some(path) = &self.browser_path {
            if found.explicit_exists {
                return Ok(BrowserType::Custom(path.clone()));
            }
        }
        if let Some((path, exists)) = &found.env_override {
            if *exists {
                return Ok(BrowserType::Custom(path.clone()));
            }
        }
        if let Some(path) = &found.in_path {
            return Ok(BrowserType::Servoshell(path.clone()));
        }
        let n = found.installed.len();
        let mut i: usize = 0;
        while i < n
            invariant
                n == found.installed@.len(),
                i <= n,
                !(self.path_spec() is Some && found.explicit_exists),
                existing(found.env_override) is None,
                found.in_path is None,
                forall|j: int| 0 <= j < i ==> !(#[trigger] found.installed@[j]).1,
            decreases n - i,
        {
            if found.installed[i].1 {
                proof {
                    lemma_first_present_at(found.installed@, i as int);
                }
                return Ok(BrowserType::Servoshell(found.installed[i].0.clone()));
            }
            i = i + 1;
        }
        proof {
            lemma_first_present_at(found.installed@, n as int);
        }
        if self.allow_system_fallback && found.system_opener {
            return Ok(BrowserType::SystemBrowser);
        }
        Err(FrontendError::NoBrowserFound)
    }
}

/// `first_present` is the index `i` when no location before `i` exists and
/// `i` is the end or exists.
proof fn lemma_first_present_at(locs: Seq<(String, bool)>, i: int)
    requires
        0 <= i <= locs.len(),
        forall|j: int| 0 <= j < i ==> !(#[trigger] locs[j]).1,
        i == locs.len() || locs[i].1,
    ensures
        first_present(locs) == i,
    decreases i,
{
    if i > 0 {
        let rest = locs.drop_first();
        assert forall|j: int| 0 <= j < i - 1 implies !(#[trigger] rest[j]).1 by {
            assert(rest[j] == locs[j + 1]);
        }
        if i < locs.len() {
            assert(rest[i - 1] == locs[i]);
        }
        lemma_first_present_at(rest, i - 1);
    }
}

/// The platform the launcher runs on; it decides the system opener.
#[derive(Debug, Clone, Copy, PartialEq, Eq)]
pub enum Platform {
    Linux,
    MacOs,
    Windows,
    Other,
}

/// The name of the system's generic opener on platform `p`.
pub open spec fn opener_name(p: Platform) -> Seq<char> {
    match p {
        Platform::MacOs => "open"@,
        Platform::Windows => "start"@,
        _ => "xdg-open"@,
    }
}

/// The system's generic document opener on `platform`.
pub fn system_opener(platform: Platform) -> (r: &'static str)
    ensures
        r@ == opener_name(platform),
{
    match platform {
        Platform::MacOs => "open",
        Platform::Windows => "start",
        _ => "xdg-open",
    }
}

/// A process to spawn for the companion browser.
#[derive(Debug, Clone)]
pub struct LaunchCommand {
    /// The executable.
    pub program: String,
    /// Its arguments, in order.
    pub args: Vec<String>,
    /// Environment variables to set, as (name, value) pairs.
    pub env: Vec<(String, String)>,
    /// When set, every standard stream goes to the null device; otherwise
    /// standard input is null and the output streams are inherited.
    pub quiet: bool,
}

/// The characters of a sequence of strings.
pub open spec fn texts(v: Seq<String>) -> Seq<Seq<char>> {
    v.map_values(|s: String| s@)
}

/// The characters of a sequence of (name, value) pairs.
pub open spec fn text_pairs(v: Seq<(String, String)>) -> Seq<(Seq<char>, Seq<char>)> {
    v.map_values(|p: (String, String)| (p.0@, p.1@))
}

/// The decimal digits.
pub open spec fn digits() -> Seq<char> {
    seq!['0', '1', '2', '3', '4', '5', '6', '7', '8', '9']
}

/// The decimal notation of `n`, without leading zeros.
pub open spec fn decimal(n: nat) -> Seq<char>
    decreases n,
{
    if n < 10 {
        seq![digits()[n as int]]
    } else {
        decimal(n / 10) + seq![digits()[(n % 10) as int]]
    }
}

/// The window geometry argument: width, `x`, height.
pub open spec fn geometry(width: u32, height: u32) -> Seq<char> {
    decimal(width as nat) + "x"@ + decimal(height as nat)
}

/// The environment handed to the managed engine: the window title, and a
/// quiet log filter unless one is set already.
pub open spec fn engine_env(title: Seq<char>, log_filter_set: bool) -> Seq<(Seq<char>, Seq<char>)> {
    if log_filter_set {
        seq![(TITLE_ENV_VAR@, title)]
    } else {
        seq![(TITLE_ENV_VAR@, title), ("RUST_LOG"@, "warn"@)]
    }
}

/// The command that runs `browser` for `config`, where `socket` is the path
/// of the backend's socket. The managed engine and a user's executable get
/// the window geometry and then the address as the last argument; the system
/// opener gets the translated address alone.
pub open spec fn launch_spec(
    browser: BrowserType,
    config: WindowConfig,
    platform: Platform,
    log_filter_set: bool,
    socket: Seq<char>,
    r: LaunchCommand,
) -> bool {
    match browser {
        BrowserType::SystemBrowser => {
            &&& r.program@ == opener_name(platform)
            &&& texts(r.args@) == seq![translated(config.url@, socket)]
            &&& r.env@.len() == 0
            &&& r.quiet
        },
        BrowserType::Servoshell(path) | BrowserType::Custom(path) => {
            &&& r.program@ == path@
            &&& texts(r.args@) == seq![
                "--window-size"@,
                geometry(config.width, config.height),
                config.url@,
            ]
            &&& text_pairs(r.env@) == engine_env(config.title@, log_filter_set)
            &&& !r.quiet
        },
    }
}

/// The message of a failed spawn of `program`.
pub open spec fn spawn_error_message(program: Seq<char>, error: Seq<char>) -> Seq<char> {
    program + ": "@ + error
}

impl BrowserLauncher {
    /// The command that launches `browser` with the window `config` on
    /// `platform`; `log_filter_set` tells whether the log filter variable is
    /// already set in the environment, and `socket` is the path of the
    /// backend's socket, which the address for the system opener is
    /// translated against.
    pub fn launch_command(
        &self,
        browser: &BrowserType,
        config: &WindowConfig,
        platform: Platform,
        log_filter_set: bool,
        socket: &str,
    ) -> (r: LaunchCommand)
        ensures
            launch_spec(*browser, *config, platform, log_filter_set, socket@, r),
    {
        match browser {
            BrowserType::Servoshell(path) => servoshell_command(path.as_str(), config, log_filter_set),
            BrowserType::Custom(path) => servoshell_command(path.as_str(), config, log_filter_set),
            BrowserType::SystemBrowser => system_browser_command(config, platform, socket),
        }
    }

    /// The error of a failed spawn of `command`.
    pub fn launch_failure(&self, command: &LaunchCommand, error: &str) -> (r: FrontendError)
        ensures
            r matches FrontendError::StartFailed(m) && m@ == spawn_error_message(
                command.program@,
                error@,
            ),
    {
        let mut m = command.program.clone();
        m.append(": ");
        m.append(error);
        FrontendError::StartFailed(m)
    }
}

fn servoshell_command(path: &str, config: &WindowConfig, log_filter_set: bool) -> (r: LaunchCommand)
    ensures
        r.program@ == path@,
        texts(r.args@) == seq!["--window-size"@, geometry(config.width, config.height), config.url@],
        text_pairs(r.env@) == engine_env(config.title@, log_filter_set),
        !r.quiet,
{
    let mut size = String::new();
    push_decimal(&mut size, config.width);
    size.append("x");
    push_decimal(&mut size, config.height);
    let mut args: Vec<String> = Vec::new();
    args.push(String::from_str("--window-size"));
    args.push(size);
    args.push(config.url.clone());
    let mut env: Vec<(String, String)> = Vec::new();
    env.push((String::from_str(TITLE_ENV_VAR), config.title.clone()));
    if !log_filter_set {
        env.push((String::from_str("RUST_LOG"), String::from_str("warn")));
    }
    assert(texts(args@) =~= seq![
        "--window-size"@,
        geometry(config.width, config.height),
        config.url@,
    ]);
    assert(text_pairs(env@) =~= engine_env(config.title@, log_filter_set));
    LaunchCommand { program: String::from_str(path), args, env, quiet: false }
}

fn system_browser_command(config: &WindowConfig, platform: Platform, socket: &str) -> (r:
    LaunchCommand)
    ensures
        r.program@ == opener_name(platform),
        texts(r.args@) == seq![translated(config.url@, socket@)],
        r.env@.len() == 0,
        r.quiet,
{
    let mut args: Vec<String> = Vec::new();
    args.push(convert_transport_url(config.url.as_str(), socket));
    assert(texts(args@) =~= seq![translated(config.url@, socket@)]);
    LaunchCommand {
        program: String::from_str(system_opener(platform)),
        args,
        env: Vec::new(),
        quiet: true,
    }
}

/// Appends the decimal notation of `n` to `s`.
fn push_decimal(s: &mut String, n: u32)
    ensures
        final(s)@ == old(s)@ + decimal(n as nat),
    decreases n,
{
    if n >= 10 {
        push_decimal(s, n / 10);
        s.append(digit_text(n % 10));
        assert(final(s)@ =~= old(s)@ + decimal(n as nat));
    } else {
        s.append(digit_text(n));
    }
}

fn digit_text(d: u32) -> (r: &'static str)
    requires
        d < 10,
    ensures
        r@ == seq![digits()[d as int]],
{
    proof {
        reveal_strlit("0");
        reveal_strlit("1");
        reveal_strlit("2");
        reveal_strlit("3");
        reveal_strlit("4");
        reveal_strlit("5");
        reveal_strlit("6");
        reveal_strlit("7");
        reveal_strlit("8");
        reveal_strlit("9");
    }
    if d == 0 {
        "0"
    } else if d == 1 {
        "1"
    } else if d == 2 {
        "2"
    } else if d == 3 {
        "3"
    } else if d == 4 {
        "4"
    } else if d == 5 {
        "5"
    } else if d == 6 {
        "6"
    } else if d == 7 {
        "7"
    } else if d == 8 {
        "8"
    } else {
        "9"
    }
}

/// The part of `s` after its first `p.len()` characters.
pub open spec fn after(s: Seq<char>, p: Seq<char>) -> Seq<char> {
    s.subrange(p.len() as int, s.len() as int)
}

/// The request path carried by `rest`, the part of a socket address after
/// its transport prefix, when `rest` names the socket `socket`: the socket
/// alone carries the empty path, and the socket followed by `/` and `p`
/// carries `p`. Any other `rest` carries no path that can be told apart.
pub open spec fn socket_request_path(rest: Seq<char>, socket: Seq<char>) -> Option<Seq<char>> {
    if starts_with(rest, socket) {
        let tail = after(rest, socket);
        if tail.len() == 0 {
            Some(Seq::<char>::empty())
        } else if tail[0] == '/' {
            Some(tail.subrange(1, tail.len() as int))
        } else {
            None
        }
    } else {
        None
    }
}

/// The address that a generic opener is given for `url`, where `socket` is
/// the path of the backend's socket.
///
/// A socket address `http::unix//<socket>/<path>` becomes the local root
/// `http://localhost/` followed by `<path>`; `http::unix//<socket>`, with or
/// without a trailing `/`, becomes the local root alone, and so does any
/// socket address that does not name `socket`. A TCP address
/// `http::tcp//<rest>` or `https::tcp//<rest>` becomes `http://<rest>` or
/// `https://<rest>`. Any other address is kept.
pub open spec fn translated(url: Seq<char>, socket: Seq<char>) -> Seq<char> {
    if starts_with(url, "http::unix//"@) {
        match socket_request_path(after(url, "http::unix//"@), socket) {
            Some(path) => "http://localhost/"@ + path,
            None => "http://localhost/"@,
        }
    } else if starts_with(url, "http::tcp//"@) {
        "http://"@ + after(url, "http::tcp//"@)
    } else if starts_with(url, "https::tcp//"@) {
        "https://"@ + after(url, "https::tcp//"@)
    } else {
        url
    }
}

/// Translates a structured address for the system's generic opener, which
/// cannot reach a socket; `socket` is the path of the backend's socket. See
/// [`translated`]. The translation never fails; where it cannot be precise it
/// falls back to the local root.
pub fn convert_transport_url(url: &str, socket: &str) -> (r: String)
    ensures
        r@ == translated(url@, socket@),
{
    proof {
        reveal_strlit("http::unix//");
        reveal_strlit("http::tcp//");
        reveal_strlit("https::tcp//");
    }
    let n = url.unicode_len();
    if has_prefix(url, "http::unix//") {
        let rest = url.substring_char(12, n);
        let mut r = String::from_str("http://localhost/");
        if has_prefix(rest, socket) {
            let m = rest.unicode_len();
            let tail = rest.substring_char(socket.unicode_len(), m);
            let t = tail.unicode_len();
            if t > 0 && tail.get_char(0) == '/' {
                r.append(tail.substring_char(1, t));
            }
        }
        r
    } else if has_prefix(url, "http::tcp//") {
        let mut r = String::from_str("http://");
        r.append(url.substring_char(11, n));
        r
    } else if has_prefix(url, "https::tcp//") {
        let mut r = String::from_str("https://");
        r.append(url.substring_char(12, n));
        r
    } else {
        String::from_str(url)
    }
}

/// Discovery depends on what was found alone. An explicit path that exists
/// is always chosen, whatever else the machine holds. With no usable explicit
/// path, no usable override, the engine neither on the executable path nor at
/// any conventional location, and the fallback disabled, discovery reports
/// that no browser was found.
pub proof fn lemma_discovery_is_deterministic(
    explicit: Option<String>,
    allow_system_fallback: bool,
    d: Discovery,
)
    ensures
        explicit is Some && d.explicit_exists ==> discovered(explicit, allow_system_fallback, d)
            == Ok::<BrowserType, FrontendError>(BrowserType::Custom(explicit->0)),
        !(explicit is Some && d.explicit_exists) && existing(d.env_override) is None
            && d.in_path is None && (forall|i: int|
            0 <= i < d.installed@.len() ==> !(#[trigger] d.installed@[i]).1) ==> discovered(
            explicit,
            false,
            d,
        ) == Err::<BrowserType, FrontendError>(FrontendError::NoBrowserFound),
{
    if forall|i: int| 0 <= i < d.installed@.len() ==> !(#[trigger] d.installed@[i]).1 {
        lemma_first_present_at(d.installed@, d.installed@.len() as int);
    }
}

} // verus!
