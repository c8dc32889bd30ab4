//! The typed application configuration that the supervisor and the launcher
//! consume. Reading it from a document happens outside the library; the
//! values here are read-only to the core.

use vstd::prelude::*;

verus! {

/// The whole configuration of an application.
#[derive(Debug, Clone)]
pub struct HarborConfig {
    /// Application metadata.
    pub app: AppConfig,
    /// The backend server.
    pub backend: BackendConfig,
    /// The frontend window.
    pub frontend: FrontendConfig,
    /// Further settings.
    pub settings: SettingsConfig,
}

/// Application metadata.
#[derive(Debug, Clone)]
pub struct AppConfig {
    /// Application name.
    pub name: String,
    /// Application version.
    pub version: String,
    /// Path of the application icon.
    pub icon: Option<String>,
    /// Description of the application.
    pub description: Option<String>,
}

/// How to run the backend server.
#[derive(Debug, Clone)]
pub struct BackendConfig {
    /// The program to run.
    pub command: String,
    /// Its arguments, in order.
    pub args: Vec<String>,
    /// The local address it serves at: a socket path or a pipe name.
    pub socket: String,
    /// Working directory of the process.
    pub workdir: Option<String>,
    /// Environment variables set for the process, as (name, value) pairs.
    pub env: Vec<(String, String)>,
    /// How long, in seconds, the backend may take to become reachable.
    pub startup_timeout: u64,
    /// Whether a crashed backend is started again by the health check.
    pub restart_on_crash: bool,
}

/// The frontend window.
#[derive(Debug, Clone)]
pub struct FrontendConfig {
    /// Address to load; structured transport addresses are accepted.
    pub url: String,
    /// Window width in pixels.
    pub width: u32,
    /// Window height in pixels.
    pub height: u32,
    /// Window title; the application name when absent.
    pub title: Option<String>,
    /// Whether the window can be resized.
    pub resizable: bool,
    /// Whether the window shows its frame.
    pub decorated: bool,
    /// Whether the window starts fullscreen.
    pub fullscreen: bool,
    /// Smallest window size, as (width, height).
    pub min_size: Option<(u32, u32)>,
    /// Largest window size, as (width, height).
    pub max_size: Option<(u32, u32)>,
}

/// Further settings.
#[derive(Debug, Clone)]
pub struct SettingsConfig {
    /// Whether developer tools are enabled.
    pub devtools: bool,
    /// Log level: trace, debug, info, warn or error.
    pub log_level: String,
    /// Custom user agent.
    pub user_agent: Option<String>,
}

/// Version assumed when the configuration names none.
pub fn default_version() -> (r: String)
    ensures
        r@ == "0.1.0"@,
{
    String::from_str("0.1.0")
}

/// Startup timeout, in seconds, when the configuration names none.
pub fn default_startup_timeout() -> (r: u64)
    ensures
        r == 30,
{
    30
}

/// Whether a crashed backend is restarted, when the configuration does not say.
pub fn default_restart() -> (r: bool)
    ensures
        r,
{
    true
}

/// Window width when the configuration names none.
pub fn default_width() -> (r: u32)
    ensures
        r == 1024,
{
    1024
}

/// Window height when the configuration names none.
pub fn default_height() -> (r: u32)
    ensures
        r == 768,
{
    768
}

/// Whether the window is resizable, when the configuration does not say.
pub fn default_resizable() -> (r: bool)
    ensures
        r,
{
    true
}

/// Whether the window is decorated, when the configuration does not say.
pub fn default_decorated() -> (r: bool)
    ensures
        r,
{
    true
}

/// Log level when the configuration names none.
pub fn default_log_level() -> (r: String)
    ensures
        r@ == "info"@,
{
    String::from_str("info")
}

} // verus!
