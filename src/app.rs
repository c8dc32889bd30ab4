//! An application: its configuration, and what the frontend window needs
//! once the backend runs.

use crate::backend::BackendError;
use crate::config::HarborConfig;
use vstd::prelude::*;

verus! {

/// Errors of an application run.
#[derive(Debug, Clone, PartialEq, Eq)]
pub enum HarborError {
    /// The configuration is unusable.
    Config(String),
    /// The backend failed.
    Backend(BackendError),
    /// The frontend failed.
    Frontend(String),
    /// An operating-system error, as text.
    Io(String),
}

/// What the frontend window is opened with.
#[derive(Debug, Clone)]
pub struct HarborRunConfig {
    /// Address to load; structured transport addresses are accepted.
    pub url: String,
    /// Window title.
    pub title: String,
    /// Window width in pixels.
    pub width: u32,
    /// Window height in pixels.
    pub height: u32,
    /// Whether the window can be resized.
    pub resizable: bool,
    /// Whether the window shows decorations.
    pub decorated: bool,
    /// Whether the window starts fullscreen.
    pub fullscreen: bool,
    /// Whether developer tools are enabled.
    pub devtools: bool,
}

/// The window title of `config`: the frontend's title, else the
/// application's name.
pub open spec fn title_of(config: HarborConfig) -> Seq<char> {
    match config.frontend.title {
        Some(t) => t@,
        None => config.app.name@,
    }
}

/// An application described by its configuration.
#[derive(Debug, Clone)]
pub struct HarborApp {
    config: HarborConfig,
}

impl HarborApp {
    /// The configuration.
    pub closed spec fn config_spec(&self) -> HarborConfig {
        self.config
    }

    /// An application with this configuration.
    pub fn new(config: HarborConfig) -> (r: Self)
        ensures
            r.config_spec() == config,
    {
        HarborApp { config }
    }

    /// The configuration.
    pub fn config(&self) -> (r: &HarborConfig)
        ensures
            *r == self.config_spec(),
    {
        &self.config
    }

    /// The application name.
    pub fn name(&self) -> (r: &str)
        ensures
            r@ == self.config_spec().app.name@,
    {
        self.config.app.name.as_str()
    }

    /// The address the frontend loads.
    pub fn url(&self) -> (r: &str)
        ensures
            r@ == self.config_spec().frontend.url@,
    {
        self.config.frontend.url.as_str()
    }

    /// The window title.
    pub fn window_title(&self) -> (r: &str)
        ensures
            r@ == title_of(self.config_spec()),
    {
        match &self.config.frontend.title {
            Some(t) => t.as_str(),
            None => self.config.app.name.as_str(),
        }
    }

    /// The window size, as (width, height).
    pub fn window_size(&self) -> (r: (u32, u32))
        ensures
            r == (self.config_spec().frontend.width, self.config_spec().frontend.height),
    {
        (self.config.frontend.width, self.config.frontend.height)
    }

    /// The address the backend serves at.
    pub fn socket_path(&self) -> (r: &str)
        ensures
            r@ == self.config_spec().backend.socket@,
    {
        self.config.backend.socket.as_str()
    }

    /// What the frontend window is opened with once the backend runs.
    pub fn run_config(&self) -> (r: HarborRunConfig)
        ensures
            r.url@ == self.config_spec().frontend.url@,
            r.title@ == title_of(self.config_spec()),
            r.width == self.config_spec().frontend.width,
            r.height == self.config_spec().frontend.height,
            r.resizable == self.config_spec().frontend.resizable,
            r.decorated == self.config_spec().frontend.decorated,
            r.fullscreen == self.config_spec().frontend.fullscreen,
            r.devtools == self.config_spec().settings.devtools,
    {
        HarborRunConfig {
            url: self.config.frontend.url.clone(),
            title: String::from_str(self.window_title()),
            width: self.config.frontend.width,
            height: self.config.frontend.height,
            resizable: self.config.frontend.resizable,
            decorated: self.config.frontend.decorated,
            fullscreen: self.config.frontend.fullscreen,
            devtools: self.config.settings.devtools,
        }
    }
}

} // verus!
