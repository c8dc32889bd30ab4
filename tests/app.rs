use harbor::app::HarborApp;
use harbor::config::{
    default_decorated, default_height, default_log_level, default_resizable, default_restart,
    default_startup_timeout, default_version, default_width, AppConfig, BackendConfig,
    FrontendConfig, HarborConfig, SettingsConfig,
};

fn config(title: Option<&str>) -> HarborConfig {
    HarborConfig {
        app: AppConfig {
            name: "Test App".to_string(),
            version: default_version(),
            icon: None,
            description: None,
        },
        backend: BackendConfig {
            command: "gunicorn".to_string(),
            args: vec!["--bind".to_string(), "unix:/tmp/test.sock".to_string(), "app:app".to_string()],
            socket: "/tmp/test.sock".to_string(),
            workdir: None,
            env: Vec::new(),
            startup_timeout: default_startup_timeout(),
            restart_on_crash: default_restart(),
        },
        frontend: FrontendConfig {
            url: "http::unix///tmp/test.sock/".to_string(),
            width: 1200,
            height: 800,
            title: title.map(|t| t.to_string()),
            resizable: default_resizable(),
            decorated: default_decorated(),
            fullscreen: false,
            min_size: None,
            max_size: None,
        },
        settings: SettingsConfig { devtools: true, log_level: default_log_level(), user_agent: None },
    }
}

#[test]
fn defaults() {
    assert_eq!(default_version(), "0.1.0");
    assert_eq!(default_startup_timeout(), 30);
    assert!(default_restart());
    assert_eq!(default_width(), 1024);
    assert_eq!(default_height(), 768);
    assert!(default_resizable());
    assert!(default_decorated());
    assert_eq!(default_log_level(), "info");
}

#[test]
fn title_falls_back_to_app_name() {
    assert_eq!(HarborApp::new(config(None)).window_title(), "Test App");
    assert_eq!(HarborApp::new(config(Some("Window"))).window_title(), "Window");
}

#[test]
fn app_accessors() {
    let app = HarborApp::new(config(None));
    assert_eq!(app.name(), "Test App");
    assert_eq!(app.url(), "http::unix///tmp/test.sock/");
    assert_eq!(app.window_size(), (1200, 800));
    assert_eq!(app.socket_path(), "/tmp/test.sock");
    assert_eq!(app.config().backend.command, "gunicorn");
}

#[test]
fn run_config_carries_the_window_settings() {
    let app = HarborApp::new(config(Some("Hello")));
    let run = app.run_config();
    assert_eq!(run.url, "http::unix///tmp/test.sock/");
    assert_eq!(run.title, "Hello");
    assert_eq!((run.width, run.height), (1200, 800));
    assert!(run.resizable);
    assert!(run.decorated);
    assert!(!run.fullscreen);
    assert!(run.devtools);
}
