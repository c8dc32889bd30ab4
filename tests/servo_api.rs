use harbor::servo_api::{has_supported_scheme, validate_transport_url};
use harbor::{
    is_browser_available, run_browser, servo_version, BrowserConfig, BrowserError, BrowserEvent,
};

#[test]
fn test_browser_config_builder() {
    let config = BrowserConfig::new("http://localhost/")
        .with_title("Test")
        .with_size(800, 600)
        .with_resizable(false);

    assert_eq!(config.url, "http://localhost/");
    assert_eq!(config.title, "Test");
    assert_eq!(config.width, 800);
    assert_eq!(config.height, 600);
    assert!(!config.resizable);
}

#[test]
fn test_validate_transport_url() {
    assert!(validate_transport_url("http://localhost/").is_ok());
    assert!(validate_transport_url("https://example.com/").is_ok());
    assert!(validate_transport_url("http::unix///tmp/app.sock/").is_ok());
    assert!(validate_transport_url("http::tcp//localhost:8080/").is_ok());
    assert!(validate_transport_url("about:blank").is_ok());

    assert!(validate_transport_url("").is_err());
}

#[test]
fn test_browser_config_defaults() {
    let config = BrowserConfig::default();
    assert_eq!(config.url, "about:blank");
    assert_eq!(config.width, 1024);
    assert_eq!(config.height, 768);
    assert!(config.resizable);
    assert!(config.decorated);
    assert!(!config.fullscreen);
    assert!(!config.devtools);
}

#[test]
fn empty_url_error_names_the_problem() {
    assert_eq!(
        validate_transport_url(""),
        Err(BrowserError::TransportUrlError("URL cannot be empty".to_string()))
    );
}

#[test]
fn unknown_scheme_is_still_accepted() {
    assert!(validate_transport_url("gopher://example.org/").is_ok());
    assert!(!has_supported_scheme("gopher://example.org/"));
}

#[test]
fn supported_schemes_are_recognised() {
    assert!(has_supported_scheme("http://localhost/"));
    assert!(has_supported_scheme("https::tcp//example.com:443/"));
    assert!(has_supported_scheme("http::tor//abc.onion/"));
    assert!(has_supported_scheme("file:///tmp/index.html"));
    assert!(has_supported_scheme("about:blank"));
    assert!(!has_supported_scheme(""));
    assert!(!has_supported_scheme("http:/localhost"));
}

#[test]
fn builder_sets_every_flag() {
    let config = BrowserConfig::new("http::unix///tmp/app.sock/")
        .with_decorated(false)
        .with_fullscreen(true)
        .with_devtools(true);
    assert_eq!(config.url, "http::unix///tmp/app.sock/");
    assert_eq!(config.title, "Harbor");
    assert!(!config.decorated);
    assert!(config.fullscreen);
    assert!(config.devtools);
    assert!(config.resizable);
    assert_eq!(config.user_agent, None);
    assert_eq!(config.userscripts_dir, None);
}

#[test]
fn run_browser_without_engine_reports_init_failure() {
    let seen = std::cell::Cell::new(0u32);
    let result = run_browser(
        BrowserConfig::new("http://localhost/"),
        Some(|event: BrowserEvent| {
            assert_eq!(event, BrowserEvent::WindowCreated);
            seen.set(seen.get() + 1);
        }),
    );
    assert_eq!(seen.get(), 1);
    match result {
        Err(BrowserError::InitFailed(m)) => assert!(m.starts_with("Servo browser engine integration is pending.")),
        other => panic!("unexpected result {:?}", other),
    }
}

#[test]
fn run_browser_rejects_empty_url_before_the_engine() {
    let seen = std::cell::Cell::new(0u32);
    let result = run_browser(
        BrowserConfig::new(""),
        Some(|_event: BrowserEvent| seen.set(seen.get() + 1)),
    );
    assert_eq!(seen.get(), 0);
    assert_eq!(result, Err(BrowserError::TransportUrlError("URL cannot be empty".to_string())));
}

#[test]
fn engine_is_not_built_in() {
    assert!(!is_browser_available());
    assert_eq!(servo_version(), "0.0.1-dev");
}
