use tunnelforge::config::ServerConfig;
use tunnelforge::platform::{cli_install_paths, AppSettings, LinuxPlatform, MacosPlatform, WindowsPlatform};
use tunnelforge::text::{decimal_string, join_path};

fn config() -> ServerConfig {
    ServerConfig::tunnelforge("127.0.0.1".to_string(), 4021, vec!["/srv/a".to_string(), "../server".to_string()])
        .unwrap()
}

#[test]
fn port_zero_is_rejected() {
    assert!(ServerConfig::tunnelforge("127.0.0.1".to_string(), 0, vec![]).is_none());
    assert!(ServerConfig::tunnelforge("127.0.0.1".to_string(), 65535, vec![]).is_some());
}

#[test]
fn url_and_address() {
    let c = config();
    assert_eq!(c.url(), "http://127.0.0.1:4021");
    assert_eq!(c.address(), "127.0.0.1:4021");
    let c = ServerConfig::tunnelforge("localhost".to_string(), 1, vec![]).unwrap();
    assert_eq!(c.url(), "http://localhost:1");
}

#[test]
fn derived_paths() {
    let c = config();
    assert_eq!(c.candidate_count(), 2);
    assert_eq!(c.candidate(1), "../server");
    assert_eq!(c.binary_path(0), "/srv/a/tunnelforge-server");
    assert_eq!(c.descriptor_path(1), "../server/go.mod");
    assert_eq!(c.entrypoint_path(0), "/srv/a/cmd/server/main.go");
    assert_eq!(c.program(), "./tunnelforge-server");
    assert_eq!(c.candidates(), vec!["/srv/a".to_string(), "../server".to_string()]);
}

#[test]
fn build_command_and_environment() {
    let c = config();
    assert_eq!(c.build_command(), vec!["go", "build", "-o", "tunnelforge-server", "cmd/server/main.go"]);
    let env = c.spawn_environment();
    assert_eq!(env, vec![("PORT".to_string(), "4021".to_string()), ("HOST".to_string(), "127.0.0.1".to_string())]);
    assert_eq!(c.host(), "127.0.0.1");
    assert_eq!(c.port(), 4021);
}

#[test]
fn custom_configuration() {
    let c = ServerConfig::new(
        "0.0.0.0".to_string(),
        8080,
        vec!["/opt/app".to_string()],
        "app".to_string(),
        "Cargo.toml".to_string(),
        "src/main.rs".to_string(),
        vec!["cargo".to_string(), "build".to_string()],
    )
    .unwrap();
    assert_eq!(c.binary_path(0), "/opt/app/app");
    assert_eq!(c.entrypoint_path(0), "/opt/app/src/main.rs");
    assert_eq!(c.build_command(), vec!["cargo", "build"]);
    assert_eq!(c.url(), "http://0.0.0.0:8080");
}

#[test]
fn decimal_rendering() {
    assert_eq!(decimal_string(0), "0");
    assert_eq!(decimal_string(7), "7");
    assert_eq!(decimal_string(10), "10");
    assert_eq!(decimal_string(65535), "65535");
    assert_eq!(decimal_string(u64::MAX), u64::MAX.to_string());
    assert_eq!(join_path("a/b", "c"), "a/b/c");
}

#[test]
fn platform_names() {
    assert_eq!(LinuxPlatform::new().platform_name(), "Linux");
    assert_eq!(MacosPlatform::new().platform_name(), "macOS");
    assert_eq!(WindowsPlatform::new().platform_name(), "Windows");
}

#[test]
fn macos_script_escapes_quotes() {
    let s = MacosPlatform::new().notification_script("Say \"hi\"", "a \"b\" c");
    assert_eq!(s, "display notification \"a \\\"b\\\" c\" with title \"Say \\\"hi\\\"\"");
    let plain = MacosPlatform::new().notification_script("T", "");
    assert_eq!(plain, "display notification \"\" with title \"T\"");
}

#[test]
fn linux_desktop_entry() {
    let e = LinuxPlatform::new().desktop_entry("/usr/bin/tunnelforge");
    assert!(e.starts_with("[Desktop Entry]\nName=TunnelForge\n"));
    assert!(e.contains("\nExec=/usr/bin/tunnelforge\nIcon=tunnelforge\n"));
    assert!(e.ends_with("Hidden=false\n"));
}

#[test]
fn cli_paths_and_settings() {
    assert_eq!(cli_install_paths(), vec!["/usr/local/bin/tunnelforge", "/opt/homebrew/bin/tunnelforge"]);
    let s = AppSettings::default();
    assert_eq!(s.server_port, 4021);
    assert!(s.minimize_to_tray);
    assert!(!s.auto_start && !s.enable_logging && !s.start_on_boot && !s.enable_windows_service);
}
