use hvtag::config::WireGuardConfig;
use hvtag::errors::HvtError;
use hvtag::text::has_text;
use hvtag::vpn::wireguard::WireGuardManager;

fn config(path: &str, name: Option<&str>) -> WireGuardConfig {
    WireGuardConfig { config_path: path.to_string(), interface_name: name.map(|n| n.to_string()) }
}

fn manager(is_windows: bool) -> WireGuardManager {
    WireGuardManager::new(
        &config("/home/user/.hvtag/wg-japan.conf", None),
        Some("wg-japan".to_string()),
        true,
        is_windows,
    )
    .unwrap()
}

fn generic(r: Result<(), HvtError>) -> String {
    match r {
        Err(HvtError::Generic(msg)) => msg,
        other => panic!("unexpected outcome: {:?}", other),
    }
}

#[test]
fn interface_is_named_by_the_settings_or_the_file() {
    let m = manager(false);
    assert_eq!(m.interface_name(), "wg-japan");
    assert_eq!(m.config_path(), "/home/user/.hvtag/wg-japan.conf");
    assert!(!m.is_connected());
    let m = WireGuardManager::new(&config("/etc/wg0.conf", Some("tun")), Some("wg0".to_string()), true, false).unwrap();
    assert_eq!(m.interface_name(), "tun");
    let m = WireGuardManager::new(&config("/etc/wg0.conf", Some("tun")), None, true, true).unwrap();
    assert_eq!(m.interface_name(), "tun");
}

#[test]
fn manager_is_refused_without_a_name_or_a_file() {
    match WireGuardManager::new(&config("..", None), None, true, false) {
        Err(HvtError::Generic(msg)) => assert_eq!(msg, "Invalid WireGuard config path"),
        other => panic!("unexpected outcome: {:?}", other),
    }
    match WireGuardManager::new(&config("..", None), None, false, false) {
        Err(HvtError::Generic(msg)) => assert_eq!(msg, "Invalid WireGuard config path"),
        other => panic!("unexpected outcome: {:?}", other),
    }
    match WireGuardManager::new(&config("/etc/wg0.conf", None), Some("wg0".to_string()), false, false) {
        Err(HvtError::Generic(msg)) => assert_eq!(msg, "WireGuard config file not found: /etc/wg0.conf"),
        other => panic!("unexpected outcome: {:?}", other),
    }
}

#[test]
fn commands_on_unix() {
    let m = manager(false);
    assert_eq!(m.interface_query(), vec!["sudo", "wg", "show", "wg-japan"]);
    assert_eq!(m.up_command(), vec!["sudo", "wg-quick", "up", "/home/user/.hvtag/wg-japan.conf"]);
    assert_eq!(m.down_command(), vec!["sudo", "wg-quick", "down", "/home/user/.hvtag/wg-japan.conf"]);
    assert_eq!(m.connectivity_command(), vec!["ping", "-c", "1", "-W", "5", "1.1.1.1"]);
}

#[test]
fn commands_on_windows() {
    let m = manager(true);
    assert_eq!(m.interface_query(), vec!["sc", "query", "WireGuardTunnel$wg-japan"]);
    assert_eq!(
        m.up_command(),
        vec!["wireguard.exe", "/installtunnelservice", "/home/user/.hvtag/wg-japan.conf"]
    );
    assert_eq!(m.down_command(), vec!["wireguard.exe", "/uninstalltunnelservice", "wg-japan"]);
    assert_eq!(m.connectivity_command(), vec!["ping", "-n", "1", "-w", "5000", "1.1.1.1"]);
}

#[test]
fn outcome_of_bringing_the_tunnel_up() {
    let unix = manager(false);
    assert!(unix.judge_up(true, "").is_ok());
    assert!(unix.judge_up(true, "noise").is_ok());
    assert!(unix.judge_up(false, "wg-quick: `wg0' already exists").is_ok());
    assert_eq!(
        generic(unix.judge_up(false, "tunnel already installed")),
        "Failed to bring up WireGuard interface: tunnel already installed"
    );
    assert_eq!(generic(unix.judge_up(false, "")), "Failed to bring up WireGuard interface: ");
    let windows = manager(true);
    assert!(windows.judge_up(false, "tunnel already installed").is_ok());
    assert!(windows.judge_up(false, "already exists").is_ok());
    assert_eq!(
        generic(windows.judge_up(false, "access denied")),
        "Failed to install WireGuard tunnel: access denied"
    );
}

#[test]
fn outcome_of_bringing_the_tunnel_down() {
    let unix = manager(false);
    assert_eq!(unix.down_warning(true, "anything"), None);
    assert_eq!(unix.down_warning(false, "wg0 does not exist"), None);
    assert_eq!(unix.down_warning(false, "Cannot find device wg0"), None);
    assert_eq!(
        unix.down_warning(false, "service not found"),
        Some("Failed to bring down WireGuard interface: service not found".to_string())
    );
    let windows = manager(true);
    assert_eq!(windows.down_warning(false, "service not found"), None);
    assert_eq!(windows.down_warning(false, "does not exist"), None);
    assert_eq!(
        windows.down_warning(false, "Cannot find device"),
        Some("Failed to uninstall WireGuard tunnel: Cannot find device".to_string())
    );
}

#[test]
fn connection_status() {
    let mut m = manager(false);
    assert!(m.needs_connect());
    // not connected: nothing to bring down, whatever the outcome says
    assert!(m.disconnect(Err(HvtError::Generic("x".to_string()))).is_ok());
    assert!(!m.is_connected());
    m.mark_connected();
    assert!(m.is_connected() && !m.needs_connect());
    // the command could not be run: still connected
    assert_eq!(generic(m.disconnect(Err(HvtError::Generic("x".to_string())))), "x");
    assert!(m.is_connected());
    assert!(m.disconnect(Ok(())).is_ok());
    assert!(!m.is_connected());
    assert!(m.disconnect(Ok(())).is_ok());
    assert!(!m.is_connected());
}

#[test]
fn text_is_searched_for_words() {
    assert!(has_text("abc already exists.", "already exists"));
    assert!(has_text("abc", ""));
    assert!(has_text("", ""));
    assert!(!has_text("", "a"));
    assert!(!has_text("already exist", "already exists"));
    assert!(has_text("aab", "ab"));
}
