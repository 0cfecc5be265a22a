use pg_mux::config::{config_line, config_lines};

#[test]
fn line_has_key_equals_quoted_value() {
    assert_eq!(config_line("log_connections", "on"), "log_connections = 'on'");
    assert_eq!(config_line("listen_addresses", ""), "listen_addresses = ''");
}

#[test]
fn no_port_disables_listening_first_then_the_three_fixed_lines() {
    let lines = config_lines("/tmp/cluster", None);
    assert_eq!(lines.len(), 4);
    assert_eq!(lines[0], "listen_addresses = ''");
    assert_eq!(lines[1], "unix_socket_directories = '/tmp/cluster'");
    assert_eq!(lines[2], "log_connections = 'on'");
    assert_eq!(lines[3], "log_disconnections = 'on'");
}

#[test]
fn explicit_port_omits_the_listening_line() {
    let lines = config_lines("/tmp/cluster", Some(5433));
    assert_eq!(lines.len(), 3);
    assert_eq!(lines[0], "unix_socket_directories = '/tmp/cluster'");
    assert_eq!(lines[1], "log_connections = 'on'");
    assert_eq!(lines[2], "log_disconnections = 'on'");
}
