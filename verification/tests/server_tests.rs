//! Server setup, the bind address, and the accept loop's shutdown
//! behaviour.

use tcplane::config::ServerConfig;
use tcplane::server::AcceptAction;
use tcplane::server::AcceptEvent;
use tcplane::server::AcceptLoop;
use tcplane::server::Server;

#[test]
fn test_server_handler_trait() {
    let mut server = Server::new();

    server.hook(1);

    let hook_count: usize = server.get_hook().len();
    assert_eq!(hook_count, 1);
}

#[test]
fn test_server_task_panic() {
    let mut server = Server::new();

    server.task_panic(1);

    let panic_count: usize = server.get_task_panic().len();
    assert_eq!(panic_count, 1);
}

#[test]
fn server_setters_update_config() {
    let mut server = Server::new();
    server.host(String::from("127.0.0.1"));
    server.port(8080);
    server.buffer(1024);
    assert_eq!(server.get_config().get_host(), "127.0.0.1");
    assert_eq!(server.get_config().get_port(), 8080);
    assert_eq!(server.get_config().get_buffer_size(), 1024);
}

#[test]
fn config_defaults() {
    let config = ServerConfig::new();
    assert_eq!(config.get_host(), "0.0.0.0");
    assert_eq!(config.get_port(), 60000);
    assert_eq!(config.get_buffer_size(), 512000);
}

#[test]
fn effective_buffer_size_is_at_least_delimiter_length() {
    let mut config = ServerConfig::new();
    config.buffer(2);
    assert_eq!(config.effective_buffer_size(), 4);
    config.buffer(4096);
    assert_eq!(config.effective_buffer_size(), 4096);
}

#[test]
fn bind_address_concatenates_host_and_port() {
    let mut config = ServerConfig::new();
    config.host(String::from("127.0.0.1"));
    config.port(8080);
    assert_eq!(config.bind_address_bytes().as_slice(), b"127.0.0.1:8080");
}

#[test]
fn bind_address_default_and_port_zero() {
    let config = ServerConfig::new();
    assert_eq!(config.bind_address_bytes().as_slice(), b"0.0.0.0:60000");
    let mut config = ServerConfig::new();
    config.port(0);
    assert_eq!(config.bind_address_bytes().as_slice(), b"0.0.0.0:0");
}

#[test]
fn pipeline_for_connection_matches_registries() {
    let mut server = Server::new();
    server.hook(1);
    server.hook(2);
    server.task_panic(9);
    let pl = server.pipeline_for_connection();
    assert_eq!(pl.hook_count, 2);
    assert_eq!(pl.panic_count, 1);
}

#[test]
fn read_error_registry_keeps_order() {
    let mut server = Server::new();
    server.read_error(5);
    server.read_error(6);
    assert_eq!(server.get_read_error().as_slice(), &[5, 6]);
}

#[test]
fn accept_loop_spawns_connections_while_running() {
    let mut accept = AcceptLoop::new();
    assert_eq!(
        accept.on_event(AcceptEvent::Incoming),
        Some(AcceptAction::SpawnConnection)
    );
    assert_eq!(
        accept.on_event(AcceptEvent::Incoming),
        Some(AcceptAction::SpawnConnection)
    );
    assert_eq!(accept.connections_spawned, 2);
    assert!(accept.running);
}

#[test]
fn shutdown_announces_completion_and_keeps_connections() {
    // A shutdown stops the accept loop and wakes every waiter, but the
    // already-spawned connections are untouched: their count stays, and no
    // action against them is ever produced.
    let mut accept = AcceptLoop::new();
    accept.on_event(AcceptEvent::Incoming);
    accept.on_event(AcceptEvent::Incoming);
    assert_eq!(
        accept.on_event(AcceptEvent::ShutdownSignal),
        Some(AcceptAction::AnnounceCompletion)
    );
    assert!(!accept.running);
    assert_eq!(accept.connections_spawned, 2);
    // A stopped loop is inert.
    assert_eq!(accept.on_event(AcceptEvent::Incoming), None);
    assert_eq!(accept.on_event(AcceptEvent::ShutdownSignal), None);
    assert_eq!(accept.connections_spawned, 2);
}

#[test]
fn listener_failure_also_stops_the_loop() {
    let mut accept = AcceptLoop::new();
    assert_eq!(
        accept.on_event(AcceptEvent::ListenerClosed),
        Some(AcceptAction::AnnounceCompletion)
    );
    assert!(!accept.running);
}

#[test]
fn bind_address_renders_large_ports_in_decimal() {
    let mut config = ServerConfig::new();
    config.port(usize::MAX);
    let expected = format!("0.0.0.0:{}", usize::MAX);
    assert_eq!(config.bind_address_bytes(), expected.into_bytes());
}
