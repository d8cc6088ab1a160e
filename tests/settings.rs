use oysterpack_message::settings::{
    DialerConfig, ListenerConfig, ListenerSettings, SocketConfig, SocketSettings,
    MAX_SEND_BUFFER_SIZE, MAX_SOCKET_NAME_LEN,
};
use std::time::Duration;

#[test]
fn socket_name_is_truncated_to_63_bytes() {
    let long = "a".repeat(100);
    let s = SocketSettings::new().set_socket_name(&long);
    assert_eq!(s.socket_name().unwrap().len(), MAX_SOCKET_NAME_LEN);
    assert_eq!(s.socket_name().unwrap(), &long[..63]);
    let s = SocketSettings::new().set_socket_name("short");
    assert_eq!(s.socket_name(), Some("short"));
    let exact = "b".repeat(63);
    assert_eq!(SocketSettings::new().set_socket_name(&exact).socket_name(), Some(exact.as_str()));
}

#[test]
fn socket_name_cut_keeps_characters_whole() {
    let name = format!("{}é", "a".repeat(62));
    assert_eq!(name.len(), 64);
    let s = SocketSettings::new().set_socket_name(&name);
    assert_eq!(s.socket_name(), Some("a".repeat(62).as_str()));
}

#[test]
fn socket_name_cut_at_byte_63_when_it_is_a_boundary() {
    let name = format!("é{}", "a".repeat(70));
    let s = SocketSettings::new().set_socket_name(&name);
    assert_eq!(s.socket_name(), Some(&name[..63]));
}

#[test]
fn send_buffer_size_is_clamped_to_8192() {
    let s = SocketSettings::new().set_send_buffer_size(10000);
    assert_eq!(s.send_buffer_size(), Some(MAX_SEND_BUFFER_SIZE));
    assert_eq!(s.send_buffer_size(), Some(8192));
    let s = SocketSettings::new().set_send_buffer_size(8192);
    assert_eq!(s.send_buffer_size(), Some(8192));
    let s = SocketSettings::new().set_send_buffer_size(1);
    assert_eq!(s.send_buffer_size(), Some(1));
}

#[test]
fn socket_settings_setters() {
    let s = SocketSettings::default();
    assert_eq!(s.tcp_no_delay(), None);
    assert_eq!(s.recv_timeout(), None);
    let s = s
        .set_tcp_keep_alive(true)
        .set_tcp_no_delay(false)
        .set_recv_max_size(1024)
        .set_recv_buffer_size(16)
        .set_recv_timeout(Duration::from_millis(5))
        .set_send_timeout(Duration::from_millis(6))
        .set_max_ttl(4);
    assert_eq!(s.tcp_keep_alive(), Some(true));
    assert_eq!(s.tcp_no_delay(), Some(false));
    assert_eq!(s.recv_max_size(), Some(1024));
    assert_eq!(s.recv_buffer_size(), Some(16));
    assert_eq!(s.recv_timeout(), Some(Duration::from_millis(5)));
    assert_eq!(s.send_timeout(), Some(Duration::from_millis(6)));
    assert_eq!(s.max_ttl(), Some(4));
    assert_eq!(s.send_buffer_size(), None);
}

#[test]
fn listener_settings_defaults_and_setters() {
    let l = ListenerSettings::new("inproc://test");
    assert_eq!(l.url(), "inproc://test");
    assert!(!l.non_blocking());
    assert_eq!(l.aio_context_count(), 1);
    assert_eq!(l.recv_max_size(), None);
    let l = l.set_aio_count(4).set_non_blocking(true).set_no_delay(true).set_keep_alive(false).set_recv_max_size(10);
    assert_eq!(l.aio_context_count(), 4);
    assert!(l.non_blocking());
    assert_eq!(l.no_delay(), Some(true));
    assert_eq!(l.keep_alive(), Some(false));
    assert_eq!(l.recv_max_size(), Some(10));
}

#[test]
fn client_socket_config() {
    let c = SocketConfig::new();
    assert!(c.socket_config().is_none());
    let c = c
        .set_reconnect_min_time(Duration::from_millis(10))
        .set_reconnect_max_time(Duration::from_millis(100))
        .set_resend_time(Duration::from_millis(50))
        .set_socket_config(SocketSettings::new().set_max_ttl(3));
    assert_eq!(c.reconnect_min_time(), Some(Duration::from_millis(10)));
    assert_eq!(c.reconnect_max_time(), Some(Duration::from_millis(100)));
    assert_eq!(c.resend_time(), Some(Duration::from_millis(50)));
    assert_eq!(c.socket_config().unwrap().max_ttl(), Some(3));
}

#[test]
fn dialer_and_listener_config_parallelism() {
    let d = DialerConfig::new("tcp://127.0.0.1:5000");
    assert_eq!(d.url(), "tcp://127.0.0.1:5000");
    assert_eq!(d.parallelism(), num_cpus::get());
    let d = d.set_parallelism(3).set_no_delay(true).set_reconnect_min_time(Duration::from_millis(1));
    assert_eq!(d.parallelism(), 3);
    assert_eq!(d.no_delay(), Some(true));
    assert_eq!(d.reconnect_min_time(), Some(Duration::from_millis(1)));
    let l = ListenerConfig::new("inproc://x");
    assert_eq!(l.parallelism(), num_cpus::get() + 1);
    assert_eq!(l.set_aio_count(2).parallelism(), 2);
}
