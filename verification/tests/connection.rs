use render_engine::client_connection::ClientConnection;
use render_engine::decimal::{decimal_string, unsigned_decimal_string};

#[test]
fn socket_is_address_colon_port() {
    let connection = ClientConnection::new("127.0.0.1".to_string(), 30001);
    assert_eq!(connection.get_socket(), "127.0.0.1:30001");
}

#[test]
fn socket_follows_address_and_port() {
    let mut connection = ClientConnection::new("localhost".to_string(), 80);
    connection.set_address("example.org".to_string());
    assert_eq!(connection.get_socket(), "example.org:80");
    connection.set_port(0);
    assert_eq!(connection.get_socket(), "example.org:0");
    connection.set_port(-17);
    assert_eq!(connection.get_socket(), "example.org:-17");
}

#[test]
fn decimal_string_writes_every_port_as_std_does() {
    for x in [0, 1, 9, 10, 11, 99, 100, 101, 65535, 1000000, i32::MAX, -1, -10, -2147483647, i32::MIN] {
        assert_eq!(decimal_string(x), format!("{}", x));
    }
    assert_eq!(decimal_string(i32::MIN), "-2147483648");
    assert_eq!(decimal_string(2147483647), "2147483647");
    assert_eq!(decimal_string(7), "7");
}

#[test]
fn unsigned_decimal_string_writes_as_std_does() {
    for n in [0u32, 5, 10, 42, 4096, 4294967295] {
        assert_eq!(unsigned_decimal_string(n), format!("{}", n));
    }
    assert_eq!(unsigned_decimal_string(u32::MAX), "4294967295");
}
