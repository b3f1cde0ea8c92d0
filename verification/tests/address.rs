use relic_hyper_server::address::{listen_address, SocketAddress};

#[test]
fn the_listener_binds_loopback_port_3000() {
    assert_eq!(listen_address(), SocketAddress { host: (127, 0, 0, 1), port: 3000 });
}

#[test]
fn the_address_is_the_same_at_every_call() {
    assert_eq!(listen_address(), listen_address());
    assert_eq!(listen_address().port, 3000);
    assert_eq!(listen_address().host, (127, 0, 0, 1));
}
