use polysock::oneliner::OnelinerModeParamsBuilder;
use polysock::sock::SockError;
use polysock::strconv::{
    default_description, hex_decode, parse_hex_byte_prefixed, string_to_u16, u32_to_string,
};
use polysock::tcp_client::{default_port, parse_tcp_client_config};
use polysock::tcp_server::{default_ip_local, parse_tcp_server_config};
use polysock::terminal::{read_nonblocking, PollOutcome};
use polysock::udp::{d_ip_local, d_port_local, parse_udp_config, SocketUDP};

#[test]
fn u32_rendering() {
    assert_eq!(u32_to_string(0), "0");
    assert_eq!(u32_to_string(7), "7");
    assert_eq!(u32_to_string(100), "100");
    assert_eq!(u32_to_string(4294967295), "4294967295");
}

#[test]
fn descriptions_concatenate() {
    assert_eq!(default_description("udp", 3), "udp3");
    assert_eq!(default_description("tcp-server", 12), "tcp-server12");
}

#[test]
fn port_strings() {
    assert_eq!(string_to_u16("0"), Ok(0));
    assert_eq!(string_to_u16("8080"), Ok(8080));
    assert_eq!(string_to_u16("+123"), Ok(123));
    assert_eq!(string_to_u16("65535"), Ok(65535));
    assert_eq!(string_to_u16("65536"), Err(SockError::InvalidConfig));
    assert_eq!(string_to_u16(""), Err(SockError::InvalidConfig));
    assert_eq!(string_to_u16("+"), Err(SockError::InvalidConfig));
    assert_eq!(string_to_u16("12a"), Err(SockError::InvalidConfig));
    assert_eq!(
        string_to_u16("99999999999999999999999"),
        Err(SockError::InvalidConfig)
    );
}

#[test]
fn hex_decoding() {
    assert_eq!(hex_decode(""), Ok(vec![]));
    assert_eq!(hex_decode("00fdea"), Ok(vec![0x00, 0xfd, 0xea]));
    assert_eq!(hex_decode("55FF67aaAA"), Ok(vec![0x55, 0xff, 0x67, 0xaa, 0xaa]));
    assert_eq!(hex_decode("f"), Err(SockError::InvalidConfig));
    assert_eq!(hex_decode("fg"), Err(SockError::InvalidConfig));
}

#[test]
fn prefixed_hex_bytes() {
    assert_eq!(parse_hex_byte_prefixed("0xf0"), Ok(0xf0));
    assert_eq!(parse_hex_byte_prefixed("0x0A"), Ok(0x0a));
    assert_eq!(parse_hex_byte_prefixed("f0"), Err(SockError::InvalidConfig));
    assert_eq!(parse_hex_byte_prefixed("0xf"), Err(SockError::InvalidConfig));
    assert_eq!(parse_hex_byte_prefixed("0xf0a"), Err(SockError::InvalidConfig));
}

#[test]
fn udp_config_full() {
    let cfg = parse_udp_config(
        &"{ \"ip_local\": \"127.0.0.1\", \"ip_dst\": \"10.0.0.2\", \"port_local\": 4000, \"port_dst\": 4001 }"
            .to_string(),
    )
    .unwrap();
    assert_eq!(cfg.ip_local, "127.0.0.1");
    assert_eq!(cfg.ip_dst, "10.0.0.2");
    assert_eq!(cfg.port_local, 4000);
    assert_eq!(cfg.port_dst, 4001);
}

#[test]
fn udp_config_defaults() {
    let cfg =
        parse_udp_config(&"{ \"ip_dst\": \"10.0.0.2\", \"port_dst\": 4001 }".to_string()).unwrap();
    assert_eq!(cfg.ip_local, "0.0.0.0");
    assert_eq!(cfg.port_local, 0);
}

#[test]
fn udp_config_rejections() {
    for cfg in [
        "{ \"port_dst\": 4001 }",
        "{ \"ip_dst\": \"10.0.0.2\" }",
        "{ \"ip_dst\": \"10.0.0.2\", \"port_dst\": 70000 }",
        "{ \"ip_dst\": \"10.0.0.2\", \"port_dst\": 4001, \"spare\": 1 }",
        "{ \"ip_dst\": 5, \"port_dst\": 4001 }",
        "nonsense",
    ] {
        assert_eq!(
            parse_udp_config(&cfg.to_string()).unwrap_err(),
            SockError::InvalidConfig,
            "config {:?}",
            cfg
        );
    }
}

#[test]
fn tcp_client_config() {
    let cfg = parse_tcp_client_config(
        &"{ \"ip_dst\": \"127.0.0.1\", \"port_dst\": \"8080\" }".to_string(),
    )
    .unwrap();
    assert_eq!(cfg.ip_dst, "127.0.0.1");
    assert_eq!(cfg.port_dst, 8080);
    let defaulted =
        parse_tcp_client_config(&"{ \"ip_dst\": \"127.0.0.1\" }".to_string()).unwrap();
    assert_eq!(defaulted.port_dst, 0);
    // The peer port travels as a decimal string.
    assert_eq!(
        parse_tcp_client_config(&"{ \"ip_dst\": \"h\", \"port_dst\": 8080 }".to_string())
            .unwrap_err(),
        SockError::InvalidConfig
    );
}

#[test]
fn tcp_server_config() {
    let cfg = parse_tcp_server_config(&"{ \"port_local\": 9000 }".to_string()).unwrap();
    assert_eq!(cfg.ip_local, "0.0.0.0");
    assert_eq!(cfg.port_local, 9000);
    let full = parse_tcp_server_config(
        &"{ \"ip_local\": \"127.0.0.1\", \"port_local\": 9000 }".to_string(),
    )
    .unwrap();
    assert_eq!(full.ip_local, "127.0.0.1");
    assert_eq!(
        parse_tcp_server_config(&"{ \"ip_local\": \"127.0.0.1\" }".to_string()).unwrap_err(),
        SockError::InvalidConfig
    );
}

#[test]
fn oneliner_builder_defaults() {
    let params = OnelinerModeParamsBuilder::new().build();
    assert_eq!(params.f_params, "");
    assert_eq!(params.to_params, "");
    assert!(!params.bidir);
    assert!(params.blocking);
}

#[test]
fn oneliner_builder_sets_fields() {
    let params = OnelinerModeParamsBuilder::new()
        .f_params("{ \"a\": 1 }".to_string())
        .to_params("{ \"b\": 2 }".to_string())
        .bidir(true)
        .blocking(false)
        .build();
    assert_eq!(params.f_params, "{ \"a\": 1 }");
    assert_eq!(params.to_params, "{ \"b\": 2 }");
    assert!(params.bidir);
    assert!(!params.blocking);
}

#[test]
fn nonblocking_terminal_poll() {
    let mut buf = vec![0u8; 4];
    assert_eq!(read_nonblocking(PollOutcome::Empty, &mut buf, 4), Ok(0));
    assert_eq!(
        read_nonblocking(PollOutcome::Disconnected, &mut buf, 4),
        Err(SockError::Disconnected)
    );
    assert_eq!(
        read_nonblocking(PollOutcome::Data(vec![1, 2]), &mut buf, 4),
        Ok(2)
    );
    assert_eq!(&buf[..2], &[1, 2]);
    // A chunk larger than the request fills the prefix; the rest of the
    // chunk is discarded with it.
    let mut small = vec![0u8; 4];
    assert_eq!(
        read_nonblocking(PollOutcome::Data(vec![9, 9, 9, 9, 9, 9]), &mut small, 4),
        Ok(4)
    );
    assert_eq!(small, vec![9, 9, 9, 9]);
}

#[test]
fn transport_defaults() {
    assert_eq!(d_ip_local(), "0.0.0.0");
    assert_eq!(d_port_local(), 0);
    assert_eq!(default_port(), 0);
    assert_eq!(default_ip_local(), "0.0.0.0");
}

#[test]
fn udp_factory_keeps_validated_config() {
    let mut factory = SocketUDP::new();
    assert!(factory.config().is_none());
    factory
        .create_config(&"{ \"ip_dst\": \"10.0.0.2\", \"port_dst\": 4001 }".to_string())
        .unwrap();
    let cfg = factory.config().as_ref().unwrap();
    assert_eq!(cfg.ip_dst, "10.0.0.2");
    assert_eq!(cfg.port_dst, 4001);
    assert_eq!(
        SocketUDP::new()
            .create_config(&"{ }".to_string())
            .unwrap_err(),
        SockError::InvalidConfig
    );
}
