use tuic::config::{CongestionControl, UdpRelayMode};

#[test]
fn congestion_control_names() {
    assert_eq!(CongestionControl::from_str("cubic"), Ok(CongestionControl::Cubic));
    assert_eq!(CongestionControl::from_str("CuBiC"), Ok(CongestionControl::Cubic));
    assert_eq!(CongestionControl::from_str("new_reno"), Ok(CongestionControl::NewReno));
    assert_eq!(CongestionControl::from_str("NewReno"), Ok(CongestionControl::NewReno));
    assert_eq!(CongestionControl::from_str("BBR"), Ok(CongestionControl::Bbr));
    assert!(CongestionControl::from_str("new-reno").is_err());
    assert!(CongestionControl::from_str("").is_err());
    assert!(CongestionControl::from_str("cubic ").is_err());
    assert!(CongestionControl::from_str("bb").is_err());
}

#[test]
fn udp_relay_mode_names() {
    assert_eq!(UdpRelayMode::from_str("Native"), Ok(UdpRelayMode::Native));
    assert_eq!(UdpRelayMode::from_str("QUIC"), Ok(UdpRelayMode::Quic));
    assert!(UdpRelayMode::from_str("tcp").is_err());
    assert_eq!(UdpRelayMode::Native.to_string(), "native");
    assert_eq!(UdpRelayMode::Quic.to_string(), "quic");
}
