use vopono::error::VpnError;
use vopono::vpn::{get_protocol, OpenVpnProtocol, Protocol, VpnProvider};

#[test]
fn mullvad_defaults_to_wireguard() {
    assert_eq!(get_protocol(&VpnProvider::Mullvad, None), Ok(Protocol::Wireguard));
}

#[test]
fn mullvad_grants_either_protocol() {
    assert_eq!(
        get_protocol(&VpnProvider::Mullvad, Some(Protocol::OpenVpn)),
        Ok(Protocol::OpenVpn)
    );
    assert_eq!(
        get_protocol(&VpnProvider::Mullvad, Some(Protocol::Wireguard)),
        Ok(Protocol::Wireguard)
    );
}

#[test]
fn tigervpn_speaks_openvpn_only() {
    assert_eq!(get_protocol(&VpnProvider::TigerVpn, None), Ok(Protocol::OpenVpn));
    assert_eq!(
        get_protocol(&VpnProvider::TigerVpn, Some(Protocol::OpenVpn)),
        Ok(Protocol::OpenVpn)
    );
    assert_eq!(
        get_protocol(&VpnProvider::TigerVpn, Some(Protocol::Wireguard)),
        Err(VpnError::Unsupported)
    );
}

#[test]
fn pia_speaks_openvpn_only() {
    assert_eq!(
        get_protocol(&VpnProvider::PrivateInternetAccess, None),
        Ok(Protocol::OpenVpn)
    );
    assert_eq!(
        get_protocol(&VpnProvider::PrivateInternetAccess, Some(Protocol::OpenVpn)),
        Ok(Protocol::OpenVpn)
    );
    assert_eq!(
        get_protocol(&VpnProvider::PrivateInternetAccess, Some(Protocol::Wireguard)),
        Err(VpnError::Unsupported)
    );
}

#[test]
fn custom_defaults_to_wireguard_and_grants_what_is_asked() {
    assert_eq!(get_protocol(&VpnProvider::Custom, None), Ok(Protocol::Wireguard));
    assert_eq!(
        get_protocol(&VpnProvider::Custom, Some(Protocol::OpenVpn)),
        Ok(Protocol::OpenVpn)
    );
    assert_eq!(
        get_protocol(&VpnProvider::Custom, Some(Protocol::Wireguard)),
        Ok(Protocol::Wireguard)
    );
}

#[test]
fn transports_are_read_from_three_words() {
    assert_eq!(OpenVpnProtocol::from_str("udp"), Ok(OpenVpnProtocol::UDP));
    assert_eq!(OpenVpnProtocol::from_str("tcp"), Ok(OpenVpnProtocol::TCP));
    assert_eq!(OpenVpnProtocol::from_str("tcp-client"), Ok(OpenVpnProtocol::TCP));
    assert_eq!(OpenVpnProtocol::from_str("UDP"), Err(VpnError::UnknownProtocol));
    assert_eq!(OpenVpnProtocol::from_str(""), Err(VpnError::UnknownProtocol));
    assert_eq!(OpenVpnProtocol::from_str("sctp"), Err(VpnError::UnknownProtocol));
}

#[test]
fn transports_are_written_in_lowercase() {
    assert_eq!(OpenVpnProtocol::UDP.to_string(), "udp");
    assert_eq!(OpenVpnProtocol::TCP.to_string(), "tcp");
}

#[test]
fn transport_text_reads_back() {
    for p in [OpenVpnProtocol::UDP, OpenVpnProtocol::TCP] {
        assert_eq!(OpenVpnProtocol::from_str(&p.to_string()), Ok(p));
    }
}

#[test]
fn provider_aliases() {
    assert_eq!(VpnProvider::PrivateInternetAccess.alias(), "pia");
    assert_eq!(VpnProvider::Mullvad.alias(), "mv");
    assert_eq!(VpnProvider::TigerVpn.alias(), "tig");
    assert_eq!(VpnProvider::Custom.alias(), "cus");
}
