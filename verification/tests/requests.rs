use vopono::address::IpAddress;
use vopono::error::{ErrorClass, VpnError};
use vopono::request::{
    namespace_name, needs_sync, provider_dir, resolve_target, select_dns, select_interface,
    select_user, server_key, serverlist_path,
};
use vopono::vpn::{Protocol, VpnProvider};

#[test]
fn mullvad_server_resolves_to_wireguard() {
    let t = resolve_target(None, Some(VpnProvider::Mullvad), Some("se"), None).unwrap();
    assert_eq!(t.provider, VpnProvider::Mullvad);
    assert_eq!(t.protocol, Protocol::Wireguard);
    assert_eq!(t.server_name, "se");
    let name = namespace_name(&t.provider, &t.server_name);
    assert_eq!(name, "vopono_mv_se");
    assert!(name.starts_with("vopono_mv_se"));
}

#[test]
fn pia_with_wireguard_is_unsupported() {
    let r = resolve_target(
        None,
        Some(VpnProvider::PrivateInternetAccess),
        Some("us"),
        Some(Protocol::Wireguard),
    );
    assert_eq!(r.err(), Some(VpnError::Unsupported));
    assert_eq!(VpnError::Unsupported.class(), ErrorClass::Setup);
    assert_eq!(VpnError::Unsupported.exit_code(), 1);
}

#[test]
fn tigervpn_server_resolves_to_openvpn() {
    let t = resolve_target(None, Some(VpnProvider::TigerVpn), Some("uk"), None).unwrap();
    assert_eq!(t.provider, VpnProvider::TigerVpn);
    assert_eq!(t.protocol, Protocol::OpenVpn);
    assert_eq!(t.server_name, "uk");
    assert_eq!(namespace_name(&t.provider, &t.server_name), "vopono_tig_uk");
    assert_eq!(provider_dir(&t.provider, &t.protocol), "vopono/tig/openvpn");
    assert_eq!(serverlist_path(&t.provider), "vopono/tig/openvpn/serverlist.csv");
    assert!(needs_sync(&t.provider, false, false));
    assert!(needs_sync(&t.provider, true, true));
    assert!(!needs_sync(&t.provider, true, false));
}

#[test]
fn custom_config_without_protocol_is_an_argument_error() {
    let r = resolve_target(Some("my vpn"), None, None, None);
    assert_eq!(r.err(), Some(VpnError::MissingProtocol));
    assert_eq!(VpnError::MissingProtocol.class(), ErrorClass::Argument);
    assert_eq!(VpnError::MissingProtocol.exit_code(), 2);
}

#[test]
fn custom_config_with_protocol() {
    let t = resolve_target(Some("my vpn"), None, None, Some(Protocol::OpenVpn)).unwrap();
    assert_eq!(t.provider, VpnProvider::Custom);
    assert_eq!(t.protocol, Protocol::OpenVpn);
    assert_eq!(t.server_name, "myvp");
    assert_eq!(namespace_name(&t.provider, &t.server_name), "vopono_cus_myvp");
    let t = resolve_target(
        Some("wg-home"),
        Some(VpnProvider::Mullvad),
        Some("se"),
        Some(Protocol::Wireguard),
    )
    .unwrap();
    assert_eq!(t.provider, VpnProvider::Custom);
    assert_eq!(t.protocol, Protocol::Wireguard);
    assert_eq!(t.server_name, "wgho");
}

#[test]
fn missing_arguments_are_argument_errors() {
    let r = resolve_target(None, None, Some("se"), None);
    assert_eq!(r.err(), Some(VpnError::MissingProvider));
    let r = resolve_target(None, Some(VpnProvider::Mullvad), None, None);
    assert_eq!(r.err(), Some(VpnError::MissingServer));
    let r = resolve_target(None, Some(VpnProvider::Custom), Some("se"), Some(Protocol::OpenVpn));
    assert_eq!(r.err(), Some(VpnError::MissingCustomConfig));
    for e in [
        VpnError::MissingProvider,
        VpnError::MissingServer,
        VpnError::MissingCustomConfig,
        VpnError::MissingProtocol,
    ] {
        assert_eq!(e.exit_code(), 2);
    }
}

#[test]
fn setup_errors_exit_with_one() {
    for e in [
        VpnError::Unsupported,
        VpnError::NoMatchingServer,
        VpnError::NamespaceExists,
        VpnError::TunnelNotReady,
        VpnError::TunnelDied,
        VpnError::CredentialsInvalid,
        VpnError::ChildSpawn,
        VpnError::PrivilegeError,
    ] {
        assert_eq!(e.exit_code(), 1);
    }
}

#[test]
fn retries_are_bounded() {
    assert!(VpnError::ConfigMissing.may_retry(0));
    assert!(!VpnError::ConfigMissing.may_retry(1));
    assert!(VpnError::RuleCollision.may_retry(0));
    assert!(!VpnError::RuleCollision.may_retry(1));
    assert!(VpnError::CredentialsInvalid.may_retry(2));
    assert!(!VpnError::CredentialsInvalid.may_retry(3));
    assert!(!VpnError::Unsupported.may_retry(0));
    assert_eq!(VpnError::NamespaceExists.retries(), 0);
}

#[test]
fn server_key_is_four_characters_of_the_stem() {
    assert_eq!(server_key("my vpn"), "myvp");
    assert_eq!(server_key("a-b-c-d-e"), "abcd");
    assert_eq!(server_key("  --x"), "x");
    assert_eq!(server_key("abc"), "abc");
    assert_eq!(server_key("abcd"), "abcd");
    assert_eq!(server_key("abcde"), "abcd");
    assert_eq!(server_key(""), "");
    assert_eq!(server_key("- -"), "");
}

#[test]
fn namespace_names_join_alias_and_server() {
    assert_eq!(namespace_name(&VpnProvider::PrivateInternetAccess, "usca"), "vopono_pia_usca");
    assert_eq!(namespace_name(&VpnProvider::Custom, ""), "vopono_cus_");
    assert_ne!(
        namespace_name(&VpnProvider::Mullvad, "se"),
        namespace_name(&VpnProvider::TigerVpn, "se")
    );
}

#[test]
fn provider_directories() {
    assert_eq!(provider_dir(&VpnProvider::Mullvad, &Protocol::Wireguard), "vopono/mv/wireguard");
    assert_eq!(provider_dir(&VpnProvider::Mullvad, &Protocol::OpenVpn), "vopono/mv/openvpn");
    assert_eq!(
        provider_dir(&VpnProvider::PrivateInternetAccess, &Protocol::OpenVpn),
        "vopono/pia/openvpn"
    );
}

#[test]
fn custom_configurations_are_never_fetched() {
    assert!(!needs_sync(&VpnProvider::Custom, false, false));
    assert!(!needs_sync(&VpnProvider::Custom, true, true));
}

#[test]
fn interface_asked_for_wins() {
    let active = vec!["eth0".to_string(), "wlan0".to_string()];
    assert_eq!(select_interface(Some("tun9".to_string()), &active), Ok("tun9".to_string()));
    assert_eq!(select_interface(None, &active), Ok("eth0".to_string()));
    assert_eq!(select_interface(None, &Vec::new()), Err(VpnError::NoActiveInterface));
    assert_eq!(select_interface(Some("eth1".to_string()), &Vec::new()), Ok("eth1".to_string()));
}

#[test]
fn name_servers_asked_for_win() {
    let asked = vec![IpAddress::V4(1, 1, 1, 1)];
    assert_eq!(select_dns(Some(asked.clone()), &VpnProvider::Mullvad), asked);
    assert_eq!(
        select_dns(None, &VpnProvider::Mullvad),
        vec![IpAddress::V4(193, 138, 218, 74)]
    );
}

#[test]
fn provider_name_servers() {
    assert_eq!(
        VpnProvider::PrivateInternetAccess.dns(),
        Ok(vec![IpAddress::V4(209, 222, 18, 222), IpAddress::V4(209, 222, 18, 218)])
    );
    assert_eq!(VpnProvider::Mullvad.dns(), Ok(vec![IpAddress::V4(193, 138, 218, 74)]));
    assert_eq!(
        VpnProvider::TigerVpn.dns(),
        Ok(vec![IpAddress::V4(8, 8, 8, 8), IpAddress::V4(8, 8, 4, 4)])
    );
    assert_eq!(
        VpnProvider::Custom.dns(),
        Ok(vec![IpAddress::V4(8, 8, 8, 8), IpAddress::V4(8, 8, 4, 4)])
    );
}

#[test]
fn user_falls_back_to_the_caller_of_sudo() {
    assert_eq!(
        select_user(Some("alice".to_string()), Some("bob".to_string()), false),
        Ok(Some("alice".to_string()))
    );
    assert_eq!(select_user(None, Some("bob".to_string()), false), Ok(Some("bob".to_string())));
    assert_eq!(select_user(None, None, false), Err(VpnError::RootRefused));
    assert_eq!(select_user(None, None, true), Ok(None));
}
