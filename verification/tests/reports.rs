use vopono::address::IpAddress;
use vopono::application::{application_command, exit_code_for};
use vopono::probe::{
    default_route_interfaces, forwarding_is_on, handshake_age, listed_namespaces, openvpn_remote,
    proc_path, read_route_interface, words_of,
};
use vopono::wireguard::{config_for_alias, tunnel_dns};

fn chars(s: &str) -> Vec<char> {
    s.chars().collect()
}

fn words(line: &str) -> Vec<String> {
    line.split(' ').map(|w| w.to_string()).collect()
}

#[test]
fn words_stand_between_spaces() {
    let want: Vec<Vec<char>> = vec![chars("default"), chars("via"), chars("10.0.0.1")];
    assert_eq!(words_of(&chars("default via 10.0.0.1")), want);
    assert_eq!(words_of(&chars("  default   via \t10.0.0.1\r")), want);
    assert_eq!(words_of(&chars("")), Vec::<Vec<char>>::new());
    assert_eq!(words_of(&chars("   ")), Vec::<Vec<char>>::new());
}

#[test]
fn default_route_names_its_interface() {
    assert_eq!(
        read_route_interface(&chars("default via 192.168.1.1 dev wlan0 proto dhcp metric 600")),
        Some("wlan0".to_string())
    );
    assert_eq!(read_route_interface(&chars("default dev tun0 dev eth0")), Some("tun0".to_string()));
    assert_eq!(read_route_interface(&chars("10.0.0.0/8 via 10.0.0.1 dev eth0")), None);
    assert_eq!(read_route_interface(&chars("default via 192.168.1.1")), None);
    assert_eq!(read_route_interface(&chars("default via 192.168.1.1 dev")), None);
    assert_eq!(read_route_interface(&chars("")), None);
}

#[test]
fn active_interfaces_come_in_order() {
    let routes = "default via 192.168.1.1 dev wlan0 proto dhcp metric 600\ndefault via 10.0.0.1 dev eth0 metric 700\n192.168.1.0/24 dev wlan0 scope link\n";
    assert_eq!(default_route_interfaces(routes), vec!["wlan0".to_string(), "eth0".to_string()]);
    assert_eq!(default_route_interfaces(""), Vec::<String>::new());
    assert_eq!(default_route_interfaces("unreachable default\n"), Vec::<String>::new());
}

#[test]
fn namespaces_are_listed_by_their_first_word() {
    let listing = "vopono_mv_se (id: 1)\nvopono_pia_us\n\nother (id: 0)\n";
    assert_eq!(
        listed_namespaces(listing),
        vec!["vopono_mv_se".to_string(), "vopono_pia_us".to_string(), "other".to_string()]
    );
    assert_eq!(listed_namespaces(""), Vec::<String>::new());
}

#[test]
fn forwarding_switch_is_read() {
    assert!(forwarding_is_on("1\n"));
    assert!(forwarding_is_on("1"));
    assert!(forwarding_is_on(" 1 \n"));
    assert!(!forwarding_is_on("0\n"));
    assert!(!forwarding_is_on(""));
    assert!(!forwarding_is_on("\n1\n"));
    assert!(!forwarding_is_on("11\n"));
}

#[test]
fn processes_are_looked_up_below_proc() {
    assert_eq!(proc_path(1), "/proc/1");
    assert_eq!(proc_path(4242), "/proc/4242");
    assert_eq!(proc_path(0), "/proc/0");
}

#[test]
fn handshake_age_is_now_minus_its_time() {
    assert_eq!(handshake_age("AbCd=\t1700000000\n", 1700000010), Some(10));
    assert_eq!(handshake_age("AbCd=\t1700000000\n", 1700000000), Some(0));
    assert_eq!(handshake_age("AbCd=\t1700000000\n", 1699999999), None);
    assert_eq!(handshake_age("AbCd=\t0\n", 1700000010), None);
    assert_eq!(handshake_age("AbCd=\n", 1700000010), None);
    assert_eq!(handshake_age("", 1700000010), None);
    assert_eq!(handshake_age("key\tsoon\n", 1700000010), None);
    assert_eq!(handshake_age("a\t5\nb\t7\n", 10), Some(5));
}

#[test]
fn openvpn_configuration_names_its_server() {
    let config = "client\ndev tun\nproto udp\nremote vpn.example.com 1194\nremote other.example.com 443\nresolv-retry infinite\n";
    assert_eq!(openvpn_remote(config), Some(("vpn.example.com".to_string(), 1194)));
    assert_eq!(openvpn_remote("remote 1.2.3.4 443 tcp\n"), Some(("1.2.3.4".to_string(), 443)));
    assert_eq!(
        openvpn_remote("remote a\nremote b port\nremote c 70000\nremote d 53\n"),
        Some(("d".to_string(), 53))
    );
    assert_eq!(openvpn_remote("remote-random\n"), None);
    assert_eq!(openvpn_remote("# remote a 1\n"), None);
    assert_eq!(openvpn_remote(""), None);
}

#[test]
fn application_runs_inside_as_the_user() {
    assert_eq!(
        application_command("vopono_mv_se", Some("alice"), "firefox"),
        words("ip netns exec vopono_mv_se sudo -u alice sh -c firefox")
    );
    let argv = application_command("ns", None, "curl -s https://example.com");
    assert_eq!(argv.len(), 7);
    assert_eq!(argv[..6].to_vec(), words("ip netns exec ns sh -c"));
    assert_eq!(argv[6], "curl -s https://example.com");
}

#[test]
fn exit_code_is_the_applications() {
    assert_eq!(exit_code_for(Some(0)), 0);
    assert_eq!(exit_code_for(Some(3)), 3);
    assert_eq!(exit_code_for(Some(-1)), -1);
    assert_eq!(exit_code_for(None), 1);
}

#[test]
fn wireguard_name_servers() {
    let asked = vec![IpAddress::V4(1, 1, 1, 1)];
    let configured = vec![IpAddress::V4(10, 64, 0, 1)];
    let defaults = vec![IpAddress::V4(193, 138, 218, 74)];
    assert_eq!(tunnel_dns(Some(asked.clone()), configured.clone(), defaults.clone()), asked);
    assert_eq!(tunnel_dns(None, configured.clone(), defaults.clone()), configured);
    assert_eq!(tunnel_dns(None, Vec::new(), defaults.clone()), defaults);
    assert_eq!(tunnel_dns(Some(Vec::new()), configured, defaults), Vec::<IpAddress>::new());
}

#[test]
fn first_configuration_with_the_alias_is_taken() {
    let stems = vec![
        "mullvad-de1".to_string(),
        "mullvad-se3".to_string(),
        "mullvad-se7".to_string(),
        "se".to_string(),
    ];
    assert_eq!(config_for_alias("mullvad-se", &stems), Some(1));
    assert_eq!(config_for_alias("se", &stems), Some(3));
    assert_eq!(config_for_alias("", &stems), Some(0));
    assert_eq!(config_for_alias("us", &stems), None);
    assert_eq!(config_for_alias("se", &Vec::new()), None);
}
