use vopono::error::VpnError;
use vopono::vpn::{
    find_host_from_alias, get_serverlist, matching_servers, server_from_row, servers_from_rows,
    OpenVpnProtocol, VpnServer,
};

fn server(name: &str, alias: &str, host: &str, port: Option<u16>, protocol: Option<OpenVpnProtocol>) -> VpnServer {
    VpnServer {
        name: name.to_string(),
        alias: alias.to_string(),
        host: host.to_string(),
        port,
        protocol,
    }
}

fn sample() -> Vec<VpnServer> {
    vec![
        server("us_california", "usca", "us-california.example.com", Some(1198), Some(OpenVpnProtocol::TCP)),
        server("de_berlin", "de", "de-berlin.example.com", None, None),
        server("se_stockholm", "se", "se.example.com", Some(443), None),
        server("us_east", "use", "us-east.example.com", None, Some(OpenVpnProtocol::UDP)),
    ]
}

fn chars(s: &str) -> Vec<char> {
    s.chars().collect()
}

#[test]
fn alias_matches_by_name() {
    let r = find_host_from_alias("de_b", &sample());
    assert_eq!(
        r,
        Ok(("de-berlin.example.com".to_string(), 1194, "de".to_string(), OpenVpnProtocol::UDP))
    );
}

#[test]
fn alias_matches_by_alias() {
    let r = find_host_from_alias("usc", &sample());
    assert_eq!(
        r,
        Ok(("us-california.example.com".to_string(), 1198, "usca".to_string(), OpenVpnProtocol::TCP))
    );
}

#[test]
fn alias_matches_by_hyphenated_name() {
    let r = find_host_from_alias("se-st", &sample());
    assert_eq!(
        r,
        Ok(("se.example.com".to_string(), 443, "se".to_string(), OpenVpnProtocol::UDP))
    );
}

#[test]
fn alias_is_compared_in_lowercase() {
    let r = find_host_from_alias("DE_B", &sample());
    assert_eq!(
        r,
        Ok(("de-berlin.example.com".to_string(), 1194, "de".to_string(), OpenVpnProtocol::UDP))
    );
}

#[test]
fn server_names_are_not_lowered() {
    let list = vec![server("DE_Berlin", "DE", "host", None, None)];
    assert_eq!(find_host_from_alias("de", &list), Err(VpnError::NoMatchingServer));
}

#[test]
fn unknown_alias_is_refused() {
    assert_eq!(find_host_from_alias("fr", &sample()), Err(VpnError::NoMatchingServer));
    assert_eq!(find_host_from_alias("se", &[]), Err(VpnError::NoMatchingServer));
}

#[test]
fn any_matching_server_may_be_picked_and_no_other() {
    let list = sample();
    let mut seen_california = false;
    let mut seen_east = false;
    for _ in 0..200 {
        let (host, port, alias, protocol) = find_host_from_alias("us", &list).unwrap();
        if alias == "usca" {
            assert_eq!(host, "us-california.example.com");
            assert_eq!(port, 1198);
            assert_eq!(protocol, OpenVpnProtocol::TCP);
            seen_california = true;
        } else {
            assert_eq!(alias, "use");
            assert_eq!(host, "us-east.example.com");
            assert_eq!(port, 1194);
            assert_eq!(protocol, OpenVpnProtocol::UDP);
            seen_east = true;
        }
    }
    assert!(seen_california && seen_east);
}

#[test]
fn empty_alias_matches_every_server() {
    let list = sample();
    assert_eq!(matching_servers(&chars(""), &list), vec![0, 1, 2, 3]);
}

#[test]
fn matching_servers_come_in_list_order() {
    let list = sample();
    assert_eq!(matching_servers(&chars("us"), &list), vec![0, 3]);
    assert_eq!(matching_servers(&chars("us-e"), &list), vec![3]);
    assert_eq!(matching_servers(&chars("usca"), &list), vec![0]);
    assert_eq!(matching_servers(&chars("x"), &list), Vec::<usize>::new());
}

#[test]
fn matching_one_server() {
    let s = server("us_new_york", "ny", "h", None, None);
    assert!(s.matches(&chars("us_new")));
    assert!(s.matches(&chars("us-new-y")));
    assert!(s.matches(&chars("ny")));
    assert!(!s.matches(&chars("us_new-")));
    assert!(!s.matches(&chars("york")));
    assert!(!s.matches(&chars("us_new_york_city")));
}

#[test]
fn endpoint_fills_in_defaults() {
    let s = server("a", "b", "c.example.com", None, None);
    assert_eq!(
        s.endpoint(),
        ("c.example.com".to_string(), 1194, "b".to_string(), OpenVpnProtocol::UDP)
    );
    let t = server("a", "b", "c.example.com", Some(53), Some(OpenVpnProtocol::TCP));
    assert_eq!(
        t.endpoint(),
        ("c.example.com".to_string(), 53, "b".to_string(), OpenVpnProtocol::TCP)
    );
}

#[test]
fn serverlist_is_read_from_csv() {
    let data = b"us_california,usca,us-california.example.com,1198,TCP\nde_berlin,de,de-berlin.example.com,,\nse_stockholm,se,se.example.com,443,UDP\n";
    let list = get_serverlist(data).unwrap();
    assert_eq!(list.len(), 3);
    assert_eq!(list[0].name, "us_california");
    assert_eq!(list[0].alias, "usca");
    assert_eq!(list[0].host, "us-california.example.com");
    assert_eq!(list[0].port, Some(1198));
    assert_eq!(list[0].protocol, Some(OpenVpnProtocol::TCP));
    assert_eq!(list[1].name, "de_berlin");
    assert_eq!(list[1].port, None);
    assert_eq!(list[1].protocol, None);
    assert_eq!(list[2].port, Some(443));
    assert_eq!(list[2].protocol, Some(OpenVpnProtocol::UDP));
}

#[test]
fn serverlist_has_no_header_row() {
    let data = b"name,alias,host,,\n";
    let list = get_serverlist(data).unwrap();
    assert_eq!(list.len(), 1);
    assert_eq!(list[0].name, "name");
}

#[test]
fn empty_serverlist_has_no_servers() {
    assert_eq!(get_serverlist(b"").unwrap().len(), 0);
}

#[test]
fn serverlist_with_quoted_field() {
    let data = b"\"new york, east\",ny,ny.example.com,1194,UDP\n";
    let list = get_serverlist(data).unwrap();
    assert_eq!(list[0].name, "new york, east");
}

#[test]
fn serverlist_with_bad_port_is_refused() {
    let data = b"a,b,c,notaport,UDP\n";
    assert!(matches!(get_serverlist(data), Err(VpnError::MalformedServerList)));
    let data = b"a,b,c,70000,UDP\n";
    assert!(matches!(get_serverlist(data), Err(VpnError::MalformedServerList)));
}

#[test]
fn serverlist_with_unknown_transport_is_refused() {
    let data = b"a,b,c,1194,udp\n";
    assert!(matches!(get_serverlist(data), Err(VpnError::MalformedServerList)));
}

#[test]
fn serverlist_with_short_row_is_refused() {
    let data = b"a,b,c\n";
    assert!(matches!(get_serverlist(data), Err(VpnError::MalformedServerList)));
}

#[test]
fn rows_become_servers() {
    let row = ("n".to_string(), "a".to_string(), "h".to_string(), Some(7u16), Some("TCP".to_string()));
    let s = server_from_row(&row).unwrap();
    assert_eq!(s.name, "n");
    assert_eq!(s.alias, "a");
    assert_eq!(s.host, "h");
    assert_eq!(s.port, Some(7));
    assert_eq!(s.protocol, Some(OpenVpnProtocol::TCP));
    let bad = ("n".to_string(), "a".to_string(), "h".to_string(), None, Some("tcp".to_string()));
    assert!(server_from_row(&bad).is_none());
    let rows = vec![row, bad];
    assert!(matches!(servers_from_rows(&rows), Err(VpnError::MalformedServerList)));
    assert_eq!(servers_from_rows(&Vec::new()).unwrap().len(), 0);
}

#[test]
fn server_found_in_list_read_from_csv() {
    let data = b"us_california,usca,us-california.example.com,1198,TCP\nde_berlin,de,de-berlin.example.com,,\n";
    let list = get_serverlist(data).unwrap();
    assert_eq!(
        find_host_from_alias("de", &list),
        Ok(("de-berlin.example.com".to_string(), 1194, "de".to_string(), OpenVpnProtocol::UDP))
    );
}
