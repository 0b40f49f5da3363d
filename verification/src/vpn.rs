//! Providers, protocols and servers.

use crate::address::IpAddress;
use crate::error::VpnError;
use crate::text::{lowercased, same_text, starts_with, to_chars, to_lowercase};
use rand::seq::SliceRandom;
use vstd::prelude::*;

verus! {

/// A VPN provider.
#[derive(Clone, Copy, Debug, PartialEq, Eq, Structural)]
pub enum VpnProvider {
    PrivateInternetAccess,
    Mullvad,
    TigerVpn,
    Custom,
}

/// The tunnel protocol.
#[derive(Clone, Copy, Debug, PartialEq, Eq, Structural)]
pub enum Protocol {
    OpenVpn,
    Wireguard,
}

/// The transport that an OpenVPN server listens on.
#[derive(Clone, Copy, Debug, PartialEq, Eq, Structural)]
pub enum OpenVpnProtocol {
    UDP,
    TCP,
}

impl VpnProvider {
    /// The short name under which the provider's files and namespaces go.
    pub open spec fn spec_alias(self) -> Seq<char> {
        match self {
            VpnProvider::PrivateInternetAccess => "pia"@,
            VpnProvider::Mullvad => "mv"@,
            VpnProvider::TigerVpn => "tig"@,
            VpnProvider::Custom => "cus"@,
        }
    }

    /// The name servers used when the caller names none.
    pub open spec fn spec_dns(self) -> Seq<IpAddress> {
        match self {
            VpnProvider::PrivateInternetAccess => seq![
                IpAddress::V4(209, 222, 18, 222),
                IpAddress::V4(209, 222, 18, 218),
            ],
            VpnProvider::Mullvad => seq![IpAddress::V4(193, 138, 218, 74)],
            VpnProvider::TigerVpn => seq![IpAddress::V4(8, 8, 8, 8), IpAddress::V4(8, 8, 4, 4)],
            VpnProvider::Custom => seq![IpAddress::V4(8, 8, 8, 8), IpAddress::V4(8, 8, 4, 4)],
        }
    }

    /// The short name under which the provider's files and namespaces go.
    pub fn alias(&self) -> (r: String)
        ensures
            r@ == self.spec_alias(),
    {
        match self {
            VpnProvider::PrivateInternetAccess => "pia".to_owned(),
            VpnProvider::Mullvad => "mv".to_owned(),
            VpnProvider::TigerVpn => "tig".to_owned(),
            VpnProvider::Custom => "cus".to_owned(),
        }
    }

    /// The name servers used when the caller names none. Never fails.
    pub fn dns(&self) -> (r: Result<Vec<IpAddress>, VpnError>)
        ensures
            r matches Ok(v) && v@ == self.spec_dns(),
    {
        let mut v: Vec<IpAddress> = Vec::new();
        match self {
            VpnProvider::PrivateInternetAccess => {
                v.push(IpAddress::V4(209, 222, 18, 222));
                v.push(IpAddress::V4(209, 222, 18, 218));
            },
            VpnProvider::Mullvad => {
                v.push(IpAddress::V4(193, 138, 218, 74));
            },
            VpnProvider::TigerVpn => {
                v.push(IpAddress::V4(8, 8, 8, 8));
                v.push(IpAddress::V4(8, 8, 4, 4));
            },
            VpnProvider::Custom => {
                v.push(IpAddress::V4(8, 8, 8, 8));
                v.push(IpAddress::V4(8, 8, 4, 4));
            },
        }
        assert(v@ =~= self.spec_dns());
        Ok(v)
    }
}

/// Every alias is one to four lowercase letters, and every provider has at
/// least one name server.
pub proof fn provider_defaults_well_formed(provider: VpnProvider)
    ensures
        1 <= provider.spec_alias().len() <= 4,
        forall|i: int|
            0 <= i < provider.spec_alias().len() ==> 'a' <= #[trigger] provider.spec_alias()[i]
                <= 'z',
        provider.spec_dns().len() >= 1,
{
    reveal_strlit("pia");
    reveal_strlit("mv");
    reveal_strlit("tig");
    reveal_strlit("cus");
}

impl Protocol {
    /// The directory that holds a provider's files for this protocol.
    pub open spec fn spec_dir_name(self) -> Seq<char> {
        match self {
            Protocol::OpenVpn => "openvpn"@,
            Protocol::Wireguard => "wireguard"@,
        }
    }

    /// The directory that holds a provider's files for this protocol.
    pub fn dir_name(&self) -> (r: String)
        ensures
            r@ == self.spec_dir_name(),
    {
        match self {
            Protocol::OpenVpn => "openvpn".to_owned(),
            Protocol::Wireguard => "wireguard".to_owned(),
        }
    }
}

impl OpenVpnProtocol {
    /// The transport as OpenVPN writes it.
    pub open spec fn spec_text(self) -> Seq<char> {
        match self {
            OpenVpnProtocol::UDP => "udp"@,
            OpenVpnProtocol::TCP => "tcp"@,
        }
    }

    /// The transport that a string names: `udp`, `tcp` or `tcp-client`.
    pub open spec fn parsed(s: Seq<char>) -> Result<OpenVpnProtocol, VpnError> {
        if s == "udp"@ {
            Ok(OpenVpnProtocol::UDP)
        } else if s == "tcp-client"@ || s == "tcp"@ {
            Ok(OpenVpnProtocol::TCP)
        } else {
            Err(VpnError::UnknownProtocol)
        }
    }

    /// The transport that a server list names in its last column: the
    /// variant's own name.
    pub open spec fn named(s: Seq<char>) -> Option<OpenVpnProtocol> {
        if s == "UDP"@ {
            Some(OpenVpnProtocol::UDP)
        } else if s == "TCP"@ {
            Some(OpenVpnProtocol::TCP)
        } else {
            None
        }
    }

    /// Reads a transport from `udp`, `tcp` or `tcp-client`.
    pub fn from_str(s: &str) -> (r: Result<OpenVpnProtocol, VpnError>)
        ensures
            r == Self::parsed(s@),
    {
        if same_text(s, "udp") {
            Ok(OpenVpnProtocol::UDP)
        } else if same_text(s, "tcp-client") {
            Ok(OpenVpnProtocol::TCP)
        } else if same_text(s, "tcp") {
            Ok(OpenVpnProtocol::TCP)
        } else {
            Err(VpnError::UnknownProtocol)
        }
    }

    /// Reads a transport from the name of its variant.
    pub fn from_name(s: &str) -> (r: Option<OpenVpnProtocol>)
        ensures
            r == Self::named(s@),
    {
        if same_text(s, "UDP") {
            Some(OpenVpnProtocol::UDP)
        } else if same_text(s, "TCP") {
            Some(OpenVpnProtocol::TCP)
        } else {
            None
        }
    }

    /// The transport as OpenVPN writes it: `udp` or `tcp`.
    pub fn to_string(&self) -> (r: String)
        ensures
            r@ == self.spec_text(),
    {
        match self {
            OpenVpnProtocol::UDP => "udp".to_owned(),
            OpenVpnProtocol::TCP => "tcp".to_owned(),
        }
    }
}

/// Reading back what was written gives the same transport.
pub proof fn transport_text_round_trip(p: OpenVpnProtocol)
    ensures
        OpenVpnProtocol::parsed(p.spec_text()) == Ok::<OpenVpnProtocol, VpnError>(p),
{
    reveal_strlit("udp");
    reveal_strlit("tcp");
    reveal_strlit("tcp-client");
    assert("udp"@[0] != "tcp"@[0]);
}

/// The protocol that a provider is used with, given what was asked for.
///
/// WireGuard is refused for the two providers that do not offer it. A
/// request for OpenVPN is always granted. Without a request, Mullvad and
/// custom configurations use WireGuard and the others OpenVPN.
pub open spec fn resolved_protocol(provider: VpnProvider, requested: Option<Protocol>) -> Result<
    Protocol,
    VpnError,
> {
    match (requested, provider) {
        (Some(Protocol::Wireguard), VpnProvider::TigerVpn) => Err(VpnError::Unsupported),
        (Some(Protocol::Wireguard), VpnProvider::PrivateInternetAccess) => Err(
            VpnError::Unsupported,
        ),
        (Some(p), _) => Ok(p),
        (None, VpnProvider::Mullvad) => Ok(Protocol::Wireguard),
        (None, VpnProvider::Custom) => Ok(Protocol::Wireguard),
        (None, _) => Ok(Protocol::OpenVpn),
    }
}

/// Resolves the protocol for a provider.
pub fn get_protocol(provider: &VpnProvider, protocol: Option<Protocol>) -> (r: Result<
    Protocol,
    VpnError,
>)
    ensures
        r == resolved_protocol(*provider, protocol),
{
    match protocol {
        Some(Protocol::Wireguard) => match provider {
            VpnProvider::Mullvad => Ok(Protocol::Wireguard),
            VpnProvider::TigerVpn => Err(VpnError::Unsupported),
            VpnProvider::PrivateInternetAccess => Err(VpnError::Unsupported),
            VpnProvider::Custom => Ok(Protocol::Wireguard),
        },
        Some(Protocol::OpenVpn) => Ok(Protocol::OpenVpn),
        None => match provider {
            VpnProvider::Mullvad => Ok(Protocol::Wireguard),
            VpnProvider::TigerVpn => Ok(Protocol::OpenVpn),
            VpnProvider::PrivateInternetAccess => Ok(Protocol::OpenVpn),
            VpnProvider::Custom => Ok(Protocol::Wireguard),
        },
    }
}

/// One entry of a provider's server list.
pub struct VpnServer {
    pub name: String,
    pub alias: String,
    pub host: String,
    pub port: Option<u16>,
    pub protocol: Option<OpenVpnProtocol>,
}

/// The port of a server that names none.
pub const DEFAULT_PORT: u16 = 1194;

/// A name with every underscore turned into a hyphen.
pub open spec fn hyphenated(s: Seq<char>) -> Seq<char> {
    s.map_values(|c: char| if c == '_' { '-' } else { c })
}

/// Whether an alias, already in lowercase, names a server: it begins the
/// server's name, its alias, or its name written with hyphens.
pub open spec fn server_matches(alias: Seq<char>, server: VpnServer) -> bool {
    ||| alias.is_prefix_of(server.name@)
    ||| alias.is_prefix_of(server.alias@)
    ||| alias.is_prefix_of(hyphenated(server.name@))
}

impl VpnServer {
    /// The port to connect to: the server's own, or 1194.
    pub open spec fn spec_port(self) -> u16 {
        match self.port {
            Some(p) => p,
            None => DEFAULT_PORT,
        }
    }

    /// The transport to connect with: the server's own, or UDP.
    pub open spec fn spec_protocol(self) -> OpenVpnProtocol {
        match self.protocol {
            Some(p) => p,
            None => OpenVpnProtocol::UDP,
        }
    }

    /// Whether a lowercase alias names this server.
    pub fn matches(&self, alias: &Vec<char>) -> (b: bool)
        ensures
            b == server_matches(alias@, *self),
    {
        let name = to_chars(self.name.as_str());
        if starts_with(&name, alias) {
            return true;
        }
        let short = to_chars(self.alias.as_str());
        if starts_with(&short, alias) {
            return true;
        }
        let mut hyphens: Vec<char> = Vec::new();
        let mut i: usize = 0;
        while i < name.len()
            invariant
                i <= name.len(),
                hyphens@ == hyphenated(name@.take(i as int)),
            decreases name.len() - i,
        {
            let c = name[i];
            hyphens.push(if c == '_' { '-' } else { c });
            assert(hyphens@ =~= hyphenated(name@.take(i + 1)));
            i = i + 1;
        }
        assert(name@.take(name.len() as int) =~= name@);
        starts_with(&hyphens, alias)
    }

    /// Host, port, alias and transport, with the defaults filled in.
    pub fn endpoint(&self) -> (r: (String, u16, String, OpenVpnProtocol))
        ensures
            r.0@ == self.host@,
            r.1 == self.spec_port(),
            r.2@ == self.alias@,
            r.3 == self.spec_protocol(),
    {
        let port: u16 = match self.port {
            Some(p) => p,
            None => DEFAULT_PORT,
        };
        let protocol = match self.protocol {
            Some(p) => p,
            None => OpenVpnProtocol::UDP,
        };
        (self.host.clone(), port, self.alias.clone(), protocol)
    }
}

/// The positions of the servers that a lowercase alias names, in the order
/// of the list.
pub fn matching_servers(alias: &Vec<char>, serverlist: &[VpnServer]) -> (r: Vec<usize>)
    ensures
        forall|k: int|
            0 <= k < r@.len() ==> (#[trigger] r@[k]) < serverlist@.len() && server_matches(
                alias@,
                serverlist@[r@[k] as int],
            ),
        forall|i: int|
            0 <= i < serverlist@.len() && server_matches(alias@, #[trigger] serverlist@[i])
                ==> r@.contains(i as usize),
        forall|j: int, k: int| 0 <= j < k < r@.len() ==> r@[j] < r@[k],
{
    let mut r: Vec<usize> = Vec::new();
    let mut i: usize = 0;
    while i < serverlist.len()
        invariant
            i <= serverlist@.len(),
            forall|k: int|
                0 <= k < r@.len() ==> (#[trigger] r@[k]) < i && server_matches(
                    alias@,
                    serverlist@[r@[k] as int],
                ),
            forall|n: int|
                0 <= n < i && server_matches(alias@, #[trigger] serverlist@[n]) ==> r@.contains(
                    n as usize,
                ),
            forall|j: int, k: int| 0 <= j < k < r@.len() ==> r@[j] < r@[k],
        decreases serverlist@.len() - i,
    {
        if serverlist[i].matches(alias) {
            let ghost before = r@;
            r.push(i);
            assert(r@[before.len() as int] == i);
            assert forall|n: int|
                0 <= n < i + 1 && server_matches(alias@, #[trigger] serverlist@[n]) implies r@.contains(
                n as usize,
            ) by {
                if n < i {
                    let k = choose|k: int| 0 <= k < before.len() && before[k] == n as usize;
                    assert(r@[k] == n as usize);
                }
            }
        }
        i = i + 1;
    }
    r
}

/// One of the given positions, picked by `rand::seq::SliceRandom::choose`
/// with the generator that `rand::thread_rng` hands out: `None` for an empty
/// list, otherwise one of its elements. Which one is not determined, and two
/// calls on one list may differ. Believed from the crate's source; not proved
/// here. The generator seeds itself from the operating system when a thread
/// first uses it, and panics if the system gives it no seed.
#[verifier::external_body]
fn choose_one(candidates: &Vec<usize>) -> (r: Option<usize>)
    ensures
        match r {
            Some(i) => candidates@.contains(i),
            None => candidates@.len() == 0,
        },
{
    candidates.choose(&mut rand::thread_rng()).copied()
}

/// Picks a server for an alias and returns its host, port, alias and
/// transport.
///
/// The alias is compared in lowercase. Any matching server may be picked. The
/// call fails exactly when no server matches.
pub fn find_host_from_alias(alias: &str, serverlist: &[VpnServer]) -> (r: Result<
    (String, u16, String, OpenVpnProtocol),
    VpnError,
>)
    ensures
        match r {
            Ok((host, port, server_alias, protocol)) => exists|i: int|
                0 <= i < serverlist@.len() && server_matches(
                    lowercased(alias@),
                    #[trigger] serverlist@[i],
                ) && host@ == serverlist@[i].host@ && port == serverlist@[i].spec_port()
                    && server_alias@ == serverlist@[i].alias@ && protocol
                    == serverlist@[i].spec_protocol(),
            Err(e) => e == VpnError::NoMatchingServer && forall|i: int|
                0 <= i < serverlist@.len() ==> !server_matches(
                    lowercased(alias@),
                    #[trigger] serverlist@[i],
                ),
        },
{
    let lower = to_lowercase(alias);
    let lower = to_chars(lower.as_str());
    let candidates = matching_servers(&lower, serverlist);
    match choose_one(&candidates) {
        Some(i) => {
            proof {
                let k = choose|k: int| 0 <= k < candidates@.len() && candidates@[k] == i;
                assert(server_matches(lower@, serverlist@[candidates@[k] as int]));
            }
            Ok(serverlist[i].endpoint())
        },
        None => Err(VpnError::NoMatchingServer),
    }
}

/// The error type of the `csv` crate.
#[verifier::external_type_specification]
#[verifier::external_body]
pub struct ExCsvError(csv::Error);

/// One row of a server list as it is read: name, alias, host, port and the
/// name of the transport. An empty field in the last two columns is `None`.
pub type ServerRow = (String, String, String, Option<u16>, Option<String>);

/// What the `csv` crate reads from a headerless file into rows of three
/// strings, an optional 16-bit number and an optional string: the rows in
/// order, or `None` where it reports an error.
pub uninterp spec fn csv_rows(data: Seq<u8>) -> Option<
    Seq<(Seq<char>, Seq<char>, Seq<char>, Option<u16>, Option<Seq<char>>)>,
>;

/// Reads every row with `csv::Reader::deserialize`, on a reader built by
/// `csv::ReaderBuilder` without headers. The outcome depends on the bytes
/// alone; the first error ends the reading.
#[verifier::external_body]
fn read_rows(data: &[u8]) -> (r: Result<Vec<ServerRow>, csv::Error>)
    ensures
        match r {
            Ok(rows) => csv_rows(data@) == Some(rows.deep_view()),
            Err(_) => csv_rows(data@) is None,
        },
{
    csv::ReaderBuilder::new().has_headers(false).from_reader(data).deserialize().collect()
}

/// Whether a server holds what a row says. A row that names a transport
/// other than `UDP` or `TCP` describes no server.
pub open spec fn row_describes(
    row: (Seq<char>, Seq<char>, Seq<char>, Option<u16>, Option<Seq<char>>),
    server: VpnServer,
) -> bool {
    &&& server.name@ == row.0
    &&& server.alias@ == row.1
    &&& server.host@ == row.2
    &&& server.port == row.3
    &&& match row.4 {
        None => server.protocol is None,
        Some(name) => OpenVpnProtocol::named(name) is Some && server.protocol
            == OpenVpnProtocol::named(name),
    }
}

/// Whether a row names a transport that does not exist.
pub open spec fn row_is_bad(
    row: (Seq<char>, Seq<char>, Seq<char>, Option<u16>, Option<Seq<char>>),
) -> bool {
    row.4 matches Some(name) && OpenVpnProtocol::named(name) is None
}

/// The server that a row describes, if it describes one.
pub fn server_from_row(row: &ServerRow) -> (r: Option<VpnServer>)
    ensures
        match r {
            Some(server) => row_describes(row.deep_view(), server),
            None => row_is_bad(row.deep_view()),
        },
{
    let protocol = match &row.4 {
        None => None,
        Some(name) => match OpenVpnProtocol::from_name(name.as_str()) {
            Some(p) => Some(p),
            None => {
                return None;
            },
        },
    };
    Some(
        VpnServer {
            name: row.0.clone(),
            alias: row.1.clone(),
            host: row.2.clone(),
            port: row.3,
            protocol,
        },
    )
}

/// Whether a result is what a list of rows gives: the servers that the rows
/// describe, in order, or the error where a row names a transport that does
/// not exist.
pub open spec fn rows_give(
    rows: Seq<(Seq<char>, Seq<char>, Seq<char>, Option<u16>, Option<Seq<char>>)>,
    r: Result<Vec<VpnServer>, VpnError>,
) -> bool {
    match r {
        Ok(list) => list@.len() == rows.len() && forall|i: int|
            0 <= i < rows.len() ==> row_describes(#[trigger] rows[i], list@[i]),
        Err(e) => e == VpnError::MalformedServerList && exists|i: int|
            0 <= i < rows.len() && row_is_bad(#[trigger] rows[i]),
    }
}

/// The servers that a list of rows describes, in order. Fails exactly when
/// one of the rows names a transport that does not exist.
pub fn servers_from_rows(rows: &Vec<ServerRow>) -> (r: Result<Vec<VpnServer>, VpnError>)
    ensures
        rows_give(rows.deep_view(), r),
{
    let mut list: Vec<VpnServer> = Vec::new();
    let mut i: usize = 0;
    while i < rows.len()
        invariant
            i <= rows@.len(),
            list@.len() == i,
            rows.deep_view().len() == rows@.len(),
            forall|k: int|
                0 <= k < i ==> row_describes(#[trigger] rows.deep_view()[k], list@[k]),
        decreases rows@.len() - i,
    {
        match server_from_row(&rows[i]) {
            Some(server) => {
                list.push(server);
            },
            None => {
                assert(row_is_bad(rows.deep_view()[i as int]));
                return Err(VpnError::MalformedServerList);
            },
        }
        i = i + 1;
    }
    Ok(list)
}

/// Reads a provider's server list from the bytes of its file: headerless
/// CSV with the columns name, alias, host, port and transport, the last two
/// of which may be empty.
///
/// Succeeds exactly when the file reads as such rows and every transport
/// named is `UDP` or `TCP`; the servers then come in the order of the rows.
pub fn get_serverlist(data: &[u8]) -> (r: Result<Vec<VpnServer>, VpnError>)
    ensures
        match csv_rows(data@) {
            Some(rows) => rows_give(rows, r),
            None => r matches Err(e) && e == VpnError::MalformedServerList,
        },
{
    match read_rows(data) {
        Ok(rows) => servers_from_rows(&rows),
        Err(_) => Err(VpnError::MalformedServerList),
    }
}

} // verus!
