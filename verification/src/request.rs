//! From what the user asked for to what is to be run: provider, protocol,
//! server, namespace name, interface, name servers and user.

use crate::address::IpAddress;
use crate::error::VpnError;
use crate::filter::{lemma_filter_empty, lemma_filter_step};
use crate::text::to_chars;
use crate::vpn::{get_protocol, resolved_protocol, Protocol, VpnProvider};
use vstd::prelude::*;
use vstd::string::StringExecFns;

verus! {

/// The number of characters of a custom configuration's name that go into
/// the namespace name.
pub const SERVER_KEY_LEN: usize = 4;

/// Whether a character of a file name is kept in the server key.
pub open spec fn is_key_char(c: char) -> bool {
    c != ' ' && c != '-'
}

/// The condition that picks out the characters kept in a server key.
pub open spec fn key_chars() -> spec_fn(char) -> bool {
    |c: char| is_key_char(c)
}

/// The server key of a custom configuration: the first four characters of
/// its file stem once spaces and hyphens are taken out, or all of them where
/// there are fewer.
pub open spec fn spec_server_key(stem: Seq<char>) -> Seq<char> {
    let kept = stem.filter(key_chars());
    if kept.len() <= SERVER_KEY_LEN {
        kept
    } else {
        kept.take(SERVER_KEY_LEN as int)
    }
}

/// The server key of a custom configuration, from the stem of its file name.
pub fn server_key(stem: &str) -> (r: String)
    ensures
        r@ == spec_server_key(stem@),
{
    let chars = to_chars(stem);
    let ghost pred = key_chars();
    let mut kept: Vec<char> = Vec::new();
    let mut i: usize = 0;
    proof {
        lemma_filter_empty(chars@, pred);
    }
    while i < chars.len()
        invariant
            i <= chars@.len(),
            pred == key_chars(),
            kept@ == chars@.take(i as int).filter(pred),
            kept@.len() <= i,
        decreases chars@.len() - i,
    {
        proof {
            lemma_filter_step(chars@, pred, i as int);
        }
        let c = chars[i];
        if c != ' ' && c != '-' {
            kept.push(c);
        }
        i = i + 1;
    }
    assert(chars@.take(chars@.len() as int) =~= chars@);
    let mut r = String::new();
    let mut k: usize = 0;
    while k < kept.len() && k < SERVER_KEY_LEN
        invariant
            k <= kept@.len(),
            k <= SERVER_KEY_LEN,
            r@ == kept@.take(k as int),
        decreases kept@.len() - k,
    {
        r.push(kept[k]);
        assert(kept@.take(k + 1) =~= kept@.take(k as int).push(kept@[k as int]));
        k = k + 1;
    }
    assert(kept@.take(kept@.len() as int) =~= kept@);
    r
}

/// What is to be run: a provider, the protocol to speak, and the name of the
/// server.
pub struct Target {
    pub provider: VpnProvider,
    pub protocol: Protocol,
    pub server_name: String,
}

/// What a request resolves to.
///
/// With a custom configuration the protocol must be named; the provider is
/// then the custom one and the server name is the key of the file. Without
/// one, a provider other than the custom one and a server must be named, and
/// the protocol is the one that the provider is used with.
pub open spec fn resolved_target(
    custom_stem: Option<Seq<char>>,
    provider: Option<VpnProvider>,
    server: Option<Seq<char>>,
    protocol: Option<Protocol>,
) -> Result<(VpnProvider, Protocol, Seq<char>), VpnError> {
    match custom_stem {
        Some(stem) => match protocol {
            None => Err(VpnError::MissingProtocol),
            Some(p) => Ok((VpnProvider::Custom, p, spec_server_key(stem))),
        },
        None => match provider {
            None => Err(VpnError::MissingProvider),
            Some(VpnProvider::Custom) => Err(VpnError::MissingCustomConfig),
            Some(p) => match server {
                None => Err(VpnError::MissingServer),
                Some(name) => match resolved_protocol(p, protocol) {
                    Ok(proto) => Ok((p, proto, name)),
                    Err(e) => Err(e),
                },
            },
        },
    }
}

/// Resolves a request. `custom_stem` is the stem of the custom
/// configuration's file name, if such a file was given.
pub fn resolve_target(
    custom_stem: Option<&str>,
    provider: Option<VpnProvider>,
    server: Option<&str>,
    protocol: Option<Protocol>,
) -> (r: Result<Target, VpnError>)
    ensures
        match r {
            Ok(t) => resolved_target(
                custom_stem.deep_view(),
                provider,
                server.deep_view(),
                protocol,
            ) == Ok::<(VpnProvider, Protocol, Seq<char>), VpnError>(
                (t.provider, t.protocol, t.server_name@),
            ),
            Err(e) => resolved_target(
                custom_stem.deep_view(),
                provider,
                server.deep_view(),
                protocol,
            ) == Err::<(VpnProvider, Protocol, Seq<char>), VpnError>(e),
        },
{
    match custom_stem {
        Some(stem) => {
            if protocol.is_none() {
                return Err(VpnError::MissingProtocol);
            }
            let custom = VpnProvider::Custom;
            match get_protocol(&custom, protocol) {
                Ok(p) => Ok(Target { provider: custom, protocol: p, server_name: server_key(stem) }),
                Err(e) => Err(e),
            }
        },
        None => {
            let p = match provider {
                None => {
                    return Err(VpnError::MissingProvider);
                },
                Some(VpnProvider::Custom) => {
                    return Err(VpnError::MissingCustomConfig);
                },
                Some(p) => p,
            };
            let name = match server {
                None => {
                    return Err(VpnError::MissingServer);
                },
                Some(name) => name,
            };
            match get_protocol(&p, protocol) {
                Ok(proto) => Ok(Target { provider: p, protocol: proto, server_name: name.to_owned() }),
                Err(e) => Err(e),
            }
        },
    }
}

/// The name of the namespace for a provider and a server.
pub open spec fn spec_namespace_name(provider: VpnProvider, server_name: Seq<char>) -> Seq<char> {
    "vopono_"@ + provider.spec_alias() + seq!['_'] + server_name
}

/// The name of the namespace for a provider and a server.
pub fn namespace_name(provider: &VpnProvider, server_name: &str) -> (r: String)
    ensures
        r@ == spec_namespace_name(*provider, server_name@),
{
    let mut r = "vopono_".to_owned();
    r.append(provider.alias().as_str());
    r.push('_');
    r.append(server_name);
    assert(r@ =~= spec_namespace_name(*provider, server_name@));
    r
}

/// A namespace name belongs to one provider and one server: two requests
/// get the same name only if they name the same provider and the same
/// server, and then they share the namespace.
pub proof fn namespace_name_is_unique(
    p1: VpnProvider,
    s1: Seq<char>,
    p2: VpnProvider,
    s2: Seq<char>,
)
    requires
        spec_namespace_name(p1, s1) == spec_namespace_name(p2, s2),
    ensures
        p1 == p2,
        s1 == s2,
{
    reveal_strlit("vopono_");
    reveal_strlit("pia");
    reveal_strlit("mv");
    reveal_strlit("tig");
    reveal_strlit("cus");
    let n1 = spec_namespace_name(p1, s1);
    let n2 = spec_namespace_name(p2, s2);
    assert(n1[7] == p1.spec_alias()[0]);
    assert(n2[7] == p2.spec_alias()[0]);
    assert(p1 == p2);
    let head = 8 + p1.spec_alias().len();
    assert(s1 =~= n1.subrange(head as int, n1.len() as int));
    assert(s2 =~= n2.subrange(head as int, n2.len() as int));
}

/// Every namespace name marks the namespace as this tool's.
pub proof fn namespace_name_has_prefix(provider: VpnProvider, server_name: Seq<char>)
    ensures
        "vopono_"@.is_prefix_of(spec_namespace_name(provider, server_name)),
{
    let name = spec_namespace_name(provider, server_name);
    assert("vopono_"@ =~= name.subrange(0, "vopono_"@.len() as int));
}

/// Where a provider's files for a protocol are kept, below the configuration
/// directory.
pub open spec fn spec_provider_dir(provider: VpnProvider, protocol: Protocol) -> Seq<char> {
    "vopono/"@ + provider.spec_alias() + seq!['/'] + protocol.spec_dir_name()
}

/// Where a provider's files for a protocol are kept, below the configuration
/// directory.
pub fn provider_dir(provider: &VpnProvider, protocol: &Protocol) -> (r: String)
    ensures
        r@ == spec_provider_dir(*provider, *protocol),
{
    let mut r = "vopono/".to_owned();
    r.append(provider.alias().as_str());
    r.push('/');
    r.append(protocol.dir_name().as_str());
    assert(r@ =~= spec_provider_dir(*provider, *protocol));
    r
}

/// Where a provider's server list is kept, below the configuration
/// directory.
pub open spec fn spec_serverlist_path(provider: VpnProvider) -> Seq<char> {
    "vopono/"@ + provider.spec_alias() + "/openvpn/serverlist.csv"@
}

/// Where a provider's server list is kept, below the configuration
/// directory.
pub fn serverlist_path(provider: &VpnProvider) -> (r: String)
    ensures
        r@ == spec_serverlist_path(*provider),
{
    let mut r = "vopono/".to_owned();
    r.append(provider.alias().as_str());
    r.append("/openvpn/serverlist.csv");
    r
}

/// Whether a provider's files have to be fetched before going on: they are
/// missing or their directory is empty. A custom configuration brings its
/// own file.
pub fn needs_sync(provider: &VpnProvider, dir_exists: bool, dir_is_empty: bool) -> (r: bool)
    ensures
        r == (*provider != VpnProvider::Custom && (!dir_exists || dir_is_empty)),
{
    match provider {
        VpnProvider::Custom => false,
        _ => !dir_exists || dir_is_empty,
    }
}

/// The host interface to send through: the one asked for, else the first
/// active one.
pub fn select_interface(requested: Option<String>, active: &Vec<String>) -> (r: Result<
    String,
    VpnError,
>)
    ensures
        match r {
            Ok(name) => match requested {
                Some(asked) => name@ == asked@,
                None => active@.len() > 0 && name@ == active@[0]@,
            },
            Err(e) => e == VpnError::NoActiveInterface && requested is None && active@.len() == 0,
        },
{
    match requested {
        Some(asked) => Ok(asked),
        None => {
            if active.len() > 0 {
                Ok(active[0].clone())
            } else {
                Err(VpnError::NoActiveInterface)
            }
        },
    }
}

/// The name servers for the namespace: those asked for, else the provider's.
pub fn select_dns(requested: Option<Vec<IpAddress>>, provider: &VpnProvider) -> (r: Vec<IpAddress>)
    ensures
        r@ == match requested {
            Some(asked) => asked@,
            None => provider.spec_dns(),
        },
{
    match requested {
        Some(asked) => asked,
        None => match provider.dns() {
            Ok(v) => v,
            Err(_) => Vec::new(),
        },
    }
}

/// The user to run the application as: the one asked for, else the one who
/// called `sudo`. Without either the application would run as root, which has
/// to be allowed.
pub open spec fn chosen_user(
    requested: Option<Seq<char>>,
    sudo_user: Option<Seq<char>>,
    allow_root: bool,
) -> Result<Option<Seq<char>>, VpnError> {
    match requested {
        Some(u) => Ok(Some(u)),
        None => match sudo_user {
            Some(u) => Ok(Some(u)),
            None => if allow_root {
                Ok(None)
            } else {
                Err(VpnError::RootRefused)
            },
        },
    }
}

/// The user to run the application as; `None` stands for root.
pub fn select_user(requested: Option<String>, sudo_user: Option<String>, allow_root: bool) -> (r:
    Result<Option<String>, VpnError>)
    ensures
        match r {
            Ok(u) => chosen_user(requested.deep_view(), sudo_user.deep_view(), allow_root) == Ok::<
                Option<Seq<char>>,
                VpnError,
            >(u.deep_view()),
            Err(e) => chosen_user(requested.deep_view(), sudo_user.deep_view(), allow_root) == Err::<
                Option<Seq<char>>,
                VpnError,
            >(e),
        },
{
    match requested {
        Some(u) => Ok(Some(u)),
        None => match sudo_user {
            Some(u) => Ok(Some(u)),
            None => if allow_root {
                Ok(None)
            } else {
                Err(VpnError::RootRefused)
            },
        },
    }
}

} // verus!
