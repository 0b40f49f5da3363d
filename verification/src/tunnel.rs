//! The tunnel inside a namespace: how it is started, how its kill-switch is
//! put up, and when it counts as up.

use crate::address::IpAddress;
use crate::commands::{all_views, begin_inside, inside, no_commands, push_arg, push_command};
use crate::error::VpnError;
use crate::text::{decimal, push_decimal, to_chars, views};
use crate::vpn::OpenVpnProtocol;
use vstd::prelude::*;

verus! {

/// The seconds after which a tunnel that is not up is given up.
pub const TUNNEL_TIMEOUT_SECS: u64 = 30;

/// The seconds within which a WireGuard handshake must have happened where
/// the peer sends no keepalives.
pub const HANDSHAKE_MAX_AGE_SECS: u64 = 30;

/// Whether `needle` occurs in `hay`.
pub open spec fn contains_text(hay: Seq<char>, needle: Seq<char>) -> bool {
    exists|i: int| occurs_at(hay, needle, i)
}

/// Whether `needle` occurs in `hay` at position `i`.
pub open spec fn occurs_at(hay: Seq<char>, needle: Seq<char>, i: int) -> bool {
    0 <= i && i + needle.len() <= hay.len() && hay.subrange(i, i + needle.len()) == needle
}

fn occurs_here(hay: &Vec<char>, needle: &Vec<char>, at: usize) -> (r: bool)
    requires
        at + needle@.len() <= hay@.len(),
    ensures
        r == occurs_at(hay@, needle@, at as int),
{
    let bound: usize = hay.len();
    let mut k: usize = 0;
    while k < needle.len()
        invariant
            k <= needle@.len(),
            at + needle@.len() <= hay@.len(),
            hay@.len() == bound,
            forall|j: int| 0 <= j < k ==> hay@[at + j] == needle@[j],
        decreases needle@.len() - k,
    {
        if hay[at + k] != needle[k] {
            assert(hay@.subrange(at as int, at + needle@.len())[k as int] != needle@[k as int]);
            return false;
        }
        k = k + 1;
    }
    assert(hay@.subrange(at as int, at + needle@.len()) =~= needle@);
    true
}

/// Whether `needle` occurs in `hay`.
pub fn find_text(hay: &Vec<char>, needle: &Vec<char>) -> (r: bool)
    ensures
        r == contains_text(hay@, needle@),
{
    if needle.len() > hay.len() {
        return false;
    }
    let last: usize = hay.len() - needle.len();
    let mut i: usize = 0;
    loop
        invariant
            i <= last,
            last + needle@.len() == hay@.len(),
            forall|j: int| 0 <= j < i ==> !occurs_at(hay@, needle@, j),
        decreases last - i,
    {
        if occurs_here(hay, needle, i) {
            return true;
        }
        if i == last {
            return false;
        }
        i = i + 1;
    }
}

/// The words with which OpenVPN says that the tunnel is up.
pub open spec fn ready_token() -> Seq<char> {
    "Initialization Sequence Completed"@
}

/// Whether OpenVPN has said that the tunnel is up.
pub fn openvpn_is_ready(output: &str) -> (r: bool)
    ensures
        r == contains_text(output@, ready_token()),
{
    let hay = to_chars(output);
    let needle = to_chars("Initialization Sequence Completed");
    find_text(&hay, &needle)
}

/// How a tunnel that is being waited for stands.
#[derive(Clone, Copy, Debug, PartialEq, Eq, Structural)]
pub enum TunnelStatus {
    /// It is up.
    Ready,
    /// Its process has ended, with this exit code.
    Died(i32),
    /// It has not come up in time.
    TimedOut,
    /// It may still come up.
    Waiting,
}

impl TunnelStatus {
    /// The failure that a status stands for, if it stands for one.
    pub open spec fn spec_error(self) -> Option<VpnError> {
        match self {
            TunnelStatus::Died(_) => Some(VpnError::TunnelDied),
            TunnelStatus::TimedOut => Some(VpnError::TunnelNotReady),
            _ => None,
        }
    }

    /// The failure that a status stands for, if it stands for one.
    pub fn error(&self) -> (r: Option<VpnError>)
        ensures
            r == self.spec_error(),
    {
        match self {
            TunnelStatus::Died(_) => Some(VpnError::TunnelDied),
            TunnelStatus::TimedOut => Some(VpnError::TunnelNotReady),
            _ => None,
        }
    }
}

/// How an OpenVPN tunnel stands. A process that has ended has died, whatever
/// it printed; otherwise the tunnel is up once the words are seen, and given
/// up once the time is over.
pub open spec fn spec_openvpn_status(
    output: Seq<char>,
    exit_code: Option<i32>,
    elapsed_secs: u64,
) -> TunnelStatus {
    match exit_code {
        Some(code) => TunnelStatus::Died(code),
        None => if contains_text(output, ready_token()) {
            TunnelStatus::Ready
        } else if elapsed_secs >= TUNNEL_TIMEOUT_SECS {
            TunnelStatus::TimedOut
        } else {
            TunnelStatus::Waiting
        },
    }
}

/// How an OpenVPN tunnel stands, given what its process has printed so far,
/// its exit code if it has ended, and the seconds since its start.
pub fn openvpn_status(output: &str, exit_code: Option<i32>, elapsed_secs: u64) -> (r: TunnelStatus)
    ensures
        r == spec_openvpn_status(output@, exit_code, elapsed_secs),
{
    match exit_code {
        Some(code) => TunnelStatus::Died(code),
        None => {
            if openvpn_is_ready(output) {
                TunnelStatus::Ready
            } else if elapsed_secs >= TUNNEL_TIMEOUT_SECS {
                TunnelStatus::TimedOut
            } else {
                TunnelStatus::Waiting
            }
        },
    }
}

/// Whether a WireGuard handshake is recent enough: no older than three
/// keepalive intervals, or than thirty seconds where no keepalives are sent.
pub open spec fn handshake_is_fresh(age_secs: u64, keepalive_secs: Option<u64>) -> bool {
    match keepalive_secs {
        Some(k) => age_secs <= 3 * k,
        None => age_secs <= HANDSHAKE_MAX_AGE_SECS,
    }
}

/// How a WireGuard tunnel stands: up once the interface is up and the last
/// handshake is recent enough, given up once the time is over.
pub open spec fn spec_wireguard_status(
    interface_up: bool,
    handshake_age_secs: Option<u64>,
    keepalive_secs: Option<u64>,
    elapsed_secs: u64,
) -> TunnelStatus {
    if interface_up && handshake_age_secs is Some && handshake_is_fresh(
        handshake_age_secs->Some_0,
        keepalive_secs,
    ) {
        TunnelStatus::Ready
    } else if elapsed_secs >= TUNNEL_TIMEOUT_SECS {
        TunnelStatus::TimedOut
    } else {
        TunnelStatus::Waiting
    }
}

/// How a WireGuard tunnel stands, given whether its interface is up, the age
/// of the last handshake if there was one, the keepalive interval if one is
/// set, and the seconds since its start.
pub fn wireguard_status(
    interface_up: bool,
    handshake_age_secs: Option<u64>,
    keepalive_secs: Option<u64>,
    elapsed_secs: u64,
) -> (r: TunnelStatus)
    ensures
        r == spec_wireguard_status(interface_up, handshake_age_secs, keepalive_secs, elapsed_secs),
{
    let fresh = match handshake_age_secs {
        None => false,
        Some(age) => match keepalive_secs {
            Some(k) => age / 3 < k || (age / 3 == k && age % 3 == 0),
            None => age <= HANDSHAKE_MAX_AGE_SECS,
        },
    };
    if interface_up && fresh {
        TunnelStatus::Ready
    } else if elapsed_secs >= TUNNEL_TIMEOUT_SECS {
        TunnelStatus::TimedOut
    } else {
        TunnelStatus::Waiting
    }
}

/// The options that route each IPv4 name server through the tunnel.
pub open spec fn spec_routes(dns: Seq<IpAddress>) -> Seq<Seq<char>>
    decreases dns.len(),
{
    if dns.len() == 0 {
        Seq::empty()
    } else if dns.last() is V4 {
        spec_routes(dns.drop_last()) + seq!["--route"@, dns.last().spec_text()]
    } else {
        spec_routes(dns.drop_last())
    }
}

/// The command that starts OpenVPN inside a namespace: with the given
/// configuration, with the credentials file unless there is none, without
/// the routes that the server pushes, and with a route for each IPv4 name
/// server.
pub open spec fn spec_openvpn_command(
    namespace: Seq<char>,
    config: Seq<char>,
    auth: Option<Seq<char>>,
    dns: Seq<IpAddress>,
) -> Seq<Seq<char>> {
    inside(namespace) + seq!["openvpn"@, "--config"@, config] + match auth {
        Some(file) => seq!["--auth-user-pass"@, file],
        None => Seq::empty(),
    } + seq!["--route-nopull"@] + spec_routes(dns)
}

/// The command that starts OpenVPN inside a namespace.
pub fn openvpn_command(namespace: &str, config: &str, auth: Option<&str>, dns: &Vec<IpAddress>) -> (argv:
    Vec<String>)
    ensures
        views(argv@) == spec_openvpn_command(namespace@, config@, auth.deep_view(), dns@),
{
    let mut argv = begin_inside(namespace);
    push_arg(&mut argv, "openvpn");
    push_arg(&mut argv, "--config");
    push_arg(&mut argv, config);
    match auth {
        Some(file) => {
            push_arg(&mut argv, "--auth-user-pass");
            push_arg(&mut argv, file);
        },
        None => {},
    }
    push_arg(&mut argv, "--route-nopull");
    let ghost head = inside(namespace@) + seq!["openvpn"@, "--config"@, config@] + match auth.deep_view() {
        Some(file) => seq!["--auth-user-pass"@, file],
        None => Seq::empty(),
    } + seq!["--route-nopull"@];
    assert(views(argv@) =~= head);
    assert(dns@.take(0) =~= Seq::<IpAddress>::empty());
    let mut i: usize = 0;
    while i < dns.len()
        invariant
            i <= dns@.len(),
            views(argv@) == head + spec_routes(dns@.take(i as int)),
        decreases dns@.len() - i,
    {
        let ghost before = views(argv@);
        proof {
            let now = dns@.take(i + 1);
            assert(now.drop_last() =~= dns@.take(i as int));
            assert(now.last() == dns@[i as int]);
        }
        if dns[i].is_v4() {
            push_arg(&mut argv, "--route");
            push_arg(&mut argv, dns[i].text().as_str());
            assert(views(argv@) =~= before + seq!["--route"@, dns@[i as int].spec_text()]);
            assert(views(argv@) =~= head + spec_routes(dns@.take(i + 1)));
        }
        i = i + 1;
    }
    assert(dns@.take(dns@.len() as int) =~= dns@);
    argv
}

/// The kill-switch inside a namespace: what goes to the server's port may
/// leave, with what stays on the loopback interface where that is wanted,
/// and everything else is dropped.
pub open spec fn spec_killswitch(
    namespace: Seq<char>,
    loopback: bool,
    host: Seq<char>,
    port: u16,
    transport: OpenVpnProtocol,
) -> Seq<Seq<Seq<char>>> {
    (if loopback {
        seq![inside(namespace) + seq!["iptables"@, "-A"@, "OUTPUT"@, "-o"@, "lo"@, "-j"@, "ACCEPT"@]]
    } else {
        Seq::empty()
    }) + seq![
        inside(namespace) + seq![
            "iptables"@,
            "-A"@,
            "OUTPUT"@,
            "-d"@,
            host,
            "-p"@,
            transport.spec_text(),
            "--dport"@,
            decimal(port as nat),
            "-j"@,
            "ACCEPT"@,
        ],
        inside(namespace) + seq!["iptables"@, "-A"@, "OUTPUT"@, "-j"@, "DROP"@],
    ]
}

/// The commands that put up the kill-switch inside a namespace.
pub fn killswitch(
    namespace: &str,
    loopback: bool,
    host: &str,
    port: u16,
    transport: OpenVpnProtocol,
) -> (list: Vec<Vec<String>>)
    ensures
        all_views(list@) == spec_killswitch(namespace@, loopback, host@, port, transport),
{
    let mut list = no_commands();
    if loopback {
        let mut a = begin_inside(namespace);
        push_arg(&mut a, "iptables");
        push_arg(&mut a, "-A");
        push_arg(&mut a, "OUTPUT");
        push_arg(&mut a, "-o");
        push_arg(&mut a, "lo");
        push_arg(&mut a, "-j");
        push_arg(&mut a, "ACCEPT");
        assert(views(a@) =~= inside(namespace@) + seq![
            "iptables"@,
            "-A"@,
            "OUTPUT"@,
            "-o"@,
            "lo"@,
            "-j"@,
            "ACCEPT"@,
        ]);
        push_command(&mut list, a);
    }
    let mut digits = String::new();
    push_decimal(&mut digits, port as u64);
    assert(digits@ =~= decimal(port as nat));
    let mut b = begin_inside(namespace);
    push_arg(&mut b, "iptables");
    push_arg(&mut b, "-A");
    push_arg(&mut b, "OUTPUT");
    push_arg(&mut b, "-d");
    push_arg(&mut b, host);
    push_arg(&mut b, "-p");
    push_arg(&mut b, transport.to_string().as_str());
    push_arg(&mut b, "--dport");
    push_arg(&mut b, digits.as_str());
    push_arg(&mut b, "-j");
    push_arg(&mut b, "ACCEPT");
    assert(views(b@) =~= inside(namespace@) + seq![
        "iptables"@,
        "-A"@,
        "OUTPUT"@,
        "-d"@,
        host@,
        "-p"@,
        transport.spec_text(),
        "--dport"@,
        decimal(port as nat),
        "-j"@,
        "ACCEPT"@,
    ]);
    push_command(&mut list, b);
    let mut c = begin_inside(namespace);
    push_arg(&mut c, "iptables");
    push_arg(&mut c, "-A");
    push_arg(&mut c, "OUTPUT");
    push_arg(&mut c, "-j");
    push_arg(&mut c, "DROP");
    assert(views(c@) =~= inside(namespace@) + seq!["iptables"@, "-A"@, "OUTPUT"@, "-j"@, "DROP"@]);
    push_command(&mut list, c);
    assert(all_views(list@) =~= spec_killswitch(namespace@, loopback, host@, port, transport));
    list
}

} // verus!
