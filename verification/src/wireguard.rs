//! WireGuard: what a configuration file says, and the commands that apply it
//! inside a namespace.
//!
//! A configuration is a list of lines `key = value`; a value may hold several
//! items with commas between them, and a key may be set more than once. The
//! headings of its sections play no part here.

use crate::address::IpAddress;
use crate::commands::{all_views, begin_inside, inside, no_commands, push_arg, push_command};
use crate::parse::{
    number, pieces, position, position_of, read_number, split, split_on, trim, trimmed,
};
use crate::text::{from_chars, starts_with, to_chars, views};
use vstd::prelude::*;

verus! {

/// The name of the WireGuard device inside a namespace.
pub open spec fn device() -> Seq<char> {
    "wg0"@
}

/// Key and value of a line `key = value`, both without the blanks around
/// them. A line without `=` sets nothing.
pub open spec fn setting(line: Seq<char>) -> Option<(Seq<char>, Seq<char>)> {
    let p = position(line, '=');
    if p >= line.len() {
        None
    } else {
        Some((trimmed(line.subrange(0, p)), trimmed(line.subrange(p + 1, line.len() as int))))
    }
}

fn part_of(s: &Vec<char>, from: usize, to: usize) -> (r: Vec<char>)
    requires
        from <= to <= s@.len(),
    ensures
        r@ == s@.subrange(from as int, to as int),
{
    let mut r: Vec<char> = Vec::new();
    let mut i: usize = from;
    while i < to
        invariant
            from <= i <= to <= s@.len(),
            r@ == s@.subrange(from as int, i as int),
        decreases to - i,
    {
        r.push(s[i]);
        assert(r@ =~= s@.subrange(from as int, i + 1));
        i = i + 1;
    }
    r
}

fn same_chars(a: &Vec<char>, b: &Vec<char>) -> (r: bool)
    ensures
        r == (a@ == b@),
{
    if a.len() != b.len() {
        return false;
    }
    let r = starts_with(a, b);
    assert(r ==> a@ =~= b@);
    assert(a@ == b@ ==> b@ =~= a@.subrange(0, b@.len() as int));
    r
}

/// Reads key and value of a line.
pub fn read_setting(line: &Vec<char>) -> (r: Option<(Vec<char>, Vec<char>)>)
    ensures
        match r {
            Some((key, value)) => setting(line@) == Some((key@, value@)),
            None => setting(line@) is None,
        },
{
    let p = position_of(line, '=');
    if p >= line.len() {
        None
    } else {
        let key = trim(&part_of(line, 0, p));
        let value = trim(&part_of(line, p + 1, line.len()));
        Some((key, value))
    }
}

/// Each piece without the blanks around it.
pub open spec fn trimmed_all(parts: Seq<Seq<char>>) -> Seq<Seq<char>> {
    parts.map_values(|p: Seq<char>| trimmed(p))
}

/// The items that a line gives to a key: those of its value if it sets that
/// key, none otherwise.
pub open spec fn line_items(line: Seq<char>, key: Seq<char>) -> Seq<Seq<char>> {
    match setting(line) {
        Some((k, value)) => if k == key {
            trimmed_all(split(value, ','))
        } else {
            Seq::empty()
        },
        None => Seq::empty(),
    }
}

/// The items that a list of lines gives to a key, in order.
pub open spec fn lines_items(lines: Seq<Seq<char>>, key: Seq<char>) -> Seq<Seq<char>>
    decreases lines.len(),
{
    if lines.len() == 0 {
        Seq::empty()
    } else {
        lines_items(lines.drop_last(), key) + line_items(lines.last(), key)
    }
}

/// The items that a configuration gives to a key, in order.
pub open spec fn spec_items(config: Seq<char>, key: Seq<char>) -> Seq<Seq<char>> {
    lines_items(split(config, '\n'), key)
}

/// Appends to `out` the items that a line gives to a key.
pub fn push_line_items(out: &mut Vec<Vec<char>>, line: &Vec<char>, key: &Vec<char>)
    ensures
        pieces(final(out)@) == pieces(old(out)@) + line_items(line@, key@),
{
    let ghost start = pieces(out@);
    match read_setting(line) {
        None => {
            assert(pieces(out@) =~= start + line_items(line@, key@));
        },
        Some((k, value)) => {
            if same_chars(&k, key) {
                let parts = split_on(&value, ',');
                let ghost want = trimmed_all(split(value@, ','));
                let mut i: usize = 0;
                assert(start + want.take(0) =~= start);
                while i < parts.len()
                    invariant
                        i <= parts@.len(),
                        pieces(parts@) == split(value@, ','),
                        want == trimmed_all(split(value@, ',')),
                        pieces(out@) == start + want.take(i as int),
                    decreases parts@.len() - i,
                {
                    let item = trim(&parts[i]);
                    let ghost before = pieces(out@);
                    out.push(item);
                    proof {
                        assert(pieces(parts@)[i as int] == parts@[i as int]@);
                        assert(want[i as int] == trimmed(split(value@, ',')[i as int]));
                        assert(pieces(out@) =~= before.push(item@));
                        assert(want.take(i + 1) =~= want.take(i as int).push(want[i as int]));
                        assert(pieces(out@) =~= start + want.take(i + 1));
                    }
                    i = i + 1;
                }
                assert(want.take(want.len() as int) =~= want);
                assert(pieces(parts@).len() == parts@.len());
            } else {
                assert(pieces(out@) =~= start + line_items(line@, key@));
            }
        },
    }
}

/// The items that a configuration gives to a key, in order.
pub fn items(config: &Vec<char>, key: &str) -> (r: Vec<Vec<char>>)
    ensures
        pieces(r@) == spec_items(config@, key@),
{
    let key = to_chars(key);
    let lines = split_on(config, '\n');
    let mut r: Vec<Vec<char>> = Vec::new();
    let mut i: usize = 0;
    assert(pieces(r@) =~= Seq::<Seq<char>>::empty());
    assert(pieces(lines@).take(0) =~= Seq::<Seq<char>>::empty());
    while i < lines.len()
        invariant
            i <= lines@.len(),
            pieces(lines@).len() == lines@.len(),
            pieces(r@) == lines_items(pieces(lines@).take(i as int), key@),
        decreases lines@.len() - i,
    {
        proof {
            let now = pieces(lines@).take(i + 1);
            assert(now.drop_last() =~= pieces(lines@).take(i as int));
            assert(now.last() == lines@[i as int]@);
        }
        push_line_items(&mut r, &lines[i], &key);
        i = i + 1;
    }
    assert(pieces(lines@).take(lines@.len() as int) =~= pieces(lines@));
    r
}

/// The place of the last colon of a text, or -1 where there is none.
pub open spec fn last_colon(s: Seq<char>) -> int
    decreases s.len(),
{
    if s.len() == 0 {
        -1
    } else if s.last() == ':' {
        s.len() - 1
    } else {
        last_colon(s.drop_last())
    }
}

/// The last place at which a colon stands is the place of the last colon.
pub proof fn lemma_last_colon(s: Seq<char>, p: int)
    requires
        -1 <= p < s.len(),
        forall|j: int| p < j < s.len() ==> s[j] != ':',
        p >= 0 ==> s[p] == ':',
    ensures
        last_colon(s) == p,
    decreases s.len(),
{
    if s.len() > 0 && s.last() != ':' {
        let rest = s.drop_last();
        assert forall|j: int| p < j < rest.len() implies rest[j] != ':' by {
            assert(rest[j] == s[j]);
        }
        if p >= 0 {
            assert(rest[p] == s[p]);
        }
        lemma_last_colon(rest, p);
    }
}

/// Host and port of an endpoint `host:port`: what stands before the last
/// colon, and the number after it, which must be a port.
pub open spec fn endpoint_of(item: Seq<char>) -> Option<(Seq<char>, u16)> {
    let p = last_colon(item);
    if p < 0 {
        None
    } else {
        match number(item.subrange(p + 1, item.len() as int), 65535) {
            Some(port) => Some((item.subrange(0, p), port as u16)),
            None => None,
        }
    }
}

/// Reads host and port of an endpoint.
pub fn read_endpoint(item: &Vec<char>) -> (r: Option<(String, u16)>)
    ensures
        match r {
            Some((host, port)) => endpoint_of(item@) == Some((host@, port)),
            None => endpoint_of(item@) is None,
        },
{
    let mut k: usize = item.len();
    while k > 0 && item[k - 1] != ':'
        invariant
            k <= item@.len(),
            forall|j: int| k <= j < item@.len() ==> item@[j] != ':',
        decreases k,
    {
        k = k - 1;
    }
    proof {
        lemma_last_colon(item@, k as int - 1);
    }
    if k == 0 {
        return None;
    }
    let digits = part_of(item, k, item.len());
    match read_number(&digits, 65535) {
        Some(port) => {
            let host = part_of(item, 0, k - 1);
            Some((from_chars(&host), port as u16))
        },
        None => None,
    }
}

/// The IPv4 address that a text in dotted decimal stands for.
pub open spec fn ipv4_of(text: Seq<char>) -> Option<IpAddress> {
    let parts = split(text, '.');
    if parts.len() == 4 && number(parts[0], 255) is Some && number(parts[1], 255) is Some && number(
        parts[2],
        255,
    ) is Some && number(parts[3], 255) is Some {
        Some(
            IpAddress::V4(
                number(parts[0], 255)->Some_0 as u8,
                number(parts[1], 255)->Some_0 as u8,
                number(parts[2], 255)->Some_0 as u8,
                number(parts[3], 255)->Some_0 as u8,
            ),
        )
    } else {
        None
    }
}

/// Reads an IPv4 address in dotted decimal.
pub fn read_ipv4(text: &Vec<char>) -> (r: Option<IpAddress>)
    ensures
        r == ipv4_of(text@),
{
    let parts = split_on(text, '.');
    if parts.len() != 4 {
        assert(pieces(parts@).len() == parts@.len());
        return None;
    }
    assert(pieces(parts@)[0] == parts@[0]@);
    assert(pieces(parts@)[1] == parts@[1]@);
    assert(pieces(parts@)[2] == parts@[2]@);
    assert(pieces(parts@)[3] == parts@[3]@);
    let a = match read_number(&parts[0], 255) {
        Some(n) => n,
        None => {
            return None;
        },
    };
    let b = match read_number(&parts[1], 255) {
        Some(n) => n,
        None => {
            return None;
        },
    };
    let c = match read_number(&parts[2], 255) {
        Some(n) => n,
        None => {
            return None;
        },
    };
    let d = match read_number(&parts[3], 255) {
        Some(n) => n,
        None => {
            return None;
        },
    };
    Some(IpAddress::V4(a as u8, b as u8, c as u8, d as u8))
}

/// The IPv4 addresses among a list of items, in order.
pub open spec fn ipv4_among(list: Seq<Seq<char>>) -> Seq<IpAddress>
    decreases list.len(),
{
    if list.len() == 0 {
        Seq::empty()
    } else {
        match ipv4_of(list.last()) {
            Some(a) => ipv4_among(list.drop_last()).push(a),
            None => ipv4_among(list.drop_last()),
        }
    }
}

/// The keepalive interval that a list of items names: the first item, if it
/// is a number of seconds between 1 and 65535.
pub open spec fn keepalive_of(list: Seq<Seq<char>>) -> Option<u32> {
    if list.len() == 0 {
        None
    } else {
        match number(list[0], 65535) {
            Some(n) => if n > 0 {
                Some(n as u32)
            } else {
                None
            },
            None => None,
        }
    }
}

/// The endpoint that a list of items names: the first item, if it is an
/// endpoint.
pub open spec fn first_endpoint(list: Seq<Seq<char>>) -> Option<(Seq<char>, u16)> {
    if list.len() == 0 {
        None
    } else {
        endpoint_of(list[0])
    }
}

/// What of a configuration is needed to apply it.
pub struct WireguardConfig {
    /// The addresses of the device.
    pub addresses: Vec<String>,
    /// The IPv4 name servers.
    pub dns: Vec<IpAddress>,
    /// The networks that are routed through the tunnel.
    pub allowed_ips: Vec<String>,
    /// Host and port of the peer.
    pub endpoint: Option<(String, u16)>,
    /// The seconds between keepalives, if any are sent.
    pub keepalive: Option<u32>,
}

impl WireguardConfig {
    /// Whether this is what the text of a configuration says.
    pub open spec fn describes(self, config: Seq<char>) -> bool {
        &&& views(self.addresses@) == spec_items(config, "Address"@)
        &&& self.dns@ == ipv4_among(spec_items(config, "DNS"@))
        &&& views(self.allowed_ips@) == spec_items(config, "AllowedIPs"@)
        &&& self.endpoint.deep_view() == first_endpoint(spec_items(config, "Endpoint"@))
        &&& self.keepalive == keepalive_of(spec_items(config, "PersistentKeepalive"@))
    }
}

fn strings_of(list: &Vec<Vec<char>>) -> (r: Vec<String>)
    ensures
        views(r@) == pieces(list@),
{
    let mut r: Vec<String> = Vec::new();
    let mut i: usize = 0;
    while i < list.len()
        invariant
            i <= list@.len(),
            r@.len() == i,
            forall|k: int| 0 <= k < i ==> (#[trigger] r@[k])@ == list@[k]@,
        decreases list@.len() - i,
    {
        r.push(from_chars(&list[i]));
        i = i + 1;
    }
    assert(views(r@) =~= pieces(list@));
    r
}

fn addresses_of(list: &Vec<Vec<char>>) -> (r: Vec<IpAddress>)
    ensures
        r@ == ipv4_among(pieces(list@)),
{
    let mut r: Vec<IpAddress> = Vec::new();
    let mut i: usize = 0;
    assert(pieces(list@).take(0) =~= Seq::<Seq<char>>::empty());
    while i < list.len()
        invariant
            i <= list@.len(),
            pieces(list@).len() == list@.len(),
            r@ == ipv4_among(pieces(list@).take(i as int)),
        decreases list@.len() - i,
    {
        proof {
            let now = pieces(list@).take(i + 1);
            assert(now.drop_last() =~= pieces(list@).take(i as int));
            assert(now.last() == list@[i as int]@);
        }
        match read_ipv4(&list[i]) {
            Some(a) => {
                r.push(a);
            },
            None => {},
        }
        i = i + 1;
    }
    assert(pieces(list@).take(list@.len() as int) =~= pieces(list@));
    r
}

/// Reads from a configuration what is needed to apply it.
pub fn read_config(config: &str) -> (r: WireguardConfig)
    ensures
        r.describes(config@),
{
    let text = to_chars(config);
    let addresses = items(&text, "Address");
    let dns = items(&text, "DNS");
    let allowed = items(&text, "AllowedIPs");
    let endpoints = items(&text, "Endpoint");
    let keepalives = items(&text, "PersistentKeepalive");
    let endpoint = if endpoints.len() == 0 {
        None
    } else {
        assert(pieces(endpoints@)[0] == endpoints@[0]@);
        read_endpoint(&endpoints[0])
    };
    let keepalive = if keepalives.len() == 0 {
        None
    } else {
        assert(pieces(keepalives@)[0] == keepalives@[0]@);
        match read_number(&keepalives[0], 65535) {
            Some(n) => if n > 0 {
                Some(n)
            } else {
                None
            },
            None => None,
        }
    };
    assert(pieces(endpoints@).len() == endpoints@.len());
    assert(pieces(keepalives@).len() == keepalives@.len());
    WireguardConfig {
        addresses: strings_of(&addresses),
        dns: addresses_of(&dns),
        allowed_ips: strings_of(&allowed),
        endpoint,
        keepalive,
    }
}

/// The name servers of a namespace with a WireGuard tunnel: those asked for,
/// else those of the configuration, else the given defaults.
pub fn tunnel_dns(
    requested: Option<Vec<IpAddress>>,
    configured: Vec<IpAddress>,
    defaults: Vec<IpAddress>,
) -> (r: Vec<IpAddress>)
    ensures
        r@ == match requested {
            Some(asked) => asked@,
            None => if configured@.len() > 0 {
                configured@
            } else {
                defaults@
            },
        },
{
    match requested {
        Some(asked) => asked,
        None => if configured.len() > 0 {
            configured
        } else {
            defaults
        },
    }
}

/// The first configuration whose file stem begins with the alias of a
/// server, by its place in the list of stems.
pub fn config_for_alias(alias: &str, stems: &Vec<String>) -> (r: Option<usize>)
    ensures
        match r {
            Some(i) => i < stems@.len() && alias@.is_prefix_of(stems@[i as int]@) && forall|k: int|
                0 <= k < i ==> !alias@.is_prefix_of((#[trigger] stems@[k])@),
            None => forall|k: int|
                0 <= k < stems@.len() ==> !alias@.is_prefix_of((#[trigger] stems@[k])@),
        },
{
    let prefix = to_chars(alias);
    let mut i: usize = 0;
    while i < stems.len()
        invariant
            i <= stems@.len(),
            prefix@ == alias@,
            forall|k: int| 0 <= k < i ==> !alias@.is_prefix_of((#[trigger] stems@[k])@),
        decreases stems@.len() - i,
    {
        let stem = to_chars(stems[i].as_str());
        if starts_with(&stem, &prefix) {
            return Some(i);
        }
        i = i + 1;
    }
    None
}

/// Whether a key is one that only the wrapper script around `wg` knows.
pub open spec fn is_script_key(key: Seq<char>) -> bool {
    key == "Address"@ || key == "DNS"@ || key == "MTU"@ || key == "Table"@ || key == "PreUp"@
        || key == "PostUp"@ || key == "PreDown"@ || key == "PostDown"@ || key == "SaveConfig"@
}

/// Whether a line is kept when a configuration is handed to `wg`: it sets
/// nothing, or a key that `wg` knows.
pub open spec fn is_kept(line: Seq<char>) -> bool {
    match setting(line) {
        Some((key, _)) => !is_script_key(key),
        None => true,
    }
}

/// The lines that are kept, each followed by a line feed.
pub open spec fn kept_lines(lines: Seq<Seq<char>>) -> Seq<char>
    decreases lines.len(),
{
    if lines.len() == 0 {
        Seq::empty()
    } else if is_kept(lines.last()) {
        kept_lines(lines.drop_last()) + lines.last() + seq!['\n']
    } else {
        kept_lines(lines.drop_last())
    }
}

/// A configuration without the lines that only the wrapper script knows.
pub open spec fn spec_stripped(config: Seq<char>) -> Seq<char> {
    kept_lines(split(config, '\n'))
}

fn script_key(key: &Vec<char>) -> (r: bool)
    ensures
        r == is_script_key(key@),
{
    same_chars(key, &to_chars("Address")) || same_chars(key, &to_chars("DNS")) || same_chars(
        key,
        &to_chars("MTU"),
    ) || same_chars(key, &to_chars("Table")) || same_chars(key, &to_chars("PreUp")) || same_chars(
        key,
        &to_chars("PostUp"),
    ) || same_chars(key, &to_chars("PreDown")) || same_chars(key, &to_chars("PostDown"))
        || same_chars(key, &to_chars("SaveConfig"))
}

/// The configuration to hand to `wg`: the given one without the lines that
/// only the wrapper script knows.
pub fn stripped(config: &str) -> (r: String)
    ensures
        r@ == spec_stripped(config@),
{
    let text = to_chars(config);
    let lines = split_on(&text, '\n');
    let mut r: Vec<char> = Vec::new();
    let mut i: usize = 0;
    assert(pieces(lines@).take(0) =~= Seq::<Seq<char>>::empty());
    while i < lines.len()
        invariant
            i <= lines@.len(),
            pieces(lines@).len() == lines@.len(),
            r@ == kept_lines(pieces(lines@).take(i as int)),
        decreases lines@.len() - i,
    {
        proof {
            let now = pieces(lines@).take(i + 1);
            assert(now.drop_last() =~= pieces(lines@).take(i as int));
            assert(now.last() == lines@[i as int]@);
        }
        let keep = match read_setting(&lines[i]) {
            Some((key, _)) => !script_key(&key),
            None => true,
        };
        if keep {
            let ghost before = r@;
            let line = &lines[i];
            let mut k: usize = 0;
            while k < line.len()
                invariant
                    k <= line@.len(),
                    r@ == before + line@.take(k as int),
                decreases line@.len() - k,
            {
                r.push(line[k]);
                assert(r@ =~= before + line@.take(k + 1));
                k = k + 1;
            }
            r.push('\n');
            assert(line@.take(line@.len() as int) =~= line@);
            assert(r@ =~= before + line@ + seq!['\n']);
        }
        i = i + 1;
    }
    assert(pieces(lines@).take(lines@.len() as int) =~= pieces(lines@));
    from_chars(&r)
}

/// One command inside the namespace for each item: `ip <what> add <item> dev
/// wg0`.
pub open spec fn per_item(namespace: Seq<char>, what: Seq<char>, list: Seq<Seq<char>>) -> Seq<
    Seq<Seq<char>>,
>
    decreases list.len(),
{
    if list.len() == 0 {
        Seq::empty()
    } else {
        per_item(namespace, what, list.drop_last()).push(
            inside(namespace) + seq!["ip"@, what, "add"@, list.last(), "dev"@, device()],
        )
    }
}

/// The commands that apply a configuration inside a namespace: create the
/// device, load keys and peers from the file, give the device its addresses,
/// bring it up, and route the allowed networks through it.
pub open spec fn spec_wireguard_up(
    namespace: Seq<char>,
    config_path: Seq<char>,
    addresses: Seq<Seq<char>>,
    allowed_ips: Seq<Seq<char>>,
) -> Seq<Seq<Seq<char>>> {
    seq![
        inside(namespace) + seq!["ip"@, "link"@, "add"@, device(), "type"@, "wireguard"@],
        inside(namespace) + seq!["wg"@, "setconf"@, device(), config_path],
    ] + per_item(namespace, "addr"@, addresses) + seq![
        inside(namespace) + seq!["ip"@, "link"@, "set"@, device(), "up"@],
    ] + per_item(namespace, "route"@, allowed_ips)
}

/// The command that removes the device again.
pub open spec fn spec_wireguard_down(namespace: Seq<char>) -> Seq<Seq<char>> {
    inside(namespace) + seq!["ip"@, "link"@, "delete"@, device()]
}

fn push_per_item(out: &mut Vec<Vec<String>>, namespace: &str, what: &str, list: &Vec<String>)
    ensures
        all_views(final(out)@) == all_views(old(out)@) + per_item(namespace@, what@, views(list@)),
{
    let ghost start = all_views(out@);
    let mut i: usize = 0;
    assert(views(list@).take(0) =~= Seq::<Seq<char>>::empty());
    assert(start + per_item(namespace@, what@, views(list@).take(0)) =~= start);
    while i < list.len()
        invariant
            i <= list@.len(),
            views(list@).len() == list@.len(),
            all_views(out@) == start + per_item(namespace@, what@, views(list@).take(i as int)),
        decreases list@.len() - i,
    {
        let ghost before = all_views(out@);
        let mut a = begin_inside(namespace);
        push_arg(&mut a, "ip");
        push_arg(&mut a, what);
        push_arg(&mut a, "add");
        push_arg(&mut a, list[i].as_str());
        push_arg(&mut a, "dev");
        push_arg(&mut a, "wg0");
        proof {
            let now = views(list@).take(i + 1);
            assert(now.drop_last() =~= views(list@).take(i as int));
            assert(now.last() == list@[i as int]@);
            assert(views(a@) =~= inside(namespace@) + seq![
                "ip"@,
                what@,
                "add"@,
                list@[i as int]@,
                "dev"@,
                device(),
            ]);
        }
        push_command(out, a);
        assert(all_views(out@) =~= start + per_item(namespace@, what@, views(list@).take(i + 1)));
        i = i + 1;
    }
    assert(views(list@).take(list@.len() as int) =~= views(list@));
}

/// The commands that apply a configuration inside a namespace.
/// `config_path` names a file that holds the configuration's keys and peers.
pub fn wireguard_up(
    namespace: &str,
    config_path: &str,
    addresses: &Vec<String>,
    allowed_ips: &Vec<String>,
) -> (list: Vec<Vec<String>>)
    ensures
        all_views(list@) == spec_wireguard_up(
            namespace@,
            config_path@,
            views(addresses@),
            views(allowed_ips@),
        ),
{
    let mut list = no_commands();
    let mut a = begin_inside(namespace);
    push_arg(&mut a, "ip");
    push_arg(&mut a, "link");
    push_arg(&mut a, "add");
    push_arg(&mut a, "wg0");
    push_arg(&mut a, "type");
    push_arg(&mut a, "wireguard");
    assert(views(a@) =~= inside(namespace@) + seq![
        "ip"@,
        "link"@,
        "add"@,
        device(),
        "type"@,
        "wireguard"@,
    ]);
    push_command(&mut list, a);
    let mut b = begin_inside(namespace);
    push_arg(&mut b, "wg");
    push_arg(&mut b, "setconf");
    push_arg(&mut b, "wg0");
    push_arg(&mut b, config_path);
    assert(views(b@) =~= inside(namespace@) + seq!["wg"@, "setconf"@, device(), config_path@]);
    push_command(&mut list, b);
    let ghost head = all_views(list@);
    push_per_item(&mut list, namespace, "addr", addresses);
    let mut c = begin_inside(namespace);
    push_arg(&mut c, "ip");
    push_arg(&mut c, "link");
    push_arg(&mut c, "set");
    push_arg(&mut c, "wg0");
    push_arg(&mut c, "up");
    assert(views(c@) =~= inside(namespace@) + seq!["ip"@, "link"@, "set"@, device(), "up"@]);
    push_command(&mut list, c);
    push_per_item(&mut list, namespace, "route", allowed_ips);
    assert(all_views(list@) =~= spec_wireguard_up(
        namespace@,
        config_path@,
        views(addresses@),
        views(allowed_ips@),
    ));
    list
}

/// The command that removes the device again.
pub fn wireguard_down(namespace: &str) -> (argv: Vec<String>)
    ensures
        views(argv@) == spec_wireguard_down(namespace@),
{
    let mut argv = begin_inside(namespace);
    push_arg(&mut argv, "ip");
    push_arg(&mut argv, "link");
    push_arg(&mut argv, "delete");
    push_arg(&mut argv, "wg0");
    assert(views(argv@) =~= spec_wireguard_down(namespace@));
    argv
}

} // verus!
