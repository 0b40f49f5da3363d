//! Reading what the system reports: which interfaces carry a default route,
//! which namespaces exist, whether forwarding is on, where a process is
//! looked up.

use crate::parse::{number, pieces, read_number, split, split_on, trim, trimmed};
use crate::text::{decimal, from_chars, push_decimal, starts_with, to_chars, views};
use vstd::prelude::*;
use vstd::string::StringExecFns;

verus! {

/// The words of a line: what stands between its spaces, without blanks and
/// without what is empty.
pub open spec fn words_among(parts: Seq<Seq<char>>) -> Seq<Seq<char>>
    decreases parts.len(),
{
    if parts.len() == 0 {
        Seq::empty()
    } else if trimmed(parts.last()).len() > 0 {
        words_among(parts.drop_last()).push(trimmed(parts.last()))
    } else {
        words_among(parts.drop_last())
    }
}

/// The words of a line.
pub open spec fn words(line: Seq<char>) -> Seq<Seq<char>> {
    words_among(split(line, ' '))
}

/// The words of a line.
pub fn words_of(line: &Vec<char>) -> (r: Vec<Vec<char>>)
    ensures
        pieces(r@) == words(line@),
{
    let parts = split_on(line, ' ');
    let mut r: Vec<Vec<char>> = Vec::new();
    let mut i: usize = 0;
    assert(pieces(parts@).take(0) =~= Seq::<Seq<char>>::empty());
    assert(pieces(r@) =~= Seq::<Seq<char>>::empty());
    while i < parts.len()
        invariant
            i <= parts@.len(),
            pieces(parts@).len() == parts@.len(),
            pieces(r@) == words_among(pieces(parts@).take(i as int)),
        decreases parts@.len() - i,
    {
        proof {
            let now = pieces(parts@).take(i + 1);
            assert(now.drop_last() =~= pieces(parts@).take(i as int));
            assert(now.last() == parts@[i as int]@);
        }
        let word = trim(&parts[i]);
        if word.len() > 0 {
            let ghost before = pieces(r@);
            r.push(word);
            assert(pieces(r@) =~= before.push(word@));
        }
        i = i + 1;
    }
    assert(pieces(parts@).take(parts@.len() as int) =~= pieces(parts@));
    r
}

/// The word that follows the first occurrence of `key` among the words
/// before the last.
pub open spec fn word_after(ws: Seq<Seq<char>>, key: Seq<char>) -> Option<Seq<char>>
    decreases ws.len(),
{
    if ws.len() < 2 {
        None
    } else if ws.first() == key {
        Some(ws[1])
    } else {
        word_after(ws.drop_first(), key)
    }
}

fn same(a: &Vec<char>, b: &Vec<char>) -> (r: bool)
    ensures
        r == (a@ == b@),
{
    if a.len() != b.len() {
        return false;
    }
    let r = starts_with(a, b);
    assert(r ==> a@ =~= b@);
    assert(a@ == b@ ==> b@ =~= a@.subrange(0, b@.len() as int));
    r
}

/// The interface that a line of the routing table sends everything through:
/// the word after `dev`, if the line begins with `default`.
pub open spec fn route_interface(line: Seq<char>) -> Option<Seq<char>> {
    let ws = words(line);
    if ws.len() > 0 && ws.first() == "default"@ {
        word_after(ws, "dev"@)
    } else {
        None
    }
}

/// The interface that a line of the routing table sends everything through.
pub fn read_route_interface(line: &Vec<char>) -> (r: Option<String>)
    ensures
        match r {
            Some(name) => route_interface(line@) == Some(name@),
            None => route_interface(line@) is None,
        },
{
    let ws = words_of(line);
    let default = to_chars("default");
    let dev = to_chars("dev");
    assert(pieces(ws@).len() == ws@.len());
    if ws.len() == 0 {
        return None;
    }
    assert(pieces(ws@)[0] == ws@[0]@);
    if !same(&ws[0], &default) {
        return None;
    }
    let ghost all = pieces(ws@);
    let last: usize = ws.len() - 1;
    let mut i: usize = 0;
    assert(all.skip(0) =~= all);
    while i < last
        invariant
            i <= last,
            last + 1 == ws@.len(),
            all == pieces(ws@),
            all == words(line@),
            all.len() == ws@.len(),
            all.first() == "default"@,
            dev@ == "dev"@,
            word_after(all, "dev"@) == word_after(all.skip(i as int), "dev"@),
        decreases last - i,
    {
        let ghost rest = all.skip(i as int);
        assert(rest.first() == ws@[i as int]@);
        assert(rest[1] == ws@[i + 1]@);
        if same(&ws[i], &dev) {
            return Some(from_chars(&ws[i + 1]));
        }
        assert(rest.drop_first() =~= all.skip(i + 1));
        i = i + 1;
    }
    assert(all.skip(i as int).len() < 2);
    None
}

/// The interfaces named by the lines of a routing table, in order.
pub open spec fn route_interfaces(lines: Seq<Seq<char>>) -> Seq<Seq<char>>
    decreases lines.len(),
{
    if lines.len() == 0 {
        Seq::empty()
    } else {
        match route_interface(lines.last()) {
            Some(name) => route_interfaces(lines.drop_last()).push(name),
            None => route_interfaces(lines.drop_last()),
        }
    }
}

/// The interfaces that carry a default route, from what `ip route` prints.
pub fn default_route_interfaces(routes: &str) -> (r: Vec<String>)
    ensures
        views(r@) == route_interfaces(split(routes@, '\n')),
{
    let text = to_chars(routes);
    let lines = split_on(&text, '\n');
    let mut r: Vec<String> = Vec::new();
    let mut i: usize = 0;
    assert(pieces(lines@).take(0) =~= Seq::<Seq<char>>::empty());
    assert(views(r@) =~= Seq::<Seq<char>>::empty());
    while i < lines.len()
        invariant
            i <= lines@.len(),
            pieces(lines@).len() == lines@.len(),
            views(r@) == route_interfaces(pieces(lines@).take(i as int)),
        decreases lines@.len() - i,
    {
        proof {
            let now = pieces(lines@).take(i + 1);
            assert(now.drop_last() =~= pieces(lines@).take(i as int));
            assert(now.last() == lines@[i as int]@);
        }
        match read_route_interface(&lines[i]) {
            Some(name) => {
                let ghost before = views(r@);
                let ghost added = name@;
                r.push(name);
                assert(views(r@) =~= before.push(added));
            },
            None => {},
        }
        i = i + 1;
    }
    assert(pieces(lines@).take(lines@.len() as int) =~= pieces(lines@));
    r
}

/// The first words of the lines that have one, in order.
pub open spec fn first_words(lines: Seq<Seq<char>>) -> Seq<Seq<char>>
    decreases lines.len(),
{
    if lines.len() == 0 {
        Seq::empty()
    } else if words(lines.last()).len() > 0 {
        first_words(lines.drop_last()).push(words(lines.last()).first())
    } else {
        first_words(lines.drop_last())
    }
}

/// The namespaces that exist, from what `ip netns list` prints: the first
/// word of each line.
pub fn listed_namespaces(listing: &str) -> (r: Vec<String>)
    ensures
        views(r@) == first_words(split(listing@, '\n')),
{
    let text = to_chars(listing);
    let lines = split_on(&text, '\n');
    let mut r: Vec<String> = Vec::new();
    let mut i: usize = 0;
    assert(pieces(lines@).take(0) =~= Seq::<Seq<char>>::empty());
    assert(views(r@) =~= Seq::<Seq<char>>::empty());
    while i < lines.len()
        invariant
            i <= lines@.len(),
            pieces(lines@).len() == lines@.len(),
            views(r@) == first_words(pieces(lines@).take(i as int)),
        decreases lines@.len() - i,
    {
        proof {
            let now = pieces(lines@).take(i + 1);
            assert(now.drop_last() =~= pieces(lines@).take(i as int));
            assert(now.last() == lines@[i as int]@);
        }
        let ws = words_of(&lines[i]);
        assert(pieces(ws@).len() == ws@.len());
        if ws.len() > 0 {
            assert(pieces(ws@)[0] == ws@[0]@);
            let ghost before = views(r@);
            let s = from_chars(&ws[0]);
            r.push(s);
            assert(views(r@) =~= before.push(ws@[0]@));
        }
        i = i + 1;
    }
    assert(pieces(lines@).take(lines@.len() as int) =~= pieces(lines@));
    r
}

/// Whether forwarding is on, from the content of the kernel's switch: its
/// first line is `1`.
pub open spec fn spec_forwarding_is_on(content: Seq<char>) -> bool {
    trimmed(split(content, '\n').first()) == "1"@
}

/// Whether forwarding is on, from the content of the kernel's switch.
pub fn forwarding_is_on(content: &str) -> (r: bool)
    ensures
        r == spec_forwarding_is_on(content@),
{
    let text = to_chars(content);
    let lines = split_on(&text, '\n');
    assert(pieces(lines@)[0] == lines@[0]@);
    let first = trim(&lines[0]);
    let one = to_chars("1");
    same(&first, &one)
}

/// The age in seconds of a peer's last handshake, from the first line that
/// `wg show <device> latest-handshakes` prints: the peer's key, a tabulator,
/// and the time of the handshake in seconds. There is no age where that time
/// is missing, zero or in the future.
pub open spec fn spec_handshake_age(report: Seq<char>, now_secs: u64) -> Option<u64> {
    let parts = split(split(report, '\n').first(), '\t');
    if parts.len() < 2 {
        None
    } else {
        match number(trimmed(parts.last()), u32::MAX as nat) {
            Some(at) => if 0 < at <= now_secs {
                Some((now_secs - at) as u64)
            } else {
                None
            },
            None => None,
        }
    }
}

/// The age in seconds of a peer's last handshake.
pub fn handshake_age(report: &str, now_secs: u64) -> (r: Option<u64>)
    ensures
        r == spec_handshake_age(report@, now_secs),
{
    let text = to_chars(report);
    let lines = split_on(&text, '\n');
    assert(pieces(lines@)[0] == lines@[0]@);
    let parts = split_on(&lines[0], '\t');
    assert(pieces(parts@).len() == parts@.len());
    if parts.len() < 2 {
        return None;
    }
    assert(pieces(parts@)[parts@.len() - 1] == parts@[parts@.len() - 1]@);
    let stamp = trim(&parts[parts.len() - 1]);
    match read_number(&stamp, u32::MAX) {
        Some(at) => {
            if 0 < at && at as u64 <= now_secs {
                Some(now_secs - at as u64)
            } else {
                None
            }
        },
        None => None,
    }
}

/// Host and port that a line of an OpenVPN configuration names as the
/// server: the two words after `remote`.
pub open spec fn remote_of(line: Seq<char>) -> Option<(Seq<char>, u16)> {
    let ws = words(line);
    if ws.len() >= 3 && ws[0] == "remote"@ {
        match number(ws[2], 65535) {
            Some(port) => Some((ws[1], port as u16)),
            None => None,
        }
    } else {
        None
    }
}

/// The first server that the lines of an OpenVPN configuration name.
pub open spec fn first_remote(lines: Seq<Seq<char>>) -> Option<(Seq<char>, u16)>
    decreases lines.len(),
{
    if lines.len() == 0 {
        None
    } else {
        match remote_of(lines.first()) {
            Some(remote) => Some(remote),
            None => first_remote(lines.drop_first()),
        }
    }
}

/// The server that an OpenVPN configuration names first.
pub fn openvpn_remote(config: &str) -> (r: Option<(String, u16)>)
    ensures
        match r {
            Some((host, port)) => first_remote(split(config@, '\n')) == Some((host@, port)),
            None => first_remote(split(config@, '\n')) is None,
        },
{
    let text = to_chars(config);
    let lines = split_on(&text, '\n');
    let remote = to_chars("remote");
    let ghost all = pieces(lines@);
    let mut i: usize = 0;
    assert(all.skip(0) =~= all);
    while i < lines.len()
        invariant
            i <= lines@.len(),
            all == pieces(lines@),
            all == split(config@, '\n'),
            all.len() == lines@.len(),
            remote@ == "remote"@,
            first_remote(all) == first_remote(all.skip(i as int)),
        decreases lines@.len() - i,
    {
        let ghost rest = all.skip(i as int);
        assert(rest.first() == lines@[i as int]@);
        assert(rest.drop_first() =~= all.skip(i + 1));
        let ws = words_of(&lines[i]);
        assert(pieces(ws@).len() == ws@.len());
        if ws.len() >= 3 {
            assert(pieces(ws@)[0] == ws@[0]@);
            assert(pieces(ws@)[1] == ws@[1]@);
            assert(pieces(ws@)[2] == ws@[2]@);
            if same(&ws[0], &remote) {
                match read_number(&ws[2], 65535) {
                    Some(port) => {
                        let host = from_chars(&ws[1]);
                        return Some((host, port as u16));
                    },
                    None => {},
                }
            }
        }
        i = i + 1;
    }
    assert(all.skip(i as int).len() == 0);
    None
}

/// Where the kernel shows a process.
pub open spec fn spec_proc_path(pid: u32) -> Seq<char> {
    "/proc/"@ + decimal(pid as nat)
}

/// Where the kernel shows a process: the process is alive exactly while this
/// directory exists.
pub fn proc_path(pid: u32) -> (r: String)
    ensures
        r@ == spec_proc_path(pid),
{
    let mut r = "/proc/".to_owned();
    push_decimal(&mut r, pid as u64);
    r
}

} // verus!
