//! The command lines and files that build a namespace and dismantle it.
//!
//! A command line is a list of words, the program first. Nothing is run
//! here: the caller runs what these functions hand out.

use crate::address::IpAddress;
use crate::lifecycle::Step;
use crate::subnet::TargetSubnet;
use crate::text::views;
use vstd::prelude::*;
use vstd::string::StringExecFns;

verus! {

/// The words of each of a list of command lines.
pub open spec fn all_views(v: Seq<Vec<String>>) -> Seq<Seq<Seq<char>>> {
    v.map_values(|c: Vec<String>| views(c@))
}

/// Appends a word to a command line.
pub fn push_arg(argv: &mut Vec<String>, arg: &str)
    ensures
        views(final(argv)@) == views(old(argv)@).push(arg@),
{
    argv.push(arg.to_owned());
    assert(views(argv@) =~= views(old(argv)@).push(arg@));
}

/// Appends a command line to a list of them.
pub fn push_command(list: &mut Vec<Vec<String>>, argv: Vec<String>)
    ensures
        all_views(final(list)@) == all_views(old(list)@).push(views(argv@)),
{
    list.push(argv);
    assert(all_views(list@) =~= all_views(old(list)@).push(views(argv@)));
}

/// A command line that starts with nothing.
pub fn no_args() -> (argv: Vec<String>)
    ensures
        views(argv@) == Seq::<Seq<char>>::empty(),
{
    let argv: Vec<String> = Vec::new();
    assert(views(argv@) =~= Seq::<Seq<char>>::empty());
    argv
}

/// A list of no command lines.
pub fn no_commands() -> (list: Vec<Vec<String>>)
    ensures
        all_views(list@) == Seq::<Seq<Seq<char>>>::empty(),
{
    let list: Vec<Vec<String>> = Vec::new();
    assert(all_views(list@) =~= Seq::<Seq<Seq<char>>>::empty());
    list
}

/// The words that make a command run inside a namespace.
pub open spec fn inside(namespace: Seq<char>) -> Seq<Seq<char>> {
    seq!["ip"@, "netns"@, "exec"@, namespace]
}

/// The beginning of a command line that runs inside a namespace.
pub fn begin_inside(namespace: &str) -> (argv: Vec<String>)
    ensures
        views(argv@) == inside(namespace@),
{
    let mut argv = no_args();
    push_arg(&mut argv, "ip");
    push_arg(&mut argv, "netns");
    push_arg(&mut argv, "exec");
    push_arg(&mut argv, namespace);
    assert(views(argv@) =~= inside(namespace@));
    argv
}

/// The command that creates a kernel namespace.
pub open spec fn spec_namespace_add(namespace: Seq<char>) -> Seq<Seq<char>> {
    seq!["ip"@, "netns"@, "add"@, namespace]
}

/// The command that deletes a kernel namespace.
pub open spec fn spec_namespace_delete(namespace: Seq<char>) -> Seq<Seq<char>> {
    seq!["ip"@, "netns"@, "delete"@, namespace]
}

/// The command that creates a kernel namespace.
pub fn namespace_add(namespace: &str) -> (argv: Vec<String>)
    ensures
        views(argv@) == spec_namespace_add(namespace@),
{
    let mut argv = no_args();
    push_arg(&mut argv, "ip");
    push_arg(&mut argv, "netns");
    push_arg(&mut argv, "add");
    push_arg(&mut argv, namespace);
    assert(views(argv@) =~= spec_namespace_add(namespace@));
    argv
}

/// The command that deletes a kernel namespace.
pub fn namespace_delete(namespace: &str) -> (argv: Vec<String>)
    ensures
        views(argv@) == spec_namespace_delete(namespace@),
{
    let mut argv = no_args();
    push_arg(&mut argv, "ip");
    push_arg(&mut argv, "netns");
    push_arg(&mut argv, "delete");
    push_arg(&mut argv, namespace);
    assert(views(argv@) =~= spec_namespace_delete(namespace@));
    argv
}

/// The commands that bring the loopback interface up inside a namespace.
pub open spec fn spec_loopback_up(namespace: Seq<char>) -> Seq<Seq<Seq<char>>> {
    seq![
        inside(namespace) + seq!["ip"@, "addr"@, "add"@, "127.0.0.1/8"@, "dev"@, "lo"@],
        inside(namespace) + seq!["ip"@, "link"@, "set"@, "lo"@, "up"@],
    ]
}

/// The commands that bring the loopback interface up inside a namespace.
pub fn loopback_up(namespace: &str) -> (list: Vec<Vec<String>>)
    ensures
        all_views(list@) == spec_loopback_up(namespace@),
{
    let mut list = no_commands();
    let mut a = begin_inside(namespace);
    push_arg(&mut a, "ip");
    push_arg(&mut a, "addr");
    push_arg(&mut a, "add");
    push_arg(&mut a, "127.0.0.1/8");
    push_arg(&mut a, "dev");
    push_arg(&mut a, "lo");
    assert(views(a@) =~= spec_loopback_up(namespace@)[0]);
    push_command(&mut list, a);
    let mut b = begin_inside(namespace);
    push_arg(&mut b, "ip");
    push_arg(&mut b, "link");
    push_arg(&mut b, "set");
    push_arg(&mut b, "lo");
    push_arg(&mut b, "up");
    assert(views(b@) =~= spec_loopback_up(namespace@)[1]);
    push_command(&mut list, b);
    assert(all_views(list@) =~= spec_loopback_up(namespace@));
    list
}

/// The name of the host end of a namespace's veth pair.
pub open spec fn spec_veth_host(namespace: Seq<char>) -> Seq<char> {
    namespace + "_s"@
}

/// The name of the namespace end of a namespace's veth pair.
pub open spec fn spec_veth_peer(namespace: Seq<char>) -> Seq<char> {
    namespace + "_d"@
}

/// The name of the host end of a namespace's veth pair.
pub fn veth_host(namespace: &str) -> (r: String)
    ensures
        r@ == spec_veth_host(namespace@),
{
    let mut r = namespace.to_owned();
    r.append("_s");
    r
}

/// The name of the namespace end of a namespace's veth pair.
pub fn veth_peer(namespace: &str) -> (r: String)
    ensures
        r@ == spec_veth_peer(namespace@),
{
    let mut r = namespace.to_owned();
    r.append("_d");
    r
}

/// The commands that create the veth pair, move one end into the namespace
/// and bring both ends up.
pub open spec fn spec_veth_add(namespace: Seq<char>) -> Seq<Seq<Seq<char>>> {
    let host = spec_veth_host(namespace);
    let peer = spec_veth_peer(namespace);
    seq![
        seq!["ip"@, "link"@, "add"@, host, "type"@, "veth"@, "peer"@, "name"@, peer],
        seq!["ip"@, "link"@, "set"@, peer, "netns"@, namespace],
        seq!["ip"@, "link"@, "set"@, host, "up"@],
        inside(namespace) + seq!["ip"@, "link"@, "set"@, peer, "up"@],
    ]
}

/// The command that deletes the veth pair.
pub open spec fn spec_veth_delete(namespace: Seq<char>) -> Seq<Seq<char>> {
    seq!["ip"@, "link"@, "delete"@, spec_veth_host(namespace)]
}

/// The commands that create the veth pair, move one end into the namespace
/// and bring both ends up.
pub fn veth_add(namespace: &str) -> (list: Vec<Vec<String>>)
    ensures
        all_views(list@) == spec_veth_add(namespace@),
{
    let host = veth_host(namespace);
    let peer = veth_peer(namespace);
    let mut list = no_commands();
    let mut a = no_args();
    push_arg(&mut a, "ip");
    push_arg(&mut a, "link");
    push_arg(&mut a, "add");
    push_arg(&mut a, host.as_str());
    push_arg(&mut a, "type");
    push_arg(&mut a, "veth");
    push_arg(&mut a, "peer");
    push_arg(&mut a, "name");
    push_arg(&mut a, peer.as_str());
    assert(views(a@) =~= spec_veth_add(namespace@)[0]);
    push_command(&mut list, a);
    let mut b = no_args();
    push_arg(&mut b, "ip");
    push_arg(&mut b, "link");
    push_arg(&mut b, "set");
    push_arg(&mut b, peer.as_str());
    push_arg(&mut b, "netns");
    push_arg(&mut b, namespace);
    assert(views(b@) =~= spec_veth_add(namespace@)[1]);
    push_command(&mut list, b);
    let mut c = no_args();
    push_arg(&mut c, "ip");
    push_arg(&mut c, "link");
    push_arg(&mut c, "set");
    push_arg(&mut c, host.as_str());
    push_arg(&mut c, "up");
    assert(views(c@) =~= spec_veth_add(namespace@)[2]);
    push_command(&mut list, c);
    let mut d = begin_inside(namespace);
    push_arg(&mut d, "ip");
    push_arg(&mut d, "link");
    push_arg(&mut d, "set");
    push_arg(&mut d, peer.as_str());
    push_arg(&mut d, "up");
    assert(views(d@) =~= spec_veth_add(namespace@)[3]);
    push_command(&mut list, d);
    assert(all_views(list@) =~= spec_veth_add(namespace@));
    list
}

/// The command that deletes the veth pair.
pub fn veth_delete(namespace: &str) -> (argv: Vec<String>)
    ensures
        views(argv@) == spec_veth_delete(namespace@),
{
    let host = veth_host(namespace);
    let mut argv = no_args();
    push_arg(&mut argv, "ip");
    push_arg(&mut argv, "link");
    push_arg(&mut argv, "delete");
    push_arg(&mut argv, host.as_str());
    assert(views(argv@) =~= spec_veth_delete(namespace@));
    argv
}

/// An address with the length of the /24 it lies in.
pub open spec fn spec_with_prefix(address: IpAddress) -> Seq<char> {
    address.spec_text() + "/24"@
}

/// An address with the length of the /24 it lies in.
pub fn with_prefix(address: &IpAddress) -> (r: String)
    ensures
        r@ == spec_with_prefix(*address),
{
    let mut r = address.text();
    r.append("/24");
    r
}

/// The commands that give both ends of the veth pair their addresses and
/// route everything inside the namespace through the host end.
pub open spec fn spec_routing_add(namespace: Seq<char>, subnet: TargetSubnet) -> Seq<
    Seq<Seq<char>>,
> {
    let host = spec_veth_host(namespace);
    let peer = spec_veth_peer(namespace);
    seq![
        seq!["ip"@, "addr"@, "add"@, spec_with_prefix(subnet.spec_host_ip()), "dev"@, host],
        inside(namespace) + seq![
            "ip"@,
            "addr"@,
            "add"@,
            spec_with_prefix(subnet.spec_namespace_ip()),
            "dev"@,
            peer,
        ],
        inside(namespace) + seq![
            "ip"@,
            "route"@,
            "add"@,
            "default"@,
            "via"@,
            subnet.spec_host_ip().spec_text(),
            "dev"@,
            peer,
        ],
    ]
}

/// The commands that give both ends of the veth pair their addresses and
/// route everything inside the namespace through the host end.
pub fn routing_add(namespace: &str, subnet: &TargetSubnet) -> (list: Vec<Vec<String>>)
    ensures
        all_views(list@) == spec_routing_add(namespace@, *subnet),
{
    let host = veth_host(namespace);
    let peer = veth_peer(namespace);
    let host_ip = subnet.host_ip();
    let peer_ip = subnet.namespace_ip();
    let mut list = no_commands();
    let mut a = no_args();
    push_arg(&mut a, "ip");
    push_arg(&mut a, "addr");
    push_arg(&mut a, "add");
    push_arg(&mut a, with_prefix(&host_ip).as_str());
    push_arg(&mut a, "dev");
    push_arg(&mut a, host.as_str());
    assert(views(a@) =~= spec_routing_add(namespace@, *subnet)[0]);
    push_command(&mut list, a);
    let mut b = begin_inside(namespace);
    push_arg(&mut b, "ip");
    push_arg(&mut b, "addr");
    push_arg(&mut b, "add");
    push_arg(&mut b, with_prefix(&peer_ip).as_str());
    push_arg(&mut b, "dev");
    push_arg(&mut b, peer.as_str());
    assert(views(b@) =~= spec_routing_add(namespace@, *subnet)[1]);
    push_command(&mut list, b);
    let mut c = begin_inside(namespace);
    push_arg(&mut c, "ip");
    push_arg(&mut c, "route");
    push_arg(&mut c, "add");
    push_arg(&mut c, "default");
    push_arg(&mut c, "via");
    push_arg(&mut c, host_ip.text().as_str());
    push_arg(&mut c, "dev");
    push_arg(&mut c, peer.as_str());
    assert(views(c@) =~= spec_routing_add(namespace@, *subnet)[2]);
    push_command(&mut list, c);
    assert(all_views(list@) =~= spec_routing_add(namespace@, *subnet));
    list
}

/// Whether firewall rules are put in or taken out.
#[derive(Clone, Copy, Debug, PartialEq, Eq, Structural)]
pub enum RuleOp {
    Insert,
    Delete,
}

impl RuleOp {
    /// The option of `iptables` for this operation.
    pub open spec fn spec_flag(self) -> Seq<char> {
        match self {
            RuleOp::Insert => "-I"@,
            RuleOp::Delete => "-D"@,
        }
    }

    /// The option of `iptables` for this operation.
    pub fn flag(&self) -> (r: String)
        ensures
            r@ == self.spec_flag(),
    {
        match self {
            RuleOp::Insert => "-I".to_owned(),
            RuleOp::Delete => "-D".to_owned(),
        }
    }
}

/// The words that tag a rule with the name of its namespace.
pub open spec fn tag(namespace: Seq<char>) -> Seq<Seq<char>> {
    seq!["-m"@, "comment"@, "--comment"@, namespace]
}

/// The three rules on the host, each tagged with the namespace's name:
/// masquerade what comes from the namespace's network and leaves through the
/// host interface; forward from the veth pair to the host interface; forward
/// back what belongs to connections that exist.
pub open spec fn spec_host_rules(
    op: RuleOp,
    namespace: Seq<char>,
    subnet: TargetSubnet,
    interface: Seq<char>,
) -> Seq<Seq<Seq<char>>> {
    let veth = spec_veth_host(namespace);
    seq![
        seq![
            "iptables"@,
            "-t"@,
            "nat"@,
            op.spec_flag(),
            "POSTROUTING"@,
            "-s"@,
            subnet.spec_cidr(),
            "-o"@,
            interface,
            "-j"@,
            "MASQUERADE"@,
        ] + tag(namespace),
        seq![
            "iptables"@,
            "-t"@,
            "filter"@,
            op.spec_flag(),
            "FORWARD"@,
            "-i"@,
            veth,
            "-o"@,
            interface,
            "-j"@,
            "ACCEPT"@,
        ] + tag(namespace),
        seq![
            "iptables"@,
            "-t"@,
            "filter"@,
            op.spec_flag(),
            "FORWARD"@,
            "-i"@,
            interface,
            "-o"@,
            veth,
            "-m"@,
            "state"@,
            "--state"@,
            "RELATED,ESTABLISHED"@,
            "-j"@,
            "ACCEPT"@,
        ] + tag(namespace),
    ]
}

fn push_tag(argv: &mut Vec<String>, namespace: &str)
    ensures
        views(final(argv)@) == views(old(argv)@) + tag(namespace@),
{
    push_arg(argv, "-m");
    push_arg(argv, "comment");
    push_arg(argv, "--comment");
    push_arg(argv, namespace);
    assert(views(argv@) =~= views(old(argv)@) + tag(namespace@));
}

/// The commands that put the three rules on the host in, or take exactly
/// those out again.
pub fn host_rules(op: RuleOp, namespace: &str, subnet: &TargetSubnet, interface: &str) -> (list:
    Vec<Vec<String>>)
    ensures
        all_views(list@) == spec_host_rules(op, namespace@, *subnet, interface@),
{
    let veth = veth_host(namespace);
    let flag = op.flag();
    let ghost want = spec_host_rules(op, namespace@, *subnet, interface@);
    let mut list = no_commands();
    let mut a = no_args();
    push_arg(&mut a, "iptables");
    push_arg(&mut a, "-t");
    push_arg(&mut a, "nat");
    push_arg(&mut a, flag.as_str());
    push_arg(&mut a, "POSTROUTING");
    push_arg(&mut a, "-s");
    push_arg(&mut a, subnet.cidr().as_str());
    push_arg(&mut a, "-o");
    push_arg(&mut a, interface);
    push_arg(&mut a, "-j");
    push_arg(&mut a, "MASQUERADE");
    push_tag(&mut a, namespace);
    assert(views(a@) =~= want[0]);
    push_command(&mut list, a);
    let mut b = no_args();
    push_arg(&mut b, "iptables");
    push_arg(&mut b, "-t");
    push_arg(&mut b, "filter");
    push_arg(&mut b, flag.as_str());
    push_arg(&mut b, "FORWARD");
    push_arg(&mut b, "-i");
    push_arg(&mut b, veth.as_str());
    push_arg(&mut b, "-o");
    push_arg(&mut b, interface);
    push_arg(&mut b, "-j");
    push_arg(&mut b, "ACCEPT");
    push_tag(&mut b, namespace);
    assert(views(b@) =~= want[1]);
    push_command(&mut list, b);
    let mut c = no_args();
    push_arg(&mut c, "iptables");
    push_arg(&mut c, "-t");
    push_arg(&mut c, "filter");
    push_arg(&mut c, flag.as_str());
    push_arg(&mut c, "FORWARD");
    push_arg(&mut c, "-i");
    push_arg(&mut c, interface);
    push_arg(&mut c, "-o");
    push_arg(&mut c, veth.as_str());
    push_arg(&mut c, "-m");
    push_arg(&mut c, "state");
    push_arg(&mut c, "--state");
    push_arg(&mut c, "RELATED,ESTABLISHED");
    push_arg(&mut c, "-j");
    push_arg(&mut c, "ACCEPT");
    push_tag(&mut c, namespace);
    assert(views(c@) =~= want[2]);
    push_command(&mut list, c);
    assert(all_views(list@) =~= want);
    list
}

/// What is taken out is exactly what was put in: the two lists of commands
/// differ in the operation alone, and every rule carries the namespace's
/// name as its last word.
pub proof fn rules_deleted_as_inserted(
    namespace: Seq<char>,
    subnet: TargetSubnet,
    interface: Seq<char>,
)
    ensures
        ({
            let put = spec_host_rules(RuleOp::Insert, namespace, subnet, interface);
            let taken = spec_host_rules(RuleOp::Delete, namespace, subnet, interface);
            &&& put.len() == taken.len() == 3
            &&& forall|k: int|
                0 <= k < 3 ==> (#[trigger] put[k]).len() == taken[k].len() && put[k][3]
                    == RuleOp::Insert.spec_flag() && taken[k] == put[k].update(
                    3,
                    RuleOp::Delete.spec_flag(),
                ) && put[k].last() == namespace
        }),
{
    let put = spec_host_rules(RuleOp::Insert, namespace, subnet, interface);
    let taken = spec_host_rules(RuleOp::Delete, namespace, subnet, interface);
    assert(taken[0] =~= put[0].update(3, RuleOp::Delete.spec_flag()));
    assert(taken[1] =~= put[1].update(3, RuleOp::Delete.spec_flag()));
    assert(taken[2] =~= put[2].update(3, RuleOp::Delete.spec_flag()));
}

/// The command that switches IPv4 forwarding on the host on or off.
pub open spec fn spec_forwarding(enabled: bool) -> Seq<Seq<char>> {
    seq![
        "sysctl"@,
        "-q"@,
        if enabled {
            "net.ipv4.ip_forward=1"@
        } else {
            "net.ipv4.ip_forward=0"@
        },
    ]
}

/// The command that switches IPv4 forwarding on the host on or off. It is
/// switched on for the namespace and afterwards set back to what it was.
pub fn forwarding(enabled: bool) -> (argv: Vec<String>)
    ensures
        views(argv@) == spec_forwarding(enabled),
{
    let mut argv = no_args();
    push_arg(&mut argv, "sysctl");
    push_arg(&mut argv, "-q");
    if enabled {
        push_arg(&mut argv, "net.ipv4.ip_forward=1");
    } else {
        push_arg(&mut argv, "net.ipv4.ip_forward=0");
    }
    assert(views(argv@) =~= spec_forwarding(enabled));
    argv
}

/// The directory of a namespace's own configuration files.
pub open spec fn spec_netns_dir(namespace: Seq<char>) -> Seq<char> {
    "/etc/netns/"@ + namespace
}

/// The resolver configuration of a namespace.
pub open spec fn spec_resolv_conf_path(namespace: Seq<char>) -> Seq<char> {
    spec_netns_dir(namespace) + "/resolv.conf"@
}

/// The directory of a namespace's own configuration files.
pub fn netns_dir(namespace: &str) -> (r: String)
    ensures
        r@ == spec_netns_dir(namespace@),
{
    let mut r = "/etc/netns/".to_owned();
    r.append(namespace);
    r
}

/// The resolver configuration of a namespace.
pub fn resolv_conf_path(namespace: &str) -> (r: String)
    ensures
        r@ == spec_resolv_conf_path(namespace@),
{
    let mut r = netns_dir(namespace);
    r.append("/resolv.conf");
    r
}

/// The content of a resolver configuration: one `nameserver` line for each
/// address, in order.
pub open spec fn spec_resolv_conf(servers: Seq<IpAddress>) -> Seq<char>
    decreases servers.len(),
{
    if servers.len() == 0 {
        Seq::empty()
    } else {
        spec_resolv_conf(servers.drop_last()) + "nameserver "@ + servers.last().spec_text()
            + seq!['\n']
    }
}

/// The content of a resolver configuration.
pub fn resolv_conf(servers: &Vec<IpAddress>) -> (r: String)
    ensures
        r@ == spec_resolv_conf(servers@),
{
    let mut r = String::new();
    let mut i: usize = 0;
    assert(servers@.take(0) =~= Seq::<IpAddress>::empty());
    while i < servers.len()
        invariant
            i <= servers@.len(),
            r@ == spec_resolv_conf(servers@.take(i as int)),
        decreases servers@.len() - i,
    {
        let ghost before = r@;
        r.append("nameserver ");
        servers[i].push_text(&mut r);
        r.push('\n');
        proof {
            let now = servers@.take(i + 1);
            assert(now.drop_last() =~= servers@.take(i as int));
            assert(now.last() == servers@[i as int]);
            assert(r@ =~= before + "nameserver "@ + servers@[i as int].spec_text() + seq!['\n']);
        }
        i = i + 1;
    }
    assert(servers@.take(servers@.len() as int) =~= servers@);
    r
}

/// The commands that install a step of the setup. The resolver
/// configuration is a file and the tunnel a process; neither is installed by
/// commands from here.
pub open spec fn spec_install(
    step: Step,
    namespace: Seq<char>,
    subnet: TargetSubnet,
    interface: Seq<char>,
) -> Seq<Seq<Seq<char>>> {
    match step {
        Step::Namespace => seq![spec_namespace_add(namespace)],
        Step::Loopback => spec_loopback_up(namespace),
        Step::Veth => spec_veth_add(namespace),
        Step::Routing => spec_routing_add(namespace, subnet),
        Step::Iptables => spec_host_rules(RuleOp::Insert, namespace, subnet, interface),
        Step::Sysctl => seq![spec_forwarding(true)],
        Step::Dns => Seq::empty(),
        Step::Tunnel => Seq::empty(),
    }
}

/// The commands that release a step of the setup. Loopback and routing go
/// with the namespace and the veth pair; forwarding is set back to what it
/// was before.
pub open spec fn spec_release(
    step: Step,
    namespace: Seq<char>,
    subnet: TargetSubnet,
    interface: Seq<char>,
    forwarding_was_on: bool,
) -> Seq<Seq<Seq<char>>> {
    match step {
        Step::Namespace => seq![spec_namespace_delete(namespace)],
        Step::Veth => seq![spec_veth_delete(namespace)],
        Step::Iptables => spec_host_rules(RuleOp::Delete, namespace, subnet, interface),
        Step::Sysctl => seq![spec_forwarding(forwarding_was_on)],
        _ => Seq::empty(),
    }
}

fn single(argv: Vec<String>) -> (list: Vec<Vec<String>>)
    ensures
        all_views(list@) == seq![views(argv@)],
{
    let mut list = no_commands();
    push_command(&mut list, argv);
    assert(all_views(list@) =~= seq![views(argv@)]);
    list
}

/// The commands that install a step of the setup.
pub fn install_commands(step: Step, namespace: &str, subnet: &TargetSubnet, interface: &str) -> (list:
    Vec<Vec<String>>)
    ensures
        all_views(list@) == spec_install(step, namespace@, *subnet, interface@),
{
    match step {
        Step::Namespace => single(namespace_add(namespace)),
        Step::Loopback => loopback_up(namespace),
        Step::Veth => veth_add(namespace),
        Step::Routing => routing_add(namespace, subnet),
        Step::Iptables => host_rules(RuleOp::Insert, namespace, subnet, interface),
        Step::Sysctl => single(forwarding(true)),
        Step::Dns => no_commands(),
        Step::Tunnel => no_commands(),
    }
}

/// The commands that release a step of the setup.
pub fn release_commands(
    step: Step,
    namespace: &str,
    subnet: &TargetSubnet,
    interface: &str,
    forwarding_was_on: bool,
) -> (list: Vec<Vec<String>>)
    ensures
        all_views(list@) == spec_release(step, namespace@, *subnet, interface@, forwarding_was_on),
{
    match step {
        Step::Namespace => single(namespace_delete(namespace)),
        Step::Veth => single(veth_delete(namespace)),
        Step::Iptables => host_rules(RuleOp::Delete, namespace, subnet, interface),
        Step::Sysctl => single(forwarding(forwarding_was_on)),
        _ => no_commands(),
    }
}

} // verus!
