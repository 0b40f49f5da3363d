//! The registry of lockfiles: one record for each application attached to a
//! namespace. The records say who owns a namespace, and a record whose
//! process has died is garbage.

use crate::address::IpAddress;
use crate::error::VpnError;
use crate::filter::{marks, positions_of};
use crate::subnet::TargetSubnet;
use crate::text::{decimal, push_decimal, same_text, starts_with, to_chars};
use crate::vpn::{Protocol, VpnProvider};
use vstd::prelude::*;
use vstd::string::StringExecFns;

verus! {

/// What a lockfile holds.
pub struct LockRecord {
    pub namespace: String,
    pub pid: u32,
    pub provider: VpnProvider,
    pub protocol: Protocol,
    pub application: String,
    pub user: String,
    pub group: String,
    pub veth_host_ip: IpAddress,
    pub veth_ns_ip: IpAddress,
}

impl LockRecord {
    /// Whether the two veth addresses are the two ends of one network.
    pub open spec fn wf(self) -> bool {
        exists|s: TargetSubnet|
            self.veth_host_ip == #[trigger] s.spec_host_ip() && self.veth_ns_ip
                == s.spec_namespace_ip()
    }

    /// The record of an application attached to a namespace on the given
    /// network.
    pub fn new(
        namespace: &str,
        pid: u32,
        provider: VpnProvider,
        protocol: Protocol,
        subnet: &TargetSubnet,
        application: &str,
        user: &str,
        group: &str,
    ) -> (r: LockRecord)
        ensures
            r.namespace@ == namespace@,
            r.pid == pid,
            r.provider == provider,
            r.protocol == protocol,
            r.application@ == application@,
            r.user@ == user@,
            r.group@ == group@,
            r.veth_host_ip == subnet.spec_host_ip(),
            r.veth_ns_ip == subnet.spec_namespace_ip(),
            r.wf(),
    {
        LockRecord {
            namespace: namespace.to_owned(),
            pid,
            provider,
            protocol,
            application: application.to_owned(),
            user: user.to_owned(),
            group: group.to_owned(),
            veth_host_ip: subnet.host_ip(),
            veth_ns_ip: subnet.namespace_ip(),
        }
    }

    /// The network of the namespace, recovered from the veth addresses.
    /// `None` exactly when the addresses are not the two ends of one.
    pub fn subnet(&self) -> (r: Option<TargetSubnet>)
        ensures
            match r {
                Some(s) => self.veth_host_ip == s.spec_host_ip() && self.veth_ns_ip
                    == s.spec_namespace_ip(),
                None => !self.wf(),
            },
    {
        TargetSubnet::from_ends(&self.veth_host_ip, &self.veth_ns_ip)
    }
}

/// The directory of a namespace's lockfiles, below the runtime directory.
pub open spec fn spec_lock_dir(namespace: Seq<char>) -> Seq<char> {
    "vopono/locks/"@ + namespace
}

/// The lockfile of a process attached to a namespace, below the runtime
/// directory.
pub open spec fn spec_lock_path(namespace: Seq<char>, pid: u32) -> Seq<char> {
    spec_lock_dir(namespace) + seq!['/'] + decimal(pid as nat) + ".lock"@
}

/// The directory of a namespace's lockfiles, below the runtime directory.
pub fn lock_dir(namespace: &str) -> (r: String)
    ensures
        r@ == spec_lock_dir(namespace@),
{
    let mut r = "vopono/locks/".to_owned();
    r.append(namespace);
    r
}

/// The lockfile of a process attached to a namespace, below the runtime
/// directory.
pub fn lock_path(namespace: &str, pid: u32) -> (r: String)
    ensures
        r@ == spec_lock_path(namespace@, pid),
{
    let mut r = lock_dir(namespace);
    r.push('/');
    push_decimal(&mut r, pid as u64);
    r.append(".lock");
    assert(r@ =~= spec_lock_path(namespace@, pid));
    r
}

/// Whether a name is one of this tool's namespaces.
pub open spec fn spec_is_tool_namespace(name: Seq<char>) -> bool {
    "vopono_"@.is_prefix_of(name)
}

/// Whether a name is one of this tool's namespaces: it begins with
/// `vopono_`.
pub fn is_tool_namespace(name: &str) -> (r: bool)
    ensures
        r == spec_is_tool_namespace(name@),
{
    let text = to_chars(name);
    let prefix = to_chars("vopono_");
    starts_with(&text, &prefix)
}

/// Whether a record belongs to what is asked for: to the namespace named, or
/// to any where none is named.
pub open spec fn listed(record: LockRecord, namespace: Option<Seq<char>>) -> bool {
    match namespace {
        Some(name) => record.namespace@ == name,
        None => true,
    }
}

/// Whether the process of a record is among the live ones.
pub open spec fn is_live(record: LockRecord, live_pids: Seq<u32>) -> bool {
    live_pids.contains(record.pid)
}

/// Whether a live record claims a namespace.
pub open spec fn has_live_owner(
    records: Seq<LockRecord>,
    live_pids: Seq<u32>,
    namespace: Seq<char>,
) -> bool {
    exists|i: int|
        0 <= i < records.len() && (#[trigger] records[i]).namespace@ == namespace && is_live(
            records[i],
            live_pids,
        )
}

/// For each record, whether it belongs to what is asked for.
pub open spec fn listed_flags(records: Seq<LockRecord>, namespace: Option<Seq<char>>) -> Seq<bool> {
    Seq::new(records.len(), |i: int| listed(records[i], namespace))
}

/// For each record, whether its process is dead.
pub open spec fn dead_flags(records: Seq<LockRecord>, live_pids: Seq<u32>) -> Seq<bool> {
    Seq::new(records.len(), |i: int| !is_live(records[i], live_pids))
}

/// For each kernel namespace, whether it is one of this tool's and no live
/// record claims it.
pub open spec fn orphan_flags(
    records: Seq<LockRecord>,
    live_pids: Seq<u32>,
    namespaces: Seq<String>,
) -> Seq<bool> {
    Seq::new(
        namespaces.len(),
        |j: int|
            spec_is_tool_namespace(namespaces[j]@) && !has_live_owner(
                records,
                live_pids,
                namespaces[j]@,
            ),
    )
}

/// Whether a process id is among the live ones.
pub fn pid_is_live(live_pids: &Vec<u32>, pid: u32) -> (r: bool)
    ensures
        r == live_pids@.contains(pid),
{
    let mut i: usize = 0;
    while i < live_pids.len()
        invariant
            i <= live_pids@.len(),
            forall|k: int| 0 <= k < i ==> live_pids@[k] != pid,
        decreases live_pids@.len() - i,
    {
        if live_pids[i] == pid {
            return true;
        }
        i = i + 1;
    }
    false
}

/// The positions of the records that belong to a namespace, or of all
/// records where none is named, in rising order.
pub fn list(records: &Vec<LockRecord>, namespace: Option<&str>) -> (r: Vec<usize>)
    ensures
        marks(listed_flags(records@, namespace.deep_view()), r@),
{
    let mut flags: Vec<bool> = Vec::new();
    let mut i: usize = 0;
    while i < records.len()
        invariant
            i <= records@.len(),
            flags@.len() == i,
            forall|k: int|
                0 <= k < i ==> flags@[k] == listed(#[trigger] records@[k], namespace.deep_view()),
        decreases records@.len() - i,
    {
        let flag = match namespace {
            Some(name) => same_text(records[i].namespace.as_str(), name),
            None => true,
        };
        flags.push(flag);
        i = i + 1;
    }
    assert(flags@ =~= listed_flags(records@, namespace.deep_view()));
    positions_of(&flags)
}

/// The number of lockfiles that claim a namespace.
pub fn owner_count(records: &Vec<LockRecord>, namespace: &str) -> (r: usize)
    ensures
        exists|owners: Seq<usize>|
            marks(listed_flags(records@, Some(namespace@)), owners) && r == owners.len(),
{
    let owners = list(records, Some(namespace));
    owners.len()
}

/// The first record that claims a namespace: the one from which a newcomer
/// learns the provider, the protocol and the veth addresses.
pub fn find_owner(records: &Vec<LockRecord>, namespace: &str) -> (r: Option<usize>)
    ensures
        match r {
            Some(i) => i < records@.len() && records@[i as int].namespace@ == namespace@
                && forall|k: int| 0 <= k < i ==> (#[trigger] records@[k]).namespace@ != namespace@,
            None => forall|k: int|
                0 <= k < records@.len() ==> (#[trigger] records@[k]).namespace@ != namespace@,
        },
{
    let mut i: usize = 0;
    while i < records.len()
        invariant
            i <= records@.len(),
            forall|k: int| 0 <= k < i ==> (#[trigger] records@[k]).namespace@ != namespace@,
        decreases records@.len() - i,
    {
        if same_text(records[i].namespace.as_str(), namespace) {
            return Some(i);
        }
        i = i + 1;
    }
    None
}

/// Whether a live record claims a namespace.
pub fn live_owner_exists(records: &Vec<LockRecord>, live_pids: &Vec<u32>, namespace: &str) -> (r:
    bool)
    ensures
        r == has_live_owner(records@, live_pids@, namespace@),
{
    let mut i: usize = 0;
    while i < records.len()
        invariant
            i <= records@.len(),
            forall|k: int|
                0 <= k < i ==> !((#[trigger] records@[k]).namespace@ == namespace@ && is_live(
                    records@[k],
                    live_pids@,
                )),
        decreases records@.len() - i,
    {
        if same_text(records[i].namespace.as_str(), namespace) && pid_is_live(
            live_pids,
            records[i].pid,
        ) {
            return true;
        }
        i = i + 1;
    }
    false
}

/// What garbage collection is to remove.
pub struct GcPlan {
    /// The positions of the lockfiles to delete.
    pub dead_locks: Vec<usize>,
    /// The positions of the kernel namespaces to take down.
    pub orphans: Vec<usize>,
}

/// Plans the garbage collection.
///
/// `records` are the lockfiles found, `live_pids` the processes among theirs
/// that are alive, `namespaces` the kernel namespaces found. Every lockfile
/// of a dead process is to be deleted, and every namespace of this tool that
/// no live lockfile claims is to be taken down; nothing else is touched.
pub fn gc(records: &Vec<LockRecord>, live_pids: &Vec<u32>, namespaces: &Vec<String>) -> (r: GcPlan)
    ensures
        marks(dead_flags(records@, live_pids@), r.dead_locks@),
        marks(orphan_flags(records@, live_pids@, namespaces@), r.orphans@),
{
    let mut dead: Vec<bool> = Vec::new();
    let mut i: usize = 0;
    while i < records.len()
        invariant
            i <= records@.len(),
            dead@.len() == i,
            forall|k: int| 0 <= k < i ==> dead@[k] == !is_live(#[trigger] records@[k], live_pids@),
        decreases records@.len() - i,
    {
        dead.push(!pid_is_live(live_pids, records[i].pid));
        i = i + 1;
    }
    assert(dead@ =~= dead_flags(records@, live_pids@));
    let mut orphan: Vec<bool> = Vec::new();
    let mut j: usize = 0;
    while j < namespaces.len()
        invariant
            j <= namespaces@.len(),
            orphan@.len() == j,
            forall|k: int|
                0 <= k < j ==> orphan@[k] == (spec_is_tool_namespace((#[trigger] namespaces@[k])@)
                    && !has_live_owner(records@, live_pids@, namespaces@[k]@)),
        decreases namespaces@.len() - j,
    {
        let name = namespaces[j].as_str();
        orphan.push(is_tool_namespace(name) && !live_owner_exists(records, live_pids, name));
        j = j + 1;
    }
    assert(orphan@ =~= orphan_flags(records@, live_pids@, namespaces@));
    GcPlan { dead_locks: positions_of(&dead), orphans: positions_of(&orphan) }
}

/// After garbage collection only the living are left, as after a clean
/// exit: every lockfile that stays belongs to a live process, every namespace
/// of this tool that stays has a live owner, and no namespace that is not
/// this tool's is taken down.
pub proof fn gc_leaves_only_the_living(
    records: Seq<LockRecord>,
    live_pids: Seq<u32>,
    namespaces: Seq<String>,
    dead_locks: Seq<usize>,
    orphans: Seq<usize>,
)
    requires
        marks(dead_flags(records, live_pids), dead_locks),
        marks(orphan_flags(records, live_pids, namespaces), orphans),
    ensures
        forall|i: int|
            0 <= i < records.len() && !dead_locks.contains(i as usize) ==> is_live(
                #[trigger] records[i],
                live_pids,
            ),
        forall|j: int|
            0 <= j < namespaces.len() && !orphans.contains(j as usize) && spec_is_tool_namespace(
                (#[trigger] namespaces[j])@,
            ) ==> has_live_owner(records, live_pids, namespaces[j]@),
        forall|k: int|
            0 <= k < orphans.len() ==> spec_is_tool_namespace(
                namespaces[(#[trigger] orphans[k]) as int]@,
            ),
{
    let dead = dead_flags(records, live_pids);
    let lone = orphan_flags(records, live_pids, namespaces);
    assert forall|i: int|
        0 <= i < records.len() && !dead_locks.contains(i as usize) implies is_live(
        #[trigger] records[i],
        live_pids,
    ) by {
        if dead[i] {
            assert(dead_locks.contains(i as usize));
        }
    }
    assert forall|j: int|
        0 <= j < namespaces.len() && !orphans.contains(j as usize) && spec_is_tool_namespace(
            (#[trigger] namespaces[j])@,
        ) implies has_live_owner(records, live_pids, namespaces[j]@) by {
        if lone[j] {
            assert(orphans.contains(j as usize));
        }
    }
    assert forall|k: int| 0 <= k < orphans.len() implies spec_is_tool_namespace(
        namespaces[(#[trigger] orphans[k]) as int]@,
    ) by {
        assert(lone[orphans[k] as int]);
    }
}

/// How an application comes to its namespace.
#[derive(Clone, Copy, Debug, PartialEq, Eq, Structural)]
pub enum Entry {
    /// Build the namespace.
    Create,
    /// Use the namespace that is there, as its lockfiles describe it.
    Attach,
}

/// What an application's exit means for its namespace.
#[derive(Clone, Copy, Debug, PartialEq, Eq, Structural)]
pub enum Exit {
    /// Others still use it.
    Leave,
    /// It was the last one: take the namespace down.
    Teardown,
}

/// How an application comes to its namespace, given whether the kernel
/// namespace exists and how many lockfiles claim it.
pub open spec fn entry_for(namespace_exists: bool, owners: nat) -> Result<Entry, VpnError> {
    if !namespace_exists {
        Ok(Entry::Create)
    } else if owners == 0 {
        Err(VpnError::NamespaceExists)
    } else {
        Ok(Entry::Attach)
    }
}

/// Decides between building a namespace and attaching to it. A namespace
/// that exists is never built again; one that exists unclaimed is an error.
pub fn plan_entry(namespace_exists: bool, owners: usize) -> (r: Result<Entry, VpnError>)
    ensures
        r == entry_for(namespace_exists, owners as nat),
{
    if !namespace_exists {
        Ok(Entry::Create)
    } else if owners == 0 {
        Err(VpnError::NamespaceExists)
    } else {
        Ok(Entry::Attach)
    }
}

/// Decides what follows an application's exit, given how many lockfiles
/// still claim the namespace once its own is removed.
pub fn plan_exit(owners_left: usize) -> (r: Exit)
    ensures
        r == (if owners_left == 0 {
            Exit::Teardown
        } else {
            Exit::Leave
        }),
{
    if owners_left == 0 {
        Exit::Teardown
    } else {
        Exit::Leave
    }
}

} // verus!
