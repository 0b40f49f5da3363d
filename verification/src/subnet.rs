//! The /24 networks that namespaces are given, all from 10.200.0.0/16.

use crate::address::IpAddress;
use crate::text::{decimal, push_decimal};
use vstd::prelude::*;
use vstd::string::StringExecFns;

verus! {

/// The network 10.200.`octet`.0/24. The host end of the veth pair has address
/// 1 in it, the namespace end address 2.
#[derive(Clone, Copy, Debug, PartialEq, Eq, Structural)]
pub struct TargetSubnet {
    pub octet: u8,
}

impl TargetSubnet {
    /// The network in CIDR notation.
    pub open spec fn spec_cidr(self) -> Seq<char> {
        "10.200."@ + decimal(self.octet as nat) + ".0/24"@
    }

    /// The address of the host end.
    pub open spec fn spec_host_ip(self) -> IpAddress {
        IpAddress::V4(10, 200, self.octet, 1)
    }

    /// The address of the namespace end.
    pub open spec fn spec_namespace_ip(self) -> IpAddress {
        IpAddress::V4(10, 200, self.octet, 2)
    }

    /// The network in CIDR notation.
    pub fn cidr(&self) -> (r: String)
        ensures
            r@ == self.spec_cidr(),
    {
        let mut r = "10.200.".to_owned();
        push_decimal(&mut r, self.octet as u64);
        r.append(".0/24");
        r
    }

    /// The address of the host end.
    pub fn host_ip(&self) -> (r: IpAddress)
        ensures
            r == self.spec_host_ip(),
    {
        IpAddress::V4(10, 200, self.octet, 1)
    }

    /// The address of the namespace end.
    pub fn namespace_ip(&self) -> (r: IpAddress)
        ensures
            r == self.spec_namespace_ip(),
    {
        IpAddress::V4(10, 200, self.octet, 2)
    }

    /// The network that a pair of veth addresses lies in, if they are the two
    /// ends of one.
    pub fn from_ends(host: &IpAddress, namespace: &IpAddress) -> (r: Option<TargetSubnet>)
        ensures
            match r {
                Some(s) => *host == s.spec_host_ip() && *namespace == s.spec_namespace_ip(),
                None => forall|s: TargetSubnet|
                    !(*host == #[trigger] s.spec_host_ip() && *namespace == s.spec_namespace_ip()),
            },
    {
        match (host, namespace) {
            (IpAddress::V4(a, b, c, d), IpAddress::V4(e, f, g, h)) => {
                if *a == 10 && *b == 200 && *d == 1 && *e == 10 && *f == 200 && *g == *c && *h == 2 {
                    Some(TargetSubnet { octet: *c })
                } else {
                    None
                }
            },
            _ => None,
        }
    }
}

/// Whether no network occurs twice.
pub open spec fn pairwise_distinct(subnets: Seq<TargetSubnet>) -> bool {
    forall|i: int, j: int| 0 <= i < j < subnets.len() ==> subnets[i] != subnets[j]
}

/// Whether one of the networks in use has the given third octet.
pub open spec fn is_used(used: Seq<TargetSubnet>, octet: int) -> bool {
    exists|j: int| 0 <= j < used.len() && (#[trigger] used[j]).octet == octet
}

/// Whether `r` is the outcome of allocating beside the networks in use: the
/// free network with the lowest third octet, or nothing where all 256 are in
/// use.
pub open spec fn is_allocation(used: Seq<TargetSubnet>, r: Option<TargetSubnet>) -> bool {
    match r {
        Some(s) => !is_used(used, s.octet as int) && forall|o: int|
            0 <= o < s.octet ==> #[trigger] is_used(used, o),
        None => forall|o: int| 0 <= o < 256 ==> #[trigger] is_used(used, o),
    }
}

/// Picks the network for a new namespace, given those of the namespaces that
/// exist.
pub fn allocate(used: &Vec<TargetSubnet>) -> (r: Option<TargetSubnet>)
    ensures
        is_allocation(used@, r),
{
    let mut taken: Vec<bool> = Vec::new();
    let mut n: usize = 0;
    while n < 256
        invariant
            n <= 256,
            taken@.len() == n,
            forall|k: int| 0 <= k < n ==> !taken@[k],
        decreases 256 - n,
    {
        taken.push(false);
        n = n + 1;
    }
    let mut i: usize = 0;
    while i < used.len()
        invariant
            i <= used@.len(),
            taken@.len() == 256,
            forall|k: int| 0 <= k < 256 ==> (#[trigger] taken@[k] <==> is_used(used@.take(i as int), k)),
        decreases used@.len() - i,
    {
        let o = used[i].octet as usize;
        let ghost before = taken@;
        let ghost seen = used@.take(i as int);
        let ghost next = used@.take(i + 1);
        taken.set(o, true);
        assert forall|k: int| 0 <= k < 256 implies (#[trigger] taken@[k] <==> is_used(next, k)) by {
            if k == o {
                assert(next[i as int].octet == k);
            } else {
                assert(taken@[k] == before[k]);
                if is_used(seen, k) {
                    let j = choose|j: int| 0 <= j < seen.len() && (#[trigger] seen[j]).octet == k;
                    assert(next[j].octet == k);
                }
                if is_used(next, k) {
                    let j = choose|j: int| 0 <= j < next.len() && (#[trigger] next[j]).octet == k;
                    assert(seen[j].octet == k);
                }
            }
        }
        i = i + 1;
    }
    assert(used@.take(used@.len() as int) =~= used@);
    let mut o: usize = 0;
    while o < 256
        invariant
            o <= 256,
            taken@.len() == 256,
            forall|k: int| 0 <= k < o ==> taken@[k],
            forall|k: int| 0 <= k < 256 ==> (#[trigger] taken@[k] <==> is_used(used@, k)),
        decreases 256 - o,
    {
        if !taken[o] {
            proof {
                assert(!is_used(used@, o as int));
                assert forall|l: int| 0 <= l < o implies #[trigger] is_used(used@, l) by {
                    assert(taken@[l]);
                }
            }
            return Some(TargetSubnet { octet: o as u8 });
        }
        o = o + 1;
    }
    proof {
        assert forall|l: int| 0 <= l < 256 implies #[trigger] is_used(used@, l) by {
            assert(taken@[l]);
        }
    }
    None
}

/// Allocation has one outcome.
pub proof fn allocation_is_deterministic(
    used: Seq<TargetSubnet>,
    a: Option<TargetSubnet>,
    b: Option<TargetSubnet>,
)
    requires
        is_allocation(used, a),
        is_allocation(used, b),
    ensures
        a == b,
{
    match (a, b) {
        (Some(x), Some(y)) => {
            if x.octet < y.octet {
                assert(is_used(used, x.octet as int));
            } else if y.octet < x.octet {
                assert(is_used(used, y.octet as int));
            }
        },
        (Some(x), None) => {
            assert(is_used(used, x.octet as int));
        },
        (None, Some(y)) => {
            assert(is_used(used, y.octet as int));
        },
        (None, None) => {},
    }
}

/// No two live namespaces share a network: where the networks in use differ
/// from each other, they still do once a newly allocated one is added.
pub proof fn allocation_keeps_subnets_apart(live: Seq<TargetSubnet>, fresh: TargetSubnet)
    requires
        pairwise_distinct(live),
        is_allocation(live, Some(fresh)),
    ensures
        pairwise_distinct(live.push(fresh)),
        !live.contains(fresh),
{
    let after = live.push(fresh);
    if live.contains(fresh) {
        let j = choose|j: int| 0 <= j < live.len() && live[j] == fresh;
        assert(live[j].octet == fresh.octet);
    }
    assert forall|i: int, j: int| 0 <= i < j < after.len() implies after[i] != after[j] by {
        if j == live.len() {
            assert(live.contains(live[i]));
        }
    }
}

} // verus!
