//! The life of a namespace: built step by step in a fixed order, used by
//! one or more applications, and taken down in the reverse order once the
//! last of them has gone or as soon as a step fails.

use vstd::prelude::*;

verus! {

/// One thing that is set up for a namespace and released again.
#[derive(Clone, Copy, Debug, PartialEq, Eq, Structural)]
pub enum Step {
    /// The kernel namespace itself.
    Namespace,
    /// The loopback interface inside it.
    Loopback,
    /// The veth pair between host and namespace.
    Veth,
    /// Addresses on both ends and the default route inside.
    Routing,
    /// The NAT and forwarding rules on the host.
    Iptables,
    /// IPv4 forwarding on the host.
    Sysctl,
    /// The namespace's own resolver configuration.
    Dns,
    /// The tunnel.
    Tunnel,
}

/// The number of steps.
pub const STEP_COUNT: u8 = 8;

/// The order in which a namespace is built. The firewall rules and the
/// default route come before the tunnel, so that nothing leaves through the
/// veth pair while the tunnel is not up.
pub open spec fn setup_order() -> Seq<Step> {
    seq![
        Step::Namespace,
        Step::Loopback,
        Step::Veth,
        Step::Routing,
        Step::Iptables,
        Step::Sysctl,
        Step::Dns,
        Step::Tunnel,
    ]
}

/// The step at a position of the order.
pub fn step_at(index: u8) -> (r: Option<Step>)
    ensures
        match r {
            Some(step) => index < STEP_COUNT && step == setup_order()[index as int],
            None => index >= STEP_COUNT,
        },
{
    if index == 0 {
        Some(Step::Namespace)
    } else if index == 1 {
        Some(Step::Loopback)
    } else if index == 2 {
        Some(Step::Veth)
    } else if index == 3 {
        Some(Step::Routing)
    } else if index == 4 {
        Some(Step::Iptables)
    } else if index == 5 {
        Some(Step::Sysctl)
    } else if index == 6 {
        Some(Step::Dns)
    } else if index == 7 {
        Some(Step::Tunnel)
    } else {
        None
    }
}

/// The steps of a setup, in order.
pub fn setup_plan() -> (r: Vec<Step>)
    ensures
        r@ == setup_order(),
{
    let mut r: Vec<Step> = Vec::new();
    r.push(Step::Namespace);
    r.push(Step::Loopback);
    r.push(Step::Veth);
    r.push(Step::Routing);
    r.push(Step::Iptables);
    r.push(Step::Sysctl);
    r.push(Step::Dns);
    r.push(Step::Tunnel);
    assert(r@ =~= setup_order());
    r
}

/// What has to be released after the first `installed` steps of a setup:
/// those steps, last one first.
pub open spec fn teardown_order(installed: int) -> Seq<Step> {
    if installed <= 0 {
        Seq::empty()
    } else if installed >= STEP_COUNT {
        setup_order().reverse()
    } else {
        setup_order().take(installed).reverse()
    }
}

/// The steps to release after the first `installed` steps of a setup, in the
/// order in which to release them.
pub fn teardown_plan(installed: u8) -> (r: Vec<Step>)
    ensures
        r@ == teardown_order(installed as int),
{
    let n: u8 = if installed > STEP_COUNT {
        STEP_COUNT
    } else {
        installed
    };
    let ghost done = setup_order().take(n as int);
    let mut r: Vec<Step> = Vec::new();
    let mut k: u8 = n;
    while k > 0
        invariant
            k <= n <= STEP_COUNT,
            done == setup_order().take(n as int),
            r@.len() == n - k,
            forall|j: int| 0 <= j < r@.len() ==> r@[j] == done[n - 1 - j],
        decreases k,
    {
        k = k - 1;
        match step_at(k) {
            Some(step) => {
                r.push(step);
            },
            None => {},
        }
    }
    assert(r@ =~= done.reverse());
    assert(setup_order().take(STEP_COUNT as int) =~= setup_order());
    r
}

/// Where a namespace stands.
#[derive(Clone, Copy, Debug, PartialEq, Eq, Structural)]
pub enum Phase {
    /// Nothing exists.
    Absent,
    /// The kernel namespace exists and is being fitted out.
    Claimed,
    /// Every step is installed; the tunnel is not known to be up.
    Configured,
    /// The tunnel is up and nobody uses it yet.
    TunnelUp,
    /// At least one application is attached.
    Attached,
    /// What was installed is being released.
    Draining,
}

/// What happened to a namespace.
#[derive(Clone, Copy, Debug, PartialEq, Eq, Structural)]
pub enum Event {
    /// The step that was due is installed.
    Installed,
    /// The step that was due failed, or the tunnel did not come up or died.
    Failed,
    /// The tunnel is seen to be up.
    Ready,
    /// A lockfile was written.
    Attached,
    /// A lockfile was removed.
    Detached,
    /// The step that was due for release is released.
    Released,
}

/// What is to be done about a namespace next.
#[derive(Clone, Copy, Debug, PartialEq, Eq, Structural)]
pub enum Action {
    /// Install this step.
    Install(Step),
    /// Wait for the tunnel to come up.
    AwaitTunnel,
    /// Write the first lockfile.
    WriteLock,
    /// Nothing: the namespace is in use.
    Idle,
    /// Release this step.
    Release(Step),
}

/// A namespace: its phase, how many steps of the setup are installed, and
/// how many lockfiles claim it.
#[derive(Clone, Copy, Debug, PartialEq, Eq, Structural)]
pub struct Lifecycle {
    pub phase: Phase,
    pub installed: u8,
    pub owners: u32,
}

impl Lifecycle {
    /// Whether the three parts fit together.
    pub open spec fn wf(self) -> bool {
        match self.phase {
            Phase::Absent => self.installed == 0 && self.owners == 0,
            Phase::Claimed => 1 <= self.installed < STEP_COUNT && self.owners == 0,
            Phase::Configured => self.installed == STEP_COUNT && self.owners == 0,
            Phase::TunnelUp => self.installed == STEP_COUNT && self.owners == 0,
            Phase::Attached => self.installed == STEP_COUNT && self.owners >= 1,
            Phase::Draining => 1 <= self.installed <= STEP_COUNT && self.owners == 0,
        }
    }

    /// The namespace that does not exist.
    pub open spec fn absent() -> Lifecycle {
        Lifecycle { phase: Phase::Absent, installed: 0, owners: 0 }
    }

    /// Whether nothing is left of the namespace: no step installed, no
    /// lockfile.
    pub open spec fn leaves_nothing(self) -> bool {
        self == Self::absent()
    }

    /// The namespace after an event. An event that the phase does not wait
    /// for changes nothing.
    pub open spec fn after(self, event: Event) -> Lifecycle {
        match (self.phase, event) {
            (Phase::Absent, Event::Installed) => Lifecycle {
                phase: Phase::Claimed,
                installed: 1,
                owners: 0,
            },
            (Phase::Claimed, Event::Installed) => if self.installed + 1 >= STEP_COUNT {
                Lifecycle { phase: Phase::Configured, installed: STEP_COUNT, owners: 0 }
            } else {
                Lifecycle {
                    phase: Phase::Claimed,
                    installed: (self.installed + 1) as u8,
                    owners: 0,
                }
            },
            (Phase::Claimed, Event::Failed)
            | (Phase::Configured, Event::Failed)
            | (Phase::TunnelUp, Event::Failed) => Lifecycle {
                phase: Phase::Draining,
                installed: self.installed,
                owners: 0,
            },
            (Phase::Configured, Event::Ready) => Lifecycle { phase: Phase::TunnelUp, ..self },
            (Phase::TunnelUp, Event::Attached) => Lifecycle {
                phase: Phase::Attached,
                owners: 1,
                ..self
            },
            (Phase::Attached, Event::Attached) => if self.owners < u32::MAX {
                Lifecycle { owners: (self.owners + 1) as u32, ..self }
            } else {
                self
            },
            (Phase::Attached, Event::Detached) => if self.owners <= 1 {
                Lifecycle { phase: Phase::Draining, owners: 0, ..self }
            } else {
                Lifecycle { owners: (self.owners - 1) as u32, ..self }
            },
            (Phase::Draining, Event::Released) => if self.installed <= 1 {
                Self::absent()
            } else {
                Lifecycle { installed: (self.installed - 1) as u8, ..self }
            },
            _ => self,
        }
    }

    /// What is due in this phase: the next step of the setup while it is
    /// being built, the last installed step while it is being taken down.
    pub open spec fn due(self) -> Action {
        match self.phase {
            Phase::Absent => Action::Install(Step::Namespace),
            Phase::Claimed => if 0 <= self.installed < STEP_COUNT {
                Action::Install(setup_order()[self.installed as int])
            } else {
                Action::Idle
            },
            Phase::Configured => Action::AwaitTunnel,
            Phase::TunnelUp => Action::WriteLock,
            Phase::Attached => Action::Idle,
            Phase::Draining => if 1 <= self.installed <= STEP_COUNT {
                Action::Release(setup_order()[self.installed - 1])
            } else {
                Action::Idle
            },
        }
    }

    /// The namespace that does not exist.
    pub fn new() -> (r: Lifecycle)
        ensures
            r == Self::absent(),
            r.wf(),
    {
        Lifecycle { phase: Phase::Absent, installed: 0, owners: 0 }
    }

    /// The namespace after an event.
    pub fn advance(&self, event: Event) -> (r: Lifecycle)
        ensures
            r == self.after(event),
    {
        match (self.phase, event) {
            (Phase::Absent, Event::Installed) => Lifecycle {
                phase: Phase::Claimed,
                installed: 1,
                owners: 0,
            },
            (Phase::Claimed, Event::Installed) => {
                if self.installed >= STEP_COUNT - 1 {
                    Lifecycle { phase: Phase::Configured, installed: STEP_COUNT, owners: 0 }
                } else {
                    Lifecycle { phase: Phase::Claimed, installed: self.installed + 1, owners: 0 }
                }
            },
            (Phase::Claimed, Event::Failed)
            | (Phase::Configured, Event::Failed)
            | (Phase::TunnelUp, Event::Failed) => Lifecycle {
                phase: Phase::Draining,
                installed: self.installed,
                owners: 0,
            },
            (Phase::Configured, Event::Ready) => Lifecycle {
                phase: Phase::TunnelUp,
                installed: self.installed,
                owners: self.owners,
            },
            (Phase::TunnelUp, Event::Attached) => Lifecycle {
                phase: Phase::Attached,
                installed: self.installed,
                owners: 1,
            },
            (Phase::Attached, Event::Attached) => {
                if self.owners < u32::MAX {
                    Lifecycle {
                        phase: self.phase,
                        installed: self.installed,
                        owners: self.owners + 1,
                    }
                } else {
                    *self
                }
            },
            (Phase::Attached, Event::Detached) => {
                if self.owners <= 1 {
                    Lifecycle { phase: Phase::Draining, installed: self.installed, owners: 0 }
                } else {
                    Lifecycle {
                        phase: self.phase,
                        installed: self.installed,
                        owners: self.owners - 1,
                    }
                }
            },
            (Phase::Draining, Event::Released) => {
                if self.installed <= 1 {
                    Lifecycle { phase: Phase::Absent, installed: 0, owners: 0 }
                } else {
                    Lifecycle {
                        phase: self.phase,
                        installed: self.installed - 1,
                        owners: self.owners,
                    }
                }
            },
            _ => *self,
        }
    }

    /// What is due in this phase.
    pub fn next_action(&self) -> (r: Action)
        ensures
            r == self.due(),
    {
        match self.phase {
            Phase::Absent => Action::Install(Step::Namespace),
            Phase::Claimed => match step_at(self.installed) {
                Some(step) => Action::Install(step),
                None => Action::Idle,
            },
            Phase::Configured => Action::AwaitTunnel,
            Phase::TunnelUp => Action::WriteLock,
            Phase::Attached => Action::Idle,
            Phase::Draining => {
                if self.installed >= 1 {
                    match step_at(self.installed - 1) {
                        Some(step) => Action::Release(step),
                        None => Action::Idle,
                    }
                } else {
                    Action::Idle
                }
            },
        }
    }
}

} // verus!
