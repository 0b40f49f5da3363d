use vopono::address::IpAddress;
use vopono::error::VpnError;
use vopono::lifecycle::{
    setup_plan, step_at, teardown_plan, Action, Event, Lifecycle, Phase, Step, STEP_COUNT,
};
use vopono::locks::{
    find_owner, gc, is_tool_namespace, list, live_owner_exists, lock_dir, lock_path, owner_count,
    pid_is_live, plan_entry, plan_exit, Entry, Exit, LockRecord,
};
use vopono::subnet::{allocate, TargetSubnet};
use vopono::vpn::{Protocol, VpnProvider};

fn record(namespace: &str, pid: u32, octet: u8) -> LockRecord {
    LockRecord::new(
        namespace,
        pid,
        VpnProvider::Mullvad,
        Protocol::Wireguard,
        &TargetSubnet { octet },
        "firefox",
        "alice",
        "users",
    )
}

fn built() -> Lifecycle {
    let mut s = Lifecycle::new();
    for _ in 0..STEP_COUNT {
        s = s.advance(Event::Installed);
    }
    s.advance(Event::Ready)
}

#[test]
fn first_subnet_is_the_lowest() {
    assert_eq!(allocate(&Vec::new()), Some(TargetSubnet { octet: 0 }));
}

#[test]
fn lowest_free_subnet_is_taken() {
    let used = vec![TargetSubnet { octet: 0 }, TargetSubnet { octet: 1 }, TargetSubnet { octet: 3 }];
    assert_eq!(allocate(&used), Some(TargetSubnet { octet: 2 }));
    let used = vec![TargetSubnet { octet: 5 }, TargetSubnet { octet: 0 }, TargetSubnet { octet: 0 }];
    assert_eq!(allocate(&used), Some(TargetSubnet { octet: 1 }));
    let used = vec![TargetSubnet { octet: 7 }];
    assert_eq!(allocate(&used), Some(TargetSubnet { octet: 0 }));
}

#[test]
fn full_range_has_no_free_subnet() {
    let used: Vec<TargetSubnet> = (0..=255u8).map(|octet| TargetSubnet { octet }).collect();
    assert_eq!(allocate(&used), None);
    let almost: Vec<TargetSubnet> = (0..255u8).map(|octet| TargetSubnet { octet }).collect();
    assert_eq!(allocate(&almost), Some(TargetSubnet { octet: 255 }));
}

#[test]
fn allocated_subnets_never_collide() {
    let mut live: Vec<TargetSubnet> = Vec::new();
    for _ in 0..40 {
        let fresh = allocate(&live).unwrap();
        assert!(!live.contains(&fresh));
        live.push(fresh);
    }
    live.remove(17);
    let fresh = allocate(&live).unwrap();
    assert_eq!(fresh, TargetSubnet { octet: 17 });
    assert!(!live.contains(&fresh));
}

#[test]
fn subnet_addresses() {
    let s = TargetSubnet { octet: 12 };
    assert_eq!(s.cidr(), "10.200.12.0/24");
    assert_eq!(s.host_ip(), IpAddress::V4(10, 200, 12, 1));
    assert_eq!(s.namespace_ip(), IpAddress::V4(10, 200, 12, 2));
    assert_eq!(TargetSubnet { octet: 0 }.cidr(), "10.200.0.0/24");
    assert_eq!(TargetSubnet { octet: 255 }.cidr(), "10.200.255.0/24");
}

#[test]
fn subnet_is_recovered_from_its_ends() {
    let s = TargetSubnet { octet: 9 };
    assert_eq!(TargetSubnet::from_ends(&s.host_ip(), &s.namespace_ip()), Some(s));
    assert_eq!(TargetSubnet::from_ends(&s.namespace_ip(), &s.host_ip()), None);
    assert_eq!(
        TargetSubnet::from_ends(&IpAddress::V4(10, 200, 9, 1), &IpAddress::V4(10, 200, 8, 2)),
        None
    );
    assert_eq!(
        TargetSubnet::from_ends(&IpAddress::V4(10, 201, 9, 1), &IpAddress::V4(10, 201, 9, 2)),
        None
    );
    assert_eq!(
        TargetSubnet::from_ends(
            &IpAddress::V6(0, 0, 0, 0, 0, 0, 0, 1),
            &IpAddress::V4(10, 200, 9, 2)
        ),
        None
    );
}

#[test]
fn setup_order_is_fixed() {
    assert_eq!(
        setup_plan(),
        vec![
            Step::Namespace,
            Step::Loopback,
            Step::Veth,
            Step::Routing,
            Step::Iptables,
            Step::Sysctl,
            Step::Dns,
            Step::Tunnel,
        ]
    );
    assert_eq!(step_at(0), Some(Step::Namespace));
    assert_eq!(step_at(7), Some(Step::Tunnel));
    assert_eq!(step_at(8), None);
}

#[test]
fn firewall_comes_before_the_tunnel() {
    let plan = setup_plan();
    let rules = plan.iter().position(|s| *s == Step::Iptables).unwrap();
    let routing = plan.iter().position(|s| *s == Step::Routing).unwrap();
    let tunnel = plan.iter().position(|s| *s == Step::Tunnel).unwrap();
    assert!(rules < tunnel);
    assert!(routing < tunnel);
}

#[test]
fn teardown_is_setup_in_reverse() {
    assert_eq!(teardown_plan(0), Vec::<Step>::new());
    assert_eq!(teardown_plan(1), vec![Step::Namespace]);
    assert_eq!(teardown_plan(3), vec![Step::Veth, Step::Loopback, Step::Namespace]);
    let mut all = setup_plan();
    all.reverse();
    assert_eq!(teardown_plan(8), all);
    assert_eq!(teardown_plan(200), all);
}

#[test]
fn namespace_is_built_step_by_step() {
    let mut s = Lifecycle::new();
    assert_eq!(s.phase, Phase::Absent);
    assert_eq!(s.next_action(), Action::Install(Step::Namespace));
    let plan = setup_plan();
    for k in 0..8usize {
        assert_eq!(s.next_action(), Action::Install(plan[k]));
        s = s.advance(Event::Installed);
        assert_eq!(s.installed as usize, k + 1);
        if k < 7 {
            assert_eq!(s.phase, Phase::Claimed);
        }
    }
    assert_eq!(s.phase, Phase::Configured);
    assert_eq!(s.next_action(), Action::AwaitTunnel);
    s = s.advance(Event::Ready);
    assert_eq!(s.phase, Phase::TunnelUp);
    assert_eq!(s.next_action(), Action::WriteLock);
    s = s.advance(Event::Attached);
    assert_eq!(s, Lifecycle { phase: Phase::Attached, installed: 8, owners: 1 });
    assert_eq!(s.next_action(), Action::Idle);
}

#[test]
fn clean_exit_leaves_nothing_behind() {
    let mut s = built().advance(Event::Attached);
    s = s.advance(Event::Detached);
    assert_eq!(s, Lifecycle { phase: Phase::Draining, installed: 8, owners: 0 });
    let mut released = Vec::new();
    while s.phase == Phase::Draining {
        match s.next_action() {
            Action::Release(step) => released.push(step),
            other => panic!("unexpected action {:?}", other),
        }
        s = s.advance(Event::Released);
    }
    assert_eq!(s, Lifecycle::new());
    assert_eq!(released, teardown_plan(8));
}

#[test]
fn failed_setup_leaves_nothing_behind() {
    for k in 0..=8u8 {
        let mut s = Lifecycle::new();
        for _ in 0..k {
            s = s.advance(Event::Installed);
        }
        s = s.advance(Event::Failed);
        let mut released = Vec::new();
        while s.phase == Phase::Draining {
            match s.next_action() {
                Action::Release(step) => released.push(step),
                other => panic!("unexpected action {:?}", other),
            }
            s = s.advance(Event::Released);
        }
        assert_eq!(s, Lifecycle::new());
        assert_eq!(released, teardown_plan(k));
    }
}

#[test]
fn tunnel_that_dies_after_coming_up_drains_the_namespace() {
    let s = built().advance(Event::Failed);
    assert_eq!(s, Lifecycle { phase: Phase::Draining, installed: 8, owners: 0 });
    assert_eq!(s.next_action(), Action::Release(Step::Tunnel));
}

#[test]
fn two_applications_share_one_namespace() {
    let mut s = built();
    s = s.advance(Event::Attached);
    s = s.advance(Event::Attached);
    assert_eq!(s, Lifecycle { phase: Phase::Attached, installed: 8, owners: 2 });
    s = s.advance(Event::Detached);
    assert_eq!(s, Lifecycle { phase: Phase::Attached, installed: 8, owners: 1 });
    assert_eq!(s.next_action(), Action::Idle);
    s = s.advance(Event::Detached);
    assert_eq!(s, Lifecycle { phase: Phase::Draining, installed: 8, owners: 0 });
    assert_eq!(s.next_action(), Action::Release(Step::Tunnel));
}

#[test]
fn many_applications_one_teardown() {
    let mut s = built();
    let mut teardowns = 0;
    let events = [
        Event::Attached,
        Event::Attached,
        Event::Detached,
        Event::Attached,
        Event::Attached,
        Event::Detached,
        Event::Detached,
        Event::Detached,
    ];
    for e in events {
        let before = s.phase;
        s = s.advance(e);
        assert_eq!(s.installed, 8);
        if s.phase == Phase::Draining && before != Phase::Draining {
            teardowns += 1;
        }
    }
    assert_eq!(teardowns, 1);
    assert_eq!(s.phase, Phase::Draining);
    assert_eq!(s.owners, 0);
}

#[test]
fn events_out_of_turn_change_no_namespace() {
    let s = Lifecycle::new();
    assert_eq!(s.advance(Event::Released), s);
    assert_eq!(s.advance(Event::Detached), s);
    assert_eq!(s.advance(Event::Failed), s);
    assert_eq!(s.advance(Event::Ready), s);
    let t = built();
    assert_eq!(t.advance(Event::Installed), t);
    assert_eq!(t.advance(Event::Detached), t);
    let u = t.advance(Event::Attached);
    assert_eq!(u.advance(Event::Failed), u);
    assert_eq!(u.advance(Event::Released), u);
}

#[test]
fn second_exec_attaches_and_last_exit_tears_down() {
    let name = "vopono_mv_se";
    let mut records: Vec<LockRecord> = Vec::new();
    assert_eq!(plan_entry(false, owner_count(&records, name)), Ok(Entry::Create));
    records.push(record(name, 100, 0));
    assert_eq!(plan_entry(true, owner_count(&records, name)), Ok(Entry::Attach));
    records.push(record(name, 101, 0));
    assert_eq!(owner_count(&records, name), 2);
    records.remove(0);
    assert_eq!(plan_exit(owner_count(&records, name)), Exit::Leave);
    records.remove(0);
    assert_eq!(plan_exit(owner_count(&records, name)), Exit::Teardown);
}

#[test]
fn unclaimed_namespace_is_an_error() {
    assert_eq!(plan_entry(true, 0), Err(VpnError::NamespaceExists));
    assert_eq!(plan_entry(false, 0), Ok(Entry::Create));
    assert_eq!(plan_entry(false, 3), Ok(Entry::Create));
    assert_eq!(plan_entry(true, 1), Ok(Entry::Attach));
}

#[test]
fn lockfiles_are_kept_by_namespace_and_pid() {
    assert_eq!(lock_dir("vopono_mv_se"), "vopono/locks/vopono_mv_se");
    assert_eq!(lock_path("vopono_mv_se", 4711), "vopono/locks/vopono_mv_se/4711.lock");
    assert_eq!(lock_path("n", 0), "vopono/locks/n/0.lock");
    assert_eq!(lock_path("n", 4294967295), "vopono/locks/n/4294967295.lock");
}

#[test]
fn lock_record_holds_both_veth_addresses() {
    let r = record("vopono_mv_se", 42, 5);
    assert_eq!(r.namespace, "vopono_mv_se");
    assert_eq!(r.pid, 42);
    assert_eq!(r.provider, VpnProvider::Mullvad);
    assert_eq!(r.protocol, Protocol::Wireguard);
    assert_eq!(r.application, "firefox");
    assert_eq!(r.user, "alice");
    assert_eq!(r.group, "users");
    assert_eq!(r.veth_host_ip, IpAddress::V4(10, 200, 5, 1));
    assert_eq!(r.veth_ns_ip, IpAddress::V4(10, 200, 5, 2));
    assert_eq!(r.subnet(), Some(TargetSubnet { octet: 5 }));
}

#[test]
fn records_are_listed_by_namespace() {
    let records = vec![
        record("vopono_mv_se", 1, 0),
        record("vopono_pia_us", 2, 1),
        record("vopono_mv_se", 3, 0),
    ];
    assert_eq!(list(&records, None), vec![0, 1, 2]);
    assert_eq!(list(&records, Some("vopono_mv_se")), vec![0, 2]);
    assert_eq!(list(&records, Some("vopono_pia_us")), vec![1]);
    assert_eq!(list(&records, Some("vopono_mv")), Vec::<usize>::new());
    assert_eq!(owner_count(&records, "vopono_mv_se"), 2);
    assert_eq!(owner_count(&records, "vopono_tig_uk"), 0);
    assert_eq!(find_owner(&records, "vopono_mv_se"), Some(0));
    assert_eq!(find_owner(&records, "vopono_pia_us"), Some(1));
    assert_eq!(find_owner(&records, "vopono_tig_uk"), None);
}

#[test]
fn dead_locks_are_collected() {
    let records = vec![
        record("vopono_mv_se", 10, 0),
        record("vopono_pia_us", 11, 1),
        record("vopono_mv_se", 12, 0),
        record("vopono_tig_uk", 13, 2),
    ];
    let live = vec![12, 11];
    let namespaces = vec![
        "vopono_mv_se".to_string(),
        "vopono_tig_uk".to_string(),
        "other".to_string(),
        "vopono_pia_us".to_string(),
        "vopono_cus_home".to_string(),
    ];
    let plan = gc(&records, &live, &namespaces);
    assert_eq!(plan.dead_locks, vec![0, 3]);
    assert_eq!(plan.orphans, vec![1, 4]);
}

#[test]
fn killed_owner_is_collected_with_its_namespace() {
    let records = vec![record("vopono_mv_se", 10, 0)];
    let namespaces = vec!["vopono_mv_se".to_string()];
    let plan = gc(&records, &Vec::new(), &namespaces);
    assert_eq!(plan.dead_locks, vec![0]);
    assert_eq!(plan.orphans, vec![0]);
    let after: Vec<LockRecord> = Vec::new();
    assert_eq!(plan_entry(false, owner_count(&after, "vopono_mv_se")), Ok(Entry::Create));
}

#[test]
fn nothing_is_collected_while_everybody_lives() {
    let records = vec![record("vopono_mv_se", 10, 0), record("vopono_pia_us", 11, 1)];
    let namespaces = vec!["vopono_mv_se".to_string(), "vopono_pia_us".to_string()];
    let plan = gc(&records, &vec![10, 11], &namespaces);
    assert_eq!(plan.dead_locks, Vec::<usize>::new());
    assert_eq!(plan.orphans, Vec::<usize>::new());
}

#[test]
fn foreign_namespaces_are_never_touched() {
    let plan = gc(&Vec::new(), &Vec::new(), &vec!["docker0".to_string(), "vopono".to_string()]);
    assert_eq!(plan.orphans, Vec::<usize>::new());
    assert!(is_tool_namespace("vopono_mv_se"));
    assert!(is_tool_namespace("vopono_"));
    assert!(!is_tool_namespace("vopono"));
    assert!(!is_tool_namespace("xvopono_mv_se"));
    assert!(!is_tool_namespace(""));
}

#[test]
fn liveness_of_owners() {
    let records = vec![record("vopono_mv_se", 10, 0), record("vopono_mv_se", 11, 0)];
    assert!(pid_is_live(&vec![3, 10], 10));
    assert!(!pid_is_live(&vec![3, 10], 11));
    assert!(!pid_is_live(&Vec::new(), 0));
    assert!(live_owner_exists(&records, &vec![11], "vopono_mv_se"));
    assert!(!live_owner_exists(&records, &vec![12], "vopono_mv_se"));
    assert!(!live_owner_exists(&records, &vec![11], "vopono_pia_us"));
}
