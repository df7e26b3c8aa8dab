use siranga::registry::Registry;
use siranga::stats::{Polled, Stats};
use siranga::tunnel::{Tunnel, TunnelAccess};

fn private(owner: &str) -> TunnelAccess {
    TunnelAccess::Private(owner.to_string())
}

#[test]
fn address_is_name_dot_apex() {
    let registry = Registry::new("tunnel.example.com");
    assert_eq!(registry.address("kitten"), "kitten.tunnel.example.com");
    assert_eq!(registry.address(""), ".tunnel.example.com");
}

#[test]
fn new_registry_is_empty() {
    let registry = Registry::new("tunnel.example.com");
    assert_eq!(registry.len(), 0);
    assert!(registry.has_room());
    assert!(registry.get("kitten.tunnel.example.com").is_none());
}

#[test]
fn custom_forward_is_registered_under_its_address() {
    let mut registry = Registry::new("tunnel.example.com");
    let tunnel = Tunnel::create(&mut registry, 7, "custom", 8080, private("alice"));
    assert_eq!(tunnel.get_name(&registry), "custom");
    assert_eq!(tunnel.get_address(&registry), Some("custom.tunnel.example.com".to_string()));
    let inner = registry.get("custom.tunnel.example.com").unwrap();
    assert_eq!(inner.id, tunnel.number());
    assert_eq!(inner.handle, 7);
    assert_eq!(inner.internal_address, "custom");
    assert_eq!(inner.port, 8080);
    assert!(matches!(inner.access, TunnelAccess::Private(ref owner) if owner == "alice"));
    assert_eq!(inner.stats, Stats { connections: 0, rx: 0, tx: 0 });
}

#[test]
fn localhost_forward_gets_the_candidate_name() {
    let mut registry = Registry::new("tunnel.example.com");
    let tunnel =
        Tunnel::create_as(&mut registry, 1, "localhost", 8080, private("alice"), "kitten");
    assert_eq!(tunnel.get_name(&registry), "kitten");
    assert_eq!(tunnel.get_address(&registry), Some("kitten.tunnel.example.com".to_string()));
    assert!(registry.get("kitten.tunnel.example.com").is_some());
    assert!(registry.get("localhost.tunnel.example.com").is_none());
}

#[test]
fn localhost_forward_gets_a_pool_name() {
    let mut registry = Registry::new("tunnel.example.com");
    let tunnel = Tunnel::create(&mut registry, 1, "localhost", 8080, private("alice"));
    let name = tunnel.get_name(&registry);
    assert!(siranga::names::animals().contains(&name.as_str()));
    assert_eq!(tunnel.get_address(&registry), Some(format!("{name}.tunnel.example.com")));
}

#[test]
fn collision_leaves_the_second_tunnel_detached() {
    let mut registry = Registry::new("tunnel.example.com");
    let a = Tunnel::create(&mut registry, 1, "custom", 80, private("alice"));
    let b = Tunnel::create(&mut registry, 2, "custom", 81, private("bob"));
    assert_eq!(a.get_address(&registry), Some("custom.tunnel.example.com".to_string()));
    assert_eq!(b.get_address(&registry), None);
    assert_eq!(b.get_name(&registry), "custom");
    let found = registry.get("custom.tunnel.example.com").unwrap();
    assert_eq!(found.id, a.number());
    assert_eq!(found.handle, 1);
    assert_eq!(registry.len(), 2);
}

#[test]
fn taken_candidate_leaves_a_localhost_tunnel_detached() {
    let mut registry = Registry::new("tunnel.example.com");
    let a = Tunnel::create_as(&mut registry, 1, "localhost", 80, private("alice"), "kitten");
    let b = Tunnel::create_as(&mut registry, 2, "localhost", 80, private("bob"), "kitten");
    assert!(a.get_address(&registry).is_some());
    assert_eq!(b.get_address(&registry), None);
    assert_eq!(b.get_name(&registry), "kitten");
}

#[test]
fn retry_attaches_once_the_name_is_free() {
    let mut registry = Registry::new("tunnel.example.com");
    let a = Tunnel::create(&mut registry, 1, "custom", 80, private("alice"));
    let b = Tunnel::create(&mut registry, 2, "custom", 81, private("bob"));
    b.retry(&mut registry);
    assert_eq!(b.get_address(&registry), None);
    a.close(&mut registry);
    assert!(registry.get("custom.tunnel.example.com").is_none());
    b.retry(&mut registry);
    assert_eq!(b.get_address(&registry), Some("custom.tunnel.example.com".to_string()));
    assert_eq!(registry.get("custom.tunnel.example.com").unwrap().handle, 2);
}

#[test]
fn retry_of_an_attached_tunnel_changes_nothing() {
    let mut registry = Registry::new("tunnel.example.com");
    let a = Tunnel::create(&mut registry, 1, "custom", 80, private("alice"));
    a.retry(&mut registry);
    a.retry(&mut registry);
    assert_eq!(registry.len(), 1);
    assert_eq!(a.get_name(&registry), "custom");
    assert_eq!(a.get_address(&registry), Some("custom.tunnel.example.com".to_string()));
}

#[test]
fn rename_moves_the_tunnel_to_the_new_name() {
    let mut registry = Registry::new("tunnel.example.com");
    let a = Tunnel::create_as(&mut registry, 1, "localhost", 80, private("alice"), "kitten");
    a.set_name(&mut registry, "puppy");
    assert_eq!(a.get_name(&registry), "puppy");
    assert_eq!(a.get_address(&registry), Some("puppy.tunnel.example.com".to_string()));
    assert!(registry.get("kitten.tunnel.example.com").is_none());
    assert_eq!(registry.get("puppy.tunnel.example.com").unwrap().id, a.number());
}

#[test]
fn rename_to_a_taken_name_detaches() {
    let mut registry = Registry::new("tunnel.example.com");
    let a = Tunnel::create(&mut registry, 1, "one", 80, private("alice"));
    let b = Tunnel::create(&mut registry, 2, "two", 80, private("alice"));
    b.set_name(&mut registry, "one");
    assert_eq!(b.get_address(&registry), None);
    assert_eq!(b.get_name(&registry), "one");
    assert!(registry.get("two.tunnel.example.com").is_none());
    assert_eq!(registry.get("one.tunnel.example.com").unwrap().id, a.number());
}

#[test]
fn rename_to_the_own_name_changes_nothing() {
    let mut registry = Registry::new("tunnel.example.com");
    let a = Tunnel::create(&mut registry, 1, "one", 80, private("alice"));
    a.set_name(&mut registry, "one");
    assert_eq!(a.get_name(&registry), "one");
    assert_eq!(a.get_address(&registry), Some("one.tunnel.example.com".to_string()));
    assert_eq!(registry.len(), 1);
}

#[test]
fn rename_to_an_empty_name_falls_back_to_the_forwarded_address() {
    let mut registry = Registry::new("tunnel.example.com");
    let a = Tunnel::create(&mut registry, 1, "one", 80, private("alice"));
    a.set_name(&mut registry, "other");
    a.set_name(&mut registry, "");
    assert_eq!(a.get_name(&registry), "one");
    assert_eq!(a.get_address(&registry), Some("one.tunnel.example.com".to_string()));
}

#[test]
fn rename_as_with_an_empty_name_uses_the_candidate_for_localhost() {
    let mut registry = Registry::new("tunnel.example.com");
    let a = Tunnel::create_as(&mut registry, 1, "localhost", 80, private("alice"), "kitten");
    registry.rename_as(a.number(), "", "otter");
    assert_eq!(a.get_name(&registry), "otter");
    assert_eq!(a.get_address(&registry), Some("otter.tunnel.example.com".to_string()));
}

#[test]
fn set_access_is_read_back() {
    let mut registry = Registry::new("tunnel.example.com");
    let a = Tunnel::create(&mut registry, 1, "one", 80, private("alice"));
    assert!(!a.is_public(&registry));
    a.set_access(&mut registry, TunnelAccess::Public);
    assert!(a.is_public(&registry));
    assert!(matches!(a.access(&registry), Some(TunnelAccess::Public)));
    a.set_access(&mut registry, TunnelAccess::Protected);
    assert!(matches!(a.access(&registry), Some(TunnelAccess::Protected)));
    a.set_access(&mut registry, private("carol"));
    assert!(matches!(a.access(&registry), Some(TunnelAccess::Private(ref o)) if o == "carol"));
}

#[test]
fn set_access_is_seen_by_a_lookup_without_registering_again() {
    let mut registry = Registry::new("tunnel.example.com");
    let a = Tunnel::create(&mut registry, 1, "one", 80, private("alice"));
    a.set_access(&mut registry, TunnelAccess::Public);
    let found = registry.get("one.tunnel.example.com").unwrap();
    assert!(matches!(found.access, TunnelAccess::Public));
}

#[test]
fn set_access_leaves_other_tunnels_alone() {
    let mut registry = Registry::new("tunnel.example.com");
    let a = Tunnel::create(&mut registry, 1, "one", 80, private("alice"));
    let b = Tunnel::create(&mut registry, 1, "two", 80, private("alice"));
    a.set_access(&mut registry, TunnelAccess::Public);
    assert!(matches!(b.access(&registry), Some(TunnelAccess::Private(ref o)) if o == "alice"));
}

#[test]
fn close_frees_the_name() {
    let mut registry = Registry::new("tunnel.example.com");
    let a = Tunnel::create(&mut registry, 1, "one", 80, private("alice"));
    let id = a.number();
    a.close(&mut registry);
    assert!(registry.get("one.tunnel.example.com").is_none());
    assert!(!registry.contains(id));
    assert_eq!(registry.len(), 0);
    let b = Tunnel::create(&mut registry, 2, "one", 80, private("bob"));
    assert_eq!(b.get_address(&registry), Some("one.tunnel.example.com".to_string()));
    assert_ne!(b.number(), id);
}

#[test]
fn a_dropped_tunnel_answers_nothing() {
    let mut registry = Registry::new("tunnel.example.com");
    let a = Tunnel::create(&mut registry, 1, "one", 80, private("alice"));
    let id = a.number();
    a.close(&mut registry);
    assert!(registry.inner(id).is_none());
    assert!(registry.entry(id).is_none());
    assert!(registry.open(id).is_none());
    registry.set_access(id, TunnelAccess::Public);
    registry.register(id);
    registry.rename(id, "again");
    registry.release(id);
    assert_eq!(registry.len(), 0);
}

#[test]
fn open_counts_one_connection_each_time() {
    let mut registry = Registry::new("tunnel.example.com");
    let a = Tunnel::create(&mut registry, 9, "one", 8080, private("alice"));
    let target = a.open(&mut registry).unwrap();
    assert_eq!(target.handle, 9);
    assert_eq!(target.internal_address, "one");
    assert_eq!(target.port, 8080);
    assert_eq!(target.stats.connections, 0);
    assert_eq!(a.stats(&registry).unwrap().connections, 1);
    a.open(&mut registry);
    a.open(&mut registry);
    assert_eq!(a.stats(&registry).unwrap().connections, 3);
}

#[test]
fn traffic_is_counted_on_the_tunnel() {
    let mut registry = Registry::new("tunnel.example.com");
    let a = Tunnel::create(&mut registry, 9, "one", 8080, private("alice"));
    let b = Tunnel::create(&mut registry, 9, "two", 8080, private("alice"));
    registry.record_read(a.number(), Polled::Ready(500));
    registry.record_write(a.number(), Polled::Ready(70));
    registry.record_write(a.number(), Polled::Failed);
    registry.record_read(a.number(), Polled::Pending);
    assert_eq!(a.stats(&registry), Some(Stats { connections: 0, rx: 70, tx: 500 }));
    assert_eq!(b.stats(&registry), Some(Stats { connections: 0, rx: 0, tx: 0 }));
    let found = registry.get("one.tunnel.example.com").unwrap();
    assert_eq!(found.stats, Stats { connections: 0, rx: 70, tx: 500 });
}

#[test]
fn generated_names_are_free() {
    let mut registry = Registry::new("tunnel.example.com");
    for _ in 0..20 {
        let name = registry.generate_tunnel_name();
        assert!(registry.get(&registry.address(&name)).is_none());
        let id = registry.insert(1, "localhost", 80, TunnelAccess::Public);
        registry.register_as(id, &name);
        assert!(registry.get(&registry.address(&name)).is_some());
    }
    assert_eq!(registry.len(), 20);
}

#[test]
fn name_generation_ends_when_the_pool_is_used_up() {
    let mut registry = Registry::new("tunnel.example.com");
    for name in siranga::names::animals() {
        let id = registry.insert(1, "localhost", 80, TunnelAccess::Public);
        registry.register_as(id, name);
    }
    assert_eq!(registry.len(), 40);
    let name = registry.generate_tunnel_name();
    assert!(siranga::names::animals().contains(&name.as_str()));
    let late = Tunnel::create(&mut registry, 1, "localhost", 80, TunnelAccess::Public);
    assert_eq!(late.get_address(&registry), None);
    assert!(!late.get_name(&registry).is_empty());
}

#[test]
fn tunnels_are_numbered_in_order() {
    let mut registry = Registry::new("apex");
    let a = registry.insert(1, "a", 1, TunnelAccess::Public);
    let b = registry.insert(1, "b", 1, TunnelAccess::Public);
    assert_eq!(a, 0);
    assert_eq!(b, 1);
    assert!(registry.contains(a));
    assert!(registry.contains(b));
    assert!(!registry.contains(2));
    let entry = registry.entry(a).unwrap();
    assert_eq!(entry.get_name(), "");
    assert!(entry.get_address().is_none());
}

#[test]
fn candidates_are_drawn_only_for_unnamed_localhost_tunnels() {
    let mut registry = Registry::new("apex");
    let custom = registry.insert(1, "custom", 80, TunnelAccess::Public);
    let local = registry.insert(1, "localhost", 80, TunnelAccess::Public);
    assert_eq!(registry.candidate(custom, None), "");
    assert_eq!(registry.candidate(custom, Some("")), "");
    assert_eq!(registry.candidate(99, None), "");
    assert!(siranga::names::animals().contains(&registry.candidate(local, None).as_str()));
    assert!(siranga::names::animals().contains(&registry.candidate(local, Some("")).as_str()));
    assert_eq!(registry.candidate(local, Some("named")), "");
    registry.register_as(local, "kitten");
    assert_eq!(registry.candidate(local, None), "");
}

#[test]
fn a_name_is_free_until_a_tunnel_is_attached_under_it() {
    let mut registry = Registry::new("apex");
    assert!(registry.is_free("one"));
    let a = Tunnel::create(&mut registry, 1, "one", 80, TunnelAccess::Public);
    assert!(!registry.is_free("one"));
    assert!(registry.is_free("two"));
    let b = Tunnel::create(&mut registry, 1, "one", 80, TunnelAccess::Public);
    assert_eq!(b.get_address(&registry), None);
    a.close(&mut registry);
    assert!(registry.is_free("one"));
}
