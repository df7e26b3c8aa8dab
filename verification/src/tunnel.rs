//! Tunnels: who may reach them, what the HTTP path needs of them, and the
//! handle by which a session owns one.
use vstd::prelude::*;
use crate::names::in_pool;
use crate::registry::Registry;
use crate::stats::Stats;

verus! {

/// Who may send requests through a tunnel.
#[derive(Debug)]
pub enum TunnelAccess {
    /// Only the named user, once authenticated.
    Private(String),
    /// Any authenticated user.
    Protected,
    /// Anybody.
    Public,
}

/// `TunnelAccess` as a mathematical value.
pub ghost enum Access {
    Private(Seq<char>),
    Protected,
    Public,
}

impl View for TunnelAccess {
    type V = Access;

    open spec fn view(&self) -> Access {
        match self {
            TunnelAccess::Private(owner) => Access::Private(owner@),
            TunnelAccess::Protected => Access::Protected,
            TunnelAccess::Public => Access::Public,
        }
    }
}

impl Clone for TunnelAccess {
    fn clone(&self) -> (r: Self)
        ensures
            r@ == self@,
    {
        match self {
            TunnelAccess::Private(owner) => TunnelAccess::Private(owner.clone()),
            TunnelAccess::Protected => TunnelAccess::Protected,
            TunnelAccess::Public => TunnelAccess::Public,
        }
    }
}

impl TunnelAccess {
    pub fn is_public(&self) -> (r: bool)
        ensures
            r == (self@ == Access::Public),
    {
        match self {
            TunnelAccess::Public => true,
            _ => false,
        }
    }
}

/// The part of a tunnel that the HTTP path works with.
#[derive(Debug)]
pub struct TunnelInner {
    /// The number under which the registry keeps the tunnel.
    pub id: u64,
    /// The SSH session on which channels to the developer are opened.
    pub handle: u64,
    /// The address that the developer asked to have forwarded.
    pub internal_address: String,
    /// The forwarded port, as the developer gave it.
    pub port: u32,
    pub access: TunnelAccess,
    pub stats: Stats,
}

/// `TunnelInner` as a mathematical value.
pub ghost struct TunnelInnerView {
    pub id: u64,
    pub handle: u64,
    pub internal_address: Seq<char>,
    pub port: u32,
    pub access: Access,
    pub stats: Stats,
}

impl View for TunnelInner {
    type V = TunnelInnerView;

    open spec fn view(&self) -> TunnelInnerView {
        TunnelInnerView {
            id: self.id,
            handle: self.handle,
            internal_address: self.internal_address@,
            port: self.port,
            access: self.access@,
            stats: self.stats,
        }
    }
}

impl Clone for TunnelInner {
    fn clone(&self) -> (r: Self)
        ensures
            r@ == self@,
    {
        TunnelInner {
            id: self.id,
            handle: self.handle,
            internal_address: self.internal_address.clone(),
            port: self.port,
            access: self.access.clone(),
            stats: self.stats,
        }
    }
}

/// Under which name a tunnel is published, and whether it is.
#[derive(Debug)]
pub struct RegistryEntry {
    /// The label that forms the subdomain; empty until one is chosen.
    pub name: String,
    /// The public name, present exactly while the tunnel is attached.
    pub address: Option<String>,
}

/// `RegistryEntry` as a mathematical value.
pub ghost struct RegistryEntryView {
    pub name: Seq<char>,
    pub address: Option<Seq<char>>,
}

/// The view of an optional string.
pub open spec fn optional_text(s: Option<String>) -> Option<Seq<char>> {
    match s {
        Some(s) => Some(s@),
        None => None,
    }
}

impl View for RegistryEntry {
    type V = RegistryEntryView;

    open spec fn view(&self) -> RegistryEntryView {
        RegistryEntryView { name: self.name@, address: optional_text(self.address) }
    }
}

impl RegistryEntry {
    /// The entry of a tunnel that has no name yet and is not attached.
    pub fn new() -> (r: RegistryEntry)
        ensures
            r@ == (RegistryEntryView { name: Seq::empty(), address: None }),
    {
        RegistryEntry { name: String::new(), address: None }
    }

    pub fn get_address(&self) -> (r: Option<&String>)
        ensures
            r.is_some() == self@.address.is_some(),
            r.is_some() ==> r.unwrap()@ == self@.address.unwrap(),
    {
        self.address.as_ref()
    }

    pub fn get_name(&self) -> (r: &str)
        ensures
            r@ == self@.name,
    {
        self.name.as_str()
    }
}

/// The handle by which a session owns a tunnel. The tunnel itself lives in
/// the registry, where the HTTP path finds it; the handle is the only way
/// to rename it or to drop it.
#[derive(Debug)]
pub struct Tunnel {
    id: u64,
}

impl Tunnel {
    /// The number under which the registry keeps the tunnel.
    pub closed spec fn id(&self) -> u64 {
        self.id
    }

    pub fn number(&self) -> (r: u64)
        ensures
            r == self.id(),
    {
        self.id
    }

    /// Creates a tunnel and registers it, with `candidate` as the name to
    /// use where the pool has to supply one.
    pub fn create_as(
        registry: &mut Registry,
        handle: u64,
        internal_address: &str,
        port: u32,
        access: TunnelAccess,
        candidate: &str,
    ) -> (r: Tunnel)
        requires
            old(registry).wf(),
            old(registry)@.next_id < u64::MAX,
        ensures
            final(registry).wf(),
            r.id() == old(registry)@.next_id,
            final(registry)@ == old(registry)@.inserted(
                handle,
                internal_address@,
                port,
                access@,
            ).registered(r.id(), candidate@),
    {
        let id = registry.insert(handle, internal_address, port, access);
        registry.register_as(id, candidate);
        Tunnel { id }
    }

    /// Creates a tunnel for a forward of `internal_address` and registers
    /// it: under that address, or, for `localhost`, under a name drawn from
    /// the pool.
    pub fn create(
        registry: &mut Registry,
        handle: u64,
        internal_address: &str,
        port: u32,
        access: TunnelAccess,
    ) -> (r: Tunnel)
        requires
            old(registry).wf(),
            old(registry)@.next_id < u64::MAX,
        ensures
            final(registry).wf(),
            r.id() == old(registry)@.next_id,
            exists|candidate: Seq<char>|
                in_pool(candidate) && final(registry)@ == #[trigger] old(registry)@.inserted(
                    handle,
                    internal_address@,
                    port,
                    access@,
                ).registered(r.id(), candidate),
    {
        let id = registry.insert(handle, internal_address, port, access);
        registry.register(id);
        Tunnel { id }
    }

    pub fn set_access(&self, registry: &mut Registry, access: TunnelAccess)
        requires
            old(registry).wf(),
        ensures
            final(registry).wf(),
            final(registry)@ == old(registry)@.with_access(self.id(), access@),
    {
        registry.set_access(self.id, access);
    }

    /// Who may reach the tunnel; nothing once it was dropped.
    pub fn access(&self, registry: &Registry) -> (r: Option<TunnelAccess>)
        requires
            registry.wf(),
        ensures
            r.is_some() == registry@.holds(self.id()),
            r.is_some() ==> r.unwrap()@ == registry@.tunnel(self.id()).inner.access,
    {
        match registry.inner(self.id) {
            Some(inner) => Some(inner.access),
            None => None,
        }
    }

    pub fn is_public(&self, registry: &Registry) -> (r: bool)
        requires
            registry.wf(),
        ensures
            r == (registry@.holds(self.id()) && registry@.tunnel(self.id()).inner.access
                == Access::Public),
    {
        match registry.inner(self.id) {
            Some(inner) => inner.access.is_public(),
            None => false,
        }
    }

    /// The public name at which the tunnel is attached, if it is.
    pub fn get_address(&self, registry: &Registry) -> (r: Option<String>)
        requires
            registry.wf(),
        ensures
            r.is_some() == (registry@.holds(self.id()) && registry@.tunnel(
                self.id(),
            ).entry.address.is_some()),
            r.is_some() ==> Some(r.unwrap()@) == registry@.tunnel(self.id()).entry.address,
    {
        match registry.entry(self.id) {
            Some(entry) => entry.address,
            None => None,
        }
    }

    /// The tunnel's name; empty once it was dropped.
    pub fn get_name(&self, registry: &Registry) -> (r: String)
        requires
            registry.wf(),
        ensures
            r@ == (if registry@.holds(self.id()) {
                registry@.tunnel(self.id()).entry.name
            } else {
                Seq::empty()
            }),
    {
        match registry.entry(self.id) {
            Some(entry) => entry.name,
            None => String::new(),
        }
    }

    /// The tunnel's counters; nothing once it was dropped.
    pub fn stats(&self, registry: &Registry) -> (r: Option<Stats>)
        requires
            registry.wf(),
        ensures
            r.is_some() == registry@.holds(self.id()),
            r.is_some() ==> r.unwrap() == registry@.tunnel(self.id()).inner.stats,
    {
        match registry.inner(self.id) {
            Some(inner) => Some(inner.stats),
            None => None,
        }
    }

    /// Detaches the tunnel, names it `name` and registers it again.
    pub fn set_name(&self, registry: &mut Registry, name: &str)
        requires
            old(registry).wf(),
        ensures
            final(registry).wf(),
            exists|candidate: Seq<char>|
                in_pool(candidate) && final(registry)@ == #[trigger] old(registry)@.renamed(
                    self.id(),
                    name@,
                    candidate,
                ),
    {
        registry.rename(self.number(), name);
    }

    /// Registers the tunnel once more; an attached tunnel stays as it is.
    pub fn retry(&self, registry: &mut Registry)
        requires
            old(registry).wf(),
        ensures
            final(registry).wf(),
            exists|candidate: Seq<char>|
                in_pool(candidate) && final(registry)@ == #[trigger] old(registry)@.registered(
                    self.id(),
                    candidate,
                ),
    {
        registry.register(self.number());
    }

    /// Counts a connection and returns what is needed to open a channel to
    /// the developer.
    pub fn open(&self, registry: &mut Registry) -> (r: Option<TunnelInner>)
        requires
            old(registry).wf(),
        ensures
            final(registry).wf(),
            r.is_some() == old(registry)@.holds(self.id()),
            r.is_some() ==> r.unwrap()@ == old(registry)@.tunnel(self.id()).inner,
            final(registry)@ == old(registry)@.with_stats(
                self.id(),
                Stats {
                    connections: crate::stats::wrapped_sum(
                        old(registry)@.tunnel(self.id()).inner.stats.connections,
                        1,
                    ),
                    ..old(registry)@.tunnel(self.id()).inner.stats
                },
            ),
    {
        registry.open(self.id)
    }

    /// Drops the tunnel: it leaves the registry, and its public name is
    /// free again.
    pub fn close(self, registry: &mut Registry)
        requires
            old(registry).wf(),
        ensures
            final(registry).wf(),
            final(registry)@ == old(registry)@.released(self.id()),
    {
        registry.release(self.id);
    }
}

} // verus!
