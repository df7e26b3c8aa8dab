//! The registry: every live tunnel of the process, and the public names
//! under which the attached ones are reachable.
use vstd::prelude::*;
use vstd::string::*;
use crate::names::{get_animal_name, in_pool, lemma_pool_has_kitten};
use crate::stats::{Polled, Stats};
use crate::text::join;
use crate::tunnel::{
    Access, RegistryEntry, RegistryEntryView, TunnelAccess, TunnelInner, TunnelInnerView,
};

verus! {

/// One tunnel as the registry keeps it.
#[derive(Debug)]
pub struct Slot {
    pub inner: TunnelInner,
    pub entry: RegistryEntry,
}

/// `Slot` as a mathematical value.
pub ghost struct SlotView {
    pub inner: TunnelInnerView,
    pub entry: RegistryEntryView,
}

impl View for Slot {
    type V = SlotView;

    open spec fn view(&self) -> SlotView {
        SlotView { inner: self.inner@, entry: self.entry@ }
    }
}

/// The public name of a tunnel called `name` under the apex `domain`.
pub open spec fn fqdn(name: Seq<char>, domain: Seq<char>) -> Seq<char> {
    name + "."@ + domain
}

/// The registry as a mathematical value: the apex, the tunnels in the order
/// in which they were created, and the number that the next tunnel gets.
pub ghost struct RegistryView {
    pub domain: Seq<char>,
    pub slots: Seq<SlotView>,
    pub next_id: u64,
}

impl RegistryView {
    /// What holds of every registry: no two tunnels share a number, no two
    /// share a public name, and a public name is always the tunnel's name
    /// under the apex.
    pub open spec fn wf(self) -> bool {
        &&& forall|i: int, j: int|
            0 <= i < j < self.slots.len() ==> self.slots[i].inner.id != self.slots[j].inner.id
        &&& forall|i: int| 0 <= i < self.slots.len() ==> self.slots[i].inner.id < self.next_id
        &&& forall|i: int, j: int|
            0 <= i < j < self.slots.len() && self.slots[i].entry.address.is_some()
                ==> self.slots[i].entry.address != self.slots[j].entry.address
        &&& forall|i: int|
            0 <= i < self.slots.len() && self.slots[i].entry.address.is_some()
                ==> self.slots[i].entry.address == Some(
                fqdn(self.slots[i].entry.name, self.domain),
            )
    }

    /// Whether the tunnel numbered `id` is alive.
    pub open spec fn holds(self, id: u64) -> bool {
        exists|i: int| 0 <= i < self.slots.len() && self.slots[i].inner.id == id
    }

    /// Where the tunnel numbered `id` stands.
    pub open spec fn index_of(self, id: u64) -> int {
        choose|i: int| 0 <= i < self.slots.len() && self.slots[i].inner.id == id
    }

    /// The tunnel numbered `id`.
    pub open spec fn tunnel(self, id: u64) -> SlotView {
        self.slots[self.index_of(id)]
    }

    /// Whether some tunnel is attached at `address`.
    pub open spec fn routed(self, address: Seq<char>) -> bool {
        exists|i: int| 0 <= i < self.slots.len() && self.slots[i].entry.address == Some(address)
    }

    /// Where the tunnel attached at `address` stands.
    pub open spec fn route_index(self, address: Seq<char>) -> int {
        choose|i: int| 0 <= i < self.slots.len() && self.slots[i].entry.address == Some(address)
    }

    /// What a lookup of `address` finds.
    pub open spec fn lookup(self, address: Seq<char>) -> Option<TunnelInnerView> {
        if self.routed(address) {
            Some(self.slots[self.route_index(address)].inner)
        } else {
            None
        }
    }

    /// The registry with the tunnel numbered `id` replaced by `slot`.
    pub open spec fn with_slot(self, id: u64, slot: SlotView) -> RegistryView {
        if self.holds(id) {
            RegistryView { slots: self.slots.update(self.index_of(id), slot), ..self }
        } else {
            self
        }
    }

    /// The registry after a tunnel with these properties was created: it
    /// gets the next number, has no name and is detached.
    pub open spec fn inserted(
        self,
        handle: u64,
        internal_address: Seq<char>,
        port: u32,
        access: Access,
    ) -> RegistryView {
        RegistryView {
            slots: self.slots.push(
                SlotView {
                    inner: TunnelInnerView {
                        id: self.next_id,
                        handle,
                        internal_address,
                        port,
                        access,
                        stats: Stats { connections: 0, rx: 0, tx: 0 },
                    },
                    entry: RegistryEntryView { name: Seq::empty(), address: None },
                },
            ),
            next_id: (self.next_id + 1) as u64,
            ..self
        }
    }

    /// The name under which a tunnel is registered: the one it has; without
    /// one, the address that the developer forwarded, unless that is
    /// `localhost`, which gets `candidate`.
    pub open spec fn chosen_name(slot: SlotView, candidate: Seq<char>) -> Seq<char> {
        if slot.entry.name.len() > 0 {
            slot.entry.name
        } else if slot.inner.internal_address != "localhost"@ {
            slot.inner.internal_address
        } else {
            candidate
        }
    }

    /// Whether registering the tunnel numbered `id` takes a name from the
    /// pool: the tunnel forwards `localhost` and is without a name, either
    /// because it is about to be renamed to the empty name `name`, or
    /// because it is detached and has none.
    pub open spec fn needs_candidate(self, id: u64, name: Option<Seq<char>>) -> bool {
        &&& self.holds(id)
        &&& self.tunnel(id).inner.internal_address == "localhost"@
        &&& match name {
            Some(name) => name.len() == 0,
            None => self.tunnel(id).entry.name.len() == 0 && self.tunnel(
                id,
            ).entry.address.is_none(),
        }
    }

    /// The registry after the tunnel numbered `id` was registered. An
    /// attached tunnel stays as it is. A detached one gets its name and is
    /// attached under it if that public name is free; if it is taken, the
    /// tunnel stays detached and the name's holder is not touched.
    pub open spec fn registered(self, id: u64, candidate: Seq<char>) -> RegistryView {
        if !self.holds(id) || self.tunnel(id).entry.address.is_some() {
            self
        } else {
            let slot = self.tunnel(id);
            let name = Self::chosen_name(slot, candidate);
            let address = fqdn(name, self.domain);
            self.with_slot(
                id,
                SlotView {
                    entry: RegistryEntryView {
                        name,
                        address: if self.routed(address) {
                            None
                        } else {
                            Some(address)
                        },
                    },
                    ..slot
                },
            )
        }
    }

    /// The registry after the tunnel numbered `id` was detached and given
    /// the name `name`, before it is registered again.
    pub open spec fn unnamed(self, id: u64, name: Seq<char>) -> RegistryView {
        self.with_slot(
            id,
            SlotView { entry: RegistryEntryView { name, address: None }, ..self.tunnel(id) },
        )
    }

    /// The registry after the tunnel numbered `id` was renamed to `name`.
    pub open spec fn renamed(self, id: u64, name: Seq<char>, candidate: Seq<char>) -> RegistryView {
        self.unnamed(id, name).registered(id, candidate)
    }

    /// The registry after the tunnel numbered `id` was dropped.
    pub open spec fn released(self, id: u64) -> RegistryView {
        if self.holds(id) {
            RegistryView { slots: self.slots.remove(self.index_of(id)), ..self }
        } else {
            self
        }
    }

    /// The registry after the access of the tunnel numbered `id` was set.
    pub open spec fn with_access(self, id: u64, access: Access) -> RegistryView {
        self.with_slot(
            id,
            SlotView { inner: TunnelInnerView { access, ..self.tunnel(id).inner }, ..self.tunnel(id) },
        )
    }

    /// The registry after the counters of the tunnel numbered `id` were set.
    pub open spec fn with_stats(self, id: u64, stats: Stats) -> RegistryView {
        self.with_slot(
            id,
            SlotView { inner: TunnelInnerView { stats, ..self.tunnel(id).inner }, ..self.tunnel(id) },
        )
    }
}

/// In a well-formed registry a tunnel's number says where it stands.
pub proof fn lemma_index(v: RegistryView, i: int)
    requires
        v.wf(),
        0 <= i < v.slots.len(),
    ensures
        v.holds(v.slots[i].inner.id),
        v.index_of(v.slots[i].inner.id) == i,
        v.tunnel(v.slots[i].inner.id) == v.slots[i],
{
    let id = v.slots[i].inner.id;
    let j = v.index_of(id);
    assert(0 <= j < v.slots.len() && v.slots[j].inner.id == id);
    if j < i {
        assert(v.slots[j].inner.id != v.slots[i].inner.id);
    }
    if i < j {
        assert(v.slots[i].inner.id != v.slots[j].inner.id);
    }
}

/// In a well-formed registry a public name says which tunnel holds it.
pub proof fn lemma_route(v: RegistryView, i: int)
    requires
        v.wf(),
        0 <= i < v.slots.len(),
        v.slots[i].entry.address.is_some(),
    ensures
        v.routed(v.slots[i].entry.address.unwrap()),
        v.route_index(v.slots[i].entry.address.unwrap()) == i,
        v.lookup(v.slots[i].entry.address.unwrap()) == Some(v.slots[i].inner),
{
    let address = v.slots[i].entry.address.unwrap();
    assert(v.slots[i].entry.address == Some(address));
    let j = v.route_index(address);
    assert(0 <= j < v.slots.len() && v.slots[j].entry.address == Some(address));
    if j < i {
        assert(v.slots[j].entry.address != v.slots[i].entry.address);
    }
    if i < j {
        assert(v.slots[i].entry.address != v.slots[j].entry.address);
    }
}

/// Replacing a detached tunnel's entry keeps a registry well formed, as
/// long as the tunnel keeps its number and its new public name, if it gets
/// one, is free and is its name under the apex.
pub proof fn lemma_with_slot_wf(v: RegistryView, i: int, slot: SlotView)
    requires
        v.wf(),
        0 <= i < v.slots.len(),
        slot.inner.id == v.slots[i].inner.id,
        slot.entry.address.is_some() ==> slot.entry.address == Some(
            fqdn(slot.entry.name, v.domain),
        ),
        slot.entry.address.is_some() ==> forall|j: int|
            0 <= j < v.slots.len() && j != i ==> v.slots[j].entry.address != slot.entry.address,
    ensures
        (RegistryView { slots: v.slots.update(i, slot), ..v }).wf(),
{
    let w = RegistryView { slots: v.slots.update(i, slot), ..v };
    assert forall|a: int, b: int| 0 <= a < b < w.slots.len() implies w.slots[a].inner.id
        != w.slots[b].inner.id by {
        assert(v.slots[a].inner.id != v.slots[b].inner.id);
    }
    assert forall|a: int, b: int|
        0 <= a < b < w.slots.len() && w.slots[a].entry.address.is_some() implies w.slots[a].entry.address
        != w.slots[b].entry.address by {
        if a != i && b != i {
            assert(v.slots[a].entry.address != v.slots[b].entry.address);
        }
    }
}

/// Changing what the HTTP path sees of a tunnel, but not its number, name
/// or public name, keeps a registry well formed.
pub proof fn lemma_inner_update_wf(v: RegistryView, i: int, slot: SlotView)
    requires
        v.wf(),
        0 <= i < v.slots.len(),
        slot.inner.id == v.slots[i].inner.id,
        slot.entry == v.slots[i].entry,
    ensures
        (RegistryView { slots: v.slots.update(i, slot), ..v }).wf(),
{
    assert forall|j: int| 0 <= j < v.slots.len() && j != i && slot.entry.address.is_some() implies v.slots[j].entry.address
        != slot.entry.address by {
        if j < i {
            assert(v.slots[j].entry.address != v.slots[i].entry.address);
        } else {
            assert(v.slots[i].entry.address != v.slots[j].entry.address);
        }
    }
    lemma_with_slot_wf(v, i, slot);
}

/// Dropping a tunnel keeps a registry well formed.
pub proof fn lemma_released_wf(v: RegistryView, id: u64)
    requires
        v.wf(),
    ensures
        v.released(id).wf(),
{
    if v.holds(id) {
        let i = v.index_of(id);
        let w = v.released(id);
        assert forall|a: int| 0 <= a < w.slots.len() implies w.slots[a] == v.slots[if a < i {
            a
        } else {
            a + 1
        }] by {}
        assert forall|a: int, b: int| 0 <= a < b < w.slots.len() implies w.slots[a].inner.id
            != w.slots[b].inner.id by {
            let a0 = if a < i { a } else { a + 1 };
            let b0 = if b < i { b } else { b + 1 };
            assert(v.slots[a0].inner.id != v.slots[b0].inner.id);
        }
        assert forall|a: int, b: int|
            0 <= a < b < w.slots.len() && w.slots[a].entry.address.is_some() implies w.slots[a].entry.address
            != w.slots[b].entry.address by {
            let a0 = if a < i { a } else { a + 1 };
            let b0 = if b < i { b } else { b + 1 };
            assert(v.slots[a0].entry.address != v.slots[b0].entry.address);
        }
        assert forall|a: int| 0 <= a < w.slots.len() implies w.slots[a].inner.id < w.next_id by {
            let a0 = if a < i { a } else { a + 1 };
            assert(v.slots[a0].inner.id < v.next_id);
        }
        assert forall|a: int|
            0 <= a < w.slots.len() && w.slots[a].entry.address.is_some() implies w.slots[a].entry.address
            == Some(fqdn(w.slots[a].entry.name, w.domain)) by {
            let a0 = if a < i { a } else { a + 1 };
            assert(v.slots[a0].entry.address == Some(fqdn(v.slots[a0].entry.name, v.domain)));
        }
    }
}

/// The process-wide registry of tunnels.
#[derive(Debug)]
pub struct Registry {
    domain: String,
    slots: Vec<Slot>,
    next_id: u64,
}

impl View for Registry {
    type V = RegistryView;

    closed spec fn view(&self) -> RegistryView {
        RegistryView {
            domain: self.domain@,
            slots: self.slots@.map_values(|s: Slot| s@),
            next_id: self.next_id,
        }
    }
}

impl Registry {
    /// Whether the registry is well formed; every registry that this module
    /// hands out is.
    pub open spec fn wf(&self) -> bool {
        self@.wf()
    }

    /// An empty registry for the apex `domain`.
    pub fn new(domain: &str) -> (r: Registry)
        ensures
            r.wf(),
            r@ == (RegistryView { domain: domain@, slots: Seq::empty(), next_id: 0 }),
    {
        let r = Registry { domain: String::from_str(domain), slots: Vec::new(), next_id: 0 };
        assert(r@.slots =~= Seq::empty());
        r
    }

    /// The public name of a tunnel called `name`.
    pub fn address(&self, name: &str) -> (r: String)
        ensures
            r@ == fqdn(name@, self@.domain),
    {
        let dotted = join(name, ".");
        join(dotted.as_str(), self.domain.as_str())
    }

    /// How many tunnels are alive.
    pub fn len(&self) -> (r: usize)
        ensures
            r == self@.slots.len(),
    {
        self.slots.len()
    }

    /// Whether another tunnel can still be numbered.
    pub fn has_room(&self) -> (r: bool)
        ensures
            r == (self@.next_id < u64::MAX),
    {
        self.next_id < u64::MAX
    }

    fn position(&self, id: u64) -> (r: Option<usize>)
        requires
            self.wf(),
        ensures
            r.is_some() == self@.holds(id),
            r.is_some() ==> r.unwrap() < self.slots.len() && self@.index_of(id) == r.unwrap()
                && self.slots[r.unwrap() as int].inner.id == id,
    {
        let mut i: usize = 0;
        while i < self.slots.len()
            invariant
                i <= self.slots.len(),
                self.wf(),
                forall|j: int| 0 <= j < i ==> self@.slots[j].inner.id != id,
            decreases self.slots.len() - i,
        {
            if self.slots[i].inner.id == id {
                proof {
                    assert(self@.slots[i as int].inner.id == id);
                    lemma_index(self@, i as int);
                }
                return Some(i);
            }
            i += 1;
        }
        None
    }

    fn find_address(&self, address: &String) -> (r: Option<usize>)
        requires
            self.wf(),
        ensures
            r.is_some() == self@.routed(address@),
            r.is_some() ==> r.unwrap() < self.slots.len() && self@.route_index(address@)
                == r.unwrap() && self@.slots[r.unwrap() as int].entry.address == Some(address@),
    {
        let mut i: usize = 0;
        while i < self.slots.len()
            invariant
                i <= self.slots.len(),
                self.wf(),
                forall|j: int| 0 <= j < i ==> self@.slots[j].entry.address != Some(address@),
            decreases self.slots.len() - i,
        {
            let found = match &self.slots[i].entry.address {
                Some(a) => *a == *address,
                None => false,
            };
            if found {
                proof {
                    assert(self@.slots[i as int].entry.address == Some(address@));
                    lemma_route(self@, i as int);
                }
                return Some(i);
            }
            i += 1;
        }
        None
    }

    /// The tunnel that is attached at `address`, if there is one.
    pub fn get(&self, address: &str) -> (r: Option<TunnelInner>)
        requires
            self.wf(),
        ensures
            r.is_some() == self@.lookup(address@).is_some(),
            r.is_some() ==> r.unwrap()@ == self@.lookup(address@).unwrap(),
    {
        let needle = String::from_str(address);
        match self.find_address(&needle) {
            Some(i) => Some(self.slots[i].inner.clone()),
            None => None,
        }
    }

    /// Whether the tunnel numbered `id` is alive.
    pub fn contains(&self, id: u64) -> (r: bool)
        requires
            self.wf(),
        ensures
            r == self@.holds(id),
    {
        self.position(id).is_some()
    }

    /// What the HTTP path needs of the tunnel numbered `id`.
    pub fn inner(&self, id: u64) -> (r: Option<TunnelInner>)
        requires
            self.wf(),
        ensures
            r.is_some() == self@.holds(id),
            r.is_some() ==> r.unwrap()@ == self@.tunnel(id).inner,
    {
        match self.position(id) {
            Some(i) => Some(self.slots[i].inner.clone()),
            None => None,
        }
    }

    /// Name and public name of the tunnel numbered `id`.
    pub fn entry(&self, id: u64) -> (r: Option<RegistryEntry>)
        requires
            self.wf(),
        ensures
            r.is_some() == self@.holds(id),
            r.is_some() ==> r.unwrap()@ == self@.tunnel(id).entry,
    {
        match self.position(id) {
            Some(i) => {
                let slot = &self.slots[i];
                let address = match &slot.entry.address {
                    Some(a) => Some(a.clone()),
                    None => None,
                };
                Some(RegistryEntry { name: slot.entry.name.clone(), address })
            },
            None => None,
        }
    }

    /// Creates a detached, unnamed tunnel and returns its number.
    pub fn insert(
        &mut self,
        handle: u64,
        internal_address: &str,
        port: u32,
        access: TunnelAccess,
    ) -> (id: u64)
        requires
            old(self).wf(),
            old(self)@.next_id < u64::MAX,
        ensures
            final(self).wf(),
            id == old(self)@.next_id,
            !old(self)@.holds(id),
            final(self)@ == old(self)@.inserted(handle, internal_address@, port, access@),
    {
        let id = self.next_id;
        let slot = Slot {
            inner: TunnelInner {
                id,
                handle,
                internal_address: String::from_str(internal_address),
                port,
                access,
                stats: Stats::new(),
            },
            entry: RegistryEntry::new(),
        };
        self.slots.push(slot);
        self.next_id = id + 1;
        proof {
            assert(final(self)@.slots =~= old(self)@.inserted(
                handle,
                internal_address@,
                port,
                access@,
            ).slots);
        }
        id
    }

    /// Registers the tunnel numbered `id`, with `candidate` as the name to
    /// use where the pool has to supply one.
    pub fn register_as(&mut self, id: u64, candidate: &str)
        requires
            old(self).wf(),
        ensures
            final(self).wf(),
            final(self)@ == old(self)@.registered(id, candidate@),
    {
        let found = self.position(id);
        if found.is_none() {
            return ;
        }
        let i = found.unwrap();
        if self.slots[i].entry.address.is_some() {
            return ;
        }
        proof {
            lemma_index(self@, i as int);
        }
        let name = if !self.slots[i].entry.name.as_str().is_empty() {
            self.slots[i].entry.name.clone()
        } else if self.slots[i].inner.internal_address != String::from_str("localhost") {
            self.slots[i].inner.internal_address.clone()
        } else {
            String::from_str(candidate)
        };
        let address = self.address(name.as_str());
        let taken = self.find_address(&address).is_some();
        let slot = self.slots.remove(i);
        let entry = RegistryEntry { name, address: if taken { None } else { Some(address) } };
        self.slots.insert(i, Slot { inner: slot.inner, entry });
        proof {
            let before = old(self)@;
            let after = before.registered(id, candidate@);
            assert(final(self)@.slots =~= after.slots);
            assert(final(self)@ == after);
            lemma_with_slot_wf(before, i as int, after.slots[i as int]);
        }
    }

    /// Registers the tunnel numbered `id`; where it needs a name from the
    /// pool, one is drawn at random, again for as long as the draw is taken,
    /// up to a fixed number of draws.
    pub fn register(&mut self, id: u64)
        requires
            old(self).wf(),
        ensures
            final(self).wf(),
            exists|candidate: Seq<char>|
                in_pool(candidate) && final(self)@ == #[trigger] old(self)@.registered(
                    id,
                    candidate,
                ),
    {
        let candidate = self.candidate(id, None);
        self.register_as(id, candidate.as_str());
        proof {
            if !in_pool(candidate@) {
                lemma_pool_has_kitten();
                lemma_candidate_unused(old(self)@, id, None, candidate@, "kitten"@);
                assert(final(self)@ == old(self)@.registered(id, "kitten"@));
            }
        }
    }

    /// A name to offer when the tunnel numbered `id` is registered, about
    /// to be named `name` if one is given: one of the pool if the tunnel
    /// will need it, and the empty name if it will not.
    pub fn candidate(&self, id: u64, name: Option<&str>) -> (r: String)
        requires
            self.wf(),
        ensures
            self@.needs_candidate(
                id,
                match name {
                    Some(name) => Some(name@),
                    None => None,
                },
            ) ==> in_pool(r@),
            !self@.needs_candidate(
                id,
                match name {
                    Some(name) => Some(name@),
                    None => None,
                },
            ) ==> r@.len() == 0,
    {
        let found = self.position(id);
        if found.is_none() {
            return String::new();
        }
        let i = found.unwrap();
        proof {
            lemma_index(self@, i as int);
        }
        let unnamed = match name {
            Some(name) => name.is_empty(),
            None => self.slots[i].entry.name.as_str().is_empty()
                && self.slots[i].entry.address.is_none(),
        };
        if unnamed && self.slots[i].inner.internal_address == String::from_str("localhost") {
            self.generate_tunnel_name()
        } else {
            String::new()
        }
    }

    /// Whether a tunnel called `name` could be attached now.
    pub fn is_free(&self, name: &str) -> (r: bool)
        requires
            self.wf(),
        ensures
            r == !self@.routed(fqdn(name@, self@.domain)),
    {
        let address = self.address(name);
        self.find_address(&address).is_none()
    }

    /// A name of the pool whose public name is free; after a fixed number
    /// of draws that were all taken, the last draw.
    pub fn generate_tunnel_name(&self) -> (r: String)
        requires
            self.wf(),
        ensures
            in_pool(r@),
    {
        let mut name = get_animal_name();
        let mut tries: usize = 0;
        while tries < 64
            invariant
                self.wf(),
                in_pool(name@),
            decreases 64 - tries,
        {
            if self.is_free(name) {
                return String::from_str(name);
            }
            name = get_animal_name();
            tries += 1;
        }
        String::from_str(name)
    }

    /// Detaches the tunnel numbered `id`, names it `name` and registers it
    /// again, with `candidate` as the name to use where the pool has to
    /// supply one (only an empty `name` makes it do so).
    pub fn rename_as(&mut self, id: u64, name: &str, candidate: &str)
        requires
            old(self).wf(),
        ensures
            final(self).wf(),
            final(self)@ == old(self)@.renamed(id, name@, candidate@),
    {
        let found = self.position(id);
        if found.is_none() {
            return ;
        }
        let i = found.unwrap();
        let slot = self.slots.remove(i);
        let entry = RegistryEntry { name: String::from_str(name), address: None };
        self.slots.insert(i, Slot { inner: slot.inner, entry });
        proof {
            let before = old(self)@;
            let between = before.unnamed(id, name@);
            assert(self@.slots =~= between.slots);
            lemma_with_slot_wf(before, i as int, between.slots[i as int]);
        }
        self.register_as(id, candidate);
    }

    /// Renames the tunnel numbered `id`; a name from the pool is drawn only
    /// where `name` is empty and the tunnel forwards `localhost`.
    pub fn rename(&mut self, id: u64, name: &str)
        requires
            old(self).wf(),
        ensures
            final(self).wf(),
            exists|candidate: Seq<char>|
                in_pool(candidate) && final(self)@ == #[trigger] old(self)@.renamed(
                    id,
                    name@,
                    candidate,
                ),
    {
        let candidate = self.candidate(id, Some(name));
        self.rename_as(id, name, candidate.as_str());
        proof {
            if !in_pool(candidate@) {
                lemma_pool_has_kitten();
                lemma_candidate_unused(old(self)@, id, Some(name@), candidate@, "kitten"@);
                assert(final(self)@ == old(self)@.renamed(id, name@, "kitten"@));
            }
        }
    }

    /// Drops the tunnel numbered `id`: it is no longer alive, and its public
    /// name, if it had one, is free again.
    pub fn release(&mut self, id: u64)
        requires
            old(self).wf(),
        ensures
            final(self).wf(),
            final(self)@ == old(self)@.released(id),
    {
        let found = self.position(id);
        if found.is_none() {
            return ;
        }
        let i = found.unwrap();
        let _ = self.slots.remove(i);
        proof {
            let before = old(self)@;
            assert(final(self)@.slots =~= before.slots.remove(i as int));
            lemma_released_wf(before, id);
        }
    }

    /// Sets who may reach the tunnel numbered `id`.
    pub fn set_access(&mut self, id: u64, access: TunnelAccess)
        requires
            old(self).wf(),
        ensures
            final(self).wf(),
            final(self)@ == old(self)@.with_access(id, access@),
    {
        let found = self.position(id);
        if found.is_none() {
            return ;
        }
        let i = found.unwrap();
        let slot = self.slots.remove(i);
        let inner = TunnelInner {
            id: slot.inner.id,
            handle: slot.inner.handle,
            internal_address: slot.inner.internal_address,
            port: slot.inner.port,
            access,
            stats: slot.inner.stats,
        };
        self.slots.insert(i, Slot { inner, entry: slot.entry });
        proof {
            let before = old(self)@;
            let after = before.with_access(id, access@);
            assert(final(self)@.slots =~= after.slots);
            lemma_inner_update_wf(before, i as int, after.slots[i as int]);
        }
    }

    fn set_stats(&mut self, id: u64, stats: Stats)
        requires
            old(self).wf(),
        ensures
            final(self).wf(),
            final(self)@ == old(self)@.with_stats(id, stats),
    {
        let found = self.position(id);
        if found.is_none() {
            return ;
        }
        let i = found.unwrap();
        let slot = self.slots.remove(i);
        let inner = TunnelInner {
            id: slot.inner.id,
            handle: slot.inner.handle,
            internal_address: slot.inner.internal_address,
            port: slot.inner.port,
            access: slot.inner.access,
            stats,
        };
        self.slots.insert(i, Slot { inner, entry: slot.entry });
        proof {
            let before = old(self)@;
            let after = before.with_stats(id, stats);
            assert(final(self)@.slots =~= after.slots);
            lemma_inner_update_wf(before, i as int, after.slots[i as int]);
        }
    }

    /// Counts a connection on the tunnel numbered `id` and returns what is
    /// needed to open a channel to the developer: the tunnel as it was
    /// before the connection was counted. A tunnel that is not alive gives
    /// nothing and changes nothing.
    pub fn open(&mut self, id: u64) -> (r: Option<TunnelInner>)
        requires
            old(self).wf(),
        ensures
            final(self).wf(),
            r.is_some() == old(self)@.holds(id),
            r.is_some() ==> r.unwrap()@ == old(self)@.tunnel(id).inner,
            final(self)@ == old(self)@.with_stats(
                id,
                Stats {
                    connections: crate::stats::wrapped_sum(
                        old(self)@.tunnel(id).inner.stats.connections,
                        1,
                    ),
                    ..old(self)@.tunnel(id).inner.stats
                },
            ),
    {
        match self.inner(id) {
            Some(inner) => {
                let mut stats = inner.stats;
                stats.add_connection();
                self.set_stats(id, stats);
                Some(inner)
            },
            None => None,
        }
    }

    /// Counts what a read from the stream of the tunnel numbered `id` moved.
    pub fn record_read(&mut self, id: u64, polled: Polled)
        requires
            old(self).wf(),
        ensures
            final(self).wf(),
            final(self)@ == old(self)@.with_stats(
                id,
                old(self)@.tunnel(id).inner.stats.after_read(polled),
            ),
    {
        if let Some(inner) = self.inner(id) {
            let mut stats = inner.stats;
            stats.record_read(polled);
            self.set_stats(id, stats);
        }
    }

    /// Counts what a write to the stream of the tunnel numbered `id` moved.
    pub fn record_write(&mut self, id: u64, polled: Polled)
        requires
            old(self).wf(),
        ensures
            final(self).wf(),
            final(self)@ == old(self)@.with_stats(
                id,
                old(self)@.tunnel(id).inner.stats.after_write(polled),
            ),
    {
        if let Some(inner) = self.inner(id) {
            let mut stats = inner.stats;
            stats.record_write(polled);
            self.set_stats(id, stats);
        }
    }
}

/// A public name leads to at most one tunnel: two tunnels that are attached
/// at the same name are one and the same.
pub proof fn address_has_one_tunnel(v: RegistryView, i: int, j: int)
    requires
        v.wf(),
        0 <= i < v.slots.len(),
        0 <= j < v.slots.len(),
        v.slots[i].entry.address.is_some(),
        v.slots[i].entry.address == v.slots[j].entry.address,
    ensures
        i == j,
{
    if i < j {
        assert(v.slots[i].entry.address != v.slots[j].entry.address);
    }
    if j < i {
        assert(v.slots[j].entry.address != v.slots[i].entry.address);
    }
}

/// A tunnel that carries a public name is what a lookup of that name finds.
pub proof fn attached_tunnel_is_found(v: RegistryView, id: u64)
    requires
        v.wf(),
        v.holds(id),
        v.tunnel(id).entry.address.is_some(),
    ensures
        v.lookup(v.tunnel(id).entry.address.unwrap()) == Some(v.tunnel(id).inner),
{
    lemma_route(v, v.index_of(id));
}

/// Once a tunnel is dropped, a lookup of the public name it had finds
/// nothing, and every other tunnel is found as before.
pub proof fn released_tunnel_is_gone(v: RegistryView, id: u64)
    requires
        v.wf(),
        v.holds(id),
    ensures
        v.released(id).wf(),
        !v.released(id).holds(id),
        v.tunnel(id).entry.address.is_some() ==> v.released(id).lookup(
            v.tunnel(id).entry.address.unwrap(),
        ).is_none(),
        forall|other: u64|
            other != id && v.holds(other) ==> v.released(id).holds(other) && v.released(id).tunnel(
                other,
            ) == v.tunnel(other),
{
    let i = v.index_of(id);
    let w = v.released(id);
    lemma_released_wf(v, id);
    assert forall|a: int| 0 <= a < w.slots.len() implies w.slots[a] == v.slots[if a < i {
        a
    } else {
        a + 1
    }] by {}
    assert forall|a: int| 0 <= a < w.slots.len() implies w.slots[a].inner.id != id by {
        let a0 = if a < i { a } else { a + 1 };
        address_or_id_differs(v, i, a0);
    }
    if v.tunnel(id).entry.address.is_some() {
        let f = v.tunnel(id).entry.address.unwrap();
        assert forall|a: int| 0 <= a < w.slots.len() implies w.slots[a].entry.address != Some(
            f,
        ) by {
            let a0 = if a < i { a } else { a + 1 };
            address_or_id_differs(v, i, a0);
        }
    }
    assert forall|other: u64| other != id && v.holds(other) implies w.holds(other) && w.tunnel(
        other,
    ) == v.tunnel(other) by {
        let k = v.index_of(other);
        let k1 = if k < i { k } else { k - 1 };
        assert(w.slots[k1] == v.slots[k]);
        lemma_index(w, k1);
    }
}

/// Two different tunnels of a well-formed registry differ in their numbers
/// and, where the first is attached, in their public names.
pub proof fn address_or_id_differs(v: RegistryView, i: int, j: int)
    requires
        v.wf(),
        0 <= i < v.slots.len(),
        0 <= j < v.slots.len(),
        i != j,
    ensures
        v.slots[i].inner.id != v.slots[j].inner.id,
        v.slots[i].entry.address.is_some() ==> v.slots[i].entry.address
            != v.slots[j].entry.address,
{
    if i < j {
        assert(v.slots[i].inner.id != v.slots[j].inner.id);
        assert(v.slots[i].entry.address.is_some() ==> v.slots[i].entry.address
            != v.slots[j].entry.address);
    } else {
        assert(v.slots[j].inner.id != v.slots[i].inner.id);
        assert(v.slots[j].entry.address.is_some() ==> v.slots[j].entry.address
            != v.slots[i].entry.address);
    }
}

/// Registering a detached tunnel attaches it under its name exactly if no
/// tunnel holds that public name; either way the registry stays well
/// formed, so a name is never handed out twice, and no other tunnel
/// changes.
pub proof fn register_attaches_iff_free(v: RegistryView, id: u64, candidate: Seq<char>)
    requires
        v.wf(),
        v.holds(id),
        v.tunnel(id).entry.address.is_none(),
    ensures
        v.registered(id, candidate).wf(),
        v.registered(id, candidate).holds(id),
        v.registered(id, candidate).slots.len() == v.slots.len(),
        v.registered(id, candidate).tunnel(id).inner == v.tunnel(id).inner,
        v.registered(id, candidate).tunnel(id).entry.name == RegistryView::chosen_name(
            v.tunnel(id),
            candidate,
        ),
        v.registered(id, candidate).tunnel(id).entry.address == (if v.routed(
            fqdn(RegistryView::chosen_name(v.tunnel(id), candidate), v.domain),
        ) {
            None
        } else {
            Some(fqdn(RegistryView::chosen_name(v.tunnel(id), candidate), v.domain))
        }),
        forall|other: u64|
            other != id && v.holds(other) ==> v.registered(id, candidate).holds(other)
                && v.registered(id, candidate).tunnel(other) == v.tunnel(other),
{
    let i = v.index_of(id);
    let w = v.registered(id, candidate);
    let name = RegistryView::chosen_name(v.tunnel(id), candidate);
    let address = fqdn(name, v.domain);
    if !v.routed(address) {
        assert forall|j: int| 0 <= j < v.slots.len() && j != i implies v.slots[j].entry.address
            != Some(address) by {}
    }
    lemma_with_slot_wf(v, i, w.slots[i]);
    lemma_index(w, i);
    assert forall|other: u64| other != id && v.holds(other) implies w.holds(other) && w.tunnel(
        other,
    ) == v.tunnel(other) by {
        let k = v.index_of(other);
        assert(w.slots[k] == v.slots[k]);
        lemma_index(w, k);
    }
}

/// Registering an attached tunnel changes nothing.
pub proof fn register_of_attached_is_noop(v: RegistryView, id: u64, candidate: Seq<char>)
    requires
        v.holds(id),
        v.tunnel(id).entry.address.is_some(),
    ensures
        v.registered(id, candidate) == v,
{
}

/// After a tunnel was renamed to a name that is not empty, it is attached
/// at that name under the apex exactly if no other tunnel held that public
/// name when it was renamed; if one did, the tunnel is detached.
pub proof fn rename_attaches_iff_free(
    v: RegistryView,
    id: u64,
    name: Seq<char>,
    candidate: Seq<char>,
)
    requires
        v.wf(),
        v.holds(id),
        name.len() > 0,
    ensures
        v.renamed(id, name, candidate).wf(),
        v.renamed(id, name, candidate).holds(id),
        v.renamed(id, name, candidate).tunnel(id).entry.name == name,
        v.renamed(id, name, candidate).tunnel(id).inner == v.tunnel(id).inner,
        v.renamed(id, name, candidate).tunnel(id).entry.address == Some(fqdn(name, v.domain))
            <==> (forall|j: int|
            0 <= j < v.slots.len() && v.slots[j].inner.id != id ==> v.slots[j].entry.address
                != Some(fqdn(name, v.domain))),
        v.renamed(id, name, candidate).tunnel(id).entry.address.is_none() <==> !(forall|j: int|
            0 <= j < v.slots.len() && v.slots[j].inner.id != id ==> v.slots[j].entry.address
                != Some(fqdn(name, v.domain))),
{
    let i = v.index_of(id);
    let u = v.unnamed(id, name);
    let address = fqdn(name, v.domain);
    lemma_with_slot_wf(v, i, u.slots[i]);
    lemma_index(u, i);
    register_attaches_iff_free(u, id, candidate);
    assert(RegistryView::chosen_name(u.tunnel(id), candidate) == name);
    if u.routed(address) {
        let j = u.route_index(address);
        assert(j != i);
        assert(v.slots[j] == u.slots[j]);
        address_or_id_differs(v, i, j);
    } else {
        assert forall|j: int|
            0 <= j < v.slots.len() && v.slots[j].inner.id != id implies v.slots[j].entry.address
            != Some(address) by {
            assert(u.slots[j] == v.slots[j]);
        }
    }
}

/// Renaming an attached tunnel to the name it has changes nothing.
pub proof fn rename_to_own_name_is_noop(v: RegistryView, id: u64, candidate: Seq<char>)
    requires
        v.wf(),
        v.holds(id),
        v.tunnel(id).entry.address.is_some(),
        v.tunnel(id).entry.name.len() > 0,
    ensures
        v.renamed(id, v.tunnel(id).entry.name, candidate) == v,
{
    let i = v.index_of(id);
    let name = v.tunnel(id).entry.name;
    let address = fqdn(name, v.domain);
    rename_attaches_iff_free(v, id, name, candidate);
    assert forall|j: int|
        0 <= j < v.slots.len() && v.slots[j].inner.id != id implies v.slots[j].entry.address
        != Some(address) by {
        address_or_id_differs(v, i, j);
    }
    let u = v.unnamed(id, name);
    lemma_with_slot_wf(v, i, u.slots[i]);
    lemma_index(u, i);
    let w = v.renamed(id, name, candidate);
    assert(w.slots =~= v.slots);
}

/// The access that was set is the access that is read, by the session and
/// by a lookup of the tunnel's public name alike; nothing else changes.
pub proof fn set_access_is_read_back(v: RegistryView, id: u64, access: Access)
    requires
        v.wf(),
        v.holds(id),
    ensures
        v.with_access(id, access).wf(),
        v.with_access(id, access).holds(id),
        v.with_access(id, access).tunnel(id).inner.access == access,
        v.with_access(id, access).tunnel(id).entry == v.tunnel(id).entry,
        v.tunnel(id).entry.address.is_some() ==> v.with_access(id, access).lookup(
            v.tunnel(id).entry.address.unwrap(),
        ) == Some(TunnelInnerView { access, ..v.tunnel(id).inner }),
{
    let i = v.index_of(id);
    let w = v.with_access(id, access);
    lemma_inner_update_wf(v, i, w.slots[i]);
    lemma_index(w, i);
    if v.tunnel(id).entry.address.is_some() {
        lemma_route(w, i);
    }
}

/// Opening a connection counts exactly one, as long as the counter stays
/// within the machine word.
pub proof fn open_counts_once(v: RegistryView, id: u64)
    requires
        v.wf(),
        v.holds(id),
        v.tunnel(id).inner.stats.connections < usize::MAX,
    ensures
        v.with_stats(
            id,
            Stats {
                connections: crate::stats::wrapped_sum(v.tunnel(id).inner.stats.connections, 1),
                ..v.tunnel(id).inner.stats
            },
        ).tunnel(id).inner.stats.connections == v.tunnel(id).inner.stats.connections + 1,
{
    let i = v.index_of(id);
    let stats = Stats {
        connections: crate::stats::wrapped_sum(v.tunnel(id).inner.stats.connections, 1),
        ..v.tunnel(id).inner.stats
    };
    let w = v.with_stats(id, stats);
    lemma_inner_update_wf(v, i, w.slots[i]);
    lemma_index(w, i);
}

/// Whether every tunnel that is alive in `v`, but for the one numbered
/// `id`, is in `w` what it is in `v`.
pub open spec fn others_kept(v: RegistryView, w: RegistryView, id: u64) -> bool {
    forall|other: u64|
        other != id && #[trigger] v.holds(other) ==> w.holds(other) && w.tunnel(other) == v.tunnel(
            other,
        )
}

/// Replacing one tunnel by one of the same number leaves every other
/// tunnel as it was.
pub proof fn lemma_update_keeps_others(v: RegistryView, i: int, slot: SlotView)
    requires
        v.wf(),
        0 <= i < v.slots.len(),
        slot.inner.id == v.slots[i].inner.id,
    ensures
        others_kept(v, RegistryView { slots: v.slots.update(i, slot), ..v }, slot.inner.id),
{
    let w = RegistryView { slots: v.slots.update(i, slot), ..v };
    assert forall|other: u64| other != slot.inner.id && #[trigger] v.holds(other) implies w.holds(
        other,
    ) && w.tunnel(other) == v.tunnel(other) by {
        let k = v.index_of(other);
        assert(w.slots[k] == v.slots[k]);
        let found = w.index_of(other);
        assert(0 <= found < w.slots.len() && w.slots[found].inner.id == other);
        assert(found != i);
        assert(v.slots[found].inner.id == other);
        if found != k {
            address_or_id_differs(v, k, found);
        }
    }
}

/// Whatever is done to one tunnel, be it registered, renamed, dropped or
/// given another access, every other tunnel stays as it was, and the
/// registry stays well formed.
pub proof fn one_tunnel_at_a_time(
    v: RegistryView,
    id: u64,
    name: Seq<char>,
    candidate: Seq<char>,
    access: Access,
)
    requires
        v.wf(),
    ensures
        v.registered(id, candidate).wf(),
        others_kept(v, v.registered(id, candidate), id),
        v.renamed(id, name, candidate).wf(),
        others_kept(v, v.renamed(id, name, candidate), id),
        v.released(id).wf(),
        others_kept(v, v.released(id), id),
        v.with_access(id, access).wf(),
        others_kept(v, v.with_access(id, access), id),
{
    lemma_released_wf(v, id);
    if v.holds(id) {
        let i = v.index_of(id);
        if v.tunnel(id).entry.address.is_none() {
            register_attaches_iff_free(v, id, candidate);
        }
        let u = v.unnamed(id, name);
        lemma_with_slot_wf(v, i, u.slots[i]);
        lemma_update_keeps_others(v, i, u.slots[i]);
        lemma_index(u, i);
        register_attaches_iff_free(u, id, candidate);
        let renamed = v.renamed(id, name, candidate);
        assert forall|other: u64| other != id && #[trigger] v.holds(other) implies renamed.holds(
            other,
        ) && renamed.tunnel(other) == v.tunnel(other) by {
            assert(u.holds(other));
        }
        released_tunnel_is_gone(v, id);
        let w = v.with_access(id, access);
        lemma_inner_update_wf(v, i, w.slots[i]);
        lemma_update_keeps_others(v, i, w.slots[i]);
    }
}

/// The name that is offered to a registration makes a difference only
/// where the tunnel needs one from the pool.
pub proof fn lemma_candidate_unused(
    v: RegistryView,
    id: u64,
    name: Option<Seq<char>>,
    a: Seq<char>,
    b: Seq<char>,
)
    requires
        v.wf(),
        !v.needs_candidate(id, name),
    ensures
        name.is_none() ==> v.registered(id, a) == v.registered(id, b),
        name.is_some() ==> v.renamed(id, name.unwrap(), a) == v.renamed(id, name.unwrap(), b),
{
    if v.holds(id) && name.is_some() {
        let i = v.index_of(id);
        let u = v.unnamed(id, name.unwrap());
        lemma_with_slot_wf(v, i, u.slots[i]);
        lemma_index(u, i);
    }
}

} // verus!
