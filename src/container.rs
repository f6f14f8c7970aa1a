//! The container's state: the factory registry, the instance cache and the
//! provider list.
use std::collections::HashMap;
use vstd::prelude::*;
use crate::lifecycle::{boot_plan, boot_sequence, BootStep};

verus! {

broadcast use vstd::std_specs::hash::group_hash_axioms;

/// A service identity: one number per concrete service type.
pub type ServiceId = u64;

/// The cache after storing `v` under `id` when the first writer wins: an
/// entry already present is kept.
pub open spec fn store_first<V>(m: Map<ServiceId, V>, id: ServiceId, v: V) -> Map<ServiceId, V> {
    if m.contains_key(id) {
        m
    } else {
        m.insert(id, v)
    }
}

/// A registry of factories of type `F`, a cache of shared instances of type
/// `V` and an ordered list of providers of type `P`.
pub struct Container<F, V, P> {
    factories: HashMap<ServiceId, F>,
    instances: HashMap<ServiceId, V>,
    providers: Vec<P>,
}

impl<F, V, P> Container<F, V, P> {
    /// The factory registry.
    pub closed spec fn factories(&self) -> Map<ServiceId, F> {
        self.factories@
    }

    /// The instance cache.
    pub closed spec fn instances(&self) -> Map<ServiceId, V> {
        self.instances@
    }

    /// The providers, in insertion order.
    pub closed spec fn providers(&self) -> Seq<P> {
        self.providers@
    }

    /// An empty container: no factory, no instance, no provider.
    pub fn new() -> (r: Self)
        ensures
            r.factories() == Map::<ServiceId, F>::empty(),
            r.instances() == Map::<ServiceId, V>::empty(),
            r.providers() == Seq::<P>::empty(),
    {
        Container { factories: HashMap::new(), instances: HashMap::new(), providers: Vec::new() }
    }

    /// Registers `factory` for `id`, replacing any earlier one.
    pub fn bind(&mut self, id: ServiceId, factory: F)
        ensures
            final(self).factories() == old(self).factories().insert(id, factory),
            final(self).instances() == old(self).instances(),
            final(self).providers() == old(self).providers(),
    {
        self.factories.insert(id, factory);
    }

    /// The factory registered for `id`, if any.
    pub fn factory(&self, id: ServiceId) -> (r: Option<&F>)
        ensures
            r == (if self.factories().contains_key(id) {
                Some(&self.factories()[id])
            } else {
                None::<&F>
            }),
    {
        self.factories.get(&id)
    }

    /// The instance cached for `id`, if any.
    pub fn cached(&self, id: ServiceId) -> (r: Option<&V>)
        ensures
            r == (if self.instances().contains_key(id) {
                Some(&self.instances()[id])
            } else {
                None::<&V>
            }),
    {
        self.instances.get(&id)
    }

    /// Stores `instance` under `id` unless an instance is already cached
    /// there: the first writer wins. Returns whether `instance` was stored.
    pub fn store(&mut self, id: ServiceId, instance: V) -> (r: bool)
        ensures
            r == !old(self).instances().contains_key(id),
            final(self).instances() == store_first(old(self).instances(), id, instance),
            final(self).factories() == old(self).factories(),
            final(self).providers() == old(self).providers(),
    {
        if self.instances.contains_key(&id) {
            false
        } else {
            self.instances.insert(id, instance);
            true
        }
    }

    /// Seeds the cache with `instance` for `id`, so that resolving `id`
    /// returns it without consulting any factory. An instance already cached
    /// for `id` is kept. Returns whether `instance` was stored.
    pub fn singleton(&mut self, id: ServiceId, instance: V) -> (r: bool)
        ensures
            r == !old(self).instances().contains_key(id),
            final(self).instances() == store_first(old(self).instances(), id, instance),
            final(self).factories() == old(self).factories(),
            final(self).providers() == old(self).providers(),
    {
        self.store(id, instance)
    }

    /// Appends `provider` to the provider list.
    pub fn add_provider(&mut self, provider: P)
        ensures
            final(self).providers() == old(self).providers().push(provider),
            final(self).factories() == old(self).factories(),
            final(self).instances() == old(self).instances(),
    {
        self.providers.push(provider);
    }

    /// Appends `providers` to the provider list, keeping their order.
    pub fn add_providers(&mut self, providers: Vec<P>)
        ensures
            final(self).providers() == old(self).providers() + providers@,
            final(self).factories() == old(self).factories(),
            final(self).instances() == old(self).instances(),
    {
        let mut providers = providers;
        self.providers.append(&mut providers);
    }

    /// Appends `provider` and hands the container back, for chaining.
    pub fn with_provider(self, provider: P) -> (r: Self)
        ensures
            r.providers() == self.providers().push(provider),
            r.factories() == self.factories(),
            r.instances() == self.instances(),
    {
        let mut c = self;
        c.add_provider(provider);
        c
    }

    /// The providers, in insertion order.
    pub fn provider_list(&self) -> (r: &Vec<P>)
        ensures
            r@ == self.providers(),
    {
        &self.providers
    }

    /// The callbacks that booting runs, in order: `register` of every
    /// provider, then `boot` of every provider, each in insertion order.
    /// Booting again runs the whole sequence again.
    pub fn boot_plan(&self) -> (r: Vec<BootStep>)
        requires
            2 * self.providers().len() <= usize::MAX,
        ensures
            r@ == boot_sequence(self.providers().len()),
    {
        boot_plan(self.providers.len())
    }
}

} // verus!
