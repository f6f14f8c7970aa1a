//! The resolution engine: what to do next to serve a request for a service.
use vstd::prelude::*;
use crate::container::{store_first, Container, ServiceId};

verus! {

/// What the host does next to serve a resolution.
#[derive(Clone, Copy, Debug, PartialEq, Eq, Structural)]
pub enum Action {
    /// Hand out the cached instance.
    UseCached,
    /// Invoke the registered factory and record the result, which is cached.
    Build,
    /// Invoke the registered factory and record the result, which is not
    /// cached: every transient resolution builds anew.
    BuildTransient,
    /// Ask the service type to register its own factory, then ask again.
    SelfRegister,
    /// Nothing can produce the service: the request fails.
    Unresolvable,
}

/// The next action of a resolution, given whether an instance is cached for
/// the service, whether a factory is bound for it, whether the resolution is
/// transient and whether the self-registration fallback has already run.
/// A cached instance wins over a factory; a transient resolution never reads
/// the cache; the fallback runs at most once.
pub open spec fn next_action(cached: bool, bound: bool, transient: bool, fallback_tried: bool) -> Action {
    if cached && !transient {
        Action::UseCached
    } else if bound {
        if transient {
            Action::BuildTransient
        } else {
            Action::Build
        }
    } else if !fallback_tried {
        Action::SelfRegister
    } else {
        Action::Unresolvable
    }
}

/// The cache after recording an instance built by a resolution: kept when
/// the resolution is transient, else the first writer wins.
pub open spec fn cache_after_build<V>(
    m: Map<ServiceId, V>,
    id: ServiceId,
    transient: bool,
    built: V,
) -> Map<ServiceId, V> {
    if transient {
        m
    } else {
        store_first(m, id, built)
    }
}

/// One request for a service, in progress.
pub struct Resolution {
    id: ServiceId,
    transient: bool,
    fallback_tried: bool,
}

impl Resolution {
    /// The requested service.
    pub closed spec fn service(&self) -> ServiceId {
        self.id
    }

    /// Whether the resolution bypasses the cache.
    pub closed spec fn is_transient(&self) -> bool {
        self.transient
    }

    /// Whether the self-registration fallback has run.
    pub closed spec fn fallback_tried(&self) -> bool {
        self.fallback_tried
    }

    /// A request for the shared instance of `id`.
    pub fn new(id: ServiceId) -> (r: Self)
        ensures
            r.service() == id,
            !r.is_transient(),
            !r.fallback_tried(),
    {
        Resolution { id, transient: false, fallback_tried: false }
    }

    /// A request for a freshly built, uncached instance of `id`.
    pub fn new_transient(id: ServiceId) -> (r: Self)
        ensures
            r.service() == id,
            r.is_transient(),
            !r.fallback_tried(),
    {
        Resolution { id, transient: true, fallback_tried: false }
    }

    /// The requested service.
    pub fn id(&self) -> (r: ServiceId)
        ensures
            r == self.service(),
    {
        self.id
    }

    /// Decides the next action against the container's current state. When
    /// it is `SelfRegister`, the fallback counts as run from now on.
    pub fn next<F, V, P>(&mut self, c: &Container<F, V, P>) -> (a: Action)
        ensures
            a == next_action(
                c.instances().contains_key(old(self).service()),
                c.factories().contains_key(old(self).service()),
                old(self).is_transient(),
                old(self).fallback_tried(),
            ),
            final(self).service() == old(self).service(),
            final(self).is_transient() == old(self).is_transient(),
            final(self).fallback_tried() == (old(self).fallback_tried() || a == Action::SelfRegister),
    {
        let cached = c.cached(self.id).is_some();
        let bound = c.factory(self.id).is_some();
        if cached && !self.transient {
            Action::UseCached
        } else if bound {
            if self.transient {
                Action::BuildTransient
            } else {
                Action::Build
            }
        } else if !self.fallback_tried {
            self.fallback_tried = true;
            Action::SelfRegister
        } else {
            Action::Unresolvable
        }
    }

    /// Records `built`, the instance a factory produced for this resolution.
    /// A shared resolution caches it (the first writer wins: a racing build
    /// that was stored earlier is kept) and returns `None`: the instance to
    /// hand out is then the cached one. A transient resolution leaves the
    /// cache alone and returns `built` itself.
    pub fn record<F, V, P>(&self, c: &mut Container<F, V, P>, built: V) -> (r: Option<V>)
        ensures
            final(c).instances() == cache_after_build(
                old(c).instances(),
                self.service(),
                self.is_transient(),
                built,
            ),
            final(c).factories() == old(c).factories(),
            final(c).providers() == old(c).providers(),
            r == (if self.is_transient() {
                Some(built)
            } else {
                None::<V>
            }),
    {
        if self.transient {
            Some(built)
        } else {
            c.store(self.id, built);
            None
        }
    }
}

} // verus!
