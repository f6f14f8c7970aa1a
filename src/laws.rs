//! Properties of resolution that hold across several steps and requests.
use vstd::prelude::*;
use crate::container::{store_first, ServiceId};
use crate::resolution::{cache_after_build, next_action, Action};

verus! {

/// Once a bound service has been built and cached, every later shared
/// resolution of it is served from the cache, whatever is bound, and no
/// later build replaces the cached instance.
pub proof fn lemma_built_instance_is_reused<V>(
    m: Map<ServiceId, V>,
    id: ServiceId,
    built: V,
    later: V,
    bound: bool,
    fallback_tried: bool,
)
    requires
        !m.contains_key(id),
    ensures
        next_action(false, true, false, fallback_tried) == Action::Build,
        ({
            let after = cache_after_build(m, id, false, built);
            &&& after.contains_key(id)
            &&& after[id] == built
            &&& next_action(after.contains_key(id), bound, false, fallback_tried) == Action::UseCached
            &&& cache_after_build(after, id, false, later) == after
        }),
{
}

/// Two resolutions that race to build the same uncached service converge on
/// one instance: the one recorded first.
pub proof fn lemma_racing_builds_converge<V>(m: Map<ServiceId, V>, id: ServiceId, first: V, second: V)
    requires
        !m.contains_key(id),
    ensures
        store_first(store_first(m, id, first), id, second)[id] == first,
{
}

/// A seeded instance is what resolution hands out, even when a factory is
/// bound for the same service afterwards: that factory is never invoked by a
/// shared resolution.
pub proof fn lemma_seeded_instance_wins<F, V>(
    m: Map<ServiceId, V>,
    fm: Map<ServiceId, F>,
    id: ServiceId,
    seed: V,
    f: F,
    fallback_tried: bool,
)
    requires
        !m.contains_key(id),
    ensures
        store_first(m, id, seed)[id] == seed,
        next_action(
            store_first(m, id, seed).contains_key(id),
            fm.insert(id, f).contains_key(id),
            false,
            fallback_tried,
        ) == Action::UseCached,
{
}

/// A transient resolution of a bound service always invokes the factory and
/// never changes the cache, whatever it holds: two transient resolutions give
/// two separately built instances.
pub proof fn lemma_transient_always_builds<V>(
    m: Map<ServiceId, V>,
    id: ServiceId,
    cached: bool,
    fallback_tried: bool,
    built: V,
)
    ensures
        next_action(cached, true, true, fallback_tried) == Action::BuildTransient,
        cache_after_build(m, id, true, built) == m,
{
}

/// An unbound, uncached service first triggers the self-registration
/// fallback; once that has bound a factory the retry builds it; once built,
/// a new request is served from the cache and the fallback does not run
/// again.
pub proof fn lemma_self_registration_then_cache<V>(m: Map<ServiceId, V>, id: ServiceId, built: V)
    requires
        !m.contains_key(id),
    ensures
        next_action(false, false, false, false) == Action::SelfRegister,
        next_action(false, true, false, true) == Action::Build,
        next_action(cache_after_build(m, id, false, built).contains_key(id), true, false, false)
            == Action::UseCached,
{
}

/// A service that is neither cached nor bound, and that the fallback does
/// not bind, fails after exactly one fallback attempt, and never with a
/// built instance.
pub proof fn lemma_unregistered_service_fails(transient: bool)
    ensures
        next_action(false, false, transient, false) == Action::SelfRegister,
        next_action(false, false, transient, true) == Action::Unresolvable,
{
}

/// The fallback runs at most once per resolution.
pub proof fn lemma_fallback_at_most_once(cached: bool, bound: bool, transient: bool)
    ensures
        next_action(cached, bound, transient, true) != Action::SelfRegister,
{
}

} // verus!
