//! The provider lifecycle: every provider's `register` step runs before any
//! provider's `boot` step, each phase in insertion order.
use vstd::prelude::*;

verus! {

/// The two phases of the provider lifecycle.
#[derive(Clone, Copy, Debug, PartialEq, Eq, Structural)]
pub enum Phase {
    Register,
    Boot,
}

/// One callback to run during boot: the given phase of the provider at
/// `index` in the provider list.
#[derive(Clone, Copy, Debug, PartialEq, Eq, Structural)]
pub struct BootStep {
    pub phase: Phase,
    pub index: usize,
}

/// The step at position `k` of the boot sequence for `n` providers.
pub open spec fn boot_step_at(n: nat, k: int) -> BootStep {
    if k < n {
        BootStep { phase: Phase::Register, index: k as usize }
    } else {
        BootStep { phase: Phase::Boot, index: (k - n) as usize }
    }
}

/// The whole boot sequence for `n` providers: `register` of providers
/// `0..n` in order, then `boot` of providers `0..n` in order.
pub open spec fn boot_sequence(n: nat) -> Seq<BootStep> {
    Seq::new(2 * n, |k: int| boot_step_at(n, k))
}

/// The callbacks that booting `n` providers runs, in the order they run.
pub fn boot_plan(n: usize) -> (r: Vec<BootStep>)
    requires
        2 * n <= usize::MAX,
    ensures
        r@ == boot_sequence(n as nat),
{
    let mut r: Vec<BootStep> = Vec::new();
    let mut i: usize = 0;
    while i < n
        invariant
            i <= n,
            r@.len() == i,
            forall|k: int| 0 <= k < i ==> #[trigger] r@[k] == boot_step_at(n as nat, k),
        decreases n - i,
    {
        r.push(BootStep { phase: Phase::Register, index: i });
        i = i + 1;
    }
    let mut j: usize = 0;
    while j < n
        invariant
            2 * n <= usize::MAX,
            j <= n,
            r@.len() == n + j,
            forall|k: int| 0 <= k < n + j ==> #[trigger] r@[k] == boot_step_at(n as nat, k),
        decreases n - j,
    {
        r.push(BootStep { phase: Phase::Boot, index: j });
        j = j + 1;
    }
    assert(r@ =~= boot_sequence(n as nat));
    r
}

/// Booting `n` providers runs each provider's `register` and `boot` exactly
/// once; every `register` step comes before every `boot` step; within each
/// phase providers run in insertion order.
pub proof fn lemma_register_before_boot(n: nat)
    requires
        n <= usize::MAX,
    ensures
        boot_sequence(n).len() == 2 * n,
        forall|a: int|
            0 <= a < n ==> #[trigger] boot_sequence(n)[a] == (BootStep {
                phase: Phase::Register,
                index: a as usize,
            }),
        forall|b: int|
            0 <= b < n ==> #[trigger] boot_sequence(n)[n + b] == (BootStep {
                phase: Phase::Boot,
                index: b as usize,
            }),
        forall|i: int, j: int|
            0 <= i < 2 * n && 0 <= j < 2 * n && #[trigger] boot_sequence(n)[i].phase == Phase::Register
                && #[trigger] boot_sequence(n)[j].phase == Phase::Boot ==> i < j,
        forall|i: int, j: int|
            0 <= i < j < 2 * n && #[trigger] boot_sequence(n)[i].phase == #[trigger] boot_sequence(
                n,
            )[j].phase ==> boot_sequence(n)[i].index < boot_sequence(n)[j].index,
{
}

} // verus!
