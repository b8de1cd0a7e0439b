//! The run context and its teardown plan.
//!
//! The context records, in the order they happen, the side effects of a
//! run: the per-run directory, the tap lease, how many sidecars and
//! whether the hypervisor were spawned. The teardown plan reverses
//! exactly those effects, in the fixed order: kill and reap the
//! hypervisor, kill then reap each sidecar in spawn order, release the
//! tap lease, and remove the per-run directory last. Every step runs
//! even when an earlier one fails; the first error is kept
//! (`crate::run::record_first_error`).

use vstd::prelude::*;

verus! {

/// The side effects a run has performed so far.
pub struct RunContext {
    /// The per-run directory, once created.
    pub vm_dir: Option<String>,
    /// The leased tap device, once granted.
    pub tap: Option<String>,
    /// How many sidecars the plan will spawn in all.
    pub sidecars_total: usize,
    /// How many sidecars have been spawned; a prefix of the plan.
    pub sidecars_spawned: usize,
    /// Whether the hypervisor has been spawned.
    pub vm_spawned: bool,
}

impl RunContext {
    /// The context never counts more sidecars than the plan has, and
    /// the hypervisor is spawned only after every sidecar: its spawn
    /// event happens-after all of theirs.
    pub open spec fn wf(&self) -> bool {
        &&& self.sidecars_spawned <= self.sidecars_total
        &&& (self.vm_spawned ==> self.sidecars_spawned == self.sidecars_total)
    }

    /// A fresh context: nothing acquired yet.
    pub fn new(sidecars_total: usize) -> (r: Self)
        ensures
            r.vm_dir is None,
            r.tap is None,
            r.sidecars_total == sidecars_total,
            r.sidecars_spawned == 0,
            !r.vm_spawned,
            r.wf(),
    {
        RunContext {
            vm_dir: None,
            tap: None,
            sidecars_total,
            sidecars_spawned: 0,
            vm_spawned: false,
        }
    }

    /// Records that the per-run directory now exists.
    pub fn note_vm_dir_created(&mut self, dir: String)
        requires
            old(self).vm_dir is None,
        ensures
            final(self).vm_dir == Some(dir),
            final(self).tap == old(self).tap,
            final(self).sidecars_total == old(self).sidecars_total,
            final(self).sidecars_spawned == old(self).sidecars_spawned,
            final(self).vm_spawned == old(self).vm_spawned,
    {
        self.vm_dir = Some(dir);
    }

    /// Records the granted tap lease.
    pub fn note_tap_leased(&mut self, name: String)
        requires
            old(self).tap is None,
        ensures
            final(self).tap == Some(name),
            final(self).vm_dir == old(self).vm_dir,
            final(self).sidecars_total == old(self).sidecars_total,
            final(self).sidecars_spawned == old(self).sidecars_spawned,
            final(self).vm_spawned == old(self).vm_spawned,
    {
        self.tap = Some(name);
    }

    /// Records one more spawned sidecar, in plan order.
    pub fn note_sidecar_spawned(&mut self)
        requires
            old(self).sidecars_spawned < old(self).sidecars_total,
        ensures
            final(self).sidecars_spawned == old(self).sidecars_spawned + 1,
            final(self).vm_dir == old(self).vm_dir,
            final(self).tap == old(self).tap,
            final(self).sidecars_total == old(self).sidecars_total,
            final(self).vm_spawned == old(self).vm_spawned,
    {
        self.sidecars_spawned = self.sidecars_spawned + 1;
    }

    /// Records that the hypervisor is running; only allowed once every
    /// sidecar has been spawned, so the spawn order of the
    /// configuration is kept.
    pub fn note_vm_spawned(&mut self)
        requires
            old(self).sidecars_spawned == old(self).sidecars_total,
        ensures
            final(self).vm_spawned,
            final(self).vm_dir == old(self).vm_dir,
            final(self).tap == old(self).tap,
            final(self).sidecars_total == old(self).sidecars_total,
            final(self).sidecars_spawned == old(self).sidecars_spawned,
    {
        self.vm_spawned = true;
    }
}

/// One teardown step, to be performed by the driver.
#[derive(Debug, PartialEq, Eq)]
pub enum TeardownStep {
    /// Send the hypervisor a hard termination.
    KillVm,
    /// Reap the hypervisor.
    WaitVm,
    /// Send sidecar number `i` (in spawn order) a hard termination.
    KillSidecar(usize),
    /// Reap sidecar number `i`.
    WaitSidecar(usize),
    /// Ask the daemon to delete the leased tap device.
    ReleaseTap(String),
    /// Remove the per-run directory, recursively. Always last.
    RemoveVmDir(String),
}

/// The full teardown for a context: hypervisor kill and reap first,
/// sidecar kills in spawn order, sidecar reaps in the same order, the
/// tap release strictly after the hypervisor reap, directory removal
/// last.
pub open spec fn spec_teardown(ctx: RunContext) -> Seq<TeardownStep> {
    (if ctx.vm_spawned {
        seq![TeardownStep::KillVm, TeardownStep::WaitVm]
    } else {
        Seq::empty()
    }) + Seq::new(ctx.sidecars_spawned as nat, |i: int| TeardownStep::KillSidecar(i as usize))
        + Seq::new(ctx.sidecars_spawned as nat, |i: int| TeardownStep::WaitSidecar(i as usize))
        + (match ctx.tap {
        Some(name) => seq![TeardownStep::ReleaseTap(name)],
        None => Seq::empty(),
    }) + (match ctx.vm_dir {
        Some(dir) => seq![TeardownStep::RemoveVmDir(dir)],
        None => Seq::empty(),
    })
}

/// Computes the teardown steps for a context.
#[verifier::loop_isolation(false)]
pub fn teardown_steps(ctx: &RunContext) -> (r: Vec<TeardownStep>)
    ensures
        r@ == spec_teardown(*ctx),
{
    let mut r: Vec<TeardownStep> = Vec::new();
    if ctx.vm_spawned {
        r.push(TeardownStep::KillVm);
        r.push(TeardownStep::WaitVm);
    }
    let ghost head = r@;
    proof {
        assert(head =~= if ctx.vm_spawned {
            seq![TeardownStep::KillVm, TeardownStep::WaitVm]
        } else {
            Seq::empty()
        });
    }
    let n = ctx.sidecars_spawned;
    let mut i: usize = 0;
    while i < n
        invariant
            i <= n,
            r@ =~= head + Seq::new(i as nat, |k: int| TeardownStep::KillSidecar(k as usize)),
        decreases n - i,
    {
        r.push(TeardownStep::KillSidecar(i));
        proof {
            assert(r@ =~= head + Seq::new(
                (i + 1) as nat,
                |k: int| TeardownStep::KillSidecar(k as usize),
            ));
        }
        i = i + 1;
    }
    let ghost head2 = r@;
    let mut j: usize = 0;
    while j < n
        invariant
            j <= n,
            r@ =~= head2 + Seq::new(j as nat, |k: int| TeardownStep::WaitSidecar(k as usize)),
        decreases n - j,
    {
        r.push(TeardownStep::WaitSidecar(j));
        proof {
            assert(r@ =~= head2 + Seq::new(
                (j + 1) as nat,
                |k: int| TeardownStep::WaitSidecar(k as usize),
            ));
        }
        j = j + 1;
    }
    match &ctx.tap {
        Some(name) => r.push(TeardownStep::ReleaseTap(name.clone())),
        None => {}
    }
    match &ctx.vm_dir {
        Some(dir) => r.push(TeardownStep::RemoveVmDir(dir.clone())),
        None => {}
    }
    proof {
        assert(r@ =~= spec_teardown(*ctx));
    }
    r
}

/// Where each step stands in the plan: the two hypervisor steps first,
/// the sidecar kills, the sidecar reaps, the tap release, the removal.
proof fn lemma_teardown_shape(ctx: RunContext)
    ensures
        ({
            let s = spec_teardown(ctx);
            let a: int = if ctx.vm_spawned {
                2int
            } else {
                0
            };
            let n = ctx.sidecars_spawned as int;
            let t: int = if ctx.tap is Some {
                1int
            } else {
                0
            };
            let d: int = if ctx.vm_dir is Some {
                1int
            } else {
                0
            };
            &&& s.len() == a + 2 * n + t + d
            &&& (ctx.vm_spawned ==> s[0] == TeardownStep::KillVm && s[1] == TeardownStep::WaitVm)
            &&& (forall|i: int| a <= i < a + n ==> #[trigger] s[i] == TeardownStep::KillSidecar(
                (i - a) as usize,
            ))
            &&& (forall|i: int| a + n <= i < a + 2 * n ==> #[trigger] s[i]
                == TeardownStep::WaitSidecar((i - a - n) as usize))
            &&& (ctx.tap matches Some(name) ==> s[a + 2 * n] == TeardownStep::ReleaseTap(name))
            &&& (ctx.vm_dir matches Some(dir) ==> s[a + 2 * n + t] == TeardownStep::RemoveVmDir(
                dir,
            ))
        }),
{
}

/// What the step at one position is: positions below `a` hold the two
/// hypervisor steps, the next `n` the sidecar kills in order, the next
/// `n` the sidecar reaps in order, one position the tap release when a
/// lease is held, and the final position the directory removal when
/// the directory was created.
proof fn lemma_teardown_at(ctx: RunContext, j: int)
    requires
        0 <= j < spec_teardown(ctx).len(),
    ensures
        ({
            let s = spec_teardown(ctx);
            let a: int = if ctx.vm_spawned {
                2int
            } else {
                0
            };
            let n = ctx.sidecars_spawned as int;
            let t: int = if ctx.tap is Some {
                1int
            } else {
                0
            };
            &&& (j < a ==> ctx.vm_spawned)
            &&& (j == 0 && ctx.vm_spawned ==> s[j] == TeardownStep::KillVm)
            &&& (j == 1 && ctx.vm_spawned ==> s[j] == TeardownStep::WaitVm)
            &&& (a <= j < a + n ==> s[j] == TeardownStep::KillSidecar((j - a) as usize))
            &&& (a + n <= j < a + 2 * n ==> s[j] == TeardownStep::WaitSidecar(
                (j - a - n) as usize,
            ))
            &&& (a + 2 * n <= j < a + 2 * n + t ==> ctx.tap is Some && s[j]
                == TeardownStep::ReleaseTap(ctx.tap->0))
            &&& (a + 2 * n + t <= j ==> ctx.vm_dir is Some && s[j] == TeardownStep::RemoveVmDir(
                ctx.vm_dir->0,
            ) && j == s.len() - 1)
        }),
{
    lemma_teardown_shape(ctx);
}

/// Reversal: the teardown releases exactly what the run acquired, each
/// resource exactly once. The hypervisor is killed and reaped exactly
/// once if it was spawned and never otherwise; only spawned sidecars
/// are killed or reaped (each exactly once:
/// `lemma_teardown_sidecar_once`); the tap lease is released exactly
/// once if held, never otherwise; the per-run directory is removed
/// exactly once if created, never otherwise.
pub proof fn lemma_teardown_reversal(ctx: RunContext)
    ensures
        ({
            let s = spec_teardown(ctx);
            let a: int = if ctx.vm_spawned {
                2int
            } else {
                0
            };
            let n = ctx.sidecars_spawned as int;
            let t: int = if ctx.tap is Some {
                1int
            } else {
                0
            };
            &&& (ctx.vm_spawned ==> s[0] == TeardownStep::KillVm && forall|j: int|
                0 <= j < s.len() && #[trigger] s[j] is KillVm ==> j == 0)
            &&& (!ctx.vm_spawned ==> forall|j: int|
                0 <= j < s.len() ==> !(#[trigger] s[j] is KillVm))
            &&& (ctx.vm_spawned ==> s[1] == TeardownStep::WaitVm && forall|j: int|
                0 <= j < s.len() && #[trigger] s[j] is WaitVm ==> j == 1)
            &&& (!ctx.vm_spawned ==> forall|j: int|
                0 <= j < s.len() ==> !(#[trigger] s[j] is WaitVm))
            &&& (forall|j: int|
                0 <= j < s.len() ==> ((#[trigger] s[j]) matches TeardownStep::KillSidecar(k)
                    ==> k < ctx.sidecars_spawned))
            &&& (forall|j: int|
                0 <= j < s.len() ==> ((#[trigger] s[j]) matches TeardownStep::WaitSidecar(k)
                    ==> k < ctx.sidecars_spawned))
            &&& (ctx.tap matches Some(name) ==> s[a + 2 * n] == TeardownStep::ReleaseTap(name)
                && forall|j: int|
                0 <= j < s.len() && #[trigger] s[j] is ReleaseTap ==> j == a + 2 * n)
            &&& (ctx.tap is None ==> forall|j: int|
                0 <= j < s.len() ==> !(#[trigger] s[j] is ReleaseTap))
            &&& (ctx.vm_dir matches Some(dir) ==> s[a + 2 * n + t] == TeardownStep::RemoveVmDir(
                dir,
            ) && forall|j: int|
                0 <= j < s.len() && #[trigger] s[j] is RemoveVmDir ==> j == a + 2 * n + t)
            &&& (ctx.vm_dir is None ==> forall|j: int|
                0 <= j < s.len() ==> !(#[trigger] s[j] is RemoveVmDir))
        }),
{
    lemma_teardown_shape(ctx);
    let s = spec_teardown(ctx);
    assert forall|j: int| 0 <= j < s.len() implies {
        let a: int = if ctx.vm_spawned {
            2int
        } else {
            0
        };
        let n = ctx.sidecars_spawned as int;
        let t: int = if ctx.tap is Some {
            1int
        } else {
            0
        };
        &&& ((#[trigger] s[j]) is KillVm ==> ctx.vm_spawned && j == 0)
        &&& (s[j] is WaitVm ==> ctx.vm_spawned && j == 1)
        &&& (s[j] matches TeardownStep::KillSidecar(k) ==> k < ctx.sidecars_spawned)
        &&& (s[j] matches TeardownStep::WaitSidecar(k) ==> k < ctx.sidecars_spawned)
        &&& (s[j] is ReleaseTap ==> ctx.tap is Some && j == a + 2 * n)
        &&& (s[j] is RemoveVmDir ==> ctx.vm_dir is Some && j == a + 2 * n + t)
    } by {
        lemma_teardown_at(ctx, j);
    }
}

/// Reversal, per sidecar: each spawned sidecar is killed exactly once
/// and reaped exactly once by the teardown, at its place in the spawn
/// order.
pub proof fn lemma_teardown_sidecar_once(ctx: RunContext, k: usize)
    requires
        k < ctx.sidecars_spawned,
    ensures
        ({
            let s = spec_teardown(ctx);
            let a: int = if ctx.vm_spawned {
                2int
            } else {
                0
            };
            let n = ctx.sidecars_spawned as int;
            &&& s[a + k] == TeardownStep::KillSidecar(k)
            &&& (forall|j: int|
                0 <= j < s.len() && #[trigger] s[j] == TeardownStep::KillSidecar(k) ==> j == a
                    + k)
            &&& s[a + n + k] == TeardownStep::WaitSidecar(k)
            &&& (forall|j: int|
                0 <= j < s.len() && #[trigger] s[j] == TeardownStep::WaitSidecar(k) ==> j == a
                    + n + k)
        }),
{
    lemma_teardown_shape(ctx);
    let s = spec_teardown(ctx);
    let a: int = if ctx.vm_spawned {
        2int
    } else {
        0
    };
    let n = ctx.sidecars_spawned as int;
    assert forall|j: int|
        0 <= j < s.len() && #[trigger] s[j] == TeardownStep::KillSidecar(k) implies j == a
        + k by {
        lemma_teardown_at(ctx, j);
    }
    assert forall|j: int|
        0 <= j < s.len() && #[trigger] s[j] == TeardownStep::WaitSidecar(k) implies j == a + n
        + k by {
        lemma_teardown_at(ctx, j);
    }
}

/// Order: the hypervisor is reaped before any sidecar is killed, every
/// sidecar kill precedes every sidecar reap, every sidecar reap
/// precedes the tap release, and the tap release precedes the removal
/// of the per-run directory, which is the last act. Together with
/// `RunContext::wf` — the hypervisor spawns only after every sidecar —
/// this is the ordering contract of the run.
pub proof fn lemma_teardown_order(ctx: RunContext)
    ensures
        ({
            let s = spec_teardown(ctx);
            &&& (forall|i: int, j: int|
                0 <= i < s.len() && 0 <= j < s.len() && #[trigger] s[i] is KillVm
                    && #[trigger] s[j] is WaitVm ==> i < j)
            &&& (forall|i: int, j: int|
                0 <= i < s.len() && 0 <= j < s.len() && #[trigger] s[i] is WaitVm
                    && #[trigger] s[j] is KillSidecar ==> i < j)
            &&& (forall|i: int, j: int|
                0 <= i < s.len() && 0 <= j < s.len() && #[trigger] s[i] is KillSidecar
                    && #[trigger] s[j] is WaitSidecar ==> i < j)
            &&& (forall|i: int, j: int|
                0 <= i < s.len() && 0 <= j < s.len() && #[trigger] s[i] is WaitSidecar
                    && #[trigger] s[j] is ReleaseTap ==> i < j)
            &&& (forall|i: int, j: int|
                0 <= i < s.len() && 0 <= j < s.len() && #[trigger] s[i] is WaitVm
                    && #[trigger] s[j] is ReleaseTap ==> i < j)
            &&& (forall|i: int, j: int|
                0 <= i < s.len() && 0 <= j < s.len() && #[trigger] s[i] is ReleaseTap
                    && #[trigger] s[j] is RemoveVmDir ==> i < j)
            &&& (forall|i: int|
                0 <= i < s.len() && #[trigger] s[i] is RemoveVmDir ==> i == s.len() - 1)
        }),
{
    lemma_teardown_shape(ctx);
    let s = spec_teardown(ctx);
    assert forall|j: int| 0 <= j < s.len() implies {
        let a: int = if ctx.vm_spawned {
            2int
        } else {
            0
        };
        let n = ctx.sidecars_spawned as int;
        let t: int = if ctx.tap is Some {
            1int
        } else {
            0
        };
        &&& ((#[trigger] s[j]) is KillVm ==> j == 0 && ctx.vm_spawned)
        &&& (s[j] is WaitVm ==> j == 1 && ctx.vm_spawned)
        &&& (s[j] is KillSidecar ==> a <= j < a + n)
        &&& (s[j] is WaitSidecar ==> a + n <= j < a + 2 * n)
        &&& (s[j] is ReleaseTap ==> j == a + 2 * n)
        &&& (s[j] is RemoveVmDir ==> j == a + 2 * n + t && j == s.len() - 1)
    } by {
        lemma_teardown_at(ctx, j);
    }
}

} // verus!
