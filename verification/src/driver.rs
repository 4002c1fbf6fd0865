//! The per-tick policy that sequences the growth model's operations.

use vstd::prelude::*;

verus! {

use crate::model::GrowthModel;

/// Drives one `GrowthModel`, once per simulated tick, and remembers whether
/// the terminal limit-reached state has been entered.
pub struct TickDriver {
    pub model: GrowthModel,
    pub limit_reached: bool,
}

impl TickDriver {
    /// The driver's invariant: the model is well formed, and in the terminal
    /// state the capacity sits exactly at its ceiling with every slot filled.
    pub open spec fn wf(self) -> bool {
        &&& self.model.wf()
        &&& self.limit_reached ==> self.model.size == self.model.capacity
            && self.model.capacity == self.model.capacity_limit()
    }

    pub fn new(model: GrowthModel) -> (r: TickDriver)
        requires
            model.wf(),
        ensures
            r.wf(),
            r.model == model,
            !r.limit_reached,
    {
        TickDriver { model, limit_reached: false }
    }

    /// The state after one tick.
    ///
    /// A tick first attempts an admission; when that is blocked and the prior
    /// generation is fully migrated it expands and retries once, entering the
    /// terminal state if even the retry fails. When migration is still
    /// incomplete the expansion is deferred and nothing mutates for growth.
    /// Independently of the growth outcome, the tick then advances migration
    /// by one unit. In the terminal state the tick is a no-op.
    pub open spec fn tick_spec(self) -> TickDriver {
        if self.limit_reached {
            self
        } else {
            let m = self.model;
            if m.can_admit() {
                TickDriver { model: m.try_grow_spec().migrate_one_spec(), limit_reached: false }
            } else if m.migrated == m.old_generation_size {
                let expanded = m.expand_spec();
                if expanded.can_admit() {
                    TickDriver {
                        model: expanded.try_grow_spec().migrate_one_spec(),
                        limit_reached: false,
                    }
                } else {
                    TickDriver { model: expanded.migrate_one_spec(), limit_reached: true }
                }
            } else {
                TickDriver { model: m.migrate_one_spec(), limit_reached: false }
            }
        }
    }
}

/// What a single tick did, for the harness driving the loop.
#[derive(Clone, Copy, Debug, PartialEq, Eq)]
pub struct TickReport {
    /// One logical element was admitted this tick.
    pub admitted: bool,
    /// The capacity was expanded this tick.
    pub expanded: bool,
    /// One old-generation element was migrated this tick.
    pub migration_advanced: bool,
    /// The terminal limit-reached state was entered this tick.
    pub limit_entered: bool,
}

impl TickDriver {
    /// Runs one tick of the policy and reports what happened.
    ///
    /// The report's flags are exact: `admitted`, `expanded` and
    /// `migration_advanced` hold if and only if the corresponding counter or
    /// size moved, and `limit_entered` only on the single tick that enters the
    /// terminal state. Once the terminal state is active the tick leaves the
    /// driver untouched, so the capacity — already frozen at its ceiling —
    /// never changes again.
    pub fn tick(&mut self) -> (r: TickReport)
        requires
            old(self).wf(),
            old(self).model.resize_count < usize::MAX,
            old(self).model.migration_op_count < usize::MAX,
        ensures
            final(self).wf(),
            *final(self) == old(self).tick_spec(),
            r.admitted <==> final(self).model.size == old(self).model.size + 1,
            r.expanded <==> final(self).model.resize_count == old(self).model.resize_count + 1,
            r.migration_advanced <==> final(self).model.migration_op_count == old(
                self,
            ).model.migration_op_count + 1,
            r.limit_entered <==> !old(self).limit_reached && final(self).limit_reached,
            final(self).model.capacity >= old(self).model.capacity,
            old(self).limit_reached ==> *final(self) == *old(self),
            !old(self).limit_reached && !old(self).model.can_admit() && old(self).model.migrated
                < old(self).model.old_generation_size ==> final(self).model.capacity == old(
                self,
            ).model.capacity && !r.expanded && final(self).model.migrated == old(
                self,
            ).model.migrated + 1,
    {
        if self.limit_reached {
            return TickReport {
                admitted: false,
                expanded: false,
                migration_advanced: false,
                limit_entered: false,
            };
        }
        let mut admitted = false;
        let mut expanded = false;
        let mut limit_entered = false;
        match self.model.try_grow() {
            Ok(_) => {
                admitted = true;
            },
            Err(_) => {
                if self.model.migrated == self.model.old_generation_size {
                    self.model.expand();
                    expanded = true;
                    match self.model.try_grow() {
                        Ok(_) => {
                            admitted = true;
                        },
                        Err(_) => {
                            self.limit_reached = true;
                            limit_entered = true;
                        },
                    }
                }
            },
        }
        let migration_advanced = self.model.migrate_one().is_ok();
        TickReport { admitted, expanded, migration_advanced, limit_entered }
    }

    /// The state after `n` consecutive ticks.
    pub open spec fn tick_n(self, n: nat) -> TickDriver
        decreases n,
    {
        if n == 0 {
            self
        } else {
            self.tick_n((n - 1) as nat).tick_spec()
        }
    }
}

/// Law: a single tick preserves the invariant and never shrinks the
/// capacity, and in the terminal state it changes nothing at all.
pub proof fn lemma_tick_preserves_invariant(d: TickDriver)
    requires
        d.wf(),
    ensures
        d.tick_spec().wf(),
        d.tick_spec().model.capacity >= d.model.capacity,
        d.limit_reached ==> d.tick_spec() == d,
{
    crate::model::lemma_grown_capacity_gains(d.model.capacity as int, d.model.growth_factor);
}

/// Law: across any run of ticks the invariant keeps holding and the
/// capacity is non-decreasing.
pub proof fn lemma_run_capacity_monotone(d: TickDriver, n: nat)
    requires
        d.wf(),
    ensures
        d.tick_n(n).wf(),
        d.tick_n(n).model.capacity >= d.model.capacity,
    decreases n,
{
    if n > 0 {
        lemma_run_capacity_monotone(d, (n - 1) as nat);
        lemma_tick_preserves_invariant(d.tick_n((n - 1) as nat));
    }
}

/// Law: once the terminal limit-reached state is active, any number of
/// further ticks leaves the driver — its capacity and counters included —
/// exactly as it is.
pub proof fn lemma_limit_reached_frozen(d: TickDriver, n: nat)
    requires
        d.wf(),
        d.limit_reached,
    ensures
        d.tick_n(n) == d,
    decreases n,
{
    if n > 0 {
        lemma_limit_reached_frozen(d, (n - 1) as nat);
    }
}

} // verus!
