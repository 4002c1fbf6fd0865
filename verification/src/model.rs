//! The growth/capacity/migration state machine.
//!
//! A `GrowthModel` tracks how many logical elements a growable array holds
//! (`size`) against how many slots are available (`capacity`). When growth is
//! blocked, `expand` multiplies the capacity by a rational growth factor and
//! marks everything currently held as an "old generation" that still has to be
//! migrated into the enlarged storage; `migrate_one` advances that migration by
//! exactly one unit per call, so the cost of a resize is spread over many ticks
//! instead of being paid atomically.

use vstd::arithmetic::div_mod::{lemma_div_is_ordered, lemma_div_multiples_vanish};
use vstd::arithmetic::mul::lemma_mul_upper_bound;
use vstd::prelude::*;

verus! {

/// The multiplier applied to `capacity` on expansion, held as an exact
/// ratio `num / den` so that the model stays in integer arithmetic.
#[derive(Clone, Copy, Debug, PartialEq, Eq)]
pub struct GrowthFactor {
    pub num: usize,
    pub den: usize,
}

impl GrowthFactor {
    /// A usable growth factor is strictly greater than one.
    pub open spec fn wf(self) -> bool {
        1 <= self.den < self.num
    }

    pub fn new(num: usize, den: usize) -> (r: GrowthFactor)
        requires
            1 <= den < num,
        ensures
            r.num == num,
            r.den == den,
            r.wf(),
    {
        GrowthFactor { num, den }
    }
}

/// `ceil(a / b)` for `a >= 0` and `b >= 1`.
pub open spec fn ceil_div(a: int, b: int) -> int {
    (a + b - 1) / b
}

/// The capacity one expansion yields, before the hard limit clamps it.
pub open spec fn grown_capacity(cap: int, gf: GrowthFactor) -> int {
    ceil_div(cap * gf.num, gf.den as int)
}

/// With a growth factor above one, an expansion always gains at least one slot.
pub proof fn lemma_grown_capacity_gains(cap: int, gf: GrowthFactor)
    requires
        gf.wf(),
        cap >= 1,
    ensures
        grown_capacity(cap, gf) >= cap + 1,
{
    let num = gf.num as int;
    let den = gf.den as int;
    let a = cap * num;
    assert(a >= cap * den + cap) by (nonlinear_arith)
        requires
            a == cap * num,
            num >= den + 1,
            cap >= 1,
    ;
    assert(a + den - 1 >= (cap + 1) * den) by (nonlinear_arith)
        requires
            a >= cap * den + cap,
            cap >= 1,
            den >= 1,
    ;
    lemma_div_is_ordered((cap + 1) * den, a + den - 1, den);
    lemma_div_multiples_vanish(cap + 1, den);
}

/// A fraction of the capacity, reported with its exact numerator and
/// denominator so that no rounding is baked into the model.
#[derive(Clone, Copy, Debug, PartialEq, Eq)]
pub struct Ratio {
    pub num: usize,
    pub den: usize,
}

/// The growth-and-migration state of the modelled array.
#[derive(Clone, Copy, Debug, PartialEq, Eq)]
pub struct GrowthModel {
    pub growth_factor: GrowthFactor,
    /// Slots available; starts at 1 and never decreases.
    pub capacity: usize,
    /// Logical elements admitted so far; at most `capacity`.
    pub size: usize,
    /// How many of the first elements predate the most recent expansion and
    /// still belong to the generation pending migration.
    pub old_generation_size: usize,
    /// How many old-generation elements have been migrated already.
    pub migrated: usize,
    /// Optional ceiling on `capacity`.
    pub hard_limit: Option<usize>,
    /// Number of expansions performed.
    pub resize_count: usize,
    /// Cumulative number of successful migration steps.
    pub migration_op_count: usize,
}

impl GrowthModel {
    /// The ceiling that `capacity` can never exceed: the hard limit when one
    /// is set, otherwise the machine bound.
    pub open spec fn capacity_limit(self) -> int {
        match self.hard_limit {
            Some(l) => l as int,
            None => usize::MAX as int,
        }
    }

    /// The model's invariant: capacity is positive, within the limit, and
    /// holds all admitted elements; migration never runs past the old
    /// generation, which is itself part of what was admitted.
    pub open spec fn wf(self) -> bool {
        &&& self.growth_factor.wf()
        &&& 1 <= self.capacity
        &&& self.size <= self.capacity
        &&& self.migrated <= self.old_generation_size <= self.size
        &&& self.capacity <= self.capacity_limit()
    }

    pub fn new(growth_factor: GrowthFactor, hard_limit: Option<usize>) -> (r: GrowthModel)
        requires
            growth_factor.wf(),
            hard_limit matches Some(l) ==> 1 <= l,
        ensures
            r.wf(),
            r.growth_factor == growth_factor,
            r.hard_limit == hard_limit,
            r.capacity == 1,
            r.size == 0,
            r.old_generation_size == 0,
            r.migrated == 0,
            r.resize_count == 0,
            r.migration_op_count == 0,
    {
        GrowthModel {
            growth_factor,
            capacity: 1,
            size: 0,
            old_generation_size: 0,
            migrated: 0,
            hard_limit,
            resize_count: 0,
            migration_op_count: 0,
        }
    }

    /// Whether one more element fits in the current capacity.
    pub open spec fn can_admit(self) -> bool {
        self.size < self.capacity
    }

    /// The state after `try_grow`: one more element when it fits, otherwise
    /// unchanged.
    pub open spec fn try_grow_spec(self) -> GrowthModel {
        if self.can_admit() {
            GrowthModel { size: (self.size + 1) as usize, ..self }
        } else {
            self
        }
    }

    /// Attempts to admit one logical element.
    ///
    /// Succeeds if and only if the new element fits in the current capacity,
    /// returning the new size; a failure is a normal "capacity exhausted"
    /// signal and leaves the state untouched.
    pub fn try_grow(&mut self) -> (r: Result<usize, ()>)
        requires
            old(self).wf(),
        ensures
            final(self).wf(),
            *final(self) == old(self).try_grow_spec(),
            r is Ok <==> old(self).can_admit(),
            r matches Ok(n) ==> n == old(self).size + 1 && n == final(self).size,
            r is Err ==> *final(self) == *old(self),
    {
        if self.size >= self.capacity {
            return Err(());
        }
        self.size = self.size + 1;
        Ok(self.size)
    }

    /// The state after `expand`: the whole current contents become the old
    /// generation, migration restarts, and the capacity is multiplied by the
    /// growth factor (rounded up), clamped to the capacity ceiling.
    pub open spec fn expand_spec(self) -> GrowthModel {
        let grown = grown_capacity(self.capacity as int, self.growth_factor);
        let capped = if grown > self.capacity_limit() {
            self.capacity_limit()
        } else {
            grown
        };
        GrowthModel {
            capacity: capped as usize,
            old_generation_size: self.size,
            migrated: 0,
            resize_count: (self.resize_count + 1) as usize,
            ..self
        }
    }

    /// Enlarges the capacity after growth has been blocked.
    ///
    /// Everything currently held becomes the old generation pending migration,
    /// the capacity becomes `ceil(capacity * growth_factor)` clamped to the
    /// hard limit, migration restarts at zero and the resize counter advances.
    /// The capacity never shrinks, and gains at least one slot whenever it was
    /// still below its ceiling.
    pub fn expand(&mut self)
        requires
            old(self).wf(),
            old(self).resize_count < usize::MAX,
        ensures
            final(self).wf(),
            *final(self) == old(self).expand_spec(),
            final(self).capacity >= old(self).capacity,
            old(self).capacity < old(self).capacity_limit() ==> final(self).capacity
                > old(self).capacity,
            old(self).capacity == old(self).capacity_limit() ==> final(self).capacity
                == old(self).capacity,
            final(self).old_generation_size == old(self).size,
            final(self).migrated == 0,
            final(self).resize_count == old(self).resize_count + 1,
            final(self).size == old(self).size,
            final(self).migration_op_count == old(self).migration_op_count,
            final(self).growth_factor == old(self).growth_factor,
            final(self).hard_limit == old(self).hard_limit,
    {
        proof {
            lemma_grown_capacity_gains(self.capacity as int, self.growth_factor);
            lemma_mul_upper_bound(
                self.capacity as int,
                u64::MAX as int,
                self.growth_factor.num as int,
                u64::MAX as int,
            );
        }
        self.resize_count = self.resize_count + 1;
        self.old_generation_size = self.size;
        let num: u128 = self.growth_factor.num as u128;
        let den: u128 = self.growth_factor.den as u128;
        let prod: u128 = (self.capacity as u128) * num;
        let grown_wide: u128 = (prod + den - 1) / den;
        let mut new_cap: usize = if grown_wide > (usize::MAX as u128) {
            usize::MAX
        } else {
            grown_wide as usize
        };
        if let Some(limit) = self.hard_limit {
            if new_cap > limit {
                new_cap = limit;
            }
        }
        self.capacity = new_cap;
        self.migrated = 0;
    }

    /// The state after `migrate_one`: one more old-generation element counted
    /// as migrated while any remain, otherwise unchanged.
    pub open spec fn migrate_one_spec(self) -> GrowthModel {
        if self.migrated < self.old_generation_size {
            GrowthModel {
                migrated: (self.migrated + 1) as usize,
                migration_op_count: (self.migration_op_count + 1) as usize,
                ..self
            }
        } else {
            self
        }
    }

    /// Advances migration by exactly one unit.
    ///
    /// Succeeds if and only if some old-generation element is still pending,
    /// returning the new migration count; once migration is complete the call
    /// is a no-op and fails.
    pub fn migrate_one(&mut self) -> (r: Result<usize, ()>)
        requires
            old(self).wf(),
            old(self).migrated < old(self).old_generation_size ==> old(self).migration_op_count
                < usize::MAX,
        ensures
            final(self).wf(),
            *final(self) == old(self).migrate_one_spec(),
            r is Ok <==> old(self).migrated < old(self).old_generation_size,
            r matches Ok(n) ==> n == old(self).migrated + 1 && n == final(self).migrated
                && final(self).migration_op_count == old(self).migration_op_count + 1,
            r is Err ==> *final(self) == *old(self),
    {
        if self.migrated < self.old_generation_size {
            self.migration_op_count = self.migration_op_count + 1;
            self.migrated = self.migrated + 1;
            Ok(self.migrated)
        } else {
            Err(())
        }
    }

    /// The numerator of `efficiency`: freshly admitted elements plus the old
    /// elements already migrated, deliberately excluding old data not yet
    /// migrated.
    pub open spec fn settled(self) -> int {
        self.size - self.old_generation_size + self.migrated
    }

    /// The fraction of capacity occupied by settled data:
    /// `(size - old_generation_size + migrated) / capacity`, reported exactly.
    pub fn efficiency(&self) -> (r: Ratio)
        requires
            self.wf(),
        ensures
            r.num == self.settled(),
            r.den == self.capacity,
            r.num <= r.den,
    {
        Ratio { num: self.size - self.old_generation_size + self.migrated, den: self.capacity }
    }
}

impl GrowthModel {
    /// The state after `n` consecutive `migrate_one` steps.
    pub open spec fn migrate_n(self, n: nat) -> GrowthModel
        decreases n,
    {
        if n == 0 {
            self
        } else {
            self.migrate_n((n - 1) as nat).migrate_one_spec()
        }
    }
}

/// Law: once migration is complete, any number of further `migrate_one`
/// steps leaves the model exactly as it is.
pub proof fn lemma_migration_exhausted_idempotent(m: GrowthModel, n: nat)
    requires
        m.migrated == m.old_generation_size,
    ensures
        m.migrate_n(n) == m,
    decreases n,
{
    if n > 0 {
        lemma_migration_exhausted_idempotent(m, (n - 1) as nat);
    }
}

/// Law: immediately after an expansion nothing is settled, and a single
/// admission and a single migration step then contribute identically to the
/// settled occupancy — each raises the numerator to one over the unchanged
/// capacity.
pub proof fn lemma_efficiency_after_expand(m: GrowthModel)
    requires
        m.wf(),
    ensures
        m.expand_spec().settled() == 0,
        m.expand_spec().can_admit() ==> m.expand_spec().try_grow_spec().settled() == 1,
        m.size >= 1 ==> m.expand_spec().migrate_one_spec().settled() == 1,
        m.expand_spec().try_grow_spec().capacity == m.expand_spec().migrate_one_spec().capacity,
{
}

/// Law: with a growth factor of exactly two and no hard limit, each
/// expansion doubles the capacity, so the `k`-th expansion of a fresh model
/// yields a capacity of `2^k`.
pub proof fn lemma_factor_two_doubles(m: GrowthModel)
    requires
        m.wf(),
        m.growth_factor.num == 2,
        m.growth_factor.den == 1,
        m.hard_limit is None,
        m.capacity * 2 <= usize::MAX,
    ensures
        m.expand_spec().capacity == 2 * m.capacity,
{
    lemma_div_multiples_vanish(2 * m.capacity, 1);
}

/// The read-only per-tick view handed to a rendering or statistics harness.
#[derive(Clone, Copy, Debug, PartialEq, Eq)]
pub struct Snapshot {
    pub growth_factor: GrowthFactor,
    pub capacity: usize,
    pub size: usize,
    pub old_generation_size: usize,
    pub migrated: usize,
    pub resize_count: usize,
    pub migration_op_count: usize,
    pub efficiency: Ratio,
}

impl GrowthModel {
    /// Copies the model's observable state out for display; the model itself
    /// is not touched.
    pub fn snapshot(&self) -> (r: Snapshot)
        requires
            self.wf(),
        ensures
            r.growth_factor == self.growth_factor,
            r.capacity == self.capacity,
            r.size == self.size,
            r.old_generation_size == self.old_generation_size,
            r.migrated == self.migrated,
            r.resize_count == self.resize_count,
            r.migration_op_count == self.migration_op_count,
            r.efficiency.num == self.settled(),
            r.efficiency.den == self.capacity,
    {
        Snapshot {
            growth_factor: self.growth_factor,
            capacity: self.capacity,
            size: self.size,
            old_generation_size: self.old_generation_size,
            migrated: self.migrated,
            resize_count: self.resize_count,
            migration_op_count: self.migration_op_count,
            efficiency: self.efficiency(),
        }
    }
}

} // verus!
