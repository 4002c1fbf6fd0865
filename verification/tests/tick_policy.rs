use growth_model::driver::TickDriver;
use growth_model::model::{GrowthFactor, GrowthModel};

fn driver(num: usize, den: usize, hard_limit: Option<usize>) -> TickDriver {
    TickDriver::new(GrowthModel::new(GrowthFactor::new(num, den), hard_limit))
}

#[test]
fn invariants_hold_after_every_tick() {
    for (num, den, limit) in [(2, 1, None), (2, 1, Some(4)), (3, 2, None), (3, 2, Some(7))] {
        let mut d = driver(num, den, limit);
        let mut prev_capacity = d.model.capacity;
        for _ in 0..200 {
            d.tick();
            assert!(d.model.size <= d.model.capacity);
            assert!(d.model.migrated <= d.model.old_generation_size);
            assert!(d.model.old_generation_size <= d.model.size);
            assert!(d.model.capacity >= prev_capacity);
            if let Some(l) = limit {
                assert!(d.model.capacity <= l);
            }
            prev_capacity = d.model.capacity;
        }
    }
}

#[test]
fn unbounded_growth_doubles_capacity_at_each_expansion() {
    let mut d = driver(2, 1, None);
    let mut expansion_capacities = Vec::new();
    let mut prev_capacity = d.model.capacity;
    let mut expands = 0usize;
    for _ in 0..300 {
        let report = d.tick();
        if report.expanded {
            assert_eq!(d.model.capacity, 2 * prev_capacity);
            expansion_capacities.push(d.model.capacity);
            expands += 1;
        }
        assert!(!report.limit_entered);
        prev_capacity = d.model.capacity;
    }
    assert_eq!(&expansion_capacities[..5], &[2, 4, 8, 16, 32]);
    assert_eq!(d.model.resize_count, expands);
}

#[test]
fn bounded_growth_reaches_the_limit_exactly_once() {
    let mut d = driver(2, 1, Some(4));

    // Tick 1: the very first admission fits into the initial capacity of 1.
    let r = d.tick();
    assert!(r.admitted && !r.expanded);
    assert_eq!((d.model.capacity, d.model.size), (1, 1));

    // Tick 2: blocked, migration trivially complete, expand to 2 and retry.
    let r = d.tick();
    assert!(r.admitted && r.expanded && r.migration_advanced);
    assert_eq!((d.model.capacity, d.model.size), (2, 2));

    // Tick 3: expand to exactly the limit of 4.
    let r = d.tick();
    assert!(r.admitted && r.expanded);
    assert_eq!((d.model.capacity, d.model.size), (4, 3));

    // Tick 4: plain admission fills the capacity.
    let r = d.tick();
    assert!(r.admitted && !r.expanded);
    assert_eq!((d.model.capacity, d.model.size), (4, 4));

    // Tick 5: blocked with migration complete; the post-expansion retry still
    // fails, so the terminal state is entered exactly here.
    let r = d.tick();
    assert!(!r.admitted && r.expanded && r.limit_entered && r.migration_advanced);
    assert!(d.limit_reached);
    assert_eq!(d.model.capacity, 4);
    assert_eq!(d.model.resize_count, 3);

    // Thereafter everything is frozen: the resize count stops increasing and
    // no tick reports any activity or enters the terminal state again.
    let frozen = d.model;
    for _ in 0..10 {
        let r = d.tick();
        assert!(!r.admitted && !r.expanded && !r.migration_advanced && !r.limit_entered);
        assert_eq!(d.model, frozen);
    }
    assert_eq!(d.model.resize_count, 3);
}

#[test]
fn expansion_is_deferred_while_migration_is_incomplete() {
    let mut d = driver(3, 2, None);
    d.tick();
    d.tick();
    d.tick();
    // Growth is now blocked (size 3 at capacity 3) while one of the two
    // old-generation elements is still pending.
    assert_eq!((d.model.capacity, d.model.size), (3, 3));
    assert_eq!((d.model.migrated, d.model.old_generation_size), (1, 2));
    let resizes_before = d.model.resize_count;

    let r = d.tick();
    assert!(!r.expanded && !r.admitted && r.migration_advanced);
    assert_eq!(d.model.capacity, 3);
    assert_eq!(d.model.resize_count, resizes_before);
    assert_eq!(d.model.migrated, 2);

    // With migration complete, the very next tick expands again.
    let r = d.tick();
    assert!(r.expanded && r.admitted);
    assert_eq!(d.model.capacity, 5);
}

#[test]
fn hard_limit_at_initial_capacity_terminates_at_the_first_blocked_tick() {
    let mut d = driver(2, 1, Some(1));
    let r = d.tick();
    assert!(r.admitted && !r.limit_entered);
    let r = d.tick();
    assert!(r.limit_entered && r.expanded && !r.admitted);
    assert!(d.limit_reached);
    assert_eq!((d.model.capacity, d.model.size), (1, 1));
    assert_eq!(d.model.resize_count, 1);
}

#[test]
fn efficiency_stays_within_the_capacity_over_a_run() {
    let mut d = driver(3, 2, Some(50));
    for _ in 0..400 {
        d.tick();
        let e = d.model.efficiency();
        assert!(e.num <= e.den);
        assert_eq!(e.den, d.model.capacity);
    }
    assert!(d.limit_reached);
}
