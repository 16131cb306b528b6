use character_model::health::MAX_HEALTH;
use rand::{Rng, SeedableRng};
use character_model::{ComponentError, Health, RegenStep};

#[test]
fn test_health_regen() {
    let mut health = Health::new();
    assert_eq!(health.get_health(), &100);

    health.drip(10).unwrap();
    assert_eq!(health.get_health(), &90);
    println!("{:?}", health);

    while health.regen_step() == Ok(RegenStep::Rest) {}
    let h = *health.get_health();
    assert!(h <= 100 && h >= 90);
}

#[test]
fn test_basic() {
    let mut health = Health::new();
    assert_eq!(health.get_health(), &100);

    health.drip(10).unwrap();
    assert_eq!(health.get_health(), &90);
    println!("{:?}", health);

    health.incr(10).unwrap();
    assert_eq!(health.get_health(), &100);
    println!("{:?}", health);

    let new_health = health.incr_random().unwrap();
    assert_eq!(health.get_health(), &new_health);
    println!("{:?}", health);

    health.kill();
    assert_eq!(health.get_health(), &0);
    println!("{:?}", health);
}

#[test]
fn test_health_incr_when_dead() {
    let mut health = Health::new();
    health.kill();
    assert_eq!(health.get_health(), &0);

    health.incr(10).unwrap_or(0);
    assert_eq!(health.get_health(), &0);
}

#[test]
fn test_health() {
    let mut health = Health::new();
    health.drip_random();
    println!("{}", health.get_health());
}

#[test]
fn a_fresh_bar_is_full() {
    assert_eq!(MAX_HEALTH, 100);
    assert_eq!(Health::new().current(), 100);
    assert_eq!(Health::default().current(), 100);
    assert_eq!(Health::create(None).unwrap().current(), 100);
    assert!(Health::new().ok());
    assert!(!Health::new().is_killed());
}

#[test]
fn create_takes_a_start_within_bounds() {
    assert_eq!(Health::create(Some(0)).unwrap().current(), 0);
    assert_eq!(Health::create(Some(1)).unwrap().current(), 1);
    assert_eq!(Health::create(Some(100)).unwrap().current(), 100);
    assert_eq!(Health::create(Some(101)), Err(ComponentError::InvalidArgument));
    assert_eq!(Health::create(Some(u32::MAX)), Err(ComponentError::InvalidArgument));
}

#[test]
fn damage_then_heal_clamps_at_the_maximum() {
    let mut health = Health::create(Some(50)).unwrap();
    assert_eq!(health.drip(10), Ok(40));
    assert_eq!(health.current(), 40);
    assert_eq!(health.incr(100), Ok(100));
    assert_eq!(health.current(), 100);
    assert_eq!(health.incr(u32::MAX), Ok(100));
    assert_eq!(health.current(), 100);
}

#[test]
fn healing_by_nothing_changes_nothing() {
    for start in 1..=100 {
        let mut health = Health::create(Some(start)).unwrap();
        assert_eq!(health.incr(0), Ok(start));
        assert_eq!(health.current(), start);
    }
}

#[test]
fn heal_then_damage_restores_the_reading() {
    for start in 1..=100u32 {
        for by in 0..=(100 - start) {
            let mut health = Health::create(Some(start)).unwrap();
            assert_eq!(health.incr(by), Ok(start + by));
            assert_eq!(health.drip(by), Ok(start));
            assert_eq!(health.current(), start);
        }
    }
}

#[test]
fn damage_beyond_the_reading_is_an_underflow() {
    let mut health = Health::create(Some(30)).unwrap();
    assert_eq!(health.drip(31), Err(ComponentError::Underflow));
    assert_eq!(health.current(), 30);
    assert_eq!(health.drip(u32::MAX), Err(ComponentError::Underflow));
    assert_eq!(health.current(), 30);
    assert_eq!(health.drip(30), Ok(0));
    assert!(health.is_killed());
    assert_eq!(health.drip(1), Err(ComponentError::Underflow));
    assert_eq!(health.drip(0), Ok(0));
}

#[test]
fn kill_then_revive_once() {
    for start in 0..=100 {
        let mut health = Health::create(Some(start)).unwrap();
        health.kill();
        assert!(health.is_killed());
        assert_eq!(health.incr(5), Err(ComponentError::Dead));
        assert_eq!(health.incr_random(), Err(ComponentError::Dead));
        assert_eq!(health.current(), 0);
        assert_eq!(health.revive(), Ok(true));
        assert_eq!(health.current(), 100);
        assert_eq!(health.revive(), Err(ComponentError::AlreadyAlive));
        assert_eq!(health.current(), 100);
    }
}

#[test]
fn kill_is_idempotent() {
    let mut health = Health::create(Some(12)).unwrap();
    health.kill();
    health.kill();
    assert_eq!(health.current(), 0);
}

#[test]
fn revive_is_refused_to_the_living() {
    let mut health = Health::create(Some(1)).unwrap();
    assert_eq!(health.revive(), Err(ComponentError::AlreadyAlive));
    assert_eq!(health.current(), 1);
}

#[test]
fn random_damage_takes_at_most_half() {
    for start in 0..=100u32 {
        for _ in 0..20 {
            let mut health = Health::create(Some(start)).unwrap();
            let left = health.drip_random();
            assert_eq!(left, health.current());
            assert!(left <= start);
            assert!(start - left <= start / 2);
        }
    }
}

#[test]
fn random_damage_is_not_always_the_same() {
    let mut smallest = u32::MAX;
    let mut largest = 0;
    for _ in 0..400 {
        let mut health = Health::new();
        let left = health.drip_random();
        assert!(50 <= left && left <= 100);
        smallest = smallest.min(left);
        largest = largest.max(left);
    }
    assert!(smallest < largest);
    assert!(smallest < 100);
    assert!(largest > 50);
}

#[test]
fn random_heal_adds_between_one_and_half() {
    for start in 1..=100u32 {
        for _ in 0..20 {
            let mut health = Health::create(Some(start)).unwrap();
            let now = health.incr_random().unwrap();
            assert_eq!(now, health.current());
            let ceiling = if start / 2 >= 1 { start / 2 } else { 1 };
            assert!(now <= 100);
            assert!(now == 100 || (start + 1 <= now && now <= start + ceiling));
            assert!(now >= (start + 1).min(100));
        }
    }
}

#[test]
fn the_ceilings_of_the_random_draws() {
    let ceilings = [(0, 0, 1), (1, 0, 1), (2, 1, 1), (3, 1, 1), (4, 2, 2), (51, 25, 25), (100, 50, 50)];
    for (start, drip, incr) in ceilings {
        let health = Health::create(Some(start)).unwrap();
        assert_eq!(health.max_random_drip(), drip);
        assert_eq!(health.max_random_incr(), incr);
    }
}

#[test]
fn random_heal_of_a_single_point_adds_one() {
    let mut health = Health::create(Some(1)).unwrap();
    assert_eq!(health.incr_random(), Ok(2));
    let mut health = Health::create(Some(2)).unwrap();
    assert_eq!(health.incr_random(), Ok(3));
    let mut health = Health::create(Some(3)).unwrap();
    assert_eq!(health.incr_random(), Ok(4));
}

#[test]
fn regeneration_steps_to_full_one_point_at_a_time() {
    let mut health = Health::create(Some(97)).unwrap();
    assert_eq!(health.regen_step(), Ok(RegenStep::Rest));
    assert_eq!(health.current(), 98);
    assert_eq!(health.regen_step(), Ok(RegenStep::Rest));
    assert_eq!(health.regen_step(), Ok(RegenStep::Rest));
    assert_eq!(health.current(), 100);
    assert_eq!(health.regen_step(), Ok(RegenStep::Full));
    assert_eq!(health.current(), 100);
}

#[test]
fn regeneration_takes_as_many_steps_as_points_are_missing() {
    for start in 1..=100u32 {
        let mut health = Health::create(Some(start)).unwrap();
        let mut steps = 0;
        while health.regen_step() == Ok(RegenStep::Rest) {
            steps += 1;
        }
        assert_eq!(steps, 100 - start);
        assert!(health.ok());
    }
}

#[test]
fn the_dead_do_not_regenerate() {
    let mut health = Health::create(Some(0)).unwrap();
    assert_eq!(health.regen_step(), Err(ComponentError::Dead));
    assert_eq!(health.current(), 0);
}

#[test]
fn bars_are_ordered_by_their_reading() {
    let low = Health::create(Some(10)).unwrap();
    let high = Health::create(Some(90)).unwrap();
    let same = Health::create(Some(10)).unwrap();
    assert!(low < high);
    assert!(low <= high);
    assert!(high > low);
    assert!(high >= low);
    assert!(low <= same && low >= same);
    assert!(!(low < same) && !(low > same));
    assert_eq!(low, same);
    assert_ne!(low, high);
    assert_eq!(low.partial_cmp(&high), Some(std::cmp::Ordering::Less));
    assert_eq!(high.partial_cmp(&low), Some(std::cmp::Ordering::Greater));
    assert_eq!(low.partial_cmp(&same), Some(std::cmp::Ordering::Equal));
}

#[test]
fn the_same_seed_gives_the_same_damage_and_heal() {
    for seed in 0..50 {
        let mut readings = Vec::new();
        for _ in 0..2 {
            let mut rng = rand::rngs::StdRng::seed_from_u64(seed);
            let mut health = Health::new();
            let taken = rng.gen_range(0..=health.max_random_drip());
            let left = health.drip(taken).unwrap();
            assert_eq!(left, 100 - taken);
            let added = rng.gen_range(1..=health.max_random_incr());
            let now = health.incr(added).unwrap();
            assert_eq!(now, (left + added).min(100));
            readings.push((left, now));
        }
        assert_eq!(readings[0], readings[1]);
    }
}
