use contagion::constants::{MAX_AGE, N_CELLS, N_ENTITIES, RECOVERY_DAYS, SICK_DAYS};
use contagion::entity::{Age, Entity, Speed};
use contagion::health::HealthState;
use contagion::immunity::{Immunity, ImmunityRange};
use contagion::population::Population;
use contagion::position::{is_within_contact, Direction, Position};
use contagion::random::rand_inclusive;
use contagion::sampling::{random_direction, random_health, stage_for_roll};
use rand::rngs::StdRng;
use rand::SeedableRng;

fn entity(x: usize, y: usize, health: HealthState, age: usize, immunity: i64) -> Entity {
    Entity {
        position: Position { x, y },
        speed: Speed(1),
        direction: Direction { x: 1, y: 1 },
        health,
        age: Age(age),
        immunity: Immunity(immunity),
    }
}

fn sick(n: usize) -> HealthState {
    HealthState::Sick { days_until_recovering: n }
}

#[test]
fn fresh_states_have_their_starting_counters() {
    assert_eq!(HealthState::new_sick(), sick(SICK_DAYS - 1));
    assert_eq!(HealthState::new_infected(), HealthState::Infected { days_until_sick: 2 });
    assert_eq!(
        HealthState::new_recovering(),
        HealthState::Recovering { days_until_healthy: RECOVERY_DAYS - 1 }
    );
    assert_eq!(HealthState::new_healthy(), HealthState::Healthy);
}

#[test]
fn next_counts_down_then_changes_stage() {
    assert_eq!(HealthState::Infected { days_until_sick: 1 }.next(), HealthState::Infected { days_until_sick: 0 });
    assert_eq!(HealthState::Infected { days_until_sick: 0 }.next(), sick(6));
    assert_eq!(sick(0).next(), HealthState::Recovering { days_until_healthy: 4 });
    assert_eq!(HealthState::Recovering { days_until_healthy: 0 }.next(), HealthState::Healthy);
    assert_eq!(HealthState::Healthy.next(), HealthState::Healthy);
}

#[test]
fn counter_n_reaches_next_stage_after_n_plus_one_days() {
    let mut h = HealthState::Infected { days_until_sick: 2 };
    for _ in 0..2 {
        h = h.next();
        assert!(matches!(h, HealthState::Infected { .. }));
    }
    h = h.next();
    assert_eq!(h, HealthState::new_sick());
    for _ in 0..SICK_DAYS {
        h = h.next();
    }
    assert_eq!(h, HealthState::new_recovering());
    for _ in 0..RECOVERY_DAYS {
        h = h.next();
    }
    assert_eq!(h, HealthState::Healthy);
    for _ in 0..10 {
        h = h.next();
    }
    assert_eq!(h, HealthState::Healthy);
}

#[test]
fn immunity_brackets_follow_age() {
    for age in 0..15 {
        assert_eq!(Entity::get_immunity_for_age(Age(age)), ImmunityRange::Low);
    }
    for age in 15..40 {
        assert_eq!(Entity::get_immunity_for_age(Age(age)), ImmunityRange::Normal);
    }
    for age in 40..70 {
        assert_eq!(Entity::get_immunity_for_age(Age(age)), ImmunityRange::High);
    }
    for age in 70..200 {
        assert_eq!(Entity::get_immunity_for_age(Age(age)), ImmunityRange::Low);
    }
    assert_eq!(ImmunityRange::Low.max(), 300);
    assert_eq!(ImmunityRange::Normal.max(), 600);
    assert_eq!(ImmunityRange::High.max(), 1000);
    assert_eq!(ImmunityRange::Low.min(), 100);
    assert_eq!(ImmunityRange::Normal.min(), 400);
    assert_eq!(ImmunityRange::High.min(), 700);
    let e = entity(5, 5, HealthState::Healthy, 45, 800);
    assert_eq!(e.get_maximum_immunity_for_age(), 1000);
    assert_eq!(e.get_minimum_immunity_for_age(), 700);
}

#[test]
fn sampled_immunity_lies_in_its_bracket() {
    let mut rng = StdRng::seed_from_u64(7);
    for range in [ImmunityRange::Low, ImmunityRange::Normal, ImmunityRange::High] {
        for _ in 0..200 {
            let v = range.random_in_range(&mut rng).0;
            assert!(range.min() <= v && v <= range.max());
        }
    }
    for _ in 0..200 {
        let e = Entity::new_random(&mut rng);
        let r = Entity::get_immunity_for_age(e.age);
        assert!(r.min() <= e.immunity.0 && e.immunity.0 <= r.max());
        assert!(e.age.0 <= 60);
        assert!(e.position.x < N_CELLS && e.position.y < N_CELLS);
        assert!((1..=3).contains(&e.speed.0));
    }
}

#[test]
fn immunity_levels() {
    assert!(!Immunity(0).is_low());
    assert!(Immunity(1).is_low());
    assert!(Immunity(299).is_low());
    assert!(!Immunity(300).is_low());
    assert!(Immunity(300).is_medium());
    assert!(Immunity(599).is_medium());
    assert!(!Immunity(600).is_medium());
    assert_eq!(Immunity(5).shifted_by(-10), Immunity(-5));
    assert_eq!(Immunity(i64::MAX - 1).shifted_by(100), Immunity(i64::MAX));
    assert_eq!(Immunity(i64::MIN + 1).shifted_by(-300), Immunity(i64::MIN));
}

#[test]
fn contact_detection_is_symmetric() {
    let a = Position { x: 10, y: 10 };
    let b = Position { x: 12, y: 8 };
    let c = Position { x: 13, y: 10 };
    assert!(is_within_contact(a, b) && is_within_contact(b, a));
    assert!(!is_within_contact(a, c) && !is_within_contact(c, a));
    assert!(is_within_contact(a, a));
}

#[test]
fn move_steps_by_speed() {
    let mut e = entity(10, 20, HealthState::Healthy, 10, 300);
    e.speed = Speed(3);
    e.direction = Direction { x: 1, y: -1 };
    e.make_move();
    assert_eq!(e.position, Position { x: 13, y: 17 });
    assert_eq!(e.direction, Direction { x: 1, y: -1 });
}

#[test]
fn move_reflects_on_borders() {
    let mut e = entity(0, 0, HealthState::Healthy, 10, 300);
    e.direction = Direction { x: -1, y: -1 };
    e.make_move();
    assert_eq!(e.position, Position { x: 1, y: 1 });
    assert_eq!(e.direction, Direction { x: 1, y: 1 });

    let mut e = entity(98, 98, HealthState::Healthy, 10, 300);
    e.speed = Speed(3);
    e.direction = Direction { x: 1, y: 1 };
    e.make_move();
    assert_eq!(e.position, Position { x: N_CELLS - 1, y: N_CELLS - 1 });
    assert_eq!(e.direction, Direction { x: 1, y: -1 });
}

#[test]
fn healthy_meeting_healthy_takes_the_maximum_of_its_age() {
    let mut rng = StdRng::seed_from_u64(1);
    let mut children = Vec::new();
    let mut a = entity(10, 10, HealthState::Healthy, 50, 750);
    let b = entity(11, 11, HealthState::Healthy, 5, 100);
    a.check_contact(&b, &mut rng, &mut children);
    assert_eq!(a.immunity, Immunity(1000));
    assert_eq!(a.health, HealthState::Healthy);
    assert_eq!(a.direction, Direction { x: -1, y: -1 });
    assert!(children.is_empty());
}

#[test]
fn sick_meeting_sick_takes_the_minimum_and_restarts() {
    let mut rng = StdRng::seed_from_u64(2);
    let mut children = Vec::new();
    let mut a = entity(10, 10, sick(1), 50, 900);
    let b = entity(12, 12, sick(4), 50, 900);
    a.check_contact(&b, &mut rng, &mut children);
    assert_eq!(a.immunity, Immunity(700));
    assert_eq!(a.health, HealthState::new_sick());
    assert_eq!(b.health, sick(4));
}

#[test]
fn contact_table_rows() {
    let mut rng = StdRng::seed_from_u64(3);
    let mut children = Vec::new();
    let infected = HealthState::Infected { days_until_sick: 1 };
    let recovering = HealthState::Recovering { days_until_healthy: 2 };
    let cases = [
        (HealthState::Healthy, infected, 250, HealthState::new_sick(), 250),
        (HealthState::Healthy, infected, 450, HealthState::Healthy, 450),
        (HealthState::Healthy, sick(3), 450, HealthState::new_infected(), 450),
        (HealthState::Healthy, sick(3), 800, HealthState::Healthy, 500),
        (HealthState::Healthy, recovering, 450, HealthState::Healthy, 450),
        (infected, HealthState::Healthy, 450, infected, 450),
        (infected, infected, 450, infected, 350),
        (infected, sick(3), 450, HealthState::new_sick(), 450),
        (infected, sick(3), 800, infected, 800),
        (infected, recovering, 450, infected, 350),
        (sick(3), HealthState::Healthy, 450, sick(3), 450),
        (sick(3), infected, 800, HealthState::new_sick(), 800),
        (sick(3), recovering, 450, HealthState::new_infected(), 450),
        (sick(3), recovering, 800, sick(3), 800),
        (recovering, HealthState::Healthy, 450, recovering, 550),
        (recovering, infected, 450, recovering, 350),
        (recovering, sick(3), 250, HealthState::new_infected(), 250),
        (recovering, sick(3), 800, recovering, 800),
        (recovering, recovering, 450, recovering, 450),
    ];
    for (own, other, imm, health, after) in cases {
        let mut a = entity(10, 10, own, 50, imm);
        let b = entity(10, 12, other, 50, 500);
        a.check_contact(&b, &mut rng, &mut children);
        assert_eq!((a.health, a.immunity.0), (health, after), "{:?} meets {:?}", own, other);
    }
}

#[test]
fn no_reaction_beyond_contact_distance() {
    let mut rng = StdRng::seed_from_u64(4);
    let mut children = Vec::new();
    let mut a = entity(10, 10, HealthState::Healthy, 50, 750);
    let before = a;
    let b = entity(13, 10, sick(2), 30, 500);
    a.check_contact(&b, &mut rng, &mut children);
    assert_eq!(a, before);
    assert!(children.is_empty());
}

#[test]
fn birth_needs_both_parents_of_fertile_age() {
    let mut rng = StdRng::seed_from_u64(5);
    let young = entity(10, 10, HealthState::Healthy, 19, 500);
    let old = entity(12, 13, HealthState::Healthy, 41, 800);
    let fertile = entity(12, 13, HealthState::Healthy, 40, 600);
    let fertile_too = entity(10, 10, HealthState::Healthy, 20, 500);
    assert!(young.give_birth_if_suitable(&fertile, &mut rng).is_empty());
    assert!(fertile.give_birth_if_suitable(&young, &mut rng).is_empty());
    assert!(fertile_too.give_birth_if_suitable(&old, &mut rng).is_empty());
    let kids = fertile_too.give_birth_if_suitable(&fertile, &mut rng);
    assert_eq!(kids.len(), 2);
    for k in kids {
        assert_eq!(k.position, Position { x: 11, y: 11 });
        assert_eq!(k.health, HealthState::Healthy);
        assert_eq!(k.age, Age(0));
        assert_eq!(k.immunity, Immunity(300));
        assert!((1..=3).contains(&k.speed.0));
        assert!(k.direction != Direction { x: 0, y: 0 });
    }
}

#[test]
fn contacts_of_infertile_entities_never_give_birth() {
    let mut rng = StdRng::seed_from_u64(6);
    let mut children = Vec::new();
    for _ in 0..500 {
        let mut a = entity(10, 10, HealthState::Healthy, 45, 1000);
        let b = entity(11, 10, HealthState::Healthy, 30, 600);
        a.check_contact(&b, &mut rng, &mut children);
    }
    assert!(children.is_empty());
}

#[test]
fn health_effect_then_cap() {
    let mut e = entity(1, 1, HealthState::Infected { days_until_sick: 1 }, 30, 500);
    e.apply_health_effect();
    assert_eq!(e.immunity, Immunity(490));
    let mut e = entity(1, 1, sick(1), 30, 500);
    e.apply_health_effect();
    assert_eq!(e.immunity, Immunity(450));
    let mut e = entity(1, 1, HealthState::Recovering { days_until_healthy: 1 }, 30, 500);
    e.apply_health_effect();
    assert_eq!(e.immunity, Immunity(510));
    let mut e = entity(1, 1, HealthState::Healthy, 30, 598);
    e.apply_health_effect();
    assert_eq!(e.immunity, Immunity(600));
    let mut e = entity(1, 1, HealthState::Healthy, 75, 900);
    e.clamp_immunity_by_age();
    assert_eq!(e.immunity, Immunity(300));
    let mut e = entity(1, 1, sick(2), 30, 500);
    e.advance_health_by_day();
    assert_eq!(e.health, sick(1));
}

#[test]
fn death_by_age_or_immunity() {
    assert!(entity(1, 1, HealthState::Healthy, MAX_AGE, 300).should_die());
    assert!(entity(1, 1, HealthState::Healthy, 10, 0).should_die());
    assert!(entity(1, 1, HealthState::Healthy, 10, -5).should_die());
    assert!(!entity(1, 1, HealthState::Healthy, MAX_AGE - 1, 1).should_die());
}

#[test]
fn initial_stage_by_roll() {
    assert_eq!(stage_for_roll(0), HealthState::Healthy);
    assert_eq!(stage_for_roll(84), HealthState::Healthy);
    assert_eq!(stage_for_roll(85), HealthState::new_sick());
    assert_eq!(stage_for_roll(89), HealthState::new_sick());
    assert_eq!(stage_for_roll(90), HealthState::new_infected());
    assert_eq!(stage_for_roll(99), HealthState::new_infected());
    assert_eq!(stage_for_roll(100), HealthState::new_recovering());
}

#[test]
fn sampled_values_stay_in_range() {
    let mut rng = StdRng::seed_from_u64(8);
    for _ in 0..300 {
        let h = random_health(&mut rng);
        match h {
            HealthState::Infected { days_until_sick } => assert!(days_until_sick <= 2),
            HealthState::Sick { days_until_recovering } => assert!(days_until_recovering < SICK_DAYS),
            HealthState::Recovering { .. } => panic!("no entity starts recovering"),
            HealthState::Healthy => {}
        }
        let d = random_direction(&mut rng);
        assert!(d.x.abs() <= 1 && d.y.abs() <= 1 && (d.x, d.y) != (0, 0));
        let v = rand_inclusive(&mut rng, 3, 5);
        assert!((3..=5).contains(&v));
    }
    assert_eq!(rand_inclusive(&mut rng, 4, 4), 4);
}

#[test]
fn oldest_entity_is_removed_after_a_turn() {
    let mut rng = StdRng::seed_from_u64(9);
    let pop = Population {
        entities: vec![
            entity(10, 10, HealthState::Healthy, MAX_AGE - 1, 300),
            entity(80, 80, HealthState::Healthy, 50, 1000),
        ],
    };
    let next = pop.advance(&mut rng);
    assert_eq!(next.entities.len(), 1);
    assert_eq!(next.entities[0].age, Age(51));
}

#[test]
fn size_is_survivors_plus_offspring() {
    let mut rng = StdRng::seed_from_u64(10);
    let mut pop = Population::new(&mut rng);
    for _ in 0..20 {
        let next = pop.advance(&mut rng);
        let newborns = next.entities.iter().filter(|e| e.age.0 == 0).count();
        let survivors = next.entities.len() - newborns;
        let max_survivors = pop.entities.iter().filter(|e| e.age.0 + 1 < MAX_AGE).count();
        assert!(survivors <= max_survivors);
        assert_eq!(next.entities.len(), survivors + newborns);
        assert!(newborns % 2 == 0);
        pop = next;
    }
}

#[test]
fn seeded_run_keeps_positions_on_grid_and_removes_founders() {
    let mut rng = StdRng::seed_from_u64(42);
    let start = Population::new(&mut rng);
    assert_eq!(start.entities.len(), N_ENTITIES);
    let mut pop = start.advance(&mut rng);
    for e in &pop.entities {
        assert!(e.position.x < N_CELLS && e.position.y < N_CELLS);
    }
    for _ in 1..MAX_AGE {
        pop = pop.advance(&mut rng);
        for e in &pop.entities {
            assert!(e.position.x < N_CELLS && e.position.y < N_CELLS);
            assert!(e.immunity.0 > 0);
        }
    }
    for e in &pop.entities {
        assert!(e.age.0 < MAX_AGE);
    }
}

#[test]
fn lone_healthy_entity_at_maximum_is_unchanged() {
    let mut rng = StdRng::seed_from_u64(11);
    let mut pop = Population { entities: vec![entity(50, 50, HealthState::Healthy, 45, 1000)] };
    for turn in 1..=10 {
        pop = pop.advance(&mut rng);
        assert_eq!(pop.entities.len(), 1);
        let e = pop.entities[0];
        assert_eq!(e.health, HealthState::Healthy);
        assert_eq!(e.immunity, Immunity(1000));
        assert_eq!(e.age, Age(45 + turn));
    }
}

#[test]
fn well_formedness_check() {
    let mut rng = StdRng::seed_from_u64(12);
    let pop = Population::new(&mut rng);
    assert!(pop.is_well_formed());
    assert!(pop.advance(&mut rng).is_well_formed());
    let off_grid = Population { entities: vec![entity(N_CELLS, 3, HealthState::Healthy, 10, 300)] };
    assert!(!off_grid.is_well_formed());
    let too_immune = Population { entities: vec![entity(3, 3, HealthState::Healthy, 10, 301)] };
    assert!(!too_immune.is_well_formed());
    let dead = Population { entities: vec![entity(3, 3, HealthState::Healthy, 10, 0)] };
    assert!(!dead.is_well_formed());
}
