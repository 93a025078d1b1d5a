use anarpg::{Formula, Scalar, Stats, Time};

fn scalar(x: f32) -> Scalar {
    Scalar { bits: x.to_bits() }
}

fn number(s: Scalar) -> f32 {
    f32::from_bits(s.bits)
}

fn f(x: i16) -> f32 {
    0.95f32.powi(x as i32)
}

fn value(formula: &Formula) -> f32 {
    number(formula.multiplier)
        * (number(formula.fixed)
            + number(formula.badassness.coefficient) * f(formula.badassness.points)
            + number(formula.skill.coefficient) * f(formula.skill.points)
            + number(formula.swag.coefficient) * f(formula.swag.points))
}

fn coefficients(time: &Time) -> [f32; 5] {
    [
        number(time.fixed),
        number(time.variable),
        number(time.badassness),
        number(time.skill),
        number(time.swag),
    ]
}

fn some_stats() -> Stats {
    let mut stats = Stats::new();
    stats.badassness = 20;
    stats.skill = -4;
    stats.swag = 7;
    stats.hp = 1;
    stats.speed = scalar(0.5);
    stats.cooldown_reduction = scalar(0.25);
    stats
}

#[test]
fn a_new_time_is_zero_throughout() {
    let time = Time::new();
    assert_eq!(coefficients(&time), [0.0; 5]);
    assert_eq!(time.fixed.bits, 0);
    assert_eq!(time.variable.bits, 0);
    assert_eq!(time.badassness.bits, 0);
    assert_eq!(time.skill.bits, 0);
    assert_eq!(time.swag.bits, 0);
}

#[test]
fn each_builder_sets_its_own_coefficient() {
    assert_eq!(coefficients(&Time::new().with_fixed(scalar(1.5))), [1.5, 0.0, 0.0, 0.0, 0.0]);
    assert_eq!(coefficients(&Time::new().with_variable(scalar(1.5))), [0.0, 1.5, 0.0, 0.0, 0.0]);
    assert_eq!(coefficients(&Time::new().with_badassness(scalar(1.5))), [0.0, 0.0, 1.5, 0.0, 0.0]);
    assert_eq!(coefficients(&Time::new().with_skill(scalar(1.5))), [0.0, 0.0, 0.0, 1.5, 0.0]);
    assert_eq!(coefficients(&Time::new().with_swag(scalar(1.5))), [0.0, 0.0, 0.0, 0.0, 1.5]);
}

#[test]
fn builders_chain_and_the_last_one_wins() {
    let time = Time::new()
        .with_fixed(scalar(0.5))
        .with_variable(scalar(1.0))
        .with_badassness(scalar(2.0))
        .with_skill(scalar(3.0))
        .with_swag(scalar(4.0))
        .with_fixed(scalar(8.0));
    assert_eq!(coefficients(&time), [8.0, 1.0, 2.0, 3.0, 4.0]);
}

#[test]
fn the_cooldown_pairs_each_coefficient_with_its_attribute() {
    let time = Time::new()
        .with_fixed(scalar(0.5))
        .with_variable(scalar(9.0))
        .with_badassness(scalar(2.0))
        .with_skill(scalar(3.0))
        .with_swag(scalar(4.0));
    let formula = time.cooldown(&some_stats());
    assert_eq!(number(formula.multiplier), 0.25);
    assert_eq!(number(formula.fixed), 0.5);
    assert_eq!((number(formula.badassness.coefficient), formula.badassness.points), (2.0, 20));
    assert_eq!((number(formula.skill.coefficient), formula.skill.points), (3.0, -4));
    assert_eq!((number(formula.swag.coefficient), formula.swag.points), (4.0, 7));
}

#[test]
fn the_time_pairs_each_coefficient_with_its_attribute() {
    let time = Time::new()
        .with_fixed(scalar(0.5))
        .with_variable(scalar(9.0))
        .with_badassness(scalar(2.0))
        .with_skill(scalar(3.0))
        .with_swag(scalar(4.0));
    let formula = time.time(&some_stats());
    assert_eq!(number(formula.multiplier), 0.5);
    assert_eq!(number(formula.fixed), 0.5);
    assert_eq!((number(formula.badassness.coefficient), formula.badassness.points), (2.0, 20));
    assert_eq!((number(formula.skill.coefficient), formula.skill.points), (3.0, -4));
    assert_eq!((number(formula.swag.coefficient), formula.swag.points), (4.0, 7));
}

#[test]
fn a_cooldown_in_numbers() {
    let cooldown = Time::new().with_fixed(scalar(0.5)).with_badassness(scalar(1.0));
    let at_first_level = value(&cooldown.cooldown(&Stats::new()));
    assert_eq!(at_first_level, 1.0 * (0.5 + 1.0 * 0.95f32.powi(2)));
    assert!((at_first_level - 1.4025).abs() < 0.0001);

    let mut stats = Stats::new();
    stats.badassness = 0;
    assert_eq!(value(&cooldown.cooldown(&stats)), 1.5);
    stats.badassness = 20;
    stats.cooldown_reduction = scalar(0.5);
    let badass = value(&cooldown.cooldown(&stats));
    assert!((badass - 0.5 * (0.5 + 0.358_485_9)).abs() < 0.0001);
    assert!(badass < at_first_level);
}

#[test]
fn a_time_in_numbers() {
    let time = Time::new()
        .with_fixed(scalar(1.0))
        .with_skill(scalar(2.0))
        .with_swag(scalar(4.0));
    let mut stats = Stats::new();
    stats.skill = 1;
    stats.swag = -1;
    stats.speed = scalar(2.0);
    stats.cooldown_reduction = scalar(100.0);
    let taken = value(&time.time(&stats));
    assert_eq!(taken, 2.0 * (1.0 + 2.0 * 0.95 + 4.0 * 0.95f32.powi(-1)));
    assert!((taken - 2.0 * (1.0 + 1.9 + 4.210_526_5)).abs() < 0.0001);
}

#[test]
fn a_new_time_costs_nothing() {
    for stats in [Stats::new(), some_stats()] {
        let cooldown = Time::new().cooldown(&stats);
        let time = Time::new().time(&stats);
        for formula in [cooldown, time] {
            assert_eq!(formula.fixed.bits, 0);
            assert_eq!(formula.badassness.coefficient.bits, 0);
            assert_eq!(formula.skill.coefficient.bits, 0);
            assert_eq!(formula.swag.coefficient.bits, 0);
            assert_eq!(value(&formula), 0.0);
        }
    }
}

#[test]
fn a_fixed_time_of_one_is_the_multiplier() {
    let time = Time::new().with_fixed(scalar(1.0));
    for stats in [Stats::new(), some_stats()] {
        let cooldown = time.cooldown(&stats);
        assert_eq!(cooldown.multiplier.bits, stats.cooldown_reduction.bits);
        assert_eq!(value(&cooldown), number(stats.cooldown_reduction));
        let taken = time.time(&stats);
        assert_eq!(taken.multiplier.bits, stats.speed.bits);
        assert_eq!(value(&taken), number(stats.speed));
    }
    assert_eq!(value(&time.cooldown(&some_stats())), 0.25);
    assert_eq!(value(&time.time(&some_stats())), 0.5);
}

#[test]
fn the_variable_part_is_not_read() {
    let plain = Time::new().with_fixed(scalar(0.5)).with_skill(scalar(1.0));
    let other = plain.with_variable(scalar(123.0));
    let stats = some_stats();
    assert_eq!(value(&plain.cooldown(&stats)), value(&other.cooldown(&stats)));
    assert_eq!(value(&plain.time(&stats)), value(&other.time(&stats)));
}
