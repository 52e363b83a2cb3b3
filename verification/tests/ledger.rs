use movement::effect::MovementEffect;
use movement::ledger::Movements;
use movement::request::{Movement, MovementModifier};
use movement::scalar::{
    Scalar, BLEND_WEIGHT_BITS, IMPULSE_DAMPENING_BITS, INFINITY_BITS, SMALLEST_MAGNITUDE_BITS,
    UNBOUNDED_BITS,
};
use movement::step::{FloatResult, FloatWork, StepPhase};
use movement::vector::Vec3;

fn s(value: f32) -> Scalar {
    Scalar::from_bits(value.to_bits())
}

fn v3(x: f32, y: f32, z: f32) -> Vec3 {
    Vec3::new(s(x), s(y), s(z))
}

#[test]
fn constants_encode_their_numbers() {
    assert_eq!(SMALLEST_MAGNITUDE_BITS, 0.0005f32.to_bits());
    assert_eq!(IMPULSE_DAMPENING_BITS, 0.00001f32.to_bits());
    assert_eq!(UNBOUNDED_BITS, f32::MAX.to_bits());
    assert_eq!(BLEND_WEIGHT_BITS, 0.75f32.to_bits());
    assert_eq!(INFINITY_BITS, f32::INFINITY.to_bits());
    assert_eq!(Scalar::zero().to_bits(), 0.0f32.to_bits());
    assert_eq!(Scalar::smallest_magnitude(), s(0.0005));
}

#[test]
fn scalar_classes_agree_with_the_numbers() {
    let samples = [
        0.0f32,
        -0.0,
        1.0,
        -1.0,
        0.0005,
        -0.0004,
        f32::MIN_POSITIVE,
        1e-45,
        f32::MAX,
        f32::MIN,
        f32::INFINITY,
        f32::NEG_INFINITY,
        f32::NAN,
        -f32::NAN,
    ];
    for a in samples {
        assert_eq!(s(a).is_nan(), a.is_nan());
        assert_eq!(s(a).is_finite(), a.is_finite());
        assert_eq!(s(a).is_zero(), a == 0.0);
        for b in samples {
            assert_eq!(s(a).abs_below(s(b)), a.abs() < b.abs());
            assert_eq!(s(a).abs_exceeds(s(b)), a.abs() > b.abs());
        }
    }
}

#[test]
fn snapping_keeps_what_is_large_enough() {
    let v = v3(0.00049, -0.5, f32::NAN).snapped();
    assert_eq!(v.x.to_bits(), 0);
    assert_eq!(v.y, s(-0.5));
    assert!(v.z.is_nan());
    assert!(!v.is_finite());
    assert!(v3(0.0, -0.0, 0.0).is_zero());
    assert!(!v3(0.0, 1e-45, 0.0).is_zero());
    assert_eq!(Vec3::zero(), v3(0.0, 0.0, 0.0));
}

#[test]
fn new_ledger_is_empty() {
    let ledger = Movements::new();
    assert_eq!(ledger.pending_count(), 0);
    assert_eq!(ledger.effect_count(), 0);
    assert!(ledger.effect("x").is_none());
    assert!(ledger.velocities().is_empty());
    assert!(ledger.begin_update(s(1.0)).is_none());
}

#[test]
fn movement_keeps_name_and_modifier() {
    let m = Movement::new("player_input", MovementModifier::Impulse { acceleration: v3(1.0, 2.0, 3.0) });
    assert_eq!(m.name, "player_input");
    assert_eq!(m, m.clone());
    assert_ne!(m, Movement::new("player_input", MovementModifier::Impulse { acceleration: v3(1.0, 2.0, -3.0) }));
    assert_ne!(m, Movement::new("bullet_speed", MovementModifier::Impulse { acceleration: v3(1.0, 2.0, 3.0) }));
    assert_eq!(m.modifier.acceleration(), v3(1.0, 2.0, 3.0));
    assert!(m.modifier.is_admissible());
}

#[test]
fn non_finite_acceleration_is_dropped() {
    let mut ledger = Movements::new();
    ledger.add(Movement::new("a", MovementModifier::Impulse { acceleration: v3(f32::NAN, 0.0, 0.0) }));
    ledger.add(Movement::new(
        "b",
        MovementModifier::Momentum {
            acceleration: v3(0.0, f32::INFINITY, 0.0),
            dampening: s(0.5),
            maximal_velocity: None,
        },
    ));
    assert_eq!(ledger.pending_count(), 0);
    ledger.add(Movement::new("a", MovementModifier::Impulse { acceleration: v3(1.0, 0.0, 0.0) }));
    ledger.add(Movement::new("a", MovementModifier::Impulse { acceleration: v3(0.0, 0.0, f32::NEG_INFINITY) }));
    assert_eq!(ledger.pending_count(), 1);
    ledger.process_new_movements();
    assert_eq!(ledger.effect("a").unwrap().acceleration, v3(1.0, 0.0, 0.0));
    assert!(ledger.effect("b").is_none());
}

#[test]
fn impulse_replaces_the_effect() {
    let mut ledger = Movements::new();
    ledger.add(Movement::new(
        "x",
        MovementModifier::Momentum {
            acceleration: v3(1.0, 0.0, 0.0),
            dampening: s(0.5),
            maximal_velocity: Some(s(7.0)),
        },
    ));
    ledger.process_new_movements();
    let at = ledger.begin_update(s(1.0)).unwrap();
    assert_eq!(at.index, 0);
    assert!(matches!(at.work(), FloatWork::Accumulate { .. }));
    let at = ledger.advance_update(at, FloatResult::Velocity { velocity: v3(1.0, 0.0, 0.0) }).unwrap();
    assert_eq!(at.step.phase, StepPhase::Blend);
    let at = ledger.advance_update(at, FloatResult::Velocity { velocity: v3(1.0, 0.0, 0.0) }).unwrap();
    let at = ledger.advance_update(at, FloatResult::Velocity { velocity: v3(1.0, 0.0, 0.0) }).unwrap();
    assert_eq!(at.step.phase, StepPhase::Measure);
    assert_eq!(ledger.effect("x").unwrap().velocity, v3(0.0, 0.0, 0.0));
    let done = ledger.advance_update(
        at,
        FloatResult::Lengths { velocity_length: s(1.0), acceleration_length: s(1.0) },
    );
    assert!(done.is_none());
    assert_eq!(ledger.effect("x").unwrap().velocity, v3(1.0, 0.0, 0.0));

    ledger.add(Movement::new("x", MovementModifier::Impulse { acceleration: v3(0.0, 5.0, 0.0) }));
    ledger.process_new_movements();
    assert_eq!(
        ledger.effect("x").unwrap(),
        MovementEffect {
            velocity: v3(0.0, 0.0, 0.0),
            acceleration: v3(0.0, 5.0, 0.0),
            dampening: s(0.00001),
            maximal_velocity: s(0.0),
            updated: true,
        }
    );
}

#[test]
fn momentum_keeps_the_velocity() {
    let mut ledger = Movements::new();
    ledger.add(Movement::new(
        "x",
        MovementModifier::Momentum { acceleration: v3(1.0, 0.0, 0.0), dampening: s(0.5), maximal_velocity: None },
    ));
    ledger.process_new_movements();
    assert_eq!(
        ledger.effect("x").unwrap(),
        MovementEffect {
            velocity: v3(0.0, 0.0, 0.0),
            acceleration: v3(1.0, 0.0, 0.0),
            dampening: s(0.5),
            maximal_velocity: s(f32::MAX),
            updated: true,
        }
    );
    let mut update = ledger.begin_update(s(1.0));
    while let Some(at) = update {
        let result = match at.work() {
            FloatWork::Measure { .. } => {
                FloatResult::Lengths { velocity_length: s(2.0), acceleration_length: s(1.0) }
            }
            _ => FloatResult::Velocity { velocity: v3(2.0, 0.0, 0.0) },
        };
        update = ledger.advance_update(at, result);
    }
    ledger.add(Movement::new(
        "x",
        MovementModifier::Momentum {
            acceleration: v3(0.0, 3.0, 0.0),
            dampening: s(0.25),
            maximal_velocity: Some(s(9.0)),
        },
    ));
    ledger.process_new_movements();
    assert_eq!(
        ledger.effect("x").unwrap(),
        MovementEffect {
            velocity: v3(2.0, 0.0, 0.0),
            acceleration: v3(0.0, 3.0, 0.0),
            dampening: s(0.25),
            maximal_velocity: s(9.0),
            updated: true,
        }
    );
    assert_eq!(ledger.velocities(), vec![v3(2.0, 0.0, 0.0)]);
}

#[test]
fn fold_leaves_unnamed_effects_alone() {
    let mut ledger = Movements::new();
    ledger.add(Movement::new("a", MovementModifier::Impulse { acceleration: v3(1.0, 0.0, 0.0) }));
    ledger.process_new_movements();
    let before = ledger.effect("a").unwrap();
    ledger.add(Movement::new("b", MovementModifier::Impulse { acceleration: v3(0.0, 1.0, 0.0) }));
    ledger.process_new_movements();
    assert_eq!(ledger.effect("a").unwrap(), before);
    assert_eq!(ledger.effect_count(), 2);
    assert_eq!(ledger.pending_count(), 0);
    ledger.process_new_movements();
    assert_eq!(ledger.effect_count(), 2);
}

#[test]
fn pass_past_the_last_effect_ends() {
    let mut ledger = Movements::new();
    ledger.add(Movement::new("a", MovementModifier::Impulse { acceleration: v3(1.0, 0.0, 0.0) }));
    ledger.process_new_movements();
    let mut at = ledger.begin_update(s(1.0)).unwrap();
    at.index = 5;
    assert!(ledger.advance_update(at, FloatResult::Velocity { velocity: v3(1.0, 0.0, 0.0) }).is_none());
    assert_eq!(ledger.effect_count(), 1);
}

#[test]
fn snapping_never_lengthens_an_axis() {
    let samples = [0.0f32, -0.0, 0.0004, -0.00049, 0.0005, -0.0005, 1.0, -3.5, f32::MAX];
    for a in samples {
        let v = v3(a, a, a).snapped();
        let x = f32::from_bits(v.x.to_bits());
        assert!(x.abs() <= a.abs());
        assert!(x == 0.0 || x == a);
        assert_eq!(x == 0.0, a.abs() < 0.0005);
    }
}

#[test]
fn empty_fold_changes_nothing() {
    let mut ledger = Movements::new();
    ledger.add(Movement::new("a", MovementModifier::Impulse { acceleration: v3(1.0, 0.0, 0.0) }));
    ledger.process_new_movements();
    let before = ledger.effect("a");
    ledger.process_new_movements();
    assert_eq!(ledger.effect("a"), before);
    assert_eq!(ledger.effect_count(), 1);
}

#[test]
fn default_ledger_is_empty() {
    let ledger = Movements::default();
    assert_eq!(ledger.pending_count(), 0);
    assert_eq!(ledger.effect_count(), 0);
    assert_eq!(MovementEffect::default().velocity, v3(0.0, 0.0, 0.0));
    assert!(!MovementEffect::default().updated);
}
