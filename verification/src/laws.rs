//! What holds of submissions, folds and dynamics passes, whatever the
//! numbers are.

use vstd::prelude::*;
use crate::scalar::Scalar;
use crate::vector::Vec3;
use crate::request::MovementModifier;
use crate::effect::MovementEffect;
use crate::step::{EffectStep, FloatResult, FloatWork, StepPhase, guarded};
use crate::named::{Name, distinct, as_map, lookup, lemma_entry, lemma_remove, lemma_update};
use crate::ledger::{Update, advanced, folded_effects, submitted};
use crate::vector::snapped_axis;

verus! {

/// Submitting the same request twice before a fold leaves the same pending
/// requests, and so the same effects after the fold, as submitting it once.
pub proof fn lemma_identical_submission_is_idempotent(
    pending: Map<Name, MovementModifier>,
    effects: Map<Name, MovementEffect>,
    name: Name,
    modifier: MovementModifier,
)
    ensures
        submitted(submitted(pending, name, modifier), name, modifier) == submitted(
            pending,
            name,
            modifier,
        ),
        folded_effects(effects, submitted(submitted(pending, name, modifier), name, modifier))
            == folded_effects(effects, submitted(pending, name, modifier)),
{
    assert(submitted(submitted(pending, name, modifier), name, modifier) =~= submitted(
        pending,
        name,
        modifier,
    ));
}

/// Of two requests submitted under one name before a fold, the later one
/// alone counts, provided that it is admissible: the pending requests are
/// those after the later one alone, and the fold leaves under the name what
/// the later one makes of the effect that stood there.
pub proof fn lemma_later_submission_overwrites(
    pending: Map<Name, MovementModifier>,
    effects: Map<Name, MovementEffect>,
    name: Name,
    first: MovementModifier,
    second: MovementModifier,
)
    requires
        second.is_admissible_spec(),
    ensures
        submitted(submitted(pending, name, first), name, second) == submitted(
            pending,
            name,
            second,
        ),
        folded_effects(effects, submitted(submitted(pending, name, first), name, second))[name]
            == MovementEffect::folded_spec(lookup(effects, name), second),
{
    assert(submitted(submitted(pending, name, first), name, second) =~= submitted(
        pending,
        name,
        second,
    ));
}

/// A momentum that is folded in takes its acceleration, its dampening and
/// its cap from the request, keeps the velocity that the effect had, and is
/// marked as renewed.
pub proof fn lemma_momentum_keeps_velocity(
    previous: MovementEffect,
    acceleration: Vec3,
    dampening: Scalar,
    cap: Scalar,
)
    ensures
        MovementEffect::folded_spec(
            Some(previous),
            MovementModifier::Momentum { acceleration, dampening, maximal_velocity: Some(cap) },
        ) == (MovementEffect {
            velocity: previous.velocity,
            acceleration,
            dampening,
            maximal_velocity: cap,
            updated: true,
        }),
{
}

/// A fold leaves alone every effect whose name has no pending request, and
/// drops none.
pub proof fn lemma_fold_keeps_other_effects(
    pending: Map<Name, MovementModifier>,
    effects: Map<Name, MovementEffect>,
    name: Name,
)
    requires
        effects.contains_key(name),
    ensures
        folded_effects(effects, pending).contains_key(name),
        !pending.contains_key(name) ==> folded_effects(effects, pending)[name] == effects[name],
{
}

/// An effect whose velocity and acceleration are both measured as no
/// longer than the smallest magnitude is gone from the effects once its
/// step settles, and no other effect changes.
pub proof fn lemma_spent_effect_is_evicted(
    entries: Seq<(Name, MovementEffect)>,
    update: Update,
    velocity_length: Scalar,
    acceleration_length: Scalar,
)
    requires
        distinct(entries),
        update.index < entries.len(),
        update.step.phase == StepPhase::Measure,
        !velocity_length.abs_exceeds_spec(Scalar::smallest_magnitude_spec()),
        !acceleration_length.abs_exceeds_spec(Scalar::smallest_magnitude_spec()),
    ensures
        ({
            let after = advanced(
                entries,
                update,
                FloatResult::Lengths { velocity_length, acceleration_length },
            ).0;
            &&& !as_map(after).contains_key(entries[update.index as int].0)
            &&& as_map(after) == as_map(entries).remove(entries[update.index as int].0)
        }),
{
    lemma_remove(entries, update.index as int);
}

/// An effect whose velocity or acceleration is measured as longer than the
/// smallest magnitude stays under its name, as the step left it, with its
/// renewal mark as the step left it.
pub proof fn lemma_live_effect_is_kept(
    entries: Seq<(Name, MovementEffect)>,
    update: Update,
    velocity_length: Scalar,
    acceleration_length: Scalar,
)
    requires
        distinct(entries),
        update.index < entries.len(),
        update.step.phase == StepPhase::Measure,
        update.step.effect.is_finite_spec(),
        velocity_length.abs_exceeds_spec(Scalar::smallest_magnitude_spec())
            || acceleration_length.abs_exceeds_spec(Scalar::smallest_magnitude_spec()),
    ensures
        as_map(
            advanced(
                entries,
                update,
                FloatResult::Lengths { velocity_length, acceleration_length },
            ).0,
        ) == as_map(entries).insert(entries[update.index as int].0, update.step.effect),
{
    lemma_update(entries, update.index as int, update.step.effect);
}

/// While the step of an effect is not settled, the effects stand as they
/// were.
pub proof fn lemma_unsettled_step_changes_nothing(
    entries: Seq<(Name, MovementEffect)>,
    update: Update,
    result: FloatResult,
)
    requires
        !update.step.absorbed_spec(result).is_settled_spec(),
    ensures
        advanced(entries, update, result).0 == entries,
{
}

/// A step never asks for a blend with a zero vector: it comes to the blend
/// only from the accumulation, and only with a velocity and an acceleration
/// that both have a heading.
pub proof fn lemma_blend_needs_two_headings(step: EffectStep, result: FloatResult)
    requires
        step.phase != StepPhase::Blend,
    ensures
        ({
            let next = step.absorbed_spec(result);
            next.phase == StepPhase::Blend ==> {
                &&& step.phase == StepPhase::Accumulate
                &&& !next.effect.velocity.is_zero_spec()
                &&& !next.effect.acceleration.is_zero_spec()
                &&& next.work_spec() is Blend
            }
        }),
{
}

/// With a zero acceleration the accumulated velocity goes to the clamp as
/// it is: no blend is asked for, and none turns the velocity.
pub proof fn lemma_zero_acceleration_skips_blend(step: EffectStep, velocity: Vec3)
    requires
        step.phase == StepPhase::Accumulate,
        step.effect.acceleration.is_zero_spec(),
    ensures
        ({
            let next = step.absorbed_spec(FloatResult::Velocity { velocity });
            &&& next.phase == StepPhase::Clamp
            &&& next.effect.velocity == guarded(step.effect.velocity, velocity)
            &&& next.work_spec() == (FloatWork::Clamp {
                velocity: next.effect.velocity,
                maximal_velocity: step.effect.maximal_velocity,
            })
        }),
{
}

/// An effect that was renewed since the last pass is not decayed in this
/// one; any other effect is.
pub proof fn lemma_renewed_effect_skips_decay(effect: MovementEffect, elapsed: Scalar)
    ensures
        effect.updated ==> EffectStep::begin_spec(effect, elapsed).work_spec() is Accumulate,
        !effect.updated ==> EffectStep::begin_spec(effect, elapsed).work_spec() is Decay,
{
}

/// The result that a step waits for moves it on by exactly one phase, in
/// the order decay, accumulation, blend, clamp, measure; and the clamp
/// leaves the effect without its renewal mark.
pub proof fn lemma_phases_follow(step: EffectStep, result: FloatResult)
    ensures
        ({
            let next = step.absorbed_spec(result);
            &&& (step.phase == StepPhase::Decay && result is Decayed ==> next.phase
                == StepPhase::Accumulate)
            &&& (step.phase == StepPhase::Accumulate && result is Velocity ==> next.phase
                == StepPhase::Blend || next.phase == StepPhase::Clamp)
            &&& (step.phase == StepPhase::Blend && result is Velocity ==> next.phase
                == StepPhase::Clamp)
            &&& (step.phase == StepPhase::Clamp && result is Velocity ==> next.phase
                == StepPhase::Measure && !next.effect.updated)
            &&& (step.phase == StepPhase::Measure && result is Lengths ==> next.phase
                == StepPhase::Settled)
            &&& (step.phase == StepPhase::Settled ==> next == step)
        }),
{
}

/// After the clamp no axis of the velocity has a magnitude under the
/// smallest one, unless it is exactly zero.
pub proof fn lemma_clamped_velocity_is_snapped(step: EffectStep, velocity: Vec3)
    requires
        step.phase == StepPhase::Clamp,
        step.effect.is_finite_spec(),
    ensures
        ({
            let v = step.absorbed_spec(FloatResult::Velocity { velocity }).effect.velocity;
            let eps = Scalar::smallest_magnitude_spec();
            &&& (v.x.bits == 0 || !v.x.abs_below_spec(eps))
            &&& (v.y.bits == 0 || !v.y.abs_below_spec(eps))
            &&& (v.z.bits == 0 || !v.z.abs_below_spec(eps))
        }),
{
}

/// Submissions under different names can come in either order.
pub proof fn lemma_submissions_to_different_names_commute(
    pending: Map<Name, MovementModifier>,
    first_name: Name,
    first: MovementModifier,
    second_name: Name,
    second: MovementModifier,
)
    requires
        first_name != second_name,
    ensures
        submitted(submitted(pending, first_name, first), second_name, second) == submitted(
            submitted(pending, second_name, second),
            first_name,
            first,
        ),
{
    assert(submitted(submitted(pending, first_name, first), second_name, second) =~= submitted(
        submitted(pending, second_name, second),
        first_name,
        first,
    ));
}

/// A request is consumed by the fold that takes it: a fold with nothing
/// pending changes no effect.
pub proof fn lemma_empty_fold_changes_nothing(effects: Map<Name, MovementEffect>)
    ensures
        folded_effects(effects, Map::<Name, MovementModifier>::empty()) == effects,
{
    assert(folded_effects(effects, Map::<Name, MovementModifier>::empty()) =~= effects);
}

/// A dynamics pass creates no effect: every name that has an effect after a
/// result is taken in had one before.
pub proof fn lemma_pass_adds_no_name(
    entries: Seq<(Name, MovementEffect)>,
    update: Update,
    result: FloatResult,
    name: Name,
)
    requires
        distinct(entries),
        as_map(advanced(entries, update, result).0).contains_key(name),
    ensures
        as_map(entries).contains_key(name),
{
    let index = update.index as int;
    let step = update.step.absorbed_spec(result);
    if index < entries.len() && step.is_settled_spec() {
        lemma_entry(entries, index);
        if step.retained && step.effect.is_finite_spec() {
            lemma_update(entries, index, step.effect);
        } else {
            lemma_remove(entries, index);
        }
    }
}

/// The pass has cleared the renewal mark of every effect that it has left
/// behind, and of the effect at hand once its velocity went through the
/// clamp.
pub open spec fn cleared_behind(entries: Seq<(Name, MovementEffect)>, update: Update) -> bool {
    &&& update.index <= entries.len()
    &&& forall|i: int| 0 <= i < update.index ==> !(#[trigger] entries[i]).1.updated
    &&& (update.step.phase == StepPhase::Measure || update.step.phase == StepPhase::Settled
        ==> !update.step.effect.updated)
}

/// A pass starts with nothing behind it.
pub proof fn lemma_pass_starts_cleared(entries: Seq<(Name, MovementEffect)>, elapsed: Scalar)
    ensures
        match crate::ledger::update_at(entries, 0, elapsed) {
            Some(first) => cleared_behind(entries, first),
            None => entries.len() == 0,
        },
{
}

/// A pass that is followed from its start to its end leaves no effect
/// marked as renewed: what holds of the start is kept by every result that
/// is taken in, and at the end it holds of all effects.
pub proof fn lemma_pass_clears_renewal_marks(
    entries: Seq<(Name, MovementEffect)>,
    update: Update,
    result: FloatResult,
)
    requires
        entries.len() <= usize::MAX,
        cleared_behind(entries, update),
    ensures
        match advanced(entries, update, result).1 {
            Some(next) => cleared_behind(advanced(entries, update, result).0, next),
            None => forall|i: int|
                0 <= i < advanced(entries, update, result).0.len() ==> !(
                #[trigger] advanced(entries, update, result).0[i]).1.updated,
        },
{
    let index = update.index as int;
    let step = update.step.absorbed_spec(result);
    let after = advanced(entries, update, result).0;
    assert(step.phase == StepPhase::Measure || step.phase == StepPhase::Settled
        ==> !step.effect.updated);
    if index >= entries.len() {
    } else if !step.is_settled_spec() {
    } else if step.retained && step.effect.is_finite_spec() {
        assert(after == entries.update(index, (entries[index].0, step.effect)));
        assert forall|i: int| 0 <= i < index + 1 implies !(#[trigger] after[i]).1.updated by {
            if i < index {
                assert(after[i] == entries[i]);
            }
        }
    } else {
        assert(after == entries.remove(index));
        assert forall|i: int| 0 <= i < index implies !(#[trigger] after[i]).1.updated by {
            assert(after[i] == entries[i]);
        }
    }
}

/// Snapping never lengthens an axis: the magnitude of each axis of the
/// snapped vector is at most what it was.
pub proof fn lemma_snapping_never_lengthens(v: Vec3)
    ensures
        v.snapped_spec().x.scaled_magnitude() <= v.x.scaled_magnitude(),
        v.snapped_spec().y.scaled_magnitude() <= v.y.scaled_magnitude(),
        v.snapped_spec().z.scaled_magnitude() <= v.z.scaled_magnitude(),
{
    assert(0u32 & 0x7FFF_FFFF == 0) by (bit_vector);
    let zero = Scalar::zero_spec();
    assert(zero.scaled_magnitude() == 0);
    assert(snapped_axis(v.x) == zero || snapped_axis(v.x) == v.x);
    assert(snapped_axis(v.y) == zero || snapped_axis(v.y) == v.y);
    assert(snapped_axis(v.z) == zero || snapped_axis(v.z) == v.z);
}

} // verus!
