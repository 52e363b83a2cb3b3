//! The ledger of one entity: the requests that wait for the next fold and
//! the effects that are active, each under its name.

use vstd::prelude::*;
use crate::scalar::Scalar;
use crate::vector::Vec3;
use crate::request::{Movement, MovementModifier};
use crate::effect::MovementEffect;
use crate::step::{EffectStep, FloatResult, FloatWork};
use crate::named::{Name, paired, distinct, has_name, as_map, lookup, lemma_entry,
    lemma_empty, lemma_update, lemma_push, lemma_remove, lemma_prefix};

verus! {

/// The pending requests after one more is submitted: it takes the slot of
/// its name, unless its acceleration holds an infinity or a NaN, in which
/// case nothing changes.
pub open spec fn submitted(
    pending: Map<Name, MovementModifier>,
    name: Name,
    modifier: MovementModifier,
) -> Map<Name, MovementModifier> {
    if modifier.is_admissible_spec() {
        pending.insert(name, modifier)
    } else {
        pending
    }
}

/// The effects after the pending requests are folded in: every name with a
/// request holds what the request makes of the effect that stood there, and
/// every other effect stands as it was.
pub open spec fn folded_effects(
    effects: Map<Name, MovementEffect>,
    pending: Map<Name, MovementModifier>,
) -> Map<Name, MovementEffect> {
    Map::new(
        |name: Name| effects.contains_key(name) || pending.contains_key(name),
        |name: Name|
            if pending.contains_key(name) {
                MovementEffect::folded_spec(lookup(effects, name), pending[name])
            } else {
                effects[name]
            },
    )
}

/// The place of a dynamics pass: the effect it is at, and how far the step
/// of that effect has come.
#[derive(Clone, Copy, Debug, PartialEq, Eq, Structural)]
pub struct Update {
    pub index: usize,
    pub step: EffectStep,
}

impl Update {
    /// The work that the pass waits for.
    pub fn work(&self) -> (r: FloatWork)
        ensures
            r == self.step.work_spec(),
    {
        self.step.work()
    }
}

/// The pass at the effect of place `index`, or `None` past the last effect.
pub open spec fn update_at(
    entries: Seq<(Name, MovementEffect)>,
    index: int,
    elapsed: Scalar,
) -> Option<Update> {
    if 0 <= index < entries.len() && index <= usize::MAX {
        Some(Update { index: index as usize, step: EffectStep::begin_spec(entries[index].1, elapsed) })
    } else {
        None
    }
}

/// The effects and the pass after a result is taken in. While the step of
/// the effect at hand is not settled, only the step moves. Once it is, the
/// effect is written back if it stays, and taken out if it is spent or
/// holds an infinity or a NaN; the pass goes on to the effect that follows.
/// A pass that points past the last effect ends and changes nothing.
pub open spec fn advanced(
    entries: Seq<(Name, MovementEffect)>,
    update: Update,
    result: FloatResult,
) -> (Seq<(Name, MovementEffect)>, Option<Update>) {
    let index = update.index as int;
    let step = update.step.absorbed_spec(result);
    if index >= entries.len() {
        (entries, None)
    } else if !step.is_settled_spec() {
        (entries, Some(Update { index: update.index, step }))
    } else if step.retained && step.effect.is_finite_spec() {
        let written = entries.update(index, (entries[index].0, step.effect));
        (written, update_at(written, index + 1, step.elapsed))
    } else {
        let shortened = entries.remove(index);
        (shortened, update_at(shortened, index, step.elapsed))
    }
}

/// The ledger. The names and what stands under them are kept side by side,
/// each name once.
pub struct Movements {
    pending_names: Vec<String>,
    pending_modifiers: Vec<MovementModifier>,
    effect_names: Vec<String>,
    effect_states: Vec<MovementEffect>,
}

fn find_name(names: &Vec<String>, name: &String) -> (r: Option<usize>)
    ensures
        match r {
            Some(i) => i < names.len() && names[i as int]@ == name@,
            None => forall|j: int| 0 <= j < names.len() ==> (#[trigger] names[j])@ != name@,
        },
{
    let mut i: usize = 0;
    while i < names.len()
        invariant
            i <= names.len(),
            forall|j: int| 0 <= j < i ==> (#[trigger] names[j])@ != name@,
        decreases names.len() - i,
    {
        if names[i] == *name {
            return Some(i);
        }
        i += 1;
    }
    None
}

impl Movements {
    /// The requests that wait for the fold, in the order in which their
    /// names were first submitted.
    pub closed spec fn requests(&self) -> Seq<(Name, MovementModifier)> {
        paired(self.pending_names@, self.pending_modifiers@)
    }

    /// The active effects, in the order in which a dynamics pass visits them.
    pub closed spec fn entries(&self) -> Seq<(Name, MovementEffect)> {
        paired(self.effect_names@, self.effect_states@)
    }

    /// The pending request of each name.
    pub open spec fn pending(&self) -> Map<Name, MovementModifier> {
        as_map(self.requests())
    }

    /// The active effect of each name.
    pub open spec fn effects(&self) -> Map<Name, MovementEffect> {
        as_map(self.entries())
    }

    /// No name has two requests or two effects, every request is
    /// admissible, and no effect holds an infinity or a NaN.
    pub closed spec fn wf(&self) -> bool {
        &&& self.pending_names.len() == self.pending_modifiers.len()
        &&& self.effect_names.len() == self.effect_states.len()
        &&& distinct(self.requests())
        &&& distinct(self.entries())
        &&& forall|i: int|
            0 <= i < self.pending_modifiers.len() ==> (
            #[trigger] self.pending_modifiers[i]).is_admissible_spec()
        &&& forall|i: int|
            0 <= i < self.effect_states.len() ==> (#[trigger] self.effect_states[i]).is_finite_spec()
    }

    /// In a valid ledger every pending request is admissible and no effect
    /// holds an infinity or a NaN.
    pub proof fn lemma_valid_ledger_is_finite(&self)
        requires
            self.wf(),
        ensures
            distinct(self.requests()),
            distinct(self.entries()),
            forall|name: Name| #[trigger]
                self.pending().contains_key(name) ==> self.pending()[name].is_admissible_spec(),
            forall|name: Name| #[trigger]
                self.effects().contains_key(name) ==> self.effects()[name].is_finite_spec(),
    {
        assert forall|name: Name| #[trigger]
            self.pending().contains_key(name) implies self.pending()[name].is_admissible_spec() by {
            let k = crate::named::place_of(self.requests(), name);
            assert(self.requests()[k].1 == self.pending_modifiers[k]);
        }
        assert forall|name: Name| #[trigger]
            self.effects().contains_key(name) implies self.effects()[name].is_finite_spec() by {
            let k = crate::named::place_of(self.entries(), name);
            assert(self.entries()[k].1 == self.effect_states[k]);
        }
    }

    /// A ledger with no request and no effect.
    pub fn new() -> (r: Movements)
        ensures
            r.wf(),
            r.requests().len() == 0,
            r.entries().len() == 0,
            r.pending() == Map::<Name, MovementModifier>::empty(),
            r.effects() == Map::<Name, MovementEffect>::empty(),
    {
        let r = Movements {
            pending_names: Vec::new(),
            pending_modifiers: Vec::new(),
            effect_names: Vec::new(),
            effect_states: Vec::new(),
        };
        proof {
            lemma_empty(r.requests());
            lemma_empty(r.entries());
        }
        r
    }

    /// Submits a request. It takes the pending slot of its name, whatever
    /// stood there; one whose acceleration holds an infinity or a NaN is
    /// dropped. The effects are not touched before the next fold.
    pub fn add(&mut self, movement: Movement)
        requires
            old(self).wf(),
        ensures
            final(self).wf(),
            final(self).pending() == submitted(
                old(self).pending(),
                movement.name@,
                movement.modifier,
            ),
            final(self).entries() == old(self).entries(),
    {
        if !movement.modifier.is_admissible() {
            return ;
        }
        let Movement { name, modifier } = movement;
        let ghost before = self.requests();
        match find_name(&self.pending_names, &name) {
            Some(i) => {
                self.pending_modifiers.set(i, modifier);
                proof {
                    assert(before[i as int].0 == name@);
                    lemma_update(before, i as int, modifier);
                    assert(self.requests() =~= before.update(i as int, (name@, modifier)));
                }
            },
            None => {
                self.pending_names.push(name);
                self.pending_modifiers.push(modifier);
                proof {
                    if has_name(before, name@) {
                        let k = crate::named::place_of(before, name@);
                        assert(old(self).pending_names[k]@ == name@);
                    }
                    lemma_push(before, name@, modifier);
                    assert(self.requests() =~= before.push((name@, modifier)));
                }
            },
        }
    }

    /// Folds the pending requests into the effects and clears them.
    pub fn process_new_movements(&mut self)
        requires
            old(self).wf(),
        ensures
            final(self).wf(),
            final(self).requests().len() == 0,
            final(self).pending() == Map::<Name, MovementModifier>::empty(),
            final(self).effects() == folded_effects(old(self).effects(), old(self).pending()),
    {
        let ghost requests = self.requests();
        let ghost start = self.effects();
        let mut i: usize = 0;
        proof {
            lemma_empty(requests.take(0));
            assert(self.effects() =~= folded_effects(start, as_map(requests.take(0))));
        }
        while i < self.pending_names.len()
            invariant
                self.wf(),
                self.requests() == requests,
                i <= self.pending_names.len(),
                self.effects() == folded_effects(start, as_map(requests.take(i as int))),
            decreases self.pending_names.len() - i,
        {
            let name = self.pending_names[i].clone();
            let modifier = self.pending_modifiers[i];
            let ghost before = self.entries();
            let ghost done = as_map(requests.take(i as int));
            proof {
                lemma_prefix(requests, i as int);
                assert(requests[i as int] == (name@, modifier));
                lemma_push(requests.take(i as int), name@, modifier);
                assert(!done.contains_key(name@));
            }
            match find_name(&self.effect_names, &name) {
                Some(k) => {
                    let previous = self.effect_states[k];
                    let next = MovementEffect::folded(Some(previous), modifier);
                    self.effect_states.set(k, next);
                    proof {
                        assert(before[k as int] == (name@, previous));
                        lemma_entry(before, k as int);
                        lemma_update(before, k as int, next);
                        assert(self.entries() =~= before.update(k as int, (name@, next)));
                        assert(lookup(start, name@) == Some(previous));
                    }
                },
                None => {
                    let next = MovementEffect::folded(None, modifier);
                    proof {
                        if has_name(before, name@) {
                            let k = crate::named::place_of(before, name@);
                            assert(self.effect_names[k]@ == name@);
                        }
                        assert(!self.effects().contains_key(name@));
                        assert(lookup(start, name@) == None::<MovementEffect>);
                    }
                    self.effect_names.push(name);
                    self.effect_states.push(next);
                    proof {
                        lemma_push(before, name@, next);
                        assert(self.entries() =~= before.push((name@, next)));
                    }
                },
            }
            proof {
                assert(self.effects() =~= folded_effects(
                    start,
                    as_map(requests.take(i as int + 1)),
                ));
            }
            i += 1;
        }
        proof {
            assert(requests.take(i as int) =~= requests);
        }
        self.pending_names.clear();
        self.pending_modifiers.clear();
        proof {
            lemma_empty(self.requests());
        }
    }

    /// The number of active effects.
    pub fn effect_count(&self) -> (r: usize)
        requires
            self.wf(),
        ensures
            r == self.entries().len(),
    {
        self.effect_names.len()
    }

    /// The number of requests that wait for the fold.
    pub fn pending_count(&self) -> (r: usize)
        requires
            self.wf(),
        ensures
            r == self.requests().len(),
    {
        self.pending_names.len()
    }

    /// The active effect of a name, if there is one.
    pub fn effect(&self, name: &str) -> (r: Option<MovementEffect>)
        requires
            self.wf(),
        ensures
            r == lookup(self.effects(), name@),
    {
        let owned = name.to_owned();
        match find_name(&self.effect_names, &owned) {
            Some(k) => {
                proof {
                    assert(self.entries()[k as int].0 == name@);
                    lemma_entry(self.entries(), k as int);
                }
                Some(self.effect_states[k])
            },
            None => {
                proof {
                    if has_name(self.entries(), name@) {
                        let k = crate::named::place_of(self.entries(), name@);
                        assert(self.effect_names[k]@ == name@);
                    }
                }
                None
            },
        }
    }

    /// The velocities of the active effects, whose sum is the net velocity
    /// of the entity.
    pub fn velocities(&self) -> (r: Vec<Vec3>)
        requires
            self.wf(),
        ensures
            r@.len() == self.entries().len(),
            forall|i: int| 0 <= i < r@.len() ==> #[trigger] r@[i] == self.entries()[i].1.velocity,
            forall|i: int| 0 <= i < r@.len() ==> (#[trigger] r@[i]).is_finite_spec(),
    {
        let mut out: Vec<Vec3> = Vec::new();
        let mut i: usize = 0;
        while i < self.effect_states.len()
            invariant
                self.wf(),
                i <= self.effect_states.len(),
                out@.len() == i,
                forall|j: int| 0 <= j < i ==> #[trigger] out@[j] == self.effect_states[j].velocity,
            decreases self.effect_states.len() - i,
        {
            out.push(self.effect_states[i].velocity);
            i += 1;
        }
        out
    }

    /// Starts a dynamics pass over the active effects for a tick of
    /// `elapsed` seconds: `None` where there is no effect.
    pub fn begin_update(&self, elapsed: Scalar) -> (r: Option<Update>)
        requires
            self.wf(),
        ensures
            r == update_at(self.entries(), 0, elapsed),
    {
        self.start_at(0, elapsed)
    }

    /// Begins the tick of the entity: folds the pending requests into the
    /// effects, then starts the dynamics pass over them, so that no effect
    /// is stepped before every request of the tick has reached it.
    pub fn begin_tick(&mut self, elapsed: Scalar) -> (r: Option<Update>)
        requires
            old(self).wf(),
        ensures
            final(self).wf(),
            final(self).pending() == Map::<Name, MovementModifier>::empty(),
            final(self).effects() == folded_effects(old(self).effects(), old(self).pending()),
            r == update_at(final(self).entries(), 0, elapsed),
    {
        self.process_new_movements();
        self.begin_update(elapsed)
    }

    fn start_at(&self, index: usize, elapsed: Scalar) -> (r: Option<Update>)
        requires
            self.wf(),
        ensures
            r == update_at(self.entries(), index as int, elapsed),
    {
        if index < self.effect_states.len() {
            Some(Update { index, step: EffectStep::begin(self.effect_states[index], elapsed) })
        } else {
            None
        }
    }

    /// Hands the pass the result of the work it waited for, and returns the
    /// pass as it goes on, or `None` when every effect has been visited.
    pub fn advance_update(&mut self, update: Update, result: FloatResult) -> (r: Option<Update>)
        requires
            old(self).wf(),
        ensures
            final(self).wf(),
            final(self).requests() == old(self).requests(),
            (final(self).entries(), r) == advanced(old(self).entries(), update, result),
    {
        let index = update.index;
        let step = update.step.absorb(result);
        let ghost before = self.entries();
        if index >= self.effect_states.len() {
            None
        } else if !step.is_settled() {
            Some(Update { index, step })
        } else if step.retained && step.effect.is_finite() {
            self.effect_states.set(index, step.effect);
            proof {
                lemma_update(before, index as int, step.effect);
                assert(self.entries() =~= before.update(
                    index as int,
                    (before[index as int].0, step.effect),
                ));
            }
            if index < usize::MAX {
                self.start_at(index + 1, step.elapsed)
            } else {
                None
            }
        } else {
            self.effect_names.remove(index);
            self.effect_states.remove(index);
            proof {
                lemma_remove(before, index as int);
                assert(self.entries() =~= before.remove(index as int));
            }
            self.start_at(index, step.elapsed)
        }
    }
}

impl Default for Movements {
    fn default() -> (r: Movements)
        ensures
            r.wf(),
            r.requests().len() == 0,
            r.entries().len() == 0,
            r.pending() == Map::<Name, MovementModifier>::empty(),
            r.effects() == Map::<Name, MovementEffect>::empty(),
    {
        Movements::new()
    }
}

} // verus!
