use vstd::prelude::*;
use vstd::string::*;
use crate::action::{Action, ActionInput, ActionMove, ActionUseItem, MoveSlide};
use crate::beat_controller::ticks_fixed;
use crate::component::ComponentError;
use crate::config::Ticks;
use crate::context::EffectTarget;
use crate::fixed::Fixed;
use crate::health::Health;
use crate::id::Id;
use crate::item::{HeldItems, ItemId};
use crate::target::TargetSelector;
use crate::util::{king_distance, spec_king_distance, spec_vec_to_dir, vec_to_dir};
use crate::vec2::{Coord, FVec2, IVec2};
use crate::world::{Fraction, Time, World, WorldView};

verus! {

pub type UnitId = Id;

/// What makes a unit act on its own.
#[derive(Debug, Clone, PartialEq, Eq)]
pub struct UnitAI {
    pub beat: UnitBeat,
    /// Normalized (in range 0..1) time until the next beat.
    pub next_beat: Time,
    pub behaviour: UnitBehaviour,
}

/// Describes how often the unit makes decisions.
#[derive(Debug, Clone, Copy, PartialEq, Eq, Structural)]
pub enum UnitBeat {
    /// Beats `unit` times every `player` player's beats.
    Synchronized {
        /// How many times should the unit beat.
        unit: Ticks,
        /// How many player's beats should pass.
        player: Ticks,
        /// Current beat index modulo `player`.
        current_beat: Ticks,
    },
    Independent { bpm: Ticks },
}

/// A unit with all its attributes.
#[derive(Debug, Clone, PartialEq, Eq)]
pub struct Unit {
    pub unit: Option<UnitAI>,
    pub fraction: Fraction,
    pub grid_position: IVec2,
    pub world_position: FVec2,
    pub health: Health,
    pub held_items: HeldItems,
}

pub type UnitAction = Action;

pub type BehaviourResult<T> = Result<T, BehaviourError>;

#[derive(Debug, Clone, Copy, PartialEq, Eq)]
pub enum BehaviourError {
    Component(ComponentError),
    Context(BehaviourContextError),
}

#[derive(Debug, Clone, Copy, PartialEq, Eq, Structural)]
pub enum BehaviourContextError {
    /// Behaviour context missing target.
    NoTarget,
    /// Behaviour context missing action input.
    NoInput,
}

/// Basically the decision tree of the unit.
#[derive(Debug, PartialEq, Eq)]
pub enum UnitBehaviour {
    Act(UnitAction),
    SelectTarget { selector: TargetSelector, then_behave: Box<UnitBehaviour> },
    MoveToTarget,
    UseItemOnTarget { item: ItemId },
    If {
        condition: BehaviourCondition,
        then_behave: Box<UnitBehaviour>,
        else_behave: Box<UnitBehaviour>,
    },
}

#[derive(Debug, Clone, Copy, PartialEq, Eq, Structural)]
pub enum BehaviourCondition {
    TargetInRange { distance: Coord },
}

/// What a behaviour has been given by the behaviours above it.
#[derive(Debug, Clone, Copy, PartialEq, Eq, Structural)]
pub enum BehaviourContext {
    Empty,
    Target(EffectTarget),
    Input(ActionInput),
}

impl BehaviourContextError {
    /// The error in words.
    pub fn message(&self) -> (r: &'static str)
        ensures
            r@ == match self {
                BehaviourContextError::NoTarget => "behaviour context missing target"@,
                BehaviourContextError::NoInput => "behaviour context missing action input"@,
            },
    {
        match self {
            BehaviourContextError::NoTarget => "behaviour context missing target",
            BehaviourContextError::NoInput => "behaviour context missing action input",
        }
    }
}

impl BehaviourError {
    /// The error in words.
    pub open spec fn spec_message(&self) -> Seq<char> {
        match self {
            BehaviourError::Component(error) => "Component error: "@ + error.spec_message(),
            BehaviourError::Context(BehaviourContextError::NoTarget) => "Context error: "@
                + "behaviour context missing target"@,
            BehaviourError::Context(BehaviourContextError::NoInput) => "Context error: "@
                + "behaviour context missing action input"@,
        }
    }

    /// The error in words.
    pub fn message(&self) -> (r: String)
        ensures
            r@ == self.spec_message(),
    {
        match self {
            BehaviourError::Component(error) => {
                let mut text = String::from_str("Component error: ");
                let inner = error.message();
                text.append(inner.as_str());
                text
            },
            BehaviourError::Context(error) => {
                let mut text = String::from_str("Context error: ");
                text.append(error.message());
                text
            },
        }
    }
}

impl UnitBeat {
    /// The tempo of the unit when the player's tempo is `player_bpm`.
    pub open spec fn spec_calc_bpm(&self, player_bpm: Fixed) -> Fixed {
        match *self {
            UnitBeat::Synchronized { unit, player, .. } => player_bpm.spec_mul(
                ticks_fixed(unit),
            ).spec_div(ticks_fixed(player)),
            UnitBeat::Independent { bpm } => ticks_fixed(bpm),
        }
    }

    /// The schedule after one more beat of the player, and whether the count of a
    /// synchronized unit has come round to zero.
    pub open spec fn spec_player_beat(&self) -> (UnitBeat, bool) {
        match *self {
            UnitBeat::Synchronized { unit, player, current_beat } => if player == 0 {
                (*self, false)
            } else {
                let next = ((current_beat as int + 1) % (player as int)) as Ticks;
                (UnitBeat::Synchronized { unit, player, current_beat: next }, next == 0)
            },
            UnitBeat::Independent { bpm } => (*self, false),
        }
    }

    pub fn calc_bpm(&self, player_bpm: Fixed) -> (r: Fixed)
        ensures
            r == self.spec_calc_bpm(player_bpm),
    {
        match *self {
            UnitBeat::Synchronized { unit, player, .. } => player_bpm.mul(
                Fixed::from_int(unit as i64),
            ).div(Fixed::from_int(player as i64)),
            UnitBeat::Independent { bpm } => Fixed::from_int(bpm as i64),
        }
    }

    /// Counts one more beat of the player. Returns the new schedule and whether the
    /// unit is due at once. A schedule over no player's beat stays as it is.
    pub fn player_beat(&self) -> (r: (UnitBeat, bool))
        ensures
            r == self.spec_player_beat(),
    {
        match *self {
            UnitBeat::Synchronized { unit, player, current_beat } => {
                if player == 0 {
                    return (UnitBeat::Synchronized { unit, player, current_beat }, false);
                }
                let next: Ticks = ((current_beat as u64 + 1) % (player as u64)) as Ticks;
                (UnitBeat::Synchronized { unit, player, current_beat: next }, next == 0)
            },
            UnitBeat::Independent { bpm } => (UnitBeat::Independent { bpm }, false),
        }
    }
}

impl UnitAI {
    /// The unit after one more beat of the player: the schedule counts it, and a unit
    /// whose count comes round to zero is due at once.
    pub open spec fn spec_player_beat(self) -> UnitAI {
        let (beat, due) = self.beat.spec_player_beat();
        UnitAI {
            beat,
            next_beat: if due {
                Fixed { raw: 0 }
            } else {
                self.next_beat
            },
            behaviour: self.behaviour,
        }
    }

    /// Whether the unit waits for the player: it is synchronized, and a whole beat's
    /// time has passed since the player's last beat.
    pub open spec fn spec_waits(self, player_beat_time: Time) -> bool {
        self.beat is Synchronized && player_beat_time.raw >= crate::fixed::SCALE
    }

    /// The unit after its countdown has run for `delta_time` seconds at the player's
    /// tempo `player_bpm`, and whether it is due: the countdown falls by the part of the
    /// unit's beat that has passed, and starts anew, one higher, when it falls below
    /// zero. A unit that waits stays as it is.
    pub open spec fn spec_countdown(
        self,
        player_bpm: Fixed,
        player_beat_time: Time,
        delta_time: Time,
    ) -> (UnitAI, bool) {
        if self.spec_waits(player_beat_time) {
            (self, false)
        } else {
            let bpm = self.beat.spec_calc_bpm(player_bpm);
            let beat_time = Fixed::spec_from_int(60).spec_div(bpm);
            let next_beat = self.next_beat.spec_sub(delta_time.spec_div(beat_time));
            if next_beat.raw < 0 {
                (
                    UnitAI {
                        beat: self.beat,
                        next_beat: next_beat.spec_add(Fixed { raw: crate::fixed::SCALE }),
                        behaviour: self.behaviour,
                    },
                    true,
                )
            } else {
                (UnitAI { beat: self.beat, next_beat, behaviour: self.behaviour }, false)
            }
        }
    }
}

impl BehaviourContext {
    pub open spec fn spec_expect_target(self) -> Result<EffectTarget, BehaviourContextError> {
        match self {
            BehaviourContext::Target(target) => Ok(target),
            _ => Err(BehaviourContextError::NoTarget),
        }
    }

    pub open spec fn spec_expect_input(self) -> Result<ActionInput, BehaviourContextError> {
        match self {
            BehaviourContext::Input(input) => Ok(input),
            _ => Err(BehaviourContextError::NoInput),
        }
    }

    /// The target. Fails with `NoTarget` where the context holds none.
    pub fn expect_target(self) -> (r: Result<EffectTarget, BehaviourContextError>)
        ensures
            r == self.spec_expect_target(),
    {
        match self {
            BehaviourContext::Target(target) => Ok(target),
            _ => Err(BehaviourContextError::NoTarget),
        }
    }

    /// The input. Fails with `NoInput` where the context holds none.
    pub fn expect_input(self) -> (r: Result<ActionInput, BehaviourContextError>)
        ensures
            r == self.spec_expect_input(),
    {
        match self {
            BehaviourContext::Input(input) => Ok(input),
            _ => Err(BehaviourContextError::NoInput),
        }
    }
}

impl BehaviourCondition {
    pub open spec fn spec_evaluate(
        &self,
        world: WorldView,
        unit: UnitId,
        context: BehaviourContext,
    ) -> BehaviourResult<bool> {
        match *self {
            BehaviourCondition::TargetInRange { distance } => match context {
                BehaviourContext::Target(target) => match world.grid_position(unit) {
                    Err(error) => Err(BehaviourError::Component(error)),
                    Ok(pos) => match target.spec_find_pos(world) {
                        Err(error) => Err(BehaviourError::Component(error)),
                        Ok(target_pos) => Ok(
                            spec_king_distance(target_pos.spec_sub(pos)) <= distance,
                        ),
                    },
                },
                _ => Err(BehaviourError::Context(BehaviourContextError::NoTarget)),
            },
        }
    }

    /// Whether the condition holds for `unit`. Fails with `NoTarget` where the context
    /// holds no target, and with `NotFound` where the unit or the target has no cell.
    pub fn evaluate(
        &self,
        world: &World,
        unit: UnitId,
        context: &BehaviourContext,
    ) -> (r: BehaviourResult<bool>)
        requires
            world.units.wf(),
        ensures
            r == self.spec_evaluate(world@, unit, *context),
    {
        match *self {
            BehaviourCondition::TargetInRange { distance } => match *context {
                BehaviourContext::Target(target) => {
                    let pos = match world.units.grid_position.get(unit) {
                        Ok(pos) => *pos,
                        Err(error) => {
                            return Err(BehaviourError::Component(error));
                        },
                    };
                    let target_pos = match target.find_pos(world) {
                        Ok(pos) => pos,
                        Err(error) => {
                            return Err(BehaviourError::Component(error));
                        },
                    };
                    Ok(king_distance(target_pos.sub(pos)) <= distance)
                },
                _ => Err(BehaviourError::Context(BehaviourContextError::NoTarget)),
            },
        }
    }
}

impl Clone for UnitBehaviour {
    fn clone(&self) -> (r: Self)
        ensures
            r == *self,
    {
        self.duplicate()
    }
}

impl UnitBehaviour {
    /// An equal behaviour.
    pub fn duplicate(&self) -> (r: UnitBehaviour)
        ensures
            r == *self,
        decreases self,
    {
        match self {
            UnitBehaviour::Act(action) => UnitBehaviour::Act(*action),
            UnitBehaviour::SelectTarget { selector, then_behave } => UnitBehaviour::SelectTarget {
                selector: TargetSelector {
                    filter: selector.filter,
                    fitness: selector.fitness.duplicate(),
                },
                then_behave: Box::new(then_behave.duplicate()),
            },
            UnitBehaviour::MoveToTarget => UnitBehaviour::MoveToTarget,
            UnitBehaviour::UseItemOnTarget { item } => UnitBehaviour::UseItemOnTarget { item: *item },
            UnitBehaviour::If { condition, then_behave, else_behave } => UnitBehaviour::If {
                condition: *condition,
                then_behave: Box::new(then_behave.duplicate()),
                else_behave: Box::new(else_behave.duplicate()),
            },
        }
    }

    /// What the behaviour makes of the context: no action, or an action with what it is
    /// aimed at. The world is read and not changed.
    pub open spec fn spec_evaluate_with_context(
        &self,
        world: WorldView,
        unit: UnitId,
        context: BehaviourContext,
    ) -> BehaviourResult<Option<(UnitAction, ActionInput)>>
        decreases self,
    {
        match self {
            UnitBehaviour::Act(action) => match context.spec_expect_input() {
                Ok(input) => Ok(Some((*action, input))),
                Err(error) => Err(BehaviourError::Context(error)),
            },
            UnitBehaviour::SelectTarget { selector, then_behave } => match selector.spec_evaluate(
                world,
                unit,
            ) {
                Err(error) => Err(BehaviourError::Component(error)),
                Ok(None) => Ok(None),
                Ok(Some(target)) => then_behave.spec_evaluate_with_context(
                    world,
                    unit,
                    BehaviourContext::Target(target),
                ),
            },
            UnitBehaviour::MoveToTarget => match context.spec_expect_target() {
                Err(error) => Err(BehaviourError::Context(error)),
                Ok(target) => match target.spec_find_pos(world) {
                    Err(error) => Err(BehaviourError::Component(error)),
                    Ok(target_pos) => match world.grid_position(unit) {
                        Err(error) => Err(BehaviourError::Component(error)),
                        Ok(pos) => Ok(
                            Some(
                                (
                                    Action::Move(
                                        ActionMove::Slide(
                                            MoveSlide {
                                                delta: spec_vec_to_dir(
                                                    target_pos.spec_sub(pos).spec_to_fixed(),
                                                ),
                                            },
                                        ),
                                    ),
                                    ActionInput { target },
                                ),
                            ),
                        ),
                    },
                },
            },
            UnitBehaviour::UseItemOnTarget { item } => match context.spec_expect_target() {
                Err(error) => Err(BehaviourError::Context(error)),
                Ok(target) => Ok(
                    Some((Action::UseItem(ActionUseItem { item: *item }), ActionInput { target })),
                ),
            },
            UnitBehaviour::If { condition, then_behave, else_behave } => match condition.spec_evaluate(
                world,
                unit,
                context,
            ) {
                Err(error) => Err(error),
                Ok(true) => then_behave.spec_evaluate_with_context(world, unit, context),
                Ok(false) => else_behave.spec_evaluate_with_context(world, unit, context),
            },
        }
    }

    /// What the unit decides to do: the behaviour, made of an empty context.
    pub open spec fn spec_evaluate(&self, world: WorldView, unit: UnitId) -> BehaviourResult<
        Option<(UnitAction, ActionInput)>,
    > {
        self.spec_evaluate_with_context(world, unit, BehaviourContext::Empty)
    }

    /// Decides what `unit` does now: nothing, or an action with what it is aimed at.
    pub fn evaluate(&self, world: &World, unit: UnitId) -> (r: BehaviourResult<
        Option<(UnitAction, ActionInput)>,
    >)
        requires
            world.units.wf(),
        ensures
            r == self.spec_evaluate(world@, unit),
    {
        let context = BehaviourContext::Empty;
        self.evaluate_with_context(world, unit, context)
    }

    /// Decides what `unit` does, given what the behaviours above have found.
    pub fn evaluate_with_context(
        &self,
        world: &World,
        unit: UnitId,
        context: BehaviourContext,
    ) -> (r: BehaviourResult<Option<(UnitAction, ActionInput)>>)
        requires
            world.units.wf(),
        ensures
            r == self.spec_evaluate_with_context(world@, unit, context),
        decreases self,
    {
        match self {
            UnitBehaviour::Act(action) => match context.expect_input() {
                Ok(input) => Ok(Some((*action, input))),
                Err(error) => Err(BehaviourError::Context(error)),
            },
            UnitBehaviour::SelectTarget { selector, then_behave } => {
                match selector.evaluate(world, unit) {
                    Err(error) => Err(BehaviourError::Component(error)),
                    Ok(None) => {
                        // No target found
                        Ok(None)
                    },
                    Ok(Some(target)) => {
                        let context = BehaviourContext::Target(target);
                        then_behave.evaluate_with_context(world, unit, context)
                    },
                }
            },
            UnitBehaviour::MoveToTarget => {
                let target = match context.expect_target() {
                    Ok(target) => target,
                    Err(error) => {
                        return Err(BehaviourError::Context(error));
                    },
                };
                let target_pos = match target.find_pos(world) {
                    Ok(pos) => pos,
                    Err(error) => {
                        return Err(BehaviourError::Component(error));
                    },
                };
                let pos = match world.units.grid_position.get(unit) {
                    Ok(pos) => *pos,
                    Err(error) => {
                        return Err(BehaviourError::Component(error));
                    },
                };
                let delta = target_pos.sub(pos);
                let move_delta = vec_to_dir(delta.to_fixed());
                Ok(
                    Some(
                        (
                            Action::Move(ActionMove::Slide(MoveSlide { delta: move_delta })),
                            ActionInput { target },
                        ),
                    ),
                )
            },
            UnitBehaviour::UseItemOnTarget { item } => {
                let target = match context.expect_target() {
                    Ok(target) => target,
                    Err(error) => {
                        return Err(BehaviourError::Context(error));
                    },
                };
                Ok(Some((Action::UseItem(ActionUseItem { item: *item }), ActionInput { target })))
            },
            UnitBehaviour::If { condition, then_behave, else_behave } => {
                match condition.evaluate(world, unit, &context) {
                    Err(error) => Err(error),
                    Ok(true) => then_behave.evaluate_with_context(world, unit, context),
                    Ok(false) => else_behave.evaluate_with_context(world, unit, context),
                }
            },
        }
    }
}

/// A behaviour that is given no input decides on nothing that units cannot carry out.
pub proof fn lemma_evaluate_supported(
    behaviour: UnitBehaviour,
    world: WorldView,
    unit: UnitId,
    context: BehaviourContext,
)
    requires
        !(context is Input),
    ensures
        match behaviour.spec_evaluate_with_context(world, unit, context) {
            Ok(Some(decision)) => decision.0.supported(),
            _ => true,
        },
    decreases behaviour,
{
    match behaviour {
        UnitBehaviour::SelectTarget { selector, then_behave } => {
            match selector.spec_evaluate(world, unit) {
                Ok(Some(target)) => {
                    lemma_evaluate_supported(
                        *then_behave,
                        world,
                        unit,
                        BehaviourContext::Target(target),
                    );
                },
                _ => {},
            }
        },
        UnitBehaviour::If { condition, then_behave, else_behave } => {
            lemma_evaluate_supported(*then_behave, world, unit, context);
            lemma_evaluate_supported(*else_behave, world, unit, context);
        },
        _ => {},
    }
}

} // verus!
