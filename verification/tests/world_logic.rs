use pseudo_rhythm::action::{Action, ActionInput, ActionMove, ActionUseItem, MoveSlide, MoveTeleport};
use pseudo_rhythm::action_effect::{ActionAim, ActionEffect};
use pseudo_rhythm::component::ComponentError;
use pseudo_rhythm::condition::Condition;
use pseudo_rhythm::config::MusicConfig;
use pseudo_rhythm::context::{Caster, ContextError, EffectContext, EffectTarget};
use pseudo_rhythm::effect::{Effect, EffectDamage, EffectIf, EffectParticles, EffectProjectile};
use pseudo_rhythm::fixed::Fixed;
use pseudo_rhythm::grid::Grid;
use pseudo_rhythm::health::Health;
use pseudo_rhythm::id::Id;
use pseudo_rhythm::item::{HandId, HeldItems, Item};
use pseudo_rhythm::logic::{Logic, QueuedEffect};
use pseudo_rhythm::player::Player;
use pseudo_rhythm::projectile::{ProjectileInst, ProjectilePrefab};
use pseudo_rhythm::target::{FractionFilter, TargetFilter, TargetFitness, TargetSelector};
use pseudo_rhythm::unit::{
    BehaviourCondition, BehaviourContext, BehaviourContextError, BehaviourError, Unit, UnitAI,
    UnitBeat, UnitBehaviour,
};
use pseudo_rhythm::vec2::{FVec2, IVec2};
use pseudo_rhythm::world::{Color, Fraction, SystemError, World};

const PLAYER: Id = Id(0);
const ENEMY: Id = Id(1);

fn world() -> World {
    World::new(MusicConfig::new())
}

/// A world whose enemy stands still and does nothing.
fn quiet_world(enemy_at: IVec2) -> World {
    let mut w = world();
    w.units.unit.remove(ENEMY).unwrap();
    w.units.grid_position.update(ENEMY, enemy_at).unwrap();
    let (_, outcome) = w.update(Fixed::zero());
    assert_eq!(outcome, Ok(()));
    w
}

fn hp(w: &World, id: Id) -> i64 {
    w.units.health.get(id).unwrap().get().raw
}

fn at(x: i64, y: i64) -> ActionInput {
    ActionInput { target: EffectTarget::Position(IVec2::new(x, y)) }
}

fn slide(x: i64, y: i64) -> Action {
    Action::Move(ActionMove::Slide(MoveSlide { delta: IVec2::new(x, y) }))
}

fn use_item(item: HandId) -> Action {
    Action::UseItem(ActionUseItem { item })
}

fn fv(x: i64, y: i64) -> FVec2 {
    FVec2::new(Fixed::from_raw(x), Fixed::from_raw(y))
}

fn plain_unit(fraction: Fraction, x: i64, y: i64) -> Unit {
    Unit {
        unit: None,
        fraction,
        grid_position: IVec2::new(x, y),
        world_position: FVec2::zero(),
        health: Health::new(Fixed::from_int(3)),
        held_items: HeldItems::default(),
    }
}

#[test]
fn new_world_has_the_player_and_one_enemy() {
    let w = world();
    assert_eq!(w.player, Player::new(PLAYER));
    assert_eq!(w.units.ids().ids(), vec![PLAYER, ENEMY]);
    assert_eq!(w.units.grid_position.get(PLAYER), Ok(&IVec2::new(0, 0)));
    assert_eq!(w.units.grid_position.get(ENEMY), Ok(&IVec2::new(2, 1)));
    assert_eq!(w.units.fraction.get(PLAYER), Ok(&Fraction::Player));
    assert_eq!(w.units.fraction.get(ENEMY), Ok(&Fraction::Enemy));
    assert_eq!(hp(&w, PLAYER), 10_000_000);
    assert_eq!(hp(&w, ENEMY), 2_000_000);
    assert!(!w.units.unit.contains(PLAYER));
    assert!(w.units.unit.contains(ENEMY));
    let items = w.units.held_items.get(PLAYER).unwrap();
    assert_eq!(items.left_hand, Some(Item::bow(Fixed::from_int(1), Fixed::from_int(3))));
    assert_eq!(items.right_hand, Some(Item::sword(Fixed::from_int(2))));
    assert!(w.projectiles.is_empty());
    assert!(w.particles.is_empty());
    assert_eq!(w.beat_controller.get_bpm(), Fixed::from_int(30));
    assert_eq!(w.player_beat_time, Fixed::zero());
    assert_eq!(w.grid, Grid::default());
}

#[test]
fn grid_maps_cells_to_the_world_and_back() {
    let grid = Grid::default();
    assert_eq!(grid.grid_to_world(IVec2::new(2, -1)), fv(2_000_000, -1_000_000));
    assert_eq!(
        grid.world_to_grid(fv(2_400_000, 600_000)),
        (IVec2::new(2, 1), fv(900_000, 100_000))
    );
    assert_eq!(
        grid.world_to_grid(fv(-400_000, -600_000)),
        (IVec2::new(0, -1), fv(100_000, 900_000))
    );
    let other = Grid { cell_size: fv(2_000_000, 2_000_000), offset: fv(1_000_000, 1_000_000) };
    assert_eq!(other.grid_to_world(IVec2::new(3, 5)), fv(1_000_000, 2_000_000));
    assert_eq!(other.transform(fv(1_000_000, 2_000_000)), fv(3_000_000, 5_000_000));
}

#[test]
fn get_unit_at_finds_the_unit_on_the_cell() {
    let w = world();
    assert_eq!(w.get_unit_at(IVec2::new(2, 1)), Ok(ENEMY));
    assert_eq!(w.get_unit_at(IVec2::new(0, 0)), Ok(PLAYER));
    assert_eq!(w.get_unit_at(IVec2::new(1, 1)), Err(ContextError::NoTarget));
}

#[test]
fn effect_target_lookups() {
    let w = quiet_world(IVec2::new(2, 1));
    let cell = EffectTarget::Position(IVec2::new(2, 1));
    let unit = EffectTarget::Unit(ENEMY);
    let nobody = EffectTarget::Unit(Id(9));
    assert_eq!(cell.expect_unit(), Err(ContextError::NoTarget));
    assert_eq!(unit.expect_unit(), Ok(ENEMY));
    assert_eq!(cell.find_unit(&w), Ok(ENEMY));
    assert_eq!(EffectTarget::Position(IVec2::new(5, 5)).find_unit(&w), Err(ContextError::NoTarget));
    assert_eq!(nobody.find_unit(&w), Ok(Id(9)));
    assert_eq!(unit.find_pos(&w), Ok(IVec2::new(2, 1)));
    assert_eq!(cell.find_pos(&w), Ok(IVec2::new(2, 1)));
    assert_eq!(
        nobody.find_pos(&w),
        Err(ComponentError::NotFound { id: Id(9), component: "GridPosition" })
    );
    assert_eq!(unit.find_world_pos(&w), Ok(fv(2_000_000, 1_000_000)));
    assert_eq!(cell.find_world_pos(&w), Ok(fv(2_000_000, 1_000_000)));
    assert_eq!(
        nobody.find_world_pos(&w),
        Err(ComponentError::NotFound { id: Id(9), component: "WorldPosition" })
    );
}

#[test]
fn effect_context_expectations() {
    let empty = EffectContext { caster: None, target: None };
    assert_eq!(empty.expect_caster(), Err(ContextError::NoCaster));
    assert_eq!(empty.expect_target(), Err(ContextError::NoTarget));
    let full = EffectContext {
        caster: Some(Caster { unit: PLAYER }),
        target: Some(EffectTarget::Unit(ENEMY)),
    };
    assert_eq!(full.expect_caster(), Ok(Caster { unit: PLAYER }));
    assert_eq!(full.expect_target(), Ok(EffectTarget::Unit(ENEMY)));
    assert_eq!(ContextError::NoCaster.message(), "Caster expected but not found in effect context");
    assert_eq!(ContextError::NoTarget.message(), "Target expected but not found in effect context");
}

#[test]
fn condition_target_is_unit() {
    let on_unit = EffectContext { caster: None, target: Some(EffectTarget::Unit(ENEMY)) };
    let on_cell =
        EffectContext { caster: None, target: Some(EffectTarget::Position(IVec2::new(0, 0))) };
    let on_nothing = EffectContext { caster: None, target: None };
    let w = world();
    assert_eq!(Condition::TargetIsUnit.evaluate(&w, &on_unit), Ok(true));
    assert_eq!(Condition::TargetIsUnit.evaluate(&w, &on_cell), Ok(false));
    assert_eq!(Condition::TargetIsUnit.evaluate(&w, &on_nothing), Ok(false));
}

#[test]
fn fraction_filters() {
    assert!(FractionFilter::Any.check(Fraction::Player, Fraction::Enemy));
    assert!(FractionFilter::Any.check(Fraction::Player, Fraction::Player));
    assert!(FractionFilter::Ally.check(Fraction::Enemy, Fraction::Enemy));
    assert!(!FractionFilter::Ally.check(Fraction::Player, Fraction::Enemy));
    assert!(FractionFilter::Enemy.check(Fraction::Player, Fraction::Enemy));
    assert!(!FractionFilter::Enemy.check(Fraction::Enemy, Fraction::Enemy));
    let w = world();
    assert_eq!(FractionFilter::Enemy.check_query(PLAYER, &w, ENEMY), Ok(true));
    assert_eq!(FractionFilter::Ally.check_query(PLAYER, &w, ENEMY), Ok(false));
    assert_eq!(
        FractionFilter::Any.check_query(Id(9), &w, ENEMY),
        Err(ComponentError::NotFound { id: Id(9), component: "Fraction" })
    );
    assert_eq!(TargetFilter::Own.check(ENEMY, &w, ENEMY), Ok(true));
    assert_eq!(TargetFilter::Own.check(PLAYER, &w, ENEMY), Ok(false));
    assert_eq!(TargetFilter::Fraction(FractionFilter::Enemy).check(PLAYER, &w, ENEMY), Ok(true));
}

#[test]
fn fitness_is_the_king_distance() {
    let w = world();
    assert_eq!(TargetFitness::Distance.evaluate(PLAYER, &w, ENEMY), Ok(Fixed::from_int(2)));
    let nearest = TargetFitness::Negative(Box::new(TargetFitness::Distance));
    assert_eq!(nearest.evaluate(PLAYER, &w, ENEMY), Ok(Fixed::from_int(-2)));
    assert_eq!(nearest.clone(), nearest);
    assert_eq!(
        TargetFitness::Distance.evaluate(Id(9), &w, ENEMY),
        Err(ComponentError::NotFound { id: Id(9), component: "GridPosition" })
    );
}

fn nearest_enemy() -> TargetSelector {
    TargetSelector {
        filter: TargetFilter::Fraction(FractionFilter::Enemy),
        fitness: TargetFitness::Negative(Box::new(TargetFitness::Distance)),
    }
}

#[test]
fn selector_finds_the_nearest_enemy() {
    let mut w = world();
    assert_eq!(nearest_enemy().evaluate(&w, ENEMY), Ok(Some(EffectTarget::Unit(PLAYER))));
    // a nearer one
    let near = w.units.insert(plain_unit(Fraction::Player, 3, 1)).unwrap();
    assert_eq!(nearest_enemy().evaluate(&w, ENEMY), Ok(Some(EffectTarget::Unit(near))));
    // an ally is no candidate, however near
    w.units.insert(plain_unit(Fraction::Enemy, 2, 2)).unwrap();
    assert_eq!(nearest_enemy().evaluate(&w, ENEMY), Ok(Some(EffectTarget::Unit(near))));
}

#[test]
fn selector_breaks_ties_by_the_last_id() {
    let mut w = world();
    let a = w.units.insert(plain_unit(Fraction::Player, 3, 1)).unwrap();
    let b = w.units.insert(plain_unit(Fraction::Player, 1, 1)).unwrap();
    let c = w.units.insert(plain_unit(Fraction::Player, 2, 2)).unwrap();
    assert!(a < b && b < c);
    assert_eq!(nearest_enemy().evaluate(&w, ENEMY), Ok(Some(EffectTarget::Unit(c))));
    w.units.remove(c);
    assert_eq!(nearest_enemy().evaluate(&w, ENEMY), Ok(Some(EffectTarget::Unit(b))));
    // the farthest instead of the nearest: the player, two cells away, is alone
    let farthest = TargetSelector {
        filter: TargetFilter::Fraction(FractionFilter::Enemy),
        fitness: TargetFitness::Distance,
    };
    assert_eq!(farthest.evaluate(&w, ENEMY), Ok(Some(EffectTarget::Unit(PLAYER))));
}

#[test]
fn selector_without_candidates_selects_nothing() {
    let mut w = world();
    w.units.remove(PLAYER);
    assert_eq!(nearest_enemy().evaluate(&w, ENEMY), Ok(None));
    let own = TargetSelector { filter: TargetFilter::Own, fitness: TargetFitness::Distance };
    assert_eq!(own.evaluate(&w, ENEMY), Ok(Some(EffectTarget::Unit(ENEMY))));
}

#[test]
fn selector_fails_on_a_missing_attribute() {
    let mut w = world();
    w.units.fraction.remove(PLAYER).unwrap();
    assert_eq!(
        nearest_enemy().evaluate(&w, ENEMY),
        Err(ComponentError::NotFound { id: PLAYER, component: "Fraction" })
    );
    let mut w = world();
    w.units.grid_position.remove(PLAYER).unwrap();
    assert_eq!(
        nearest_enemy().evaluate(&w, ENEMY),
        Err(ComponentError::NotFound { id: PLAYER, component: "GridPosition" })
    );
}

fn enemy_behaviour(w: &World) -> UnitBehaviour {
    w.units.unit.get(ENEMY).unwrap().behaviour.clone()
}

#[test]
fn behaviour_moves_toward_a_far_target() {
    let w = world();
    let decision = enemy_behaviour(&w).evaluate(&w, ENEMY);
    assert_eq!(
        decision,
        Ok(Some((slide(-1, -1), ActionInput { target: EffectTarget::Unit(PLAYER) })))
    );
}

#[test]
fn behaviour_strikes_a_target_in_range() {
    let mut w = world();
    w.units.grid_position.update(ENEMY, IVec2::new(1, -1)).unwrap();
    let decision = enemy_behaviour(&w).evaluate(&w, ENEMY);
    assert_eq!(
        decision,
        Ok(Some((use_item(HandId::RightHand), ActionInput { target: EffectTarget::Unit(PLAYER) })))
    );
}

#[test]
fn behaviour_without_target_does_nothing() {
    let mut w = world();
    let behaviour = enemy_behaviour(&w);
    w.units.remove(PLAYER);
    assert_eq!(behaviour.evaluate(&w, ENEMY), Ok(None));
}

#[test]
fn behaviour_errors() {
    let w = world();
    assert_eq!(
        UnitBehaviour::Act(slide(1, 0)).evaluate(&w, ENEMY),
        Err(BehaviourError::Context(BehaviourContextError::NoInput))
    );
    assert_eq!(
        UnitBehaviour::MoveToTarget.evaluate(&w, ENEMY),
        Err(BehaviourError::Context(BehaviourContextError::NoTarget))
    );
    assert_eq!(
        UnitBehaviour::UseItemOnTarget { item: HandId::LeftHand }.evaluate(&w, ENEMY),
        Err(BehaviourError::Context(BehaviourContextError::NoTarget))
    );
    let branch = UnitBehaviour::If {
        condition: BehaviourCondition::TargetInRange { distance: 1 },
        then_behave: Box::new(UnitBehaviour::MoveToTarget),
        else_behave: Box::new(UnitBehaviour::MoveToTarget),
    };
    assert_eq!(
        branch.evaluate(&w, ENEMY),
        Err(BehaviourError::Context(BehaviourContextError::NoTarget))
    );
    assert_eq!(
        enemy_behaviour(&w).evaluate(&w, Id(9)),
        Err(BehaviourError::Component(ComponentError::NotFound {
            id: Id(9),
            component: "Fraction"
        }))
    );
    assert_eq!(BehaviourContextError::NoTarget.message(), "behaviour context missing target");
    assert_eq!(BehaviourContextError::NoInput.message(), "behaviour context missing action input");
}

#[test]
fn behaviour_with_context() {
    let w = world();
    let input = at(4, 4);
    assert_eq!(
        UnitBehaviour::Act(slide(1, 0)).evaluate_with_context(
            &w,
            ENEMY,
            BehaviourContext::Input(input)
        ),
        Ok(Some((slide(1, 0), input)))
    );
    let target = EffectTarget::Position(IVec2::new(2, 9));
    assert_eq!(
        UnitBehaviour::MoveToTarget.evaluate_with_context(
            &w,
            ENEMY,
            BehaviourContext::Target(target)
        ),
        Ok(Some((slide(0, 1), ActionInput { target })))
    );
    assert_eq!(BehaviourContext::Empty.expect_target(), Err(BehaviourContextError::NoTarget));
    assert_eq!(BehaviourContext::Target(target).expect_target(), Ok(target));
    assert_eq!(BehaviourContext::Target(target).expect_input(), Err(BehaviourContextError::NoInput));
    assert_eq!(BehaviourContext::Input(input).expect_input(), Ok(input));
    let in_range = BehaviourCondition::TargetInRange { distance: 8 };
    assert_eq!(in_range.evaluate(&w, ENEMY, &BehaviourContext::Target(target)), Ok(true));
    let close = BehaviourCondition::TargetInRange { distance: 7 };
    assert_eq!(close.evaluate(&w, ENEMY, &BehaviourContext::Target(target)), Ok(false));
}

#[test]
fn unit_beat_tempo() {
    let half = UnitBeat::Synchronized { unit: 1, player: 2, current_beat: 0 };
    assert_eq!(half.calc_bpm(Fixed::from_int(120)), Fixed::from_int(60));
    let own = UnitBeat::Independent { bpm: 90 };
    assert_eq!(own.calc_bpm(Fixed::from_int(120)), Fixed::from_int(90));
    assert_eq!(
        half.player_beat(),
        (UnitBeat::Synchronized { unit: 1, player: 2, current_beat: 1 }, false)
    );
    assert_eq!(
        half.player_beat().0.player_beat(),
        (UnitBeat::Synchronized { unit: 1, player: 2, current_beat: 0 }, true)
    );
    assert_eq!(own.player_beat(), (own, false));
    let never = UnitBeat::Synchronized { unit: 1, player: 0, current_beat: 0 };
    assert_eq!(never.player_beat(), (never, false));
}

#[test]
fn aim_check_and_assist() {
    let w = world();
    let aim = ActionAim::InRange { distance: 5 };
    assert_eq!(aim.check(&w, PLAYER, EffectTarget::Position(IVec2::new(5, -5))), Ok(true));
    assert_eq!(aim.check(&w, PLAYER, EffectTarget::Position(IVec2::new(6, 0))), Ok(false));
    assert_eq!(aim.check(&w, PLAYER, EffectTarget::Unit(ENEMY)), Ok(true));
    // a position in range stays
    assert_eq!(
        aim.assist(&w, PLAYER, EffectTarget::Position(IVec2::new(3, 4))),
        Ok(Some(EffectTarget::Position(IVec2::new(3, 4))))
    );
    // one out of range is pulled in along its direction
    assert_eq!(
        aim.assist(&w, PLAYER, EffectTarget::Position(IVec2::new(10, 0))),
        Ok(Some(EffectTarget::Position(IVec2::new(5, 0))))
    );
    assert_eq!(
        aim.assist(&w, PLAYER, EffectTarget::Position(IVec2::new(3, 7))),
        Ok(Some(EffectTarget::Position(IVec2::new(2, 5))))
    );
    assert_eq!(
        aim.assist(&w, PLAYER, EffectTarget::Position(IVec2::new(-20, -20))),
        Ok(Some(EffectTarget::Position(IVec2::new(-5, -5))))
    );
    // a unit is never exchanged for another target
    let short = ActionAim::InRange { distance: 1 };
    assert_eq!(short.assist(&w, PLAYER, EffectTarget::Unit(ENEMY)), Ok(None));
    assert_eq!(aim.assist(&w, PLAYER, EffectTarget::Unit(ENEMY)), Ok(Some(EffectTarget::Unit(ENEMY))));
    assert_eq!(
        aim.assist(&w, Id(9), EffectTarget::Position(IVec2::new(1, 1))),
        Err(SystemError::Component(ComponentError::NotFound {
            id: Id(9),
            component: "GridPosition"
        }))
    );
}

#[test]
fn into_effect_binds_caster_and_target() {
    let w = world();
    let sword = Item::sword(Fixed::from_int(1));
    let (effect, context) = sword.on_use.clone().into_effect(&w, PLAYER, at(3, 0)).unwrap();
    assert_eq!(effect, Effect::Damage(Box::new(EffectDamage { value: Fixed::from_int(1) })));
    assert_eq!(
        context,
        EffectContext {
            caster: Some(Caster { unit: PLAYER }),
            target: Some(EffectTarget::Position(IVec2::new(1, 0))),
        }
    );
    let on_unit = sword.on_use.into_effect(&w, PLAYER, ActionInput { target: EffectTarget::Unit(ENEMY) });
    assert_eq!(on_unit.unwrap().1.target, None);
}

#[test]
fn held_items_by_hand() {
    let mut items = HeldItems::default();
    assert_eq!(items.get_any_item(), None);
    assert_eq!(items.get_item(HandId::LeftHand), None);
    let sword = Item::sword(Fixed::from_int(1));
    let bow = Item::bow(Fixed::from_int(1), Fixed::from_int(3));
    assert_eq!(items.set_hand(HandId::RightHand, Some(sword.clone())), None);
    assert_eq!(items.get_any_item(), Some(&sword));
    assert_eq!(items.get_item(HandId::RightHand), Some(&sword));
    assert_eq!(items.get_item(HandId::LeftHand), None);
    assert_eq!(items.set_hand(HandId::LeftHand, Some(bow.clone())), None);
    assert_eq!(items.get_any_item(), Some(&bow));
    assert_eq!(items.set_hand(HandId::RightHand, None), Some(sword));
    assert_eq!(items.right_hand, None);
    assert_eq!(items.left_hand, Some(bow));
}

#[test]
fn items_are_what_they_say() {
    let sword = Item::sword(Fixed::from_int(2));
    assert_eq!(sword.on_use.aim, ActionAim::InRange { distance: 1 });
    assert_eq!(
        sword.on_use.effect,
        Effect::Damage(Box::new(EffectDamage { value: Fixed::from_int(2) }))
    );
    let bow = Item::bow(Fixed::from_int(1), Fixed::from_int(3));
    assert_eq!(bow.on_use.aim, ActionAim::InRange { distance: 5 });
    assert_eq!(
        bow.on_use.effect,
        Effect::Projectile(Box::new(EffectProjectile {
            projectile: ProjectilePrefab {
                target_filter: FractionFilter::Enemy,
                on_contact: Effect::Damage(Box::new(EffectDamage { value: Fixed::from_int(1) })),
            },
            speed: Fixed::from_int(3),
        }))
    );
    assert_eq!(bow.on_use.effect.duplicate(), bow.on_use.effect);
}

#[test]
fn supported_actions() {
    assert!(slide(1, 0).is_supported());
    assert!(slide(-1, 1).is_supported());
    assert!(slide(0, 0).is_supported());
    assert!(!slide(2, 0).is_supported());
    assert!(!slide(0, -2).is_supported());
    assert!(use_item(HandId::LeftHand).is_supported());
    assert!(!Action::Move(ActionMove::Teleport(MoveTeleport { target: IVec2::new(0, 0) }))
        .is_supported());
}

#[test]
fn projectile_prefab_instantiates() {
    let prefab = ProjectilePrefab { target_filter: FractionFilter::Ally, on_contact: Effect::Noop };
    let inst = ProjectileInst {
        world_position: fv(1, 2),
        velocity: fv(3, 4),
        caster: Some(Caster { unit: PLAYER }),
        fraction: Fraction::Enemy,
        target: EffectTarget::Unit(ENEMY),
    };
    let p = prefab.instantiate(inst);
    assert_eq!(p.world_position, fv(1, 2));
    assert_eq!(p.velocity, fv(3, 4));
    assert_eq!(p.caster, Some(Caster { unit: PLAYER }));
    assert_eq!(p.fraction, Fraction::Enemy);
    assert_eq!(p.target, EffectTarget::Unit(ENEMY));
    assert_eq!(p.target_filter, FractionFilter::Ally);
    assert_eq!(p.on_contact, Effect::Noop);
}

#[test]
fn spawn_particles_adds_a_burst_of_five() {
    let mut w = world();
    assert_eq!(w.spawn_particles(IVec2::new(3, -2), Color::blue()), Ok(()));
    assert_eq!(w.particles.len(), 5);
    let expected = [
        (1_500_000, 0),
        (463_525, 1_426_585),
        (-1_213_526, 881_677),
        (-1_213_526, -881_678),
        (463_525, -1_426_586),
    ];
    for (particle, velocity) in w.particles.iter().zip(expected) {
        assert_eq!(particle.position, fv(3_000_000, -2_000_000));
        assert_eq!(particle.velocity, fv(velocity.0, velocity.1));
        assert_eq!(particle.lifetime, Health::new(Fixed::from_raw(300_000)));
        assert_eq!(particle.size, Fixed::from_raw(300_000));
        assert_eq!(particle.color, Color::blue());
    }
    assert_eq!(w.spawn_particles_world(fv(500_000, 250_000), Color::grey()), Ok(()));
    assert_eq!(w.particles.len(), 10);
    assert_eq!(w.particles[9].position, fv(500_000, 250_000));
    assert_eq!(w.particles[9].color, Color::opaque(Fixed::from_raw(400_000), Fixed::from_raw(400_000), Fixed::from_raw(400_000)));
    assert_eq!(Color::white().a, Fixed::one());
}

#[test]
fn damage_on_an_empty_cell_only_spawns_particles() {
    let mut w = world();
    let context =
        EffectContext { caster: None, target: Some(EffectTarget::Position(IVec2::new(7, 7))) };
    let outcome = EffectDamage { value: Fixed::from_int(1) }.apply(&mut w, context);
    assert_eq!(outcome, Ok(()));
    assert_eq!(w.particles.len(), 5);
    for particle in w.particles.iter() {
        assert_eq!(particle.position, fv(7_000_000, 7_000_000));
        assert_eq!(particle.color, Color::white());
    }
    assert_eq!(hp(&w, PLAYER), 10_000_000);
    assert_eq!(hp(&w, ENEMY), 2_000_000);
    assert_eq!(w.units.ids().ids(), vec![PLAYER, ENEMY]);
}

#[test]
fn damage_on_a_unit_that_is_gone_does_nothing() {
    let mut w = world();
    let context = EffectContext { caster: None, target: Some(EffectTarget::Unit(Id(9))) };
    let outcome = Effect::Damage(Box::new(EffectDamage { value: Fixed::from_int(1) }))
        .apply(&mut w, context);
    assert_eq!(outcome, Ok(()));
    assert!(w.particles.is_empty());
    assert_eq!(hp(&w, PLAYER), 10_000_000);
    assert_eq!(hp(&w, ENEMY), 2_000_000);
}

#[test]
fn damage_without_target_fails() {
    let mut w = world();
    let context = EffectContext { caster: Some(Caster { unit: PLAYER }), target: None };
    let outcome = EffectDamage { value: Fixed::from_int(1) }.apply(&mut w, context);
    assert_eq!(outcome, Err(SystemError::Context(ContextError::NoTarget)));
    assert!(w.particles.is_empty());
}

#[test]
fn damage_kills_at_zero() {
    let mut w = world();
    let context = EffectContext { caster: None, target: Some(EffectTarget::Unit(ENEMY)) };
    assert_eq!(EffectDamage { value: Fixed::from_raw(1_999_999) }.apply(&mut w, context), Ok(()));
    assert_eq!(hp(&w, ENEMY), 1);
    assert_eq!(EffectDamage { value: Fixed::from_raw(1) }.apply(&mut w, context), Ok(()));
    assert!(!w.units.ids().contains(ENEMY));
    assert!(!w.units.health.contains(ENEMY));
    assert_eq!(w.particles.len(), 10);
}

#[test]
fn if_effect_branches_on_the_target() {
    let mut w = world();
    let effect = Effect::If(Box::new(EffectIf {
        condition: Condition::TargetIsUnit,
        then_effect: Effect::Damage(Box::new(EffectDamage { value: Fixed::from_int(1) })),
        otherwise: Effect::Noop,
    }));
    let on_cell =
        EffectContext { caster: None, target: Some(EffectTarget::Position(IVec2::new(2, 1))) };
    assert_eq!(effect.clone().apply(&mut w, on_cell), Ok(()));
    assert_eq!(hp(&w, ENEMY), 2_000_000);
    assert!(w.particles.is_empty());
    let on_unit = EffectContext { caster: None, target: Some(EffectTarget::Unit(ENEMY)) };
    assert_eq!(effect.apply(&mut w, on_unit), Ok(()));
    assert_eq!(hp(&w, ENEMY), 1_000_000);
    let branch = EffectIf {
        condition: Condition::TargetIsUnit,
        then_effect: Effect::Noop,
        otherwise: Effect::Particles(Box::new(EffectParticles {
            pos: IVec2::new(1, 1),
            color: Color::blue(),
        })),
    };
    assert_eq!(branch.apply(&mut w, on_cell), Ok(()));
    assert_eq!(w.particles.len(), 10);
}

#[test]
fn particles_effect_never_fails() {
    let mut w = world();
    let effect = EffectParticles { pos: IVec2::new(4, 4), color: Color::blue() };
    assert_eq!(effect.apply(&mut w, EffectContext { caster: None, target: None }), Ok(()));
    assert_eq!(w.particles.len(), 5);
    assert_eq!(w.particles[0].position, fv(4_000_000, 4_000_000));
    assert_eq!(Effect::Noop.apply(&mut w, EffectContext { caster: None, target: None }), Ok(()));
    assert_eq!(w.particles.len(), 5);
}

fn arrow(speed: i64) -> EffectProjectile {
    EffectProjectile {
        projectile: ProjectilePrefab {
            target_filter: FractionFilter::Enemy,
            on_contact: Effect::Damage(Box::new(EffectDamage { value: Fixed::from_int(1) })),
        },
        speed: Fixed::from_int(speed),
    }
}

#[test]
fn projectile_effect_launches_toward_the_target() {
    let mut w = quiet_world(IVec2::new(3, 4));
    let context = EffectContext {
        caster: Some(Caster { unit: PLAYER }),
        target: Some(EffectTarget::Unit(ENEMY)),
    };
    assert_eq!(arrow(5).apply(&mut w, context), Ok(()));
    let p = w.projectiles.get(Id(0)).unwrap();
    assert_eq!(p.world_position, fv(0, 0));
    assert_eq!(p.velocity, fv(3_000_000, 4_000_000));
    assert_eq!(p.caster, Some(Caster { unit: PLAYER }));
    assert_eq!(p.fraction, Fraction::Player);
    assert_eq!(p.target, EffectTarget::Unit(ENEMY));
    assert_eq!(p.target_filter, FractionFilter::Enemy);
}

#[test]
fn projectile_effect_errors() {
    let mut w = quiet_world(IVec2::new(3, 4));
    let no_caster = EffectContext { caster: None, target: Some(EffectTarget::Unit(ENEMY)) };
    assert_eq!(arrow(5).apply(&mut w, no_caster), Err(SystemError::Context(ContextError::NoCaster)));
    let no_target = EffectContext { caster: Some(Caster { unit: PLAYER }), target: None };
    assert_eq!(arrow(5).apply(&mut w, no_target), Err(SystemError::Context(ContextError::NoTarget)));
    let gone = EffectContext {
        caster: Some(Caster { unit: Id(9) }),
        target: Some(EffectTarget::Unit(ENEMY)),
    };
    assert_eq!(
        arrow(5).apply(&mut w, gone),
        Err(SystemError::Component(ComponentError::NotFound {
            id: Id(9),
            component: "WorldPosition"
        }))
    );
    assert!(w.projectiles.is_empty());
}

#[test]
fn slide_moves_to_a_free_cell() {
    let mut w = world();
    assert_eq!(Logic::unit_slide(&mut w, PLAYER, MoveSlide { delta: IVec2::new(0, 1) }), Ok(()));
    assert_eq!(w.units.grid_position.get(PLAYER), Ok(&IVec2::new(0, 1)));
    assert!(w.particles.is_empty());
    // a slide by nothing stands still
    assert_eq!(Logic::unit_slide(&mut w, PLAYER, MoveSlide { delta: IVec2::new(0, 0) }), Ok(()));
    assert_eq!(w.units.grid_position.get(PLAYER), Ok(&IVec2::new(0, 1)));
    assert_eq!(hp(&w, PLAYER), 10_000_000);
}

#[test]
fn slide_into_a_unit_hurts_both() {
    let mut w = world();
    w.units.grid_position.update(ENEMY, IVec2::new(1, 0)).unwrap();
    assert_eq!(Logic::unit_move(&mut w, PLAYER, ActionMove::Slide(MoveSlide { delta: IVec2::new(1, 0) })), Ok(()));
    assert_eq!(w.units.grid_position.get(PLAYER), Ok(&IVec2::new(0, 0)));
    assert_eq!(w.units.grid_position.get(ENEMY), Ok(&IVec2::new(1, 0)));
    assert_eq!(hp(&w, PLAYER), 9_000_000);
    assert_eq!(hp(&w, ENEMY), 1_000_000);
    // two white bursts, and no blue one since nobody moved
    assert_eq!(w.particles.len(), 10);
    assert!(w.particles.iter().all(|p| p.color == Color::white()));
    assert_eq!(Logic::contact_damage(&mut w, PLAYER, ENEMY), Ok(()));
    assert_eq!(hp(&w, PLAYER), 8_000_000);
    assert!(!w.units.ids().contains(ENEMY));
}

#[test]
fn move_leaves_blue_particles_behind() {
    let mut w = world();
    assert_eq!(Logic::unit_action(&mut w, PLAYER, slide(-1, -1), at(0, 0)), Ok(()));
    assert_eq!(w.units.grid_position.get(PLAYER), Ok(&IVec2::new(-1, -1)));
    assert_eq!(w.particles.len(), 5);
    assert!(w.particles.iter().all(|p| p.color == Color::blue() && p.position == fv(0, 0)));
}

#[test]
fn unit_errors() {
    let mut w = world();
    let missing = |component| {
        Err(SystemError::Component(ComponentError::NotFound { id: Id(9), component }))
    };
    assert_eq!(Logic::unit_damage(&mut w, Id(9), Fixed::one()), missing("GridPosition"));
    assert_eq!(Logic::unit_slide(&mut w, Id(9), MoveSlide { delta: IVec2::new(1, 0) }), missing("GridPosition"));
    assert_eq!(Logic::unit_use_item(&mut w, Id(9), ActionUseItem { item: HandId::LeftHand }, at(0, 0)), missing("HeldItems"));
    w.units.health.remove(ENEMY).unwrap();
    assert_eq!(
        Logic::unit_damage(&mut w, ENEMY, Fixed::one()),
        Err(SystemError::Component(ComponentError::NotFound { id: ENEMY, component: "Health" }))
    );
}

#[test]
fn empty_hand_does_nothing() {
    let mut w = world();
    assert_eq!(Logic::unit_use_item(&mut w, ENEMY, ActionUseItem { item: HandId::LeftHand }, at(0, 0)), Ok(()));
    assert!(w.particles.is_empty());
    assert_eq!(hp(&w, PLAYER), 10_000_000);
}

#[test]
fn scenario_melee_resolution() {
    let mut w = world();
    w.units.grid_position.update(ENEMY, IVec2::new(1, 0)).unwrap();
    let hands = HeldItems { left_hand: None, right_hand: Some(Item::sword(Fixed::from_int(1))) };
    w.units.held_items.update(PLAYER, hands).unwrap();

    let action = use_item(HandId::RightHand);
    assert!(action.is_supported());
    let (_, outcome) = w.player_action(action, at(1, 0));
    assert_eq!(outcome, Ok(()));
    assert_eq!(hp(&w, ENEMY), 1_000_000);
    assert_eq!(hp(&w, PLAYER), 10_000_000);
    assert!(w.units.ids().contains(ENEMY));

    let (_, outcome) = w.player_action(action, at(1, 0));
    assert_eq!(outcome, Ok(()));
    assert!(!w.units.ids().contains(ENEMY));
    assert!(!w.units.unit.contains(ENEMY));
    assert!(!w.units.fraction.contains(ENEMY));
    assert!(!w.units.grid_position.contains(ENEMY));
    assert!(!w.units.world_position.contains(ENEMY));
    assert!(!w.units.health.contains(ENEMY));
    assert!(!w.units.held_items.contains(ENEMY));
    assert_eq!(w.units.ids().ids(), vec![PLAYER]);

    // a third strike finds the cell empty: a miss, and no error
    let particles = w.particles.len();
    let (_, outcome) = w.player_action(action, at(1, 0));
    assert_eq!(outcome, Ok(()));
    assert_eq!(w.particles.len(), particles + 5);
    assert_eq!(hp(&w, PLAYER), 10_000_000);
}

#[test]
fn scenario_projectile_that_stands_still() {
    let mut w = quiet_world(IVec2::new(2, 1));
    // the player shoots at its own cell: the projectile has nowhere to go
    let (_, outcome) = w.player_action(use_item(HandId::LeftHand), at(0, 0));
    assert_eq!(outcome, Ok(()));
    assert_eq!(w.projectiles.ids(), vec![Id(0)]);
    assert_eq!(w.projectiles.get(Id(0)).unwrap().velocity, FVec2::zero());

    for _ in 0..20 {
        let (_, outcome) = w.update(Fixed::from_raw(100_000));
        assert_eq!(outcome, Ok(()));
        assert_eq!(w.projectiles.ids(), vec![Id(0)]);
        assert_eq!(w.projectiles.get(Id(0)).unwrap().world_position, FVec2::zero());
        assert!(w.particles.is_empty());
        assert_eq!(hp(&w, ENEMY), 2_000_000);
    }

    // an enemy walks into it: the touch alone sets the effect off
    w.units.grid_position.update(ENEMY, IVec2::new(0, 0)).unwrap();
    let (_, outcome) = w.update(Fixed::from_raw(100_000));
    assert_eq!(outcome, Ok(()));
    let (_, outcome) = w.update(Fixed::from_raw(100_000));
    assert_eq!(outcome, Ok(()));
    assert!(w.projectiles.is_empty());
    assert_eq!(hp(&w, ENEMY), 1_000_000);
    assert_eq!(hp(&w, PLAYER), 10_000_000);
}

#[test]
fn scenario_projectile_hits_once() {
    let mut w = quiet_world(IVec2::new(2, 0));
    let (_, outcome) =
        w.player_action(use_item(HandId::LeftHand), ActionInput { target: EffectTarget::Unit(ENEMY) });
    assert_eq!(outcome, Ok(()));
    assert_eq!(w.projectiles.get(Id(0)).unwrap().velocity, fv(3_000_000, 0));

    for frame in 1..=5 {
        let (_, outcome) = w.update(Fixed::from_raw(100_000));
        assert_eq!(outcome, Ok(()));
        assert_eq!(w.projectiles.get(Id(0)).unwrap().world_position, fv(300_000 * frame, 0));
        assert_eq!(hp(&w, ENEMY), 2_000_000);
    }
    // 1.8 from the start, 0.2 from the enemy: contact
    let (_, outcome) = w.update(Fixed::from_raw(100_000));
    assert_eq!(outcome, Ok(()));
    assert!(w.projectiles.is_empty());
    assert_eq!(hp(&w, ENEMY), 1_000_000);

    for _ in 0..10 {
        let (_, outcome) = w.update(Fixed::from_raw(100_000));
        assert_eq!(outcome, Ok(()));
        assert_eq!(hp(&w, ENEMY), 1_000_000);
        assert!(w.projectiles.is_empty());
    }
}

#[test]
fn projectile_that_reaches_its_cell_lands() {
    let mut w = quiet_world(IVec2::new(4, 4));
    // shot at an empty cell one step to the right
    let (_, outcome) = w.player_action(use_item(HandId::LeftHand), at(1, 0));
    assert_eq!(outcome, Ok(()));
    for _ in 0..3 {
        let (_, outcome) = w.update(Fixed::from_raw(100_000));
        assert_eq!(outcome, Ok(()));
    }
    // at 0.9 after the third frame: nearer than 0.1 to the cell only in the fourth
    assert_eq!(w.projectiles.ids(), vec![Id(0)]);
    assert!(w.particles.is_empty());
    let (_, outcome) = w.update(Fixed::from_raw(100_000));
    assert_eq!(outcome, Ok(()));
    assert!(w.projectiles.is_empty());
    assert_eq!(w.particles.len(), 5);
    assert!(w.particles.iter().all(|p| p.color == Color::grey()));
    assert_eq!(hp(&w, ENEMY), 2_000_000);
}

#[test]
fn particles_fly_and_expire() {
    let mut w = quiet_world(IVec2::new(4, 4));
    assert_eq!(w.spawn_particles_world(fv(0, 0), Color::white()), Ok(()));
    let (_, outcome) = w.update(Fixed::from_raw(100_000));
    assert_eq!(outcome, Ok(()));
    assert_eq!(w.particles.len(), 5);
    assert_eq!(w.particles[0].position, fv(150_000, 0));
    assert_eq!(w.particles[0].lifetime.get().raw, 200_000);
    let (_, outcome) = w.update(Fixed::from_raw(100_000));
    assert_eq!(outcome, Ok(()));
    assert_eq!(w.particles[0].position, fv(300_000, 0));
    // the third tenth of a second uses the lifetime up
    let (_, outcome) = w.update(Fixed::from_raw(100_000));
    assert_eq!(outcome, Ok(()));
    assert!(w.particles.is_empty());
}

#[test]
fn units_are_placed_where_their_cells_lie() {
    let mut w = world();
    assert_eq!(w.units.world_position.get(ENEMY), Ok(&fv(0, 0)));
    let mut logic = Logic::new(Fixed::zero());
    assert_eq!(logic.process_units_pos(&mut w), Ok(()));
    assert_eq!(w.units.world_position.get(ENEMY), Ok(&fv(2_000_000, 1_000_000)));
    assert_eq!(w.units.world_position.get(PLAYER), Ok(&fv(0, 0)));
}

fn independent(w: &mut World, bpm: u32, next_beat: i64) {
    let behaviour = enemy_behaviour(w);
    let ai = UnitAI {
        beat: UnitBeat::Independent { bpm },
        next_beat: Fixed::from_raw(next_beat),
        behaviour,
    };
    w.units.unit.update(ENEMY, ai).unwrap();
}

#[test]
fn unit_acts_when_its_countdown_crosses_zero() {
    let mut w = world();
    // 60 beats a minute: a beat a second
    independent(&mut w, 60, 300_000);
    let (_, outcome) = w.update(Fixed::from_raw(200_000));
    assert_eq!(outcome, Ok(()));
    assert_eq!(w.units.unit.get(ENEMY).unwrap().next_beat.raw, 100_000);
    assert_eq!(w.units.grid_position.get(ENEMY), Ok(&IVec2::new(2, 1)));
    let (_, outcome) = w.update(Fixed::from_raw(200_000));
    assert_eq!(outcome, Ok(()));
    // crossed: the unit steps toward the player, and the countdown starts anew
    assert_eq!(w.units.unit.get(ENEMY).unwrap().next_beat.raw, 900_000);
    assert_eq!(w.units.grid_position.get(ENEMY), Ok(&IVec2::new(1, 0)));
    // blue particles where it was; they have not flown yet
    assert_eq!(w.particles.len(), 5);
    assert!(w.particles.iter().all(|p| p.color == Color::blue()));
}

#[test]
fn unit_next_to_the_player_strikes() {
    let mut w = world();
    w.units.grid_position.update(ENEMY, IVec2::new(1, 1)).unwrap();
    independent(&mut w, 60, 100_000);
    let (_, outcome) = w.update(Fixed::from_raw(200_000));
    assert_eq!(outcome, Ok(()));
    assert_eq!(hp(&w, PLAYER), 9_000_000);
    assert_eq!(w.units.grid_position.get(ENEMY), Ok(&IVec2::new(1, 1)));
}

#[test]
fn synchronized_unit_waits_for_the_player() {
    let mut w = world();
    // 30 beats a minute: after two seconds a whole beat has passed since the player's
    let (_, outcome) = w.update(Fixed::from_int(2));
    assert_eq!(outcome, Ok(()));
    assert_eq!(w.player_beat_time, Fixed::one());
    let waiting = w.units.unit.get(ENEMY).unwrap().next_beat;
    for _ in 0..5 {
        let (_, outcome) = w.update(Fixed::from_int(1));
        assert_eq!(outcome, Ok(()));
        assert_eq!(w.units.unit.get(ENEMY).unwrap().next_beat, waiting);
        assert_eq!(w.units.grid_position.get(ENEMY), Ok(&IVec2::new(2, 1)));
    }
}

#[test]
fn player_action_counts_the_beat_for_synchronized_units() {
    let mut w = world();
    let (_, outcome) = w.update(Fixed::from_raw(500_000));
    assert_eq!(outcome, Ok(()));
    assert!(w.player_beat_time.raw > 0);
    let (_, outcome) = w.player_action(slide(0, -1), at(0, 0));
    assert_eq!(outcome, Ok(()));
    assert_eq!(w.player_beat_time, Fixed::zero());
    assert_eq!(w.units.grid_position.get(PLAYER), Ok(&IVec2::new(0, -1)));
    let ai = w.units.unit.get(ENEMY).unwrap();
    assert_eq!(ai.beat, UnitBeat::Synchronized { unit: 1, player: 2, current_beat: 1 });
    assert!(ai.next_beat.raw > 0);
    let (_, outcome) = w.player_action(slide(0, -1), at(0, 0));
    assert_eq!(outcome, Ok(()));
    let ai = w.units.unit.get(ENEMY).unwrap();
    // the count has come round: the unit is due at once
    assert_eq!(ai.beat, UnitBeat::Synchronized { unit: 1, player: 2, current_beat: 0 });
    assert_eq!(ai.next_beat, Fixed::zero());
}

#[test]
fn player_action_fails_for_a_player_without_a_unit() {
    let mut w = world();
    w.units.remove(PLAYER);
    let (_, outcome) = w.player_action(slide(1, 0), at(0, 0));
    assert_eq!(
        outcome,
        Err(SystemError::Component(ComponentError::NotFound {
            id: PLAYER,
            component: "GridPosition"
        }))
    );
}

#[test]
fn effect_queue_is_drained_even_after_a_failure() {
    let mut w = world();
    let mut logic = Logic::new(Fixed::zero());
    logic.queued_effects.push_back(QueuedEffect {
        effect: Effect::Damage(Box::new(EffectDamage { value: Fixed::one() })),
        context: EffectContext { caster: None, target: None },
    });
    logic.queued_effects.push_back(QueuedEffect {
        effect: Effect::Damage(Box::new(EffectDamage { value: Fixed::one() })),
        context: EffectContext { caster: None, target: Some(EffectTarget::Unit(ENEMY)) },
    });
    logic.queued_effects.push_back(QueuedEffect {
        effect: Effect::Projectile(Box::new(arrow(1))),
        context: EffectContext { caster: None, target: Some(EffectTarget::Unit(ENEMY)) },
    });
    let outcome = logic.process_effects(&mut w);
    // the first failure is reported, and the effects after it are applied
    assert_eq!(outcome, Err(SystemError::Context(ContextError::NoTarget)));
    assert!(logic.queued_effects.is_empty());
    assert_eq!(hp(&w, ENEMY), 1_000_000);
}

#[test]
fn pass_leaves_no_effect_waiting() {
    let mut w = quiet_world(IVec2::new(0, 0));
    let context = EffectContext {
        caster: Some(Caster { unit: PLAYER }),
        target: Some(EffectTarget::Position(IVec2::new(0, 0))),
    };
    assert_eq!(arrow(0).apply(&mut w, context), Ok(()));
    let mut logic = Logic::new(Fixed::from_raw(10_000));
    logic.queued_effects.push_back(QueuedEffect {
        effect: Effect::Particles(Box::new(EffectParticles {
            pos: IVec2::new(1, 1),
            color: Color::blue(),
        })),
        context: EffectContext { caster: None, target: None },
    });
    assert_eq!(logic.process(&mut w), Ok(()));
    assert!(logic.queued_effects.is_empty());
    // the projectile touched the enemy on the player's cell, and its damage was done
    assert!(w.projectiles.is_empty());
    assert_eq!(hp(&w, ENEMY), 1_000_000);
    assert_eq!(w.particles.len(), 10);
}

#[test]
fn hit_unit_is_the_first_in_reach_that_passes_the_filter() {
    let mut w = quiet_world(IVec2::new(0, 0));
    let ally = w.units.insert(plain_unit(Fraction::Player, 0, 0)).unwrap();
    let foe = w.units.insert(plain_unit(Fraction::Enemy, 0, 0)).unwrap();
    let mut logic = Logic::new(Fixed::zero());
    assert_eq!(logic.process_units_pos(&mut w), Ok(()));
    let prefab = ProjectilePrefab { target_filter: FractionFilter::Enemy, on_contact: Effect::Noop };
    let inst = ProjectileInst {
        world_position: fv(400_000, 0),
        velocity: FVec2::zero(),
        caster: None,
        fraction: Fraction::Player,
        target: EffectTarget::Position(IVec2::new(9, 9)),
    };
    let projectile = prefab.instantiate(inst);
    assert_eq!(Logic::hit_unit(&w, &projectile), Some(ENEMY));
    w.units.remove(ENEMY);
    assert_eq!(Logic::hit_unit(&w, &projectile), Some(foe));
    w.units.remove(foe);
    assert_eq!(Logic::hit_unit(&w, &projectile), None);
    assert!(w.units.ids().contains(ally));
}

#[test]
fn update_advances_the_tempo_and_the_music() {
    let mut w = world();
    let (notes, outcome) = w.update(Fixed::from_int(1));
    assert_eq!(outcome, Ok(()));
    assert!(notes.is_empty());
    // 30 beats a minute, four ticks a beat: a second is two ticks' time, of which the
    // first brings the countdown from one to zero
    assert_eq!(w.beat_controller.get_tick(), 1);
    assert_eq!(w.player_beat_time.raw, 500_000);
}

#[test]
fn unit_that_cannot_decide_fails_the_pass() {
    let mut w = world();
    let ai = UnitAI {
        beat: UnitBeat::Independent { bpm: 60 },
        next_beat: Fixed::from_raw(100_000),
        behaviour: UnitBehaviour::MoveToTarget,
    };
    w.units.unit.update(ENEMY, ai).unwrap();
    assert_eq!(w.spawn_particles_world(fv(0, 0), Color::white()), Ok(()));
    let (_, outcome) = w.update(Fixed::from_raw(200_000));
    assert_eq!(
        outcome,
        Err(SystemError::Behaviour(BehaviourError::Context(BehaviourContextError::NoTarget)))
    );
    // the countdown has run, and the particles have not flown
    assert_eq!(w.units.unit.get(ENEMY).unwrap().next_beat.raw, 900_000);
    assert_eq!(w.particles.len(), 5);
    assert_eq!(w.particles[0].position, fv(0, 0));
    assert_eq!(w.particles[0].lifetime.get().raw, 300_000);
}

#[test]
fn unit_kills_a_weak_neighbour() {
    let mut w = world();
    // the only unit of the player's side stands next to the enemy
    let ally = w.units.insert(plain_unit(Fraction::Player, 2, 2)).unwrap();
    w.units.remove(PLAYER);
    independent(&mut w, 60, 100_000);
    let weak = Health::new(Fixed::from_int(1));
    w.units.health.update(ally, weak).unwrap();
    let (_, outcome) = w.update(Fixed::from_raw(200_000));
    assert_eq!(outcome, Ok(()));
    // the ally was in range and took the sword's one hit point
    assert!(!w.units.ids().contains(ally));
    assert_eq!(w.units.ids().ids(), vec![ENEMY]);
}
