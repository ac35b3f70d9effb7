use vstd::prelude::*;
use vstd::string::*;
use crate::beat_controller::{ticks_fixed, BeatController, BeatControllerConfig, BeatState};
use crate::collection::{Collection, CollectionView};
use crate::component::{ids_of, lists, looked_up, ComponentError, ComponentResult};
use crate::config::{MusicConfig, Ticks};
use crate::context::{ContextError, ContextResult};
use crate::entity::{
    Entities, EntitiesView, NAME_FRACTION, NAME_GRID_POSITION, NAME_HEALTH, NAME_HELD_ITEMS,
    NAME_PROJECTILE, NAME_UNIT, NAME_WORLD_POSITION,
};
use crate::fixed::{Fixed, SCALE};
use crate::grid::Grid;
use crate::health::Health;
use crate::id::Id;
use crate::item::{HandId, HeldItems, Item};
use crate::music_controller::{spec_tick_time, MusicController, MusicState};
use crate::player::Player;
use crate::projectile::Projectile;
use crate::target::{FractionFilter, TargetFilter, TargetFitness, TargetSelector};
use crate::unit::{
    BehaviourCondition, BehaviourError, Unit, UnitAI, UnitBeat, UnitBehaviour, UnitId,
};
use crate::vec2::{FCoord, FVec2, IVec2};

verus! {

/// A time in seconds, or a part of a beat.
pub type Time = Fixed;

/// A colour with its red, green, blue and alpha parts between 0 and 1.
#[derive(Debug, Clone, Copy, PartialEq, Eq, Structural)]
pub struct Color {
    pub r: Fixed,
    pub g: Fixed,
    pub b: Fixed,
    pub a: Fixed,
}

pub type SystemResult<T> = Result<T, SystemError>;

#[derive(Debug, Clone, Copy, PartialEq, Eq)]
pub enum SystemError {
    Component(ComponentError),
    Context(ContextError),
    Behaviour(BehaviourError),
}

/// A speck that flies for a short time and does nothing else.
#[derive(Debug, Clone, Copy, PartialEq, Eq, Structural)]
pub struct Particle {
    pub position: FVec2,
    pub velocity: FVec2,
    /// The time left, which runs down as health does.
    pub lifetime: Health,
    /// Diameter.
    pub size: FCoord,
    pub color: Color,
}

#[derive(Debug, Clone, Copy, PartialEq, Eq, Structural)]
pub enum Fraction {
    Player,
    Enemy,
}

/// The number of particles in a burst.
pub const BURST_AMOUNT: usize = 5;

/// The speed of the particles of a burst, in cells per second: 1.5.
pub const BURST_SPEED: i64 = 1_500_000;

/// The lifetime of the particles of a burst, in seconds: 0.3.
pub const BURST_LIFETIME: i64 = 300_000;

/// The diameter of the particles of a burst, in cells: 0.3.
pub const BURST_SIZE: i64 = 300_000;

pub struct World {
    pub grid: Grid,
    pub player: Player,
    pub beat_controller: BeatController,
    pub music_controller: MusicController,
    /// Normalized (in range 0..1) time since the last player's beat.
    pub player_beat_time: Time,
    pub units: Entities,
    pub projectiles: Collection<Projectile>,
    pub particles: Vec<Particle>,
}

/// What a [`World`] holds, but for the music.
pub struct WorldView {
    pub grid: Grid,
    pub player: Player,
    pub beat: BeatState,
    pub player_beat_time: Time,
    pub units: EntitiesView,
    pub projectiles: CollectionView<Projectile>,
    pub particles: Seq<Particle>,
}

impl SystemError {
    /// The error in words.
    pub open spec fn spec_message(&self) -> Seq<char> {
        match self {
            SystemError::Component(error) => "Component error: "@ + error.spec_message(),
            SystemError::Context(ContextError::NoCaster) => "Context error: "@
                + "Caster expected but not found in effect context"@,
            SystemError::Context(ContextError::NoTarget) => "Context error: "@
                + "Target expected but not found in effect context"@,
            SystemError::Behaviour(error) => "Behaviour error: "@ + error.spec_message(),
        }
    }

    /// The error in words.
    pub fn message(&self) -> (r: String)
        ensures
            r@ == self.spec_message(),
    {
        match self {
            SystemError::Component(error) => {
                let mut text = String::from_str("Component error: ");
                let inner = error.message();
                text.append(inner.as_str());
                text
            },
            SystemError::Context(error) => {
                let mut text = String::from_str("Context error: ");
                text.append(error.message());
                text
            },
            SystemError::Behaviour(error) => {
                let mut text = String::from_str("Behaviour error: ");
                let inner = error.message();
                text.append(inner.as_str());
                text
            },
        }
    }
}

impl Color {
    pub open spec fn spec_opaque(r: Fixed, g: Fixed, b: Fixed) -> Color {
        Color { r, g, b, a: Fixed { raw: SCALE } }
    }

    pub open spec fn spec_white() -> Color {
        Color::spec_opaque(Fixed { raw: SCALE }, Fixed { raw: SCALE }, Fixed { raw: SCALE })
    }

    pub open spec fn spec_blue() -> Color {
        Color::spec_opaque(Fixed { raw: 0 }, Fixed { raw: 0 }, Fixed { raw: SCALE })
    }

    /// The grey of a spent projectile: 0.4 of each colour.
    pub open spec fn spec_grey() -> Color {
        Color::spec_opaque(Fixed { raw: 400_000 }, Fixed { raw: 400_000 }, Fixed { raw: 400_000 })
    }

    pub fn opaque(r: Fixed, g: Fixed, b: Fixed) -> (c: Color)
        ensures
            c == Color::spec_opaque(r, g, b),
    {
        Color { r, g, b, a: Fixed::one() }
    }

    pub fn white() -> (c: Color)
        ensures
            c == Color::spec_white(),
    {
        Color::opaque(Fixed::one(), Fixed::one(), Fixed::one())
    }

    pub fn blue() -> (c: Color)
        ensures
            c == Color::spec_blue(),
    {
        Color::opaque(Fixed::zero(), Fixed::zero(), Fixed::one())
    }

    pub fn grey() -> (c: Color)
        ensures
            c == Color::spec_grey(),
    {
        Color::opaque(Fixed::from_raw(400_000), Fixed::from_raw(400_000), Fixed::from_raw(400_000))
    }
}

/// The direction of the `i`-th of the five particles of a burst: the cosine and the sine
/// of `i` fifths of a turn, in millionths.
pub open spec fn spec_burst_direction(i: int) -> FVec2 {
    if i == 0 {
        FVec2 { x: Fixed { raw: 1_000_000 }, y: Fixed { raw: 0 } }
    } else if i == 1 {
        FVec2 { x: Fixed { raw: 309_017 }, y: Fixed { raw: 951_057 } }
    } else if i == 2 {
        FVec2 { x: Fixed { raw: -809_017i64 }, y: Fixed { raw: 587_785 } }
    } else if i == 3 {
        FVec2 { x: Fixed { raw: -809_017i64 }, y: Fixed { raw: -587_785i64 } }
    } else {
        FVec2 { x: Fixed { raw: 309_017 }, y: Fixed { raw: -951_057i64 } }
    }
}

/// The `i`-th particle of a burst at `position`.
pub open spec fn spec_burst_particle(position: FVec2, color: Color, i: int) -> Particle {
    Particle {
        position,
        velocity: spec_burst_direction(i).spec_scale(Fixed { raw: BURST_SPEED }),
        lifetime: Health::of(Fixed { raw: BURST_LIFETIME }, Fixed { raw: BURST_LIFETIME }),
        size: Fixed { raw: BURST_SIZE },
        color,
    }
}

/// The five particles of a burst at `position`.
pub open spec fn spec_burst(position: FVec2, color: Color) -> Seq<Particle> {
    Seq::new(BURST_AMOUNT as nat, |i: int| spec_burst_particle(position, color, i))
}

/// The first of the ids from place `from` on whose cell is `pos`.
pub open spec fn first_at(ids: Seq<Id>, positions: Map<Id, IVec2>, pos: IVec2, from: int) -> Option<
    Id,
>
    decreases ids.len() - from,
{
    if from < 0 || from >= ids.len() {
        None
    } else if positions[ids[from]] == pos {
        Some(ids[from])
    } else {
        first_at(ids, positions, pos, from + 1)
    }
}

fn burst_direction(i: usize) -> (r: FVec2)
    ensures
        r == spec_burst_direction(i as int),
{
    if i == 0 {
        FVec2::new(Fixed::from_raw(1_000_000), Fixed::from_raw(0))
    } else if i == 1 {
        FVec2::new(Fixed::from_raw(309_017), Fixed::from_raw(951_057))
    } else if i == 2 {
        FVec2::new(Fixed::from_raw(-809_017), Fixed::from_raw(587_785))
    } else if i == 3 {
        FVec2::new(Fixed::from_raw(-809_017), Fixed::from_raw(-587_785))
    } else {
        FVec2::new(Fixed::from_raw(309_017), Fixed::from_raw(-951_057))
    }
}

impl WorldView {
    pub open spec fn grid_position(self, id: Id) -> ComponentResult<IVec2> {
        looked_up(self.units.grid_position, NAME_GRID_POSITION, id)
    }

    pub open spec fn world_position(self, id: Id) -> ComponentResult<FVec2> {
        looked_up(self.units.world_position, NAME_WORLD_POSITION, id)
    }

    pub open spec fn health(self, id: Id) -> ComponentResult<Health> {
        looked_up(self.units.health, NAME_HEALTH, id)
    }

    pub open spec fn fraction(self, id: Id) -> ComponentResult<Fraction> {
        looked_up(self.units.fraction, NAME_FRACTION, id)
    }

    pub open spec fn held_items(self, id: Id) -> ComponentResult<HeldItems> {
        looked_up(self.units.held_items, NAME_HELD_ITEMS, id)
    }

    pub open spec fn unit_ai(self, id: Id) -> ComponentResult<UnitAI> {
        looked_up(self.units.unit, NAME_UNIT, id)
    }

    pub open spec fn projectile(self, id: Id) -> ComponentResult<Projectile> {
        looked_up(self.projectiles.items, NAME_PROJECTILE, id)
    }

    /// The first unit, in the order of the ids, whose cell is `target_pos`.
    pub open spec fn get_unit_at(self, target_pos: IVec2) -> ContextResult<UnitId> {
        match first_at(
            ids_of(self.units.grid_position.dom()),
            self.units.grid_position,
            target_pos,
            0,
        ) {
            Some(id) => Ok(id),
            None => Err(ContextError::NoTarget),
        }
    }

    /// The world with a burst of particles added at a point of the world.
    pub open spec fn spawn_particles_world(self, position: FVec2, color: Color) -> WorldView {
        WorldView { particles: self.particles + spec_burst(position, color), ..self }
    }

    /// The world with a burst of particles added at a cell.
    pub open spec fn spawn_particles(self, pos: IVec2, color: Color) -> WorldView {
        self.spawn_particles_world(self.grid.spec_grid_to_world(pos), color)
    }

    /// The world without the unit.
    pub open spec fn remove_unit(self, id: Id) -> WorldView {
        WorldView { units: self.units.remove(id), ..self }
    }

    pub open spec fn with_health(self, id: Id, health: Health) -> WorldView {
        WorldView {
            units: EntitiesView { health: self.units.health.insert(id, health), ..self.units },
            ..self
        }
    }

    pub open spec fn with_grid_position(self, id: Id, pos: IVec2) -> WorldView {
        WorldView {
            units: EntitiesView {
                grid_position: self.units.grid_position.insert(id, pos),
                ..self.units
            },
            ..self
        }
    }

    pub open spec fn with_world_position(self, id: Id, pos: FVec2) -> WorldView {
        WorldView {
            units: EntitiesView {
                world_position: self.units.world_position.insert(id, pos),
                ..self.units
            },
            ..self
        }
    }

    pub open spec fn with_unit_ai(self, id: Id, ai: UnitAI) -> WorldView {
        WorldView {
            units: EntitiesView { unit: self.units.unit.insert(id, ai), ..self.units },
            ..self
        }
    }
}

impl WorldView {
    /// The player's unit at the start: ten hit points, a bow and a sword.
    pub open spec fn player_unit() -> Unit {
        Unit {
            grid_position: IVec2 { x: 0, y: 0 },
            world_position: FVec2::spec_zero(),
            unit: None,
            health: Health::of(Fixed { raw: 10_000_000 }, Fixed { raw: 10_000_000 }),
            fraction: Fraction::Player,
            held_items: HeldItems {
                left_hand: Some(Item::spec_bow(Fixed { raw: 1_000_000 }, Fixed { raw: 3_000_000 })),
                right_hand: Some(Item::spec_sword(Fixed { raw: 2_000_000 })),
            },
        }
    }

    /// The enemy at the start: two hit points and a sword; on every second beat of the
    /// player it strikes the nearest enemy of its own if that is next to it, and else
    /// moves toward it.
    pub open spec fn enemy_unit() -> Unit {
        Unit {
            unit: Some(
                UnitAI {
                    beat: UnitBeat::Synchronized { unit: 1, player: 2, current_beat: 0 },
                    next_beat: Fixed { raw: SCALE },
                    behaviour: UnitBehaviour::SelectTarget {
                        selector: TargetSelector {
                            filter: TargetFilter::Fraction(FractionFilter::Enemy),
                            fitness: TargetFitness::Negative(Box::new(TargetFitness::Distance)),
                        },
                        then_behave: Box::new(
                            UnitBehaviour::If {
                                condition: BehaviourCondition::TargetInRange { distance: 1 },
                                then_behave: Box::new(
                                    UnitBehaviour::UseItemOnTarget { item: HandId::RightHand },
                                ),
                                else_behave: Box::new(UnitBehaviour::MoveToTarget),
                            },
                        ),
                    },
                },
            ),
            fraction: Fraction::Enemy,
            grid_position: IVec2 { x: 2, y: 1 },
            world_position: FVec2::spec_zero(),
            health: Health::of(Fixed { raw: 2_000_000 }, Fixed { raw: 2_000_000 }),
            held_items: HeldItems {
                left_hand: None,
                right_hand: Some(Item::spec_sword(Fixed { raw: 1_000_000 })),
            },
        }
    }

    /// The tempo settings of a new world.
    pub open spec fn beat_config(ticks_per_beat: Ticks) -> BeatControllerConfig {
        BeatControllerConfig {
            bpm_min: 30,
            bpm_max: 240,
            ticks_per_beat,
            miss_time_early: Fixed { raw: 100_000 },
            miss_time_late: Fixed { raw: 200_000 },
        }
    }

    /// The world at the start: the player's unit and one enemy.
    pub open spec fn initial(ticks_per_beat: Ticks) -> WorldView {
        WorldView {
            grid: Grid {
                cell_size: FVec2 { x: Fixed { raw: SCALE }, y: Fixed { raw: SCALE } },
                offset: FVec2::spec_zero(),
            },
            player: Player { unit: Id(0) },
            beat: BeatState::initial(WorldView::beat_config(ticks_per_beat)),
            player_beat_time: Fixed { raw: 0 },
            units: EntitiesView::empty().insert(WorldView::player_unit()).0.insert(
                WorldView::enemy_unit(),
            ).0,
            projectiles: CollectionView { next_id: 0, items: Map::empty() },
            particles: Seq::empty(),
        }
    }
}

impl View for World {
    type V = WorldView;

    open spec fn view(&self) -> WorldView {
        WorldView {
            grid: self.grid,
            player: self.player,
            beat: self.beat_controller@,
            player_beat_time: self.player_beat_time,
            units: self.units@,
            projectiles: self.projectiles@,
            particles: self.particles@,
        }
    }
}

impl World {
    /// The stores report errors under their names, the ids that the units and the
    /// projectiles will get next are free, and the two controllers are in order.
    pub open spec fn wf(&self) -> bool {
        &&& self.units.wf()
        &&& self.projectiles.name() == NAME_PROJECTILE
        &&& self.projectiles@.wf()
        &&& self.beat_controller@.wf()
        &&& self.music_controller@.wf()
    }

    /// A world with the player's unit and one enemy, and the music that is to play.
    pub fn new(music_config: MusicConfig) -> (r: Self)
        requires
            music_config.ticks_per_beat > 0,
            music_config.wf(),
        ensures
            r.wf(),
            r@ == WorldView::initial(music_config.ticks_per_beat),
            r.music_controller@ == (MusicState {
                soundfonts: music_config.soundfonts@,
                sections: music_config.sections@,
                ticks_per_beat: music_config.ticks_per_beat,
                bpm: ticks_fixed(30),
                tick_t: spec_tick_time(ticks_fixed(30), music_config.ticks_per_beat),
                tick: 0,
                current: None,
            }),
    {
        let beat_config = BeatControllerConfig {
            bpm_min: 30,
            bpm_max: 240,
            ticks_per_beat: music_config.ticks_per_beat,
            miss_time_early: Fixed::from_raw(100_000),
            miss_time_late: Fixed::from_raw(200_000),
        };

        let mut units = Entities::new();
        let spawned = units.insert(
            Unit {
                grid_position: IVec2::new(0, 0),
                world_position: FVec2::zero(),
                unit: None,
                health: Health::new(Fixed::from_int(10)),
                fraction: Fraction::Player,
                held_items: HeldItems {
                    left_hand: Some(Item::bow(Fixed::from_int(1), Fixed::from_int(3))),
                    right_hand: Some(Item::sword(Fixed::from_int(2))),
                },
            },
        );
        let player_unit = match spawned {
            Ok(id) => id,
            Err(_) => Id(0),
        };

        let mut world = Self {
            player: Player::new(player_unit),
            grid: Grid::default(),
            music_controller: MusicController::new(music_config, Fixed::from_int(30)),
            beat_controller: BeatController::new(beat_config),
            player_beat_time: Fixed::zero(),
            units,
            projectiles: Collection::new(NAME_PROJECTILE),
            particles: Vec::new(),
        };
        world.init();
        world
    }

    /// Adds the enemy that a new world starts with.
    fn init(&mut self)
        requires
            old(self).wf(),
        ensures
            final(self).wf(),
            final(self).music_controller@ == old(self).music_controller@,
            final(self)@ == (WorldView {
                units: old(self)@.units.insert(WorldView::enemy_unit()).0,
                ..old(self)@
            }),
    {
        let _ = self.units.insert(
            Unit {
                unit: Some(
                    UnitAI {
                        beat: UnitBeat::Synchronized { unit: 1, player: 2, current_beat: 0 },
                        next_beat: Fixed::one(),
                        behaviour: UnitBehaviour::SelectTarget {
                            selector: TargetSelector {
                                filter: TargetFilter::Fraction(FractionFilter::Enemy),
                                fitness: TargetFitness::Negative(Box::new(TargetFitness::Distance)),
                            },
                            then_behave: Box::new(
                                UnitBehaviour::If {
                                    condition: BehaviourCondition::TargetInRange { distance: 1 },
                                    then_behave: Box::new(
                                        UnitBehaviour::UseItemOnTarget { item: HandId::RightHand },
                                    ),
                                    else_behave: Box::new(UnitBehaviour::MoveToTarget),
                                },
                            ),
                        },
                    },
                ),
                fraction: Fraction::Enemy,
                grid_position: IVec2::new(2, 1),
                world_position: FVec2::zero(),
                health: Health::new(Fixed::from_int(2)),
                held_items: HeldItems {
                    left_hand: None,
                    right_hand: Some(Item::sword(Fixed::from_int(1))),
                },
            },
        );
    }

    /// The unit that stands on the cell. Fails with `NoTarget` where there is none.
    pub fn get_unit_at(&self, target_pos: IVec2) -> (r: ContextResult<UnitId>)
        ensures
            r == self@.get_unit_at(target_pos),
    {
        let ids = self.units.grid_position.ids();
        let mut i: usize = 0;
        while i < ids.len()
            invariant
                i <= ids@.len(),
                lists(ids@, self.units.grid_position@.dom()),
                ids@ == ids_of(self.units.grid_position@.dom()),
                first_at(ids@, self.units.grid_position@, target_pos, 0) == first_at(
                    ids@,
                    self.units.grid_position@,
                    target_pos,
                    i as int,
                ),
            decreases ids@.len() - i,
        {
            let id = ids[i];
            assert(ids@.contains(id));
            match self.units.grid_position.get(id) {
                Ok(pos) => {
                    if pos.x == target_pos.x && pos.y == target_pos.y {
                        return Ok(id);
                    }
                },
                Err(_) => {},
            }
            i += 1;
        }
        Err(ContextError::NoTarget)
    }

    /// Adds a burst of particles at a cell. Never fails.
    pub fn spawn_particles(&mut self, pos: IVec2, color: Color) -> (r: SystemResult<()>)
        ensures
            r == Ok::<(), SystemError>(()),
            final(self)@ == old(self)@.spawn_particles(pos, color),
            final(self).wf() == old(self).wf(),
            final(self).units == old(self).units,
            final(self).projectiles == old(self).projectiles,
            final(self).beat_controller == old(self).beat_controller,
            final(self).music_controller == old(self).music_controller,
    {
        let world_pos = self.grid.grid_to_world(pos);
        self.spawn_particles_world(world_pos, color)
    }

    /// Adds a burst of particles at a point of the world: five of them, evenly spread
    /// over the directions. Never fails.
    pub fn spawn_particles_world(&mut self, position: FVec2, color: Color) -> (r: SystemResult<()>)
        ensures
            r == Ok::<(), SystemError>(()),
            final(self)@ == old(self)@.spawn_particles_world(position, color),
            final(self).wf() == old(self).wf(),
            final(self).units == old(self).units,
            final(self).projectiles == old(self).projectiles,
            final(self).beat_controller == old(self).beat_controller,
            final(self).music_controller == old(self).music_controller,
    {
        let mut i: usize = 0;
        while i < BURST_AMOUNT
            invariant
                i <= BURST_AMOUNT,
                self.particles@ == old(self).particles@ + spec_burst(position, color).subrange(
                    0,
                    i as int,
                ),
                self.grid == old(self).grid,
                self.player == old(self).player,
                self.player_beat_time == old(self).player_beat_time,
                self.units == old(self).units,
                self.projectiles == old(self).projectiles,
                self.beat_controller == old(self).beat_controller,
                self.music_controller == old(self).music_controller,
            decreases BURST_AMOUNT - i,
        {
            let speed = Fixed::from_raw(BURST_SPEED);
            let velocity = burst_direction(i).scale(speed);
            let lifetime = Health::new(Fixed::from_raw(BURST_LIFETIME));
            let particle = Particle {
                position,
                velocity,
                lifetime,
                size: Fixed::from_raw(BURST_SIZE),
                color,
            };
            self.particles.push(particle);
            i += 1;
            assert(self.particles@ =~= old(self).particles@ + spec_burst(position, color).subrange(
                0,
                i as int,
            ));
        }
        assert(spec_burst(position, color).subrange(0, BURST_AMOUNT as int) =~= spec_burst(
            position,
            color,
        ));
        Ok(())
    }
}

} // verus!
