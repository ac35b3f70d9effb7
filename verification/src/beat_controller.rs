use vstd::prelude::*;
use crate::config::Ticks;
use crate::fixed::{Fixed, SCALE};

verus! {

/// Intervals between player beats shorter than this are taken for one beat: 0.01 s.
pub const MIN_BEAT_INTERVAL: i64 = 10_000;

/// The weight of the newly measured tempo against the last one: 0.5.
pub const TWEEN_ALPHA: i64 = 500_000;

#[derive(Debug, Clone, Copy, PartialEq, Eq, Structural)]
pub struct BeatControllerConfig {
    pub bpm_min: Ticks,
    pub bpm_max: Ticks,
    pub ticks_per_beat: Ticks,
    /// How long before a beat, in seconds, an input still counts for that beat.
    pub miss_time_early: Fixed,
    /// How long after a beat, in seconds, an input still counts for that beat.
    pub miss_time_late: Fixed,
}

/// What a [`BeatController`] holds.
#[derive(Debug, Clone, Copy, PartialEq, Eq, Structural)]
pub struct BeatState {
    /// Controller configuration.
    pub config: BeatControllerConfig,
    /// The time since last beat.
    pub last_beat: Fixed,
    /// The time since last player's beat event.
    pub last_player_beat: Fixed,
    /// BPM that was current at the moment of last player's beat event.
    pub last_player_bpm: Fixed,
    /// Current tick number.
    pub tick: Ticks,
    /// Current BPM.
    pub current_bpm: Fixed,
    /// Current tick time based on the current BPM.
    pub tick_t: Fixed,
    /// Normalized (in range 0..1) time until the next tick.
    pub next_tick: Fixed,
}

/// Tracks the tempo of the player's inputs and turns elapsed time into ticks.
#[derive(Debug, Clone, Copy)]
pub struct BeatController {
    state: BeatState,
}

/// A count of ticks after `n` more; it stops at the largest count.
pub open spec fn ticks_plus(tick: Ticks, n: int) -> Ticks {
    if tick + n > Ticks::MAX {
        Ticks::MAX
    } else {
        (tick + n) as Ticks
    }
}

/// A whole number of beats per minute or of ticks, as a number.
pub open spec fn ticks_fixed(n: Ticks) -> Fixed {
    Fixed { raw: (n as int * SCALE as int) as i64 }
}

/// The tempo between `current` and `target`, within the configured bounds.
pub open spec fn spec_tween_bpm(
    current: Fixed,
    target: Fixed,
    config: BeatControllerConfig,
) -> Fixed {
    let alpha = Fixed { raw: TWEEN_ALPHA };
    let rest = Fixed { raw: SCALE }.spec_sub(alpha);
    rest.spec_mul(current).spec_add(alpha.spec_mul(target)).spec_clamp(
        ticks_fixed(config.bpm_min),
        ticks_fixed(config.bpm_max),
    )
}

/// How often the countdown `next_tick` has to be raised by one until it is no longer negative.
pub open spec fn crossings(next_tick: Fixed) -> int {
    if next_tick.raw < 0 {
        (-(next_tick.raw as int) + SCALE - 1) / (SCALE as int)
    } else {
        0
    }
}

impl BeatControllerConfig {
    /// There is at least one tick to the beat, and the tempo bounds do not cross.
    pub open spec fn valid(&self) -> bool {
        self.ticks_per_beat > 0 && self.bpm_min <= self.bpm_max
    }
}

impl Default for BeatControllerConfig {
    fn default() -> (r: Self)
        ensures
            r == (BeatControllerConfig {
                bpm_min: 30,
                bpm_max: 240,
                ticks_per_beat: 4,
                miss_time_early: Fixed { raw: 100_000 },
                miss_time_late: Fixed { raw: 200_000 },
            }),
            r.valid(),
    {
        Self {
            bpm_min: 30,
            bpm_max: 240,
            ticks_per_beat: 4,
            miss_time_early: Fixed::from_raw(100_000),
            miss_time_late: Fixed::from_raw(200_000),
        }
    }
}

impl BeatState {
    /// The configuration is valid and the tempo is within its bounds.
    pub open spec fn wf(self) -> bool {
        &&& self.config.valid()
        &&& ticks_fixed(self.config.bpm_min).raw <= self.current_bpm.raw
        &&& self.current_bpm.raw <= ticks_fixed(self.config.bpm_max).raw
    }

    /// The state of a new controller.
    pub open spec fn initial(config: BeatControllerConfig) -> BeatState {
        BeatState {
            config,
            last_beat: Fixed { raw: 0 },
            last_player_beat: Fixed { raw: 0 },
            last_player_bpm: Fixed { raw: 0 },
            tick: 0,
            current_bpm: ticks_fixed(config.bpm_min),
            tick_t: Fixed { raw: SCALE },
            next_tick: Fixed { raw: SCALE },
        }
    }

    /// One tick: the counter goes up, and on a beat the time since the last beat starts anew.
    pub open spec fn tick(self) -> BeatState {
        let tick = ticks_plus(self.tick, 1);
        BeatState {
            tick,
            last_beat: if tick as int % self.config.ticks_per_beat as int == 0 {
                Fixed { raw: 0 }
            } else {
                self.last_beat
            },
            ..self
        }
    }

    /// Ticks until the countdown is no longer negative, each tick raising it by one.
    /// Gives the state after the last tick and the number of ticks.
    pub open spec fn emit_ticks(self) -> (BeatState, int)
        decreases crossings(self.next_tick),
    {
        if self.next_tick.raw < 0 {
            let next = BeatState {
                next_tick: self.next_tick.spec_add(Fixed { raw: SCALE }),
                ..self.tick()
            };
            let (last, n) = next.emit_ticks();
            (last, n + 1)
        } else {
            (self, 0)
        }
    }

    /// The player has been silent for longer than a beat and the late margin.
    pub open spec fn player_is_late(self) -> bool {
        self.last_player_beat.raw > Fixed::spec_from_int(60).spec_div(self.current_bpm).spec_add(
            self.config.miss_time_late,
        ).raw
    }

    /// The state after `delta_time` seconds have been added to the clocks, the tempo
    /// pulled toward a silent player's interval, and the countdown lowered; ticks not
    /// yet emitted.
    pub open spec fn advance(self, delta_time: Fixed) -> BeatState {
        let last_beat = self.last_beat.spec_add(delta_time);
        let last_player_beat = self.last_player_beat.spec_add(delta_time);
        let clocked = BeatState { last_beat, last_player_beat, ..self };
        let current_bpm = if clocked.player_is_late() {
            spec_tween_bpm(
                self.last_player_bpm,
                Fixed::spec_from_int(60).spec_div(last_player_beat),
                self.config,
            )
        } else {
            self.current_bpm
        };
        let tick_t = Fixed::spec_from_int(60).spec_div(
            current_bpm.spec_mul(ticks_fixed(self.config.ticks_per_beat)),
        );
        BeatState {
            current_bpm,
            tick_t,
            next_tick: self.next_tick.spec_sub(delta_time.spec_div(tick_t)),
            ..clocked
        }
    }

    /// The state after an update by `delta_time` seconds, and the number of ticks in it.
    pub open spec fn update(self, delta_time: Fixed) -> (BeatState, int) {
        self.advance(delta_time).emit_ticks()
    }

    /// The state after the tempo is measured anew from the time since the player's last
    /// beat. Nothing changes when that time is below 0.01 s.
    pub open spec fn update_bpm(self) -> BeatState {
        if self.last_player_beat.raw < MIN_BEAT_INTERVAL {
            self
        } else {
            let bpm = spec_tween_bpm(
                self.last_player_bpm,
                Fixed::spec_from_int(60).spec_div(self.last_player_beat),
                self.config,
            );
            BeatState {
                current_bpm: bpm,
                last_player_bpm: bpm,
                last_player_beat: Fixed { raw: 0 },
                ..self
            }
        }
    }

    /// The number of ticks from the current one to the last tick before the next beat.
    pub open spec fn ticks_to_beat(self) -> Ticks {
        (self.config.ticks_per_beat - 1 - self.tick as int % self.config.ticks_per_beat as int) as Ticks
    }

    /// The time until the next beat, in seconds.
    pub open spec fn time_to_beat(self) -> Fixed {
        self.next_tick.spec_mul(self.tick_t).spec_add(
            ticks_fixed(self.ticks_to_beat()).spec_mul(self.tick_t),
        )
    }

    /// The state after the remaining ticks of the beat are skipped.
    pub open spec fn skip_to_next_beat(self) -> BeatState {
        BeatState {
            next_tick: Fixed { raw: 0 },
            tick: ticks_plus(self.tick, self.ticks_to_beat() as int),
            ..self
        }
    }

    /// The state after a beat of the player, and the number of ticks to skip.
    ///
    /// A beat less than the early margin before the next beat counts for that beat; one
    /// less than the late margin after the last beat counts for that one; any other is a
    /// miss, which skips to the next beat.
    pub open spec fn player_beat(self) -> (BeatState, Ticks) {
        let next_beat = self.time_to_beat();
        if next_beat.raw < self.config.miss_time_early.raw {
            let measured = BeatState {
                last_player_beat: self.last_player_beat.spec_add(next_beat),
                ..self
            }.update_bpm();
            (BeatState { last_player_beat: next_beat.spec_neg(), ..measured }, 0)
        } else if self.last_beat.raw < self.config.miss_time_late.raw {
            let measured = BeatState {
                last_player_beat: self.last_player_beat.spec_sub(self.last_beat),
                ..self
            }.update_bpm();
            (BeatState { last_player_beat: self.last_beat, ..measured }, 0)
        } else {
            let measured = self.update_bpm();
            (measured.skip_to_next_beat(), measured.ticks_to_beat())
        }
    }
}

/// Emitting ticks keeps the tempo and the configuration, never lowers the tick counter,
/// leaves a countdown that is not negative, and emits one tick for each crossing.
pub proof fn lemma_emit_ticks(s: BeatState)
    ensures
        s.emit_ticks().1 == crossings(s.next_tick),
        s.emit_ticks().0.tick == ticks_plus(s.tick, crossings(s.next_tick)),
        s.emit_ticks().0.tick >= s.tick,
        s.emit_ticks().0.current_bpm == s.current_bpm,
        s.emit_ticks().0.config == s.config,
        s.emit_ticks().0.next_tick.raw == s.next_tick.raw + crossings(s.next_tick) * SCALE,
        0 <= s.emit_ticks().0.next_tick.raw,
        s.next_tick.raw < 0 ==> s.emit_ticks().0.next_tick.raw < SCALE,
    decreases crossings(s.next_tick),
{
    if s.next_tick.raw < 0 {
        let next = BeatState { next_tick: s.next_tick.spec_add(Fixed { raw: SCALE }), ..s.tick() };
        lemma_emit_ticks(next);
    }
}

/// The tempo that `spec_tween_bpm` gives is within the configured bounds.
pub proof fn lemma_tween_in_bounds(current: Fixed, target: Fixed, config: BeatControllerConfig)
    requires
        config.valid(),
    ensures
        ticks_fixed(config.bpm_min).raw <= spec_tween_bpm(current, target, config).raw,
        spec_tween_bpm(current, target, config).raw <= ticks_fixed(config.bpm_max).raw,
{
}

/// One correction halves the error: where the new tempo is not cut off by the bounds,
/// it lies halfway between the last tempo and the measured one, up to the rounding of
/// the two halves.
pub proof fn law_tween_halves_error(current: Fixed, target: Fixed, config: BeatControllerConfig)
    requires
        config.valid(),
        -0x4000_0000_0000_0000 <= current.raw <= 0x4000_0000_0000_0000,
        -0x4000_0000_0000_0000 <= target.raw <= 0x4000_0000_0000_0000,
        ticks_fixed(config.bpm_min).raw <= current.raw / 2 + target.raw / 2 <= ticks_fixed(
            config.bpm_max,
        ).raw,
    ensures
        spec_tween_bpm(current, target, config).raw == current.raw / 2 + target.raw / 2,
        -2 <= 2 * (spec_tween_bpm(current, target, config).raw - target.raw) - (current.raw
            - target.raw) <= 0,
{
    let alpha = Fixed { raw: TWEEN_ALPHA };
    let rest = Fixed { raw: SCALE }.spec_sub(alpha);
    assert(rest.raw == 500_000);
    assert((500_000 * current.raw) / 1_000_000 == current.raw / 2);
    assert((500_000 * target.raw) / 1_000_000 == target.raw / 2);
    assert(rest.spec_mul(current).raw == current.raw / 2);
    assert(alpha.spec_mul(target).raw == target.raw / 2);
}

/// Tempo bounds: an update keeps a well-formed state well-formed, so the tempo stays
/// within `[bpm_min, bpm_max]`; and it never lowers the tick counter.
pub proof fn law_update_keeps_bounds(s: BeatState, delta_time: Fixed)
    requires
        s.wf(),
    ensures
        s.update(delta_time).0.wf(),
        s.update(delta_time).0.config == s.config,
        s.update(delta_time).0.tick >= s.tick,
        s.update(delta_time).1 == crossings(s.advance(delta_time).next_tick),
{
    lemma_tween_in_bounds(
        s.last_player_bpm,
        Fixed::spec_from_int(60).spec_div(s.last_player_beat.spec_add(delta_time)),
        s.config,
    );
    lemma_emit_ticks(s.advance(delta_time));
}

/// Tempo bounds: a player beat keeps a well-formed state well-formed, so the tempo stays
/// within `[bpm_min, bpm_max]`; and it never lowers the tick counter.
pub proof fn law_player_beat_keeps_bounds(s: BeatState)
    requires
        s.wf(),
    ensures
        s.player_beat().0.wf(),
        s.player_beat().0.config == s.config,
        s.player_beat().0.tick >= s.tick,
{
    let next_beat = s.time_to_beat();
    let early = BeatState { last_player_beat: s.last_player_beat.spec_add(next_beat), ..s };
    let late = BeatState { last_player_beat: s.last_player_beat.spec_sub(s.last_beat), ..s };
    lemma_tween_in_bounds(
        early.last_player_bpm,
        Fixed::spec_from_int(60).spec_div(early.last_player_beat),
        s.config,
    );
    lemma_tween_in_bounds(
        late.last_player_bpm,
        Fixed::spec_from_int(60).spec_div(late.last_player_beat),
        s.config,
    );
    lemma_tween_in_bounds(
        s.last_player_bpm,
        Fixed::spec_from_int(60).spec_div(s.last_player_beat),
        s.config,
    );
}

/// What can happen to a controller.
#[derive(Debug, Clone, Copy, PartialEq, Eq, Structural)]
pub enum BeatEvent {
    /// Time passes: so many seconds.
    Update(Fixed),
    /// The player inputs a beat.
    PlayerBeat,
}

impl BeatState {
    /// The state after an event.
    pub open spec fn after(self, event: BeatEvent) -> BeatState {
        match event {
            BeatEvent::Update(delta_time) => self.update(delta_time).0,
            BeatEvent::PlayerBeat => self.player_beat().0,
        }
    }

    /// The state after a sequence of events, the first one first.
    pub open spec fn after_all(self, events: Seq<BeatEvent>) -> BeatState
        decreases events.len(),
    {
        if events.len() == 0 {
            self
        } else {
            self.after_all(events.drop_last()).after(events.last())
        }
    }
}

/// Tempo bounds and tick monotonicity: whatever sequence of updates and player beats a
/// controller goes through, its tempo stays within `[bpm_min, bpm_max]`, its
/// configuration stays the same, and its tick counter never goes down.
pub proof fn law_bounds_and_ticks(s: BeatState, events: Seq<BeatEvent>)
    requires
        s.wf(),
    ensures
        s.after_all(events).wf(),
        s.after_all(events).config == s.config,
        ticks_fixed(s.config.bpm_min).raw <= s.after_all(events).current_bpm.raw,
        s.after_all(events).current_bpm.raw <= ticks_fixed(s.config.bpm_max).raw,
        s.after_all(events).tick >= s.tick,
    decreases events.len(),
{
    if events.len() > 0 {
        law_bounds_and_ticks(s, events.drop_last());
        let before = s.after_all(events.drop_last());
        match events.last() {
            BeatEvent::Update(delta_time) => {
                law_update_keeps_bounds(before, delta_time);
                lemma_emit_ticks(before.advance(delta_time));
            },
            BeatEvent::PlayerBeat => {
                law_player_beat_keeps_bounds(before);
            },
        }
    }
}

fn ticks_to_fixed(n: Ticks) -> (r: Fixed)
    ensures
        r == ticks_fixed(n),
{
    Fixed::from_int(n as i64)
}

fn tween_bpm(current: Fixed, target: Fixed, config: &BeatControllerConfig) -> (r: Fixed)
    ensures
        r == spec_tween_bpm(current, target, *config),
{
    let alpha = Fixed::from_raw(TWEEN_ALPHA);
    Fixed::one().sub(alpha).mul(current).add(alpha.mul(target)).clamp(
        ticks_to_fixed(config.bpm_min),
        ticks_to_fixed(config.bpm_max),
    )
}

impl View for BeatController {
    type V = BeatState;

    closed spec fn view(&self) -> BeatState {
        self.state
    }
}

impl BeatController {
    pub fn new(config: BeatControllerConfig) -> (r: Self)
        requires
            config.valid(),
        ensures
            r@ == BeatState::initial(config),
            r@.wf(),
    {
        Self {
            state: BeatState {
                last_beat: Fixed::zero(),
                last_player_beat: Fixed::zero(),
                last_player_bpm: Fixed::zero(),
                tick: 0,
                current_bpm: ticks_to_fixed(config.bpm_min),
                tick_t: Fixed::one(),
                next_tick: Fixed::one(),
                config,
            },
        }
    }

    /// Returns the current bpm.
    pub fn get_bpm(&self) -> (r: Fixed)
        ensures
            r == self@.current_bpm,
    {
        self.state.current_bpm
    }

    /// Everything that the controller holds.
    pub fn state(&self) -> (r: BeatState)
        ensures
            r == self@,
    {
        self.state
    }

    /// Returns the number of the current tick.
    pub fn get_tick(&self) -> (r: Ticks)
        ensures
            r == self@.tick,
    {
        self.state.tick
    }

    /// Update the controller.
    /// Returns the number of ticks that happen in the `delta_time`; the count stops at
    /// the largest number of ticks.
    pub fn update(&mut self, delta_time: Fixed) -> (r: Ticks)
        requires
            old(self)@.wf(),
        ensures
            final(self)@ == old(self)@.update(delta_time).0,
            r == ticks_plus(0, old(self)@.update(delta_time).1),
            old(self)@.update(delta_time).1 == crossings(old(self)@.advance(delta_time).next_tick),
            final(self)@.wf(),
            final(self)@.config == old(self)@.config,
            ticks_fixed(old(self)@.config.bpm_min).raw <= final(self)@.current_bpm.raw
                <= ticks_fixed(old(self)@.config.bpm_max).raw,
            final(self)@.tick >= old(self)@.tick,
    {
        self.state.last_beat = self.state.last_beat.add(delta_time);
        self.state.last_player_beat = self.state.last_player_beat.add(delta_time);

        let late = Fixed::from_int(60).div(self.state.current_bpm).add(
            self.state.config.miss_time_late,
        );
        if self.state.last_player_beat.raw > late.raw {
            // Late player beat -> slow down
            let target_bpm = Fixed::from_int(60).div(self.state.last_player_beat);
            self.state.current_bpm = tween_bpm(
                self.state.last_player_bpm,
                target_bpm,
                &self.state.config,
            );
        }
        // Music tick

        self.state.tick_t = Fixed::from_int(60).div(
            self.state.current_bpm.mul(ticks_to_fixed(self.state.config.ticks_per_beat)),
        );
        self.state.next_tick = self.state.next_tick.sub(delta_time.div(self.state.tick_t));
        assert(self.state == old(self)@.advance(delta_time));
        proof {
            law_update_keeps_bounds(old(self)@, delta_time);
            lemma_emit_ticks(self.state);
        }

        let ghost start = self.state;
        let mut ticks: Ticks = 0;
        while self.state.next_tick.raw < 0
            invariant
                self.state.config.valid(),
                self.state.emit_ticks().0 == start.emit_ticks().0,
                ticks_plus(ticks, self.state.emit_ticks().1) == ticks_plus(
                    0,
                    start.emit_ticks().1,
                ),
                self.state.emit_ticks().1 >= 0,
            decreases crossings(self.state.next_tick),
        {
            self.tick();
            ticks = ticks.saturating_add(1);
            self.state.next_tick = self.state.next_tick.add(Fixed::one());
            proof {
                lemma_emit_ticks(self.state);
            }
        }
        ticks
    }

    /// Player inputs the beat event.
    /// Updates the BPM to match the timings between inputs.
    /// Returns the number of ticks that should be skipped.
    pub fn player_beat(&mut self) -> (r: Ticks)
        requires
            old(self)@.wf(),
        ensures
            (final(self)@, r) == old(self)@.player_beat(),
            final(self)@.wf(),
            final(self)@.config == old(self)@.config,
            ticks_fixed(old(self)@.config.bpm_min).raw <= final(self)@.current_bpm.raw
                <= ticks_fixed(old(self)@.config.bpm_max).raw,
            final(self)@.tick >= old(self)@.tick,
            r < old(self)@.config.ticks_per_beat,
    {
        proof {
            law_player_beat_keeps_bounds(old(self)@);
        }
        let next_tick = self.state.next_tick.mul(self.state.tick_t);
        let to_beat: Ticks = self.state.config.ticks_per_beat - 1 - self.state.tick
            % self.state.config.ticks_per_beat;
        let next_beat = next_tick.add(ticks_to_fixed(to_beat).mul(self.state.tick_t));

        if next_beat.raw < self.state.config.miss_time_early.raw {
            // Early action
            self.state.last_player_beat = self.state.last_player_beat.add(next_beat);
            self.update_bpm();
            self.state.last_player_beat = next_beat.neg();
            return 0;
        }
        if self.state.last_beat.raw < self.state.config.miss_time_late.raw {
            // Late action
            let last_beat = self.state.last_beat;
            self.state.last_player_beat = self.state.last_player_beat.sub(last_beat);
            self.update_bpm();
            self.state.last_player_beat = last_beat;
            return 0;
        }
        self.update_bpm();
        self.skip_to_next_beat()
    }

    fn tick(&mut self)
        requires
            old(self)@.config.valid(),
        ensures
            final(self)@ == old(self)@.tick(),
    {
        self.state.tick = self.state.tick.saturating_add(1);
        if self.state.tick % self.state.config.ticks_per_beat == 0 {
            self.state.last_beat = Fixed::zero();
        }
    }

    /// Updates the BPM based on `last_player_beat` time.
    fn update_bpm(&mut self)
        ensures
            final(self)@ == old(self)@.update_bpm(),
    {
        if self.state.last_player_beat.raw < MIN_BEAT_INTERVAL {
            return ;
        }
        let target_bpm = Fixed::from_int(60).div(self.state.last_player_beat);
        self.state.current_bpm = tween_bpm(
            self.state.last_player_bpm,
            target_bpm,
            &self.state.config,
        );
        self.state.last_player_bpm = self.state.current_bpm;
        self.state.last_player_beat = Fixed::zero();
    }

    /// Skips over ticks straight to the next beat.
    pub fn skip_to_next_beat(&mut self) -> (r: Ticks)
        requires
            old(self)@.config.valid(),
        ensures
            final(self)@ == old(self)@.skip_to_next_beat(),
            r == old(self)@.ticks_to_beat(),
            r < old(self)@.config.ticks_per_beat,
            final(self)@.tick >= old(self)@.tick,
    {
        self.state.next_tick = Fixed::zero();
        let skip: Ticks = self.state.config.ticks_per_beat - 1 - self.state.tick
            % self.state.config.ticks_per_beat;
        self.state.tick = self.state.tick.saturating_add(skip);
        skip
    }
}

} // verus!
