use vstd::prelude::*;
use std::collections::VecDeque;
use rand::seq::IteratorRandom;
use crate::beat_controller::{ticks_fixed, ticks_plus};
use crate::config::{
    names_differ, MusicConfig, Note, NoteOn, SFName, SectionConfig, SectionEvent,
    SectionEventTagged, SectionName, Ticks,
};
use crate::fixed::Fixed;

verus! {

/// A note for the synthesizer to play now.
#[derive(Debug, Clone, Copy, PartialEq, Eq, Structural)]
pub struct NoteCommand {
    /// The place of the note's section among the configured sections.
    pub section: usize,
    pub note: Note,
    pub velocity: u32,
    /// How long the note sounds, in ticks.
    pub duration: Ticks,
    /// The length of a tick, in seconds, at the time of the note.
    pub tick_t: Fixed,
}

/// The section that is playing: what is left of its script, and its current defaults.
pub struct ActiveSection {
    index: usize,
    key: Note,
    default_velocity: u32,
    default_duration: Ticks,
    events: VecDeque<SectionEvent>,
}

/// What an [`ActiveSection`] holds.
pub struct ActiveView {
    /// The place of the section among the configured sections.
    pub index: usize,
    pub key: Note,
    pub default_velocity: u32,
    pub default_duration: Ticks,
    /// The events that are still to come, the next one first.
    pub events: Seq<SectionEvent>,
}

/// What a [`MusicController`] holds.
pub struct MusicState {
    /// Each configured soundfont's name with the path of its file.
    pub soundfonts: Seq<(SFName, String)>,
    /// Each configured section's name with its script.
    pub sections: Seq<(SectionName, SectionConfig)>,
    pub ticks_per_beat: Ticks,
    pub bpm: Fixed,
    /// The length of a tick in seconds.
    pub tick_t: Fixed,
    pub tick: Ticks,
    pub current: Option<ActiveView>,
}

/// Plays the configured sections, one event queue at a time, in step with the ticks.
pub struct MusicController {
    config: MusicConfig,
    bpm: Fixed,
    tick_t: Fixed,
    tick: Ticks,
    current_section: Option<ActiveSection>,
}

/// The section may start at the tempo `bpm`.
pub open spec fn eligible(section: SectionConfig, bpm: Fixed) -> bool {
    ticks_fixed(section.bpm_range@[0]).raw <= bpm.raw <= ticks_fixed(section.bpm_range@[1]).raw
}

/// The length of a tick at the tempo `bpm`, in seconds.
pub open spec fn spec_tick_time(bpm: Fixed, ticks_per_beat: Ticks) -> Fixed {
    Fixed::spec_from_int(60).spec_div(bpm.spec_mul(ticks_fixed(ticks_per_beat)))
}

/// What is left to do with a queue of events: falls with every event that is handled.
pub open spec fn events_measure(events: Seq<SectionEvent>) -> nat {
    if events.len() == 0 {
        0
    } else {
        3 * events.len() + match events[0] {
            SectionEvent::NoteDefault(_) => 2nat,
            SectionEvent::Note(_) => 1nat,
            _ => 0nat,
        }
    }
}

/// The number of samples that `ticks` ticks of `tick_t` seconds take at `sample_rate`
/// samples per second, rounded to the nearest whole number.
pub open spec fn spec_sample_count(ticks: Ticks, tick_t: Fixed, sample_rate: u32) -> int {
    let n = ticks_fixed(ticks).spec_mul(tick_t).spec_mul(ticks_fixed(sample_rate)).spec_round_int();
    if n < 0 {
        0
    } else {
        n
    }
}

/// The number of samples to render for `ticks` ticks.
pub fn sample_count(ticks: Ticks, tick_t: Fixed, sample_rate: u32) -> (r: u64)
    ensures
        r == spec_sample_count(ticks, tick_t, sample_rate),
{
    let n: i64 = Fixed::from_int(ticks as i64).mul(tick_t).mul(
        Fixed::from_int(sample_rate as i64),
    ).round_int();
    if n < 0 {
        0
    } else {
        n as u64
    }
}

impl ActiveView {
    /// The section as it starts: the whole script, with the configured defaults.
    pub open spec fn start(index: usize, section: SectionConfig) -> ActiveView {
        ActiveView {
            index,
            key: section.key,
            default_velocity: section.default_velocity,
            default_duration: section.default_duration,
            events: section.events@,
        }
    }

    /// The note that the section sounds for the event `note`.
    pub open spec fn command(self, note: NoteOn, tick_t: Fixed) -> NoteCommand {
        NoteCommand {
            section: self.index,
            note: note.note.spec_to_note(self.key),
            velocity: match note.velocity {
                Some(v) => v,
                None => self.default_velocity,
            },
            duration: match note.duration {
                Some(d) => d,
                None => self.default_duration,
            },
            tick_t,
        }
    }

    /// One tick of the section: events are taken from the front until a delay that is
    /// not yet over, which is shortened by one tick, or until none is left. Each note
    /// is added to `notes` and replaced by a delay of its duration; a control event
    /// changes a default; a bare note specification becomes a note with the defaults.
    pub open spec fn run(self, tick_t: Fixed, notes: Seq<NoteCommand>) -> (
        ActiveView,
        Seq<NoteCommand>,
    )
        decreases events_measure(self.events),
    {
        if self.events.len() == 0 {
            (self, notes)
        } else {
            let rest = self.events.subrange(1, self.events.len() as int);
            match self.events[0] {
                SectionEvent::Delay { delay } => {
                    if delay > 0 {
                        (
                            ActiveView {
                                events: seq![SectionEvent::Delay { delay: (delay - 1) as Ticks }]
                                    + rest,
                                ..self
                            },
                            notes,
                        )
                    } else {
                        ActiveView { events: rest, ..self }.run(tick_t, notes)
                    }
                },
                SectionEvent::NoteDefault(note) => {
                    ActiveView {
                        events: seq![
                            SectionEvent::Note(NoteOn { note, velocity: None, duration: None }),
                        ] + rest,
                        ..self
                    }.run(tick_t, notes)
                },
                SectionEvent::Note(note) => {
                    let command = self.command(note, tick_t);
                    ActiveView {
                        events: seq![SectionEvent::Delay { delay: command.duration }] + rest,
                        ..self
                    }.run(tick_t, notes.push(command))
                },
                SectionEvent::Tagged(SectionEventTagged::ChangeDefaultVelocity { value }) => {
                    ActiveView { events: rest, default_velocity: value, ..self }.run(tick_t, notes)
                },
                SectionEvent::Tagged(SectionEventTagged::ChangeDefaultDuration { value }) => {
                    ActiveView { events: rest, default_duration: value, ..self }.run(tick_t, notes)
                },
            }
        }
    }
}

impl MusicState {
    /// A beat has at least one tick, and no name occurs twice among the soundfonts or
    /// among the sections.
    pub open spec fn wf(self) -> bool {
        &&& self.ticks_per_beat > 0
        &&& names_differ(self.soundfonts)
        &&& names_differ(self.sections)
    }

    /// What a random choice of the next section may give: a section that may start at the
    /// current tempo, or nothing if and only if there is no such section.
    pub open spec fn valid_pick(self, pick: Option<usize>) -> bool {
        match pick {
            Some(i) => i < self.sections.len() && eligible(self.sections[i as int].1, self.bpm),
            None => forall|i: int|
                0 <= i < self.sections.len() ==> !eligible(
                    (#[trigger] self.sections[i]).1,
                    self.bpm,
                ),
        }
    }

    /// The state after the picked section has started. A pick of no section, or of one
    /// that may not start at the current tempo, leaves the state as it is.
    pub open spec fn start(self, pick: Option<usize>) -> MusicState {
        match pick {
            Some(i) => if i < self.sections.len() && eligible(
                self.sections[i as int].1,
                self.bpm,
            ) {
                MusicState {
                    current: Some(ActiveView::start(i, self.sections[i as int].1)),
                    ..self
                }
            } else {
                self
            },
            None => self,
        }
    }

    /// One tick of the current section, if there is one. A section whose events are
    /// used up is over. Gives the state, the notes and whether a section ended.
    pub open spec fn run_current(self, notes: Seq<NoteCommand>) -> (
        MusicState,
        Seq<NoteCommand>,
        bool,
    ) {
        match self.current {
            None => (self, notes, false),
            Some(section) => {
                let (after, played) = section.run(self.tick_t, notes);
                if after.events.len() == 0 {
                    (MusicState { current: None, ..self }, played, true)
                } else {
                    (MusicState { current: Some(after), ..self }, played, false)
                }
            },
        }
    }

    /// One tick of the sections. Where the current section ends and `immediate` holds,
    /// the picked section starts and gets its first tick at once; there is no third.
    pub open spec fn section_tick(self, immediate: bool, pick: Option<usize>) -> (
        MusicState,
        Seq<NoteCommand>,
    ) {
        let (after, notes, ended) = self.run_current(Seq::empty());
        if ended && immediate {
            let (last, more, _) = after.start(pick).run_current(notes);
            (last, more)
        } else {
            (after, notes)
        }
    }

    /// The state after one tick, and the notes to play. With no section playing, the
    /// section `first` starts; `second` is the section that follows at once where the
    /// current one ends on a beat.
    pub open spec fn tick(self, first: Option<usize>, second: Option<usize>) -> (
        MusicState,
        Seq<NoteCommand>,
    ) {
        let tick = ticks_plus(self.tick, 1);
        let is_beat = tick as int % self.ticks_per_beat as int == 0;
        let counted = MusicState { tick, ..self };
        let begun = if counted.current is None {
            counted.start(first)
        } else {
            counted
        };
        begun.section_tick(is_beat, second)
    }

    /// The state after as many ticks as there are pairs in `picks`, each pair holding the
    /// outcomes of the two random choices of its tick, and the notes of all the ticks.
    pub open spec fn advance(self, picks: Seq<(Option<usize>, Option<usize>)>) -> (
        MusicState,
        Seq<NoteCommand>,
    )
        decreases picks.len(),
    {
        if picks.len() == 0 {
            (self, Seq::empty())
        } else {
            let (before, notes) = self.advance(picks.drop_last());
            let (after, more) = before.tick(picks.last().0, picks.last().1);
            (after, notes + more)
        }
    }

    /// Every pair holds two outcomes that a random choice of a section may have.
    pub open spec fn valid_picks(self, picks: Seq<(Option<usize>, Option<usize>)>) -> bool {
        forall|i: int|
            0 <= i < picks.len() ==> self.valid_pick((#[trigger] picks[i]).0) && self.valid_pick(
                picks[i].1,
            )
    }

    /// The state after the tempo is set to `bpm`.
    pub open spec fn set_bpm(self, bpm: Fixed) -> MusicState {
        MusicState { bpm, tick_t: spec_tick_time(bpm, self.ticks_per_beat), ..self }
    }
}

impl View for ActiveSection {
    type V = ActiveView;

    closed spec fn view(&self) -> ActiveView {
        ActiveView {
            index: self.index,
            key: self.key,
            default_velocity: self.default_velocity,
            default_duration: self.default_duration,
            events: self.events@,
        }
    }
}

impl ActiveSection {
    fn start(index: usize, section: &SectionConfig) -> (r: Self)
        ensures
            r@ == ActiveView::start(index, *section),
    {
        let mut events: VecDeque<SectionEvent> = VecDeque::new();
        let mut i: usize = 0;
        while i < section.events.len()
            invariant
                i <= section.events@.len(),
                events@ == section.events@.subrange(0, i as int),
            decreases section.events@.len() - i,
        {
            events.push_back(section.events[i]);
            i += 1;
            assert(events@ =~= section.events@.subrange(0, i as int));
        }
        assert(events@ =~= section.events@);
        Self {
            index,
            key: section.key,
            default_velocity: section.default_velocity,
            default_duration: section.default_duration,
            events,
        }
    }

    /// One tick of the section; the notes are added to `notes`.
    fn run(&mut self, tick_t: Fixed, notes: &mut Vec<NoteCommand>)
        ensures
            (final(self)@, final(notes)@) == old(self)@.run(tick_t, old(notes)@),
    {
        let ghost goal = old(self)@.run(tick_t, old(notes)@);
        loop
            invariant_except_break
                self@.run(tick_t, notes@) == goal,
            ensures
                (self@, notes@) == goal,
            decreases events_measure(self@.events),
        {
            match self.events.pop_front() {
                None => {
                    break ;
                },
                Some(SectionEvent::Delay { delay }) => {
                    if delay > 0 {
                        self.events.push_front(SectionEvent::Delay { delay: delay - 1 });
                        break ;
                    }
                },
                Some(SectionEvent::NoteDefault(note)) => {
                    self.events.push_front(
                        SectionEvent::Note(NoteOn { note, velocity: None, duration: None }),
                    );
                },
                Some(SectionEvent::Note(note)) => {
                    let duration = match note.duration {
                        Some(d) => d,
                        None => self.default_duration,
                    };
                    let velocity = match note.velocity {
                        Some(v) => v,
                        None => self.default_velocity,
                    };
                    notes.push(
                        NoteCommand {
                            section: self.index,
                            note: note.note.to_note(self.key),
                            velocity,
                            duration,
                            tick_t,
                        },
                    );
                    self.events.push_front(SectionEvent::Delay { delay: duration });
                },
                Some(SectionEvent::Tagged(tagged)) => match tagged {
                    SectionEventTagged::ChangeDefaultVelocity { value } => {
                        self.default_velocity = value;
                    },
                    SectionEventTagged::ChangeDefaultDuration { value } => {
                        self.default_duration = value;
                    },
                },
            }
        }
    }
}

/// One of the candidates, chosen at random by `rand`'s `IteratorRandom::choose` with the
/// thread's generator, `rand::thread_rng`: `None` if and only if there is no candidate,
/// and otherwise one of them. Which one it is, is not stated. The thread's generator
/// panics when the operating system gives it no entropy at its first use; no argument
/// has a part in that.
#[verifier::external_body]
fn choose_one(candidates: &Vec<usize>) -> (r: Option<usize>)
    ensures
        r is None <==> candidates@.len() == 0,
        r is Some ==> candidates@.contains(r->0),
{
    candidates.iter().copied().choose(&mut rand::thread_rng())
}

fn section_is_eligible(section: &SectionConfig, bpm: Fixed) -> (r: bool)
    ensures
        r == eligible(*section, bpm),
{
    // Filter BPM range
    bpm.raw >= Fixed::from_int(section.bpm_range[0] as i64).raw && bpm.raw <= Fixed::from_int(
        section.bpm_range[1] as i64,
    ).raw
}

impl View for MusicController {
    type V = MusicState;

    closed spec fn view(&self) -> MusicState {
        MusicState {
            soundfonts: self.config.soundfonts@,
            sections: self.config.sections@,
            ticks_per_beat: self.config.ticks_per_beat,
            bpm: self.bpm,
            tick_t: self.tick_t,
            tick: self.tick,
            current: match self.current_section {
                Some(section) => Some(section@),
                None => None,
            },
        }
    }
}

impl MusicController {
    /// A controller at the tempo `bpm`, with no section playing.
    pub fn new(config: MusicConfig, bpm: Fixed) -> (r: Self)
        requires
            config.ticks_per_beat > 0,
            config.wf(),
        ensures
            r@ == (MusicState {
                soundfonts: config.soundfonts@,
                sections: config.sections@,
                ticks_per_beat: config.ticks_per_beat,
                bpm,
                tick_t: spec_tick_time(bpm, config.ticks_per_beat),
                tick: 0,
                current: None,
            }),
            r@.wf(),
    {
        let mut controller = Self {
            config,
            bpm: Fixed::one(),
            tick_t: Fixed::one(),
            tick: 0,
            current_section: None,
        };
        controller.set_bpm(bpm);
        controller
    }

    pub fn set_bpm(&mut self, bpm: Fixed)
        ensures
            final(self)@ == old(self)@.set_bpm(bpm),
    {
        self.bpm = bpm;
        self.tick_t = Fixed::from_int(60).div(
            bpm.mul(Fixed::from_int(self.config.ticks_per_beat as i64)),
        );
    }

    /// The configuration that the controller was made with.
    pub fn config(&self) -> (r: &MusicConfig)
        ensures
            r.soundfonts@ == self@.soundfonts,
            r.sections@ == self@.sections,
            r.ticks_per_beat == self@.ticks_per_beat,
    {
        &self.config
    }

    /// The place of the section that is playing, if one is.
    pub fn current_section(&self) -> (r: Option<usize>)
        ensures
            r == match self@.current {
                Some(section) => Some(section.index),
                None => None,
            },
    {
        match &self.current_section {
            Some(section) => Some(section.index),
            None => None,
        }
    }

    /// Picks at random a section that may start at the current tempo.
    pub fn pick_section(&self) -> (r: Option<usize>)
        ensures
            self@.valid_pick(r),
    {
        let mut candidates: Vec<usize> = Vec::new();
        let mut i: usize = 0;
        while i < self.config.sections.len()
            invariant
                i <= self.config.sections@.len(),
                forall|k: int|
                    0 <= k < candidates@.len() ==> (#[trigger] candidates@[k])
                        < self.config.sections@.len() && eligible(
                        self.config.sections@[candidates@[k] as int].1,
                        self.bpm,
                    ),
                forall|j: int|
                    0 <= j < i && eligible((#[trigger] self.config.sections@[j]).1, self.bpm)
                        ==> candidates@.contains(j as usize),
            decreases self.config.sections@.len() - i,
        {
            if section_is_eligible(&self.config.sections[i].1, self.bpm) {
                let ghost before = candidates@;
                candidates.push(i);
                assert(candidates@[before.len() as int] == i);
                assert forall|j: int|
                    0 <= j < i + 1 && eligible(
                        (#[trigger] self.config.sections@[j]).1,
                        self.bpm,
                    ) implies candidates@.contains(j as usize) by {
                    if j < i {
                        let k = choose|k: int| 0 <= k < before.len() && before[k] == j as usize;
                        assert(candidates@[k] == j as usize);
                    }
                }
            }
            i += 1;
        }
        let pick = choose_one(&candidates);
        proof {
            if pick is None {
                assert forall|j: int| 0 <= j < self@.sections.len() implies !eligible(
                    (#[trigger] self@.sections[j]).1,
                    self@.bpm,
                ) by {
                    if eligible(self.config.sections@[j].1, self.bpm) {
                        assert(candidates@.contains(j as usize));
                    }
                }
            } else {
                let k = choose|k: int| 0 <= k < candidates@.len() && candidates@[k] == pick->0;
                assert(candidates@[k] == pick->0);
            }
        }
        pick
    }

    /// Starts the picked section, if it may start at the current tempo.
    fn start_section(&mut self, pick: Option<usize>)
        ensures
            final(self)@ == old(self)@.start(pick),
    {
        match pick {
            Some(i) => {
                if i < self.config.sections.len() && section_is_eligible(
                    &self.config.sections[i].1,
                    self.bpm,
                ) {
                    self.current_section = Some(
                        ActiveSection::start(i, &self.config.sections[i].1),
                    );
                }
            },
            None => {},
        }
    }

    /// One tick of the current section; returns whether it ended.
    fn run_current(&mut self, notes: &mut Vec<NoteCommand>) -> (ended: bool)
        ensures
            (final(self)@, final(notes)@, ended) == old(self)@.run_current(old(notes)@),
    {
        match self.current_section.take() {
            None => false,
            Some(mut section) => {
                section.run(self.tick_t, notes);
                if section.events.len() == 0 {
                    // End of the section
                    true
                } else {
                    self.current_section = Some(section);
                    false
                }
            },
        }
    }

    fn section_tick(&mut self, immediate_next_section: bool, pick: Option<usize>) -> (notes: Vec<
        NoteCommand,
    >)
        ensures
            (final(self)@, notes@) == old(self)@.section_tick(immediate_next_section, pick),
    {
        let mut notes: Vec<NoteCommand> = Vec::new();
        let ended = self.run_current(&mut notes);
        if ended && immediate_next_section {
            self.start_section(pick);
            let _ = self.run_current(&mut notes);
        }
        notes
    }

    /// Advances the music by one tick, with the given outcomes of the two random choices
    /// of a section that a tick may need. Returns the notes to play now.
    pub fn tick_with(&mut self, first: Option<usize>, second: Option<usize>) -> (notes: Vec<
        NoteCommand,
    >)
        requires
            old(self)@.wf(),
        ensures
            (final(self)@, notes@) == old(self)@.tick(first, second),
            final(self)@.wf(),
    {
        self.tick = self.tick.saturating_add(1);
        let is_beat = self.tick % self.config.ticks_per_beat == 0;
        if self.current_section.is_none() {
            self.start_section(first);
        }
        let notes = self.section_tick(is_beat, second);
        proof {
            lemma_tick_keeps(old(self)@, first, second);
        }
        notes
    }

    /// Advances the music by one tick. Where a section has to be chosen, it is chosen
    /// at random among those that may start at the current tempo. Returns the notes to
    /// play now.
    pub fn tick(&mut self) -> (notes: Vec<NoteCommand>)
        requires
            old(self)@.wf(),
        ensures
            exists|first: Option<usize>, second: Option<usize>|
                old(self)@.valid_pick(first) && old(self)@.valid_pick(second) && (
                    final(self)@,
                    notes@,
                ) == #[trigger] old(self)@.tick(first, second),
            final(self)@.wf(),
    {
        let first = self.pick_section();
        let second = self.pick_section();
        self.tick_with(first, second)
    }

    /// Advances the music by `ticks` ticks. Returns the notes to play now, in the order
    /// of the ticks.
    pub fn advance(&mut self, ticks: Ticks) -> (notes: Vec<NoteCommand>)
        requires
            old(self)@.wf(),
        ensures
            advanced(old(self)@, final(self)@, notes@, ticks as int),
            final(self)@.wf(),
            final(self)@.soundfonts == old(self)@.soundfonts,
            final(self)@.sections == old(self)@.sections,
            final(self)@.ticks_per_beat == old(self)@.ticks_per_beat,
            final(self)@.bpm == old(self)@.bpm,
            final(self)@.tick_t == old(self)@.tick_t,
            final(self)@.tick == ticks_plus(old(self)@.tick, ticks as int),
    {
        let mut notes: Vec<NoteCommand> = Vec::new();
        let ghost mut picks: Seq<(Option<usize>, Option<usize>)> = Seq::empty();
        let mut done: Ticks = 0;
        while done < ticks
            invariant
                done <= ticks,
                picks.len() == done,
                self@.wf(),
                old(self)@.valid_picks(picks),
                (self@, notes@) == old(self)@.advance(picks),
            decreases ticks - done,
        {
            proof {
                lemma_advance_keeps(old(self)@, picks);
            }
            let first = self.pick_section();
            let second = self.pick_section();
            let mut more = self.tick_with(first, second);
            proof {
                let longer = picks.push((first, second));
                assert(longer.drop_last() =~= picks);
                assert(longer.last() == (first, second));
                assert forall|i: int| 0 <= i < longer.len() implies old(self)@.valid_pick(
                    (#[trigger] longer[i]).0,
                ) && old(self)@.valid_pick(longer[i].1) by {
                    if i < picks.len() {
                        assert(longer[i] == picks[i]);
                    }
                }
                picks = longer;
            }
            notes.append(&mut more);
            done += 1;
        }
        proof {
            lemma_advance_keeps(old(self)@, picks);
        }
        notes
    }
}

/// `after` and `notes` are what `ticks` ticks make of `before`, for some outcomes of the
/// random choices of a section that the ticks need.
pub open spec fn advanced(
    before: MusicState,
    after: MusicState,
    notes: Seq<NoteCommand>,
    ticks: int,
) -> bool {
    exists|picks: Seq<(Option<usize>, Option<usize>)>|
        picks.len() == ticks && before.valid_picks(picks) && (after, notes)
            == #[trigger] before.advance(picks)
}

/// Ticks change neither the configuration nor the tempo.
pub proof fn lemma_advance_keeps(s: MusicState, picks: Seq<(Option<usize>, Option<usize>)>)
    ensures
        s.advance(picks).0.soundfonts == s.soundfonts,
        s.advance(picks).0.sections == s.sections,
        s.advance(picks).0.ticks_per_beat == s.ticks_per_beat,
        s.advance(picks).0.bpm == s.bpm,
        s.advance(picks).0.tick_t == s.tick_t,
        s.advance(picks).0.tick == ticks_plus(s.tick, picks.len() as int),
    decreases picks.len(),
{
    if picks.len() > 0 {
        lemma_advance_keeps(s, picks.drop_last());
        lemma_tick_keeps(s.advance(picks.drop_last()).0, picks.last().0, picks.last().1);
    }
}

/// A tick changes neither the configuration nor the tempo.
pub proof fn lemma_tick_keeps(s: MusicState, first: Option<usize>, second: Option<usize>)
    ensures
        s.tick(first, second).0.soundfonts == s.soundfonts,
        s.tick(first, second).0.sections == s.sections,
        s.tick(first, second).0.ticks_per_beat == s.ticks_per_beat,
        s.tick(first, second).0.bpm == s.bpm,
        s.tick(first, second).0.tick_t == s.tick_t,
        s.tick(first, second).0.tick == ticks_plus(s.tick, 1),
{
}

} // verus!
