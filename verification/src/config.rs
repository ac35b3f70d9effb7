use vstd::prelude::*;
use vstd::string::*;
use crate::fixed::Fixed;

verus! {

/// The name of a soundfont.
pub type SFName = String;

/// The name of a section.
pub type SectionName = String;

/// A number of ticks; also used for tempos counted in whole beats per minute.
pub type Ticks = u32;

/// The music that the sequencer may play. The soundfonts and the sections are found by
/// their names: in a well-formed configuration no name occurs twice among the
/// soundfonts, and none twice among the sections.
#[derive(Debug, Clone)]
pub struct MusicConfig {
    /// Each soundfont's name with the path of its file.
    pub soundfonts: Vec<(SFName, String)>,
    pub ticks_per_beat: Ticks,
    /// Each section's name with its script.
    pub sections: Vec<(SectionName, SectionConfig)>,
}

/// No name occurs twice.
pub open spec fn names_differ<T>(named: Seq<(String, T)>) -> bool {
    forall|i: int, j: int| 0 <= i < j < named.len() ==> named[i].0@ != named[j].0@
}

/// The place of the entry with the given name, if there is one.
pub open spec fn named_at<T>(named: Seq<(String, T)>, name: Seq<char>, place: int) -> bool {
    0 <= place < named.len() && named[place].0@ == name
}

/// Whether no name occurs twice.
pub fn check_names_differ<T>(named: &Vec<(String, T)>) -> (r: bool)
    ensures
        r == names_differ(named@),
{
    let mut j: usize = 0;
    while j < named.len()
        invariant
            j <= named@.len(),
            forall|i: int, k: int| 0 <= i < k < j ==> named@[i].0@ != named@[k].0@,
        decreases named@.len() - j,
    {
        let mut i: usize = 0;
        while i < j
            invariant
                i <= j < named@.len(),
                forall|k: int| 0 <= k < i ==> named@[k].0@ != named@[j as int].0@,
            decreases j - i,
        {
            if named[i].0 == named[j].0 {
                return false;
            }
            i += 1;
        }
        j += 1;
    }
    true
}

/// The place of the first entry with the given name.
pub fn find_name<T>(named: &Vec<(String, T)>, name: &String) -> (r: Option<usize>)
    ensures
        match r {
            Some(place) => named_at(named@, name@, place as int) && forall|i: int|
                0 <= i < place ==> !named_at(named@, name@, i),
            None => forall|i: int| !named_at(named@, name@, i),
        },
{
    let mut i: usize = 0;
    while i < named.len()
        invariant
            i <= named@.len(),
            forall|k: int| 0 <= k < i ==> !named_at(named@, name@, k),
        decreases named@.len() - i,
    {
        if named[i].0 == *name {
            return Some(i);
        }
        i += 1;
    }
    None
}

/// A scripted sequence of musical events, eligible within a range of tempos.
#[derive(Debug, Clone)]
pub struct SectionConfig {
    pub soundfont: SFConfig,
    /// The lowest and the highest tempo at which the section may start.
    pub bpm_range: [Ticks; 2],
    pub volume: Fixed,
    pub key: Note,
    pub default_velocity: u32,
    pub default_duration: Ticks,
    pub events: Vec<SectionEvent>,
}

#[derive(Debug, Clone)]
pub struct SFConfig {
    pub name: SFName,
    pub program: Option<u8>,
}

#[derive(Debug, Clone, Copy, PartialEq, Eq, Structural)]
pub enum SectionEvent {
    Delay { delay: Ticks },
    NoteDefault(NoteSpec),
    Note(NoteOn),
    Tagged(SectionEventTagged),
}

#[allow(inconsistent_fields)]
#[derive(Debug, Clone, Copy, PartialEq, Eq, Structural)]
pub enum SectionEventTagged {
    ChangeDefaultVelocity { value: u32 },
    ChangeDefaultDuration { value: Ticks },
}

#[derive(Debug, Clone, Copy, PartialEq, Eq, Structural)]
pub struct NoteOn {
    pub note: NoteSpec,
    pub velocity: Option<u32>,
    pub duration: Option<Ticks>,
}

#[derive(Debug, Clone, Copy, PartialEq, Eq, Structural)]
pub enum NoteSpec {
    /// A number of semitones above or below the section's key.
    KeyDelta(i8),
    Note(Note),
}

/// A pitch: an octave and a semitone within it, C being 0.
#[derive(Debug, Clone, Copy, PartialEq, Eq, Structural)]
pub struct Note {
    pub octave: u8,
    pub note: u8,
}

/// The highest number of semitones above the C of octave 0 that a [`Note`] can hold:
/// the B of octave 255.
pub const HIGHEST_SEMITONES: i32 = 3071;

/// The semitone that a letter names, C being 0.
pub open spec fn letter_index(c: char) -> Option<u8> {
    if c == 'C' {
        Some(0)
    } else if c == 'D' {
        Some(2)
    } else if c == 'E' {
        Some(4)
    } else if c == 'F' {
        Some(5)
    } else if c == 'G' {
        Some(7)
    } else if c == 'A' {
        Some(9)
    } else if c == 'B' {
        Some(11)
    } else {
        None
    }
}

/// The semitone that a name without octave stands for: a letter, or a letter other than
/// E and B followed by a sharp sign.
pub open spec fn name_index(name: Seq<char>) -> Option<u8> {
    if name.len() == 1 {
        letter_index(name[0])
    } else if name.len() == 2 && name[1] == '#' {
        match letter_index(name[0]) {
            Some(n) => if n != 4 && n != 11 {
                Some((n + 1) as u8)
            } else {
                None
            },
            None => None,
        }
    } else {
        None
    }
}

pub open spec fn is_digit(c: char) -> bool {
    '0' <= c <= '9'
}

pub open spec fn digit_value(c: char) -> u8 {
    (c as u32 - '0' as u32) as u8
}

/// The note that a name stands for: `<LETTER>[#]<OCTAVE>`, where the octave is one
/// digit and may be left out, in which case it is 4.
pub open spec fn spec_parse(s: Seq<char>) -> Option<Note> {
    if s.len() > 0 && is_digit(s.last()) {
        match name_index(s.drop_last()) {
            Some(note) => Some(Note { octave: digit_value(s.last()), note }),
            None => None,
        }
    } else {
        match name_index(s) {
            Some(note) => Some(Note { octave: 4, note }),
            None => None,
        }
    }
}

/// The name of a semitone below 12.
pub open spec fn spec_semitone_name(note: u8) -> Seq<char> {
    if note == 0 {
        seq!['C']
    } else if note == 1 {
        seq!['C', '#']
    } else if note == 2 {
        seq!['D']
    } else if note == 3 {
        seq!['D', '#']
    } else if note == 4 {
        seq!['E']
    } else if note == 5 {
        seq!['F']
    } else if note == 6 {
        seq!['F', '#']
    } else if note == 7 {
        seq!['G']
    } else if note == 8 {
        seq!['G', '#']
    } else if note == 9 {
        seq!['A']
    } else if note == 10 {
        seq!['A', '#']
    } else {
        seq!['B']
    }
}

fn letter_of(c: char) -> (r: Option<u8>)
    ensures
        r == letter_index(c),
{
    if c == 'C' {
        Some(0)
    } else if c == 'D' {
        Some(2)
    } else if c == 'E' {
        Some(4)
    } else if c == 'F' {
        Some(5)
    } else if c == 'G' {
        Some(7)
    } else if c == 'A' {
        Some(9)
    } else if c == 'B' {
        Some(11)
    } else {
        None
    }
}

impl NoteSpec {
    pub open spec fn spec_to_note(self, key: Note) -> Note {
        match self {
            NoteSpec::KeyDelta(delta) => key.spec_shift(delta),
            NoteSpec::Note(note) => note,
        }
    }

    /// The note that is meant in a section with the given key.
    pub fn to_note(self, key: Note) -> (r: Note)
        ensures
            r == self.spec_to_note(key),
    {
        match self {
            NoteSpec::KeyDelta(delta) => key.shift(delta),
            NoteSpec::Note(note) => note,
        }
    }
}

impl Note {
    /// The note `delta` semitones away from `self`, counted in semitones from the C of
    /// octave 0. Below that C the result is that C, and above the B of octave 255 it is
    /// that B: these are the ends of what a `Note` can hold.
    pub open spec fn spec_shift(self, delta: i8) -> Note {
        let semitones = self.spec_to_midi() + delta;
        if semitones < 0 {
            Note { octave: 0, note: 0 }
        } else if semitones > HIGHEST_SEMITONES {
            Note { octave: 255, note: 11 }
        } else {
            Note { octave: (semitones / 12) as u8, note: (semitones % 12) as u8 }
        }
    }

    pub open spec fn spec_from_midi(midi: u8) -> Note {
        Note { octave: midi / 12, note: midi % 12 }
    }

    pub open spec fn spec_to_midi(self) -> int {
        self.octave * 12 + self.note
    }

    /// The note `delta` semitones away.
    pub fn shift(self, delta: i8) -> (r: Self)
        ensures
            r == self.spec_shift(delta),
            r.note < 12,
            0 <= self.spec_to_midi() + delta <= HIGHEST_SEMITONES ==> r.spec_to_midi()
                == self.spec_to_midi() + delta,
    {
        let semitones: i32 = self.octave as i32 * 12 + self.note as i32 + delta as i32;
        if semitones < 0 {
            Self { octave: 0, note: 0 }
        } else if semitones > HIGHEST_SEMITONES {
            Self { octave: 255, note: 11 }
        } else {
            Self { octave: (semitones / 12) as u8, note: (semitones % 12) as u8 }
        }
    }

    /// A shift moves a note by as many semitones as it says: wherever the result is a
    /// MIDI number, it is the MIDI number of the note plus the offset, with a semitone
    /// below twelve; and a shift by nothing leaves such a note as it is.
    pub proof fn law_shift_is_semitones(self, delta: i8)
        ensures
            self.spec_shift(delta).note < 12,
            0 <= self.spec_to_midi() + delta <= 255 ==> self.spec_shift(delta).spec_to_midi()
                == self.spec_to_midi() + delta,
            self.note < 12 ==> self.spec_shift(0) == self,
            self.spec_to_midi() + delta < 0 ==> self.spec_shift(delta).spec_to_midi() == 0,
    {
    }

    pub fn from_midi(midi: u8) -> (r: Self)
        ensures
            r == Note::spec_from_midi(midi),
            r.spec_to_midi() == midi,
            r.note < 12,
    {
        Self { octave: midi / 12, note: midi % 12 }
    }

    /// The MIDI number of the note, which must fit a byte.
    pub fn to_midi(self) -> (r: u8)
        requires
            self.spec_to_midi() <= u8::MAX,
        ensures
            r == self.spec_to_midi(),
    {
        self.octave * 12 + self.note
    }

    /// The MIDI number of the note, or `None` where it does not fit a byte.
    pub fn checked_to_midi(self) -> (r: Option<u8>)
        ensures
            r == if self.spec_to_midi() <= u8::MAX {
                Some(self.spec_to_midi() as u8)
            } else {
                None
            },
    {
        let wide: u16 = self.octave as u16 * 12 + self.note as u16;
        if wide <= 255 {
            Some(wide as u8)
        } else {
            None
        }
    }

    /// The name of the note's semitone, without the octave.
    pub fn semitone_name(self) -> (r: &'static str)
        requires
            self.note < 12,
        ensures
            r@ == spec_semitone_name(self.note),
    {
        proof {
            reveal_strlit("C");
            reveal_strlit("C#");
            reveal_strlit("D");
            reveal_strlit("D#");
            reveal_strlit("E");
            reveal_strlit("F");
            reveal_strlit("F#");
            reveal_strlit("G");
            reveal_strlit("G#");
            reveal_strlit("A");
            reveal_strlit("A#");
            reveal_strlit("B");
        }
        let name = if self.note == 0 {
            "C"
        } else if self.note == 1 {
            "C#"
        } else if self.note == 2 {
            "D"
        } else if self.note == 3 {
            "D#"
        } else if self.note == 4 {
            "E"
        } else if self.note == 5 {
            "F"
        } else if self.note == 6 {
            "F#"
        } else if self.note == 7 {
            "G"
        } else if self.note == 8 {
            "G#"
        } else if self.note == 9 {
            "A"
        } else if self.note == 10 {
            "A#"
        } else {
            "B"
        };
        assert(name@ =~= spec_semitone_name(self.note));
        name
    }

    /// The note's name: the semitone's name followed by the octave in decimal digits.
    pub open spec fn spec_to_text(self) -> Seq<char> {
        spec_semitone_name(self.note) + crate::text::decimal(self.octave as nat)
    }

    /// The note's name, such as `C#4`.
    pub fn to_text(self) -> (r: String)
        requires
            self.note < 12,
        ensures
            r@ == self.spec_to_text(),
    {
        let mut text = String::from_str(self.semitone_name());
        crate::text::append_decimal(&mut text, self.octave as u64);
        text
    }

    /// Reads a note's name. Fails on anything but `<LETTER>[#]<OCTAVE>`.
    pub fn parse(s: &str) -> (r: Option<Note>)
        ensures
            r == spec_parse(s@),
    {
        let n = s.unicode_len();
        if n == 0 {
            return None;
        }
        let last = s.get_char(n - 1);
        let (name_len, octave): (usize, u8) = if '0' <= last && last <= '9' {
            (n - 1, (last as u32 - '0' as u32) as u8)
        } else {
            (n, 4)
        };
        let ghost name = if is_digit(s@.last()) {
            s@.drop_last()
        } else {
            s@
        };
        assert(name.len() == name_len);
        let index: Option<u8> = if name_len == 1 {
            let c = s.get_char(0);
            assert(c == name[0]);
            letter_of(c)
        } else if name_len == 2 {
            let c = s.get_char(0);
            let sharp = s.get_char(1);
            assert(c == name[0] && sharp == name[1]);
            if sharp == '#' {
                match letter_of(c) {
                    Some(l) => if l != 4 && l != 11 {
                        Some(l + 1)
                    } else {
                        None
                    },
                    None => None,
                }
            } else {
                None
            }
        } else {
            None
        };
        assert(index == name_index(name));
        match index {
            Some(note) => Some(Note { octave, note }),
            None => None,
        }
    }
}

impl MusicConfig {
    /// No name occurs twice among the soundfonts, and none twice among the sections.
    pub open spec fn wf(&self) -> bool {
        names_differ(self.soundfonts@) && names_differ(self.sections@)
    }

    /// Whether the configuration is well-formed.
    pub fn is_wf(&self) -> (r: bool)
        ensures
            r == self.wf(),
    {
        check_names_differ(&self.soundfonts) && check_names_differ(&self.sections)
    }

    /// The place of the section with the given name. In a well-formed configuration
    /// there is at most one.
    pub fn find_section(&self, name: &String) -> (r: Option<usize>)
        ensures
            match r {
                Some(place) => named_at(self.sections@, name@, place as int) && (self.wf()
                    ==> forall|i: int| named_at(self.sections@, name@, i) ==> i == place),
                None => forall|i: int| !named_at(self.sections@, name@, i),
            },
    {
        find_name(&self.sections, name)
    }

    /// The place of the soundfont with the given name. In a well-formed configuration
    /// there is at most one.
    pub fn find_soundfont(&self, name: &String) -> (r: Option<usize>)
        ensures
            match r {
                Some(place) => named_at(self.soundfonts@, name@, place as int) && (self.wf()
                    ==> forall|i: int| named_at(self.soundfonts@, name@, i) ==> i == place),
                None => forall|i: int| !named_at(self.soundfonts@, name@, i),
            },
    {
        find_name(&self.soundfonts, name)
    }

    /// No soundfonts, no sections, four ticks to the beat.
    pub fn new() -> (r: Self)
        ensures
            r.soundfonts@.len() == 0,
            r.sections@.len() == 0,
            r.ticks_per_beat == 4,
            r.wf(),
    {
        Self { soundfonts: Vec::new(), ticks_per_beat: 4, sections: Vec::new() }
    }
}

impl Default for MusicConfig {
    fn default() -> (r: Self)
        ensures
            r.soundfonts@.len() == 0,
            r.sections@.len() == 0,
            r.ticks_per_beat == 4,
            r.wf(),
    {
        Self::new()
    }
}

} // verus!
