use vstd::prelude::*;
use std::collections::VecDeque;
use crate::fixed::Fixed;

verus! {

/// A sound is handed out this long before it is due, with the time that is left as its
/// delay: 0.5 s.
pub const EARLY_PLAY: i64 = 500_000;

/// A sound that waits in the queue. Once the sound has been handed out, the place stays
/// until everything before it has been handed out too.
pub struct QueuedSound<T> {
    pub inner: Option<T>,
    /// The time in seconds until the sound is due.
    pub time_left: Fixed,
}

/// A sound to start playing now, after a delay.
pub struct StartedSound<T> {
    pub sound: T,
    /// The time in seconds to wait before the sound begins; never negative.
    pub delay: Fixed,
}

/// Sounds that wait for their time.
pub struct SoundQueue<T> {
    queue: VecDeque<QueuedSound<T>>,
}

/// The sound of a place after `delta_time` seconds: the time left falls; a sound that
/// is due within the next half second is handed out, and its place is left with no
/// sound and no time.
pub open spec fn step_sound<T>(sound: QueuedSound<T>, delta_time: Fixed) -> (
    QueuedSound<T>,
    Option<StartedSound<T>>,
) {
    let time_left = sound.time_left.spec_sub(delta_time);
    if time_left.raw <= EARLY_PLAY {
        (
            QueuedSound { inner: None, time_left: Fixed { raw: 0 } },
            match sound.inner {
                Some(inner) => Some(
                    StartedSound { sound: inner, delay: time_left.spec_max(Fixed { raw: 0 }) },
                ),
                None => None,
            },
        )
    } else {
        (QueuedSound { inner: sound.inner, time_left }, None)
    }
}

/// The places from `from` on after `delta_time` seconds, in their order.
pub open spec fn stepped<T>(sounds: Seq<QueuedSound<T>>, delta_time: Fixed, from: int) -> Seq<
    QueuedSound<T>,
>
    decreases sounds.len() - from,
{
    if from < 0 || from >= sounds.len() {
        Seq::empty()
    } else {
        seq![step_sound(sounds[from], delta_time).0] + stepped(sounds, delta_time, from + 1)
    }
}

/// The sounds that the places from `from` on hand out after `delta_time` seconds, in the
/// order of the places.
pub open spec fn started<T>(sounds: Seq<QueuedSound<T>>, delta_time: Fixed, from: int) -> Seq<
    StartedSound<T>,
>
    decreases sounds.len() - from,
{
    if from < 0 || from >= sounds.len() {
        Seq::empty()
    } else {
        match step_sound(sounds[from], delta_time).1 {
            Some(sound) => seq![sound] + started(sounds, delta_time, from + 1),
            None => started(sounds, delta_time, from + 1),
        }
    }
}

/// The places without those at the front that have no time left.
pub open spec fn trimmed<T>(sounds: Seq<QueuedSound<T>>) -> Seq<QueuedSound<T>>
    decreases sounds.len(),
{
    if sounds.len() > 0 && sounds[0].time_left.raw <= 0 {
        trimmed(sounds.subrange(1, sounds.len() as int))
    } else {
        sounds
    }
}

impl<T> View for SoundQueue<T> {
    type V = Seq<QueuedSound<T>>;

    closed spec fn view(&self) -> Seq<QueuedSound<T>> {
        self.queue@
    }
}

impl<T> SoundQueue<T> {
    pub fn new() -> (r: Self)
        ensures
            r@ == Seq::<QueuedSound<T>>::empty(),
    {
        SoundQueue { queue: VecDeque::new() }
    }

    /// The number of places in the queue.
    pub fn len(&self) -> (r: usize)
        ensures
            r == self@.len(),
    {
        self.queue.len()
    }

    /// The sound will be played `delay` seconds from now, behind the sounds that wait.
    pub fn play_delayed(&mut self, sound: T, delay: Fixed)
        ensures
            final(self)@ == old(self)@.push(QueuedSound { inner: Some(sound), time_left: delay }),
    {
        self.queue.push_back(QueuedSound { inner: Some(sound), time_left: delay });
    }

    /// The sound will be played after the next `update` call.
    pub fn play_immediately(&mut self, sound: T)
        ensures
            final(self)@ == seq![QueuedSound { inner: Some(sound), time_left: Fixed { raw: 0 } }]
                + old(self)@,
    {
        self.queue.push_front(QueuedSound { inner: Some(sound), time_left: Fixed::zero() });
    }

    /// Lets `delta_time` seconds pass. Returns the sounds that should start playing now.
    pub fn update(&mut self, delta_time: Fixed) -> (r: Vec<StartedSound<T>>)
        ensures
            r@ == started(old(self)@, delta_time, 0),
            final(self)@ == trimmed(stepped(old(self)@, delta_time, 0)),
    {
        let mut to_play: Vec<StartedSound<T>> = Vec::new();
        let mut waiting: VecDeque<QueuedSound<T>> = VecDeque::new();
        let ghost sounds = self.queue@;
        let ghost mut done: int = 0;

        // Update timers
        loop
            invariant_except_break
                0 <= done <= sounds.len(),
                self.queue@ == sounds.subrange(done, sounds.len() as int),
                waiting@ + stepped(sounds, delta_time, done) == stepped(sounds, delta_time, 0),
                to_play@ + started(sounds, delta_time, done) == started(sounds, delta_time, 0),
            ensures
                waiting@ == stepped(sounds, delta_time, 0),
                to_play@ == started(sounds, delta_time, 0),
            decreases sounds.len() - done,
        {
            match self.queue.pop_front() {
                None => {
                    assert(waiting@ + Seq::<QueuedSound<T>>::empty() =~= waiting@);
                    assert(to_play@ + Seq::<StartedSound<T>>::empty() =~= to_play@);
                    break ;
                },
                Some(sound) => {
                    assert(sound == sounds[done]);
                    let ghost rest = stepped(sounds, delta_time, done + 1);
                    let ghost more = started(sounds, delta_time, done + 1);
                    let time_left = sound.time_left.sub(delta_time);
                    if time_left.raw <= EARLY_PLAY {
                        // Hand the sound out to play it
                        match sound.inner {
                            Some(inner) => {
                                let begun = StartedSound {
                                    sound: inner,
                                    delay: time_left.max(Fixed::zero()),
                                };
                                assert(to_play@.push(begun) + more =~= to_play@ + (seq![begun]
                                    + more));
                                to_play.push(begun);
                            },
                            None => {},
                        }
                        let left = QueuedSound { inner: None, time_left: Fixed::zero() };
                        assert(waiting@.push(left) + rest =~= waiting@ + (seq![left] + rest));
                        waiting.push_back(left);
                    } else {
                        let left = QueuedSound { inner: sound.inner, time_left };
                        assert(waiting@.push(left) + rest =~= waiting@ + (seq![left] + rest));
                        waiting.push_back(left);
                    }
                    proof {
                        assert(self.queue@ =~= sounds.subrange(done + 1, sounds.len() as int));
                        done = done + 1;
                    }
                },
            }
        }

        // Remove played sounds from the front of the queue
        let ghost all = waiting@;
        loop
            invariant_except_break
                trimmed(waiting@) == trimmed(all),
            ensures
                waiting@ == trimmed(all),
            decreases waiting@.len(),
        {
            match waiting.pop_front() {
                None => {
                    break ;
                },
                Some(sound) => {
                    if sound.time_left.raw > 0 {
                        let ghost rest = waiting@;
                        waiting.push_front(sound);
                        assert(waiting@ =~= seq![sound] + rest);
                        break ;
                    }
                },
            }
        }
        self.queue = waiting;
        to_play
    }
}

impl<T> Default for SoundQueue<T> {
    fn default() -> (r: Self)
        ensures
            r@ == Seq::<QueuedSound<T>>::empty(),
    {
        Self::new()
    }
}

} // verus!
