use pseudo_rhythm::component::{ComponentError, ComponentStorage};
use pseudo_rhythm::config::Note;
use pseudo_rhythm::context::ContextError;
use pseudo_rhythm::fixed::Fixed;
use pseudo_rhythm::id::Id;
use pseudo_rhythm::sound_queue::SoundQueue;
use pseudo_rhythm::text::{append_decimal, digit_text};
use pseudo_rhythm::unit::{BehaviourContextError, BehaviourError};
use pseudo_rhythm::world::SystemError;

fn decimal(n: u64) -> String {
    let mut text = String::new();
    append_decimal(&mut text, n);
    text
}

#[test]
fn decimal_digits() {
    assert_eq!(digit_text(0), "0");
    assert_eq!(digit_text(9), "9");
    assert_eq!(decimal(0), "0");
    assert_eq!(decimal(7), "7");
    assert_eq!(decimal(10), "10");
    assert_eq!(decimal(255), "255");
    assert_eq!(decimal(1_000_000), "1000000");
    assert_eq!(decimal(u64::MAX), "18446744073709551615");
    let mut text = String::from("n = ");
    append_decimal(&mut text, 42);
    assert_eq!(text, "n = 42");
}

#[test]
fn note_names() {
    assert_eq!(Note { octave: 4, note: 0 }.to_text(), "C4");
    assert_eq!(Note { octave: 4, note: 1 }.to_text(), "C#4");
    assert_eq!(Note { octave: 0, note: 11 }.to_text(), "B0");
    assert_eq!(Note { octave: 10, note: 6 }.to_text(), "F#10");
    assert_eq!(Note { octave: 255, note: 9 }.to_text(), "A255");
    assert_eq!(Note::from_midi(60).to_text(), "C5");
}

#[test]
fn component_error_messages() {
    let missing = ComponentError::NotFound { id: Id(3), component: "Health" };
    assert_eq!(missing.message(), "component Health not found for Id(3)");
    let twice = ComponentError::AlreadyExists { id: Id(120), component: "Id" };
    assert_eq!(twice.message(), "component Id already exists for Id(120)");
}

#[test]
fn behaviour_and_system_error_messages() {
    let missing = ComponentError::NotFound { id: Id(3), component: "Health" };
    assert_eq!(
        BehaviourError::Component(missing).message(),
        "Component error: component Health not found for Id(3)"
    );
    assert_eq!(
        BehaviourError::Context(BehaviourContextError::NoInput).message(),
        "Context error: behaviour context missing action input"
    );
    assert_eq!(
        SystemError::Component(missing).message(),
        "Component error: component Health not found for Id(3)"
    );
    assert_eq!(
        SystemError::Context(ContextError::NoCaster).message(),
        "Context error: Caster expected but not found in effect context"
    );
    assert_eq!(
        SystemError::Behaviour(BehaviourError::Context(BehaviourContextError::NoTarget)).message(),
        "Behaviour error: Context error: behaviour context missing target"
    );
}

#[test]
fn get_mut_changes_in_place() {
    let mut store = ComponentStorage::new("Number");
    store.insert(Id(1), 10u32).unwrap();
    *store.get_mut(Id(1)).unwrap() += 5;
    assert_eq!(store.get(Id(1)), Ok(&15));
    assert_eq!(
        store.get_mut(Id(2)).err(),
        Some(ComponentError::NotFound { id: Id(2), component: "Number" })
    );
    assert!(!store.contains(Id(2)));
}

fn started(queue: &mut SoundQueue<u32>, millis: i64) -> Vec<(u32, i64)> {
    queue
        .update(Fixed::from_raw(millis * 1_000))
        .into_iter()
        .map(|s| (s.sound, s.delay.raw))
        .collect()
}

#[test]
fn immediate_sound_starts_at_the_next_update() {
    let mut queue: SoundQueue<u32> = SoundQueue::new();
    queue.play_immediately(7);
    assert_eq!(queue.len(), 1);
    assert_eq!(started(&mut queue, 16), vec![(7, 0)]);
    assert_eq!(queue.len(), 0);
    assert_eq!(started(&mut queue, 16), vec![]);
}

#[test]
fn delayed_sound_is_handed_out_half_a_second_early() {
    let mut queue: SoundQueue<u32> = SoundQueue::default();
    queue.play_delayed(1, Fixed::from_int(2));
    // 1.1 s left: not yet
    assert_eq!(started(&mut queue, 900), vec![]);
    assert_eq!(queue.len(), 1);
    // 0.4 s left: handed out with that delay
    assert_eq!(started(&mut queue, 700), vec![(1, 400_000)]);
    assert_eq!(queue.len(), 0);
}

#[test]
fn sound_due_in_exactly_half_a_second_is_handed_out() {
    let mut queue: SoundQueue<u32> = SoundQueue::new();
    queue.play_delayed(1, Fixed::from_int(1));
    assert_eq!(started(&mut queue, 500), vec![(1, 500_000)]);
}

#[test]
fn overdue_sound_starts_without_delay() {
    let mut queue: SoundQueue<u32> = SoundQueue::new();
    queue.play_delayed(1, Fixed::from_raw(100_000));
    assert_eq!(started(&mut queue, 1_000), vec![(1, 0)]);
}

#[test]
fn place_behind_a_waiting_sound_stays_but_plays_only_once() {
    let mut queue: SoundQueue<u32> = SoundQueue::new();
    queue.play_delayed(1, Fixed::from_int(5));
    queue.play_delayed(2, Fixed::from_int(1));
    // the second is due first; its place stays behind the first
    assert_eq!(started(&mut queue, 600), vec![(2, 400_000)]);
    assert_eq!(queue.len(), 2);
    assert_eq!(started(&mut queue, 600), vec![]);
    assert_eq!(queue.len(), 2);
    assert_eq!(started(&mut queue, 3_400), vec![(1, 400_000)]);
    assert_eq!(queue.len(), 0);
}

#[test]
fn immediate_sounds_come_before_the_waiting() {
    let mut queue: SoundQueue<u32> = SoundQueue::new();
    queue.play_delayed(1, Fixed::from_raw(300_000));
    queue.play_immediately(2);
    queue.play_immediately(3);
    assert_eq!(started(&mut queue, 0), vec![(3, 0), (2, 0), (1, 300_000)]);
    assert_eq!(queue.len(), 0);
}
