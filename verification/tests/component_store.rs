use pseudo_rhythm::collection::Collection;
use pseudo_rhythm::component::{ComponentError, ComponentStorage};
use pseudo_rhythm::entity::Entities;
use pseudo_rhythm::fixed::Fixed;
use pseudo_rhythm::health::Health;
use pseudo_rhythm::id::{Id, IdGenerator};
use pseudo_rhythm::item::HeldItems;
use pseudo_rhythm::unit::Unit;
use pseudo_rhythm::vec2::{FVec2, IVec2};
use pseudo_rhythm::world::Fraction;

#[test]
fn id_generator_counts_up() {
    let mut ids = IdGenerator::new();
    assert_eq!(ids.next(), Id(0));
    assert_eq!(ids.next(), Id(1));
    assert_eq!(ids.next(), Id(2));
    let mut other = IdGenerator::default();
    assert_eq!(other.next(), Id(0));
}

#[test]
fn new_store_is_empty() {
    let store: ComponentStorage<u32> = ComponentStorage::new("Number");
    assert!(!store.contains(Id(0)));
    assert_eq!(store.len(), 0);
    assert!(store.ids().is_empty());
}

#[test]
fn insert_then_get() {
    let mut store = ComponentStorage::new("Number");
    assert_eq!(store.insert(Id(3), 30u32), Ok(()));
    assert!(store.contains(Id(3)));
    assert_eq!(store.get(Id(3)), Ok(&30));
}

#[test]
fn insert_on_a_held_id_fails_with_already_exists() {
    let mut store = ComponentStorage::new("Number");
    assert_eq!(store.insert(Id(3), 30u32), Ok(()));
    assert_eq!(
        store.insert(Id(3), 31),
        Err(ComponentError::AlreadyExists { id: Id(3), component: "Number" })
    );
    // the first value stays
    assert_eq!(store.get(Id(3)), Ok(&30));
}

#[test]
fn get_and_remove_on_a_missing_id_fail_with_not_found() {
    let mut store: ComponentStorage<u32> = ComponentStorage::new("Number");
    let missing = ComponentError::NotFound { id: Id(9), component: "Number" };
    assert_eq!(store.get(Id(9)), Err(missing));
    assert_eq!(store.remove(Id(9)), Err(missing));
    assert_eq!(store.update(Id(9), 1), Err(missing));
    assert!(!store.contains(Id(9)));
}

#[test]
fn remove_then_insert_gives_the_new_value() {
    let mut store = ComponentStorage::new("Number");
    store.insert(Id(1), 10u32).unwrap();
    assert_eq!(store.remove(Id(1)), Ok(10));
    assert!(!store.contains(Id(1)));
    assert_eq!(store.insert(Id(1), 11), Ok(()));
    assert_eq!(store.get(Id(1)), Ok(&11));
}

#[test]
fn update_replaces_only_what_is_there() {
    let mut store = ComponentStorage::new("Number");
    store.insert(Id(1), 10u32).unwrap();
    assert_eq!(store.update(Id(1), 12), Ok(()));
    assert_eq!(store.get(Id(1)), Ok(&12));
    assert_eq!(
        store.update(Id(2), 20),
        Err(ComponentError::NotFound { id: Id(2), component: "Number" })
    );
    assert!(!store.contains(Id(2)));
}

#[test]
fn insert_or_update_never_fails() {
    let mut store = ComponentStorage::new("Number");
    assert_eq!(store.insert_or_update(Id(1), 10u32), None);
    assert_eq!(store.insert_or_update(Id(1), 11), Some(10));
    assert_eq!(store.get(Id(1)), Ok(&11));
}

#[test]
fn ids_come_in_increasing_order() {
    let mut store = ComponentStorage::new("Number");
    for raw in [17u64, 3, 99, 0, 42, u64::MAX, 8] {
        store.insert(Id(raw), raw).unwrap();
    }
    store.remove(Id(42)).unwrap();
    assert_eq!(store.ids(), vec![Id(0), Id(3), Id(8), Id(17), Id(99), Id(u64::MAX)]);
    assert_eq!(store.len(), 6);
}

#[test]
fn default_collection_is_empty() {
    let mut items: Collection<u32> = Collection::default();
    assert!(items.is_empty());
    assert_eq!(items.remove(Id(0)), Err(ComponentError::NotFound { id: Id(0), component: "Item" }));
    assert_eq!(items.insert(1), Ok(Id(0)));
}

#[test]
fn collection_hands_out_ids() {
    let mut items: Collection<u32> = Collection::new("Item");
    assert!(items.is_empty());
    assert_eq!(items.insert(5), Ok(Id(0)));
    assert_eq!(items.insert(6), Ok(Id(1)));
    assert_eq!(items.get(Id(1)), Ok(&6));
    assert_eq!(items.remove(Id(0)), Ok(5));
    // a removed id is not used again
    assert_eq!(items.insert(7), Ok(Id(2)));
    assert_eq!(items.ids(), vec![Id(1), Id(2)]);
    assert!(items.contains(Id(2)));
    assert!(!items.contains(Id(0)));
    assert_eq!(items.update(Id(2), 8), Ok(()));
    assert_eq!(items.get(Id(2)), Ok(&8));
    assert_eq!(
        items.update(Id(0), 1),
        Err(ComponentError::NotFound { id: Id(0), component: "Item" })
    );
    assert_eq!(items.get(Id(0)), Err(ComponentError::NotFound { id: Id(0), component: "Item" }));
    assert!(!items.is_empty());
}

fn plain_unit(x: i64, y: i64) -> Unit {
    Unit {
        unit: None,
        fraction: Fraction::Enemy,
        grid_position: IVec2::new(x, y),
        world_position: FVec2::zero(),
        health: Health::new(Fixed::from_int(3)),
        held_items: HeldItems::default(),
    }
}

#[test]
fn entities_spawn_and_remove() {
    let mut entities = Entities::new();
    let a = entities.spawn().unwrap();
    let b = entities.spawn().unwrap();
    assert_eq!(a, Id(0));
    assert_eq!(b, Id(1));
    assert!(entities.ids().contains(a));
    assert!(entities.remove(a));
    assert!(!entities.ids().contains(a));
    // removing what does not exist tells so
    assert!(!entities.remove(a));
    assert!(!entities.remove(Id(77)));
}

#[test]
fn entities_insert_fills_every_store_and_remove_clears_them() {
    let mut entities = Entities::default();
    let id = entities.insert(plain_unit(4, 5)).unwrap();
    assert!(entities.ids().contains(id));
    assert_eq!(entities.grid_position.get(id), Ok(&IVec2::new(4, 5)));
    assert_eq!(entities.fraction.get(id), Ok(&Fraction::Enemy));
    assert_eq!(entities.health.get(id).unwrap().get(), Fixed::from_int(3));
    assert!(entities.world_position.contains(id));
    assert!(entities.held_items.contains(id));
    // a unit without a mind of its own has no entry there
    assert!(!entities.unit.contains(id));

    assert!(entities.remove(id));
    assert!(!entities.ids().contains(id));
    assert!(!entities.grid_position.contains(id));
    assert!(!entities.world_position.contains(id));
    assert!(!entities.fraction.contains(id));
    assert!(!entities.health.contains(id));
    assert!(!entities.held_items.contains(id));
    assert!(!entities.unit.contains(id));
    assert_eq!(
        entities.health.get(id).err(),
        Some(ComponentError::NotFound { id, component: "Health" })
    );
}

#[test]
fn health_is_clamped() {
    let mut h = Health::new(Fixed::from_int(10));
    assert_eq!(h.get(), Fixed::from_int(10));
    assert_eq!(h.get_max(), Fixed::from_int(10));
    assert_eq!(h.get_ratio(), Fixed::one());
    assert!(h.is_alive());
    assert!(!h.is_dead());
    h.damage(Fixed::from_raw(2_500_000));
    assert_eq!(h.get().raw, 7_500_000);
    assert_eq!(h.get_max(), Fixed::from_int(10));
    assert_eq!(h.get_ratio().raw, 750_000);
    h.heal(Fixed::from_int(100));
    assert_eq!(h.get(), Fixed::from_int(10));
    h.change(Fixed::from_int(-4));
    assert_eq!(h.get(), Fixed::from_int(6));
    h.damage(Fixed::from_int(100));
    assert_eq!(h.get(), Fixed::zero());
    assert!(h.is_dead());
    assert!(!h.is_alive());
}

#[test]
fn health_change_max_leaves_the_hit_points() {
    let mut h = Health::new(Fixed::from_int(10));
    h.change_max(Fixed::from_int(5));
    assert_eq!(h.get_max(), Fixed::from_int(15));
    assert_eq!(h.get(), Fixed::from_int(10));
    h.heal(Fixed::from_int(100));
    assert_eq!(h.get(), Fixed::from_int(15));
    h.change_max(Fixed::from_int(-20));
    assert_eq!(h.get_max(), Fixed::from_int(-5));
    // with a maximum below zero the hit points go to zero at the next change
    h.heal(Fixed::from_int(1));
    assert_eq!(h.get(), Fixed::zero());
}
