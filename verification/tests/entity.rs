use hivemind::model::entity::ComponentType;
use hivemind::version::Version;

#[derive(Debug, PartialEq)]
pub struct Position {
    x: i32,
    y: i32,
}

#[derive(Debug, PartialEq)]
pub struct Physics {
    weight: usize,
}

#[test]
pub fn test_ecs() {
    let mut physics: ComponentType<Physics> = ComponentType::new();
    let mut position: ComponentType<Position> = ComponentType::new();

    let entity = physics.add(Physics { weight: 70 });
    assert_eq!(entity, position.add(Position { x: 1, y: 2 }));
    assert_eq!(entity, 0);
    assert_eq!(physics.get(entity), Some(&Physics { weight: 70 }));
    assert_eq!(position.get(entity), Some(&Position { x: 1, y: 2 }));
}

#[test]
fn slots_grow_by_one() {
    let mut storage: ComponentType<u32> = ComponentType::new();
    assert_eq!(storage.get(0), None);
    assert_eq!(storage.add(10), 0);
    assert_eq!(storage.add(11), 1);
    assert_eq!(storage.add(12), 2);
    assert_eq!(storage.get(0), Some(&10));
    assert_eq!(storage.get(1), Some(&11));
    assert_eq!(storage.get(2), Some(&12));
    assert_eq!(storage.get(3), None);
}

#[test]
fn removed_slots_are_reused_oldest_first() {
    let mut storage: ComponentType<u32> = ComponentType::new();
    for n in 0..4 {
        storage.add(n);
    }
    storage.remove(2);
    storage.remove(0);
    assert_eq!(storage.get(2), None);
    assert_eq!(storage.get(0), None);
    assert_eq!(storage.get(1), Some(&1));
    assert_eq!(storage.add(20), 2);
    assert_eq!(storage.add(21), 0);
    assert_eq!(storage.add(22), 4);
    assert_eq!(storage.get(2), Some(&20));
    assert_eq!(storage.get(0), Some(&21));
    assert_eq!(storage.get(4), Some(&22));
}

#[test]
fn removing_beyond_the_storage_changes_nothing() {
    let mut storage: ComponentType<u32> = ComponentType::new();
    storage.add(5);
    storage.remove(1);
    storage.remove(usize::MAX);
    assert_eq!(storage.get(0), Some(&5));
    assert_eq!(storage.add(6), 1);
}

#[test]
fn version_numbers() {
    let version = Version::new(1, 2, 3);
    assert_eq!(version.major(), 1);
    assert_eq!(version.minor(), 2);
    assert_eq!(version.patch(), 3);
    assert_eq!(version, Version::new(1, 2, 3));
    assert_ne!(version, Version::new(1, 2, 4));
    assert_eq!(Version::current(), Version::new(0, 1, 0));
}
