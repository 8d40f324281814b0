use scroll_battle::items::attributes::{
    Attribute, Cannonball, Flintlock, Pellets, Pointy, CANNONBALL, FLINTLOCK, PELLETS, POINTY,
};
use scroll_battle::items::abilities::{AbilityTarget, TargetFilter};

#[test]
fn empty_gun_holds_nothing() {
    let gun = Flintlock::empty("Pellets".to_string(), 8);
    assert_eq!(gun.loaded(), 0);
    assert_eq!(gun.capacity(), 8);
    assert_eq!(gun.ammo(), "Pellets");
    assert!(!gun.full());
}

#[test]
fn fire_on_empty_gun_fails_and_leaves_it_empty() {
    let mut gun = Flintlock::empty("Pellets".to_string(), 8);
    assert!(!gun.fire());
    assert_eq!(gun.loaded(), 0);
    assert!(!gun.fire());
    assert_eq!(gun.loaded(), 0);
}

#[test]
fn fire_spends_one_shot() {
    let mut gun = Flintlock::empty("Pellets".to_string(), 8);
    gun.load(2);
    assert_eq!(gun.loaded(), 2);
    assert!(gun.fire());
    assert_eq!(gun.loaded(), 1);
    assert!(gun.fire());
    assert_eq!(gun.loaded(), 0);
    assert!(!gun.fire());
    assert_eq!(gun.loaded(), 0);
}

#[test]
fn load_saturates_at_capacity() {
    let mut gun = Flintlock::empty("Pellets".to_string(), 8);
    gun.load(3);
    gun.load(3);
    assert_eq!(gun.loaded(), 6);
    assert!(!gun.full());
    gun.load(3);
    assert_eq!(gun.loaded(), 8);
    assert!(gun.full());
    gun.load(usize::MAX);
    assert_eq!(gun.loaded(), 8);
    gun.load(0);
    assert_eq!(gun.loaded(), 8);
}

#[test]
fn loaded_never_exceeds_capacity() {
    for capacity in [0usize, 1, 5] {
        let mut gun = Flintlock::empty("Pellets".to_string(), capacity);
        for amount in [0usize, 1, 2, 7, usize::MAX, 3] {
            gun.load(amount);
            assert!(gun.loaded() <= gun.capacity());
        }
    }
}

#[test]
fn gun_without_room_is_full_from_the_start() {
    let mut gun = Flintlock::empty("Pellets".to_string(), 0);
    assert!(gun.full());
    gun.load(4);
    assert_eq!(gun.loaded(), 0);
    assert!(!gun.fire());
}

#[test]
fn can_load_asks_whether_the_name_holds_the_kind() {
    let gun = Flintlock::empty("Pellets".to_string(), 8);
    assert!(gun.can_load(&"Pellets".to_string()));
    assert!(gun.can_load(&"Bag of Pellets!".to_string()));
    assert!(!gun.can_load(&"Pellet".to_string()));
    assert!(!gun.can_load(&"pellets".to_string()));
    assert!(!gun.can_load(&"".to_string()));
    assert!(!gun.can_load(&"Chain".to_string()));
}

#[test]
fn gun_for_any_ammo() {
    let gun = Flintlock::empty(String::new(), 2);
    assert!(gun.can_load(&"Pellets".to_string()));
    assert!(gun.can_load(&String::new()));
}

#[test]
fn clone_keeps_the_load() {
    let mut gun = Flintlock::empty("Pellets".to_string(), 8);
    gun.load(5);
    let copy = gun.clone();
    gun.fire();
    assert_eq!(copy.loaded(), 5);
    assert_eq!(copy.capacity(), 8);
    assert_eq!(copy.ammo(), "Pellets");
    assert_eq!(gun.loaded(), 4);
}

#[test]
fn tag_names() {
    assert_eq!(POINTY, "Pointy");
    assert_eq!(FLINTLOCK, "Flintlock");
    assert_eq!(PELLETS, "Pellets");
    assert_eq!(CANNONBALL, "Pellets");
    assert_eq!(Pointy.name(), "Pointy");
    assert_eq!(Flintlock::empty(String::new(), 1).name(), "Flintlock");
    let target = AbilityTarget::with_all_attributes(TargetFilter::All);
    assert_eq!(Pellets { load_amount: 1, target: target.clone() }.name(), "Pellets");
    assert_eq!(Cannonball { load_amount: 1, target }.name(), "Pellets");
}
