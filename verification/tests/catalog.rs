use scroll_battle::common::Name;
use scroll_battle::items::abilities::{Ability, TargetFilter};
use scroll_battle::items::{Consumable, Effect, Item, ItemType, Rarity};

const ALL_KINDS: [ItemType; 26] = [
    ItemType::WoodenSword,
    ItemType::IronSword,
    ItemType::BlessedSword,
    ItemType::CursedSword,
    ItemType::IronCutlass,
    ItemType::BlessedCutlass,
    ItemType::CursedCutlass,
    ItemType::Flag,
    ItemType::Spyglass,
    ItemType::Grog,
    ItemType::JewelOfTheSea,
    ItemType::JewelOfLife,
    ItemType::JewelOfTheEarth,
    ItemType::CursedJewel,
    ItemType::Orange,
    ItemType::BagOfBeans,
    ItemType::MurkyBroth,
    ItemType::Blunderbuss,
    ItemType::BagOfPellets,
    ItemType::Cannon,
    ItemType::Cannonball,
    ItemType::ChainShot,
    ItemType::CursedVial,
    ItemType::VialOfLife,
    ItemType::VialOfTheSea,
    ItemType::VialOfTheEarth,
];

fn made(kind: ItemType) -> Item {
    let mut item = Item::new(1, Name(kind.name()), Rarity::Mundane);
    assert!(kind.insert(&mut item));
    item
}

#[test]
fn image_indices() {
    let expected: [usize; 26] = [
        0, 1, 2, 3, 4, 5, 6, 31, 23, 33, 36, 35, 37, 34, 16, 17, 18, 8, 9, 13, 14, 15, 26, 27, 28,
        29,
    ];
    for (kind, index) in ALL_KINDS.iter().zip(expected) {
        assert_eq!(kind.image_index(), index);
    }
}

#[test]
fn kind_names() {
    let expected = [
        "Wooden Sword",
        "Iron Sword",
        "Blessed Sword",
        "Cursed Sword",
        "Iron Cutlass",
        "Blessed Cutlass",
        "Cursed Cutlass",
        "Flag",
        "Spyglass",
        "Grog",
        "Jewel of the Sea",
        "Jewel of Life",
        "Jewel of the Earth",
        "Cursed Jewel",
        "Orange",
        "Bag Of Beans",
        "Murky Broth",
        "Blunderbuss",
        "Bag Of Pellets",
        "Cannon",
        "Cannonball",
        "Chain Shot",
        "Cursed Vial",
        "Vial Of Life",
        "Vial Of The Sea",
        "Vial Of The Earth",
    ];
    for (kind, name) in ALL_KINDS.iter().zip(expected) {
        assert_eq!(kind.name(), name);
    }
}

#[test]
fn rarity_names() {
    assert_eq!(Rarity::Mundane.name(), "Mundane");
    assert_eq!(Rarity::Scarce.name(), "Scarce");
    assert_eq!(Rarity::Precious.name(), "Precious");
    assert_eq!(Rarity::Mythic.name(), "Mythic");
}

#[test]
fn rarity_tables() {
    assert_eq!(
        Rarity::Mundane.items(),
        vec![ItemType::BagOfPellets, ItemType::Orange, ItemType::Grog, ItemType::WoodenSword]
    );
    assert_eq!(
        Rarity::Scarce.items(),
        vec![
            ItemType::IronSword,
            ItemType::IronCutlass,
            ItemType::Flag,
            ItemType::Spyglass,
            ItemType::Blunderbuss
        ]
    );
    assert_eq!(
        Rarity::Precious.items(),
        vec![
            ItemType::BlessedSword,
            ItemType::BlessedCutlass,
            ItemType::CursedSword,
            ItemType::CursedCutlass
        ]
    );
    assert_eq!(
        Rarity::Mythic.items(),
        vec![
            ItemType::JewelOfTheSea,
            ItemType::JewelOfTheEarth,
            ItemType::JewelOfLife,
            ItemType::CursedJewel
        ]
    );
}

#[test]
fn rarity_of_each_kind() {
    assert_eq!(ItemType::Grog.rarity(), Some(Rarity::Mundane));
    assert_eq!(ItemType::WoodenSword.rarity(), Some(Rarity::Mundane));
    assert_eq!(ItemType::Blunderbuss.rarity(), Some(Rarity::Scarce));
    assert_eq!(ItemType::CursedCutlass.rarity(), Some(Rarity::Precious));
    assert_eq!(ItemType::JewelOfTheEarth.rarity(), Some(Rarity::Mythic));
    for rarity in [Rarity::Mundane, Rarity::Scarce, Rarity::Precious, Rarity::Mythic] {
        for kind in rarity.items() {
            assert_eq!(kind.rarity(), Some(rarity));
        }
    }
}

#[test]
fn unlisted_kinds_have_no_rarity() {
    for kind in [
        ItemType::BagOfBeans,
        ItemType::MurkyBroth,
        ItemType::Cannon,
        ItemType::Cannonball,
        ItemType::ChainShot,
        ItemType::CursedVial,
        ItemType::VialOfLife,
        ItemType::VialOfTheSea,
        ItemType::VialOfTheEarth,
    ] {
        assert_eq!(kind.rarity(), None);
        assert!(kind.spawn(3).is_none());
    }
}

#[test]
fn item_at_follows_the_table() {
    assert_eq!(Rarity::Mundane.item_at(0), Some(ItemType::BagOfPellets));
    assert_eq!(Rarity::Mundane.item_at(3), Some(ItemType::WoodenSword));
    assert_eq!(Rarity::Mundane.item_at(4), None);
    assert_eq!(Rarity::Scarce.item_at(4), Some(ItemType::Blunderbuss));
    assert_eq!(Rarity::Scarce.item_at(5), None);
    assert_eq!(Rarity::Mythic.item_at(1), Some(ItemType::JewelOfTheEarth));
}

#[test]
fn jewel_of_the_earth_cannot_be_made() {
    let mut item = Item::new(1, Name("x".to_string()), Rarity::Mythic);
    assert!(!ItemType::JewelOfTheEarth.insert(&mut item));
    assert!(item.damage.is_none() && item.heave.is_none() && item.consumable.is_none());
    assert!(ItemType::JewelOfTheEarth.spawn(1).is_none());
}

#[test]
fn spawn_gives_name_rarity_and_id() {
    let sword = ItemType::IronSword.spawn(42).unwrap();
    assert_eq!(sword.id, 42);
    assert_eq!(sword.name.0, "Iron Sword");
    assert_eq!(sword.rarity, Rarity::Scarce);
    assert_eq!(sword.damage.as_ref().unwrap().amount(), 5);
    assert!(sword.pointy.is_some());
}

#[test]
fn swords_and_cutlasses() {
    let wooden = made(ItemType::WoodenSword);
    assert_eq!(wooden.damage.as_ref().unwrap().base, 3);
    assert!(wooden.pointy.is_some());
    assert!(wooden.hearties.is_none() && wooden.cursed.is_none() && wooden.sea_legs.is_none());
    let blessed = made(ItemType::BlessedSword);
    assert_eq!(blessed.damage.as_ref().unwrap().base, 4);
    assert_eq!(blessed.hearties.as_ref().unwrap().base, 2);
    assert!(blessed.pointy.is_some());
    let cursed = made(ItemType::CursedSword);
    assert_eq!(cursed.damage.as_ref().unwrap().base, 8);
    assert_eq!(cursed.cursed.as_ref().unwrap().base, 2);
    let iron = made(ItemType::IronCutlass);
    assert_eq!(iron.damage.as_ref().unwrap().base, 3);
    assert_eq!(iron.sea_legs.as_ref().unwrap().base, 1);
    let blessed = made(ItemType::BlessedCutlass);
    assert_eq!(blessed.damage.as_ref().unwrap().base, 2);
    assert_eq!(blessed.sea_legs.as_ref().unwrap().base, 1);
    assert_eq!(blessed.hearties.as_ref().unwrap().base, 1);
    let cursed = made(ItemType::CursedCutlass);
    assert_eq!(cursed.damage.as_ref().unwrap().base, 5);
    assert_eq!(cursed.sea_legs.as_ref().unwrap().base, 2);
    assert_eq!(cursed.cursed.as_ref().unwrap().base, 2);
    assert!(cursed.pointy.is_some());
}

#[test]
fn area_items() {
    let flag = made(ItemType::Flag);
    let heave = flag.heave.as_ref().unwrap();
    assert_eq!(heave.base, 2);
    assert_eq!(heave.target.filter, TargetFilter::Neighbours);
    assert_eq!(heave.target.attribute, "Pointy");
    assert!(flag.pointy.is_none());
    let spyglass = made(ItemType::Spyglass);
    let heave = spyglass.heave.as_ref().unwrap();
    assert_eq!(heave.base, 1);
    assert_eq!(heave.target.filter, TargetFilter::Next(3));
    assert_eq!(heave.target.attribute, "Pointy");
    let sea = made(ItemType::JewelOfTheSea);
    let swashbuckle = sea.swashbuckle.as_ref().unwrap();
    assert_eq!(swashbuckle.base, 1);
    assert_eq!(swashbuckle.target.filter, TargetFilter::All);
    assert_eq!(swashbuckle.target.attribute, "");
    let life = made(ItemType::JewelOfLife);
    let jolly = life.jolly.as_ref().unwrap();
    assert_eq!(jolly.base, 1);
    assert_eq!(jolly.target.filter, TargetFilter::All);
    assert_eq!(jolly.target.attribute, "");
    let jewel = made(ItemType::CursedJewel);
    assert_eq!(jewel.cursed.as_ref().unwrap().base, 2);
    assert_eq!(jewel.heave.as_ref().unwrap().base, 1);
    assert_eq!(jewel.heave.as_ref().unwrap().target.filter, TargetFilter::All);
    assert_eq!(jewel.heave.as_ref().unwrap().target.attribute, "");
}

#[test]
fn food_and_drink() {
    let grog = made(ItemType::Grog);
    assert_eq!(grog.sea_legs.as_ref().unwrap().base, 3);
    assert_eq!(grog.consumable, Some(Consumable(3)));
    let orange = made(ItemType::Orange);
    assert_eq!(orange.hearties.as_ref().unwrap().base, 7);
    assert_eq!(orange.consumable, Some(Consumable(1)));
    let beans = made(ItemType::BagOfBeans);
    assert_eq!(beans.hearties.as_ref().unwrap().base, 4);
    assert_eq!(beans.consumable, Some(Consumable(2)));
    let broth = made(ItemType::MurkyBroth);
    assert_eq!(broth.hearties.as_ref().unwrap().base, 3);
    assert_eq!(broth.sea_legs.as_ref().unwrap().base, 1);
    assert_eq!(broth.consumable, Some(Consumable(2)));
}

#[test]
fn guns_and_ammunition() {
    let blunderbuss = made(ItemType::Blunderbuss);
    let gun = blunderbuss.flintlock.as_ref().unwrap();
    assert_eq!((gun.ammo().as_str(), gun.capacity(), gun.loaded()), ("Pellets", 8, 0));
    assert_eq!(blunderbuss.damage.as_ref().unwrap().base, 15);
    let cannon = made(ItemType::Cannon);
    let gun = cannon.flintlock.as_ref().unwrap();
    assert_eq!((gun.ammo().as_str(), gun.capacity(), gun.loaded()), ("Pellets", 27, 0));
    assert_eq!(cannon.damage.as_ref().unwrap().base, 5);
    let bag = made(ItemType::BagOfPellets);
    let pellets = bag.pellets.as_ref().unwrap();
    assert_eq!(pellets.load_amount, 2);
    assert_eq!(pellets.target.filter, TargetFilter::AllNext);
    assert_eq!(pellets.target.attribute, "Flintlock");
    assert_eq!(bag.consumable, Some(Consumable(6)));
    let ball = made(ItemType::Cannonball);
    let cannonball = ball.cannonball.as_ref().unwrap();
    assert_eq!(cannonball.load_amount, 1);
    assert_eq!(cannonball.target.filter, TargetFilter::Next(1));
    assert_eq!(cannonball.target.attribute, "Flintlock");
    assert_eq!(ball.consumable, Some(Consumable(1)));
    let chain = made(ItemType::ChainShot);
    let cannonball = chain.cannonball.as_ref().unwrap();
    assert_eq!(cannonball.load_amount, 1);
    assert_eq!(cannonball.target.filter, TargetFilter::Prev(2));
    assert_eq!(chain.consumable, Some(Consumable(1)));
}

#[test]
fn vials_carry_nothing() {
    for kind in [
        ItemType::CursedVial,
        ItemType::VialOfLife,
        ItemType::VialOfTheSea,
        ItemType::VialOfTheEarth,
    ] {
        let vial = made(kind);
        assert!(vial.damage.is_none() && vial.hearties.is_none() && vial.cursed.is_none());
        assert!(vial.heave.is_none() && vial.sea_legs.is_none() && vial.swashbuckle.is_none());
        assert!(vial.jolly.is_none() && vial.vitality.is_none() && vial.pointy.is_none());
        assert!(vial.flintlock.is_none() && vial.pellets.is_none());
        assert!(vial.cannonball.is_none() && vial.consumable.is_none());
    }
}

#[test]
fn consumable_counts_down_to_zero() {
    let mut uses = Consumable(3);
    assert!(!uses.use_once());
    assert_eq!(uses, Consumable(2));
    assert!(!uses.use_once());
    assert!(uses.use_once());
    assert_eq!(uses, Consumable(0));
    assert!(uses.use_once());
    assert_eq!(uses, Consumable(0));
    let mut odd = Consumable(-7);
    assert!(odd.use_once());
    assert_eq!(odd, Consumable(0));
    let mut low = Consumable(i32::MIN);
    assert!(low.use_once());
    assert_eq!(low, Consumable(0));
}

#[test]
fn tagged_item_answers_to_what_its_tags_hold() {
    let sword = made(ItemType::WoodenSword);
    assert!(sword.carries(&"Pointy".to_string()));
    assert!(sword.carries(&"oint".to_string()));
    assert!(sword.carries(&String::new()));
    assert!(!sword.carries(&"Flintlock".to_string()));
    assert!(!sword.carries(&"Pointy!".to_string()));
    let gun = made(ItemType::Blunderbuss);
    assert!(gun.carries(&"Flintlock".to_string()));
    assert!(!gun.carries(&"Pointy".to_string()));
    let bag = made(ItemType::BagOfPellets);
    assert!(bag.carries(&"Pellets".to_string()));
    let ball = made(ItemType::Cannonball);
    assert!(ball.carries(&"Pellets".to_string()));
    assert!(!ball.carries(&"Cannonball".to_string()));
}

#[test]
fn untagged_item_answers_only_to_no_tag() {
    let grog = made(ItemType::Grog);
    assert!(grog.carries(&String::new()));
    assert!(!grog.carries(&"Pointy".to_string()));
}

#[test]
fn heave_reaches_tagged_damage_only() {
    let mut sword = made(ItemType::WoodenSword);
    sword.receive_heave(9, 2, &"Pointy".to_string());
    assert_eq!(sword.damage.as_ref().unwrap().amount(), 5);
    sword.receive_heave(9, 2, &"Pointy".to_string());
    assert_eq!(sword.damage.as_ref().unwrap().amount(), 5);
    sword.receive_heave(8, 1, &String::new());
    assert_eq!(sword.damage.as_ref().unwrap().amount(), 6);
    sword.receive_heave(7, 4, &"Flintlock".to_string());
    assert_eq!(sword.damage.as_ref().unwrap().amount(), 6);
    let mut gun = made(ItemType::Blunderbuss);
    gun.receive_heave(9, 2, &"Pointy".to_string());
    assert_eq!(gun.damage.as_ref().unwrap().amount(), 15);
    gun.receive_heave(9, 2, &String::new());
    assert_eq!(gun.damage.as_ref().unwrap().amount(), 17);
    let mut grog = made(ItemType::Grog);
    grog.receive_heave(9, 2, &String::new());
    assert!(grog.damage.is_none());
    assert_eq!(grog.sea_legs.as_ref().unwrap().amount(), 3);
}

#[test]
fn swashbuckle_and_jolly_reach_their_own_abilities() {
    let mut cutlass = made(ItemType::BlessedCutlass);
    cutlass.receive_swashbuckle(5, 1, &String::new());
    cutlass.receive_jolly(6, 3, &String::new());
    assert_eq!(cutlass.sea_legs.as_ref().unwrap().amount(), 2);
    assert_eq!(cutlass.hearties.as_ref().unwrap().amount(), 4);
    assert_eq!(cutlass.damage.as_ref().unwrap().amount(), 2);
    cutlass.receive(&Effect::Jolly { source: 6, amount: 1, tag: "Pointy".to_string() });
    assert_eq!(cutlass.hearties.as_ref().unwrap().amount(), 2);
    cutlass.receive(&Effect::Swashbuckle { source: 7, amount: 1, tag: "Nope".to_string() });
    assert_eq!(cutlass.sea_legs.as_ref().unwrap().amount(), 2);
}

#[test]
fn ammunition_loads_guns_that_take_it() {
    let mut gun = made(ItemType::Blunderbuss);
    gun.receive_ammo(&"Pellets".to_string(), 2, &"Flintlock".to_string());
    assert_eq!(gun.flintlock.as_ref().unwrap().loaded(), 2);
    gun.receive_ammo(&"Arrows".to_string(), 2, &"Flintlock".to_string());
    assert_eq!(gun.flintlock.as_ref().unwrap().loaded(), 2);
    gun.receive_ammo(&"Pellets".to_string(), 2, &"Pointy".to_string());
    assert_eq!(gun.flintlock.as_ref().unwrap().loaded(), 2);
    gun.receive(&Effect::Supply {
        ammo: "Pellets".to_string(),
        shots: 20,
        tag: String::new(),
    });
    assert_eq!(gun.flintlock.as_ref().unwrap().loaded(), 8);
    let mut sword = made(ItemType::WoodenSword);
    sword.receive_ammo(&"Pellets".to_string(), 2, &String::new());
    assert!(sword.flintlock.is_none());
}

#[test]
fn clear_modifiers_brings_every_amount_back_to_base() {
    let mut cutlass = made(ItemType::BlessedCutlass);
    cutlass.receive_heave(1, 4, &String::new());
    cutlass.receive_swashbuckle(2, 5, &String::new());
    cutlass.receive_jolly(3, 6, &String::new());
    cutlass.clear_modifiers();
    assert_eq!(cutlass.damage.as_ref().unwrap().amount(), 2);
    assert_eq!(cutlass.sea_legs.as_ref().unwrap().amount(), 1);
    assert_eq!(cutlass.hearties.as_ref().unwrap().amount(), 1);
    assert!(cutlass.pointy.is_some());
}
