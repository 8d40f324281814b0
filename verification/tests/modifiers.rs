use scroll_battle::items::abilities::{
    clamp_wide, Ability, AbilityModifier, AbilityTarget, Cursed, Damage, Hearties, Heave, Jolly,
    ModifierEntry, SeaLegs, Swashbuckle, TargetFilter, Vitality,
};

#[test]
fn new_modifier_is_empty() {
    let modifier = AbilityModifier::new();
    assert_eq!(modifier.amount(), 0);
    assert_eq!(modifier.total(), 0);
    assert!(modifier.entries().is_empty());
    assert_eq!(AbilityModifier::default().amount(), 0);
}

#[test]
fn bonuses_of_distinct_sources_add_up() {
    let mut modifier = AbilityModifier::new();
    modifier.set(1, 2);
    modifier.set(2, 5);
    modifier.set(3, -1);
    assert_eq!(modifier.amount(), 6);
    assert_eq!(
        modifier.entries(),
        vec![
            ModifierEntry { source: 1, amount: 2 },
            ModifierEntry { source: 2, amount: 5 },
            ModifierEntry { source: 3, amount: -1 },
        ]
    );
}

#[test]
fn same_source_overwrites() {
    let mut modifier = AbilityModifier::new();
    modifier.set(1, 2);
    modifier.set(2, 5);
    modifier.set(1, 2);
    assert_eq!(modifier.amount(), 7);
    modifier.set(1, 10);
    assert_eq!(modifier.amount(), 15);
    assert_eq!(
        modifier.entries(),
        vec![ModifierEntry { source: 2, amount: 5 }, ModifierEntry { source: 1, amount: 10 }]
    );
}

#[test]
fn clear_drops_every_bonus() {
    let mut modifier = AbilityModifier::new();
    modifier.set(1, 2);
    modifier.set(2, 5);
    modifier.clear();
    assert_eq!(modifier.amount(), 0);
    assert!(modifier.entries().is_empty());
}

#[test]
fn clone_keeps_the_bonuses() {
    let mut modifier = AbilityModifier::new();
    modifier.set(4, 9);
    let copy = modifier.clone();
    modifier.set(4, 1);
    assert_eq!(copy.amount(), 9);
    assert_eq!(modifier.amount(), 1);
}

#[test]
fn amount_is_base_plus_bonuses() {
    let mut damage = Damage::new(3);
    assert_eq!(damage.base(), 3);
    assert_eq!(damage.amount(), 3);
    damage.modifier.set(7, 2);
    assert_eq!(damage.amount(), 5);
    assert_eq!(damage.modifier().amount(), 2);
    damage.modifier.set(8, 4);
    assert_eq!(damage.amount(), 9);
    damage.modifier.clear();
    assert_eq!(damage.amount(), damage.base());
}

#[test]
fn amount_stops_at_the_ends_of_the_range() {
    let mut damage = Damage::new(i32::MAX);
    damage.modifier.set(1, i32::MAX);
    damage.modifier.set(2, i32::MAX);
    assert_eq!(damage.modifier.total(), 2 * (i32::MAX as i128));
    assert_eq!(damage.modifier.amount(), i32::MAX);
    assert_eq!(damage.amount(), i32::MAX);
    let mut cursed = Cursed::new(i32::MIN);
    cursed.modifier.set(1, -1);
    assert_eq!(cursed.amount(), i32::MIN);
    assert_eq!(clamp_wide(5), 5);
    assert_eq!(clamp_wide(-(1i128 << 40)), i32::MIN);
}

#[test]
fn wide_sums_are_exact_before_they_are_held_to_range() {
    let mut damage = Damage::new(-10);
    damage.modifier.set(1, i32::MAX);
    damage.modifier.set(2, 5);
    assert_eq!(damage.amount(), i32::MAX - 5);
}

#[test]
fn plain_ability_names() {
    assert_eq!(Damage::new(1).name(), "Damage");
    assert_eq!(Hearties::new(1).name(), "Hearties");
    assert_eq!(Cursed::new(1).name(), "Cursed");
    assert_eq!(SeaLegs::new(1).name(), "Sea legs");
    assert_eq!(Vitality::new(1).name(), "Vitality");
}

#[test]
fn area_ability_names() {
    let pointy = AbilityTarget { filter: TargetFilter::Neighbours, attribute: "Pointy".to_string() };
    assert_eq!(Heave::new(2, pointy).name(), "Heave (NEIGHBOURS Pointy)");
    let next = AbilityTarget { filter: TargetFilter::Next(3), attribute: "Pointy".to_string() };
    assert_eq!(Swashbuckle::new(1, next).name(), "Swashbuckle (NEXT 3 Pointy)");
    let all = AbilityTarget::with_all_attributes(TargetFilter::All);
    assert_eq!(Jolly::new(1, all).name(), "Jolly (ALL )");
}

#[test]
fn every_ability_starts_at_its_base() {
    let target = AbilityTarget::with_all_attributes(TargetFilter::All);
    assert_eq!(Hearties::new(7).amount(), 7);
    assert_eq!(Cursed::new(2).amount(), 2);
    assert_eq!(SeaLegs::new(3).amount(), 3);
    assert_eq!(Vitality::new(-4).amount(), -4);
    assert_eq!(Heave::new(2, target.clone()).amount(), 2);
    assert_eq!(Swashbuckle::new(1, target.clone()).amount(), 1);
    assert_eq!(Jolly::new(5, target).amount(), 5);
}
