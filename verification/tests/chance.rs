use scroll_battle::dice::{Die, NormalDie};
use scroll_battle::items::Rarity;
use scroll_battle::rng::Rng;

#[test]
fn normal_die_rolls_within_the_queue() {
    let mut rng = rand::thread_rng();
    for count in [1usize, 2, 3, 7] {
        for _ in 0..200 {
            assert!(NormalDie.roll(&mut rng, count) < count);
        }
    }
}

#[test]
fn normal_die_reaches_every_place() {
    let mut rng = rand::thread_rng();
    let mut seen = [false; 4];
    for _ in 0..2000 {
        seen[NormalDie.roll(&mut rng, 4)] = true;
    }
    assert_eq!(seen, [true; 4]);
}

#[test]
fn rand_item_draws_from_the_rarity() {
    let mut rng = Rng(rand::thread_rng());
    for rarity in [Rarity::Mundane, Rarity::Scarce, Rarity::Precious, Rarity::Mythic] {
        let items = rarity.items();
        for _ in 0..100 {
            assert!(items.contains(&rarity.rand_item(&mut rng)));
        }
    }
}

#[test]
fn rand_item_reaches_every_kind_of_the_rarity() {
    let mut rng = Rng(rand::thread_rng());
    let items = Rarity::Scarce.items();
    let mut seen = vec![false; items.len()];
    for _ in 0..2000 {
        let kind = Rarity::Scarce.rand_item(&mut rng);
        let at = items.iter().position(|k| *k == kind).unwrap();
        seen[at] = true;
    }
    assert!(seen.iter().all(|s| *s));
}
