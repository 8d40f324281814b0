use scroll_battle::common::{add_clamped, sub_clamped, Hp};
use scroll_battle::player::{Player, PlayerStats, STARTING_PLAYER_HP};

#[test]
fn new_hp_is_full() {
    let hp = Hp::new(10);
    assert_eq!(hp.max, 10);
    assert_eq!(hp.current, 10);
    assert!(!hp.is_dead());
}

#[test]
fn decrease_has_no_floor() {
    let mut hp = Hp::new(5);
    hp.decrease(3);
    assert_eq!(hp.current, 2);
    assert!(!hp.is_dead());
    hp.decrease(2);
    assert_eq!(hp.current, 0);
    assert!(hp.is_dead());
    hp.decrease(4);
    assert_eq!(hp.current, -4);
    assert_eq!(hp.max, 5);
    assert!(hp.is_dead());
}

#[test]
fn dead_means_not_positive() {
    for start in [-3, 0, 1, 7] {
        for amount in [-2, 0, 1, 7, 20] {
            let mut hp = Hp { max: 10, current: start };
            hp.decrease(amount);
            assert_eq!(hp.is_dead(), hp.current <= 0);
            assert_eq!(hp.current, start - amount);
        }
    }
}

#[test]
fn increase_stops_at_max() {
    let mut hp = Hp { max: 10, current: 4 };
    hp.increase(3);
    assert_eq!(hp.current, 7);
    hp.increase(30);
    assert_eq!(hp.current, 10);
    assert_eq!(hp.max, 10);
}

#[test]
fn increase_brings_excess_health_back_under_max() {
    let mut hp = Hp { max: 10, current: 15 };
    hp.increase(1);
    assert_eq!(hp.current, 10);
}

#[test]
fn max_increase_raises_only_the_maximum() {
    let mut hp = Hp { max: 10, current: 4 };
    hp.max_increase(5);
    assert_eq!(hp.max, 15);
    assert_eq!(hp.current, 4);
}

#[test]
fn max_increase_downwards_holds_current_under_max() {
    let mut hp = Hp { max: 10, current: 9 };
    hp.max_increase(-4);
    assert_eq!(hp.max, 6);
    assert_eq!(hp.current, 6);
}

#[test]
fn arithmetic_stops_at_the_ends_of_the_range() {
    assert_eq!(add_clamped(i32::MAX, 1), i32::MAX);
    assert_eq!(add_clamped(i32::MIN, -1), i32::MIN);
    assert_eq!(add_clamped(2, 3), 5);
    assert_eq!(sub_clamped(i32::MIN, 1), i32::MIN);
    assert_eq!(sub_clamped(i32::MAX, -1), i32::MAX);
    assert_eq!(sub_clamped(2, 3), -1);
    let mut hp = Hp { max: i32::MAX, current: i32::MIN + 1 };
    hp.decrease(5);
    assert_eq!(hp.current, i32::MIN);
    assert!(hp.is_dead());
}

#[test]
fn player_starts_with_ten_health_and_no_sea_legs() {
    let player = Player::default();
    assert_eq!(STARTING_PLAYER_HP, 10);
    assert_eq!(player.hp, Hp { max: 10, current: 10 });
    assert_eq!(player.stats, PlayerStats { sea_legs: 0 });
}

#[test]
fn sea_legs_wear_off_by_one_down_to_none() {
    let mut player = Player::default();
    player.gain_sea_legs(2);
    assert_eq!(player.stats.sea_legs, 2);
    player.update_stats();
    assert_eq!(player.stats.sea_legs, 1);
    player.update_stats();
    assert_eq!(player.stats.sea_legs, 0);
    player.update_stats();
    assert_eq!(player.stats.sea_legs, 0);
    player.stats.sea_legs = -5;
    player.update_stats();
    assert_eq!(player.stats.sea_legs, 0);
}

#[test]
fn reset_stats_keeps_health() {
    let mut player = Player { hp: Hp { max: 12, current: 3 }, stats: PlayerStats { sea_legs: 9 } };
    player.reset_stats();
    assert_eq!(player.hp, Hp { max: 12, current: 3 });
    assert_eq!(player.stats.sea_legs, 0);
}
