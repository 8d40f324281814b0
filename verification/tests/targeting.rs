use scroll_battle::items::abilities::{AbilityTarget, TargetFilter};

const LIST: [u64; 6] = [10, 11, 12, 13, 14, 15];

#[test]
fn all_picks_everything_but_the_source() {
    assert_eq!(TargetFilter::All.get_targets(2, 12, &LIST), vec![10, 11, 13, 14, 15]);
}

#[test]
fn all_next_picks_what_follows() {
    assert_eq!(TargetFilter::AllNext.get_targets(2, 12, &LIST), vec![13, 14, 15]);
    assert_eq!(TargetFilter::AllNext.get_targets(5, 15, &LIST), Vec::<u64>::new());
}

#[test]
fn next_picks_the_following_n() {
    assert_eq!(TargetFilter::Next(2).get_targets(2, 12, &LIST), vec![13, 14]);
    assert_eq!(TargetFilter::Next(1).get_targets(4, 14, &LIST), vec![15]);
    assert_eq!(TargetFilter::Next(9).get_targets(4, 14, &LIST), vec![15]);
    assert_eq!(TargetFilter::Next(0).get_targets(2, 12, &LIST), Vec::<u64>::new());
    assert_eq!(TargetFilter::Next(usize::MAX).get_targets(2, 12, &LIST), vec![13, 14, 15]);
}

#[test]
fn all_prev_picks_what_precedes() {
    assert_eq!(TargetFilter::AllPrev.get_targets(2, 12, &LIST), vec![10, 11]);
}

#[test]
fn prev_picks_the_preceding_n() {
    assert_eq!(TargetFilter::Prev(1).get_targets(3, 13, &LIST), vec![12]);
    assert_eq!(TargetFilter::Prev(2).get_targets(3, 13, &LIST), vec![11, 12]);
    assert_eq!(TargetFilter::Prev(7).get_targets(3, 13, &LIST), vec![10, 11, 12]);
}

#[test]
fn first_slot_has_nothing_before_it() {
    assert_eq!(TargetFilter::AllPrev.get_targets(0, 10, &LIST), Vec::<u64>::new());
    assert_eq!(TargetFilter::Prev(3).get_targets(0, 10, &LIST), Vec::<u64>::new());
}

#[test]
fn neighbours_are_the_slots_on_either_side() {
    assert_eq!(TargetFilter::Neighbours.get_targets(2, 12, &LIST), vec![11, 13]);
    assert_eq!(TargetFilter::Neighbours.get_targets(0, 10, &LIST), vec![11]);
    assert_eq!(TargetFilter::Neighbours.get_targets(5, 15, &LIST), vec![14]);
}

#[test]
fn source_is_never_a_target() {
    let filters = [
        TargetFilter::All,
        TargetFilter::Next(2),
        TargetFilter::Prev(2),
        TargetFilter::Neighbours,
        TargetFilter::AllNext,
        TargetFilter::AllPrev,
    ];
    for filter in filters {
        for index in 0..LIST.len() {
            let targets = filter.get_targets(index, LIST[index], &LIST);
            assert!(!targets.contains(&LIST[index]));
        }
    }
}

#[test]
fn source_is_left_out_wherever_it_stands() {
    // The index given need not be the slot that holds the source's id.
    assert_eq!(TargetFilter::Neighbours.get_targets(2, 11, &LIST), vec![13]);
    assert_eq!(TargetFilter::All.get_targets(0, 15, &LIST), vec![10, 11, 12, 13, 14]);
}

#[test]
fn all_holds_every_other_filters_targets() {
    let filters = [
        TargetFilter::Next(2),
        TargetFilter::Prev(2),
        TargetFilter::Neighbours,
        TargetFilter::AllNext,
        TargetFilter::AllPrev,
    ];
    for filter in filters {
        for index in 0..LIST.len() {
            let all = TargetFilter::All.get_targets(index, LIST[index], &LIST);
            for target in filter.get_targets(index, LIST[index], &LIST) {
                assert!(all.contains(&target));
            }
        }
    }
}

#[test]
fn empty_scroll_has_no_targets() {
    assert_eq!(TargetFilter::All.get_targets(0, 1, &[]), Vec::<u64>::new());
}

#[test]
fn picks_follows_the_rules() {
    assert!(TargetFilter::Next(2).picks(3, 5));
    assert!(!TargetFilter::Next(2).picks(3, 6));
    assert!(!TargetFilter::Next(2).picks(3, 3));
    assert!(TargetFilter::Prev(2).picks(3, 1));
    assert!(!TargetFilter::Prev(2).picks(3, 0));
    assert!(TargetFilter::Neighbours.picks(0, 1));
    assert!(!TargetFilter::Neighbours.picks(0, 0));
    assert!(TargetFilter::All.picks(0, 0));
}

#[test]
fn filter_names() {
    assert_eq!(TargetFilter::All.name(), "ALL");
    assert_eq!(TargetFilter::Next(3).name(), "NEXT 3");
    assert_eq!(TargetFilter::Next(0).name(), "NEXT 0");
    assert_eq!(TargetFilter::Prev(120).name(), "PREV 120");
    assert_eq!(TargetFilter::Neighbours.name(), "NEIGHBOURS");
    assert_eq!(TargetFilter::AllNext.name(), "ALL NEXT");
    assert_eq!(TargetFilter::AllPrev.name(), "ALL PREV");
}

#[test]
fn default_filter_is_all() {
    assert_eq!(TargetFilter::default(), TargetFilter::All);
    let target = AbilityTarget::default();
    assert_eq!(target.filter, TargetFilter::All);
    assert_eq!(target.attribute, "");
}

#[test]
fn target_with_all_attributes_asks_for_no_tag() {
    let target = AbilityTarget::with_all_attributes(TargetFilter::Next(2));
    assert_eq!(target.filter, TargetFilter::Next(2));
    assert_eq!(target.attribute, "");
}
