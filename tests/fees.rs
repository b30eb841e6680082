use hoku_sdk::fees::{base_fee_surged, estimate_priority_fee, max_fee};

#[test]
fn surge_margins_by_base_fee() {
    assert_eq!(base_fee_surged(40_000_000_000), 80_000_000_000);
    assert_eq!(base_fee_surged(50_000_000_000), 80_000_000_000);
    assert_eq!(base_fee_surged(100_000_000_000), 160_000_000_000);
    assert_eq!(base_fee_surged(150_000_000_000), 210_000_000_000);
    assert_eq!(base_fee_surged(300_000_000_000), 360_000_000_000);
    assert_eq!(base_fee_surged(0), 0);
}

#[test]
fn max_fee_adds_priority_only_when_larger() {
    assert_eq!(max_fee(10, 100), Some(100));
    assert_eq!(max_fee(150, 100), Some(250));
    assert_eq!(max_fee(u128::MAX, 1), None);
}

#[test]
fn no_positive_rewards_estimate_zero() {
    assert_eq!(estimate_priority_fee(vec![]), 0);
    assert_eq!(estimate_priority_fee(vec![vec![0], vec![0, 5]]), 0);
}

#[test]
fn single_reward_is_the_estimate() {
    assert_eq!(estimate_priority_fee(vec![vec![0], vec![7, 1]]), 7);
}

#[test]
fn median_of_sorted_rewards() {
    assert_eq!(estimate_priority_fee(vec![vec![30], vec![10], vec![20]]), 20);
}

#[test]
fn steep_jump_in_upper_half_skips_cheaper_fees() {
    let rewards = vec![vec![100], vec![101], vec![102], vec![400]];
    assert_eq!(estimate_priority_fee(rewards), 400);
}

#[test]
fn moderate_jump_keeps_all_fees() {
    let rewards = vec![vec![100], vec![101], vec![102], vec![200]];
    assert_eq!(estimate_priority_fee(rewards), 102);
}

#[test]
fn steep_jump_in_lower_half_keeps_all_fees() {
    let rewards = vec![vec![10], vec![100], vec![101], vec![102]];
    assert_eq!(estimate_priority_fee(rewards), 101);
}
