use solignition::{
    calculate_interest, distribute_yield, share_of, Identity, ProtocolConfig, BPS_DENOMINATOR,
    SECONDS_PER_YEAR,
};

#[test]
fn constants_have_their_values() {
    assert_eq!(BPS_DENOMINATOR, 10_000);
    assert_eq!(SECONDS_PER_YEAR, 31_536_000);
    assert_eq!(SECONDS_PER_YEAR, 365 * 24 * 60 * 60);
}

#[test]
fn interest_for_one_full_year_at_ten_percent() {
    assert_eq!(calculate_interest(1_000_000, 1000, 31_536_000), 100_000);
}

#[test]
fn interest_rounds_down_to_zero_at_small_scale() {
    assert_eq!(calculate_interest(200, 500, 500), 0);
}

#[test]
fn interest_rounds_down_just_below_a_year() {
    assert_eq!(calculate_interest(1_000_000, 1000, 31_535_999), 99_999);
}

#[test]
fn interest_for_thirty_days_at_twelve_percent() {
    assert_eq!(calculate_interest(1_000_000_000, 1200, 2_592_000), 9_863_013);
}

#[test]
fn interest_for_half_a_year() {
    assert_eq!(calculate_interest(50_000_000_000, 750, 15_768_000), 1_875_000_000);
}

#[test]
fn interest_at_the_whole_rate_for_a_year_is_the_principal() {
    assert_eq!(calculate_interest(1_000_000_000, 10_000, 31_536_000), 1_000_000_000);
    assert_eq!(calculate_interest(u64::MAX, 10_000, 31_536_000), u64::MAX);
}

#[test]
fn interest_crosses_from_zero_to_one_at_the_denominator() {
    assert_eq!(calculate_interest(315_359_999_999, 1, 1), 0);
    assert_eq!(calculate_interest(315_360_000_000, 1, 1), 1);
}

#[test]
fn interest_is_zero_when_any_factor_is_zero() {
    assert_eq!(calculate_interest(0, 1000, 31_536_000), 0);
    assert_eq!(calculate_interest(1_000_000, 0, 31_536_000), 0);
    assert_eq!(calculate_interest(1_000_000, 1000, 0), 0);
}

#[test]
fn interest_uses_a_wide_intermediate() {
    // The product is about 5.8e30 and does not fit in 64 bits.
    assert_eq!(calculate_interest(u64::MAX, 1, 315_360_000_000), u64::MAX);
}

#[test]
fn share_splits_a_fee_seventy_to_thirty() {
    let depositor_share = share_of(1000, 7000);
    assert_eq!(depositor_share, 700);
    assert_eq!(1000 - depositor_share, 300);
}

#[test]
fn share_rounds_down() {
    assert_eq!(share_of(999, 7000), 699);
    assert_eq!(share_of(1, 9999), 0);
    assert_eq!(share_of(3, 3333), 0);
    assert_eq!(share_of(9_999, 1), 0);
    assert_eq!(share_of(10_001, 1), 1);
}

#[test]
fn share_at_the_ends_of_the_range() {
    assert_eq!(share_of(123_456, 0), 0);
    assert_eq!(share_of(123_456, 10_000), 123_456);
    assert_eq!(share_of(0, 5000), 0);
    assert_eq!(share_of(u64::MAX, 10_000), u64::MAX);
    assert_eq!(share_of(u64::MAX, 9_999), 18_444_899_399_302_180_659);
    assert_eq!(share_of(u64::MAX, 1), 1_844_674_407_370_955);
}

#[test]
fn share_of_an_admin_fee() {
    assert_eq!(share_of(200, 100), 2);
    assert_eq!(share_of(100_000, 100), 1000);
    assert_eq!(share_of(123_456_789, 250), 3_086_419);
}

fn fees_config(total_deposits: u64, total_yield_distributed: u64) -> ProtocolConfig {
    let mut config = ProtocolConfig::vacant();
    config.admin = Identity::new([1; 32]);
    config.total_deposits = total_deposits;
    config.total_yield_distributed = total_yield_distributed;
    config
}

#[test]
fn yield_is_added_to_the_tally() {
    let mut config = fees_config(500, 40);
    let before = config;
    distribute_yield(&mut config, 60);
    assert_eq!(config.total_yield_distributed, 100);
    let mut expected = before;
    expected.total_yield_distributed = 100;
    assert_eq!(config, expected);
}

#[test]
fn yield_is_dropped_when_nothing_is_deposited() {
    let mut config = fees_config(0, 40);
    let before = config;
    distribute_yield(&mut config, 60);
    assert_eq!(config, before);
}

#[test]
fn zero_yield_changes_nothing() {
    let mut config = fees_config(500, 40);
    let before = config;
    distribute_yield(&mut config, 0);
    assert_eq!(config, before);
}

#[test]
fn yield_can_fill_the_tally_to_the_brim() {
    let mut config = fees_config(1, u64::MAX - 5);
    distribute_yield(&mut config, 5);
    assert_eq!(config.total_yield_distributed, u64::MAX);
}
