use rate_limiter::decimal256::Decimal256;
use rate_limiter::migrations::{
    choose_migration, upgrade_rule, v1_migrate, Migration, MigrationError,
};
use rate_limiter::msg::QuotaMsg;
use rate_limiter::state::{Flow, FlowType, Path, Quota, RateLimit};
use rate_limiter::timestamp::Timestamp;
use rate_limiter::uint256::Uint256;
use rate_limiter::ContractError;

const PERIOD_START: u64 = 1690757434;
const PERIOD_END: u64 = 1690786248;

fn u(value: u128) -> Uint256 {
    Uint256::from_u128(value)
}

fn d(atomics: u128) -> Decimal256 {
    Decimal256::new(u(atomics))
}

fn max_u256() -> Uint256 {
    Uint256 { be: [0xff; 32] }
}

/// A rule with decay averaging whose window runs from `PERIOD_START` to
/// `PERIOD_END`, with a channel value of 5000 now and of 10000 before.
fn averaging_rule() -> RateLimit {
    let quota = Quota::from(&QuotaMsg::new("daily", PERIOD_END - PERIOD_START, 10, 10));
    let flow = Flow::new(u(0), u(0), Timestamp::from_seconds(PERIOD_START), PERIOD_END - PERIOD_START);
    let mut rule = RateLimit::new(quota, flow);
    rule.quota.channel_value = Some(u(5_000));
    rule.previous_channel_value = Some(u(10_000));
    rule.period_start = Some(Timestamp::from_seconds(PERIOD_START));
    rule.v1_migration = Some(true);
    rule
}

#[test]
fn percent_passed_runs_from_zero_to_one_hundred() {
    let rule = averaging_rule();
    assert_eq!(rule.flow.period_end, Timestamp::from_seconds(PERIOD_END));
    assert_eq!(rule.period_percent_passed(PERIOD_START), Some(Decimal256::percent(0)));
    assert_eq!(rule.period_percent_passed(PERIOD_START - 10), Some(Decimal256::percent(0)));
    assert_eq!(rule.period_percent_passed(0), Some(Decimal256::percent(0)));
    // 6371 of 28814 seconds are 22.11%
    assert_eq!(rule.period_percent_passed(1690763805), Some(Decimal256::percent(22)));
    assert_eq!(rule.period_percent_passed(PERIOD_START + 14407), Some(Decimal256::percent(50)));
    assert_eq!(rule.period_percent_passed(PERIOD_END - 1), Some(Decimal256::percent(99)));
    assert_eq!(rule.period_percent_passed(PERIOD_END), Some(Decimal256::percent(100)));
    assert_eq!(rule.period_percent_passed(PERIOD_END + 1_000_000), Some(Decimal256::percent(100)));
    assert_eq!(rule.period_percent_passed(u64::MAX), Some(Decimal256::one()));
}

#[test]
fn percent_passed_needs_a_window() {
    let mut rule = averaging_rule();
    rule.period_start = None;
    assert_eq!(rule.period_percent_passed(1690763805), None);
    // a window of less than a whole second
    rule.period_start = Some(Timestamp::from_seconds(PERIOD_END));
    assert_eq!(rule.period_percent_passed(PERIOD_END), None);
    rule.period_start = Some(Timestamp::from_seconds(PERIOD_END).plus_nanos(5));
    assert_eq!(rule.period_percent_passed(PERIOD_END), None);
    rule.period_start = Some(Timestamp::from_seconds(PERIOD_END + 7));
    assert_eq!(rule.period_percent_passed(PERIOD_END), None);
}

#[test]
fn decay_of_the_first_window_is_the_channel_value() {
    let mut rule = averaging_rule();
    rule.previous_channel_value = None;
    let before = rule.clone();
    assert_eq!(rule.check_decay_rate(Timestamp::from_seconds(1690763805), 12_345), Some(d(5_000)));
    assert_eq!(rule, before);

    rule.previous_channel_value = Some(u(0));
    let before = rule.clone();
    assert_eq!(rule.check_decay_rate(Timestamp::from_seconds(1690763805), 12_345), Some(d(5_000)));
    assert_eq!(rule, before);

    rule.quota.channel_value = None;
    assert_eq!(rule.check_decay_rate(Timestamp::from_seconds(1690763805), 12_345), None);
}

#[test]
fn decay_is_linear_in_the_share_of_the_window() {
    let mut rule = averaging_rule();
    // 22% of the window have passed: 10000 - 2200
    let rate = rule.check_decay_rate(Timestamp::from_seconds(1690763805), 12_346);
    assert_eq!(rate, Some(d(7_800)));
    assert_eq!(rule.decayed_value, Some(d(7_800)));
    assert_eq!(rule.decayed_last_updated, Some(12_346));

    // within the block the stored value is returned, whatever the time
    let before = rule.clone();
    let rate = rule.check_decay_rate(Timestamp::from_seconds(PERIOD_END), 12_346);
    assert_eq!(rate, Some(d(7_800)));
    assert_eq!(rule, before);

    // the next block computes again: at the end of the window all is gone
    let rate = rule.check_decay_rate(Timestamp::from_seconds(PERIOD_END), 12_347);
    assert_eq!(rate, Some(d(0)));
    assert_eq!(rule.decayed_value, Some(d(0)));
    assert_eq!(rule.decayed_last_updated, Some(12_347));
    let rate = rule.check_decay_rate(Timestamp::from_seconds(PERIOD_END + 50), 12_348);
    assert_eq!(rate, Some(d(0)));
}

#[test]
fn decay_keeps_what_the_rounding_leaves() {
    let mut rule = averaging_rule();
    rule.previous_channel_value = Some(u(1));
    // 50% of 1 is rounded down to nothing, so the one unit stays
    let rate = rule.check_decay_rate(Timestamp::from_seconds(PERIOD_START + 14407), 1);
    assert_eq!(rate, Some(d(1)));
    rule.previous_channel_value = Some(max_u256());
    let rate = rule.check_decay_rate(Timestamp::from_seconds(PERIOD_END), 2);
    assert_eq!(rate, Some(d(0)));
}

#[test]
fn decay_at_the_start_of_the_window_returns_what_is_stored() {
    let mut rule = averaging_rule();
    let before = rule.clone();
    assert_eq!(rule.check_decay_rate(Timestamp::from_seconds(PERIOD_START), 7), None);
    assert_eq!(rule, before);
    rule.decayed_value = Some(d(9_000));
    assert_eq!(rule.check_decay_rate(Timestamp::from_seconds(PERIOD_START), 7), Some(d(9_000)));
    assert_eq!(rule.decayed_last_updated, None);
}

#[test]
fn decay_without_a_window_is_unknown() {
    let mut rule = averaging_rule();
    rule.period_start = None;
    let before = rule.clone();
    assert_eq!(rule.check_decay_rate(Timestamp::from_seconds(1690763805), 7), None);
    assert_eq!(rule, before);
    rule.period_start = Some(Timestamp::from_seconds(PERIOD_END));
    let before = rule.clone();
    assert_eq!(rule.check_decay_rate(Timestamp::from_seconds(1690763805), 7), None);
    assert_eq!(rule, before);
}

#[test]
fn averaged_channel_value_blends_the_windows() {
    let mut rule = averaging_rule();
    // nothing is known of the decay yet
    assert_eq!(rule.averaged_channel_value(), None);
    assert_eq!(rule.averaged_capacity(), None);
    assert_eq!(rule.averaged_capacity_on(&FlowType::In), None);

    rule.check_decay_rate(Timestamp::from_seconds(1690763805), 12_346);
    // (5000 + (10000 - 7800)) / 2
    assert_eq!(rule.averaged_channel_value(), Some(d(3_600)));
    assert_eq!(rule.averaged_capacity(), Some((u(360), u(360))));
    assert_eq!(rule.averaged_capacity_on(&FlowType::In), Some(u(360)));
    assert_eq!(rule.averaged_capacity_on(&FlowType::Out), Some(u(360)));

    // rounded down: (5000 + 10000 - 9999) / 2
    rule.decayed_value = Some(d(9_999));
    assert_eq!(rule.averaged_channel_value(), Some(d(2_500)));
    // at the start of the window only half of the new value counts
    rule.decayed_value = Some(d(10_000));
    assert_eq!(rule.averaged_channel_value(), Some(d(2_500)));
    // at its end the two values are averaged
    rule.decayed_value = Some(d(0));
    assert_eq!(rule.averaged_channel_value(), Some(d(7_500)));
    // more decayed than there was
    rule.decayed_value = Some(d(10_001));
    assert_eq!(rule.averaged_channel_value(), None);
}

#[test]
fn averaged_channel_value_is_plain_without_history_or_averaging() {
    let mut rule = averaging_rule();
    rule.decayed_value = Some(d(7_800));
    rule.v1_migration = None;
    assert_eq!(rule.averaged_channel_value(), Some(d(5_000)));
    assert_eq!(rule.averaged_capacity(), Some((u(500), u(500))));
    rule.v1_migration = Some(false);
    assert_eq!(rule.averaged_channel_value(), Some(d(5_000)));

    rule.v1_migration = Some(true);
    rule.previous_channel_value = None;
    assert_eq!(rule.averaged_channel_value(), Some(d(5_000)));
    rule.previous_channel_value = Some(u(0));
    assert_eq!(rule.averaged_channel_value(), Some(d(5_000)));

    rule.quota.channel_value = None;
    assert_eq!(rule.averaged_channel_value(), None);
    assert_eq!(rule.averaged_capacity(), None);
    rule.v1_migration = None;
    assert_eq!(rule.averaged_channel_value(), None);
    // without averaging a missing channel value means no capacity
    assert_eq!(rule.averaged_capacity(), Some((u(0), u(0))));
    assert_eq!(rule.averaged_capacity_on(&FlowType::Out), Some(u(0)));
}

#[test]
fn averaged_channel_value_that_does_not_fit_is_unknown() {
    let mut rule = averaging_rule();
    rule.quota.channel_value = Some(max_u256());
    rule.decayed_value = Some(d(9_999));
    assert_eq!(rule.averaged_channel_value(), None);
    rule.decayed_value = Some(d(10_000));
    let mut half = [0xff; 32];
    half[0] = 0x7f;
    assert_eq!(rule.averaged_channel_value(), Some(Decimal256::new(Uint256 { be: half })));
}

#[test]
fn averaged_balance_blends_the_flows() {
    let mut rule = averaging_rule();
    rule.flow.inflow = u(50);
    rule.flow.outflow = u(20);
    assert_eq!(rule.averaged_balance(), Some((u(30), u(0))));

    // only one decayed flow: the plain balance
    rule.decayed_inflow = Some(d(100));
    assert_eq!(rule.averaged_balance(), Some((u(30), u(0))));
    rule.decayed_outflow = Some(d(0));
    assert_eq!(rule.averaged_balance(), Some((u(30), u(0))));

    // (100 + 50) / 2 against (40 + 20) / 2
    rule.decayed_outflow = Some(d(40));
    assert_eq!(rule.averaged_balance(), Some((u(45), u(0))));
    assert_eq!(rule.averaged_balance_on(&FlowType::In), Some(u(45)));
    assert_eq!(rule.averaged_balance_on(&FlowType::Out), Some(u(0)));
    assert!(rule.averaged_exceeds(&FlowType::In, u(44), u(0)));
    assert!(!rule.averaged_exceeds(&FlowType::In, u(45), u(0)));
    assert!(!rule.averaged_exceeds(&FlowType::Out, u(0), u(0)));

    // rounded down: (101 + 50) / 2 = 75, (40 + 21) / 2 = 30
    rule.decayed_inflow = Some(d(101));
    rule.flow.outflow = u(21);
    assert_eq!(rule.averaged_balance(), Some((u(45), u(0))));

    // without averaging the decayed flows do not count
    rule.v1_migration = None;
    assert_eq!(rule.averaged_balance(), Some((u(29), u(0))));
    assert_eq!(rule.averaged_balance_on(&FlowType::In), Some(u(29)));
    assert!(rule.averaged_exceeds(&FlowType::In, u(28), u(0)));
    assert!(!rule.averaged_exceeds(&FlowType::In, u(29), u(0)));
}

#[test]
fn averaged_balance_that_does_not_fit_falls_back_to_the_plain_one() {
    let mut rule = averaging_rule();
    rule.flow.inflow = max_u256();
    rule.flow.outflow = u(20);
    rule.decayed_inflow = Some(d(1));
    rule.decayed_outflow = Some(d(40));
    assert_eq!(rule.averaged_balance(), None);
    assert_eq!(rule.averaged_balance_on(&FlowType::In), Some(max_u256().saturating_sub(u(20))));
    assert_eq!(rule.averaged_balance_on(&FlowType::Out), Some(u(0)));
    assert!(rule.averaged_exceeds(&FlowType::In, u(1_000), u(0)));
    assert!(!rule.averaged_exceeds(&FlowType::Out, u(0), u(0)));
}

#[test]
fn rollover_keeps_the_channel_value_of_the_window_that_ends() {
    let mut rule = averaging_rule();
    rule.flow.inflow = u(50);
    rule.flow.outflow = u(20);
    rule.previous_channel_value = Some(u(1));
    let now = Timestamp::from_seconds(PERIOD_END + 10);
    rule.handle_rollover(now);
    assert_eq!(rule.flow.inflow, u(0));
    assert_eq!(rule.flow.outflow, u(0));
    assert_eq!(rule.flow.period_end, now.plus_seconds(PERIOD_END - PERIOD_START));
    assert_eq!(rule.period_start, Some(now));
    assert_eq!(rule.previous_channel_value, Some(u(5_000)));
    assert_eq!(rule.previous_inflow, Some(u(0)));
    assert_eq!(rule.previous_outflow, Some(u(0)));
    assert_eq!(rule.quota.channel_value, Some(u(5_000)));
    assert_eq!(rule.v1_migration, Some(true));
}

#[test]
fn transfer_on_an_averaging_rule_goes_by_the_averaged_capacity() {
    let mut rule = averaging_rule();
    rule.decayed_value = Some(d(7_800));
    let path = Path::new("channel", "denom");
    let now = Timestamp::from_seconds(1690763805);

    // the averaged channel value is 3600, so 360 may move
    let mut probe = rule.clone();
    let admitted = probe.allow_transfer(&path, &FlowType::Out, u(360), u(9_999), now).unwrap();
    assert_eq!(admitted.flow.outflow, u(360));
    assert_eq!(admitted.quota.channel_value, Some(u(5_000)));
    assert_eq!(admitted.period_start, Some(now));
    assert_eq!(admitted.flow.period_end, Timestamp::from_seconds(PERIOD_END));
    assert_eq!(probe.period_start, Some(Timestamp::from_seconds(PERIOD_START)));

    let err = rule.allow_transfer(&path, &FlowType::Out, u(361), u(9_999), now).unwrap_err();
    assert_eq!(
        err,
        ContractError::RateLimitExceded {
            channel: "channel".to_string(),
            denom: "denom".to_string(),
            amount: u(361),
            quota_name: "daily".to_string(),
            used: u(0),
            max: u(360),
            reset: Timestamp::from_seconds(PERIOD_END),
        }
    );
    // the rule was changed all the same: the caller is to drop it
    assert_eq!(rule.flow.outflow, u(361));
}

#[test]
fn transfer_after_the_window_rolls_an_averaging_rule_over() {
    let mut rule = averaging_rule();
    rule.previous_channel_value = None;
    rule.quota.channel_value = None;
    rule.flow.inflow = u(33);
    let path = Path::new("channel", "ibc/ABC");
    let now = Timestamp::from_seconds(PERIOD_END + 1);

    // the first window had no channel value: nothing to blend with
    let admitted = rule.allow_transfer(&path, &FlowType::Out, u(300), u(3_000), now).unwrap();
    assert_eq!(rule.flow.inflow, u(0));
    assert_eq!(rule.flow.outflow, u(300));
    assert_eq!(rule.flow.period_end, now.plus_seconds(PERIOD_END - PERIOD_START));
    assert_eq!(rule.period_start, Some(now));
    assert_eq!(rule.previous_channel_value, None);
    assert_eq!(rule.quota.channel_value, Some(u(3_300)));
    assert_eq!(admitted, rule);

    // the next rollover keeps 3300 as the previous value; until the decay
    // has been computed the capacity is unknown and nothing may move
    let later = rule.flow.period_end.plus_nanos(1);
    let mut probe = rule.clone();
    let err = probe.allow_transfer(&path, &FlowType::Out, u(1), u(4_000), later).unwrap_err();
    assert_eq!(probe.previous_channel_value, Some(u(3_300)));
    assert_eq!(probe.quota.channel_value, Some(u(4_001)));
    assert_eq!(probe.flow.outflow, u(1));
    assert_eq!(
        err,
        ContractError::RateLimitExceded {
            channel: "channel".to_string(),
            denom: "ibc/ABC".to_string(),
            amount: u(1),
            quota_name: "daily".to_string(),
            used: u(300),
            max: u(0),
            reset: later.plus_seconds(PERIOD_END - PERIOD_START),
        }
    );
}

#[test]
fn upgrade_switches_decay_averaging_on() {
    let mut rule = averaging_rule();
    rule.v1_migration = None;
    rule.flow.inflow = u(5);
    let upgraded = upgrade_rule(&rule);
    assert!(upgraded.is_v1_migrated());
    assert!(!rule.is_v1_migrated());
    assert_eq!(upgraded.quota, rule.quota);
    assert_eq!(upgraded.flow, rule.flow);
    assert_eq!(upgraded.previous_channel_value, rule.previous_channel_value);
    // a rule that has the upgrade keeps it
    assert_eq!(upgrade_rule(&upgraded), upgraded);

    let mut off = rule.clone();
    off.v1_migration = Some(false);
    let (migrated, count) = v1_migrate(&vec![rule.clone(), off, upgraded.clone()]);
    assert_eq!(count, 3);
    assert_eq!(migrated, vec![upgraded.clone(), upgraded.clone(), upgraded]);
    assert_eq!(v1_migrate(&vec![]), (vec![], 0));
}

#[test]
fn only_version_0_1_0_of_the_same_contract_is_upgraded() {
    let name = "crates.io:rate-limiter".to_string();
    assert_eq!(choose_migration(&name, &name, true, 0, 1, 0), Ok(Migration::V1));
    assert_eq!(
        choose_migration(&"crates.io:other".to_string(), &name, true, 0, 1, 0),
        Err(MigrationError::WrongContract)
    );
    assert_eq!(
        choose_migration(&"crates.io:other".to_string(), &name, false, 9, 9, 9),
        Err(MigrationError::WrongContract)
    );
    assert_eq!(choose_migration(&name, &name, false, 0, 1, 0), Err(MigrationError::NewerVersion));
    assert_eq!(choose_migration(&name, &name, false, 0, 1, 1), Err(MigrationError::NewerVersion));
    for (major, minor, patch) in [(0, 1, 1), (0, 0, 0), (0, 2, 0), (1, 1, 0), (0, 0, 9)] {
        assert_eq!(
            choose_migration(&name, &name, true, major, minor, patch),
            Err(MigrationError::MissingMigrateFunction)
        );
    }
}
