use rate_limiter::execute::{can_register, can_reset};
use rate_limiter::helpers::{can_rollover, can_rollover_rules};
use rate_limiter::msg::QuotaMsg;
use rate_limiter::state::{Flow, Quota, RateLimit};
use rate_limiter::sudo::can_process_transfer;
use rate_limiter::timestamp::Timestamp;
use rate_limiter::uint256::Uint256;

const DAY: u64 = 86400;

fn rule(name: &str, duration: u64, start: Timestamp) -> RateLimit {
    let quota = Quota::from(&QuotaMsg::new(name, duration, 10, 10));
    let flow = Flow { inflow: Uint256::zero(), outflow: Uint256::zero(), period_end: start };
    RateLimit::new(quota, flow)
}

fn last_time() -> Timestamp {
    Timestamp::from_nanos(u64::MAX)
}

#[test]
fn a_rule_takes_a_transfer_unless_its_next_window_does_not_fit() {
    let start = Timestamp::from_seconds(100);
    let daily = rule("daily", DAY, start);
    assert!(daily.can_transfer(start));
    assert!(daily.can_transfer(start.plus_seconds(5)));
    assert!(daily.fits_window(start));
    // the window has ended and the next one would end past the last time
    assert!(!daily.fits_window(last_time()));
    assert!(!daily.can_transfer(last_time()));
    // a window that still lasts needs no new end
    let lasting = rule("daily", DAY, last_time());
    assert!(lasting.can_transfer(last_time()));
    assert!(can_process_transfer(&vec![lasting.clone(), daily.clone()], start));
    assert!(!can_process_transfer(&vec![lasting, daily], last_time()));
    assert!(can_process_transfer(&vec![], last_time()));
}

#[test]
fn a_rule_with_a_cap_above_one_hundred_takes_no_transfer() {
    let start = Timestamp::from_seconds(100);
    let mut odd = rule("daily", DAY, start);
    odd.quota.max_percentage_send = 101;
    assert!(!odd.can_transfer(start));
    odd.quota.max_percentage_send = 100;
    odd.quota.max_percentage_recv = 5000;
    assert!(!odd.can_transfer(start));
    odd.quota.max_percentage_recv = 100;
    assert!(odd.can_transfer(start));
}

#[test]
fn rollover_needs_the_next_windows_to_fit() {
    let start = Timestamp::from_seconds(100);
    let daily = rule("daily", DAY, start);
    let lasting = rule("weekly", 7 * DAY, last_time());
    let key = ("channel".to_string(), "denom".to_string());
    assert!(can_rollover_rules(&vec![daily.clone(), lasting.clone()], start.plus_seconds(1)));
    assert!(!can_rollover_rules(&vec![lasting.clone(), daily.clone()], last_time()));
    assert!(can_rollover_rules(&vec![lasting.clone()], last_time()));
    assert!(can_rollover(&vec![(key.clone(), vec![daily.clone()])], start.plus_seconds(1)));
    assert!(!can_rollover(
        &vec![(key.clone(), vec![lasting.clone()]), (key.clone(), vec![daily])],
        last_time()
    ));
    assert!(can_rollover(&vec![(key, vec![lasting])], last_time()));
    assert!(can_rollover(&vec![], last_time()));
}

#[test]
fn registering_and_resetting_need_the_windows_to_fit() {
    let start = Timestamp::from_seconds(100);
    let quotas = vec![QuotaMsg::new("daily", DAY, 1, 1), QuotaMsg::new("long", u64::MAX, 1, 1)];
    assert!(can_register(&quotas[..1].to_vec(), start));
    assert!(!can_register(&quotas, start));
    assert!(can_register(&vec![], last_time()));
    assert!(!can_register(&quotas[..1].to_vec(), last_time()));

    let rules = Some(vec![rule("daily", DAY, start), rule("weekly", 7 * DAY, start)]);
    assert!(can_reset(&rules, &"daily".to_string(), start));
    assert!(!can_reset(&rules, &"daily".to_string(), last_time()));
    // a name that no rule has asks for no new window
    assert!(can_reset(&rules, &"monthly".to_string(), last_time()));
    assert!(can_reset(&None, &"daily".to_string(), last_time()));
}
