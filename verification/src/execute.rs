//! The management of paths, and the registry of bypasses and intents.
//!
//! The two module addresses that may make these calls are handed in with
//! every call. What a call finds in storage is handed in as well, and what
//! it returns is what is to be stored.

use crate::error::ContractError;
use crate::helpers::{Tracker, TrackerView};
use crate::model::{FlowView, RateLimitView};
use crate::msg::{PathMsg, QuotaMsg};
use crate::state::{quota_from_msg, rules_view, Flow, Quota, RateLimit};
use crate::timestamp::{plus_seconds, Timestamp};
use crate::uint256::Uint256;
use vstd::prelude::*;

verus! {

/// The seconds that an intent waits before it can be used: 24 hours.
pub const INTENT_DELAY: u64 = 86400;

/// Whether `sender` is one of the two modules that manage the contract.
pub open spec fn is_manager(sender: Seq<char>, ibc_module: Seq<char>, gov_module: Seq<char>) -> bool {
    sender == ibc_module || sender == gov_module
}

/// The rule that a quota message registers at `now`.
pub open spec fn registered_rule(msg: QuotaMsg, now: nat) -> RateLimitView {
    RateLimitView::fresh(
        quota_from_msg(&msg)@,
        FlowView { inflow: 0, outflow: 0, period_end: plus_seconds(now, msg.duration as nat) },
    )
}

/// The rules that the quota messages of a path register at `now`.
pub open spec fn registered_rules(quotas: Seq<QuotaMsg>, now: nat) -> Seq<RateLimitView> {
    quotas.map_values(|msg: QuotaMsg| registered_rule(msg, now))
}

/// The tracker that a path message registers at `now`.
pub open spec fn registered_tracker(msg: PathMsg, now: nat) -> TrackerView {
    TrackerView {
        channel: msg.channel_id@,
        denom: msg.denom@,
        rules: registered_rules(msg.quotas@, now),
    }
}

/// Whether a window of every quota that starts at `now` ends at a time
/// that can be represented.
pub open spec fn quotas_fit(quotas: Seq<QuotaMsg>, now: Timestamp) -> bool {
    forall|i: int| 0 <= i < quotas.len() ==> now.can_add_seconds((#[trigger] quotas[i]).duration)
}

/// Tells whether a window of every quota that starts at `now` ends at a
/// time that can be represented.
pub fn can_register(quotas: &Vec<QuotaMsg>, now: Timestamp) -> (r: bool)
    ensures
        r == quotas_fit(quotas@, now),
{
    let mut i: usize = 0;
    while i < quotas.len()
        invariant
            i <= quotas.len(),
            forall|j: int| 0 <= j < i ==> now.can_add_seconds((#[trigger] quotas[j]).duration),
        decreases quotas.len() - i,
    {
        if now.checked_plus_seconds(quotas[i].duration).is_none() {
            return false;
        }
        i += 1;
    }
    true
}

/// Whether `sender` is one of the two modules that manage the contract.
fn sender_is_manager(sender: &String, ibc_module: &String, gov_module: &String) -> (r: bool)
    ensures
        r == is_manager(sender@, ibc_module@, gov_module@),
{
    sender.eq(ibc_module) || sender.eq(gov_module)
}

/// The rules of a new path: one per quota, with nothing counted and a
/// window that starts at `now`.
pub fn new_rate_limits(quotas: &Vec<QuotaMsg>, now: Timestamp) -> (r: Vec<RateLimit>)
    requires
        quotas_fit(quotas@, now),
    ensures
        rules_view(r@) == registered_rules(quotas@, now@),
{
    let mut rules: Vec<RateLimit> = Vec::new();
    let mut i: usize = 0;
    while i < quotas.len()
        invariant
            i <= quotas.len(),
            rules.len() == i,
            quotas_fit(quotas@, now),
            forall|j: int| 0 <= j < i ==> (#[trigger] rules[j])@ == registered_rule(quotas[j], now@),
        decreases quotas.len() - i,
    {
        let quota = Quota::from(&quotas[i]);
        let flow = Flow::new(Uint256::zero(), Uint256::zero(), now, quotas[i].duration);
        rules.push(RateLimit::new(quota, flow));
        i += 1;
    }
    rules
}

/// The trackers of the paths that are registered at `now`, in the order
/// of the messages. Each is to be stored under its channel and denom,
/// in place of what was there.
pub fn add_new_paths(path_msgs: Vec<PathMsg>, now: Timestamp) -> (r: Vec<Tracker>)
    requires
        forall|i: int|
            0 <= i < path_msgs.len() ==> quotas_fit((#[trigger] path_msgs[i]).quotas@, now),
    ensures
        r.len() == path_msgs.len(),
        forall|i: int|
            0 <= i < r.len() ==> crate::helpers::tracker_view(#[trigger] r[i])
                == registered_tracker(path_msgs[i], now@),
{
    let mut trackers: Vec<Tracker> = Vec::new();
    let mut i: usize = 0;
    while i < path_msgs.len()
        invariant
            i <= path_msgs.len(),
            trackers.len() == i,
            forall|j: int|
                0 <= j < path_msgs.len() ==> quotas_fit((#[trigger] path_msgs[j]).quotas@, now),
            forall|j: int|
                0 <= j < i ==> crate::helpers::tracker_view(#[trigger] trackers[j])
                    == registered_tracker(path_msgs[j], now@),
        decreases path_msgs.len() - i,
    {
        let path_msg = &path_msgs[i];
        let key = (path_msg.channel_id.clone(), path_msg.denom.clone());
        trackers.push((key, new_rate_limits(&path_msg.quotas, now)));
        i += 1;
    }
    trackers
}

/// Registers one path. Only the two managing modules may do so.
pub fn try_add_path(
    sender: String,
    ibc_module: &String,
    gov_module: &String,
    channel_id: String,
    denom: String,
    quotas: Vec<QuotaMsg>,
    now: Timestamp,
) -> (r: Result<Tracker, ContractError>)
    requires
        quotas_fit(quotas@, now),
    ensures
        r is Ok <==> is_manager(sender@, ibc_module@, gov_module@),
        r matches Ok(tracker) ==> crate::helpers::tracker_view(tracker) == (TrackerView {
            channel: channel_id@,
            denom: denom@,
            rules: registered_rules(quotas@, now@),
        }),
        r matches Err(error) ==> error == (ContractError::Unauthorized {  }),
{
    if !sender_is_manager(&sender, ibc_module, gov_module) {
        return Err(ContractError::Unauthorized {  });
    }
    let rules = new_rate_limits(&quotas, now);
    Ok(((channel_id, denom), rules))
}

/// Removes one path: the result is the channel and the denom whose rules
/// are to be deleted. Only the two managing modules may do so.
pub fn try_remove_path(
    sender: String,
    ibc_module: &String,
    gov_module: &String,
    channel_id: String,
    denom: String,
) -> (r: Result<(String, String), ContractError>)
    ensures
        r is Ok <==> is_manager(sender@, ibc_module@, gov_module@),
        r matches Ok(key) ==> key.0@ == channel_id@ && key.1@ == denom@,
        r matches Err(error) ==> error == (ContractError::Unauthorized {  }),
{
    if !sender_is_manager(&sender, ibc_module, gov_module) {
        return Err(ContractError::Unauthorized {  });
    }
    Ok((channel_id, denom))
}

/// Whether some rule of `rules` has the name `quota_id`.
pub open spec fn has_quota(rules: Seq<RateLimitView>, quota_id: Seq<char>) -> bool {
    exists|i: int| 0 <= i < rules.len() && (#[trigger] rules[i]).quota.name == quota_id
}

/// A rule after a reset of the quota `quota_id` at `now`.
pub open spec fn reset_rule(rule: RateLimitView, quota_id: Seq<char>, now: nat) -> RateLimitView {
    if rule.quota.name == quota_id {
        rule.with_flow(rule.flow.expire(now, rule.quota.duration))
    } else {
        rule
    }
}

/// The rules of a path after a reset of the quota `quota_id` at `now`.
pub open spec fn after_reset(rules: Seq<RateLimitView>, quota_id: Seq<char>, now: nat) -> Seq<
    RateLimitView,
> {
    rules.map_values(|rule: RateLimitView| reset_rule(rule, quota_id, now))
}

/// Whether the reset of the quota `quota_id` finds something to reset.
pub open spec fn quota_found(maybe_rate_limit: Option<Vec<RateLimit>>, quota_id: Seq<char>) -> bool {
    match maybe_rate_limit {
        Some(limits) => has_quota(rules_view(limits@), quota_id),
        None => false,
    }
}

/// Whether `error` says that the quota `quota_id` was not found on the
/// path.
pub open spec fn is_quota_not_found(
    error: ContractError,
    quota_id: Seq<char>,
    channel_id: Seq<char>,
    denom: Seq<char>,
) -> bool {
    match error {
        ContractError::QuotaNotFound { quota_id: quota, channel_id: channel, denom: asset } => {
            quota@ == quota_id && channel@ == channel_id && asset@ == denom
        },
        _ => false,
    }
}

/// Whether a new window of every rule named `quota_id` that starts at
/// `now` ends at a time that can be represented.
pub open spec fn reset_fits(
    maybe_rate_limit: Option<Vec<RateLimit>>,
    quota_id: Seq<char>,
    now: Timestamp,
) -> bool {
    match maybe_rate_limit {
        Some(limits) => forall|i: int|
            0 <= i < limits.len() && (#[trigger] limits[i]).quota.name@ == quota_id
                ==> limits[i].window_fits(now),
        None => true,
    }
}

/// Looking for a quota of a name among one more rule.
proof fn lemma_has_quota_step(rules: Seq<RateLimitView>, quota_id: Seq<char>, i: int)
    requires
        0 <= i < rules.len(),
    ensures
        has_quota(rules.take(i + 1), quota_id) <==> has_quota(rules.take(i), quota_id)
            || rules[i].quota.name == quota_id,
{
    let prefix = rules.take(i);
    let next = rules.take(i + 1);
    if has_quota(next, quota_id) {
        let k = choose|k: int| 0 <= k < next.len() && (#[trigger] next[k]).quota.name == quota_id;
        assert(k < i ==> prefix[k].quota.name == quota_id);
    }
    if has_quota(prefix, quota_id) {
        let k = choose|k: int|
            0 <= k < prefix.len() && (#[trigger] prefix[k]).quota.name == quota_id;
        assert(next[k].quota.name == quota_id);
    }
    if rules[i].quota.name == quota_id {
        assert(next[i].quota.name == quota_id);
    }
}

/// Tells whether the quota `quota_id` of the rules found in storage can
/// be reset at `now`.
pub fn can_reset(maybe_rate_limit: &Option<Vec<RateLimit>>, quota_id: &String, now: Timestamp) -> (r:
    bool)
    ensures
        r == reset_fits(*maybe_rate_limit, quota_id@, now),
{
    match maybe_rate_limit {
        Some(limits) => {
            let mut i: usize = 0;
            while i < limits.len()
                invariant
                    i <= limits.len(),
                    *maybe_rate_limit == Some(*limits),
                    forall|j: int|
                        0 <= j < i && (#[trigger] limits[j]).quota.name@ == quota_id@
                            ==> limits[j].window_fits(now),
                decreases limits.len() - i,
            {
                if limits[i].quota.name.eq(quota_id) && !limits[i].fits_window(now) {
                    return false;
                }
                i += 1;
            }
            true
        },
        None => true,
    }
}

/// Starts a new window at `now` for the quota `quota_id` of a path, whose
/// rules are handed in as they were found in storage. Only the governance
/// module may do so. The result holds the rules of the path to be stored:
/// every rule of that name has nothing counted and a window that starts at
/// `now`; the other rules are as they were.
pub fn try_reset_path_quota(
    sender: String,
    gov_module: &String,
    maybe_rate_limit: Option<Vec<RateLimit>>,
    channel_id: String,
    denom: String,
    quota_id: String,
    now: Timestamp,
) -> (r: Result<Vec<RateLimit>, ContractError>)
    requires
        reset_fits(maybe_rate_limit, quota_id@, now),
    ensures
        r is Ok <==> sender@ == gov_module@ && quota_found(maybe_rate_limit, quota_id@),
        r matches Ok(limits) ==> rules_view(limits@) == after_reset(
            rules_view(maybe_rate_limit->0@),
            quota_id@,
            now@,
        ),
        r matches Err(error) ==> if sender@ != gov_module@ {
            error == (ContractError::Unauthorized {  })
        } else {
            is_quota_not_found(error, quota_id@, channel_id@, denom@)
        },
{
    if !sender.eq(gov_module) {
        return Err(ContractError::Unauthorized {  });
    }
    let mut limits = match maybe_rate_limit {
        Some(limits) => limits,
        None => {
            return Err(ContractError::QuotaNotFound { quota_id, channel_id, denom });
        },
    };
    let ghost views = rules_view(limits@);
    let mut found = false;
    let mut i: usize = 0;
    while i < limits.len()
        invariant
            i <= limits.len(),
            limits.len() == views.len(),
            maybe_rate_limit matches Some(found_limits) && views == rules_view(found_limits@),
            reset_fits(maybe_rate_limit, quota_id@, now),
            forall|j: int| 0 <= j < i ==> (#[trigger] limits[j])@ == reset_rule(views[j], quota_id@, now@),
            forall|j: int| i <= j < limits.len() ==> (#[trigger] limits[j]) == maybe_rate_limit->0[j],
            found == has_quota(views.take(i as int), quota_id@),
        decreases limits.len() - i,
    {
        proof {
            lemma_has_quota_step(views, quota_id@, i as int);
        }
        if limits[i].quota.name.eq(&quota_id) {
            let duration = limits[i].quota.duration;
            limits[i].flow._expire(now, duration);
            found = true;
        }
        i += 1;
    }
    assert(views.take(limits.len() as int) =~= views);
    if !found {
        return Err(ContractError::QuotaNotFound { quota_id, channel_id, denom });
    }
    Ok(limits)
}

/// The view of a bypass queue: the senders and what each may send.
pub open spec fn queue_view(queue: Seq<(String, Uint256)>) -> Seq<(Seq<char>, nat)> {
    queue.map_values(|entry: (String, Uint256)| (entry.0@, entry.1@))
}

/// Whether the entry at `index` is the first of `queue` for `sender`.
pub open spec fn first_entry_at(queue: Seq<(Seq<char>, nat)>, index: int, sender: Seq<char>) -> bool {
    &&& 0 <= index < queue.len()
    &&& queue[index].0 == sender
    &&& forall|j: int| 0 <= j < index ==> (#[trigger] queue[j]).0 != sender
}

/// Whether `queue` has no entry for `sender`.
pub open spec fn no_entry(queue: Seq<(Seq<char>, nat)>, sender: Seq<char>) -> bool {
    forall|j: int| 0 <= j < queue.len() ==> (#[trigger] queue[j]).0 != sender
}

/// Whether `updated` is `queue` with `amount` set for `sender`: in the
/// first entry of the sender where there is one, in a new last entry where
/// there is none.
pub open spec fn is_upsert(
    queue: Seq<(Seq<char>, nat)>,
    updated: Seq<(Seq<char>, nat)>,
    sender: Seq<char>,
    amount: nat,
) -> bool {
    ||| exists|i: int| #[trigger]
        first_entry_at(queue, i, sender) && updated == queue.update(i, (sender, amount))
    ||| no_entry(queue, sender) && updated == queue.push((sender, amount))
}

/// Sets what `sender` may send on a path in one transfer without a check
/// against the rate limits. The bypass queue of the path is handed in as
/// it was found in storage, and the result is the queue to be stored. An
/// amount of zero takes the allowance away; the entry stays in the queue.
/// Only the two managing modules may do so.
pub fn bypass_update(
    msg_invoker: String,
    ibc_module: &String,
    gov_module: &String,
    sender: String,
    bypass_queue: Vec<(String, Uint256)>,
    amount: Uint256,
) -> (r: Result<Vec<(String, Uint256)>, ContractError>)
    ensures
        r is Ok <==> is_manager(msg_invoker@, ibc_module@, gov_module@),
        r matches Ok(queue) ==> is_upsert(
            queue_view(bypass_queue@),
            queue_view(queue@),
            sender@,
            amount@,
        ),
        r matches Err(error) ==> error == (ContractError::Unauthorized {  }),
{
    if !sender_is_manager(&msg_invoker, ibc_module, gov_module) {
        return Err(ContractError::Unauthorized {  });
    }
    let ghost before = queue_view(bypass_queue@);
    let mut queue = bypass_queue;
    let mut i: usize = 0;
    while i < queue.len()
        invariant
            i <= queue.len(),
            is_manager(msg_invoker@, ibc_module@, gov_module@),
            before == queue_view(bypass_queue@),
            queue_view(queue@) == before,
            forall|j: int| 0 <= j < i ==> (#[trigger] before[j]).0 != sender@,
        decreases queue.len() - i,
    {
        if queue[i].0.eq(&sender) {
            queue[i].1 = amount;
            assert(first_entry_at(before, i as int, sender@));
            assert(queue_view(queue@) =~= before.update(i as int, (sender@, amount@)));
            return Ok(queue);
        }
        i += 1;
    }
    queue.push((sender, amount));
    assert(queue_view(queue@) =~= before.push((sender@, amount@)));
    Ok(queue)
}

/// Records the intent of `sender` to transfer `amount` on a path. What
/// storage holds for the sender and the path is handed in, and the result
/// is the intent to be stored: the amount, and the time from which it can
/// be used, 24 hours after `now`. Only the two managing modules may do so,
/// and only one intent may stand for a sender and a path.
pub fn submit_intent(
    now: Timestamp,
    msg_invoker: String,
    ibc_module: &String,
    gov_module: &String,
    existing: Option<(Uint256, Timestamp)>,
    amount: Uint256,
) -> (r: Result<(Uint256, Timestamp), ContractError>)
    requires
        now.can_add_seconds(INTENT_DELAY),
    ensures
        r is Ok <==> is_manager(msg_invoker@, ibc_module@, gov_module@) && existing is None,
        r matches Ok(intent) ==> intent.0 == amount && intent.1@ == plus_seconds(
            now@,
            INTENT_DELAY as nat,
        ),
        r matches Err(error) ==> error == if is_manager(msg_invoker@, ibc_module@, gov_module@) {
            ContractError::IntentAlreadyPresent
        } else {
            ContractError::Unauthorized {  }
        },
{
    if !sender_is_manager(&msg_invoker, ibc_module, gov_module) {
        return Err(ContractError::Unauthorized {  });
    }
    let unlock_time = now.plus_seconds(INTENT_DELAY);
    match existing {
        Some(_) => Err(ContractError::IntentAlreadyPresent),
        None => Ok((amount, unlock_time)),
    }
}

/// Takes the intent of a sender on a path away. What storage holds for the
/// sender and the path is handed in; on success it is to be deleted. Only
/// the two managing modules may do so.
pub fn remove_intent(
    msg_invoker: String,
    ibc_module: &String,
    gov_module: &String,
    existing: Option<(Uint256, Timestamp)>,
) -> (r: Result<(), ContractError>)
    ensures
        r is Ok <==> is_manager(msg_invoker@, ibc_module@, gov_module@) && existing is Some,
        r matches Err(error) ==> error == if is_manager(msg_invoker@, ibc_module@, gov_module@) {
            ContractError::IntentNotPresent
        } else {
            ContractError::Unauthorized {  }
        },
{
    if !sender_is_manager(&msg_invoker, ibc_module, gov_module) {
        return Err(ContractError::Unauthorized {  });
    }
    match existing {
        Some(_) => Ok(()),
        None => Err(ContractError::IntentNotPresent),
    }
}

/// Whether an intent can be used for a transfer of `funds` at
/// `block_time`: its time has come and the amount is exactly that of the
/// intent.
pub fn intent_ok(intent: (Uint256, Timestamp), block_time: Timestamp, funds: Uint256) -> (r: bool)
    ensures
        r == (block_time@ >= intent.1@ && funds@ == intent.0@),
{
    block_time.ge(&intent.1) && funds == intent.0
}

} // verus!
