//! The admission of transfers on a path, and their undoing.

use crate::error::ContractError;
use crate::model::{on_direction, RateLimitView};
use crate::state::{rejection_of, rules_view, FlowType, Path, PathView, RateLimit};
use crate::timestamp::Timestamp;
use crate::uint256::Uint256;
use vstd::prelude::*;

verus! {

/// Whether the rule at `index` is the first of `rules` that does not admit
/// the transfer.
pub open spec fn first_rejection_at(
    rules: Seq<RateLimitView>,
    index: int,
    denom: Seq<char>,
    direction: FlowType,
    funds: nat,
    channel_value: nat,
    now: nat,
) -> bool {
    &&& 0 <= index < rules.len()
    &&& !rules[index].admits(denom, direction, funds, channel_value, now)
    &&& forall|j: int|
        0 <= j < index ==> (#[trigger] rules[j]).admits(denom, direction, funds, channel_value, now)
}

/// Whether every rule of `rules` admits the transfer.
pub open spec fn all_admit(
    rules: Seq<RateLimitView>,
    denom: Seq<char>,
    direction: FlowType,
    funds: nat,
    channel_value: nat,
    now: nat,
) -> bool {
    forall|j: int|
        0 <= j < rules.len() ==> (#[trigger] rules[j]).admits(
            denom,
            direction,
            funds,
            channel_value,
            now,
        )
}

/// The rules of a path after a transfer that all of them admit.
pub open spec fn after_admission(
    rules: Seq<RateLimitView>,
    denom: Seq<char>,
    direction: FlowType,
    funds: nat,
    channel_value: nat,
    now: nat,
) -> Seq<RateLimitView> {
    rules.map_values(
        |rule: RateLimitView|
            rule.after_transfer(denom, direction, funds, channel_value, now).admitted(now),
    )
}

/// Whether `error` is what the rule `rule` answers to a transfer that it
/// does not admit.
pub open spec fn rejected_by(
    error: ContractError,
    rule: RateLimitView,
    path: PathView,
    direction: FlowType,
    funds: nat,
    channel_value: nat,
    now: nat,
) -> bool {
    let after = rule.after_transfer(path.denom, direction, funds, channel_value, now);
    rejection_of(
        error,
        path,
        funds,
        rule.quota.name,
        rule.averaged_balance_on(direction),
        on_direction(after.effective_capacity(), direction),
        after.flow.period_end,
    )
}

/// Whether every rule of `rules` can take a transfer at `now`.
pub open spec fn all_can_transfer_at(rules: Seq<RateLimit>, now: Timestamp) -> bool {
    forall|i: int| 0 <= i < rules.len() ==> (#[trigger] rules[i]).can_transfer_at(now)
}

/// Tells whether every rule of `rules` can take a transfer at `now`.
pub fn can_process_transfer(rules: &Vec<RateLimit>, now: Timestamp) -> (r: bool)
    ensures
        r == all_can_transfer_at(rules@, now),
{
    let mut i: usize = 0;
    while i < rules.len()
        invariant
            i <= rules.len(),
            forall|j: int| 0 <= j < i ==> (#[trigger] rules[j]).can_transfer_at(now),
        decreases rules.len() - i,
    {
        if !rules[i].can_transfer(now) {
            return false;
        }
        i += 1;
    }
    true
}

/// Checks a transfer against every rule of a path.
///
/// The transfer goes through only if each rule admits it on its own; the
/// result then holds the rules with the transfer counted, in their order.
/// Otherwise the error is that of the first rule that refuses. The rules
/// that were handed in are never changed, so a refusal leaves no trace.
pub fn process_transfer(
    rules: &Vec<RateLimit>,
    path: &Path,
    direction: &FlowType,
    funds: Uint256,
    channel_value: Uint256,
    now: Timestamp,
) -> (r: Result<Vec<RateLimit>, ContractError>)
    requires
        all_can_transfer_at(rules@, now),
    ensures
        r is Ok <==> all_admit(
            rules_view(rules@),
            path@.denom,
            *direction,
            funds@,
            channel_value@,
            now@,
        ),
        r matches Ok(updated) ==> rules_view(updated@) == after_admission(
            rules_view(rules@),
            path@.denom,
            *direction,
            funds@,
            channel_value@,
            now@,
        ),
        r matches Err(error) ==> first_rejection(
            error,
            rules_view(rules@),
            path@,
            *direction,
            funds@,
            channel_value@,
            now@,
        ),
{
    let ghost views = rules_view(rules@);
    let mut results: Vec<RateLimit> = Vec::new();
    let mut i: usize = 0;
    while i < rules.len()
        invariant
            i <= rules.len(),
            results.len() == i,
            views == rules_view(rules@),
            all_can_transfer_at(rules@, now),
            forall|j: int|
                0 <= j < i ==> (#[trigger] views[j]).admits(
                    path@.denom,
                    *direction,
                    funds@,
                    channel_value@,
                    now@,
                ),
            forall|j: int|
                0 <= j < i ==> (#[trigger] results[j])@ == views[j].after_transfer(
                    path@.denom,
                    *direction,
                    funds@,
                    channel_value@,
                    now@,
                ).admitted(now@),
        decreases rules.len() - i,
    {
        let mut rule = rules[i].clone();
        match rule.allow_transfer(path, direction, funds, channel_value, now) {
            Ok(updated) => {
                results.push(updated);
            },
            Err(error) => {
                assert(first_rejection_at(
                    views,
                    i as int,
                    path@.denom,
                    *direction,
                    funds@,
                    channel_value@,
                    now@,
                ));
                return Err(error);
            },
        }
        i += 1;
    }
    Ok(results)
}

/// The path under which the rules for every channel of the denom of
/// `path` are registered: its channel is `any`.
pub open spec fn any_path_of(path: PathView) -> PathView {
    PathView { channel: "any"@, denom: path.denom }
}

/// Whether `error` is the answer of the first rule of `rules` that does
/// not admit the transfer on `path`.
pub open spec fn first_rejection(
    error: ContractError,
    rules: Seq<RateLimitView>,
    path: PathView,
    direction: FlowType,
    funds: nat,
    channel_value: nat,
    now: nat,
) -> bool {
    exists|k: int|
        first_rejection_at(rules, k, path.denom, direction, funds, channel_value, now)
            && rejected_by(error, #[trigger] rules[k], path, direction, funds, channel_value, now)
}

/// The path under which the rules for every channel of the denom of
/// `path` are registered.
pub fn any_path(path: &Path) -> (r: Path)
    ensures
        r@ == any_path_of(path@),
{
    Path::new("any", path.denom.as_str())
}

/// Checks a transfer on a path against the rules of the path and against
/// the rules that are registered for any channel of its denom.
///
/// The transfer goes through only if every rule of both lists admits it;
/// the result then holds both lists with the transfer counted, the rules
/// of the path first. Otherwise the error is that of the first rule that
/// refuses, the rules of the path being asked first; the rules for any
/// channel answer for the path with the channel `any`.
pub fn try_transfer(
    trackers: &Vec<RateLimit>,
    any_trackers: &Vec<RateLimit>,
    path: &Path,
    channel_value: Uint256,
    funds: Uint256,
    direction: &FlowType,
    now: Timestamp,
) -> (r: Result<(Vec<RateLimit>, Vec<RateLimit>), ContractError>)
    requires
        all_can_transfer_at(trackers@, now),
        all_can_transfer_at(any_trackers@, now),
    ensures
        r is Ok <==> all_admit(
            rules_view(trackers@),
            path@.denom,
            *direction,
            funds@,
            channel_value@,
            now@,
        ) && all_admit(
            rules_view(any_trackers@),
            path@.denom,
            *direction,
            funds@,
            channel_value@,
            now@,
        ),
        r matches Ok(updated) ==> rules_view(updated.0@) == after_admission(
            rules_view(trackers@),
            path@.denom,
            *direction,
            funds@,
            channel_value@,
            now@,
        ) && rules_view(updated.1@) == after_admission(
            rules_view(any_trackers@),
            path@.denom,
            *direction,
            funds@,
            channel_value@,
            now@,
        ),
        r matches Err(error) ==> if all_admit(
            rules_view(trackers@),
            path@.denom,
            *direction,
            funds@,
            channel_value@,
            now@,
        ) {
            first_rejection(
                error,
                rules_view(any_trackers@),
                any_path_of(path@),
                *direction,
                funds@,
                channel_value@,
                now@,
            )
        } else {
            first_rejection(
                error,
                rules_view(trackers@),
                path@,
                *direction,
                funds@,
                channel_value@,
                now@,
            )
        },
{
    let results = match process_transfer(trackers, path, direction, funds, channel_value, now) {
        Ok(results) => results,
        Err(error) => {
            return Err(error);
        },
    };
    let any = any_path(path);
    match process_transfer(any_trackers, &any, direction, funds, channel_value, now) {
        Ok(any_results) => Ok((results, any_results)),
        Err(error) => Err(error),
    }
}

/// The rules of a path with the flow of a transfer taken back.
pub open spec fn after_undo(rules: Seq<RateLimitView>, direction: FlowType, funds: nat) -> Seq<
    RateLimitView,
> {
    rules.map_values(|rule: RateLimitView| rule.undo_transfer(direction, funds))
}

/// Takes a transfer back that was counted before and then failed further
/// on. Only the flow counters change: the cached channel values and the
/// ends of the windows stay as they are.
pub fn undo_transfer(rules: &mut Vec<RateLimit>, direction: &FlowType, funds: Uint256)
    ensures
        rules_view(final(rules)@) == after_undo(rules_view(old(rules)@), *direction, funds@),
        final(rules).len() == old(rules).len(),
        forall|i: int|
            0 <= i < old(rules).len() ==> {
                &&& (#[trigger] final(rules)[i]).quota == old(rules)[i].quota
                &&& final(rules)[i].flow.period_end == old(rules)[i].flow.period_end
            },
{
    let mut i: usize = 0;
    while i < rules.len()
        invariant
            i <= rules.len(),
            rules.len() == old(rules).len(),
            forall|j: int|
                0 <= j < i ==> (#[trigger] rules[j])@ == old(rules)[j]@.undo_transfer(
                    *direction,
                    funds@,
                ),
            forall|j: int|
                0 <= j < i ==> {
                    &&& (#[trigger] rules[j]).quota == old(rules)[j].quota
                    &&& rules[j].flow.period_end == old(rules)[j].flow.period_end
                },
            forall|j: int| i <= j < rules.len() ==> (#[trigger] rules[j]) == old(rules)[j],
        decreases rules.len() - i,
    {
        rules[i].flow.undo_flow(*direction, funds);
        i += 1;
    }
}

} // verus!
