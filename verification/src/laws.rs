//! Laws of the accounting rules.
//!
//! Each law is stated over the views of the data types and proved from the
//! definitions of the rules alone. The executable functions are proved to
//! compute these rules, so the laws hold of what they return.

use crate::execute::{first_entry_at, is_upsert, no_entry};
use crate::helpers::{
    after_rollover, any_expired, expired_rules, needs_rollover, rolled_over, rolled_trackers,
    TrackerView,
};
use crate::model::{average, decayed, FlowView, QuotaView, RateLimitView};
use crate::msg::QuotaMsg;
use crate::state::{quota_from_msg, FlowType};
use crate::timestamp::plus_seconds;
use crate::uint256::u256_max;
use vstd::prelude::*;

verus! {

/// One change of the counters of a flow.
pub enum FlowChange {
    /// A transfer of an amount in a direction is counted.
    Add(FlowType, nat),
    /// A transfer of an amount in a direction is taken back.
    Undo(FlowType, nat),
}

/// The flow after one change of its counters.
pub open spec fn change_flow(flow: FlowView, change: FlowChange) -> FlowView {
    match change {
        FlowChange::Add(direction, value) => flow.add_flow(direction, value),
        FlowChange::Undo(direction, value) => flow.undo_flow(direction, value),
    }
}

/// The flow after a sequence of changes of its counters, first to last.
pub open spec fn change_flow_by(flow: FlowView, changes: Seq<FlowChange>) -> FlowView
    decreases changes.len(),
{
    if changes.len() == 0 {
        flow
    } else {
        change_flow(change_flow_by(flow, changes.drop_last()), changes.last())
    }
}

/// Counting a transfer never lowers a counter and never takes one past the
/// largest 256-bit number; taking a transfer back never raises a counter
/// and never takes one below zero. Neither moves the end of the window.
pub proof fn lemma_flow_change_saturates(flow: FlowView, change: FlowChange)
    requires
        flow.bounded(),
    ensures
        change_flow(flow, change).bounded(),
        change_flow(flow, change).period_end == flow.period_end,
        change is Add ==> change_flow(flow, change).inflow >= flow.inflow && change_flow(
            flow,
            change,
        ).outflow >= flow.outflow,
        change is Undo ==> change_flow(flow, change).inflow <= flow.inflow && change_flow(
            flow,
            change,
        ).outflow <= flow.outflow,
{
}

/// Whatever transfers are counted and taken back, in whatever order, both
/// counters stay between zero and the largest 256-bit number, and the
/// window ends where it did.
pub proof fn lemma_flow_changes_saturate(flow: FlowView, changes: Seq<FlowChange>)
    requires
        flow.bounded(),
    ensures
        change_flow_by(flow, changes).bounded(),
        0 <= change_flow_by(flow, changes).inflow <= u256_max(),
        0 <= change_flow_by(flow, changes).outflow <= u256_max(),
        change_flow_by(flow, changes).period_end == flow.period_end,
    decreases changes.len(),
{
    if changes.len() > 0 {
        lemma_flow_changes_saturate(flow, changes.drop_last());
        lemma_flow_change_saturates(change_flow_by(flow, changes.drop_last()), changes.last());
    }
}

/// A new window always ends `duration` seconds after the moment at which
/// it was started, with nothing counted.
pub proof fn lemma_expire_sets_window(flow: FlowView, now: nat, duration: nat)
    ensures
        flow.expire(now, duration).period_end == plus_seconds(now, duration),
        flow.expire(now, duration).inflow == 0,
        flow.expire(now, duration).outflow == 0,
        !flow.expire(now, duration).is_expired(now),
{
    assert(duration * 1_000_000_000 >= 0) by (nonlinear_arith)
        requires
            duration >= 0,
    ;
}

/// A transfer moves the end of a rule's window only where the window had
/// ended, and then to `duration` seconds after the transfer. The same holds
/// of the rule that an admitted transfer hands back.
pub proof fn lemma_transfer_keeps_window(
    rule: RateLimitView,
    denom: Seq<char>,
    direction: FlowType,
    funds: nat,
    channel_value: nat,
    now: nat,
)
    ensures
        rule.after_transfer(denom, direction, funds, channel_value, now).flow.period_end == if rule.flow.is_expired(
            now,
        ) {
            plus_seconds(now, rule.quota.duration)
        } else {
            rule.flow.period_end
        },
        rule.after_transfer(denom, direction, funds, channel_value, now).admitted(
            now,
        ).flow.period_end == rule.after_transfer(
            denom,
            direction,
            funds,
            channel_value,
            now,
        ).flow.period_end,
{
}

/// The rollover scan moves the end of a rule's window only where the
/// window had ended, and then to `duration` seconds after the scan. A rule
/// whose window still lasts is left exactly as it was.
pub proof fn lemma_rollover_keeps_window(rule: RateLimitView, now: nat)
    ensures
        !rule.flow.is_expired(now) ==> rule.rollover(now) == rule,
        rule.flow.is_expired(now) ==> rule.rollover(now).flow == rule.flow.expire(
            now,
            rule.quota.duration,
        ),
        rule.rollover(now).quota == rule.quota,
        !rule.rollover(now).flow.is_expired(now),
{
    lemma_expire_sets_window(rule.flow, now, rule.quota.duration);
}

/// After the rollover scan no window has ended, so a second scan at the
/// same moment changes nothing.
pub proof fn lemma_rollover_idempotent(rules: Seq<RateLimitView>, now: nat)
    ensures
        !any_expired(after_rollover(rules, now), now),
        after_rollover(after_rollover(rules, now), now) == after_rollover(rules, now),
{
    let once = after_rollover(rules, now);
    assert forall|i: int| 0 <= i < once.len() implies !(#[trigger] once[i]).flow.is_expired(
        now,
    ) && once[i].rollover(now) == once[i] by {
        lemma_rollover_keeps_window(rules[i], now);
        lemma_rollover_keeps_window(once[i], now);
    }
}

/// After the rollover scan has run on every path, a second scan at the
/// same moment finds no path to store again.
pub proof fn lemma_rollover_scan_idempotent(trackers: Seq<TrackerView>, now: nat)
    ensures
        rolled_trackers(trackers.map_values(rolled_over(now)), now) == Seq::<TrackerView>::empty(),
{
    let scanned = trackers.map_values(rolled_over(now));
    assert forall|i: int| 0 <= i < scanned.len() implies !needs_rollover(now)(
        #[trigger] scanned[i],
    ) by {
        lemma_rollover_idempotent(trackers[i].rules, now);
    }
    lemma_filter_none(scanned, needs_rollover(now));
}

/// The rollover scan changes the rules of a path if and only if the search
/// for rules whose window has ended finds one there.
pub proof fn lemma_rollover_changes_what_has_expired(rules: Seq<RateLimitView>, now: nat)
    ensures
        any_expired(rules, now) <==> expired_rules(rules, now).len() > 0,
    decreases rules.len(),
{
    reveal(Seq::filter);
    if rules.len() > 0 {
        let rest = rules.drop_last();
        lemma_rollover_changes_what_has_expired(rest, now);
        if any_expired(rules, now) {
            let i = choose|i: int|
                0 <= i < rules.len() && (#[trigger] rules[i]).flow.is_expired(now);
            assert(i < rules.len() - 1 ==> rest[i].flow.is_expired(now));
        }
        if expired_rules(rules, now).len() > 0 && !rules.last().flow.is_expired(now) {
            let i = choose|i: int|
                0 <= i < rest.len() && (#[trigger] rest[i]).flow.is_expired(now);
            assert(rules[i].flow.is_expired(now));
        }
        if rules.last().flow.is_expired(now) {
            assert(rules[rules.len() - 1].flow.is_expired(now));
        }
    }
}

/// A filter that no element passes leaves nothing.
proof fn lemma_filter_none<A>(s: Seq<A>, pred: spec_fn(A) -> bool)
    requires
        forall|i: int| 0 <= i < s.len() ==> !pred(#[trigger] s[i]),
    ensures
        s.filter(pred) == Seq::<A>::empty(),
    decreases s.len(),
{
    reveal(Seq::filter);
    if s.len() > 0 {
        lemma_filter_none(s.drop_last(), pred);
    }
}

/// Sending and receiving the same amount cancel: where neither counter
/// saturates, the balance is what it was before the two transfers.
pub proof fn lemma_symmetric_flows_cancel(flow: FlowView, value: nat)
    requires
        flow.inflow + value <= u256_max(),
        flow.outflow + value <= u256_max(),
    ensures
        flow.add_flow(FlowType::Out, value).add_flow(FlowType::In, value).balance()
            == flow.balance(),
        flow.add_flow(FlowType::In, value).add_flow(FlowType::Out, value).balance()
            == flow.balance(),
{
}

/// A transfer in one direction takes from the balance of the other
/// direction before it adds to its own: the two balances are never both
/// above zero.
pub proof fn lemma_balance_is_net(flow: FlowView)
    ensures
        flow.balance().0 == 0 || flow.balance().1 == 0,
        flow.balance().0 - flow.balance().1 == flow.inflow - flow.outflow,
{
}

/// The caps of a quota that a message configures are percentages,
/// whatever the message asks for: a higher value is stored as one hundred.
pub proof fn lemma_configured_quota_is_clamped(msg: QuotaMsg)
    ensures
        quota_from_msg(&msg)@.wf(),
        msg.send_recv.0 <= 100 ==> quota_from_msg(&msg)@.max_percentage_send == msg.send_recv.0,
        msg.send_recv.0 > 100 ==> quota_from_msg(&msg)@.max_percentage_send == 100,
        msg.send_recv.1 <= 100 ==> quota_from_msg(&msg)@.max_percentage_recv == msg.send_recv.1,
        msg.send_recv.1 > 100 ==> quota_from_msg(&msg)@.max_percentage_recv == 100,
{
}

/// Taking a transfer back that was counted restores the flow, where the
/// counter had not saturated.
pub proof fn lemma_undo_reverses_add(flow: FlowView, direction: FlowType, value: nat)
    requires
        direction == FlowType::In ==> flow.inflow + value <= u256_max(),
        direction == FlowType::Out ==> flow.outflow + value <= u256_max(),
    ensures
        flow.add_flow(direction, value).undo_flow(direction, value) == flow,
{
}

/// Taking a transfer back touches the flow counters only: the quota with
/// its cached channel value and the end of the window stay as they are.
pub proof fn lemma_undo_keeps_quota_and_window(rule: RateLimitView, direction: FlowType, funds: nat)
    ensures
        rule.undo_transfer(direction, funds).quota == rule.quota,
        rule.undo_transfer(direction, funds).flow.period_end == rule.flow.period_end,
        rule.undo_transfer(direction, funds).period_start == rule.period_start,
{
}

/// The previous channel value decays from all of it at the start of the
/// window to nothing at its end, and never grows on the way.
pub proof fn lemma_decay_is_monotonic(previous: nat, earlier: nat, later: nat)
    requires
        earlier <= later <= 100,
    ensures
        decayed(previous, 0) == previous,
        decayed(previous, 100) == 0,
        decayed(previous, later) <= decayed(previous, earlier) <= previous,
{
    assert(previous * earlier / 100 <= previous * later / 100) by (nonlinear_arith)
        requires
            earlier <= later,
    ;
    assert(previous * later / 100 <= previous) by (nonlinear_arith)
        requires
            later <= 100,
    ;
}

/// What has decayed is the previous channel value times the share of the
/// window that is left, rounded up.
pub proof fn lemma_decay_is_linear(previous: nat, percent: nat)
    requires
        percent <= 100,
    ensures
        decayed(previous, percent) == (previous * (100 - percent) + 99) / 100,
{
    let gone = previous * percent / 100;
    assert(previous * percent == 100 * gone + (previous * percent) % 100) by (nonlinear_arith)
        requires
            gone == previous * percent / 100,
    ;
    assert(previous * (100 - percent) == 100 * previous - previous * percent) by (nonlinear_arith);
    assert(gone <= previous) by (nonlinear_arith)
        requires
            gone == previous * percent / 100,
            percent <= 100,
    ;
    let rest = (previous * percent) % 100;
    assert(previous * (100 - percent) + 99 == 100 * (previous - gone) + (99 - rest));
    assert((100 * (previous - gone) + (99 - rest)) / 100 == previous - gone) by (nonlinear_arith)
        requires
            0 <= 99 - rest < 100,
    ;
}

/// The blended channel value of a rule with decay averaging lies between
/// half of the current value and the average of the current and the
/// previous value, so it never exceeds the larger of the two.
pub proof fn lemma_blend_is_bounded(rule: RateLimitView)
    requires
        rule.blended_channel_value() is Some,
    ensures
        rule.quota.channel_value->0 / 2 <= rule.blended_channel_value()->0 <= average(
            rule.quota.channel_value->0,
            rule.previous_channel_value->0,
        ),
        rule.blended_channel_value()->0 <= rule.quota.channel_value->0
            || rule.blended_channel_value()->0 <= rule.previous_channel_value->0,
{
}

/// At the start of a window, when nothing of the previous channel value
/// has decayed, the blend is half of the current value; at its end, when
/// all of it has, the blend is the average of the two values.
pub proof fn lemma_blend_at_the_ends_of_the_window(rule: RateLimitView)
    requires
        rule.quota.channel_value is Some,
        rule.previous_channel_value is Some,
        rule.quota.channel_value->0 + rule.previous_channel_value->0 <= u256_max(),
    ensures
        rule.decayed_value == Some(decayed(rule.previous_channel_value->0, 0))
            ==> rule.blended_channel_value() == Some(rule.quota.channel_value->0 / 2),
        rule.decayed_value == Some(decayed(rule.previous_channel_value->0, 100))
            ==> rule.blended_channel_value() == Some(
            average(rule.quota.channel_value->0, rule.previous_channel_value->0),
        ),
{
    lemma_decay_is_monotonic(rule.previous_channel_value->0, 0, 100);
}

/// Within one block the decayed value is computed once. A call that
/// computes it marks the block, and every later call in the block returns
/// the stored value and leaves the rule as it is, whatever the time.
pub proof fn lemma_decay_is_computed_once_a_block(
    rule: RateLimitView,
    now: nat,
    later: nat,
    block_height: nat,
)
    ensures
        rule.decay_is_due(now, block_height) ==> rule.check_decay_rate(
            now,
            block_height,
        ).decay_is_current(block_height),
        rule.decay_is_current(block_height) ==> rule.check_decay_rate(later, block_height) == rule
            && rule.decay_rate(later, block_height) == rule.decayed_value,
        rule.decay_is_due(now, block_height) ==> rule.check_decay_rate(
            now,
            block_height,
        ).decay_rate(later, block_height) == rule.decay_rate(now, block_height),
{
}

/// A rule without decay averaging goes by its plain quota and its plain
/// flow: capacity, balance and the check against them are those of the
/// quota and the flow.
pub proof fn lemma_plain_rule_is_not_averaged(
    rule: RateLimitView,
    direction: FlowType,
    max_inflow: nat,
    max_outflow: nat,
)
    requires
        !rule.is_v1_migrated(),
    ensures
        rule.averaged_channel_value() == rule.quota.channel_value,
        rule.averaged_capacity() == Some(rule.quota.capacity()),
        rule.effective_capacity() == rule.quota.capacity(),
        rule.averaged_balance() == Some(rule.flow.balance()),
        rule.averaged_balance_on(direction) == rule.flow.balance_on(direction),
        rule.averaged_exceeds(direction, max_inflow, max_outflow) == rule.flow.exceeds(
            direction,
            max_inflow,
            max_outflow,
        ),
{
}

/// A transfer is admitted exactly when, once it is counted, the balance
/// in its direction is at most the capacity in that direction; the other
/// direction does not matter.
pub proof fn lemma_caps_are_independent(rule: RateLimitView, direction: FlowType)
    ensures
        rule.within_capacity(FlowType::In) <==> rule.effective_balance().0
            <= rule.effective_capacity().0,
        rule.within_capacity(FlowType::Out) <==> rule.effective_balance().1
            <= rule.effective_capacity().1,
{
}

/// Whether no two entries of a bypass queue are for the same sender.
pub open spec fn senders_are_unique(queue: Seq<(Seq<char>, nat)>) -> bool {
    forall|i: int, j: int|
        0 <= i < j < queue.len() ==> (#[trigger] queue[i]).0 != (#[trigger] queue[j]).0
}

/// Whether the first entry of `queue` for `sender` allows `amount`.
pub open spec fn allows(queue: Seq<(Seq<char>, nat)>, sender: Seq<char>, amount: nat) -> bool {
    exists|i: int| #[trigger] first_entry_at(queue, i, sender) && queue[i].1 == amount
}

/// An update of the bypass queue keeps one entry per sender, sets the
/// amount of the sender and leaves what every other sender may send.
pub proof fn lemma_bypass_update_keeps_one_entry_per_sender(
    queue: Seq<(Seq<char>, nat)>,
    updated: Seq<(Seq<char>, nat)>,
    sender: Seq<char>,
    amount: nat,
    other: Seq<char>,
    allowance: nat,
)
    requires
        is_upsert(queue, updated, sender, amount),
        senders_are_unique(queue),
    ensures
        senders_are_unique(updated),
        allows(updated, sender, amount),
        other != sender ==> (allows(updated, other, allowance) <==> allows(
            queue,
            other,
            allowance,
        )),
{
    if no_entry(queue, sender) && updated == queue.push((sender, amount)) {
        assert(first_entry_at(updated, queue.len() as int, sender));
        if other != sender {
            if allows(queue, other, allowance) {
                let i = choose|i: int| #[trigger]
                    first_entry_at(queue, i, other) && queue[i].1 == allowance;
                assert(first_entry_at(updated, i, other));
            }
            if allows(updated, other, allowance) {
                let i = choose|i: int| #[trigger]
                    first_entry_at(updated, i, other) && updated[i].1 == allowance;
                assert(first_entry_at(queue, i, other));
            }
        }
    } else {
        let k = choose|k: int| #[trigger]
            first_entry_at(queue, k, sender) && updated == queue.update(k, (sender, amount));
        assert(first_entry_at(updated, k, sender));
        if other != sender {
            if allows(queue, other, allowance) {
                let i = choose|i: int| #[trigger]
                    first_entry_at(queue, i, other) && queue[i].1 == allowance;
                assert(first_entry_at(updated, i, other));
            }
            if allows(updated, other, allowance) {
                let i = choose|i: int| #[trigger]
                    first_entry_at(updated, i, other) && updated[i].1 == allowance;
                assert(first_entry_at(queue, i, other));
            }
        }
    }
}

/// Whether two rules have the same configuration: name, caps and
/// duration.
pub open spec fn same_configuration(a: RateLimitView, b: RateLimitView) -> bool {
    &&& a.quota.name == b.quota.name
    &&& a.quota.max_percentage_send == b.quota.max_percentage_send
    &&& a.quota.max_percentage_recv == b.quota.max_percentage_recv
    &&& a.quota.duration == b.quota.duration
}

/// No operation on a rule changes its configuration, so a rule whose caps
/// are percentages keeps such caps through transfers, undoing, rollover,
/// decay and upgrade.
pub proof fn lemma_operations_keep_the_configuration(
    rule: RateLimitView,
    denom: Seq<char>,
    direction: FlowType,
    funds: nat,
    channel_value: nat,
    now: nat,
    block_height: nat,
)
    ensures
        same_configuration(
            rule.after_transfer(denom, direction, funds, channel_value, now),
            rule,
        ),
        same_configuration(
            rule.after_transfer(denom, direction, funds, channel_value, now).admitted(now),
            rule,
        ),
        same_configuration(rule.undo_transfer(direction, funds), rule),
        same_configuration(rule.rollover(now), rule),
        same_configuration(rule.handle_rollover(now), rule),
        same_configuration(rule.check_decay_rate(now, block_height), rule),
        same_configuration(rule.upgraded(), rule),
        rule.wf() ==> rule.after_transfer(denom, direction, funds, channel_value, now).wf()
            && rule.undo_transfer(direction, funds).wf() && rule.rollover(now).wf()
            && rule.handle_rollover(now).wf() && rule.check_decay_rate(now, block_height).wf()
            && rule.upgraded().wf(),
{
}

/// Without a cached channel value nothing may move.
pub proof fn lemma_no_channel_value_no_capacity(quota: QuotaView)
    requires
        quota.channel_value is None,
    ensures
        quota.capacity() == (0nat, 0nat),
{
}

} // verus!
