//! The mathematical model of the accounting state.
//!
//! Every data type of the engine has a view made of unbounded naturals and
//! sequences. The rules of the engine are spec functions on these views; the
//! executable functions are proved to compute them.

use crate::state::FlowType;
use crate::timestamp::plus_seconds;
use crate::uint256::{ratio, sat_add, sat_sub, u256_max};
use vstd::prelude::*;

verus! {

/// A percentage is at most one hundred.
pub open spec fn is_percentage(p: nat) -> bool {
    p <= 100
}

/// Whole seconds in `nanos` nanoseconds.
pub open spec fn seconds_of(nanos: nat) -> nat {
    nanos / 1_000_000_000
}

/// Whether the three characters at position `i` of `denom` spell `ibc`.
pub open spec fn has_ibc_at(denom: Seq<char>, i: int) -> bool {
    &&& 0 <= i
    &&& i + 3 <= denom.len()
    &&& denom[i] == 'i'
    &&& denom[i + 1] == 'b'
    &&& denom[i + 2] == 'c'
}

/// Whether a denom names an asset that was not issued on this chain: its
/// name holds `ibc`.
pub open spec fn is_non_native(denom: Seq<char>) -> bool {
    exists|i: int| has_ibc_at(denom, i)
}

/// The channel value as it was when the transfer started. A foreign asset
/// leaves the supply before an outbound transfer is checked, so its amount
/// is added back; every other observation stands as it is.
pub open spec fn channel_value_at_start(
    channel_value: nat,
    denom: Seq<char>,
    funds: nat,
    direction: FlowType,
) -> nat {
    match direction {
        FlowType::Out => if is_non_native(denom) {
            sat_add(channel_value, funds)
        } else {
            channel_value
        },
        FlowType::In => channel_value,
    }
}

/// One side of a pair of per-direction amounts, inflow first.
pub open spec fn on_direction(pair: (nat, nat), direction: FlowType) -> nat {
    match direction {
        FlowType::In => pair.0,
        FlowType::Out => pair.1,
    }
}

/// The share of the window `[start, end)` that has passed at `now`, in
/// whole percent. All three are in seconds and `start < end`.
pub open spec fn percent_passed(start: nat, end: nat, now: nat) -> nat {
    if now <= start {
        0
    } else if now >= end {
        100
    } else {
        ((now - start) * 100 / (end - start)) as nat
    }
}

/// The share of a window that has passed is a percentage, and while the
/// window lasts it is the elapsed time over the length of the window.
pub proof fn lemma_percent_passed_bound(start: nat, end: nat, now: nat)
    requires
        start < end,
    ensures
        is_percentage(percent_passed(start, end, now)),
        start < now < end ==> percent_passed(start, end, now) == (now - start) * 100 / (end
            - start),
        start < now < end ==> (now - start) * 100 / (end - start) < 100,
{
    if start < now < end {
        let elapsed = now - start;
        let length = end - start;
        assert(0 <= (elapsed * 100) / length < 100) by (nonlinear_arith)
            requires
                0 < elapsed < length,
        ;
    }
}

/// What is left of `previous` when `percent` percent of it have decayed.
pub open spec fn decayed(previous: nat, percent: nat) -> nat {
    sat_sub(previous, ratio(previous, percent, 100))
}

/// The view of a flow.
pub struct FlowView {
    pub inflow: nat,
    pub outflow: nat,
    pub period_end: nat,
}

impl FlowView {
    /// The net amount moved in each direction, inflow first.
    pub open spec fn balance(self) -> (nat, nat) {
        (sat_sub(self.inflow, self.outflow), sat_sub(self.outflow, self.inflow))
    }

    pub open spec fn balance_on(self, direction: FlowType) -> nat {
        on_direction(self.balance(), direction)
    }

    pub open spec fn exceeds(self, direction: FlowType, max_inflow: nat, max_outflow: nat) -> bool {
        self.balance_on(direction) > on_direction((max_inflow, max_outflow), direction)
    }

    pub open spec fn is_expired(self, now: nat) -> bool {
        self.period_end < now
    }

    pub open spec fn expire(self, now: nat, duration: nat) -> FlowView {
        FlowView { inflow: 0, outflow: 0, period_end: plus_seconds(now, duration) }
    }

    pub open spec fn add_flow(self, direction: FlowType, value: nat) -> FlowView {
        match direction {
            FlowType::In => FlowView { inflow: sat_add(self.inflow, value), ..self },
            FlowType::Out => FlowView { outflow: sat_add(self.outflow, value), ..self },
        }
    }

    pub open spec fn undo_flow(self, direction: FlowType, value: nat) -> FlowView {
        match direction {
            FlowType::In => FlowView { inflow: sat_sub(self.inflow, value), ..self },
            FlowType::Out => FlowView { outflow: sat_sub(self.outflow, value), ..self },
        }
    }

    /// Whether applying a transfer at `now` starts a new window: only a
    /// rule without decay averaging resets its own flow.
    pub open spec fn resets_on_transfer(self, now: nat, v1_migrated: bool) -> bool {
        !v1_migrated && self.is_expired(now)
    }

    pub open spec fn apply_transfer(
        self,
        direction: FlowType,
        funds: nat,
        now: nat,
        duration: nat,
        v1_migrated: bool,
    ) -> FlowView {
        if self.resets_on_transfer(now, v1_migrated) {
            self.expire(now, duration).add_flow(direction, funds)
        } else {
            self.add_flow(direction, funds)
        }
    }

    /// Both counters fit in 256 bits.
    pub open spec fn bounded(self) -> bool {
        self.inflow <= u256_max() && self.outflow <= u256_max()
    }
}

/// The view of a quota.
pub struct QuotaView {
    pub name: Seq<char>,
    pub max_percentage_send: nat,
    pub max_percentage_recv: nat,
    pub duration: nat,
    pub channel_value: Option<nat>,
}

impl QuotaView {
    /// Both caps are percentages.
    pub open spec fn wf(self) -> bool {
        is_percentage(self.max_percentage_send) && is_percentage(self.max_percentage_recv)
    }

    /// The caps applied to `value`, inflow first.
    pub open spec fn capacity_of(self, value: nat) -> (nat, nat) {
        (ratio(value, self.max_percentage_recv, 100), ratio(value, self.max_percentage_send, 100))
    }

    /// The most that may move in each direction, inflow first. Without a
    /// channel value nothing may move.
    pub open spec fn capacity(self) -> (nat, nat) {
        match self.channel_value {
            Some(total_value) => self.capacity_of(total_value),
            None => (0, 0),
        }
    }

    pub open spec fn capacity_on(self, direction: FlowType) -> nat {
        on_direction(self.capacity(), direction)
    }

    /// Whether no channel value is cached: none was ever set, or zero was.
    pub open spec fn channel_value_unset(self) -> bool {
        match self.channel_value {
            Some(value) => value == 0,
            None => true,
        }
    }
}

/// The view of a rate limit.
pub struct RateLimitView {
    pub quota: QuotaView,
    pub flow: FlowView,
    pub previous_channel_value: Option<nat>,
    pub previous_inflow: Option<nat>,
    pub previous_outflow: Option<nat>,
    pub decayed_last_updated: Option<nat>,
    pub decayed_value: Option<nat>,
    pub decayed_inflow: Option<nat>,
    pub decayed_outflow: Option<nat>,
    pub period_start: Option<nat>,
    pub v1_migration: Option<bool>,
}

/// The value of an optional amount, zero where there is none.
pub open spec fn or_zero(value: Option<nat>) -> nat {
    match value {
        Some(v) => v,
        None => 0,
    }
}

/// Half of the sum of two amounts, rounded down.
pub open spec fn average(a: nat, b: nat) -> nat {
    (a + b) / 2
}

impl RateLimitView {
    /// A rule that was just registered: nothing has flowed and no earlier
    /// window is known.
    pub open spec fn fresh(quota: QuotaView, flow: FlowView) -> RateLimitView {
        RateLimitView {
            quota,
            flow,
            previous_channel_value: None,
            previous_inflow: None,
            previous_outflow: None,
            decayed_last_updated: None,
            decayed_value: None,
            decayed_inflow: None,
            decayed_outflow: None,
            period_start: None,
            v1_migration: None,
        }
    }

    pub open spec fn wf(self) -> bool {
        self.quota.wf()
    }

    /// Whether the rule uses decay averaging.
    pub open spec fn is_v1_migrated(self) -> bool {
        self.v1_migration == Some(true)
    }

    /// Whether there is an earlier window to blend with.
    pub open spec fn has_previous_value(self) -> bool {
        or_zero(self.previous_channel_value) != 0
    }

    /// The rule after its window has rolled over at `now`.
    pub open spec fn handle_rollover(self, now: nat) -> RateLimitView {
        RateLimitView {
            flow: self.flow.expire(now, self.quota.duration),
            period_start: Some(now),
            previous_channel_value: self.quota.channel_value,
            previous_inflow: Some(0nat),
            previous_outflow: Some(0nat),
            ..self
        }
    }

    /// The part of the previous channel value that has not decayed away is
    /// taken off it, and the rest is averaged with the current value.
    pub open spec fn blended_channel_value(self) -> Option<nat> {
        match (self.previous_channel_value, self.decayed_value, self.quota.channel_value) {
            (Some(previous), Some(decayed_value), Some(current)) => if previous >= decayed_value
                && current + (previous - decayed_value) <= u256_max() {
                Some(average(current, (previous - decayed_value) as nat))
            } else {
                None
            },
            _ => None,
        }
    }

    pub open spec fn averaged_channel_value(self) -> Option<nat> {
        if !self.is_v1_migrated() || !self.has_previous_value() {
            self.quota.channel_value
        } else {
            self.blended_channel_value()
        }
    }

    pub open spec fn averaged_capacity(self) -> Option<(nat, nat)> {
        if !self.is_v1_migrated() {
            Some(self.quota.capacity())
        } else {
            match self.averaged_channel_value() {
                Some(value) => Some(self.quota.capacity_of(value)),
                None => None,
            }
        }
    }

    pub open spec fn averaged_capacity_on(self, direction: FlowType) -> Option<nat> {
        match self.averaged_capacity() {
            Some(capacity) => Some(on_direction(capacity, direction)),
            None => None,
        }
    }

    /// The capacity that the admission check goes by: the averaged one,
    /// and nothing at all where that cannot be computed.
    pub open spec fn effective_capacity(self) -> (nat, nat) {
        match self.averaged_capacity() {
            Some(capacity) => capacity,
            None => (0, 0),
        }
    }

    /// Whether both decayed flows are known and not zero.
    pub open spec fn has_decayed_flows(self) -> bool {
        or_zero(self.decayed_inflow) != 0 && or_zero(self.decayed_outflow) != 0
    }

    pub open spec fn averaged_balance(self) -> Option<(nat, nat)> {
        if !self.is_v1_migrated() || !self.has_decayed_flows() {
            Some(self.flow.balance())
        } else if or_zero(self.decayed_inflow) + self.flow.inflow > u256_max() || or_zero(
            self.decayed_outflow,
        ) + self.flow.outflow > u256_max() {
            None
        } else {
            let averaged_inflow = average(or_zero(self.decayed_inflow), self.flow.inflow);
            let averaged_outflow = average(or_zero(self.decayed_outflow), self.flow.outflow);
            Some(
                (
                    sat_sub(averaged_inflow, averaged_outflow),
                    sat_sub(averaged_outflow, averaged_inflow),
                ),
            )
        }
    }

    /// The balance that the admission check goes by: the averaged one, and
    /// the plain one where that cannot be computed.
    pub open spec fn effective_balance(self) -> (nat, nat) {
        match self.averaged_balance() {
            Some(balance) => balance,
            None => self.flow.balance(),
        }
    }

    pub open spec fn averaged_balance_on(self, direction: FlowType) -> nat {
        on_direction(self.effective_balance(), direction)
    }

    pub open spec fn averaged_exceeds(
        self,
        direction: FlowType,
        max_inflow: nat,
        max_outflow: nat,
    ) -> bool {
        self.averaged_balance_on(direction) > on_direction((max_inflow, max_outflow), direction)
    }

    /// Whether the window has a start and spans at least one whole second.
    pub open spec fn has_window(self) -> bool {
        match self.period_start {
            Some(start) => seconds_of(start) < seconds_of(self.flow.period_end),
            None => false,
        }
    }

    /// The share of the window that has passed at the second `now_seconds`,
    /// in whole percent.
    pub open spec fn period_percent_passed(self, now_seconds: nat) -> Option<nat> {
        if self.has_window() {
            Some(
                percent_passed(
                    seconds_of(self.period_start->0),
                    seconds_of(self.flow.period_end),
                    now_seconds,
                ),
            )
        } else {
            None
        }
    }

    /// Whether a decayed value was already computed in the block
    /// `block_height`.
    pub open spec fn decay_is_current(self, block_height: nat) -> bool {
        self.decayed_last_updated == Some(block_height)
    }

    /// Whether a call at `now` in the block `block_height` computes a new
    /// decayed value.
    pub open spec fn decay_is_due(self, now: nat, block_height: nat) -> bool {
        &&& !self.decay_is_current(block_height)
        &&& self.has_previous_value()
        &&& self.period_start is Some
        &&& self.period_start != Some(now)
        &&& self.has_window()
    }

    /// The decayed value that a call at `now` in the block `block_height`
    /// returns.
    pub open spec fn decay_rate(self, now: nat, block_height: nat) -> Option<nat> {
        if self.decay_is_current(block_height) {
            self.decayed_value
        } else if !self.has_previous_value() {
            self.quota.channel_value
        } else if self.period_start is None {
            None
        } else if self.period_start == Some(now) {
            self.decayed_value
        } else if self.has_window() {
            Some(
                decayed(
                    or_zero(self.previous_channel_value),
                    self.period_percent_passed(seconds_of(now))->0,
                ),
            )
        } else {
            None
        }
    }

    /// The rule after a call of the decay check at `now` in the block
    /// `block_height`.
    pub open spec fn check_decay_rate(self, now: nat, block_height: nat) -> RateLimitView {
        if self.decay_is_due(now, block_height) {
            RateLimitView {
                decayed_value: self.decay_rate(now, block_height),
                decayed_last_updated: Some(block_height),
                ..self
            }
        } else {
            self
        }
    }

    /// The rule with another flow in place of its own.
    pub open spec fn with_flow(self, flow: FlowView) -> RateLimitView {
        RateLimitView { flow, ..self }
    }

    /// The rule with `value` cached as its channel value.
    pub open spec fn with_channel_value(self, value: nat) -> RateLimitView {
        RateLimitView { quota: QuotaView { channel_value: Some(value), ..self.quota }, ..self }
    }

    /// The rule as a transfer at `now` finds it once an elapsed window has
    /// been dealt with. A rule with decay averaging rolls over, so that the
    /// value of the window that ends is kept for blending; any other rule is
    /// left to reset its flow when the transfer is applied.
    pub open spec fn rolled_over(self, now: nat) -> RateLimitView {
        if self.is_v1_migrated() && self.flow.is_expired(now) {
            self.handle_rollover(now)
        } else {
            self
        }
    }

    /// The rule with the transfer applied to its flow.
    pub open spec fn with_transfer(self, direction: FlowType, funds: nat, now: nat) -> RateLimitView {
        let rolled = self.rolled_over(now);
        rolled.with_flow(
            rolled.flow.apply_transfer(
                direction,
                funds,
                now,
                self.quota.duration,
                self.is_v1_migrated(),
            ),
        )
    }

    /// Whether a transfer at `now` caches a new channel value: the window
    /// just ended, or no value is cached.
    pub open spec fn reseeds(self, now: nat) -> bool {
        self.flow.is_expired(now) || self.quota.channel_value_unset()
    }

    /// The rule after the admission check of a transfer, whether or not the
    /// transfer was admitted.
    pub open spec fn after_transfer(
        self,
        denom: Seq<char>,
        direction: FlowType,
        funds: nat,
        channel_value: nat,
        now: nat,
    ) -> RateLimitView {
        let applied = self.with_transfer(direction, funds, now);
        if self.reseeds(now) {
            applied.with_channel_value(
                channel_value_at_start(channel_value, denom, funds, direction),
            )
        } else {
            applied
        }
    }

    /// Whether the rule, with a transfer already applied, is within its
    /// capacity in the direction of the transfer.
    pub open spec fn within_capacity(self, direction: FlowType) -> bool {
        !self.averaged_exceeds(
            direction,
            self.effective_capacity().0,
            self.effective_capacity().1,
        )
    }

    /// Whether the admission check admits the transfer.
    pub open spec fn admits(
        self,
        denom: Seq<char>,
        direction: FlowType,
        funds: nat,
        channel_value: nat,
        now: nat,
    ) -> bool {
        self.after_transfer(denom, direction, funds, channel_value, now).within_capacity(
            direction,
        )
    }

    /// The rule that an admitted transfer hands back: the rule after the
    /// check, with the time of the transfer as the start of its period.
    pub open spec fn admitted(self, now: nat) -> RateLimitView {
        RateLimitView { period_start: Some(now), ..self }
    }

    /// The rule with the flow of a failed transfer taken back.
    pub open spec fn undo_transfer(self, direction: FlowType, funds: nat) -> RateLimitView {
        self.with_flow(self.flow.undo_flow(direction, funds))
    }

    /// The rule after the rollover scan at `now`.
    pub open spec fn rollover(self, now: nat) -> RateLimitView {
        if self.flow.is_expired(now) {
            self.with_flow(self.flow.expire(now, self.quota.duration))
        } else {
            self
        }
    }

    /// The rule with decay averaging switched on.
    pub open spec fn upgraded(self) -> RateLimitView {
        RateLimitView { v1_migration: Some(true), ..self }
    }
}

} // verus!
