//! The accounting state: paths, flows, quotas and rate limits.

use crate::decimal256::{
    decimal_fractional, lemma_div_by_two, lemma_mul_by_percent, percent_atomics, Decimal256,
};
use crate::error::ContractError;
use crate::model::{
    average, channel_value_at_start, has_ibc_at, is_non_native, lemma_percent_passed_bound,
    on_direction, seconds_of, FlowView, QuotaView, RateLimitView,
};
use crate::msg::QuotaMsg;
use crate::timestamp::{plus_seconds, Timestamp};
use crate::uint256::{lemma_ratio_bound, u256_max, Uint256};
use vstd::prelude::*;
use vstd::string::*;

verus! {

/// The view of a path: its channel and its denom.
pub struct PathView {
    pub channel: Seq<char>,
    pub denom: Seq<char>,
}

/// The key of the rate limits of one lane: a channel and a denom.
#[derive(Debug, PartialEq, Eq)]
pub struct Path {
    pub denom: String,
    pub channel: String,
}

impl View for Path {
    type V = PathView;

    open spec fn view(&self) -> PathView {
        PathView { channel: self.channel@, denom: self.denom@ }
    }
}

impl Clone for Path {
    fn clone(&self) -> (r: Path)
        ensures
            r == *self,
    {
        Path { denom: self.denom.clone(), channel: self.channel.clone() }
    }
}

impl Path {
    /// The path of `denom` on `channel`.
    pub fn new(channel: &str, denom: &str) -> (r: Path)
        ensures
            r@.channel == channel@,
            r@.denom == denom@,
    {
        Path { channel: channel.to_owned(), denom: denom.to_owned() }
    }
}

/// The pair under which the rate limits of a path are stored: the channel,
/// then the denom.
pub open spec fn key_of(path: Path) -> (String, String) {
    (path.channel, path.denom)
}

impl From<Path> for (String, String) {
    fn from(path: Path) -> (r: (String, String)) {
        (path.channel, path.denom)
    }
}

impl vstd::std_specs::convert::FromSpecImpl<Path> for (String, String) {
    open spec fn obeys_from_spec() -> bool {
        true
    }

    open spec fn from_spec(path: Path) -> (String, String) {
        key_of(path)
    }
}

impl From<&Path> for (String, String) {
    fn from(path: &Path) -> (r: (String, String)) {
        (path.channel.clone(), path.denom.clone())
    }
}

impl vstd::std_specs::convert::FromSpecImpl<&Path> for (String, String) {
    open spec fn obeys_from_spec() -> bool {
        true
    }

    open spec fn from_spec(path: &Path) -> (String, String) {
        key_of(*path)
    }
}

/// The direction of a transfer, seen from this chain.
#[derive(Debug, Clone, Copy, PartialEq, Eq, Structural)]
pub enum FlowType {
    In,
    Out,
}

/// The value that moved through a lane during the current window.
///
/// A window only starts when some call resets the flow, not right after the
/// one before has ended: after a quiet time the next window starts at the
/// next reset and lasts for the quota's duration.
#[derive(Clone, Copy, Debug, PartialEq, Eq)]
pub struct Flow {
    pub inflow: Uint256,
    pub outflow: Uint256,
    pub period_end: Timestamp,
}

impl View for Flow {
    type V = FlowView;

    open spec fn view(&self) -> FlowView {
        FlowView { inflow: self.inflow@, outflow: self.outflow@, period_end: self.period_end@ }
    }
}

impl Flow {
    pub fn new(inflow: Uint256, outflow: Uint256, now: Timestamp, duration: u64) -> (r: Flow)
        requires
            now.can_add_seconds(duration),
        ensures
            r@ == (FlowView {
                inflow: inflow@,
                outflow: outflow@,
                period_end: plus_seconds(now@, duration as nat),
            }),
    {
        Flow { inflow, outflow, period_end: now.plus_seconds(duration) }
    }

    /// The net amount that has moved in each direction, inflow first: what
    /// came in beyond what went out, and the reverse.
    pub fn _balance(&self) -> (r: (Uint256, Uint256))
        ensures
            (r.0@, r.1@) == self@.balance(),
    {
        (self.inflow.saturating_sub(self.outflow), self.outflow.saturating_sub(self.inflow))
    }

    /// Whether the balance in `direction` is above the allowance for it.
    pub fn _exceeds(&self, direction: &FlowType, max_inflow: Uint256, max_outflow: Uint256) -> (r:
        bool)
        ensures
            r == self@.exceeds(*direction, max_inflow@, max_outflow@),
    {
        let (balance_in, balance_out) = self._balance();
        match direction {
            FlowType::In => balance_in.gt(&max_inflow),
            FlowType::Out => balance_out.gt(&max_outflow),
        }
    }

    /// The balance in one direction.
    pub fn _balance_on(&self, direction: &FlowType) -> (r: Uint256)
        ensures
            r@ == self@.balance_on(*direction),
    {
        let (balance_in, balance_out) = self._balance();
        match direction {
            FlowType::In => balance_in,
            FlowType::Out => balance_out,
        }
    }

    /// A flow is expired once `now` is past the end of its window.
    pub fn is_expired(&self, now: Timestamp) -> (r: bool)
        ensures
            r == self@.is_expired(now@),
    {
        self.period_end.lt(&now)
    }

    /// Starts a new window at `now`: both counters go back to zero and the
    /// window ends `duration` seconds later.
    pub fn _expire(&mut self, now: Timestamp, duration: u64)
        requires
            now.can_add_seconds(duration),
        ensures
            final(self)@ == old(self)@.expire(now@, duration as nat),
    {
        self.inflow = Uint256::zero();
        self.outflow = Uint256::zero();
        self.period_end = now.plus_seconds(duration);
    }

    /// Counts a transfer of `value` in `direction`. The counter stops at the
    /// largest 256-bit number; the end of the window stays where it is.
    pub fn add_flow(&mut self, direction: FlowType, value: Uint256)
        ensures
            final(self)@ == old(self)@.add_flow(direction, value@),
            final(self).period_end == old(self).period_end,
            final(self)@.inflow >= old(self)@.inflow,
            final(self)@.outflow >= old(self)@.outflow,
            final(self)@.bounded(),
    {
        proof {
            self.inflow.lemma_bounded();
            self.outflow.lemma_bounded();
        }
        match direction {
            FlowType::In => self.inflow = self.inflow.saturating_add(value),
            FlowType::Out => self.outflow = self.outflow.saturating_add(value),
        }
    }

    /// Takes a transfer of `value` in `direction` back. The counter stops at
    /// zero; the end of the window stays where it is.
    pub fn undo_flow(&mut self, direction: FlowType, value: Uint256)
        ensures
            final(self)@ == old(self)@.undo_flow(direction, value@),
            final(self).period_end == old(self).period_end,
            final(self)@.inflow <= old(self)@.inflow,
            final(self)@.outflow <= old(self)@.outflow,
            final(self)@.bounded(),
    {
        proof {
            self.inflow.lemma_bounded();
            self.outflow.lemma_bounded();
        }
        match direction {
            FlowType::In => self.inflow = self.inflow.saturating_sub(value),
            FlowType::Out => self.outflow = self.outflow.saturating_sub(value),
        }
    }

    /// Applies a transfer. A rule without decay averaging starts a new
    /// window first where the old one has ended, and the result says so; a
    /// rule with decay averaging leaves that to the admission check.
    pub fn apply_transfer(
        &mut self,
        direction: &FlowType,
        funds: Uint256,
        now: Timestamp,
        quota: &Quota,
        v1_migrated: bool,
    ) -> (expired: bool)
        requires
            old(self)@.resets_on_transfer(now@, v1_migrated) ==> now.can_add_seconds(
                quota.duration,
            ),
        ensures
            expired == old(self)@.resets_on_transfer(now@, v1_migrated),
            final(self)@ == old(self)@.apply_transfer(
                *direction,
                funds@,
                now@,
                quota@.duration,
                v1_migrated,
            ),
    {
        let mut expired = false;
        if !v1_migrated && self.is_expired(now) {
            self._expire(now, quota.duration);
            expired = true;
        }
        self.add_flow(*direction, funds);
        expired
    }
}

/// The view of an optional amount.
pub open spec fn amount_view(value: Option<Uint256>) -> Option<nat> {
    match value {
        Some(v) => Some(v@),
        None => None,
    }
}

/// The view of an optional decimal.
pub open spec fn decimal_view(value: Option<Decimal256>) -> Option<nat> {
    match value {
        Some(v) => Some(v@),
        None => None,
    }
}

/// The view of an optional time.
pub open spec fn time_view(value: Option<Timestamp>) -> Option<nat> {
    match value {
        Some(v) => Some(v@),
        None => None,
    }
}

/// The view of an optional block height.
pub open spec fn height_view(value: Option<u64>) -> Option<nat> {
    match value {
        Some(v) => Some(v as nat),
        None => None,
    }
}

/// The share of a denom's total value that may move through a channel in
/// each direction within `duration` seconds.
///
/// The name is meant to tell the duration to a human reader: "daily",
/// "weekly".
#[derive(Debug, PartialEq, Eq)]
pub struct Quota {
    pub name: String,
    pub max_percentage_send: u32,
    pub max_percentage_recv: u32,
    pub duration: u64,
    pub channel_value: Option<Uint256>,
}

impl View for Quota {
    type V = QuotaView;

    open spec fn view(&self) -> QuotaView {
        QuotaView {
            name: self.name@,
            max_percentage_send: self.max_percentage_send as nat,
            max_percentage_recv: self.max_percentage_recv as nat,
            duration: self.duration as nat,
            channel_value: amount_view(self.channel_value),
        }
    }
}

impl Quota {
    /// The most that may move in each direction, inflow first, in the unit
    /// of the channel value.
    pub fn _capacity(&self) -> (r: (Uint256, Uint256))
        requires
            self@.wf(),
        ensures
            (r.0@, r.1@) == self@.capacity(),
    {
        match self.channel_value {
            Some(total_value) => (
                total_value.percent_of(self.max_percentage_recv),
                total_value.percent_of(self.max_percentage_send),
            ),
            None => (Uint256::zero(), Uint256::zero()),
        }
    }

    /// The capacity in one direction.
    pub fn _capacity_on(&self, direction: &FlowType) -> (r: Uint256)
        requires
            self@.wf(),
        ensures
            r@ == self@.capacity_on(*direction),
    {
        let (max_in, max_out) = self._capacity();
        match direction {
            FlowType::In => max_in,
            FlowType::Out => max_out,
        }
    }

}

impl Clone for Quota {
    fn clone(&self) -> (r: Quota)
        ensures
            r == *self,
    {
        Quota {
            name: self.name.clone(),
            max_percentage_send: self.max_percentage_send,
            max_percentage_recv: self.max_percentage_recv,
            duration: self.duration,
            channel_value: self.channel_value,
        }
    }
}

/// The smaller of a configured percentage and one hundred.
pub open spec fn clamp_percentage(value: u32) -> u32 {
    if value < 100 {
        value
    } else {
        100
    }
}

/// The quota that a message configures. A percentage above one hundred
/// is taken as one hundred, and no channel value is cached yet.
pub open spec fn quota_from_msg(msg: &QuotaMsg) -> Quota {
    Quota {
        name: msg.name,
        max_percentage_send: clamp_percentage(msg.send_recv.0),
        max_percentage_recv: clamp_percentage(msg.send_recv.1),
        duration: msg.duration,
        channel_value: None,
    }
}

impl From<&QuotaMsg> for Quota {
    /// A percentage above one hundred is taken as one hundred: the message
    /// is never refused.
    fn from(msg: &QuotaMsg) -> (r: Quota) {
        let send = if msg.send_recv.0 < 100 {
            msg.send_recv.0
        } else {
            100
        };
        let recv = if msg.send_recv.1 < 100 {
            msg.send_recv.1
        } else {
            100
        };
        Quota {
            name: msg.name.clone(),
            max_percentage_send: send,
            max_percentage_recv: recv,
            duration: msg.duration,
            channel_value: None,
        }
    }
}

impl vstd::std_specs::convert::FromSpecImpl<&QuotaMsg> for Quota {
    open spec fn obeys_from_spec() -> bool {
        true
    }

    open spec fn from_spec(msg: &QuotaMsg) -> Quota {
        quota_from_msg(msg)
    }
}


/// One rule of a path: a quota and the flow counted against it, with what
/// is kept of the window before for decay averaging.
#[derive(Debug, PartialEq, Eq)]
pub struct RateLimit {
    pub quota: Quota,
    pub flow: Flow,
    pub previous_channel_value: Option<Uint256>,
    pub previous_inflow: Option<Uint256>,
    pub previous_outflow: Option<Uint256>,
    pub decayed_last_updated: Option<u64>,
    pub decayed_value: Option<Decimal256>,
    pub decayed_inflow: Option<Decimal256>,
    pub decayed_outflow: Option<Decimal256>,
    pub period_start: Option<Timestamp>,
    /// `Some(true)` switches decay averaging on. Rules that were made
    /// before it existed have `None` and behave as they always did.
    pub v1_migration: Option<bool>,
}

impl View for RateLimit {
    type V = RateLimitView;

    open spec fn view(&self) -> RateLimitView {
        RateLimitView {
            quota: self.quota@,
            flow: self.flow@,
            previous_channel_value: amount_view(self.previous_channel_value),
            previous_inflow: amount_view(self.previous_inflow),
            previous_outflow: amount_view(self.previous_outflow),
            decayed_last_updated: height_view(self.decayed_last_updated),
            decayed_value: decimal_view(self.decayed_value),
            decayed_inflow: decimal_view(self.decayed_inflow),
            decayed_outflow: decimal_view(self.decayed_outflow),
            period_start: time_view(self.period_start),
            v1_migration: self.v1_migration,
        }
    }
}

impl Clone for RateLimit {
    fn clone(&self) -> (r: RateLimit)
        ensures
            r == *self,
    {
        RateLimit {
            quota: self.quota.clone(),
            flow: self.flow,
            previous_channel_value: self.previous_channel_value,
            previous_inflow: self.previous_inflow,
            previous_outflow: self.previous_outflow,
            decayed_last_updated: self.decayed_last_updated,
            decayed_value: self.decayed_value,
            decayed_inflow: self.decayed_inflow,
            decayed_outflow: self.decayed_outflow,
            period_start: self.period_start,
            v1_migration: self.v1_migration,
        }
    }
}

/// Whether the denom names an asset that was not issued on this chain.
pub fn denom_is_non_native(denom: &str) -> (r: bool)
    ensures
        r == is_non_native(denom@),
{
    let n = denom.unicode_len();
    if n < 3 {
        return false;
    }
    let mut i: usize = 0;
    while i <= n - 3
        invariant
            n == denom@.len(),
            n >= 3,
            forall|j: int| 0 <= j < i ==> !has_ibc_at(denom@, j),
        decreases n - i,
    {
        if denom.get_char(i) == 'i' && denom.get_char(i + 1) == 'b' && denom.get_char(i + 2) == 'c' {
            assert(has_ibc_at(denom@, i as int));
            return true;
        }
        i += 1;
    }
    false
}

/// The channel value as it was when the transfer started.
///
/// The transfer module takes a foreign asset out of the supply before it
/// asks for the check, so an outbound transfer of such an asset has its
/// amount added back, up to the largest 256-bit number. A native asset is
/// left as observed, and so is every inbound transfer.
pub fn calculate_channel_value(
    channel_value: Uint256,
    denom: &str,
    funds: Uint256,
    direction: &FlowType,
) -> (r: Uint256)
    ensures
        r@ == channel_value_at_start(channel_value@, denom@, funds@, *direction),
{
    match direction {
        FlowType::Out => {
            if denom_is_non_native(denom) {
                channel_value.saturating_add(funds)
            } else {
                channel_value
            }
        },
        FlowType::In => channel_value,
    }
}


/// The views of the rules of a path, in their order.
pub open spec fn rules_view(rules: Seq<RateLimit>) -> Seq<RateLimitView> {
    rules.map_values(|rule: RateLimit| rule@)
}

impl RateLimit {
    /// Whether a new window of the rule that starts at `now` ends at a
    /// time that can be represented.
    pub open spec fn window_fits(&self, now: Timestamp) -> bool {
        now.can_add_seconds(self.quota.duration)
    }

    /// Whether the rule can take a transfer at `now`: its caps are
    /// percentages and, where its window has ended, the next one fits.
    pub open spec fn can_transfer_at(&self, now: Timestamp) -> bool {
        self@.wf() && (self@.flow.is_expired(now@) ==> self.window_fits(now))
    }

    /// Tells whether a new window of the rule that starts at `now` ends
    /// at a time that can be represented.
    pub fn fits_window(&self, now: Timestamp) -> (r: bool)
        ensures
            r == self.window_fits(now),
    {
        now.checked_plus_seconds(self.quota.duration).is_some()
    }

    /// Tells whether the rule can take a transfer at `now`.
    pub fn can_transfer(&self, now: Timestamp) -> (r: bool)
        ensures
            r == self.can_transfer_at(now),
    {
        let caps_are_percentages = self.quota.max_percentage_send <= 100
            && self.quota.max_percentage_recv <= 100;
        caps_are_percentages && (!self.flow.is_expired(now) || self.fits_window(now))
    }

    /// A rule as it is when its path is registered.
    pub fn new(quota: Quota, flow: Flow) -> (r: RateLimit)
        ensures
            r@ == RateLimitView::fresh(quota@, flow@),
            r.quota == quota,
            r.flow == flow,
    {
        RateLimit {
            quota,
            flow,
            previous_channel_value: None,
            previous_inflow: None,
            previous_outflow: None,
            decayed_last_updated: None,
            decayed_value: None,
            decayed_inflow: None,
            decayed_outflow: None,
            period_start: None,
            v1_migration: None,
        }
    }

    /// Whether the rule uses decay averaging.
    pub fn is_v1_migrated(&self) -> (r: bool)
        ensures
            r == self@.is_v1_migrated(),
    {
        match self.v1_migration {
            Some(migrated) => migrated,
            None => false,
        }
    }

    /// Whether there is an earlier window to blend with.
    fn has_previous_value(&self) -> (r: bool)
        ensures
            r == self@.has_previous_value(),
    {
        match self.previous_channel_value {
            Some(previous) => !previous.is_zero(),
            None => false,
        }
    }

    /// Starts a new window at `now` and keeps the channel value of the
    /// window that ends, to be blended with the next one.
    pub fn handle_rollover(&mut self, now: Timestamp)
        requires
            now.can_add_seconds(old(self).quota.duration),
        ensures
            final(self)@ == old(self)@.handle_rollover(now@),
    {
        self.flow._expire(now, self.quota.duration);
        self.period_start = Some(now);
        self.previous_channel_value = self.quota.channel_value;
        self.previous_inflow = Some(self.flow.inflow);
        self.previous_outflow = Some(self.flow.outflow);
    }

    /// The channel value, as a decimal of that many atomic units.
    fn plain_channel_value(&self) -> (r: Option<Decimal256>)
        ensures
            decimal_view(r) == self@.quota.channel_value,
    {
        match self.quota.channel_value {
            Some(value) => Some(Decimal256::new(value)),
            None => None,
        }
    }

    /// The decimal `2.0`.
    fn two() -> (r: Decimal256)
        ensures
            r@ == 2 * decimal_fractional(),
    {
        let one = Decimal256::one();
        match one.checked_add(one) {
            Some(two) => two,
            None => one,
        }
    }

    /// The current channel value averaged with what has decayed of the
    /// previous one. A rule without decay averaging, or in its first window,
    /// has its plain channel value. `None` where a value is missing or the
    /// sum does not fit.
    pub fn averaged_channel_value(&self) -> (r: Option<Decimal256>)
        ensures
            decimal_view(r) == self@.averaged_channel_value(),
    {
        if !self.is_v1_migrated() {
            return self.plain_channel_value();
        }
        if !self.has_previous_value() {
            return self.plain_channel_value();
        }
        let previous = match self.previous_channel_value {
            Some(previous) => Decimal256::new(previous),
            None => { return None; },
        };
        let decayed_value = match self.decayed_value {
            Some(decayed_value) => decayed_value,
            None => { return None; },
        };
        let decayed_channel_value = match previous.checked_sub(decayed_value) {
            Some(difference) => difference,
            None => { return None; },
        };
        let current = match self.quota.channel_value {
            Some(current) => Decimal256::new(current),
            None => { return None; },
        };
        let sum = match current.checked_add(decayed_channel_value) {
            Some(sum) => sum,
            None => { return None; },
        };
        proof {
            lemma_div_by_two(sum@);
            sum.lemma_bounded();
        }
        Some(sum.div(Self::two()))
    }

    /// Like the capacity of the quota, on the averaged channel value.
    pub fn averaged_capacity(&self) -> (r: Option<(Uint256, Uint256)>)
        requires
            self@.wf(),
        ensures
            r is Some <==> self@.averaged_capacity() is Some,
            r matches Some(capacity) ==> (capacity.0@, capacity.1@)
                == self@.averaged_capacity()->0,
    {
        if !self.is_v1_migrated() {
            return Some(self.quota._capacity());
        }
        match self.averaged_channel_value() {
            Some(value) => {
                let value = value.atomics();
                Some(
                    (
                        value.percent_of(self.quota.max_percentage_recv),
                        value.percent_of(self.quota.max_percentage_send),
                    ),
                )
            },
            None => None,
        }
    }

    /// Like the capacity of the quota in one direction, on the averaged
    /// channel value.
    pub fn averaged_capacity_on(&self, direction: &FlowType) -> (r: Option<Uint256>)
        requires
            self@.wf(),
        ensures
            amount_view(r) == self@.averaged_capacity_on(*direction),
    {
        if !self.is_v1_migrated() {
            return Some(self.quota._capacity_on(direction));
        }
        match self.averaged_capacity() {
            Some((max_in, max_out)) => match direction {
                FlowType::In => Some(max_in),
                FlowType::Out => Some(max_out),
            },
            None => None,
        }
    }

    /// The capacity that the admission check goes by.
    fn effective_capacity(&self) -> (r: (Uint256, Uint256))
        requires
            self@.wf(),
        ensures
            (r.0@, r.1@) == self@.effective_capacity(),
    {
        match self.averaged_capacity() {
            Some(capacity) => capacity,
            None => (Uint256::zero(), Uint256::zero()),
        }
    }

    /// Half of the sum of a decayed flow and a flow, or `None` where the
    /// sum does not fit.
    fn averaged_flow(decayed_flow: Decimal256, flow: Uint256) -> (r: Option<Uint256>)
        ensures
            r is Some <==> decayed_flow@ + flow@ <= u256_max(),
            r matches Some(half) ==> half@ == average(decayed_flow@, flow@),
    {
        match decayed_flow.checked_add(Decimal256::new(flow)) {
            Some(sum) => {
                proof {
                    lemma_div_by_two(sum@);
                    sum.lemma_bounded();
                }
                Some(sum.div(Self::two()).atomics())
            },
            None => None,
        }
    }

    /// Like the balance of the flow, on the flows averaged with what has
    /// decayed of the previous ones. A rule without decay averaging, or
    /// without decayed flows, has the plain balance. `None` where a sum
    /// does not fit.
    pub fn averaged_balance(&self) -> (r: Option<(Uint256, Uint256)>)
        ensures
            r is Some <==> self@.averaged_balance() is Some,
            r matches Some(balance) ==> (balance.0@, balance.1@) == self@.averaged_balance()->0,
    {
        if !self.is_v1_migrated() {
            return Some(self.flow._balance());
        }
        let decayed_inflow = match self.decayed_inflow {
            Some(decayed_inflow) => decayed_inflow,
            None => Decimal256::zero(),
        };
        let decayed_outflow = match self.decayed_outflow {
            Some(decayed_outflow) => decayed_outflow,
            None => Decimal256::zero(),
        };
        if decayed_inflow.is_zero() || decayed_outflow.is_zero() {
            return Some(self.flow._balance());
        }
        let averaged_inflow = match Self::averaged_flow(decayed_inflow, self.flow.inflow) {
            Some(averaged_inflow) => averaged_inflow,
            None => { return None; },
        };
        let averaged_outflow = match Self::averaged_flow(decayed_outflow, self.flow.outflow) {
            Some(averaged_outflow) => averaged_outflow,
            None => { return None; },
        };
        Some(
            (
                averaged_inflow.saturating_sub(averaged_outflow),
                averaged_outflow.saturating_sub(averaged_inflow),
            ),
        )
    }

    /// The balance that the admission check goes by.
    fn effective_balance(&self) -> (r: (Uint256, Uint256))
        ensures
            (r.0@, r.1@) == self@.effective_balance(),
    {
        match self.averaged_balance() {
            Some(balance) => balance,
            None => self.flow._balance(),
        }
    }

    /// The averaged balance in one direction; the plain balance where the
    /// averaged one cannot be computed. The result is never `None`.
    pub fn averaged_balance_on(&self, direction: &FlowType) -> (r: Option<Uint256>)
        ensures
            amount_view(r) == Some(self@.averaged_balance_on(*direction)),
    {
        if !self.is_v1_migrated() {
            return Some(self.flow._balance_on(direction));
        }
        let (balance_in, balance_out) = self.effective_balance();
        match direction {
            FlowType::In => Some(balance_in),
            FlowType::Out => Some(balance_out),
        }
    }

    /// Whether the averaged balance in `direction` is above the allowance
    /// for it.
    pub fn averaged_exceeds(
        &self,
        direction: &FlowType,
        max_inflow: Uint256,
        max_outflow: Uint256,
    ) -> (r: bool)
        ensures
            r == self@.averaged_exceeds(*direction, max_inflow@, max_outflow@),
    {
        if !self.is_v1_migrated() {
            return self.flow._exceeds(direction, max_inflow, max_outflow);
        }
        let (balance_in, balance_out) = self.effective_balance();
        match direction {
            FlowType::In => balance_in.gt(&max_inflow),
            FlowType::Out => balance_out.gt(&max_outflow),
        }
    }

    /// The share of the current window that has passed at the second
    /// `block_time_second`, as a decimal between `0%` and `100%`. `None`
    /// where the window has no start or spans less than a second.
    pub fn period_percent_passed(&self, block_time_second: u64) -> (r: Option<Decimal256>)
        ensures
            r is Some <==> self@.period_percent_passed(block_time_second as nat) is Some,
            r matches Some(percent) ==> percent@ == percent_atomics(
                self@.period_percent_passed(block_time_second as nat)->0,
            ),
    {
        let period_start_seconds = match self.period_start {
            Some(period_start) => period_start.seconds(),
            None => { return None; },
        };
        let period_end_seconds = self.flow.period_end.seconds();
        if period_end_seconds <= period_start_seconds {
            return None;
        }
        proof {
            lemma_percent_passed_bound(
                period_start_seconds as nat,
                period_end_seconds as nat,
                block_time_second as nat,
            );
        }
        let percent: u64 = if block_time_second <= period_start_seconds {
            0
        } else if block_time_second >= period_end_seconds {
            100
        } else {
            ((block_time_second - period_start_seconds) * 100) / (period_end_seconds
                - period_start_seconds)
        };
        Some(Decimal256::percent(percent))
    }

    /// Brings the decayed value up to date and returns it.
    ///
    /// Within one block the value is computed once: a second call at the
    /// same height returns what the first one stored. In the first window
    /// of a rule there is nothing to decay, and the channel value itself is
    /// returned. Otherwise the previous channel value is reduced by the
    /// share of the window that has passed; at the very start of the window
    /// the stored value is returned as it is.
    pub fn check_decay_rate(&mut self, now: Timestamp, block_height: u64) -> (r: Option<
        Decimal256,
    >)
        ensures
            final(self)@ == old(self)@.check_decay_rate(now@, block_height as nat),
            decimal_view(r) == old(self)@.decay_rate(now@, block_height as nat),
    {
        match self.decayed_last_updated {
            Some(height) => {
                if height == block_height {
                    return self.decayed_value;
                }
            },
            None => {},
        }
        if !self.has_previous_value() {
            return self.plain_channel_value();
        }
        let period_start = match self.period_start {
            Some(period_start) => period_start,
            None => { return None; },
        };
        if period_start.nanos() == now.nanos() {
            return self.decayed_value;
        }
        let percent_passed = match self.period_percent_passed(now.seconds()) {
            Some(percent_passed) => percent_passed,
            None => { return None; },
        };
        let previous_channel_value = match self.previous_channel_value {
            Some(previous) => Decimal256::new(previous),
            None => { return None; },
        };
        proof {
            let percent = self@.period_percent_passed(seconds_of(now@))->0;
            lemma_percent_passed_bound(
                seconds_of(self@.period_start->0),
                seconds_of(self@.flow.period_end),
                seconds_of(now@),
            );
            lemma_mul_by_percent(previous_channel_value@, percent);
            lemma_ratio_bound(previous_channel_value@, percent, 100);
            previous_channel_value.lemma_bounded();
        }
        let decayed_amount = previous_channel_value.mul(percent_passed);
        let decayed_value = match previous_channel_value.checked_sub(decayed_amount) {
            Some(decayed_value) => decayed_value,
            None => { return None; },
        };
        self.decayed_value = Some(decayed_value);
        self.decayed_last_updated = Some(block_height);
        self.decayed_value
    }

    /// Checks a transfer against the rule and counts it.
    ///
    /// The rule is changed whether or not the transfer is admitted: a caller
    /// that gets an error is to drop the changed rule. Where the window had
    /// ended, a new one starts at `now`; a rule with decay averaging keeps
    /// the channel value of the window that ended. The transfer is counted.
    /// The channel value is cached anew where the window had ended or none
    /// was cached. Then the balance in the direction of the transfer is held
    /// against the capacity, which is nothing where the averaged channel
    /// value cannot be computed.
    pub fn allow_transfer(
        &mut self,
        path: &Path,
        direction: &FlowType,
        funds: Uint256,
        channel_value: Uint256,
        now: Timestamp,
    ) -> (r: Result<RateLimit, ContractError>)
        requires
            old(self).can_transfer_at(now),
        ensures
            final(self)@ == old(self)@.after_transfer(
                path@.denom,
                *direction,
                funds@,
                channel_value@,
                now@,
            ),
            r is Ok <==> old(self)@.admits(path@.denom, *direction, funds@, channel_value@, now@),
            r matches Ok(rule) ==> rule@ == final(self)@.admitted(now@),
            r matches Err(e) ==> rejection_of(
                e,
                path@,
                funds@,
                old(self)@.quota.name,
                old(self)@.averaged_balance_on(*direction),
                on_direction(final(self)@.effective_capacity(), *direction),
                final(self)@.flow.period_end,
            ),
    {
        let initial_flow = match self.averaged_balance_on(direction) {
            Some(initial_flow) => initial_flow,
            None => Uint256::zero(),
        };
        let v1_migrated = self.is_v1_migrated();
        let expired = self.flow.is_expired(now);
        let unset = match self.quota.channel_value {
            Some(value) => value.is_zero(),
            None => true,
        };
        if v1_migrated && expired {
            self.handle_rollover(now);
        }
        self.flow.apply_transfer(direction, funds, now, &self.quota, v1_migrated);
        if expired || unset {
            self.quota.channel_value = Some(
                calculate_channel_value(channel_value, path.denom.as_str(), funds, direction),
            );
        }
        let (max_in, max_out) = self.effective_capacity();
        if self.averaged_exceeds(direction, max_in, max_out) {
            Err(
                ContractError::RateLimitExceded {
                    channel: path.channel.clone(),
                    denom: path.denom.clone(),
                    amount: funds,
                    quota_name: self.quota.name.clone(),
                    used: initial_flow,
                    max: match direction {
                        FlowType::In => max_in,
                        FlowType::Out => max_out,
                    },
                    reset: self.flow.period_end,
                },
            )
        } else {
            Ok(
                RateLimit {
                    quota: self.quota.clone(),
                    flow: self.flow,
                    previous_channel_value: self.previous_channel_value,
                    previous_inflow: self.previous_inflow,
                    previous_outflow: self.previous_outflow,
                    decayed_last_updated: self.decayed_last_updated,
                    decayed_value: self.decayed_value,
                    decayed_inflow: self.decayed_inflow,
                    decayed_outflow: self.decayed_outflow,
                    period_start: Some(now),
                    v1_migration: self.v1_migration,
                },
            )
        }
    }
}

/// Whether `error` is the rejection of a transfer of `funds` on `path` by
/// the rule `quota_name`, with `used` of `max` taken and the window ending
/// at `reset`.
pub open spec fn rejection_of(
    error: ContractError,
    path: PathView,
    funds: nat,
    quota_name: Seq<char>,
    used: nat,
    max: nat,
    reset: nat,
) -> bool {
    match error {
        ContractError::RateLimitExceded {
            channel,
            denom,
            amount,
            quota_name: name,
            used: used_amount,
            max: max_amount,
            reset: reset_time,
        } => {
            &&& channel@ == path.channel
            &&& denom@ == path.denom
            &&& amount@ == funds
            &&& name@ == quota_name
            &&& used_amount@ == used
            &&& max_amount@ == max
            &&& reset_time@ == reset
        },
        _ => false,
    }
}

} // verus!
