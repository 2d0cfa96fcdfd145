//! The rollover scan: finding the rules whose window has ended, and
//! starting their next window.

use crate::model::RateLimitView;
use crate::state::{rules_view, RateLimit};
use crate::timestamp::Timestamp;
use vstd::prelude::*;

verus! {

/// The rules of one path, under the channel and the denom of the path.
pub type Tracker = ((String, String), Vec<RateLimit>);

/// The view of a tracker.
pub struct TrackerView {
    pub channel: Seq<char>,
    pub denom: Seq<char>,
    pub rules: Seq<RateLimitView>,
}

pub open spec fn tracker_view(tracker: Tracker) -> TrackerView {
    TrackerView {
        channel: tracker.0.0@,
        denom: tracker.0.1@,
        rules: rules_view(tracker.1@),
    }
}

pub open spec fn trackers_view(trackers: Seq<Tracker>) -> Seq<TrackerView> {
    trackers.map_values(|tracker: Tracker| tracker_view(tracker))
}

/// The test for a rule whose window has ended at `now`.
pub open spec fn expired_at(now: nat) -> spec_fn(RateLimitView) -> bool {
    |rule: RateLimitView| rule.flow.is_expired(now)
}

/// The rules whose window has ended at `now`, in their order.
pub open spec fn expired_rules(rules: Seq<RateLimitView>, now: nat) -> Seq<RateLimitView> {
    rules.filter(expired_at(now))
}

/// Whether the window of some rule has ended at `now`.
pub open spec fn any_expired(rules: Seq<RateLimitView>, now: nat) -> bool {
    exists|i: int| 0 <= i < rules.len() && (#[trigger] rules[i]).flow.is_expired(now)
}

/// The rules after the rollover scan at `now`: every rule whose window has
/// ended starts a new one, and the others are left alone.
pub open spec fn after_rollover(rules: Seq<RateLimitView>, now: nat) -> Seq<RateLimitView> {
    rules.map_values(|rule: RateLimitView| rule.rollover(now))
}

/// A tracker with only those of its rules whose window has ended at `now`.
pub open spec fn expired_part(now: nat) -> spec_fn(TrackerView) -> TrackerView {
    |tracker: TrackerView| TrackerView { rules: expired_rules(tracker.rules, now), ..tracker }
}

/// The test for a tracker that holds a rule.
pub open spec fn has_rules() -> spec_fn(TrackerView) -> bool {
    |tracker: TrackerView| tracker.rules.len() > 0
}

/// The trackers that hold a rule whose window has ended at `now`, each
/// with those rules only.
pub open spec fn expired_trackers(trackers: Seq<TrackerView>, now: nat) -> Seq<TrackerView> {
    trackers.map_values(expired_part(now)).filter(has_rules())
}

/// The test for a tracker that the rollover scan at `now` changes.
pub open spec fn needs_rollover(now: nat) -> spec_fn(TrackerView) -> bool {
    |tracker: TrackerView| any_expired(tracker.rules, now)
}

/// A tracker after the rollover scan at `now`.
pub open spec fn rolled_over(now: nat) -> spec_fn(TrackerView) -> TrackerView {
    |tracker: TrackerView| TrackerView { rules: after_rollover(tracker.rules, now), ..tracker }
}

/// The trackers that the rollover scan at `now` changes, as it leaves
/// them. These are the trackers to store again.
pub open spec fn rolled_trackers(trackers: Seq<TrackerView>, now: nat) -> Seq<TrackerView> {
    trackers.filter(needs_rollover(now)).map_values(rolled_over(now))
}

/// Whether the next window of every rule whose window has ended at `now`
/// ends at a time that can be represented.
pub open spec fn rollover_fits(rules: Seq<RateLimit>, now: Timestamp) -> bool {
    forall|i: int|
        0 <= i < rules.len() && (#[trigger] rules[i])@.flow.is_expired(now@) ==> rules[i].window_fits(
            now,
        )
}

/// Filtering a sequence one element further.
proof fn lemma_filter_step<A>(s: Seq<A>, pred: spec_fn(A) -> bool, i: int)
    requires
        0 <= i < s.len(),
    ensures
        s.take(i + 1).filter(pred) == if pred(s[i]) {
            s.take(i).filter(pred).push(s[i])
        } else {
            s.take(i).filter(pred)
        },
{
    reveal(Seq::filter);
    assert(s.take(i + 1).drop_last() =~= s.take(i));
}

/// Looking for a window that has ended among one more rule.
proof fn lemma_any_expired_step(rules: Seq<RateLimitView>, now: nat, i: int)
    requires
        0 <= i < rules.len(),
    ensures
        any_expired(rules.take(i + 1), now) <==> any_expired(rules.take(i), now)
            || rules[i].flow.is_expired(now),
{
    let prefix = rules.take(i);
    let next = rules.take(i + 1);
    if any_expired(next, now) {
        let k = choose|k: int| 0 <= k < next.len() && (#[trigger] next[k]).flow.is_expired(now);
        assert(k < i ==> prefix[k].flow.is_expired(now));
    }
    if any_expired(prefix, now) {
        let k = choose|k: int|
            0 <= k < prefix.len() && (#[trigger] prefix[k]).flow.is_expired(now);
        assert(next[k].flow.is_expired(now));
    }
    if rules[i].flow.is_expired(now) {
        assert(next[i].flow.is_expired(now));
    }
}

/// The rules of one path whose window has ended at `time`, in their order.
pub fn expired_of(rules: &Vec<RateLimit>, time: Timestamp) -> (r: Vec<RateLimit>)
    ensures
        rules_view(r@) == expired_rules(rules_view(rules@), time@),
{
    let ghost views = rules_view(rules@);
    let mut expired: Vec<RateLimit> = Vec::new();
    let mut i: usize = 0;
    proof {
        reveal(Seq::filter);
    }
    while i < rules.len()
        invariant
            i <= rules.len(),
            views == rules_view(rules@),
            rules_view(expired@) == views.take(i as int).filter(expired_at(time@)),
        decreases rules.len() - i,
    {
        proof {
            lemma_filter_step(views, expired_at(time@), i as int);
        }
        if rules[i].flow.is_expired(time) {
            expired.push(rules[i].clone());
        }
        i += 1;
    }
    assert(views.take(rules.len() as int) =~= views);
    expired
}

/// All rules whose window has ended at `time` and that can be rolled over:
/// the trackers that hold such a rule, each with those rules only.
pub fn expired_rate_limits(trackers: &Vec<Tracker>, time: Timestamp) -> (r: Vec<Tracker>)
    ensures
        trackers_view(r@) == expired_trackers(trackers_view(trackers@), time@),
{
    let ghost views = trackers_view(trackers@);
    let ghost parts = views.map_values(expired_part(time@));
    let mut found: Vec<Tracker> = Vec::new();
    let mut i: usize = 0;
    proof {
        reveal(Seq::filter);
    }
    while i < trackers.len()
        invariant
            i <= trackers.len(),
            views == trackers_view(trackers@),
            parts == views.map_values(expired_part(time@)),
            trackers_view(found@) == parts.take(i as int).filter(has_rules()),
        decreases trackers.len() - i,
    {
        proof {
            lemma_filter_step(parts, has_rules(), i as int);
        }
        let rules = expired_of(&trackers[i].1, time);
        if rules.len() > 0 {
            let key = (trackers[i].0.0.clone(), trackers[i].0.1.clone());
            found.push((key, rules));
        }
        i += 1;
    }
    assert(parts.take(trackers.len() as int) =~= parts);
    found
}

/// Tells whether the rollover scan at `now` can run on the rules of one
/// path.
pub fn can_rollover_rules(rules: &Vec<RateLimit>, now: Timestamp) -> (r: bool)
    ensures
        r == rollover_fits(rules@, now),
{
    let mut i: usize = 0;
    while i < rules.len()
        invariant
            i <= rules.len(),
            forall|j: int|
                0 <= j < i && (#[trigger] rules[j])@.flow.is_expired(now@) ==> rules[j].window_fits(
                    now,
                ),
        decreases rules.len() - i,
    {
        if rules[i].flow.is_expired(now) && !rules[i].fits_window(now) {
            return false;
        }
        i += 1;
    }
    true
}

/// Runs the rollover scan on the rules of one path: every rule whose
/// window has ended at `now` starts a new one at `now`, with nothing
/// counted. The result tells whether any rule was changed, so that a path
/// without a change need not be stored again.
pub fn rollover_rules(rules: &mut Vec<RateLimit>, now: Timestamp) -> (rule_updated: bool)
    requires
        rollover_fits(old(rules)@, now),
    ensures
        rules_view(final(rules)@) == after_rollover(rules_view(old(rules)@), now@),
        rule_updated == any_expired(rules_view(old(rules)@), now@),
        final(rules).len() == old(rules).len(),
        forall|i: int|
            0 <= i < old(rules).len() && !(#[trigger] old(rules)[i])@.flow.is_expired(now@)
                ==> final(rules)[i] == old(rules)[i],
        forall|i: int|
            0 <= i < old(rules).len() ==> (#[trigger] final(rules)[i]).quota == old(rules)[i].quota,
{
    let ghost views = rules_view(rules@);
    let mut rule_updated = false;
    let mut i: usize = 0;
    while i < rules.len()
        invariant
            i <= rules.len(),
            rules.len() == old(rules).len(),
            views == rules_view(old(rules)@),
            rollover_fits(old(rules)@, now),
            forall|j: int| 0 <= j < i ==> (#[trigger] rules[j])@ == views[j].rollover(now@),
            forall|j: int|
                0 <= j < i && !(#[trigger] old(rules)[j])@.flow.is_expired(now@) ==> rules[j]
                    == old(rules)[j],
            forall|j: int| 0 <= j < rules.len() ==> (#[trigger] rules[j]).quota == old(rules)[j].quota,
            forall|j: int| i <= j < rules.len() ==> (#[trigger] rules[j]) == old(rules)[j],
            rule_updated == any_expired(views.take(i as int), now@),
        decreases rules.len() - i,
    {
        proof {
            lemma_any_expired_step(views, now@, i as int);
        }
        if rules[i].flow.is_expired(now) {
            let duration = rules[i].quota.duration;
            rules[i].flow._expire(now, duration);
            rule_updated = true;
        }
        i += 1;
    }
    assert(views.take(rules.len() as int) =~= views);
    rule_updated
}

/// Whether the rollover scan at `now` can run on every tracker.
pub open spec fn rollover_fits_all(trackers: Seq<Tracker>, now: Timestamp) -> bool {
    forall|i: int| 0 <= i < trackers.len() ==> rollover_fits((#[trigger] trackers[i]).1@, now)
}

/// Tells whether the rollover scan at `now` can run on every tracker.
pub fn can_rollover(trackers: &Vec<Tracker>, now: Timestamp) -> (r: bool)
    ensures
        r == rollover_fits_all(trackers@, now),
{
    let mut i: usize = 0;
    while i < trackers.len()
        invariant
            i <= trackers.len(),
            forall|j: int| 0 <= j < i ==> rollover_fits((#[trigger] trackers[j]).1@, now),
        decreases trackers.len() - i,
    {
        if !can_rollover_rules(&trackers[i].1, now) {
            return false;
        }
        i += 1;
    }
    true
}

/// Runs the rollover scan on every path and returns the trackers that it
/// changed, as it leaves them: these are to be stored again. A tracker
/// without a rule whose window has ended is not in the result.
pub fn rollover_expired_rate_limits(trackers: &Vec<Tracker>, now: Timestamp) -> (r: Vec<Tracker>)
    requires
        rollover_fits_all(trackers@, now),
    ensures
        trackers_view(r@) == rolled_trackers(trackers_view(trackers@), now@),
{
    let ghost views = trackers_view(trackers@);
    let mut updated: Vec<Tracker> = Vec::new();
    let mut i: usize = 0;
    proof {
        reveal(Seq::filter);
    }
    while i < trackers.len()
        invariant
            i <= trackers.len(),
            views == trackers_view(trackers@),
            rollover_fits_all(trackers@, now),
            trackers_view(updated@) == views.take(i as int).filter(
                needs_rollover(now@),
            ).map_values(rolled_over(now@)),
        decreases trackers.len() - i,
    {
        proof {
            lemma_filter_step(views, needs_rollover(now@), i as int);
        }
        let mut rules = trackers[i].1.clone();
        if rollover_rules(&mut rules, now) {
            let ghost before = trackers_view(updated@);
            let ghost kept = views.take(i as int).filter(needs_rollover(now@));
            let key = (trackers[i].0.0.clone(), trackers[i].0.1.clone());
            updated.push((key, rules));
            assert(kept.push(views[i as int]).map_values(rolled_over(now@)) =~= before.push(
                rolled_over(now@)(views[i as int]),
            ));
        }
        i += 1;
    }
    assert(views.take(trackers.len() as int) =~= views);
    updated
}

} // verus!
