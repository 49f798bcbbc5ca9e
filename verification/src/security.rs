//! The security policy that guards mutating board actions: an autonomy
//! level and an hourly action budget kept in a sliding window.

use vstd::prelude::*;

verus! {

/// How much the agent may do on its own.
#[derive(PartialEq, Eq, Structural, Clone, Copy)]
pub enum AutonomyLevel {
    /// Observe only: no action is allowed.
    ReadOnly,
    /// Act, with approval for risky steps.
    Supervised,
    /// Act freely.
    Full,
}

/// The length of the rate-limit window, in seconds.
pub const ACTION_WINDOW_SECS: u64 = 3600;

/// An action recorded at `t` still counts at time `now`.
pub open spec fn in_window(t: u64, now: u64) -> bool {
    (now as int) < t + ACTION_WINDOW_SECS
}

/// The actions of `actions` that still count at time `now`, in order.
pub open spec fn recent(actions: Seq<u64>, now: u64) -> Seq<u64>
    decreases actions.len(),
{
    if actions.len() == 0 {
        Seq::<u64>::empty()
    } else {
        let rest = recent(actions.drop_last(), now);
        if in_window(actions.last(), now) {
            rest.push(actions.last())
        } else {
            rest
        }
    }
}

/// Keeping only recent actions never lengthens the list.
pub proof fn lemma_recent_len(actions: Seq<u64>, now: u64)
    ensures
        recent(actions, now).len() <= actions.len(),
    decreases actions.len(),
{
    if actions.len() > 0 {
        lemma_recent_len(actions.drop_last(), now);
    }
}

/// Every action that is kept still counts.
pub proof fn lemma_recent_all_in_window(actions: Seq<u64>, now: u64)
    ensures
        forall|i: int|
            0 <= i < recent(actions, now).len() ==> in_window(#[trigger] recent(actions, now)[i], now),
    decreases actions.len(),
{
    if actions.len() > 0 {
        let rest = recent(actions.drop_last(), now);
        lemma_recent_all_in_window(actions.drop_last(), now);
        if in_window(actions.last(), now) {
            let r = rest.push(actions.last());
            assert forall|i: int| 0 <= i < r.len() implies in_window(#[trigger] r[i], now) by {
                if i < rest.len() {
                    assert(r[i] == rest[i]);
                }
            }
        }
    }
}

/// A list whose actions all count is kept whole.
pub proof fn lemma_recent_of_all_in_window(actions: Seq<u64>, now: u64)
    requires
        forall|i: int| 0 <= i < actions.len() ==> in_window(#[trigger] actions[i], now),
    ensures
        recent(actions, now) == actions,
    decreases actions.len(),
{
    if actions.len() > 0 {
        let d = actions.drop_last();
        assert forall|i: int| 0 <= i < d.len() implies in_window(#[trigger] d[i], now) by {
            assert(d[i] == actions[i]);
        }
        lemma_recent_of_all_in_window(d, now);
        assert(actions.len() > 0);
        assert(in_window(actions[actions.len() - 1], now));
        assert(d.push(actions.last()) =~= actions);
    }
}

/// Sliding-window record of the times at which actions were taken.
pub struct ActionTracker {
    actions: Vec<u64>,
}

impl View for ActionTracker {
    type V = Seq<u64>;

    closed spec fn view(&self) -> Seq<u64> {
        self.actions@
    }
}

impl ActionTracker {
    /// A tracker with no recorded action.
    pub fn new() -> (r: ActionTracker)
        ensures
            r@ == Seq::<u64>::empty(),
    {
        ActionTracker { actions: Vec::new() }
    }

    /// Drops the actions that no longer count at `now`, records one at
    /// `now`, and returns how many count now.
    pub fn record(&mut self, now: u64) -> (count: usize)
        ensures
            final(self)@ == recent(old(self)@, now).push(now),
            count == final(self)@.len(),
    {
        let mut kept: Vec<u64> = Vec::new();
        let mut i: usize = 0;
        while i < self.actions.len()
            invariant
                i <= self.actions@.len(),
                kept@ == recent(self.actions@.take(i as int), now),
            decreases self.actions@.len() - i,
        {
            let t = self.actions[i];
            proof {
                assert(self.actions@.take(i + 1).drop_last() =~= self.actions@.take(i as int));
            }
            if (now as u128) < (t as u128) + (ACTION_WINDOW_SECS as u128) {
                kept.push(t);
            }
            i = i + 1;
        }
        proof {
            assert(self.actions@.take(self.actions@.len() as int) =~= self.actions@);
            lemma_recent_len(self.actions@, now);
        }
        kept.push(now);
        self.actions = kept;
        self.actions.len()
    }

    /// How many recorded actions still count at `now`.
    pub fn count(&self, now: u64) -> (count: usize)
        ensures
            count == recent(self@, now).len(),
    {
        let mut n: usize = 0;
        let mut i: usize = 0;
        while i < self.actions.len()
            invariant
                i <= self.actions@.len(),
                n == recent(self.actions@.take(i as int), now).len(),
            decreases self.actions@.len() - i,
        {
            let t = self.actions[i];
            proof {
                assert(self.actions@.take(i + 1).drop_last() =~= self.actions@.take(i as int));
                lemma_recent_len(self.actions@.take(i as int), now);
            }
            if (now as u128) < (t as u128) + (ACTION_WINDOW_SECS as u128) {
                n = n + 1;
            }
            i = i + 1;
        }
        proof {
            assert(self.actions@.take(self.actions@.len() as int) =~= self.actions@);
        }
        n
    }
}

/// What a security policy holds: the autonomy level, the hourly budget
/// and the times of the actions taken.
pub struct SecurityPolicyView {
    pub autonomy: AutonomyLevel,
    pub max_actions_per_hour: u32,
    pub actions: Seq<u64>,
}

impl SecurityPolicyView {
    /// The autonomy level allows acting at all.
    pub open spec fn can_act(self) -> bool {
        self.autonomy != AutonomyLevel::ReadOnly
    }

    /// The budget is already used up at `now`, before recording anything.
    pub open spec fn rate_limited(self, now: u64) -> bool {
        recent(self.actions, now).len() >= self.max_actions_per_hour
    }

    /// Recording one more action at `now` stays within the budget.
    pub open spec fn record_within_budget(self, now: u64) -> bool {
        recent(self.actions, now).len() + 1 <= self.max_actions_per_hour
    }

    /// The policy after one action is recorded at `now`.
    pub open spec fn after_record(self, now: u64) -> SecurityPolicyView {
        SecurityPolicyView { actions: recent(self.actions, now).push(now), ..self }
    }
}

/// The security policy: autonomy level and hourly action budget.
pub struct SecurityPolicy {
    pub autonomy: AutonomyLevel,
    pub max_actions_per_hour: u32,
    tracker: ActionTracker,
}

impl View for SecurityPolicy {
    type V = SecurityPolicyView;

    closed spec fn view(&self) -> SecurityPolicyView {
        SecurityPolicyView {
            autonomy: self.autonomy,
            max_actions_per_hour: self.max_actions_per_hour,
            actions: self.tracker@,
        }
    }
}

impl SecurityPolicy {
    /// A policy with no action recorded yet.
    pub fn new(autonomy: AutonomyLevel, max_actions_per_hour: u32) -> (r: SecurityPolicy)
        ensures
            r@ == (SecurityPolicyView {
                autonomy,
                max_actions_per_hour,
                actions: Seq::<u64>::empty(),
            }),
    {
        SecurityPolicy { autonomy, max_actions_per_hour, tracker: ActionTracker::new() }
    }

    /// The autonomy level permits acting at all.
    pub fn can_act(&self) -> (r: bool)
        ensures
            r == self@.can_act(),
    {
        match self.autonomy {
            AutonomyLevel::ReadOnly => false,
            _ => true,
        }
    }

    /// The hourly budget is used up at `now`; nothing is recorded.
    pub fn is_rate_limited(&self, now: u64) -> (r: bool)
        ensures
            r == self@.rate_limited(now),
    {
        self.tracker.count(now) >= self.max_actions_per_hour as usize
    }

    /// Records an action at `now`; true when it stays within the budget.
    /// The action is recorded either way.
    pub fn record_action(&mut self, now: u64) -> (r: bool)
        ensures
            final(self)@ == old(self)@.after_record(now),
            r == old(self)@.record_within_budget(now),
    {
        let count = self.tracker.record(now);
        count <= self.max_actions_per_hour as usize
    }

    /// How many actions count against the budget at `now`.
    pub fn recent_actions(&self, now: u64) -> (r: usize)
        ensures
            r == recent(self@.actions, now).len(),
    {
        self.tracker.count(now)
    }
}

/// Once the budget is used up, recording another action at the same time
/// is refused.
pub proof fn law_rate_limited_refuses_record(policy: SecurityPolicyView, now: u64)
    requires
        policy.rate_limited(now),
    ensures
        !policy.record_within_budget(now),
{
}

/// Recording an action at `now` raises the count at `now` by exactly one.
pub proof fn law_record_adds_one(policy: SecurityPolicyView, now: u64)
    ensures
        recent(policy.after_record(now).actions, now).len() == recent(policy.actions, now).len()
            + 1,
{
    let kept = recent(policy.actions, now);
    lemma_recent_all_in_window(policy.actions, now);
    let after = kept.push(now);
    assert forall|i: int| 0 <= i < after.len() implies in_window(#[trigger] after[i], now) by {
        if i < kept.len() {
            assert(after[i] == kept[i]);
        }
    }
    lemma_recent_of_all_in_window(after, now);
}

/// An action stops counting once its hour has passed.
pub proof fn law_old_actions_expire(policy: SecurityPolicyView, t: u64, now: u64)
    requires
        t as int + ACTION_WINDOW_SECS <= now,
    ensures
        recent(policy.after_record(t).actions, now).len() == recent(policy.actions, now).len(),
{
    let kept = recent(policy.actions, t);
    assert(kept.push(t).drop_last() =~= kept);
    lemma_recent_later(policy.actions, t, now);
}

/// Pruning at an earlier time and then at a later one is the same as
/// pruning at the later time.
proof fn lemma_recent_later(actions: Seq<u64>, t: u64, now: u64)
    requires
        t <= now,
    ensures
        recent(recent(actions, t), now) == recent(actions, now),
    decreases actions.len(),
{
    if actions.len() > 0 {
        let d = actions.drop_last();
        lemma_recent_later(d, t, now);
        let rt = recent(d, t);
        if in_window(actions.last(), t) {
            assert(rt.push(actions.last()).drop_last() =~= rt);
        }
    }
}

} // verus!
