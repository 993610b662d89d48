//! Registry of named, prioritized, time-bounded business rules, assignable
//! to users. The registry stores rules and assignments and resolves the
//! ordered set of rules in force for a user at a point in time. The
//! condition and action payloads are opaque serialized policy expressions;
//! evaluating them against a live transaction belongs to a pluggable
//! evaluator outside this ledger, which only resolves the rule set.

use vstd::prelude::*;
use crate::errors::LedgerError;

verus! {

/// What a business rule governs.
#[derive(Clone, Copy, Debug, PartialEq, Eq, Structural)]
pub enum BusinessRuleCategory {
    KycEligibility,
    SpendManagement,
    TransactionMonitoring,
    Compliance,
    RiskManagement,
    GeographicRestrictions,
}

/// A named, prioritized rule. A lower `priority` value means higher
/// precedence: resolution orders ascending, highest precedence first.
#[derive(Clone, Debug)]
pub struct BusinessRule {
    pub rule_id: u64,
    pub name: String,
    pub category: BusinessRuleCategory,
    /// Opaque serialized condition expression; not interpreted here.
    pub conditions: Vec<u8>,
    /// Opaque serialized action expression; not interpreted here.
    pub actions: Vec<u8>,
    pub priority: u16,
    pub is_active: bool,
    pub created_at: u64,
}

/// The assignment of one rule to one user over an effective window. Both
/// window bounds are inclusive; an absent end means the window never
/// closes.
#[derive(Clone, Copy, Debug, PartialEq, Eq)]
pub struct UserBusinessRule {
    pub user: u64,
    pub rule_id: u64,
    pub effective_from: u64,
    pub effective_to: Option<u64>,
    pub is_active: bool,
    pub assigned_at: u64,
}

/// Field-for-field agreement of two rules (their payloads compared by
/// content).
pub open spec fn same_rule(a: BusinessRule, b: BusinessRule) -> bool {
    &&& a.rule_id == b.rule_id
    &&& a.name@ == b.name@
    &&& a.category == b.category
    &&& a.conditions@ == b.conditions@
    &&& a.actions@ == b.actions@
    &&& a.priority == b.priority
    &&& a.is_active == b.is_active
    &&& a.created_at == b.created_at
}

/// An assignment is in force at `t` iff it is active and its inclusive
/// effective window contains `t`.
pub open spec fn in_force(a: UserBusinessRule, t: u64) -> bool {
    &&& a.is_active
    &&& a.effective_from <= t
    &&& match a.effective_to {
        Some(until) => t <= until,
        None => true,
    }
}

/// Decide `in_force` for one assignment.
pub fn is_in_force(a: &UserBusinessRule, t: u64) -> (b: bool)
    ensures
        b == in_force(*a, t),
{
    if !a.is_active {
        return false;
    }
    if a.effective_from > t {
        return false;
    }
    match a.effective_to {
        Some(until) => t <= until,
        None => true,
    }
}

/// A byte-for-byte copy of a payload.
fn copy_bytes(src: &Vec<u8>) -> (r: Vec<u8>)
    ensures
        r@ == src@,
{
    let mut r: Vec<u8> = Vec::new();
    let mut i: usize = 0;
    while i < src.len()
        invariant
            i <= src@.len(),
            r@ == src@.take(i as int),
        decreases src@.len() - i,
    {
        r.push(src[i]);
        assert(r@ =~= src@.take(i + 1));
        i = i + 1;
    }
    assert(r@ =~= src@);
    r
}

impl BusinessRule {
    /// An owned copy that agrees with this rule field for field.
    fn duplicate(&self) -> (r: BusinessRule)
        ensures
            same_rule(r, *self),
    {
        BusinessRule {
            rule_id: self.rule_id,
            name: self.name.clone(),
            category: self.category,
            conditions: copy_bytes(&self.conditions),
            actions: copy_bytes(&self.actions),
            priority: self.priority,
            is_active: self.is_active,
            created_at: self.created_at,
        }
    }
}

/// The rule registry: all registered rules and all user assignments.
pub struct BusinessRulePolicy {
    pub rules: Vec<BusinessRule>,
    pub assignments: Vec<UserBusinessRule>,
}

impl BusinessRulePolicy {
    /// Registered rule identifiers are unique.
    pub open spec fn wf(self) -> bool {
        forall|i: int, j: int|
            0 <= i < j < self.rules@.len() ==> self.rules@[i].rule_id != self.rules@[j].rule_id
    }

    /// Whether some rule with this identifier is registered.
    pub open spec fn spec_has_rule(self, rule_id: u64) -> bool {
        exists|i: int| 0 <= i < self.rules@.len() && self.rules@[i].rule_id == rule_id
    }

    /// Whether `user` holds an assignment of `rule_id` that is in force at
    /// `t`.
    pub open spec fn has_in_force_assignment(self, user: u64, rule_id: u64, t: u64) -> bool {
        exists|i: int|
            0 <= i < self.assignments@.len() && self.assignments@[i].user == user
                && self.assignments@[i].rule_id == rule_id && in_force(self.assignments@[i], t)
    }

    /// An empty registry.
    pub fn new() -> (p: BusinessRulePolicy)
        ensures
            p.rules@ =~= Seq::<BusinessRule>::empty(),
            p.assignments@ =~= Seq::<UserBusinessRule>::empty(),
            p.wf(),
    {
        BusinessRulePolicy { rules: Vec::new(), assignments: Vec::new() }
    }

    /// Whether a rule with this identifier is registered.
    pub fn has_rule(&self, rule_id: u64) -> (b: bool)
        ensures
            b == self.spec_has_rule(rule_id),
    {
        let mut i: usize = 0;
        while i < self.rules.len()
            invariant
                i <= self.rules@.len(),
                forall|k: int| 0 <= k < i ==> self.rules@[k].rule_id != rule_id,
            decreases self.rules@.len() - i,
        {
            if self.rules[i].rule_id == rule_id {
                return true;
            }
            i = i + 1;
        }
        false
    }

    /// Register a new rule, active from creation. Fails with `Conflict`,
    /// changing nothing, when the identifier is already taken; otherwise
    /// the rule is appended and the registry is otherwise untouched.
    pub fn register_business_rule(
        &mut self,
        rule_id: u64,
        name: String,
        category: BusinessRuleCategory,
        conditions: Vec<u8>,
        actions: Vec<u8>,
        priority: u16,
        now: u64,
    ) -> (r: Result<(), LedgerError>)
        requires
            old(self).wf(),
        ensures
            old(self).spec_has_rule(rule_id) ==> r == Err::<(), LedgerError>(LedgerError::Conflict)
                && *final(self) == *old(self),
            !old(self).spec_has_rule(rule_id) ==> {
                &&& r == Ok::<(), LedgerError>(())
                &&& final(self).rules@.len() == old(self).rules@.len() + 1
                &&& final(self).rules@.subrange(0, old(self).rules@.len() as int)
                    == old(self).rules@
                &&& same_rule(
                    final(self).rules@.last(),
                    BusinessRule {
                        rule_id,
                        name,
                        category,
                        conditions,
                        actions,
                        priority,
                        is_active: true,
                        created_at: now,
                    },
                )
            },
            final(self).assignments@ == old(self).assignments@,
            final(self).wf(),
    {
        if self.has_rule(rule_id) {
            return Err(LedgerError::Conflict);
        }
        let rule = BusinessRule {
            rule_id,
            name,
            category,
            conditions,
            actions,
            priority,
            is_active: true,
            created_at: now,
        };
        self.rules.push(rule);
        proof {
            assert(self.rules@.subrange(0, old(self).rules@.len() as int) =~= old(self).rules@);
        }
        Ok(())
    }

    /// Assign a rule to a user over an effective window. Fails with
    /// `InvalidTimeRange`, changing nothing, when the window closes before
    /// it opens; otherwise the assignment is appended, active, stamped at
    /// `now`, and the registry is otherwise untouched.
    pub fn assign_rule_to_user(
        &mut self,
        user: u64,
        rule_id: u64,
        effective_from: u64,
        effective_to: Option<u64>,
        now: u64,
    ) -> (r: Result<(), LedgerError>)
        ensures
            (match effective_to {
                Some(until) => until < effective_from,
                None => false,
            }) ==> r == Err::<(), LedgerError>(LedgerError::InvalidTimeRange) && *final(self)
                == *old(self),
            (match effective_to {
                Some(until) => until >= effective_from,
                None => true,
            }) ==> r == Ok::<(), LedgerError>(()) && final(self).assignments@
                == old(self).assignments@.push(
                UserBusinessRule {
                    user,
                    rule_id,
                    effective_from,
                    effective_to,
                    is_active: true,
                    assigned_at: now,
                },
            ),
            final(self).rules@ == old(self).rules@,
            old(self).wf() ==> final(self).wf(),
    {
        match effective_to {
            Some(until) => {
                if until < effective_from {
                    return Err(LedgerError::InvalidTimeRange);
                }
            }
            None => {}
        }
        self.assignments.push(
            UserBusinessRule { user, rule_id, effective_from, effective_to, is_active: true, assigned_at: now },
        );
        Ok(())
    }

    /// Whether `user` holds an in-force assignment of `rule_id` at `t`.
    pub fn has_assignment_in_force(&self, user: u64, rule_id: u64, t: u64) -> (b: bool)
        ensures
            b == self.has_in_force_assignment(user, rule_id, t),
    {
        let mut i: usize = 0;
        while i < self.assignments.len()
            invariant
                i <= self.assignments@.len(),
                forall|k: int|
                    0 <= k < i ==> !(self.assignments@[k].user == user && self.assignments@[k].rule_id
                        == rule_id && in_force(self.assignments@[k], t)),
            decreases self.assignments@.len() - i,
        {
            let a = &self.assignments[i];
            if a.user == user && a.rule_id == rule_id && is_in_force(a, t) {
                return true;
            }
            i = i + 1;
        }
        false
    }

    /// Resolve the rules in force for `user` at `now`: exactly the
    /// registered rules for which the user holds an active assignment
    /// whose inclusive window contains `now`, each at most once, ordered
    /// by ascending priority value (highest precedence first).
    pub fn active_rules_for(&self, user: u64, now: u64) -> (r: Vec<BusinessRule>)
        requires
            self.wf(),
        ensures
            forall|j: int| 0 <= j < r@.len() ==> self.is_selected_for(user, now, #[trigger] r@[j]),
            forall|i: int|
                0 <= i < self.rules@.len() && self.has_in_force_assignment(
                    user,
                    (#[trigger] self.rules@[i]).rule_id,
                    now,
                ) ==> rule_appears_in(r@, self.rules@[i]),
            forall|j: int, k: int| 0 <= j < k < r@.len() ==> r@[j].priority <= r@[k].priority,
            forall|j: int, k: int| 0 <= j < k < r@.len() ==> r@[j].rule_id != r@[k].rule_id,
    {
        let mut out: Vec<BusinessRule> = Vec::new();
        let mut i: usize = 0;
        while i < self.rules.len()
            invariant
                self.wf(),
                i <= self.rules@.len(),
                forall|j: int|
                    0 <= j < out@.len() ==> self.selected_among(user, now, i as int, #[trigger] out@[j]),
                forall|i2: int|
                    0 <= i2 < i && self.has_in_force_assignment(
                        user,
                        (#[trigger] self.rules@[i2]).rule_id,
                        now,
                    ) ==> rule_appears_in(out@, self.rules@[i2]),
                forall|j: int, k: int| 0 <= j < k < out@.len() ==> out@[j].priority
                    <= out@[k].priority,
                forall|j: int, k: int| 0 <= j < k < out@.len() ==> out@[j].rule_id
                    != out@[k].rule_id,
            decreases self.rules@.len() - i,
        {
            if self.has_assignment_in_force(user, self.rules[i].rule_id, now) {
                let ghost old_out = out@;
                let picked = self.rules[i].duplicate();
                insert_by_priority(&mut out, picked);
                proof {
                    let pos = choose|pos: int|
                        0 <= pos <= old_out.len() && out@ == old_out.insert(pos, picked);
                    old_out.insert_ensures(pos, picked);
                    assert(inserted_at(old_out, out@, picked, pos));
                    lemma_step_sound(*self, user, now, old_out, out@, picked, pos, i as int);
                    lemma_step_complete(*self, user, now, old_out, out@, picked, pos, i as int);
                    lemma_step_distinct(*self, user, now, old_out, out@, picked, pos, i as int);
                }
            } else {
                proof {
                    assert forall|j: int|
                        0 <= j < out@.len() implies self.selected_among(
                        user,
                        now,
                        i + 1,
                        #[trigger] out@[j],
                    ) by {
                        lemma_selected_widen(*self, user, now, i as int, i + 1, out@[j]);
                    }
                    assert forall|i2: int|
                        0 <= i2 < i + 1 && self.has_in_force_assignment(
                            user,
                            (#[trigger] self.rules@[i2]).rule_id,
                            now,
                        ) implies rule_appears_in(out@, self.rules@[i2]) by {
                        assert(i2 != i);
                    }
                }
            }
            i = i + 1;
        }
        out
    }
}

/// Some entry of `s` agrees with `rule` field for field.
pub open spec fn rule_appears_in(s: Seq<BusinessRule>, rule: BusinessRule) -> bool {
    exists|j: int| 0 <= j < s.len() && same_rule(#[trigger] s[j], rule)
}

impl BusinessRulePolicy {
    /// `rule` copies one of the first `n` registered rules, and that rule
    /// is in force for `user` at `t`.
    pub open spec fn selected_among(self, user: u64, t: u64, n: int, rule: BusinessRule) -> bool {
        exists|i: int|
            0 <= i < n && i < self.rules@.len() && same_rule(rule, #[trigger] self.rules@[i])
                && self.has_in_force_assignment(user, self.rules@[i].rule_id, t)
    }

    /// `rule` copies a registered rule that is in force for `user` at `t`.
    pub open spec fn is_selected_for(self, user: u64, t: u64, rule: BusinessRule) -> bool {
        self.selected_among(user, t, self.rules@.len() as int, rule)
    }
}

/// How `new_out` relates to `old_out` after inserting `picked` at `pos`:
/// everything before `pos` is in place, `picked` sits at `pos`, and the
/// rest is shifted one slot to the right.
pub open spec fn inserted_at(
    old_out: Seq<BusinessRule>,
    new_out: Seq<BusinessRule>,
    picked: BusinessRule,
    pos: int,
) -> bool {
    &&& 0 <= pos <= old_out.len()
    &&& new_out.len() == old_out.len() + 1
    &&& forall|q: int| 0 <= q < pos ==> new_out[q] == old_out[q]
    &&& new_out[pos] == picked
    &&& forall|q: int| pos <= q < old_out.len() ==> new_out[q + 1] == old_out[q]
}

/// A rule selected among the first `n` registered rules is also selected
/// among the first `m` for any larger `m`.
proof fn lemma_selected_widen(
    policy: BusinessRulePolicy,
    user: u64,
    t: u64,
    n: int,
    m: int,
    rule: BusinessRule,
)
    requires
        n <= m,
        policy.selected_among(user, t, n, rule),
    ensures
        policy.selected_among(user, t, m, rule),
{
    let i = choose|i: int|
        0 <= i < n && i < policy.rules@.len() && same_rule(rule, #[trigger] policy.rules@[i])
            && policy.has_in_force_assignment(user, policy.rules@[i].rule_id, t);
    assert(0 <= i < m && i < policy.rules@.len() && same_rule(rule, policy.rules@[i])
        && policy.has_in_force_assignment(user, policy.rules@[i].rule_id, t));
}

/// Inserting a copy of the `i`th registered rule, known to be in force,
/// keeps every collected entry a copy of some in-force rule among the
/// first `i + 1`.
proof fn lemma_step_sound(
    policy: BusinessRulePolicy,
    user: u64,
    now: u64,
    old_out: Seq<BusinessRule>,
    new_out: Seq<BusinessRule>,
    picked: BusinessRule,
    pos: int,
    i: int,
)
    requires
        0 <= i < policy.rules@.len(),
        inserted_at(old_out, new_out, picked, pos),
        same_rule(picked, policy.rules@[i]),
        policy.has_in_force_assignment(user, policy.rules@[i].rule_id, now),
        forall|j: int|
            0 <= j < old_out.len() ==> policy.selected_among(user, now, i, #[trigger] old_out[j]),
    ensures
        forall|j: int|
            0 <= j < new_out.len() ==> policy.selected_among(user, now, i + 1, #[trigger] new_out[j]),
{
    assert forall|j: int|
        0 <= j < new_out.len() implies policy.selected_among(user, now, i + 1, #[trigger] new_out[j]) by {
        if j < pos {
            assert(new_out[j] == old_out[j]);
            lemma_selected_widen(policy, user, now, i, i + 1, old_out[j]);
        } else if j == pos {
            assert(same_rule(new_out[j], policy.rules@[i]));
        } else {
            assert(new_out[j] == old_out[j - 1]);
            lemma_selected_widen(policy, user, now, i, i + 1, old_out[j - 1]);
        }
    }
}

/// Inserting a copy of the `i`th registered rule keeps every in-force
/// rule among the first `i + 1` represented in the collection.
proof fn lemma_step_complete(
    policy: BusinessRulePolicy,
    user: u64,
    now: u64,
    old_out: Seq<BusinessRule>,
    new_out: Seq<BusinessRule>,
    picked: BusinessRule,
    pos: int,
    i: int,
)
    requires
        0 <= i < policy.rules@.len(),
        inserted_at(old_out, new_out, picked, pos),
        same_rule(picked, policy.rules@[i]),
        forall|i2: int|
            0 <= i2 < i && policy.has_in_force_assignment(
                user,
                (#[trigger] policy.rules@[i2]).rule_id,
                now,
            ) ==> rule_appears_in(old_out, policy.rules@[i2]),
    ensures
        forall|i2: int|
            0 <= i2 < i + 1 && policy.has_in_force_assignment(
                user,
                (#[trigger] policy.rules@[i2]).rule_id,
                now,
            ) ==> rule_appears_in(new_out, policy.rules@[i2]),
{
    assert forall|i2: int|
        0 <= i2 < i + 1 && policy.has_in_force_assignment(
            user,
            (#[trigger] policy.rules@[i2]).rule_id,
            now,
        ) implies rule_appears_in(new_out, policy.rules@[i2]) by {
        if i2 == i {
            assert(same_rule(new_out[pos], policy.rules@[i2]));
        } else {
            let j0 = choose|j0: int|
                0 <= j0 < old_out.len() && same_rule(#[trigger] old_out[j0], policy.rules@[i2]);
            if j0 < pos {
                assert(new_out[j0] == old_out[j0]);
                assert(same_rule(new_out[j0], policy.rules@[i2]));
            } else {
                assert(new_out[j0 + 1] == old_out[j0]);
                assert(same_rule(new_out[j0 + 1], policy.rules@[i2]));
            }
        }
    }
}

/// Inserting a copy of the `i`th registered rule, when every collected
/// entry copies an earlier registered rule, keeps the collected rule
/// identifiers distinct, because registered identifiers are unique.
proof fn lemma_step_distinct(
    policy: BusinessRulePolicy,
    user: u64,
    now: u64,
    old_out: Seq<BusinessRule>,
    new_out: Seq<BusinessRule>,
    picked: BusinessRule,
    pos: int,
    i: int,
)
    requires
        policy.wf(),
        0 <= i < policy.rules@.len(),
        inserted_at(old_out, new_out, picked, pos),
        same_rule(picked, policy.rules@[i]),
        forall|j: int|
            0 <= j < old_out.len() ==> policy.selected_among(user, now, i, #[trigger] old_out[j]),
        forall|j: int, k: int| 0 <= j < k < old_out.len() ==> old_out[j].rule_id
            != old_out[k].rule_id,
    ensures
        forall|j: int, k: int| 0 <= j < k < new_out.len() ==> new_out[j].rule_id
            != new_out[k].rule_id,
{
    // every entry already collected copies an earlier registered rule,
    // whose identifier differs from the picked rule's by uniqueness
    assert forall|m: int|
        0 <= m < old_out.len() implies old_out[m].rule_id != picked.rule_id by {
        assert(policy.selected_among(user, now, i, old_out[m]));
        let i2 = choose|i2: int|
            0 <= i2 < i && i2 < policy.rules@.len() && same_rule(old_out[m], #[trigger] policy.rules@[i2])
                && policy.has_in_force_assignment(user, policy.rules@[i2].rule_id, now);
        assert(old_out[m].rule_id == policy.rules@[i2].rule_id);
        assert(policy.rules@[i2].rule_id != policy.rules@[i].rule_id);
    }
    assert forall|j: int, k: int|
        0 <= j < k < new_out.len() implies new_out[j].rule_id != new_out[k].rule_id by {
        if j < pos {
            assert(new_out[j] == old_out[j]);
        } else if j > pos {
            assert(new_out[j] == old_out[j - 1]);
        }
        if k < pos {
            assert(new_out[k] == old_out[k]);
        } else if k > pos {
            assert(new_out[k] == old_out[k - 1]);
        }
    }
}

/// Insert a rule into a priority-sorted vector, keeping it sorted; the
/// result is the old contents with `rule` inserted at one position.
fn insert_by_priority(out: &mut Vec<BusinessRule>, rule: BusinessRule)
    requires
        forall|j: int, k: int| 0 <= j < k < old(out)@.len() ==> old(out)@[j].priority
            <= old(out)@[k].priority,
    ensures
        exists|pos: int| 0 <= pos <= old(out)@.len() && final(out)@ == old(out)@.insert(pos, rule),
        forall|j: int, k: int| 0 <= j < k < final(out)@.len() ==> final(out)@[j].priority
            <= final(out)@[k].priority,
{
    let ghost orig = out@;
    let mut pos: usize = 0;
    while pos < out.len() && out[pos].priority <= rule.priority
        invariant
            pos <= out@.len(),
            out@ == orig,
            forall|q: int| 0 <= q < pos ==> orig[q].priority <= rule.priority,
        decreases out@.len() - pos,
    {
        pos = pos + 1;
    }
    let ghost p = pos as int;
    assert(p == orig.len() || orig[p].priority > rule.priority);
    out.insert(pos, rule);
    proof {
        orig.insert_ensures(p, rule);
        assert(out@ == orig.insert(p, rule));
        assert forall|j: int, k: int|
            0 <= j < k < out@.len() implies out@[j].priority <= out@[k].priority by {
            if j < p {
                assert(out@[j] == orig[j]);
            } else if j == p {
                assert(out@[j] == rule);
            } else {
                assert(out@[j] == orig[j - 1]);
            }
            if k < p {
                assert(out@[k] == orig[k]);
            } else if k == p {
                assert(out@[k] == rule);
            } else {
                assert(out@[k] == orig[k - 1]);
            }
            if k == p {
                // everything before the insertion point was passed over by
                // the search, so it is at most the new rule's priority
                assert(orig[j].priority <= rule.priority);
            } else if j == p && k > p {
                // the search stopped at a strictly larger priority, and the
                // tail only grows from there
                assert(p <= k - 1 < orig.len());
                assert(orig[p].priority > rule.priority);
                if p < k - 1 {
                    assert(orig[p].priority <= orig[k - 1].priority);
                }
            }
        }
    }
}

} // verus!
