//! The constraint/usage negotiator: one planning call's view of the
//! engine's candidate constraints and the table implementation's answers.
//!
//! The engine offers a fixed-length array of read-only constraints and a
//! parallel array of mutable usage slots, plus an estimated-cost scalar
//! and a per-constraint toggle for handling list/membership tests whole.
//! The negotiator exposes those as an aligned pair of sequences and
//! records the implementation's answers exactly; it validates nothing —
//! in particular, marking a constraint "omit" is the caller's promise,
//! never checked here.

use vstd::prelude::*;

verus! {

/// One candidate constraint the planner offers. Engine-provided and
/// read-only, valid only for the duration of one planning call.
#[derive(Clone, Copy, PartialEq, Eq, Structural)]
pub struct ConstraintInfo {
    /// Index of the column the constraint applies to.
    pub column: i32,
    /// Engine operator code of the comparison.
    pub operator: u8,
    /// True when this constraint is a list/IN membership test.
    pub is_in_list: bool,
}

/// The mutable half of one constraint's negotiation, paired 1:1 with a
/// constraint.
#[derive(Clone, Copy, PartialEq, Eq, Structural)]
pub struct UsageSlot {
    /// 1-based argument position that will receive this constraint's
    /// runtime value at `filter` time; 0 means "not requested", and such
    /// a constraint must be rechecked post-filter by the consuming logic.
    pub argv_index: i32,
    /// True when the implementation promises the constraint need not be
    /// rechecked after filtering. Never validated by the negotiator: that
    /// correctness burden belongs to the caller.
    pub omit: bool,
}

/// The usage slot every constraint starts a planning call with: not
/// requested, rechecked by the engine.
pub open spec fn unrequested() -> UsageSlot {
    UsageSlot { argv_index: 0, omit: false }
}

/// The usage sequence after one constraint is assigned an argument
/// position; its omit flag is untouched.
pub open spec fn usages_with_argv(u: Seq<UsageSlot>, i: int, argv: i32) -> Seq<UsageSlot> {
    u.update(i, UsageSlot { argv_index: argv, omit: u[i].omit })
}

/// The usage sequence after one constraint's omit flag is set; its
/// argument position is untouched.
pub open spec fn usages_with_omit(u: Seq<UsageSlot>, i: int, omit: bool) -> Seq<UsageSlot> {
    u.update(i, UsageSlot { argv_index: u[i].argv_index, omit })
}

/// One planning call's negotiation state: the aligned constraint and
/// usage sequences, the per-constraint membership-test toggles, and the
/// estimated scan cost, carried as the raw bit pattern of the engine's
/// 64-bit float cost field.
pub struct IndexInfo {
    /// The planner's candidate constraints; never mutated here.
    pub constraints: Vec<ConstraintInfo>,
    /// One mutable usage slot per constraint.
    pub usages: Vec<UsageSlot>,
    /// Per-constraint toggle: true when the implementation has opted in
    /// to receiving that list/membership constraint's whole candidate
    /// list at once.
    pub in_enabled: Vec<bool>,
    /// Estimated scan cost as IEEE-754 bits; no normalization or
    /// validation is performed on it.
    pub cost_bits: u64,
}

impl IndexInfo {
    /// Aligned sequences: one usage slot and one membership toggle per
    /// constraint.
    pub open spec fn wf(self) -> bool {
        self.usages@.len() == self.constraints@.len()
        && self.in_enabled@.len() == self.constraints@.len()
    }

    /// Fresh negotiation state for one planning call: every slot "not
    /// requested", every membership toggle off, and the cost bits as the
    /// engine preset them.
    pub fn new(constraints: Vec<ConstraintInfo>, cost_bits: u64) -> (info: IndexInfo)
        ensures
            info.wf(),
            info.constraints@ == constraints@,
            info.usages@.len() == constraints@.len(),
            forall|k: int| 0 <= k < constraints@.len() ==> info.usages@[k] == unrequested(),
            forall|k: int| 0 <= k < constraints@.len() ==> info.in_enabled@[k] == false,
            info.cost_bits == cost_bits,
    {
        let n = constraints.len();
        let mut usages: Vec<UsageSlot> = Vec::new();
        let mut in_enabled: Vec<bool> = Vec::new();
        let mut i: usize = 0;
        while i < n
            invariant
                i <= n,
                usages@.len() == i,
                in_enabled@.len() == i,
                forall|k: int| 0 <= k < i ==> usages@[k] == unrequested(),
                forall|k: int| 0 <= k < i ==> in_enabled@[k] == false,
            decreases n - i,
        {
            usages.push(UsageSlot { argv_index: 0, omit: false });
            in_enabled.push(false);
            i = i + 1;
        }
        IndexInfo { constraints, usages, in_enabled, cost_bits }
    }

    /// Number of candidate constraints in this planning call.
    pub fn constraint_count(&self) -> (n: usize)
        ensures
            n == self.constraints@.len(),
    {
        self.constraints.len()
    }

    /// The constraint at one index.
    pub fn constraint(&self, i: usize) -> (c: ConstraintInfo)
        requires
            i < self.constraints@.len(),
        ensures
            c == self.constraints@[i as int],
    {
        self.constraints[i]
    }

    /// True when the constraint at this index is a list/IN membership
    /// test whose whole candidate list could be handled at once.
    pub fn has_in_constraint(&self, i: usize) -> (r: bool)
        requires
            i < self.constraints@.len(),
        ensures
            r == self.constraints@[i as int].is_in_list,
    {
        self.constraints[i].is_in_list
    }

    /// Opt in or out of receiving the whole candidate list for the
    /// constraint at this index. A one-call, idempotent toggle per
    /// constraint index.
    pub fn handle_in_constraint(&mut self, i: usize, enable: bool)
        requires
            old(self).wf(),
            i < old(self).constraints@.len(),
        ensures
            final(self).wf(),
            final(self).in_enabled@ == old(self).in_enabled@.update(i as int, enable),
            final(self).constraints@ == old(self).constraints@,
            final(self).usages@ == old(self).usages@,
            final(self).cost_bits == old(self).cost_bits,
    {
        self.in_enabled[i] = enable;
    }

    /// Whether the implementation has opted in to handling the membership
    /// list of the constraint at this index whole.
    pub fn in_constraint_enabled(&self, i: usize) -> (r: bool)
        requires
            self.wf(),
            i < self.constraints@.len(),
        ensures
            r == self.in_enabled@[i as int],
    {
        self.in_enabled[i]
    }

    /// Assign the 1-based argument position that will receive this
    /// constraint's runtime value; 0 withdraws the request. The omit flag
    /// of the slot is untouched.
    pub fn set_argv_index(&mut self, i: usize, argv: i32)
        requires
            old(self).wf(),
            i < old(self).constraints@.len(),
        ensures
            final(self).wf(),
            final(self).usages@ == usages_with_argv(old(self).usages@, i as int, argv),
            final(self).constraints@ == old(self).constraints@,
            final(self).in_enabled@ == old(self).in_enabled@,
            final(self).cost_bits == old(self).cost_bits,
    {
        let omit = self.usages[i].omit;
        self.usages[i] = UsageSlot { argv_index: argv, omit };
    }

    /// Set or clear the omit flag of one usage slot: the caller's promise
    /// that the constraint need not be rechecked after filtering. The
    /// argument position of the slot is untouched, and no validation is
    /// performed.
    pub fn set_omit(&mut self, i: usize, omit: bool)
        requires
            old(self).wf(),
            i < old(self).constraints@.len(),
        ensures
            final(self).wf(),
            final(self).usages@ == usages_with_omit(old(self).usages@, i as int, omit),
            final(self).constraints@ == old(self).constraints@,
            final(self).in_enabled@ == old(self).in_enabled@,
            final(self).cost_bits == old(self).cost_bits,
    {
        let argv_index = self.usages[i].argv_index;
        self.usages[i] = UsageSlot { argv_index, omit };
    }

    /// The usage slot at one index, as it will be written back to the
    /// engine.
    pub fn usage(&self, i: usize) -> (u: UsageSlot)
        requires
            self.wf(),
            i < self.constraints@.len(),
        ensures
            u == self.usages@[i as int],
    {
        self.usages[i]
    }

    /// Set the estimated scan cost, as the raw bits of the engine's
    /// 64-bit float cost field; passed through without validation.
    pub fn set_estimated_cost_bits(&mut self, bits: u64)
        requires
            old(self).wf(),
        ensures
            final(self).wf(),
            final(self).cost_bits == bits,
            final(self).constraints@ == old(self).constraints@,
            final(self).usages@ == old(self).usages@,
            final(self).in_enabled@ == old(self).in_enabled@,
    {
        self.cost_bits = bits;
    }

    /// The estimated scan cost bits, as they will be written back to the
    /// engine.
    pub fn estimated_cost_bits(&self) -> (bits: u64)
        ensures
            bits == self.cost_bits,
    {
        self.cost_bits
    }
}

/// Idempotence of the argument-position mutation: assigning the same slot
/// the same position twice within one planning call leaves the same plan
/// as assigning it once.
pub proof fn lemma_set_argv_index_idempotent(u: Seq<UsageSlot>, i: int, argv: i32)
    requires
        0 <= i < u.len(),
    ensures
        usages_with_argv(usages_with_argv(u, i, argv), i, argv) == usages_with_argv(u, i, argv),
{
    let once = usages_with_argv(u, i, argv);
    assert(usages_with_argv(once, i, argv) =~= once);
}

/// Idempotence of the omit mutation: setting the same slot's omit flag to
/// the same value twice leaves the same plan as setting it once.
pub proof fn lemma_set_omit_idempotent(u: Seq<UsageSlot>, i: int, omit: bool)
    requires
        0 <= i < u.len(),
    ensures
        usages_with_omit(usages_with_omit(u, i, omit), i, omit) == usages_with_omit(u, i, omit),
{
    let once = usages_with_omit(u, i, omit);
    assert(usages_with_omit(once, i, omit) =~= once);
}

/// Idempotence of the membership toggle: opting a constraint in (or out)
/// twice leaves the same plan as doing it once.
pub proof fn lemma_handle_in_idempotent(e: Seq<bool>, i: int, enable: bool)
    requires
        0 <= i < e.len(),
    ensures
        e.update(i, enable).update(i, enable) == e.update(i, enable),
{
    assert(e.update(i, enable).update(i, enable) =~= e.update(i, enable));
}

} // verus!
