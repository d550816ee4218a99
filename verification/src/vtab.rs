//! Virtual-table lifecycle and cursor state machine, with a concrete
//! table: a zero-argument table exposing a single integer column backed by
//! its rowids.
//!
//! The engine drives the protocol single-threaded per cursor: `connect`
//! precedes any `open`; `open` precedes any cursor operation; `filter`
//! precedes `next`/`eof`/`column`/`rowid` on a given cursor, and `next` is
//! never called once `eof` has returned true. Operations outside that
//! window are excluded here by contract rather than recovered from.

use vstd::prelude::*;
use crate::marshal::{ResultAction, ResultContext, Value};
use crate::plan::{ConstraintInfo, IndexInfo};
use crate::stream::{collect_values, ValueStream};

verus! {

/// Failure taxonomy of lifecycle and cursor operations: a construction
/// failure fails the table-creation request; a scan failure aborts the
/// in-flight query. Marshalling failures do not appear here — they are
/// written into the result slot itself.
#[derive(Clone, Copy, PartialEq, Eq, Structural, Debug)]
pub enum VTabError {
    /// Malformed construction arguments or resource exhaustion at
    /// `connect` time.
    Construction,
    /// A cursor operation failed, aborting the in-flight query.
    Scan,
}

/// One runtime argument value bound for a `filter` call: the scalar the
/// plan requested, or — for a constraint handled as a membership test
/// whole — the one-pass stream of the candidate list's values.
pub enum FilterArg {
    /// A single scalar value.
    Scalar(i64),
    /// The whole candidate list of a membership test, consumed in one
    /// pass.
    List(ValueStream),
}

/// The runtime argument values the engine binds for one `filter` call, in
/// the argument positions assigned at planning time.
pub struct FilterArgs {
    /// The bound values, first argument position first.
    pub args: Vec<FilterArg>,
}

/// The membership sets carried by a `filter` argument sequence: the
/// still-unconsumed contents of each list argument, in argument order;
/// scalar arguments contribute none.
pub open spec fn membership_lists(args: Seq<FilterArg>) -> Seq<Seq<i64>>
    decreases args.len(),
{
    if args.len() == 0 {
        Seq::empty()
    } else {
        match args.last() {
            FilterArg::List(s) => membership_lists(args.drop_last()).push(s.remaining()),
            FilterArg::Scalar(_) => membership_lists(args.drop_last()),
        }
    }
}

/// How many of the first `i` constraints are list/membership tests: the
/// source of the successive argument positions the planning policy below
/// assigns.
pub open spec fn lists_before(cs: Seq<ConstraintInfo>, i: int) -> int
    decreases i,
{
    if i <= 0 {
        0
    } else {
        lists_before(cs, i - 1) + if cs[i - 1].is_in_list {
            1int
        } else {
            0int
        }
    }
}

proof fn lemma_lists_before_bound(cs: Seq<ConstraintInfo>, i: int)
    requires
        0 <= i,
    ensures
        0 <= lists_before(cs, i) <= i,
    decreases i,
{
    if i > 0 {
        lemma_lists_before_bound(cs, i - 1);
    }
}

/// Raw bits of the 64-bit float 1.0: the constant estimated scan cost the
/// rowid table reports to the planner.
pub const COST_ONE_BITS: u64 = 0x3ff0_0000_0000_0000;

/// Number of rows the rowid table exposes: the rowids 0, 1 and 2.
pub const ROW_COUNT: i64 = 3;

/// A connected instance of the rowid table: a zero-argument table whose
/// single column mirrors its rowids. Destroying the instance is plain
/// drop; the engine guarantees every cursor is destroyed first.
pub struct RowIdTable {
    /// Number of rows: the table's rowids are 0 up to but excluding this
    /// count.
    pub row_count: i64,
}

/// Per-scan cursor over a [`RowIdTable`], never outliving its parent
/// instance. Rowids ascend from 0; the membership sets collected by
/// `filter` restrict which ones the scan visits.
pub struct RowIdCursor {
    /// The parent table's row count; the scan never passes it.
    pub row_count: i64,
    /// Current position: the candidate rowid, equal to `row_count` once
    /// the scan is exhausted.
    pub row_id: i64,
    /// Whether `filter` has run; no other cursor operation is valid
    /// before it.
    pub filtered: bool,
    /// The membership sets of the current scan, one per list constraint
    /// the plan requested whole; a rowid is visited only if every set
    /// holds it. Empty when the scan is unrestricted.
    pub lists: Vec<Vec<i64>>,
}

impl RowIdTable {
    /// A row count can never be negative.
    pub open spec fn wf(self) -> bool {
        0 <= self.row_count
    }

    /// Construct the table instance for one connection, producing the
    /// schema declaration the engine parses. This table takes no
    /// arguments of its own (the engine-provided module, database and
    /// table names are ignored), so construction always succeeds and the
    /// schema is fixed.
    pub fn connect(_args: &Vec<Vec<u8>>) -> (r: Result<(String, RowIdTable), VTabError>)
        ensures
            r matches Ok(p) && p.0@ == "CREATE TABLE x(value)"@ && p.1.row_count == ROW_COUNT
                && p.1.wf(),
    {
        Ok(("CREATE TABLE x(value)".to_owned(), RowIdTable { row_count: ROW_COUNT }))
    }

    /// Planning policy of the rowid table: opt in to every list/membership
    /// constraint, assign them the successive argument positions 1, 2, …
    /// in constraint order, and promise the engine each needs no
    /// post-filter recheck ("omit") — the scan honors that promise by
    /// visiting only admitted rowids. Other constraints are left not
    /// requested, for the engine to recheck. The estimated cost is
    /// constant.
    pub fn best_index(&self, info: &mut IndexInfo) -> (r: Result<(), VTabError>)
        requires
            old(info).wf(),
            old(info).constraints@.len() < 0x7fff_ffff,
        ensures
            r is Ok,
            final(info).wf(),
            final(info).constraints@ == old(info).constraints@,
            final(info).cost_bits == COST_ONE_BITS,
            forall|k: int| 0 <= k < old(info).constraints@.len()
                && old(info).constraints@[k].is_in_list
                ==> final(info).usages@[k].argv_index as int
                        == 1 + lists_before(old(info).constraints@, k)
                    && final(info).usages@[k].omit,
            forall|k: int| 0 <= k < old(info).constraints@.len()
                && !old(info).constraints@[k].is_in_list
                ==> final(info).usages@[k] == old(info).usages@[k],
            forall|k: int| 0 <= k < old(info).constraints@.len()
                ==> final(info).in_enabled@[k]
                    == (old(info).in_enabled@[k] || old(info).constraints@[k].is_in_list),
    {
        let ghost cs = info.constraints@;
        let n = info.constraint_count();
        let mut i: usize = 0;
        let mut assigned: usize = 0;
        while i < n
            invariant
                info.wf(),
                info.constraints@ == cs,
                n == cs.len(),
                n < 0x7fff_ffff,
                i <= n,
                assigned == lists_before(cs, i as int),
                assigned <= i,
                forall|k: int| 0 <= k < i && cs[k].is_in_list
                    ==> info.usages@[k].argv_index as int == 1 + lists_before(cs, k)
                        && info.usages@[k].omit,
                forall|k: int| 0 <= k < i && !cs[k].is_in_list
                    ==> info.usages@[k] == old(info).usages@[k],
                forall|k: int| i <= k < n ==> info.usages@[k] == old(info).usages@[k],
                forall|k: int| 0 <= k < i
                    ==> info.in_enabled@[k] == (old(info).in_enabled@[k] || cs[k].is_in_list),
                forall|k: int| i <= k < n ==> info.in_enabled@[k] == old(info).in_enabled@[k],
                info.cost_bits == old(info).cost_bits,
            decreases n - i,
        {
            if info.has_in_constraint(i) {
                info.handle_in_constraint(i, true);
                proof {
                    lemma_lists_before_bound(cs, i as int);
                    assert(assigned + 1 < 0x7fff_ffff);
                }
                info.set_argv_index(i, (assigned + 1) as i32);
                info.set_omit(i, true);
                assigned = assigned + 1;
            }
            i = i + 1;
        }
        info.set_estimated_cost_bits(COST_ONE_BITS);
        Ok(())
    }

    /// Open a fresh cursor over this live table instance. The engine may
    /// hold several cursors over one instance at once, each independent;
    /// every cursor must be positioned by `filter` before any other
    /// operation.
    pub fn open(&self) -> (r: Result<RowIdCursor, VTabError>)
        requires
            self.wf(),
        ensures
            r matches Ok(c) && c.wf() && c.row_count == self.row_count && !c.filtered
                && c.row_id == 0 && c.lists@.len() == 0,
    {
        Ok(RowIdCursor { row_count: self.row_count, row_id: 0, filtered: false, lists: Vec::new() })
    }
}

/// Whether every one of the given membership sets holds this rowid; with
/// no sets at all, every rowid passes.
pub open spec fn admits_row(lists: Seq<Vec<i64>>, r: i64) -> bool {
    forall|j: int| 0 <= j < lists.len() ==> lists[j]@.contains(r)
}

/// True when the vector holds this value.
fn contains_val(v: &Vec<i64>, x: i64) -> (b: bool)
    ensures
        b == v@.contains(x),
{
    let n = v.len();
    let mut i: usize = 0;
    while i < n
        invariant
            i <= n,
            n == v@.len(),
            forall|k: int| 0 <= k < i ==> v@[k] != x,
        decreases n - i,
    {
        if v[i] == x {
            return true;
        }
        i = i + 1;
    }
    false
}

impl RowIdCursor {
    /// The position never leaves the table: between 0 and the parent's
    /// row count.
    pub open spec fn wf(self) -> bool {
        0 <= self.row_count && 0 <= self.row_id <= self.row_count
    }

    /// Whether every membership set of the current scan admits this
    /// rowid; an unrestricted scan admits every one.
    pub open spec fn admits(self, r: i64) -> bool {
        admits_row(self.lists@, r)
    }

    /// The scan stands on an admitted row, or is exhausted.
    pub open spec fn positioned(self) -> bool {
        self.row_id == self.row_count || self.admits(self.row_id)
    }

    /// True when the scan has advanced past its last row.
    pub open spec fn exhausted(self) -> bool {
        self.row_id == self.row_count
    }

    /// Runtime check of [`Self::admits`].
    fn admitted(&self, r: i64) -> (b: bool)
        ensures
            b == self.admits(r),
    {
        let n = self.lists.len();
        let mut j: usize = 0;
        while j < n
            invariant
                j <= n,
                n == self.lists@.len(),
                forall|k: int| 0 <= k < j ==> self.lists@[k]@.contains(r),
            decreases n - j,
        {
            if !contains_val(&self.lists[j], r) {
                return false;
            }
            j = j + 1;
        }
        true
    }

    /// Advance to the first admitted rowid at or after the current
    /// position, or to the end of the table.
    fn seek(&mut self)
        requires
            old(self).wf(),
        ensures
            final(self).wf(),
            final(self).row_count == old(self).row_count,
            final(self).filtered == old(self).filtered,
            final(self).lists@ == old(self).lists@,
            old(self).row_id <= final(self).row_id,
            final(self).positioned(),
            forall|k: i64| old(self).row_id <= k < final(self).row_id
                ==> !final(self).admits(k),
    {
        while self.row_id < self.row_count && !self.admitted(self.row_id)
            invariant
                self.wf(),
                self.row_count == old(self).row_count,
                self.filtered == old(self).filtered,
                self.lists@ == old(self).lists@,
                old(self).row_id <= self.row_id,
                forall|k: i64| old(self).row_id <= k < self.row_id
                    ==> !admits_row(self.lists@, k),
            decreases self.row_count - self.row_id,
        {
            self.row_id = self.row_id + 1;
        }
    }

    /// (Re)initialize the cursor for a fresh scan.
    ///
    /// Runtime values arrive in the argument positions assigned at
    /// planning time; each constraint handled as a membership test whole
    /// arrives as a one-pass stream and is drained here — every value
    /// observed exactly once, in order — into one membership set of the
    /// scan. The cursor then stands on the first admitted rowid, with no
    /// admitted rowid below it, or is exhausted if there is none.
    pub fn filter(&mut self, _index_number: i32, _index_string: Option<&str>, args: FilterArgs)
        -> (r: Result<(), VTabError>)
        requires
            old(self).wf(),
        ensures
            r is Ok,
            final(self).wf(),
            final(self).filtered,
            final(self).row_count == old(self).row_count,
            final(self).lists@.len() == membership_lists(args.args@).len(),
            forall|j: int| 0 <= j < final(self).lists@.len()
                ==> final(self).lists@[j]@ == membership_lists(args.args@)[j],
            final(self).positioned(),
            forall|k: i64| 0 <= k < final(self).row_id ==> !final(self).admits(k),
    {
        let mut rest = args.args;
        let ghost orig: Seq<FilterArg> = rest@;
        let mut lists: Vec<Vec<i64>> = Vec::new();
        let ghost mut done: int = 0;
        proof {
            assert(rest@ =~= orig.skip(0));
            assert(orig.take(0) =~= Seq::<FilterArg>::empty());
        }
        while rest.len() > 0
            invariant
                0 <= done <= orig.len(),
                rest@ == orig.skip(done),
                rest@.len() == orig.len() - done,
                lists@.len() == membership_lists(orig.take(done)).len(),
                forall|j: int| 0 <= j < lists@.len()
                    ==> lists@[j]@ == membership_lists(orig.take(done))[j],
            decreases rest@.len(),
        {
            let a = rest.remove(0);
            proof {
                assert(a == orig[done]);
                assert(rest@ =~= orig.skip(done + 1));
            }
            match a {
                FilterArg::List(mut s) => {
                    let vals = collect_values(&mut s);
                    lists.push(vals);
                },
                FilterArg::Scalar(_) => {},
            }
            proof {
                assert(orig.take(done + 1).drop_last() =~= orig.take(done));
                assert(orig.take(done + 1).last() == orig[done]);
                done = done + 1;
            }
        }
        proof {
            assert(orig.take(done) =~= orig);
        }
        self.lists = lists;
        self.row_id = 0;
        self.filtered = true;
        self.seek();
        Ok(())
    }

    /// Advance position by one logical row: to the next admitted rowid,
    /// or past the last row. The engine calls this only while `eof` is
    /// false; a call on an exhausted scan is outside the protocol and
    /// excluded by contract.
    pub fn next(&mut self) -> (r: Result<(), VTabError>)
        requires
            old(self).wf(),
            old(self).filtered,
            !old(self).exhausted(),
        ensures
            r is Ok,
            final(self).wf(),
            final(self).filtered,
            final(self).row_count == old(self).row_count,
            final(self).lists@ == old(self).lists@,
            old(self).row_id < final(self).row_id,
            final(self).positioned(),
            forall|k: i64| old(self).row_id < k < final(self).row_id
                ==> !final(self).admits(k),
    {
        self.row_id = self.row_id + 1;
        self.seek();
        Ok(())
    }

    /// End-of-data test: true iff the scan has advanced past the last row
    /// of its current scan. Pure; mutates nothing.
    pub fn eof(&self) -> (b: bool)
        requires
            self.wf(),
            self.filtered,
        ensures
            b == self.exhausted(),
    {
        self.row_id == self.row_count
    }

    /// Materialize the single exposed column of the current row into the
    /// result slot: its value is the rowid itself. The cursor is not
    /// mutated.
    pub fn column(&self, ctx: &mut ResultContext, _column_index: i32)
        -> (r: Result<(), VTabError>)
        requires
            self.wf(),
            self.filtered,
            !self.exhausted(),
        ensures
            r is Ok,
            final(ctx).slot == Some(ResultAction::SetInteger(self.row_id)),
            final(ctx).args_len == old(ctx).args_len,
            final(ctx).unchanged == old(ctx).unchanged,
    {
        ctx.set_result(Value::Integer(self.row_id));
        Ok(())
    }

    /// The stable 64-bit identity of the current row; meaningful only
    /// while the scan stands on a row.
    pub fn rowid(&self) -> (r: Result<i64, VTabError>)
        requires
            self.wf(),
            self.filtered,
            !self.exhausted(),
        ensures
            r == Ok::<i64, VTabError>(self.row_id),
    {
        Ok(self.row_id)
    }
}

} // verus!
