//! The account list: section headings interleaved with account rows, the
//! diff that brings the store from one row sequence to another, and the order
//! of the account column.

use crate::account::copy_optional;
use crate::account::AccountId;
use crate::account::AccountKindSummary;
use crate::account::AccountRowModel;
use crate::row_item::RowItem;
use crate::row_item::RowKind;
use crate::text::compare_text;
use crate::text::differing_texts_are_ordered;
use crate::text::lowercase;
use crate::text::optional_text;
use crate::text::same_text;
use crate::text::text_before;
use crate::text::text_order_is_total;
use crate::text::text_order_is_transitive;
use crate::text::to_lowercase;
use std::cmp::Ordering;
use vstd::laws_eq::obeys_view_eq;
use vstd::prelude::*;
use vstd::std_specs::cmp::PartialEqSpec;

verus! {

/// One splice of the store.
///
/// Positions count in the store as it stands after every earlier operation
/// of the same plan.
#[derive(Clone, Debug, PartialEq, Eq)]
pub enum SpliceOp {
    /// Remove `n_remove` consecutive items at `position`.
    Remove {
        /// Position in the running store.
        position: u32,
        /// Number of items to remove.
        n_remove: u32,
    },
    /// Insert items at `position`.
    Insert {
        /// Position in the running store.
        position: u32,
        /// Positions, in the new sequence, of the items to insert.
        indices: Vec<usize>,
    },
}

/// A splice in mathematical terms.
pub enum SpliceStep {
    /// Remove `count` consecutive items at `position`.
    Remove { position: int, count: int },
    /// Insert the items `from`, `from + 1`, .. `upto - 1` of the new sequence
    /// at `position`.
    Insert { position: int, from: int, upto: int },
}

/// The indices `from`, `from + 1`, .. `upto - 1`.
pub open spec fn index_range(from: int, upto: int) -> Seq<usize> {
    Seq::new((upto - from) as nat, |i: int| (from + i) as usize)
}

/// Whether `op` is the executable form of `step`.
pub open spec fn op_is(op: SpliceOp, step: SpliceStep) -> bool {
    match (op, step) {
        (
            SpliceOp::Remove { position, n_remove },
            SpliceStep::Remove { position: p, count },
        ) => position == p && n_remove == count,
        (
            SpliceOp::Insert { position, indices },
            SpliceStep::Insert { position: p, from, upto },
        ) => position == p && indices@ == index_range(from, upto),
        _ => false,
    }
}

/// Whether `ops` is the executable form of `steps`.
pub open spec fn ops_are(ops: Seq<SpliceOp>, steps: Seq<SpliceStep>) -> bool {
    &&& ops.len() == steps.len()
    &&& forall|i: int| 0 <= i < ops.len() ==> op_is(#[trigger] ops[i], steps[i])
}

/// How many consecutive elements of `items`, from `from` on, do not occur in
/// `others`.
pub open spec fn absent_run<V>(items: Seq<V>, others: Seq<V>, from: int) -> int
    decreases items.len() - from,
{
    if 0 <= from < items.len() && !others.contains(items[from]) {
        1 + absent_run(items, others, from + 1)
    } else {
        0
    }
}

/// The plan from the cursor (`o` in `old`, `n` in `new`) on: equal elements
/// are stepped over; a run of old elements that `new` lacks is one removal; a
/// run of new elements that `old` lacks is one insertion; where neither
/// helps, the elements were reordered and the tail is rebuilt.
pub open spec fn plan_from<V>(old: Seq<V>, new: Seq<V>, o: int, n: int) -> Seq<SpliceStep>
    decreases old.len() - o + new.len() - n,
{
    if o < 0 || n < 0 || o > old.len() || n > new.len() {
        Seq::empty()
    } else if o < old.len() && n < new.len() && old[o] == new[n] {
        plan_from(old, new, o + 1, n + 1)
    } else if o == old.len() && n == new.len() {
        Seq::empty()
    } else {
        let gone = absent_run(old, new, o);
        let fresh = absent_run(new, old, n);
        if gone > 0 {
            if o + gone <= old.len() {
                seq![SpliceStep::Remove { position: n, count: gone }] + plan_from(
                    old,
                    new,
                    o + gone,
                    n,
                )
            } else {
                Seq::empty()
            }
        } else if fresh > 0 {
            if n + fresh <= new.len() {
                seq![SpliceStep::Insert { position: n, from: n, upto: n + fresh }] + plan_from(
                    old,
                    new,
                    o,
                    n + fresh,
                )
            } else {
                Seq::empty()
            }
        } else {
            tail_rebuild(old, new, o, n)
        }
    }
}

/// Removal of everything from the cursor on, then insertion of the rest of
/// `new`; an empty removal or insertion is left out.
pub open spec fn tail_rebuild<V>(old: Seq<V>, new: Seq<V>, o: int, n: int) -> Seq<SpliceStep> {
    (if o < old.len() {
        seq![SpliceStep::Remove { position: n, count: old.len() - o }]
    } else {
        Seq::empty()
    }) + (if n < new.len() {
        seq![SpliceStep::Insert { position: n, from: n, upto: new.len() as int }]
    } else {
        Seq::empty()
    })
}

/// The plan that brings a store holding `old` to `new`.
pub open spec fn plan<V>(old: Seq<V>, new: Seq<V>) -> Seq<SpliceStep> {
    plan_from(old, new, 0, 0)
}

/// Whether `step` stays within a store of `len` items and a new sequence of
/// `rows` items.
pub open spec fn step_in_range(step: SpliceStep, len: int, rows: int) -> bool {
    match step {
        SpliceStep::Remove { position, count } => 0 <= position && 0 < count && position + count
            <= len,
        SpliceStep::Insert { position, from, upto } => 0 <= position <= len && 0 <= from < upto
            <= rows,
    }
}

/// The store after `step`, where `added` holds the items that stand for the
/// new sequence.
pub open spec fn apply_step<T>(store: Seq<T>, added: Seq<T>, step: SpliceStep) -> Seq<T> {
    match step {
        SpliceStep::Remove { position, count } => store.subrange(0, position) + store.subrange(
            position + count,
            store.len() as int,
        ),
        SpliceStep::Insert { position, from, upto } => store.subrange(0, position)
            + added.subrange(from, upto) + store.subrange(position, store.len() as int),
    }
}

/// The store after every step in turn.
pub open spec fn run_plan<T>(store: Seq<T>, added: Seq<T>, steps: Seq<SpliceStep>) -> Seq<T>
    decreases steps.len(),
{
    if steps.len() == 0 {
        store
    } else {
        run_plan(apply_step(store, added, steps[0]), added, steps.drop_first())
    }
}

/// Whether every step stays within the store as it stands when it runs.
pub open spec fn plan_in_range<T>(store: Seq<T>, added: Seq<T>, steps: Seq<SpliceStep>) -> bool
    decreases steps.len(),
{
    steps.len() == 0 || {
        &&& step_in_range(steps[0], store.len() as int, added.len() as int)
        &&& plan_in_range(apply_step(store, added, steps[0]), added, steps.drop_first())
    }
}

proof fn lemma_absent_run<V>(items: Seq<V>, others: Seq<V>, from: int)
    requires
        0 <= from <= items.len(),
    ensures
        0 <= absent_run(items, others, from) <= items.len() - from,
        forall|i: int|
            from <= i < from + absent_run(items, others, from) ==> !others.contains(
                #[trigger] items[i],
            ),
        from + absent_run(items, others, from) < items.len() ==> others.contains(
            items[from + absent_run(items, others, from)],
        ),
    decreases items.len() - from,
{
    if from < items.len() && !others.contains(items[from]) {
        lemma_absent_run(items, others, from + 1);
    }
}

/// A run of absent elements that ends at the first present one has that
/// length.
proof fn lemma_absent_run_is<V>(items: Seq<V>, others: Seq<V>, from: int, k: int)
    requires
        0 <= from,
        0 <= k,
        from + k <= items.len(),
        forall|i: int| from <= i < from + k ==> !others.contains(#[trigger] items[i]),
        from + k < items.len() ==> others.contains(items[from + k]),
    ensures
        absent_run(items, others, from) == k,
    decreases k,
{
    if k > 0 {
        assert(!others.contains(items[from]));
        lemma_absent_run_is(items, others, from + 1, k - 1);
    }
}

/// Running a plan on items that stand for the elements: where an old and a
/// new element are equal, their items are.
proof fn lemma_plan_from_carries<V, T>(
    old: Seq<V>,
    new: Seq<V>,
    held: Seq<T>,
    added: Seq<T>,
    o: int,
    n: int,
)
    requires
        0 <= o <= old.len(),
        0 <= n <= new.len(),
        held.len() == old.len(),
        added.len() == new.len(),
        forall|i: int, j: int|
            #![trigger held[i], added[j]]
            0 <= i < old.len() && 0 <= j < new.len() && old[i] == new[j] ==> held[i] == added[j],
    ensures
        plan_in_range(
            added.subrange(0, n) + held.subrange(o, held.len() as int),
            added,
            plan_from(old, new, o, n),
        ),
        run_plan(
            added.subrange(0, n) + held.subrange(o, held.len() as int),
            added,
            plan_from(old, new, o, n),
        ) == added,
    decreases old.len() - o + new.len() - n,
{
    let store = added.subrange(0, n) + held.subrange(o, held.len() as int);
    let steps = plan_from(old, new, o, n);
    if o < old.len() && n < new.len() && old[o] == new[n] {
        lemma_plan_from_carries(old, new, held, added, o + 1, n + 1);
        assert(held[o] == added[n]);
        assert(store =~= added.subrange(0, n + 1) + held.subrange(o + 1, held.len() as int));
    } else if o == old.len() && n == new.len() {
        assert(store =~= added);
    } else {
        lemma_absent_run(old, new, o);
        lemma_absent_run(new, old, n);
        let gone = absent_run(old, new, o);
        let fresh = absent_run(new, old, n);
        if gone > 0 {
            let step = SpliceStep::Remove { position: n, count: gone };
            lemma_plan_from_carries(old, new, held, added, o + gone, n);
            assert(apply_step(store, added, step) =~= added.subrange(0, n) + held.subrange(
                o + gone,
                held.len() as int,
            ));
            assert(steps.drop_first() =~= plan_from(old, new, o + gone, n));
        } else if fresh > 0 {
            let step = SpliceStep::Insert { position: n, from: n, upto: n + fresh };
            lemma_plan_from_carries(old, new, held, added, o, n + fresh);
            assert(apply_step(store, added, step) =~= added.subrange(0, n + fresh) + held.subrange(
                o,
                held.len() as int,
            ));
            assert(steps.drop_first() =~= plan_from(old, new, o, n + fresh));
        } else {
            reveal_with_fuel(run_plan, 3);
            reveal_with_fuel(plan_in_range, 3);
            let cut = added.subrange(0, n);
            let last = SpliceStep::Insert { position: n, from: n, upto: new.len() as int };
            assert(cut.subrange(0, n) + added.subrange(n, added.len() as int) + cut.subrange(n, n)
                =~= added);
            if o < old.len() {
                let first = SpliceStep::Remove { position: n, count: old.len() - o };
                assert(steps[0] == first);
                assert(apply_step(store, added, first) =~= cut);
                if n < new.len() {
                    assert(steps.drop_first() =~= seq![last]);
                } else {
                    assert(steps.drop_first() =~= Seq::<SpliceStep>::empty());
                    assert(cut =~= added);
                }
            } else {
                assert(steps =~= seq![last]);
                assert(store =~= cut);
            }
        }
    }
}

/// Running the plan of `old` and `new` on a store that holds `old` gives
/// `new`, and no step reaches outside the store.
pub proof fn plan_reaches_new<V>(old: Seq<V>, new: Seq<V>)
    ensures
        plan_in_range(old, new, plan(old, new)),
        run_plan(old, new, plan(old, new)) == new,
{
    lemma_plan_from_carries(old, new, old, new, 0, 0);
    assert(new.subrange(0, 0) + old.subrange(0, old.len() as int) =~= old);
}

/// A store that already holds the new sequence needs no splice.
pub proof fn plan_of_equal_is_empty<V>(rows: Seq<V>)
    ensures
        plan(rows, rows).len() == 0,
{
    lemma_plan_from_equal(rows, 0);
}

proof fn lemma_plan_from_equal<V>(rows: Seq<V>, k: int)
    requires
        0 <= k <= rows.len(),
    ensures
        plan_from(rows, rows, k, k).len() == 0,
    decreases rows.len() - k,
{
    if k < rows.len() {
        lemma_plan_from_equal(rows, k + 1);
    }
}

/// What both sequences begin with is not touched.
pub proof fn common_beginning_stays<V>(old: Seq<V>, new: Seq<V>, k: int, i: int)
    requires
        0 <= k <= old.len(),
        k <= new.len(),
        forall|j: int| 0 <= j < k ==> #[trigger] old[j] == new[j],
        0 <= i < plan(old, new).len(),
    ensures
        match plan(old, new)[i] {
            SpliceStep::Remove { position, .. } => position >= k,
            SpliceStep::Insert { position, .. } => position >= k,
        },
{
    lemma_plan_skips(old, new, 0, k);
    lemma_plan_positions(old, new, k, k, i);
}

proof fn lemma_plan_skips<V>(old: Seq<V>, new: Seq<V>, from: int, k: int)
    requires
        0 <= from <= k <= old.len(),
        k <= new.len(),
        forall|j: int| 0 <= j < k ==> #[trigger] old[j] == new[j],
    ensures
        plan_from(old, new, from, from) == plan_from(old, new, k, k),
    decreases k - from,
{
    if from < k {
        assert(old[from] == new[from]);
        lemma_plan_skips(old, new, from + 1, k);
    }
}

proof fn lemma_plan_positions<V>(old: Seq<V>, new: Seq<V>, o: int, n: int, i: int)
    requires
        0 <= o <= old.len(),
        0 <= n <= new.len(),
        0 <= i < plan_from(old, new, o, n).len(),
    ensures
        match plan_from(old, new, o, n)[i] {
            SpliceStep::Remove { position, .. } => position >= n,
            SpliceStep::Insert { position, .. } => position >= n,
        },
    decreases old.len() - o + new.len() - n,
{
    if o < old.len() && n < new.len() && old[o] == new[n] {
        lemma_plan_positions(old, new, o + 1, n + 1, i);
    } else if o == old.len() && n == new.len() {
    } else {
        lemma_absent_run(old, new, o);
        lemma_absent_run(new, old, n);
        let gone = absent_run(old, new, o);
        let fresh = absent_run(new, old, n);
        if gone > 0 {
            if i > 0 {
                lemma_plan_positions(old, new, o + gone, n, i - 1);
            }
        } else if fresh > 0 {
            if i > 0 {
                lemma_plan_positions(old, new, o, n + fresh, i - 1);
            }
        }
    }
}

/// The store after every executable splice in turn.
pub open spec fn run_ops<T>(store: Seq<T>, added: Seq<T>, ops: Seq<SpliceOp>) -> Seq<T>
    decreases ops.len(),
{
    if ops.len() == 0 {
        store
    } else {
        run_ops(
            match ops[0] {
                SpliceOp::Remove { position, n_remove } => store.subrange(0, position as int)
                    + store.subrange(position + n_remove, store.len() as int),
                SpliceOp::Insert { position, indices } => store.subrange(0, position as int)
                    + Seq::new(indices@.len(), |i: int| added[indices@[i] as int])
                    + store.subrange(position as int, store.len() as int),
            },
            added,
            ops.drop_first(),
        )
    }
}

proof fn lemma_run_ops<T>(store: Seq<T>, added: Seq<T>, ops: Seq<SpliceOp>, steps: Seq<SpliceStep>)
    requires
        ops_are(ops, steps),
        plan_in_range(store, added, steps),
        added.len() <= usize::MAX,
    ensures
        run_ops(store, added, ops) == run_plan(store, added, steps),
    decreases ops.len(),
{
    if ops.len() > 0 {
        assert(op_is(ops[0], steps[0]));
        let rest = ops.drop_first();
        assert forall|i: int| 0 <= i < rest.len() implies op_is(
            #[trigger] rest[i],
            steps.drop_first()[i],
        ) by {
            assert(op_is(ops[i + 1], steps[i + 1]));
        }
        let next = apply_step(store, added, steps[0]);
        if let SpliceOp::Insert { position, indices } = ops[0] {
            let from = steps[0]->from;
            let upto = steps[0]->upto;
            assert(Seq::new(indices@.len(), |i: int| added[indices@[i] as int])
                =~= added.subrange(from, upto));
        }
        lemma_run_ops(next, added, rest, steps.drop_first());
    }
}

/// The splices that are computed bring a store that holds `old` to `new`.
pub proof fn splices_reach_new<V>(old: Seq<V>, new: Seq<V>, ops: Seq<SpliceOp>)
    requires
        new.len() <= usize::MAX,
        ops_are(ops, plan(old, new)),
    ensures
        run_ops(old, new, ops) == new,
{
    plan_reaches_new(old, new);
    lemma_run_ops(old, new, ops, plan(old, new));
}

/// Whether the elements that `old` and `new` share come in the same order in
/// both, each of them once.
pub open spec fn same_relative_order<V>(old: Seq<V>, new: Seq<V>) -> bool {
    forall|i: int, j: int, k: int, l: int|
        #![trigger old[i], new[j], old[k], new[l]]
        0 <= i < old.len() && 0 <= j < new.len() && 0 <= k < old.len() && 0 <= l < new.len()
            && old[i] == new[j] && old[k] == new[l] ==> ((i < k) == (j < l))
}

/// Whether no step removes an item that `new` keeps or inserts an item that
/// `old` had.
pub open spec fn churns_only_changes<V>(
    store: Seq<V>,
    old: Seq<V>,
    new: Seq<V>,
    steps: Seq<SpliceStep>,
) -> bool
    decreases steps.len(),
{
    steps.len() == 0 || {
        &&& match steps[0] {
            SpliceStep::Remove { position, count } => forall|i: int|
                position <= i < position + count ==> !new.contains(#[trigger] store[i]),
            SpliceStep::Insert { from, upto, .. } => forall|i: int|
                from <= i < upto ==> !old.contains(#[trigger] new[i]),
        }
        &&& churns_only_changes(
            apply_step(store, new, steps[0]),
            old,
            new,
            steps.drop_first(),
        )
    }
}

proof fn lemma_plan_from_churn<V>(old: Seq<V>, new: Seq<V>, o: int, n: int)
    requires
        0 <= o <= old.len(),
        0 <= n <= new.len(),
        same_relative_order(old, new),
        forall|i: int, j: int|
            #![trigger old[i], new[j]]
            0 <= i < old.len() && 0 <= j < new.len() && old[i] == new[j] ==> ((i < o) == (j < n)),
    ensures
        churns_only_changes(
            new.subrange(0, n) + old.subrange(o, old.len() as int),
            old,
            new,
            plan_from(old, new, o, n),
        ),
    decreases old.len() - o + new.len() - n,
{
    let store = new.subrange(0, n) + old.subrange(o, old.len() as int);
    let steps = plan_from(old, new, o, n);
    if o < old.len() && n < new.len() && old[o] == new[n] {
        assert forall|i: int, j: int|
            #![trigger old[i], new[j]]
            0 <= i < old.len() && 0 <= j < new.len() && old[i] == new[j] implies ((i < o + 1) == (j
            < n + 1)) by {
            assert(old[i] == new[j] && old[o] == new[n]);
        }
        lemma_plan_from_churn(old, new, o + 1, n + 1);
        assert(store =~= new.subrange(0, n + 1) + old.subrange(o + 1, old.len() as int));
    } else if o == old.len() && n == new.len() {
    } else {
        lemma_absent_run(old, new, o);
        lemma_absent_run(new, old, n);
        let gone = absent_run(old, new, o);
        let fresh = absent_run(new, old, n);
        if gone > 0 {
            assert forall|i: int, j: int|
                #![trigger old[i], new[j]]
                0 <= i < old.len() && 0 <= j < new.len() && old[i] == new[j] implies ((i < o
                + gone) == (j < n)) by {
                if o <= i < o + gone {
                    assert(!new.contains(old[i]));
                }
            }
            let step = SpliceStep::Remove { position: n, count: gone };
            lemma_plan_from_churn(old, new, o + gone, n);
            assert(apply_step(store, new, step) =~= new.subrange(0, n) + old.subrange(
                o + gone,
                old.len() as int,
            ));
            assert(steps.drop_first() =~= plan_from(old, new, o + gone, n));
            assert forall|i: int| n <= i < n + gone implies !new.contains(#[trigger] store[i]) by {
                assert(store[i] == old[o + i - n]);
            }
        } else if fresh > 0 {
            assert forall|i: int, j: int|
                #![trigger old[i], new[j]]
                0 <= i < old.len() && 0 <= j < new.len() && old[i] == new[j] implies ((i < o) == (j
                < n + fresh)) by {
                if n <= j < n + fresh {
                    assert(!old.contains(new[j]));
                }
            }
            let step = SpliceStep::Insert { position: n, from: n, upto: n + fresh };
            lemma_plan_from_churn(old, new, o, n + fresh);
            assert(apply_step(store, new, step) =~= new.subrange(0, n + fresh) + old.subrange(
                o,
                old.len() as int,
            ));
            assert(steps.drop_first() =~= plan_from(old, new, o, n + fresh));
        } else {
            // With one order shared by both, some run always advances.
            if o < old.len() {
                assert(new.contains(old[o]));
                let j = choose|j: int| 0 <= j < new.len() && new[j] == old[o];
                assert(old[o] == new[j]);
                assert(old.contains(new[n]));
                let i = choose|i: int| 0 <= i < old.len() && old[i] == new[n];
                assert(old[i] == new[n]);
                assert((o < i) == (j < n));
                assert((i < o) == (n < j));
            } else {
                assert(old.contains(new[n]));
                let i = choose|i: int| 0 <= i < old.len() && old[i] == new[n];
                assert(old[i] == new[n]);
            }
            assert(false);
        }
    }
}

/// Where the surviving rows keep their order, the plan touches only rows that
/// changed: it removes none that stays and inserts none that was there.
pub proof fn plan_touches_only_changes<V>(old: Seq<V>, new: Seq<V>)
    requires
        same_relative_order(old, new),
    ensures
        churns_only_changes(old, old, new, plan(old, new)),
{
    lemma_plan_from_churn(old, new, 0, 0);
    assert(new.subrange(0, 0) + old.subrange(0, old.len() as int) =~= old);
}

/// The views of a sequence's elements.
pub open spec fn views<K: View>(items: Seq<K>) -> Seq<K::V> {
    Seq::new(items.len(), |i: int| items[i]@)
}

/// Whether `key` equals an element of `keys`.
fn contains_key<K: PartialEq + View>(keys: &[K], key: &K) -> (r: bool)
    requires
        obeys_view_eq::<K>(),
    ensures
        r == views(keys@).contains(key@),
{
    proof {
        reveal(obeys_view_eq);
    }
    let mut i: usize = 0;
    while i < keys.len()
        invariant
            i <= keys.len(),
            obeys_view_eq::<K>(),
            forall|k: int| 0 <= k < i ==> (#[trigger] keys@[k])@ != key@,
        decreases keys.len() - i,
    {
        proof {
            reveal(obeys_view_eq);
        }
        if keys[i] == *key {
            assert(views(keys@)[i as int] == key@);
            return true;
        }
        i = i + 1;
    }
    assert forall|k: int| 0 <= k < views(keys@).len() implies views(keys@)[k] != key@ by {
        assert(keys@[k]@ != key@);
    }
    false
}

/// The indices `from`, `from + 1`, .. `upto - 1`.
fn index_vec(from: usize, upto: usize) -> (v: Vec<usize>)
    requires
        from <= upto,
    ensures
        v@ == index_range(from as int, upto as int),
{
    let mut v: Vec<usize> = Vec::new();
    let mut i: usize = from;
    while i < upto
        invariant
            from <= i <= upto,
            v@ == index_range(from as int, i as int),
        decreases upto - i,
    {
        v.push(i);
        i = i + 1;
        assert(v@ =~= index_range(from as int, i as int));
    }
    v
}

/// The number of consecutive elements of `items`, from `from` on, that do not
/// occur in `others`.
fn count_absent<K: PartialEq + View>(items: &[K], others: &[K], from: usize) -> (r: usize)
    requires
        obeys_view_eq::<K>(),
        from <= items.len(),
    ensures
        r == absent_run(views(items@), views(others@), from as int),
        from + r <= items.len(),
{
    let mut r: usize = 0;
    while from + r < items.len() && !contains_key(others, &items[from + r])
        invariant
            obeys_view_eq::<K>(),
            from + r <= items.len(),
            forall|i: int|
                from <= i < from + r ==> !views(others@).contains(#[trigger] views(items@)[i]),
        decreases items.len() - r,
    {
        r = r + 1;
    }
    proof {
        lemma_absent_run_is(views(items@), views(others@), from as int, r as int);
    }
    r
}

/// Computes the splices that bring a store holding `old` to `new`.
///
/// Runs of removed and of inserted items are coalesced. Positions fit in 32
/// bits because a store cannot hold more items than that.
pub fn splice_plan<K: PartialEq + View>(old: &[K], new: &[K]) -> (ops: Vec<SpliceOp>)
    requires
        obeys_view_eq::<K>(),
        old.len() <= u32::MAX,
        new.len() <= u32::MAX,
    ensures
        ops_are(ops@, plan(views(old@), views(new@))),
        run_ops(views(old@), views(new@), ops@) == views(new@),
{
    let ghost a = views(old@);
    let ghost b = views(new@);
    let mut ops: Vec<SpliceOp> = Vec::new();
    let ghost mut done: Seq<SpliceStep> = Seq::empty();
    let mut o: usize = 0;
    let mut n: usize = 0;
    assert(done + plan_from(a, b, 0, 0) =~= plan(a, b));
    loop
        invariant_except_break
            ops_are(ops@, done),
            done + plan_from(a, b, o as int, n as int) == plan(a, b),
        invariant
            obeys_view_eq::<K>(),
            old.len() <= u32::MAX,
            new.len() <= u32::MAX,
            a == views(old@),
            b == views(new@),
            o <= old.len(),
            n <= new.len(),
        ensures
            ops_are(ops@, plan(a, b)),
        decreases old.len() - o + new.len() - n,
    {
        if o < old.len() && n < new.len() && cursors_match(old, o, new, n) {
            o = o + 1;
            n = n + 1;
            continue;
        }
        if o == old.len() && n == new.len() {
            assert(done =~= plan(a, b));
            break;
        }
        let position: u32 = n as u32;
        let remove_count: usize = count_absent(old, new, o);
        if remove_count > 0 {
            proof {
                let step = SpliceStep::Remove { position: n as int, count: remove_count as int };
                assert(plan_from(a, b, o as int, n as int) == seq![step] + plan_from(
                    a,
                    b,
                    o + remove_count,
                    n as int,
                ));
                assert(done.push(step) + plan_from(a, b, o + remove_count, n as int) =~= done + (
                seq![step] + plan_from(a, b, o + remove_count, n as int)));
                done = done.push(step);
            }
            ops.push(SpliceOp::Remove { position, n_remove: remove_count as u32 });
            o = o + remove_count;
            continue;
        }
        let insert_count: usize = count_absent(new, old, n);
        if insert_count > 0 {
            proof {
                let step = SpliceStep::Insert {
                    position: n as int,
                    from: n as int,
                    upto: n + insert_count,
                };
                assert(plan_from(a, b, o as int, n as int) == seq![step] + plan_from(
                    a,
                    b,
                    o as int,
                    n + insert_count,
                ));
                assert(done.push(step) + plan_from(a, b, o as int, n + insert_count) =~= done + (
                seq![step] + plan_from(a, b, o as int, n + insert_count)));
                done = done.push(step);
            }
            ops.push(SpliceOp::Insert { position, indices: index_vec(n, n + insert_count) });
            n = n + insert_count;
            continue;
        }
        // Both cursors stand on items that the other sequence holds elsewhere:
        // rebuild the tail.
        assert(plan_from(a, b, o as int, n as int) == tail_rebuild(a, b, o as int, n as int));
        if o < old.len() {
            ops.push(SpliceOp::Remove { position, n_remove: (old.len() - o) as u32 });
            proof {
                done = done.push(SpliceStep::Remove { position: n as int, count: old.len() - o });
            }
        }
        if n < new.len() {
            ops.push(SpliceOp::Insert { position, indices: index_vec(n, new.len()) });
            proof {
                done = done.push(
                    SpliceStep::Insert {
                        position: n as int,
                        from: n as int,
                        upto: new.len() as int,
                    },
                );
            }
        }
        assert(done =~= plan(a, b));
        break;
    }
    proof {
        splices_reach_new(a, b, ops@);
    }
    ops
}

/// Whether the elements at the two cursors are equal.
fn cursors_match<K: PartialEq + View>(old: &[K], o: usize, new: &[K], n: usize) -> (r: bool)
    requires
        obeys_view_eq::<K>(),
        o < old.len(),
        n < new.len(),
    ensures
        r == (views(old@)[o as int] == views(new@)[n as int]),
{
    proof {
        reveal(obeys_view_eq);
    }
    old[o] == new[n]
}

/// Stable identity of a row of the store.
#[derive(Debug, Eq, Hash)]
pub enum RowKey {
    /// Account row, by its account.
    Account(AccountId),
    /// Section heading, by its text.
    Section(String),
}

/// A row identity in mathematical terms.
pub enum RowKeyView {
    /// Account row.
    Account(AccountId),
    /// Section heading.
    Section(Seq<char>),
}

impl View for RowKey {
    type V = RowKeyView;

    open spec fn view(&self) -> RowKeyView {
        match self {
            RowKey::Account(id) => RowKeyView::Account(*id),
            RowKey::Section(title) => RowKeyView::Section(title@),
        }
    }
}

impl PartialEq for RowKey {
    fn eq(&self, other: &Self) -> (r: bool) {
        match (self, other) {
            (RowKey::Account(a), RowKey::Account(b)) => *a == *b,
            (RowKey::Section(a), RowKey::Section(b)) => *a == *b,
            _ => false,
        }
    }
}

impl vstd::std_specs::cmp::PartialEqSpecImpl for RowKey {
    open spec fn obeys_eq_spec() -> bool {
        true
    }

    open spec fn eq_spec(&self, other: &Self) -> bool {
        self@ == other@
    }
}

impl Clone for RowKey {
    fn clone(&self) -> (r: Self)
        ensures
            r == *self,
    {
        match self {
            RowKey::Account(id) => RowKey::Account(*id),
            RowKey::Section(title) => RowKey::Section(title.clone()),
        }
    }
}

/// The identity of a live row; a row that is not seeded has none.
pub open spec fn row_key(item: RowItem) -> Option<RowKey> {
    match item.kind {
        RowKind::Section(title) => Some(RowKey::Section(title)),
        RowKind::Account => match item.id {
            Some(id) => Some(RowKey::Account(id)),
            None => None,
        },
    }
}

impl RowKey {
    /// The identity of a live row; a row that is not seeded has none.
    pub fn from_row_item(item: &RowItem) -> (r: Option<Self>)
        ensures
            r == row_key(*item),
    {
        match &item.kind {
            RowKind::Section(title) => Some(RowKey::Section(title.clone())),
            RowKind::Account => match item.id {
                Some(id) => Some(RowKey::Account(id)),
                None => None,
            },
        }
    }
}

/// One position of the interleaved row sequence.
#[derive(Clone, Debug, PartialEq, Eq)]
pub enum InterleavedRow {
    /// Section heading.
    Section(String),
    /// Account row, by its position among the rows.
    Account(usize),
}

/// An interleaved position in mathematical terms.
pub enum InterleavedView {
    /// Section heading.
    Section(Seq<char>),
    /// Account row.
    Account(int),
}

impl View for InterleavedRow {
    type V = InterleavedView;

    open spec fn view(&self) -> InterleavedView {
        match self {
            InterleavedRow::Section(title) => InterleavedView::Section(title@),
            InterleavedRow::Account(i) => InterleavedView::Account(*i as int),
        }
    }
}

/// The first `k` rows with their headings: row `i` is preceded by
/// `headers[i]` where headings are shown and the row starts a group.
pub open spec fn interleaved(headers: Seq<Option<String>>, show: bool, k: int) -> Seq<
    InterleavedView,
>
    decreases k,
{
    if k <= 0 {
        Seq::empty()
    } else {
        let before = interleaved(headers, show, k - 1);
        let headed = match headers[k - 1] {
            Some(title) if show => before.push(InterleavedView::Section(title@)),
            _ => before,
        };
        headed.push(InterleavedView::Account(k - 1))
    }
}

/// Interleaves section headings with the account rows.
///
/// `headers[i]` is the heading of the group that row `i` starts, `None` where
/// the row continues the group before it.
pub fn interleave_section_headers(
    headers: &[Option<String>],
    show_section_headers: bool,
) -> (out: Vec<InterleavedRow>)
    ensures
        views(out@) == interleaved(headers@, show_section_headers, headers@.len() as int),
{
    let mut out: Vec<InterleavedRow> = Vec::new();
    let mut i: usize = 0;
    while i < headers.len()
        invariant
            i <= headers.len(),
            views(out@) == interleaved(headers@, show_section_headers, i as int),
        decreases headers.len() - i,
    {
        let ghost before = views(out@);
        if show_section_headers {
            if let Some(title) = &headers[i] {
                out.push(InterleavedRow::Section(title.clone()));
                assert(views(out@) =~= before.push(InterleavedView::Section(title@)));
            }
        }
        let ghost headed = views(out@);
        out.push(InterleavedRow::Account(i));
        i = i + 1;
        assert(views(out@) =~= headed.push(InterleavedView::Account(i - 1)));
    }
    out
}

/// The heading of the group that row `i` starts: its issuer, where it has one
/// and the row before has another.
pub open spec fn heading_at(rows: Seq<AccountRowModel>, i: int) -> Option<Seq<char>> {
    let issuer = optional_text(rows[i].issuer);
    if i > 0 && optional_text(rows[i - 1].issuer) == issuer {
        None
    } else {
        issuer
    }
}

/// The rows of one issuer that follow one another have one heading, that of
/// the first; rows without an issuer have none.
pub proof fn one_heading_for_each_run(rows: Seq<AccountRowModel>, i: int)
    requires
        0 <= i < rows.len(),
    ensures
        heading_at(rows, i) matches Some(title) ==> rows[i].issuer is Some && rows[i].issuer->0@
            == title,
        rows[i].issuer is None ==> heading_at(rows, i) is None,
        i == 0 && rows[i].issuer is Some ==> heading_at(rows, i) is Some,
        i > 0 && rows[i].issuer is Some ==> (heading_at(rows, i) is None <==> (rows[i
            - 1].issuer is Some && rows[i - 1].issuer->0@ == rows[i].issuer->0@)),
{
}

/// The headings of the groups that the rows start.
pub fn section_headers(rows: &[AccountRowModel]) -> (out: Vec<Option<String>>)
    ensures
        out@.len() == rows@.len(),
        forall|i: int|
            0 <= i < rows@.len() ==> optional_text(#[trigger] out@[i]) == heading_at(rows@, i),
{
    let mut out: Vec<Option<String>> = Vec::new();
    let mut i: usize = 0;
    while i < rows.len()
        invariant
            i <= rows@.len(),
            out@.len() == i,
            forall|k: int|
                0 <= k < i ==> optional_text(#[trigger] out@[k]) == heading_at(rows@, k),
        decreases rows.len() - i,
    {
        if i > 0 && same_issuer(&rows[i - 1].issuer, &rows[i].issuer) {
            out.push(None);
        } else {
            out.push(copy_optional(&rows[i].issuer));
        }
        i = i + 1;
    }
    out
}

fn same_issuer(a: &Option<String>, b: &Option<String>) -> (r: bool)
    ensures
        r == (optional_text(*a) == optional_text(*b)),
{
    match (a, b) {
        (Some(x), Some(y)) => same_text(x.as_str(), y.as_str()),
        (None, None) => true,
        _ => false,
    }
}

/// The account rows of an interleaved sequence, headings left out.
pub open spec fn account_rows(rows: Seq<InterleavedView>) -> Seq<int>
    decreases rows.len(),
{
    if rows.len() == 0 {
        Seq::empty()
    } else {
        match rows.last() {
            InterleavedView::Account(i) => account_rows(rows.drop_last()).push(i),
            InterleavedView::Section(_) => account_rows(rows.drop_last()),
        }
    }
}

/// Interleaving keeps every account row once and in order, whether headings
/// are shown or not.
pub proof fn interleaving_keeps_rows(headers: Seq<Option<String>>, show: bool, k: int)
    requires
        0 <= k <= headers.len(),
    ensures
        account_rows(interleaved(headers, show, k)) == Seq::new(k as nat, |i: int| i),
    decreases k,
{
    reveal_with_fuel(account_rows, 3);
    if k > 0 {
        interleaving_keeps_rows(headers, show, k - 1);
        let before = interleaved(headers, show, k - 1);
        let all = interleaved(headers, show, k);
        assert(all.last() == InterleavedView::Account(k - 1));
        match headers[k - 1] {
            Some(title) if show => {
                let headed = before.push(InterleavedView::Section(title@));
                assert(all.drop_last() =~= headed);
                assert(headed.drop_last() =~= before);
                assert(headed.last() == InterleavedView::Section(title@));
            },
            _ => {
                assert(all.drop_last() =~= before);
            },
        }
        assert(Seq::new((k - 1) as nat, |i: int| i).push(k - 1) =~= Seq::new(k as nat, |i: int| i));
    } else {
        assert(Seq::new(0, |i: int| i) =~= Seq::<int>::empty());
    }
}

/// A heading stands directly before the row that starts its group, and only
/// there: every heading is that of the next row, and with headings on every row
/// that starts a group has its heading before it.
pub proof fn headings_stand_before_their_rows(headers: Seq<Option<String>>, show: bool, k: int)
    requires
        0 <= k <= headers.len(),
    ensures
        ({
            let rows = interleaved(headers, show, k);
            &&& forall|j: int|
                0 <= j < rows.len() ==> match #[trigger] rows[j] {
                    InterleavedView::Section(title) => {
                        &&& show
                        &&& j + 1 < rows.len()
                        &&& rows[j + 1] matches InterleavedView::Account(i) && 0 <= i < k
                            && headers[i] is Some && headers[i]->0@ == title
                    },
                    InterleavedView::Account(i) => show && headers[i] is Some ==> j > 0 && rows[j
                        - 1] == InterleavedView::Section(headers[i]->0@),
                }
            &&& k > 0 ==> rows.len() > 0 && rows.last() is Account
        }),
    decreases k,
{
    if k > 0 {
        headings_stand_before_their_rows(headers, show, k - 1);
        let before = interleaved(headers, show, k - 1);
        let rows = interleaved(headers, show, k);
        assert forall|j: int| 0 <= j < rows.len() implies match #[trigger] rows[j] {
            InterleavedView::Section(title) => {
                &&& show
                &&& j + 1 < rows.len()
                &&& rows[j + 1] matches InterleavedView::Account(i) && 0 <= i < k && headers[i] is Some
                    && headers[i]->0@ == title
            },
            InterleavedView::Account(i) => show && headers[i] is Some ==> j > 0 && rows[j - 1]
                == InterleavedView::Section(headers[i]->0@),
        } by {
            if j < before.len() {
                assert(rows[j] == before[j]);
                if j > 0 {
                    assert(rows[j - 1] == before[j - 1]);
                }
                if j + 1 < before.len() {
                    assert(rows[j + 1] == before[j + 1]);
                }
            }
        }
    }
}

/// With headings off, the interleaved sequence is the account rows alone.
pub proof fn no_headings_when_hidden(headers: Seq<Option<String>>, k: int)
    requires
        0 <= k <= headers.len(),
    ensures
        interleaved(headers, false, k) == Seq::new(k as nat, |i: int| InterleavedView::Account(i)),
    decreases k,
{
    if k > 0 {
        no_headings_when_hidden(headers, k - 1);
    }
    assert(interleaved(headers, false, k) =~= Seq::new(
        k as nat,
        |i: int| InterleavedView::Account(i),
    ));
}

/// Where an inserted row comes from.
#[derive(Clone, Copy, Debug, PartialEq, Eq, Structural)]
pub enum RowSource {
    /// The live row that stood at this position of the store before the
    /// refresh.
    Reused(usize),
    /// A row to build from this position of the new sequence.
    Fresh(usize),
}

/// One splice of the store with the rows to put in.
#[derive(Debug)]
pub struct StoreSplice {
    /// Position in the running store.
    pub position: u32,
    /// Number of rows to take out.
    pub n_remove: u32,
    /// Rows to put in.
    pub additions: Vec<RowSource>,
}

/// A splice with its rows in mathematical terms.
#[verifier::ext_equal]
pub struct StoreSpliceView {
    /// Position in the running store.
    pub position: int,
    /// Number of rows to take out.
    pub n_remove: int,
    /// Rows to put in.
    pub additions: Seq<RowSource>,
}

impl View for StoreSplice {
    type V = StoreSpliceView;

    open spec fn view(&self) -> StoreSpliceView {
        StoreSpliceView {
            position: self.position as int,
            n_remove: self.n_remove as int,
            additions: self.additions@,
        }
    }
}

/// The last position of `v` in `items`, or -1.
pub open spec fn last_position<V>(items: Seq<V>, v: V) -> int
    decreases items.len(),
{
    if items.len() == 0 {
        -1
    } else if items.last() == v {
        items.len() - 1
    } else {
        last_position(items.drop_last(), v)
    }
}

/// Where row `i` of the new sequence comes from when it is inserted: the live
/// row of the same identity, unless there is none or it was taken already.
pub open spec fn source_of<V>(
    old: Seq<V>,
    slots: Seq<usize>,
    new: Seq<V>,
    i: int,
    taken: Set<V>,
) -> RowSource {
    if old.contains(new[i]) && !taken.contains(new[i]) {
        RowSource::Reused(slots[last_position(old, new[i])])
    } else {
        RowSource::Fresh(i as usize)
    }
}

/// Where the rows `from` .. `upto` come from when they are inserted in turn.
pub open spec fn sources<V>(
    old: Seq<V>,
    slots: Seq<usize>,
    new: Seq<V>,
    from: int,
    upto: int,
    taken: Set<V>,
) -> Seq<RowSource>
    decreases upto - from,
{
    if from >= upto {
        Seq::empty()
    } else {
        sources(old, slots, new, from, upto - 1, taken).push(
            source_of(old, slots, new, upto - 1, taken_after(new, from, upto - 1, taken)),
        )
    }
}

/// The identities taken once the rows `from` .. `upto` are inserted.
pub open spec fn taken_after<V>(new: Seq<V>, from: int, upto: int, taken: Set<V>) -> Set<V>
    decreases upto - from,
{
    if from >= upto {
        taken
    } else {
        taken_after(new, from, upto - 1, taken).insert(new[upto - 1])
    }
}

/// The splices of a plan with the source of every inserted row.
pub open spec fn resolved<V>(
    steps: Seq<SpliceStep>,
    old: Seq<V>,
    slots: Seq<usize>,
    new: Seq<V>,
    taken: Set<V>,
) -> Seq<StoreSpliceView>
    decreases steps.len(),
{
    if steps.len() == 0 {
        Seq::empty()
    } else {
        match steps[0] {
            SpliceStep::Remove { position, count } => seq![
                StoreSpliceView { position, n_remove: count, additions: Seq::empty() },
            ] + resolved(steps.drop_first(), old, slots, new, taken),
            SpliceStep::Insert { position, from, upto } => seq![
                StoreSpliceView {
                    position,
                    n_remove: 0,
                    additions: sources(old, slots, new, from, upto, taken),
                },
            ] + resolved(
                steps.drop_first(),
                old,
                slots,
                new,
                taken_after(new, from, upto, taken),
            ),
        }
    }
}

proof fn lemma_last_position<V>(items: Seq<V>, v: V)
    ensures
        -1 <= last_position(items, v) < items.len(),
        items.contains(v) <==> last_position(items, v) >= 0,
        last_position(items, v) >= 0 ==> items[last_position(items, v)] == v,
        forall|i: int| last_position(items, v) < i < items.len() ==> #[trigger] items[i] != v,
    decreases items.len(),
{
    if items.len() > 0 && items.last() != v {
        let rest = items.drop_last();
        lemma_last_position(rest, v);
        if items.contains(v) {
            let k = choose|k: int| 0 <= k < items.len() && items[k] == v;
            assert(rest[k] == v);
        }
        assert forall|i: int| last_position(rest, v) < i < items.len() implies #[trigger] items[i]
            != v by {
            if i < rest.len() {
                assert(rest[i] == items[i]);
            }
        }
        if last_position(rest, v) >= 0 {
            assert(items[last_position(rest, v)] == v);
        }
    } else if items.len() > 0 {
        assert(items[items.len() - 1] == v);
    }
}

/// The last position of `key` in `keys`.
fn find_last<K: PartialEq + View>(keys: &[K], key: &K) -> (r: Option<usize>)
    requires
        obeys_view_eq::<K>(),
    ensures
        match r {
            Some(p) => p == last_position(views(keys@), key@) && p < keys.len(),
            None => last_position(views(keys@), key@) == -1,
        },
{
    let ghost all = views(keys@);
    proof {
        lemma_last_position(all, key@);
    }
    let mut i: usize = keys.len();
    while i > 0
        invariant
            i <= keys.len(),
            obeys_view_eq::<K>(),
            all == views(keys@),
            last_position(all, key@) < i,
            last_position(all, key@) >= 0 ==> all[last_position(all, key@)] == key@,
            forall|k: int| last_position(all, key@) < k < all.len() ==> #[trigger] all[k] != key@,
        decreases i,
    {
        proof {
            reveal(obeys_view_eq);
        }
        i = i - 1;
        if keys[i] == *key {
            assert(all[i as int] == key@);
            return Some(i);
        }
        assert(all[i as int] != key@);
    }
    proof {
        lemma_last_position(all, key@);
    }
    None
}

/// Whether `marks` flags exactly the last positions of taken identities.
spec fn marks_match<V>(marks: Seq<bool>, old: Seq<V>, taken: Set<V>) -> bool {
    &&& marks.len() == old.len()
    &&& forall|p: int|
        #![trigger marks[p]]
        0 <= p < old.len() && last_position(old, old[p]) == p ==> marks[p] == taken.contains(old[p])
}

/// Whether every insertion of `steps` takes rows of the new sequence.
spec fn insertions_in_range(steps: Seq<SpliceStep>, rows: int) -> bool {
    forall|i: int|
        0 <= i < steps.len() ==> (#[trigger] steps[i] matches SpliceStep::Insert { from, upto, .. }
            ==> 0 <= from <= upto <= rows)
}

proof fn lemma_plan_insertions_in_range<V>(old: Seq<V>, new: Seq<V>, o: int, n: int)
    requires
        0 <= o <= old.len(),
        0 <= n <= new.len(),
    ensures
        insertions_in_range(plan_from(old, new, o, n), new.len() as int),
    decreases old.len() - o + new.len() - n,
{
    if o < old.len() && n < new.len() && old[o] == new[n] {
        lemma_plan_insertions_in_range(old, new, o + 1, n + 1);
    } else if o == old.len() && n == new.len() {
    } else {
        lemma_absent_run(old, new, o);
        lemma_absent_run(new, old, n);
        let gone = absent_run(old, new, o);
        let fresh = absent_run(new, old, n);
        if gone > 0 {
            lemma_plan_insertions_in_range(old, new, o + gone, n);
        } else if fresh > 0 {
            lemma_plan_insertions_in_range(old, new, o, n + fresh);
        }
    }
}

/// Adds to each splice of a plan the source of the rows it inserts.
///
/// `slots[i]` is the store position of the live row with identity `old[i]`.
fn resolve_splices<K: PartialEq + View>(
    ops: &Vec<SpliceOp>,
    old: &[K],
    slots: &Vec<usize>,
    new: &[K],
) -> (out: Vec<StoreSplice>)
    requires
        obeys_view_eq::<K>(),
        slots@.len() == old@.len(),
        ops_are(ops@, plan(views(old@), views(new@))),
    ensures
        views(out@) == resolved(
            plan(views(old@), views(new@)),
            views(old@),
            slots@,
            views(new@),
            Set::empty(),
        ),
{
    let ghost a = views(old@);
    let ghost b = views(new@);
    let ghost steps = plan(a, b);
    let ghost mut taken: Set<K::V> = Set::empty();
    let mut marks: Vec<bool> = Vec::new();
    let mut m: usize = 0;
    while m < old.len()
        invariant
            m <= old.len(),
            marks@ == Seq::new(m as nat, |i: int| false),
        decreases old.len() - m,
    {
        marks.push(false);
        m = m + 1;
        assert(marks@ =~= Seq::new(m as nat, |i: int| false));
    }
    proof {
        lemma_plan_insertions_in_range(a, b, 0, 0);
    }
    let mut out: Vec<StoreSplice> = Vec::new();
    let mut k: usize = 0;
    assert(steps.subrange(0, steps.len() as int) =~= steps);
    assert(views(out@) + resolved(steps, a, slots@, b, taken) =~= resolved(
        steps,
        a,
        slots@,
        b,
        taken,
    ));
    while k < ops.len()
        invariant
            obeys_view_eq::<K>(),
            k <= ops.len(),
            a == views(old@),
            b == views(new@),
            slots@.len() == old@.len(),
            ops_are(ops@, steps),
            insertions_in_range(steps, b.len() as int),
            marks_match(marks@, a, taken),
            views(out@) + resolved(
                steps.subrange(k as int, steps.len() as int),
                a,
                slots@,
                b,
                taken,
            ) == resolved(steps, a, slots@, b, Set::empty()),
        decreases ops.len() - k,
    {
        let ghost rest = steps.subrange(k as int, steps.len() as int);
        let ghost before = views(out@);
        let ghost taken_before = taken;
        assert(op_is(ops@[k as int], steps[k as int]));
        assert(rest[0] == steps[k as int]);
        assert(rest.drop_first() =~= steps.subrange(k + 1, steps.len() as int));
        match &ops[k] {
            SpliceOp::Remove { position, n_remove } => {
                out.push(
                    StoreSplice {
                        position: *position,
                        n_remove: *n_remove,
                        additions: Vec::new(),
                    },
                );
            },
            SpliceOp::Insert { position, indices } => {
                let ghost from = steps[k as int]->from;
                let ghost upto = steps[k as int]->upto;
                let mut additions: Vec<RowSource> = Vec::new();
                let mut i: usize = 0;
                while i < indices.len()
                    invariant
                        obeys_view_eq::<K>(),
                        i <= indices.len(),
                        a == views(old@),
                        b == views(new@),
                        slots@.len() == old@.len(),
                        indices@ == index_range(from, upto),
                        0 <= from <= upto <= b.len(),
                        marks_match(marks@, a, taken),
                        taken == taken_after(b, from, from + i, taken_before),
                        additions@ == sources(a, slots@, b, from, from + i, taken_before),
                    decreases indices.len() - i,
                {
                    let row: usize = indices[i];
                    assert(from + i < new.len());
                    assert(row == from + i);
                    proof {
                        lemma_last_position(a, b[row as int]);
                    }
                    let mut source: RowSource = RowSource::Fresh(row);
                    if let Some(p) = find_last(old, &new[row]) {
                        if !marks[p] {
                            source = RowSource::Reused(slots[p]);
                        }
                        marks.set(p, true);
                    }
                    proof {
                        taken = taken.insert(b[row as int]);
                    }
                    additions.push(source);
                    i = i + 1;
                }
                out.push(StoreSplice { position: *position, n_remove: 0, additions });
            },
        }
        assert(views(out@) =~= before.push(out@.last()@));
        assert(out@.last()@ =~= resolved(rest, a, slots@, b, taken_before)[0]);
        k = k + 1;
        assert(views(out@) + resolved(
            steps.subrange(k as int, steps.len() as int),
            a,
            slots@,
            b,
            taken,
        ) =~= before + resolved(rest, a, slots@, b, taken_before));
    }
    assert(steps.subrange(k as int, steps.len() as int) =~= Seq::empty());
    assert(views(out@) =~= resolved(steps, a, slots@, b, Set::empty()));
    out
}

/// The store after every splice in turn.
pub open spec fn run_splices(store: Seq<RowSource>, splices: Seq<StoreSpliceView>) -> Seq<RowSource>
    decreases splices.len(),
{
    if splices.len() == 0 {
        store
    } else {
        let s = splices[0];
        run_splices(
            store.subrange(0, s.position) + s.additions + store.subrange(
                s.position + s.n_remove,
                store.len() as int,
            ),
            splices.drop_first(),
        )
    }
}

/// The rows that a refresh is to end with: the live row of every identity
/// that had one, a fresh row for the others.
pub open spec fn refreshed<V>(old: Seq<V>, slots: Seq<usize>, new: Seq<V>) -> Seq<RowSource> {
    Seq::new(
        new.len(),
        |i: int|
            if old.contains(new[i]) {
                RowSource::Reused(slots[last_position(old, new[i])])
            } else {
                RowSource::Fresh(i as usize)
            },
    )
}

/// The rows of a store that holds the live rows at `slots`.
pub open spec fn live_rows(slots: Seq<usize>) -> Seq<RowSource> {
    Seq::new(slots.len(), |i: int| RowSource::Reused(slots[i]))
}

proof fn lemma_sources<V>(
    old: Seq<V>,
    slots: Seq<usize>,
    new: Seq<V>,
    from: int,
    upto: int,
    taken: Set<V>,
)
    requires
        0 <= from <= upto <= new.len(),
        new.no_duplicates(),
        forall|i: int| from <= i < new.len() ==> !taken.contains(#[trigger] new[i]),
    ensures
        sources(old, slots, new, from, upto, taken) == refreshed(old, slots, new).subrange(
            from,
            upto,
        ),
        forall|i: int|
            upto <= i < new.len() ==> !taken_after(new, from, upto, taken).contains(
                #[trigger] new[i],
            ),
    decreases upto - from,
{
    if from < upto {
        lemma_sources(old, slots, new, from, upto - 1, taken);
        assert(refreshed(old, slots, new).subrange(from, upto) =~= refreshed(
            old,
            slots,
            new,
        ).subrange(from, upto - 1).push(refreshed(old, slots, new)[upto - 1]));
        assert(!taken_after(new, from, upto - 1, taken).contains(new[upto - 1]));
    } else {
        assert(refreshed(old, slots, new).subrange(from, upto) =~= Seq::empty());
    }
}

/// Whether the insertions of `steps` take increasing, disjoint ranges of the
/// new sequence from `next` on.
spec fn insertions_advance(steps: Seq<SpliceStep>, next: int, rows: int) -> bool
    decreases steps.len(),
{
    steps.len() == 0 || match steps[0] {
        SpliceStep::Remove { .. } => insertions_advance(steps.drop_first(), next, rows),
        SpliceStep::Insert { from, upto, .. } => next <= from <= upto <= rows && insertions_advance(
            steps.drop_first(),
            upto,
            rows,
        ),
    }
}

proof fn lemma_insertions_advance_later(steps: Seq<SpliceStep>, next: int, later: int, rows: int)
    requires
        insertions_advance(steps, later, rows),
        next <= later,
    ensures
        insertions_advance(steps, next, rows),
    decreases steps.len(),
{
    if steps.len() > 0 && steps[0] is Remove {
        lemma_insertions_advance_later(steps.drop_first(), next, later, rows);
    }
}

proof fn lemma_plan_from_advances<V>(old: Seq<V>, new: Seq<V>, o: int, n: int)
    requires
        0 <= o <= old.len(),
        0 <= n <= new.len(),
    ensures
        insertions_advance(plan_from(old, new, o, n), n, new.len() as int),
    decreases old.len() - o + new.len() - n,
{
    let steps = plan_from(old, new, o, n);
    if o < old.len() && n < new.len() && old[o] == new[n] {
        lemma_plan_from_advances(old, new, o + 1, n + 1);
        lemma_insertions_advance_later(steps, n, n + 1, new.len() as int);
    } else if o == old.len() && n == new.len() {
    } else {
        lemma_absent_run(old, new, o);
        lemma_absent_run(new, old, n);
        let gone = absent_run(old, new, o);
        let fresh = absent_run(new, old, n);
        if gone > 0 {
            lemma_plan_from_advances(old, new, o + gone, n);
            assert(steps.drop_first() =~= plan_from(old, new, o + gone, n));
        } else if fresh > 0 {
            lemma_plan_from_advances(old, new, o, n + fresh);
            assert(steps.drop_first() =~= plan_from(old, new, o, n + fresh));
        } else {
            reveal_with_fuel(insertions_advance, 3);
            if o < old.len() && n < new.len() {
                assert(steps.drop_first().drop_first() =~= Seq::empty());
            } else {
                assert(steps.drop_first() =~= Seq::empty());
            }
        }
    }
}

proof fn lemma_run_resolved<V>(
    store: Seq<RowSource>,
    steps: Seq<SpliceStep>,
    old: Seq<V>,
    slots: Seq<usize>,
    new: Seq<V>,
    taken: Set<V>,
    next: int,
)
    requires
        0 <= next <= new.len(),
        new.no_duplicates(),
        insertions_advance(steps, next, new.len() as int),
        forall|i: int| next <= i < new.len() ==> !taken.contains(#[trigger] new[i]),
    ensures
        run_splices(store, resolved(steps, old, slots, new, taken)) == run_plan(
            store,
            refreshed(old, slots, new),
            steps,
        ),
    decreases steps.len(),
{
    if steps.len() > 0 {
        let rest = steps.drop_first();
        let all = resolved(steps, old, slots, new, taken);
        let after = apply_step(store, refreshed(old, slots, new), steps[0]);
        match steps[0] {
            SpliceStep::Remove { position, count } => {
                assert(all.drop_first() =~= resolved(rest, old, slots, new, taken));
                assert(store.subrange(0, position) + Seq::<RowSource>::empty() + store.subrange(
                    position + count,
                    store.len() as int,
                ) =~= after);
                lemma_run_resolved(after, rest, old, slots, new, taken, next);
            },
            SpliceStep::Insert { position, from, upto } => {
                let later = taken_after(new, from, upto, taken);
                lemma_sources(old, slots, new, from, upto, taken);
                assert(all.drop_first() =~= resolved(rest, old, slots, new, later));
                assert(store.subrange(position + 0, store.len() as int) == store.subrange(
                    position,
                    store.len() as int,
                ));
                lemma_run_resolved(after, rest, old, slots, new, later, upto);
            },
        }
    }
}

/// A refresh keeps the live row of every identity that is in the store before
/// and after it, builds fresh rows for the others, and ends with the new
/// sequence.
pub proof fn refresh_reuses_live_rows<V>(old: Seq<V>, slots: Seq<usize>, new: Seq<V>)
    requires
        slots.len() == old.len(),
        old.no_duplicates(),
        new.no_duplicates(),
    ensures
        run_splices(
            live_rows(slots),
            resolved(plan(old, new), old, slots, new, Set::empty()),
        ) == refreshed(old, slots, new),
{
    let held = live_rows(slots);
    let added = refreshed(old, slots, new);
    assert forall|i: int, j: int|
        #![trigger held[i], added[j]]
        0 <= i < old.len() && 0 <= j < new.len() && old[i] == new[j] implies held[i] == added[j] by {
        lemma_last_position(old, new[j]);
        assert(old.contains(new[j]));
        assert(old[last_position(old, new[j])] == old[i]);
    }
    lemma_plan_from_carries(old, new, held, added, 0, 0);
    assert(added.subrange(0, 0) + held.subrange(0, held.len() as int) =~= held);
    lemma_plan_from_advances(old, new, 0, 0);
    lemma_run_resolved(held, plan(old, new), old, slots, new, Set::empty(), 0);
}

/// Whether `source` is a row for position `j` of the new sequence: a fresh row
/// of that position, or a live row of the same identity.
spec fn stands_for<V>(
    old: Seq<V>,
    slots: Seq<usize>,
    new: Seq<V>,
    source: RowSource,
    j: int,
) -> bool {
    ||| source == RowSource::Fresh(j as usize)
    ||| exists|i: int|
        0 <= i < old.len() && #[trigger] old[i] == new[j] && source == RowSource::Reused(slots[i])
}

proof fn lemma_sources_stand<V>(
    old: Seq<V>,
    slots: Seq<usize>,
    new: Seq<V>,
    from: int,
    upto: int,
    taken: Set<V>,
)
    requires
        0 <= from <= upto <= new.len(),
        slots.len() == old.len(),
    ensures
        sources(old, slots, new, from, upto, taken).len() == upto - from,
        forall|k: int|
            0 <= k < upto - from ==> stands_for(
                old,
                slots,
                new,
                #[trigger] sources(old, slots, new, from, upto, taken)[k],
                from + k,
            ),
    decreases upto - from,
{
    if from < upto {
        lemma_sources_stand(old, slots, new, from, upto - 1, taken);
        let i = upto - 1;
        let last = source_of(old, slots, new, i, taken_after(new, from, i, taken));
        lemma_last_position(old, new[i]);
        if last is Reused {
            assert(old[last_position(old, new[i])] == new[i]);
        }
        assert(stands_for(old, slots, new, last, i));
    }
}

proof fn lemma_refresh_stands<V>(
    old: Seq<V>,
    slots: Seq<usize>,
    new: Seq<V>,
    o: int,
    n: int,
    taken: Set<V>,
    head: Seq<RowSource>,
)
    requires
        0 <= o <= old.len(),
        0 <= n <= new.len(),
        slots.len() == old.len(),
        head.len() == n,
        forall|j: int| 0 <= j < n ==> stands_for(old, slots, new, #[trigger] head[j], j),
    ensures
        ({
            let out = run_splices(
                head + live_rows(slots).subrange(o, old.len() as int),
                resolved(plan_from(old, new, o, n), old, slots, new, taken),
            );
            &&& out.len() == new.len()
            &&& forall|j: int|
                0 <= j < new.len() ==> stands_for(old, slots, new, #[trigger] out[j], j)
        }),
    decreases old.len() - o + new.len() - n,
{
    let tail = live_rows(slots).subrange(o, old.len() as int);
    let store = head + tail;
    let steps = plan_from(old, new, o, n);
    let all = resolved(steps, old, slots, new, taken);
    if o < old.len() && n < new.len() && old[o] == new[n] {
        let longer = head.push(RowSource::Reused(slots[o]));
        assert(stands_for(old, slots, new, longer[n], n)) by {
            assert(old[o] == new[n]);
        }
        lemma_refresh_stands(old, slots, new, o + 1, n + 1, taken, longer);
        assert(store =~= longer + live_rows(slots).subrange(o + 1, old.len() as int));
    } else if o == old.len() && n == new.len() {
        assert(store =~= head);
    } else {
        lemma_absent_run(old, new, o);
        lemma_absent_run(new, old, n);
        let gone = absent_run(old, new, o);
        let fresh = absent_run(new, old, n);
        if gone > 0 {
            lemma_refresh_stands(old, slots, new, o + gone, n, taken, head);
            assert(steps.drop_first() =~= plan_from(old, new, o + gone, n));
            assert(all.drop_first() =~= resolved(steps.drop_first(), old, slots, new, taken));
            assert(store.subrange(0, n) + Seq::<RowSource>::empty() + store.subrange(
                n + gone,
                store.len() as int,
            ) =~= head + live_rows(slots).subrange(o + gone, old.len() as int));
        } else if fresh > 0 {
            let added = sources(old, slots, new, n, n + fresh, taken);
            lemma_sources_stand(old, slots, new, n, n + fresh, taken);
            let longer = head + added;
            assert forall|j: int| 0 <= j < n + fresh implies stands_for(
                old,
                slots,
                new,
                #[trigger] longer[j],
                j,
            ) by {
                if j < n {
                    assert(longer[j] == head[j]);
                } else {
                    assert(longer[j] == added[j - n]);
                }
            }
            let later = taken_after(new, n, n + fresh, taken);
            lemma_refresh_stands(old, slots, new, o, n + fresh, later, longer);
            assert(steps.drop_first() =~= plan_from(old, new, o, n + fresh));
            assert(all.drop_first() =~= resolved(steps.drop_first(), old, slots, new, later));
            assert(store.subrange(0, n) + added + store.subrange(n + 0, store.len() as int)
                =~= longer + tail);
        } else {
            reveal_with_fuel(run_splices, 3);
            reveal_with_fuel(resolved, 3);
            let cut = head;
            let added = sources(old, slots, new, n, new.len() as int, taken);
            lemma_sources_stand(old, slots, new, n, new.len() as int, taken);
            let whole = head + added;
            assert forall|j: int| 0 <= j < new.len() implies stands_for(
                old,
                slots,
                new,
                #[trigger] whole[j],
                j,
            ) by {
                if j < n {
                    assert(whole[j] == head[j]);
                } else {
                    assert(whole[j] == added[j - n]);
                }
            }
            let last = StoreSpliceView { position: n, n_remove: 0, additions: added };
            if o < old.len() {
                let first = StoreSpliceView {
                    position: n,
                    n_remove: old.len() - o,
                    additions: Seq::empty(),
                };
                assert(store.subrange(0, n) + Seq::<RowSource>::empty() + store.subrange(
                    n + (old.len() - o),
                    store.len() as int,
                ) =~= cut);
                if n < new.len() {
                    assert(all =~= seq![first, last]);
                    assert(all.drop_first() =~= seq![last]);
                    assert(all.drop_first().drop_first() =~= Seq::empty());
                    assert(cut.subrange(0, n) + added + cut.subrange(n + 0, cut.len() as int)
                        =~= whole);
                } else {
                    assert(all =~= seq![first]);
                    assert(all.drop_first() =~= Seq::empty());
                    assert(whole =~= cut);
                }
            } else {
                assert(all =~= seq![last]);
                assert(all.drop_first() =~= Seq::empty());
                assert(store =~= cut);
                assert(store.subrange(0, n) + added + store.subrange(n + 0, store.len() as int)
                    =~= whole);
            }
        }
    }
}

/// The rows of a store of `len` rows before a refresh: the live row of every
/// position.
pub open spec fn all_live(len: nat) -> Seq<RowSource> {
    Seq::new(len, |i: int| RowSource::Reused(i as usize))
}

/// Where every row of a store is a heading or is bound to an account, the
/// identities that a refresh goes by are those of all its rows, in order, and
/// each stands at its own position.
pub proof fn every_row_is_accounted_for(items: Seq<RowItem>)
    requires
        forall|i: int|
            0 <= i < items.len() ==> (#[trigger] items[i]).kind is Section || items[i].id is Some,
    ensures
        held_keys(items).len() == items.len(),
        key_slots(items).len() == items.len(),
        forall|i: int|
            0 <= i < items.len() ==> {
                &&& #[trigger] key_slots(items)[i] == i as usize
                &&& held_keys(items)[i] == (match items[i].kind {
                    RowKind::Section(title) => RowKeyView::Section(title@),
                    RowKind::Account => RowKeyView::Account(items[i].id->0),
                })
            },
    decreases items.len(),
{
    if items.len() > 0 {
        let rest = items.drop_last();
        assert forall|i: int| 0 <= i < rest.len() implies (#[trigger] rest[i]).kind is Section
            || rest[i].id is Some by {
            assert(rest[i] == items[i]);
        }
        every_row_is_accounted_for(rest);
        assert(items.last() == items[items.len() - 1]);
        assert forall|i: int| 0 <= i < items.len() implies {
            &&& #[trigger] key_slots(items)[i] == i as usize
            &&& held_keys(items)[i] == (match items[i].kind {
                RowKind::Section(title) => RowKeyView::Section(title@),
                RowKind::Account => RowKeyView::Account(items[i].id->0),
            })
        } by {
            if i < rest.len() {
                assert(key_slots(rest)[i] == i as usize);
                assert(rest[i] == items[i]);
            }
        }
    }
}

/// A refresh ends with exactly the sequence that is to be shown: one row for
/// each position, in order, each of them built for that position or a live row
/// that shows the same heading or account.
pub proof fn refresh_shows_the_sequence(
    items: Seq<RowItem>,
    rows: Seq<AccountRowModel>,
    sequence: Seq<InterleavedView>,
)
    requires
        items.len() <= usize::MAX,
        forall|i: int|
            0 <= i < items.len() ==> (#[trigger] items[i]).kind is Section || items[i].id is Some,
    ensures
        ({
            let keys = interleaved_keys(sequence, rows);
            let shown = run_splices(
                all_live(items.len()),
                resolved(
                    plan(held_keys(items), keys),
                    held_keys(items),
                    key_slots(items),
                    keys,
                    Set::empty(),
                ),
            );
            &&& shown.len() == sequence.len()
            &&& forall|j: int|
                0 <= j < sequence.len() ==> match #[trigger] shown[j] {
                    RowSource::Fresh(position) => position == j as usize,
                    RowSource::Reused(p) => p < items.len() && match sequence[j] {
                        InterleavedView::Section(title) => items[p as int].kind matches RowKind::Section(
                            t,
                        ) && t@ == title,
                        InterleavedView::Account(k) => items[p as int].kind is Account
                            && items[p as int].id == Some(rows[k].id),
                    },
                }
        }),
{
    let old = held_keys(items);
    let slots = key_slots(items);
    let keys = interleaved_keys(sequence, rows);
    every_row_is_accounted_for(items);
    assert(live_rows(slots) =~= all_live(items.len()));
    lemma_refresh_stands(old, slots, keys, 0, 0, Set::empty(), Seq::empty());
    assert(Seq::<RowSource>::empty() + live_rows(slots).subrange(0, old.len() as int)
        =~= all_live(items.len()));
    let shown = run_splices(
        all_live(items.len()),
        resolved(plan(old, keys), old, slots, keys, Set::empty()),
    );
    assert forall|j: int| 0 <= j < sequence.len() implies match #[trigger] shown[j] {
        RowSource::Fresh(position) => position == j as usize,
        RowSource::Reused(p) => p < items.len() && match sequence[j] {
            InterleavedView::Section(title) => items[p as int].kind matches RowKind::Section(t)
                && t@ == title,
            InterleavedView::Account(k) => items[p as int].kind is Account && items[p as int].id
                == Some(rows[k].id),
        },
    } by {
        assert(stands_for(old, slots, keys, shown[j], j));
        if let RowSource::Reused(p) = shown[j] {
            let i = choose|i: int|
                0 <= i < old.len() && #[trigger] old[i] == keys[j] && shown[j]
                    == RowSource::Reused(slots[i]);
            assert(slots[i] == i as usize);
        }
    }
}

/// A store that already shows the sequence is left alone.
pub proof fn refresh_of_shown_does_nothing(
    items: Seq<RowItem>,
    rows: Seq<AccountRowModel>,
    sequence: Seq<InterleavedView>,
)
    requires
        items.len() == sequence.len(),
        forall|j: int|
            0 <= j < items.len() ==> match sequence[j] {
                InterleavedView::Section(title) => (#[trigger] items[j]).kind matches RowKind::Section(
                    t,
                ) && t@ == title,
                InterleavedView::Account(k) => items[j].kind is Account && items[j].id == Some(
                    rows[k].id,
                ),
            },
    ensures
        ({
            let keys = interleaved_keys(sequence, rows);
            resolved(
                plan(held_keys(items), keys),
                held_keys(items),
                key_slots(items),
                keys,
                Set::empty(),
            ).len() == 0
        }),
{
    assert forall|i: int| 0 <= i < items.len() implies (#[trigger] items[i]).kind is Section
        || items[i].id is Some by {
        assert(items[i].kind is Section || items[i].kind is Account);
    }
    every_row_is_accounted_for(items);
    let keys = interleaved_keys(sequence, rows);
    assert forall|j: int| 0 <= j < items.len() implies held_keys(items)[j] == keys[j] by {
        assert(key_slots(items)[j] == j as usize);
    }
    assert(held_keys(items) =~= keys);
    plan_of_equal_is_empty(keys);
}

/// Where no heading and no account occurs twice, before or after, every row
/// that stays keeps its live row.
pub proof fn rows_that_stay_are_kept(
    items: Seq<RowItem>,
    rows: Seq<AccountRowModel>,
    sequence: Seq<InterleavedView>,
    p: int,
    j: int,
)
    requires
        items.len() <= usize::MAX,
        forall|i: int|
            0 <= i < items.len() ==> (#[trigger] items[i]).kind is Section || items[i].id is Some,
        held_keys(items).no_duplicates(),
        interleaved_keys(sequence, rows).no_duplicates(),
        0 <= p < items.len(),
        0 <= j < sequence.len(),
        match sequence[j] {
            InterleavedView::Section(title) => items[p].kind matches RowKind::Section(t) && t@
                == title,
            InterleavedView::Account(k) => items[p].kind is Account && items[p].id == Some(
                rows[k].id,
            ),
        },
    ensures
        ({
            let keys = interleaved_keys(sequence, rows);
            run_splices(
                all_live(items.len()),
                resolved(
                    plan(held_keys(items), keys),
                    held_keys(items),
                    key_slots(items),
                    keys,
                    Set::empty(),
                ),
            )[j] == RowSource::Reused(p as usize)
        }),
{
    let old = held_keys(items);
    let slots = key_slots(items);
    let keys = interleaved_keys(sequence, rows);
    every_row_is_accounted_for(items);
    assert(slots[p] == p as usize);
    assert(old[p] == keys[j]);
    assert(live_rows(slots) =~= all_live(items.len()));
    refresh_reuses_live_rows(old, slots, keys);
    lemma_last_position(old, keys[j]);
    assert(old.contains(keys[j]));
    assert(last_position(old, keys[j]) == p);
}

/// A refresh without headings ends with exactly the new rows: one row for each
/// of them, in order, built for it or a live row of the same account.
pub proof fn plain_refresh_shows_the_rows(items: Seq<RowItem>, rows: Seq<AccountRowModel>)
    requires
        items.len() <= usize::MAX,
        forall|i: int| 0 <= i < items.len() ==> (#[trigger] items[i]).id is Some,
    ensures
        ({
            let shown = run_splices(
                all_live(items.len()),
                resolved(
                    plan(held_ids(items), row_ids(rows)),
                    held_ids(items),
                    id_slots(items),
                    row_ids(rows),
                    Set::empty(),
                ),
            );
            &&& shown.len() == rows.len()
            &&& forall|j: int|
                0 <= j < rows.len() ==> match #[trigger] shown[j] {
                    RowSource::Fresh(position) => position == j as usize,
                    RowSource::Reused(p) => p < items.len() && items[p as int].id == Some(
                        rows[j].id,
                    ),
                }
        }),
{
    let old = held_ids(items);
    let slots = id_slots(items);
    let new = row_ids(rows);
    lemma_held_ids(items);
    assert(live_rows(slots) =~= all_live(items.len()));
    lemma_refresh_stands(old, slots, new, 0, 0, Set::empty(), Seq::empty());
    assert(Seq::<RowSource>::empty() + live_rows(slots).subrange(0, old.len() as int)
        =~= all_live(items.len()));
    let shown = run_splices(
        all_live(items.len()),
        resolved(plan(old, new), old, slots, new, Set::empty()),
    );
    assert forall|j: int| 0 <= j < rows.len() implies match #[trigger] shown[j] {
        RowSource::Fresh(position) => position == j as usize,
        RowSource::Reused(p) => p < items.len() && items[p as int].id == Some(rows[j].id),
    } by {
        assert(stands_for(old, slots, new, shown[j], j));
        if let RowSource::Reused(p) = shown[j] {
            let i = choose|i: int|
                0 <= i < old.len() && #[trigger] old[i] == new[j] && shown[j]
                    == RowSource::Reused(slots[i]);
            assert(slots[i] == i as usize);
        }
    }
}

/// A store without headings that already shows the rows is left alone.
pub proof fn plain_refresh_of_shown_does_nothing(items: Seq<RowItem>, rows: Seq<AccountRowModel>)
    requires
        items.len() == rows.len(),
        forall|j: int| 0 <= j < items.len() ==> (#[trigger] items[j]).id == Some(rows[j].id),
    ensures
        resolved(
            plan(held_ids(items), row_ids(rows)),
            held_ids(items),
            id_slots(items),
            row_ids(rows),
            Set::empty(),
        ).len() == 0,
{
    lemma_held_ids(items);
    assert forall|j: int| 0 <= j < items.len() implies held_ids(items)[j] == row_ids(rows)[j] by {
        assert(id_slots(items)[j] == j as usize);
    }
    assert(held_ids(items) =~= row_ids(rows));
    plan_of_equal_is_empty(row_ids(rows));
}

proof fn lemma_held_ids(items: Seq<RowItem>)
    requires
        forall|i: int| 0 <= i < items.len() ==> (#[trigger] items[i]).id is Some,
    ensures
        held_ids(items).len() == items.len(),
        id_slots(items).len() == items.len(),
        forall|i: int|
            0 <= i < items.len() ==> #[trigger] id_slots(items)[i] == i as usize
                && held_ids(items)[i] == items[i].id->0.bits,
    decreases items.len(),
{
    if items.len() > 0 {
        let rest = items.drop_last();
        assert forall|i: int| 0 <= i < rest.len() implies (#[trigger] rest[i]).id is Some by {
            assert(rest[i] == items[i]);
        }
        lemma_held_ids(rest);
        assert(items.last() == items[items.len() - 1]);
        assert forall|i: int| 0 <= i < items.len() implies #[trigger] id_slots(items)[i]
            == i as usize && held_ids(items)[i] == items[i].id->0.bits by {
            if i < rest.len() {
                assert(id_slots(rest)[i] == i as usize);
                assert(rest[i] == items[i]);
            }
        }
    }
}

/// The accounts bound to the rows of a store, in order.
pub open spec fn held_ids(items: Seq<RowItem>) -> Seq<u128>
    decreases items.len(),
{
    if items.len() == 0 {
        Seq::empty()
    } else {
        match items.last().id {
            Some(id) => held_ids(items.drop_last()).push(id@),
            None => held_ids(items.drop_last()),
        }
    }
}

/// The store positions of the rows that are bound to an account.
pub open spec fn id_slots(items: Seq<RowItem>) -> Seq<usize>
    decreases items.len(),
{
    if items.len() == 0 {
        Seq::empty()
    } else {
        match items.last().id {
            Some(_) => id_slots(items.drop_last()).push((items.len() - 1) as usize),
            None => id_slots(items.drop_last()),
        }
    }
}

/// The identities of the rows of a store, in order; rows without one are
/// passed over.
pub open spec fn held_keys(items: Seq<RowItem>) -> Seq<RowKeyView>
    decreases items.len(),
{
    if items.len() == 0 {
        Seq::empty()
    } else {
        match row_key(items.last()) {
            Some(key) => held_keys(items.drop_last()).push(key@),
            None => held_keys(items.drop_last()),
        }
    }
}

/// The store positions of the rows that have an identity.
pub open spec fn key_slots(items: Seq<RowItem>) -> Seq<usize>
    decreases items.len(),
{
    if items.len() == 0 {
        Seq::empty()
    } else {
        match row_key(items.last()) {
            Some(_) => key_slots(items.drop_last()).push((items.len() - 1) as usize),
            None => key_slots(items.drop_last()),
        }
    }
}

/// The accounts of the new rows.
pub open spec fn row_ids(rows: Seq<AccountRowModel>) -> Seq<u128> {
    Seq::new(rows.len(), |i: int| rows[i].id@)
}

/// The identities of an interleaved sequence.
pub open spec fn interleaved_keys(
    sequence: Seq<InterleavedView>,
    rows: Seq<AccountRowModel>,
) -> Seq<RowKeyView> {
    Seq::new(
        sequence.len(),
        |i: int|
            match sequence[i] {
                InterleavedView::Section(title) => RowKeyView::Section(title),
                InterleavedView::Account(k) => RowKeyView::Account(rows[k].id),
            },
    )
}

/// Plans the refresh of a store without headings: `items` are the store's
/// rows, `new_rows` the rows it is to hold.
pub fn apply_splice_plan(items: &[RowItem], new_rows: &[AccountRowModel]) -> (out: Vec<StoreSplice>)
    requires
        items.len() <= u32::MAX,
        new_rows.len() <= u32::MAX,
    ensures
        views(out@) == resolved(
            plan(held_ids(items@), row_ids(new_rows@)),
            held_ids(items@),
            id_slots(items@),
            row_ids(new_rows@),
            Set::empty(),
        ),
        (forall|i: int| 0 <= i < items@.len() ==> (#[trigger] items@[i]).id is Some) ==> {
            let shown = run_splices(all_live(items@.len()), views(out@));
            &&& shown.len() == new_rows@.len()
            &&& forall|j: int|
                0 <= j < shown.len() ==> match #[trigger] shown[j] {
                    RowSource::Fresh(position) => position == j,
                    RowSource::Reused(p) => p < items@.len() && items@[p as int].id == Some(
                        new_rows@[j].id,
                    ),
                }
        },
{
    let mut old_ids: Vec<AccountId> = Vec::new();
    let mut slots: Vec<usize> = Vec::new();
    let mut i: usize = 0;
    while i < items.len()
        invariant
            i <= items.len(),
            old_ids.len() <= i,
            old_ids.len() == slots.len(),
            views(old_ids@) == held_ids(items@.subrange(0, i as int)),
            slots@ == id_slots(items@.subrange(0, i as int)),
        decreases items.len() - i,
    {
        let ghost before = views(old_ids@);
        assert(items@.subrange(0, i + 1).drop_last() =~= items@.subrange(0, i as int));
        if let Some(id) = items[i].account_id() {
            old_ids.push(id);
            slots.push(i);
            assert(views(old_ids@) =~= before.push(id@));
        }
        i = i + 1;
    }
    assert(items@.subrange(0, i as int) =~= items@);
    let mut new_ids: Vec<AccountId> = Vec::new();
    let mut n: usize = 0;
    while n < new_rows.len()
        invariant
            n <= new_rows.len(),
            views(new_ids@) == row_ids(new_rows@.subrange(0, n as int)),
        decreases new_rows.len() - n,
    {
        let ghost before = views(new_ids@);
        new_ids.push(new_rows[n].id);
        n = n + 1;
        assert(views(new_ids@) =~= before.push(new_rows@[n - 1].id@));
        assert(row_ids(new_rows@.subrange(0, n as int)) =~= row_ids(
            new_rows@.subrange(0, n - 1),
        ).push(new_rows@[n - 1].id@));
    }
    assert(new_rows@.subrange(0, n as int) =~= new_rows@);
    assert(row_ids(new_rows@).len() == views(new_ids@).len());
    proof {
        lemma_account_id_obeys_view_eq();
    }
    let plan = splice_plan(old_ids.as_slice(), new_ids.as_slice());
    proof {
        if forall|i: int| 0 <= i < items@.len() ==> (#[trigger] items@[i]).id is Some {
            plain_refresh_shows_the_rows(items@, new_rows@);
        }
    }
    resolve_splices(&plan, old_ids.as_slice(), &slots, new_ids.as_slice())
}

proof fn lemma_account_id_obeys_view_eq()
    ensures
        obeys_view_eq::<AccountId>(),
{
    reveal(obeys_view_eq);
}

proof fn lemma_row_key_obeys_view_eq()
    ensures
        obeys_view_eq::<RowKey>(),
{
    reveal(obeys_view_eq);
}

/// The identity of an interleaved position.
fn interleaved_key(row: &InterleavedRow, new_rows: &[AccountRowModel]) -> (r: RowKey)
    requires
        row matches InterleavedRow::Account(k) ==> k < new_rows.len(),
    ensures
        r@ == (match row@ {
            InterleavedView::Section(title) => RowKeyView::Section(title),
            InterleavedView::Account(k) => RowKeyView::Account(new_rows@[k].id),
        }),
{
    match row {
        InterleavedRow::Section(title) => RowKey::Section(title.clone()),
        InterleavedRow::Account(k) => RowKey::Account(new_rows[*k].id),
    }
}

/// Every account position of an interleaved sequence is one of the rows, and
/// there are at most two positions for each row.
pub proof fn interleaving_stays_in_range(headers: Seq<Option<String>>, show: bool, k: int)
    requires
        0 <= k <= headers.len(),
    ensures
        k <= interleaved(headers, show, k).len() <= 2 * k,
        forall|i: int|
            0 <= i < interleaved(headers, show, k).len() ==> ((#[trigger] interleaved(
                headers,
                show,
                k,
            )[i]) matches InterleavedView::Account(row) ==> 0 <= row < k),
    decreases k,
{
    if k > 0 {
        interleaving_stays_in_range(headers, show, k - 1);
    }
}

/// Plans the refresh of a store with section headings. `headers[i]` is the
/// heading of the group that row `i` starts, if it starts one.
///
/// The first result is the interleaved sequence that the store is to hold;
/// the sources of the splices refer to it.
pub fn apply_interleaved_splice_plan(
    items: &[RowItem],
    new_rows: &[AccountRowModel],
    headers: &[Option<String>],
    show_section_headers: bool,
) -> (out: (Vec<InterleavedRow>, Vec<StoreSplice>))
    requires
        items.len() <= u32::MAX,
        headers.len() == new_rows.len(),
        interleaved(headers@, show_section_headers, headers@.len() as int).len() <= u32::MAX,
    ensures
        views(out.0@) == interleaved(headers@, show_section_headers, headers@.len() as int),
        ({
            let keys = interleaved_keys(views(out.0@), new_rows@);
            views(out.1@) == resolved(
                plan(held_keys(items@), keys),
                held_keys(items@),
                key_slots(items@),
                keys,
                Set::empty(),
            )
        }),
        (forall|i: int|
            0 <= i < items@.len() ==> (#[trigger] items@[i]).kind is Section
                || items@[i].id is Some) ==> {
            let shown = run_splices(all_live(items@.len()), views(out.1@));
            &&& shown.len() == out.0@.len()
            &&& forall|j: int|
                0 <= j < shown.len() ==> match #[trigger] shown[j] {
                    RowSource::Fresh(position) => position == j,
                    RowSource::Reused(p) => p < items@.len() && match out.0@[j] {
                        InterleavedRow::Section(title) => items@[p as int].kind matches RowKind::Section(
                            t,
                        ) && t@ == title@,
                        InterleavedRow::Account(k) => items@[p as int].kind is Account
                            && items@[p as int].id == Some(new_rows@[k as int].id),
                    },
                }
        },
{
    let mut old_keys: Vec<RowKey> = Vec::new();
    let mut slots: Vec<usize> = Vec::new();
    let mut i: usize = 0;
    while i < items.len()
        invariant
            i <= items.len(),
            old_keys.len() <= i,
            old_keys.len() == slots.len(),
            views(old_keys@) == held_keys(items@.subrange(0, i as int)),
            slots@ == key_slots(items@.subrange(0, i as int)),
        decreases items.len() - i,
    {
        let ghost before = views(old_keys@);
        assert(items@.subrange(0, i + 1).drop_last() =~= items@.subrange(0, i as int));
        if let Some(key) = RowKey::from_row_item(&items[i]) {
            old_keys.push(key);
            slots.push(i);
            assert(views(old_keys@) =~= before.push(key@));
        }
        i = i + 1;
    }
    assert(items@.subrange(0, i as int) =~= items@);
    let sequence = interleave_section_headers(headers, show_section_headers);
    proof {
        interleaving_stays_in_range(headers@, show_section_headers, headers@.len() as int);
    }
    let ghost target = views(sequence@);
    let mut new_keys: Vec<RowKey> = Vec::new();
    let mut n: usize = 0;
    while n < sequence.len()
        invariant
            n <= sequence.len(),
            target == views(sequence@),
            forall|i: int|
                0 <= i < target.len() ==> ((#[trigger] target[i]) matches InterleavedView::Account(
                    row,
                ) ==> 0 <= row < new_rows.len()),
            views(new_keys@) == interleaved_keys(target.subrange(0, n as int), new_rows@),
        decreases sequence.len() - n,
    {
        assert(target[n as int] == sequence@[n as int]@);
        let ghost before = views(new_keys@);
        let key = interleaved_key(&sequence[n], new_rows);
        new_keys.push(key);
        n = n + 1;
        assert(views(new_keys@) =~= before.push(key@));
        assert(interleaved_keys(target.subrange(0, n as int), new_rows@) =~= interleaved_keys(
            target.subrange(0, n - 1),
            new_rows@,
        ).push(key@));
    }
    assert(target.subrange(0, n as int) =~= target);
    assert(views(new_keys@).len() == target.len());
    proof {
        lemma_row_key_obeys_view_eq();
    }
    let plan = splice_plan(old_keys.as_slice(), new_keys.as_slice());
    let splices = resolve_splices(&plan, old_keys.as_slice(), &slots, new_keys.as_slice());
    proof {
        if forall|i: int|
            0 <= i < items@.len() ==> (#[trigger] items@[i]).kind is Section
                || items@[i].id is Some {
            refresh_shows_the_sequence(items@, new_rows@, target);
            let shown = run_splices(all_live(items@.len()), views(splices@));
            assert forall|j: int| 0 <= j < shown.len() implies match #[trigger] shown[j] {
                RowSource::Fresh(position) => position == j,
                RowSource::Reused(p) => p < items@.len() && match sequence@[j] {
                    InterleavedRow::Section(title) => items@[p as int].kind matches RowKind::Section(
                        t,
                    ) && t@ == title@,
                    InterleavedRow::Account(k) => items@[p as int].kind is Account
                        && items@[p as int].id == Some(new_rows@[k as int].id),
                },
            } by {
                assert(target[j] == sequence@[j]@);
            }
        }
    }
    (sequence, splices)
}

/// Whether a row is one of a time-based account.
pub fn any_totp(rows: &[AccountRowModel]) -> (r: bool)
    ensures
        r == exists|i: int| 0 <= i < rows@.len() && rows@[i].kind == AccountKindSummary::Totp,
{
    let mut i: usize = 0;
    while i < rows.len()
        invariant
            i <= rows@.len(),
            forall|k: int| 0 <= k < i ==> rows@[k].kind != AccountKindSummary::Totp,
        decreases rows.len() - i,
    {
        if rows[i].kind == AccountKindSummary::Totp {
            assert(rows@[i as int].kind == AccountKindSummary::Totp);
            return true;
        }
        i = i + 1;
    }
    false
}

/// Whether the column of upcoming codes is shown: it is where the user wants
/// it and an account has upcoming codes.
pub fn next_code_column_visible(preferred: bool, rows: &[AccountRowModel]) -> (r: bool)
    ensures
        r == (preferred && exists|i: int|
            0 <= i < rows@.len() && rows@[i].kind == AccountKindSummary::Totp),
{
    preferred && any_totp(rows)
}

/// What the account column is sorted by: issuer and label, in lower case. An
/// account without an issuer has the empty one.
pub open spec fn sort_key(issuer: Option<Seq<char>>, label: Seq<char>) -> (Seq<char>, Seq<char>) {
    (
        match issuer {
            Some(name) => lowercase(name),
            None => Seq::empty(),
        },
        lowercase(label),
    )
}

/// A pair of texts in mathematical terms.
pub open spec fn key_of(key: (String, String)) -> (Seq<char>, Seq<char>) {
    (key.0@, key.1@)
}

/// Whether the key `a` comes before the key `b`: by the first text, and by
/// the second where the first is the same.
pub open spec fn key_before(a: (Seq<char>, Seq<char>), b: (Seq<char>, Seq<char>)) -> bool {
    text_before(a.0, b.0) || (a.0 == b.0 && text_before(a.1, b.1))
}

/// What a row is sorted by. A row without an issuer comes before every row
/// with one.
pub fn account_column_sort_key(model: &AccountRowModel) -> (r: (String, String))
    ensures
        key_of(r) == sort_key(optional_text(model.issuer), model.display_label@),
        r.0@.len() == 0 <==> (model.issuer is None || model.issuer->0@.len() == 0),
{
    column_key(&model.issuer, &model.display_label)
}

fn column_key(issuer: &Option<String>, label: &String) -> (r: (String, String))
    ensures
        key_of(r) == sort_key(optional_text(*issuer), label@),
        r.0@.len() == 0 <==> (issuer is None || issuer->0@.len() == 0),
{
    let issuer_key: String = match issuer {
        Some(name) => to_lowercase(name.as_str()),
        None => String::new(),
    };
    (issuer_key, to_lowercase(label.as_str()))
}

/// How one key stands to another.
pub fn compare_sort_keys(a: &(String, String), b: &(String, String)) -> (r: Ordering)
    ensures
        r == Ordering::Less <==> key_before(key_of(*a), key_of(*b)),
        r == Ordering::Greater <==> key_before(key_of(*b), key_of(*a)),
        r == Ordering::Equal <==> key_of(*a) == key_of(*b),
{
    proof {
        text_order_is_total(a.0@, b.0@);
        text_order_is_total(a.1@, b.1@);
    }
    match compare_text(a.0.as_str(), b.0.as_str()) {
        Ordering::Less => Ordering::Less,
        Ordering::Greater => Ordering::Greater,
        Ordering::Equal => compare_text(a.1.as_str(), b.1.as_str()),
    }
}

/// What a row of the store is sorted by.
pub open spec fn item_key(item: RowItem) -> (Seq<char>, Seq<char>) {
    sort_key(optional_text(item.issuer), item.display.label@)
}

/// How one row of the store stands to another. A section heading stands equal
/// to every row.
pub fn compare_account_row_items(a: &RowItem, b: &RowItem) -> (r: Ordering)
    ensures
        a.kind is Section || b.kind is Section ==> r == Ordering::Equal,
        !(a.kind is Section || b.kind is Section) ==> {
            &&& r == Ordering::Less <==> key_before(item_key(*a), item_key(*b))
            &&& r == Ordering::Greater <==> key_before(item_key(*b), item_key(*a))
            &&& r == Ordering::Equal <==> item_key(*a) == item_key(*b)
        },
{
    if a.is_section() || b.is_section() {
        return Ordering::Equal;
    }
    let key_a = column_key(&a.issuer, &a.display.label);
    let key_b = column_key(&b.issuer, &b.display.label);
    compare_sort_keys(&key_a, &key_b)
}

/// Issuers decide the order, by the first character in which they differ and
/// whatever follows it; an issuer that another one continues comes first. Where
/// the issuers are the same, the labels decide in the same way.
pub proof fn first_difference_decides(
    p: Seq<char>,
    c: char,
    d: char,
    x: Seq<char>,
    y: Seq<char>,
    first: Seq<char>,
    second: Seq<char>,
)
    requires
        c < d,
    ensures
        key_before((p + seq![c] + x, first), (p + seq![d] + y, second)),
        !key_before((p + seq![d] + y, second), (p + seq![c] + x, first)),
        key_before((p, first), (p + seq![c] + x, second)),
        !key_before((p + seq![c] + x, second), (p, first)),
        key_before((first, p + seq![c] + x), (first, p + seq![d] + y)),
        !key_before((first, p + seq![d] + y), (first, p + seq![c] + x)),
        key_before((first, p), (first, p + seq![c] + x)),
        !key_before((first, first), (first, first)),
{
    differing_texts_are_ordered(p, c, d, x, y);
    text_order_is_total(p + seq![c] + x, p + seq![d] + y);
    text_order_is_total(p, p + seq![c] + x);
    text_order_is_total(first, first);
}

/// Accounts are ordered by issuer and then by label, both in lower case: case
/// makes no difference, and an account without an issuer stands as one with an
/// empty issuer.
pub proof fn accounts_are_ordered_by_issuer(
    a: RowItem,
    b: RowItem,
    p: Seq<char>,
    c: char,
    d: char,
    x: Seq<char>,
    y: Seq<char>,
)
    requires
        c < d,
    ensures
        a.issuer is Some && b.issuer is Some && lowercase(a.issuer->0@) == p + seq![c] + x
            && lowercase(b.issuer->0@) == p + seq![d] + y ==> key_before(item_key(a), item_key(b))
            && !key_before(item_key(b), item_key(a)),
        a.issuer is None && b.issuer is Some && lowercase(b.issuer->0@) == seq![d] + y
            ==> key_before(item_key(a), item_key(b)) && !key_before(item_key(b), item_key(a)),
        a.issuer is Some && b.issuer is Some && lowercase(a.issuer->0@) == lowercase(b.issuer->0@)
            && lowercase(a.display.label@) == p + seq![c] + x && lowercase(b.display.label@) == p
            + seq![d] + y ==> key_before(item_key(a), item_key(b)) && !key_before(
            item_key(b),
            item_key(a),
        ),
        a.issuer is None && b.issuer is None && lowercase(a.display.label@) == p + seq![c] + x
            && lowercase(b.display.label@) == p + seq![d] + y ==> key_before(
            item_key(a),
            item_key(b),
        ) && !key_before(item_key(b), item_key(a)),
        a.issuer is Some && b.issuer is Some && lowercase(a.issuer->0@) == lowercase(b.issuer->0@)
            && lowercase(a.display.label@) == lowercase(b.display.label@) ==> item_key(a)
            == item_key(b),
{
    differing_texts_are_ordered(p, c, d, x, y);
    text_order_is_total(p + seq![c] + x, p + seq![d] + y);
    if a.issuer is Some {
        text_order_is_total(lowercase(a.issuer->0@), lowercase(a.issuer->0@));
    }
    text_order_is_total(Seq::<char>::empty(), Seq::<char>::empty());
}

/// The order of the keys is total: of two keys, one comes first or they are
/// equal.
pub proof fn key_order_is_total(a: (Seq<char>, Seq<char>), b: (Seq<char>, Seq<char>))
    ensures
        a == b ==> !key_before(a, b),
        a != b ==> key_before(a, b) != key_before(b, a),
{
    text_order_is_total(a.0, b.0);
    text_order_is_total(a.1, b.1);
    if a.0 == b.0 && a.1 == b.1 {
        assert(a == b);
    }
}

/// The order of the keys is transitive.
pub proof fn key_order_is_transitive(
    a: (Seq<char>, Seq<char>),
    b: (Seq<char>, Seq<char>),
    c: (Seq<char>, Seq<char>),
)
    requires
        key_before(a, b),
        key_before(b, c),
    ensures
        key_before(a, c),
{
    if text_before(a.0, b.0) && text_before(b.0, c.0) {
        text_order_is_transitive(a.0, b.0, c.0);
    }
    text_order_is_total(a.0, b.0);
    text_order_is_total(b.0, c.0);
    if a.0 == b.0 && b.0 == c.0 {
        text_order_is_transitive(a.1, b.1, c.1);
    }
}

/// Rows without an issuer come first: no key comes before an empty issuer but
/// by its label.
pub proof fn unnamed_issuers_come_first(a: (Seq<char>, Seq<char>), b: (Seq<char>, Seq<char>))
    requires
        a.0.len() == 0,
        b.0.len() > 0,
    ensures
        key_before(a, b),
        !key_before(b, a),
{
}

/// A row of the store that shows the label of its model is sorted as the
/// model is.
pub proof fn row_sorts_as_its_model(model: AccountRowModel, item: RowItem)
    requires
        item.issuer == model.issuer,
        item.display.label@ == model.display_label@,
    ensures
        item_key(item) == sort_key(optional_text(model.issuer), model.display_label@),
{
}

/// A splice takes rows out at a position and puts others in their place, and
/// splices act one after another.
pub proof fn splices_act_in_turn(
    store: Seq<RowSource>,
    splice: StoreSpliceView,
    rest: Seq<StoreSpliceView>,
)
    requires
        0 <= splice.position,
        0 <= splice.n_remove,
        splice.position + splice.n_remove <= store.len(),
    ensures
        run_splices(store, Seq::empty()) == store,
        ({
            let next = store.take(splice.position) + splice.additions + store.skip(
                splice.position + splice.n_remove,
            );
            run_splices(store, seq![splice] + rest) == run_splices(next, rest)
        }),
{
    let splices = seq![splice] + rest;
    assert(splices.drop_first() =~= rest);
    assert(splices[0] == splice);
    assert(store.take(splice.position) =~= store.subrange(0, splice.position));
    assert(store.skip(splice.position + splice.n_remove) =~= store.subrange(
        splice.position + splice.n_remove,
        store.len() as int,
    ));
}

/// A removal takes rows out at a position, an insertion puts new rows there, and
/// operations act one after another.
pub proof fn operations_act_in_turn<T>(
    store: Seq<T>,
    added: Seq<T>,
    op: SpliceOp,
    rest: Seq<SpliceOp>,
)
    ensures
        run_ops(store, added, Seq::empty()) == store,
        match op {
            SpliceOp::Remove { position, n_remove } => position + n_remove <= store.len()
                ==> run_ops(store, added, seq![op] + rest) == run_ops(
                store.take(position as int) + store.skip(position + n_remove),
                added,
                rest,
            ),
            SpliceOp::Insert { position, indices } => position <= store.len() ==> run_ops(
                store,
                added,
                seq![op] + rest,
            ) == run_ops(
                store.take(position as int) + Seq::new(
                    indices@.len(),
                    |i: int| added[indices@[i] as int],
                ) + store.skip(position as int),
                added,
                rest,
            ),
        },
{
    let ops = seq![op] + rest;
    assert(ops.drop_first() =~= rest);
    assert(ops[0] == op);
    match op {
        SpliceOp::Remove { position, n_remove } => {
            if position + n_remove <= store.len() {
                assert(store.take(position as int) =~= store.subrange(0, position as int));
                assert(store.skip(position + n_remove) =~= store.subrange(
                    position + n_remove,
                    store.len() as int,
                ));
            }
        },
        SpliceOp::Insert { position, indices } => {
            if position <= store.len() {
                assert(store.take(position as int) =~= store.subrange(0, position as int));
                assert(store.skip(position as int) =~= store.subrange(
                    position as int,
                    store.len() as int,
                ));
            }
        },
    }
}

/// A heading is known by its title and an account row by its account; a row without
/// an account has no identity.
pub proof fn identity_is_title_or_account(item: RowItem)
    ensures
        match item.kind {
            RowKind::Section(title) => row_key(item) matches Some(key) && key
                == RowKey::Section(title) && key@ == RowKeyView::Section(title@),
            RowKind::Account => match item.id {
                Some(id) => row_key(item) matches Some(key) && key == RowKey::Account(id) && key@
                    == RowKeyView::Account(id),
                None => row_key(item) is None,
            },
        },
{
}

/// A row is sorted by the lower case of its issuer, then by that of its label;
/// a row without an issuer by the label alone.
pub proof fn rows_are_sorted_by_issuer_and_label(a: RowItem, b: RowItem)
    ensures
        ({
            let issuer_a = match a.issuer {
                Some(name) => lowercase(name@),
                None => Seq::<char>::empty(),
            };
            let issuer_b = match b.issuer {
                Some(name) => lowercase(name@),
                None => Seq::<char>::empty(),
            };
            let label_a = lowercase(a.display.label@);
            let label_b = lowercase(b.display.label@);
            &&& item_key(a) == (issuer_a, label_a)
            &&& text_before(issuer_a, issuer_b) ==> key_before(item_key(a), item_key(b))
            &&& issuer_a == issuer_b && text_before(label_a, label_b) ==> key_before(
                item_key(a),
                item_key(b),
            )
            &&& issuer_a == issuer_b ==> (key_before(item_key(a), item_key(b)) <==> text_before(
                label_a,
                label_b,
            ))
        }),
{
    text_order_is_total(
        match a.issuer {
            Some(name) => lowercase(name@),
            None => Seq::<char>::empty(),
        },
        match b.issuer {
            Some(name) => lowercase(name@),
            None => Seq::<char>::empty(),
        },
    );
}

/// The text of a sort key is what it holds.
pub proof fn key_texts_are_faithful(key: (String, String))
    ensures
        key_of(key).0 == key.0@,
        key_of(key).1 == key.1@,
{
}

/// Identities are equal where both are of the same account, or both are headings
/// of the same title.
pub proof fn equal_identities(a: RowKey, b: RowKey)
    ensures
        a.eq_spec(&b) <==> match (a, b) {
            (RowKey::Account(x), RowKey::Account(y)) => x.bits == y.bits,
            (RowKey::Section(x), RowKey::Section(y)) => x@ == y@,
            _ => false,
        },
{
}

/// The identities that a refresh goes by are those of the rows that have one, each
/// with the position of its row, in the order of the store. Rows without an identity
/// are left out.
pub proof fn rows_are_known_by_their_identity(items: Seq<RowItem>)
    requires
        items.len() <= usize::MAX,
    ensures
        held_keys(items).len() == key_slots(items).len(),
        forall|i: int|
            0 <= i < key_slots(items).len() ==> {
                let p = #[trigger] key_slots(items)[i] as int;
                &&& p < items.len()
                &&& match items[p].kind {
                    RowKind::Section(title) => held_keys(items)[i] == RowKeyView::Section(title@),
                    RowKind::Account => items[p].id is Some && held_keys(items)[i]
                        == RowKeyView::Account(items[p].id->0),
                }
            },
        forall|i: int, j: int|
            0 <= i < j < key_slots(items).len() ==> #[trigger] key_slots(items)[i]
                < #[trigger] key_slots(items)[j],
        forall|p: int|
            0 <= p < items.len() && ((#[trigger] items[p]).kind is Section || items[p].id is Some)
                ==> key_slots(items).contains(p as usize),
    decreases items.len(),
{
    if items.len() > 0 {
        let rest = items.drop_last();
        rows_are_known_by_their_identity(rest);
        let last = items.len() - 1;
        let before = key_slots(rest);
        let after = key_slots(items);
        assert(items.last() == items[last]);
        assert forall|i: int| 0 <= i < after.len() implies {
            let p = #[trigger] after[i] as int;
            &&& p < items.len()
            &&& match items[p].kind {
                RowKind::Section(title) => held_keys(items)[i] == RowKeyView::Section(title@),
                RowKind::Account => items[p].id is Some && held_keys(items)[i]
                    == RowKeyView::Account(items[p].id->0),
            }
        } by {
            if i < before.len() {
                assert(after[i] == before[i]);
                assert(rest[before[i] as int] == items[before[i] as int]);
            }
        }
        assert forall|i: int, j: int| 0 <= i < j < after.len() implies #[trigger] after[i]
            < #[trigger] after[j] by {
            assert(after[i] == before[i]);
            assert(before[i] < rest.len());
            if j < before.len() {
                assert(after[j] == before[j]);
            }
        }
        assert forall|p: int|
            0 <= p < items.len() && ((#[trigger] items[p]).kind is Section || items[p].id is Some) implies after.contains(
            p as usize,
        ) by {
            if p < last {
                assert(rest[p] == items[p]);
                let i = choose|i: int| 0 <= i < before.len() && before[i] == p as usize;
                assert(after[i] == p as usize);
            } else {
                assert(after[before.len() as int] == last as usize);
            }
        }
    }
}

/// The accounts that a refresh goes by are those of the rows that are bound to one,
/// each with the position of its row, in the order of the store.
pub proof fn rows_are_known_by_their_account(items: Seq<RowItem>)
    requires
        items.len() <= usize::MAX,
    ensures
        held_ids(items).len() == id_slots(items).len(),
        forall|i: int|
            0 <= i < id_slots(items).len() ==> {
                let p = #[trigger] id_slots(items)[i] as int;
                &&& p < items.len()
                &&& items[p].id is Some && held_ids(items)[i] == items[p].id->0.bits
            },
        forall|i: int, j: int|
            0 <= i < j < id_slots(items).len() ==> #[trigger] id_slots(items)[i]
                < #[trigger] id_slots(items)[j],
        forall|p: int|
            0 <= p < items.len() && ((#[trigger] items[p]).id is Some)
                ==> id_slots(items).contains(p as usize),
    decreases items.len(),
{
    if items.len() > 0 {
        let rest = items.drop_last();
        rows_are_known_by_their_account(rest);
        let last = items.len() - 1;
        let before = id_slots(rest);
        let after = id_slots(items);
        assert(items.last() == items[last]);
        assert forall|i: int| 0 <= i < after.len() implies {
            let p = #[trigger] after[i] as int;
            &&& p < items.len()
            &&& items[p].id is Some && held_ids(items)[i] == items[p].id->0.bits
        } by {
            if i < before.len() {
                assert(after[i] == before[i]);
                assert(rest[before[i] as int] == items[before[i] as int]);
            }
        }
        assert forall|i: int, j: int| 0 <= i < j < after.len() implies #[trigger] after[i]
            < #[trigger] after[j] by {
            assert(after[i] == before[i]);
            assert(before[i] < rest.len());
            if j < before.len() {
                assert(after[j] == before[j]);
            }
        }
        assert forall|p: int|
            0 <= p < items.len() && ((#[trigger] items[p]).id is Some) implies after.contains(
            p as usize,
        ) by {
            if p < last {
                assert(rest[p] == items[p]);
                let i = choose|i: int| 0 <= i < before.len() && before[i] == p as usize;
                assert(after[i] == p as usize);
            } else {
                assert(after[before.len() as int] == last as usize);
            }
        }
    }
}

/// The rows that splices put in, one splice after another.
pub open spec fn put_in(splices: Seq<StoreSpliceView>) -> Seq<RowSource>
    decreases splices.len(),
{
    if splices.len() == 0 {
        Seq::empty()
    } else {
        splices[0].additions + put_in(splices.drop_first())
    }
}

proof fn lemma_taken_after<V>(new: Seq<V>, from: int, upto: int, taken: Set<V>)
    ensures
        forall|v: V| #[trigger] taken.contains(v) ==> taken_after(new, from, upto, taken).contains(v),
        forall|i: int|
            from <= i < upto ==> taken_after(new, from, upto, taken).contains(#[trigger] new[i]),
    decreases upto - from,
{
    if from < upto {
        lemma_taken_after(new, from, upto - 1, taken);
    }
}

/// Whether `source` takes the live row of the identity `v`.
spec fn takes<V>(old: Seq<V>, slots: Seq<usize>, source: RowSource, v: V) -> bool {
    old.contains(v) && source == RowSource::Reused(slots[last_position(old, v)])
}

proof fn lemma_sources_take_once<V>(
    old: Seq<V>,
    slots: Seq<usize>,
    new: Seq<V>,
    from: int,
    upto: int,
    taken: Set<V>,
)
    ensures
        sources(old, slots, new, from, upto, taken).len() == (if from < upto {
            upto - from
        } else {
            0
        }),
        forall|k: int|
            0 <= k < upto - from ==> {
                let source = #[trigger] sources(old, slots, new, from, upto, taken)[k];
                source is Reused ==> takes(old, slots, source, new[from + k]) && !taken_after(
                    new,
                    from,
                    from + k,
                    taken,
                ).contains(new[from + k])
            },
    decreases upto - from,
{
    if from < upto {
        lemma_sources_take_once(old, slots, new, from, upto - 1, taken);
        let before = sources(old, slots, new, from, upto - 1, taken);
        let all = sources(old, slots, new, from, upto, taken);
        assert forall|k: int| 0 <= k < upto - from implies {
            let source = #[trigger] all[k];
            source is Reused ==> takes(old, slots, source, new[from + k]) && !taken_after(
                new,
                from,
                from + k,
                taken,
            ).contains(new[from + k])
        } by {
            if k < before.len() {
                assert(all[k] == before[k]);
            }
        }
    }
}

proof fn lemma_takes_apart<V>(
    old: Seq<V>,
    slots: Seq<usize>,
    a: RowSource,
    v: V,
    b: RowSource,
    w: V,
)
    requires
        slots.len() == old.len(),
        slots.no_duplicates(),
        takes(old, slots, a, v),
        takes(old, slots, b, w),
        v != w,
    ensures
        a != b,
{
    lemma_last_position(old, v);
    lemma_last_position(old, w);
}

proof fn lemma_put_in_once<V>(
    steps: Seq<SpliceStep>,
    old: Seq<V>,
    slots: Seq<usize>,
    new: Seq<V>,
    taken: Set<V>,
)
    requires
        slots.len() == old.len(),
        slots.no_duplicates(),
    ensures
        ({
            let rows = put_in(resolved(steps, old, slots, new, taken));
            &&& forall|k: int|
                0 <= k < rows.len() && (#[trigger] rows[k]) is Reused ==> exists|v: V|
                    !taken.contains(v) && #[trigger] takes(old, slots, rows[k], v)
            &&& forall|i: int, j: int|
                0 <= i < j < rows.len() && (#[trigger] rows[i]) is Reused ==> rows[i]
                    != #[trigger] rows[j]
        }),
    decreases steps.len(),
{
    if steps.len() > 0 {
        let tail = steps.drop_first();
        let all = resolved(steps, old, slots, new, taken);
        let rows = put_in(all);
        match steps[0] {
            SpliceStep::Remove { position, count } => {
                lemma_put_in_once(tail, old, slots, new, taken);
                assert(all.drop_first() =~= resolved(tail, old, slots, new, taken));
                assert(rows =~= put_in(all.drop_first()));
            },
            SpliceStep::Insert { position, from, upto } => {
                let later = taken_after(new, from, upto, taken);
                let first = sources(old, slots, new, from, upto, taken);
                let rest = put_in(resolved(tail, old, slots, new, later));
                lemma_put_in_once(tail, old, slots, new, later);
                lemma_sources_take_once(old, slots, new, from, upto, taken);
                lemma_taken_after(new, from, upto, taken);
                assert(all.drop_first() =~= resolved(tail, old, slots, new, later));
                assert(rows =~= first + rest);
                assert forall|k: int| 0 <= k < rows.len() && (#[trigger] rows[k]) is Reused implies
                    exists|v: V| !taken.contains(v) && #[trigger] takes(old, slots, rows[k], v) by {
                    if k < first.len() {
                        assert(rows[k] == first[k]);
                        lemma_taken_after(new, from, from + k, taken);
                        assert(takes(old, slots, rows[k], new[from + k]));
                    } else {
                        assert(rows[k] == rest[k - first.len()]);
                        let v = choose|v: V|
                            !later.contains(v) && #[trigger] takes(
                                old,
                                slots,
                                rest[k - first.len()],
                                v,
                            );
                        assert(takes(old, slots, rows[k], v));
                    }
                }
                assert forall|i: int, j: int|
                    0 <= i < j < rows.len() && (#[trigger] rows[i]) is Reused implies rows[i]
                    != #[trigger] rows[j] by {
                    if rows[j] is Reused {
                        if j < first.len() {
                            assert(rows[i] == first[i] && rows[j] == first[j]);
                            lemma_taken_after(new, from, from + j, taken);
                            assert(taken_after(new, from, from + j, taken).contains(new[from + i]));
                            lemma_takes_apart(
                                old,
                                slots,
                                rows[i],
                                new[from + i],
                                rows[j],
                                new[from + j],
                            );
                        } else if i >= first.len() {
                            assert(rows[i] == rest[i - first.len()]);
                            assert(rows[j] == rest[j - first.len()]);
                        } else {
                            assert(rows[i] == first[i]);
                            assert(rows[j] == rest[j - first.len()]);
                            let w = choose|w: V|
                                !later.contains(w) && #[trigger] takes(
                                    old,
                                    slots,
                                    rest[j - first.len()],
                                    w,
                                );
                            assert(later.contains(new[from + i]));
                            lemma_takes_apart(old, slots, rows[i], new[from + i], rows[j], w);
                        }
                    }
                }
            },
        }
    }
}

/// A refresh puts a live row back at most once, whatever is to be shown: a second
/// row of the same identity is a new one.
pub proof fn live_rows_are_put_back_once(
    items: Seq<RowItem>,
    keys: Seq<RowKeyView>,
    ids: Seq<u128>,
    i: int,
    j: int,
)
    requires
        items.len() <= usize::MAX,
        0 <= i < j,
    ensures
        ({
            let rows = put_in(
                resolved(
                    plan(held_keys(items), keys),
                    held_keys(items),
                    key_slots(items),
                    keys,
                    Set::empty(),
                ),
            );
            j < rows.len() && rows[i] is Reused ==> rows[i] != rows[j]
        }),
        ({
            let rows = put_in(
                resolved(
                    plan(held_ids(items), ids),
                    held_ids(items),
                    id_slots(items),
                    ids,
                    Set::empty(),
                ),
            );
            j < rows.len() && rows[i] is Reused ==> rows[i] != rows[j]
        }),
{
    rows_are_known_by_their_identity(items);
    rows_are_known_by_their_account(items);
    lemma_put_in_once(
        plan(held_keys(items), keys),
        held_keys(items),
        key_slots(items),
        keys,
        Set::empty(),
    );
    lemma_put_in_once(
        plan(held_ids(items), ids),
        held_ids(items),
        id_slots(items),
        ids,
        Set::empty(),
    );
}

} // verus!
