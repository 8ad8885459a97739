//! Keeping the rows of a listing in order.
use vstd::prelude::*;
use crate::adapter::database::model::CheckoutRow;

verus! {

/// The orders in which loans are listed.
#[derive(Clone, Copy, Debug, PartialEq, Eq, Structural)]
pub enum RowOrder {
    /// The loan that began first comes first.
    OldestCheckoutFirst,
    /// The loan that ended last comes first; an open loan comes before
    /// every returned one.
    LatestReturnFirst,
}

/// The number by which `order` ranks a row: a row with a smaller number
/// comes first.
pub open spec fn sort_key(order: RowOrder, row: CheckoutRow) -> int {
    match order {
        RowOrder::OldestCheckoutFirst => row.checked_out_at.0 as int,
        RowOrder::LatestReturnFirst => match row.returned_at {
            Some(at) => -(at.0 as int),
            None => -(i64::MAX as int) - 1,
        },
    }
}

/// Whether the rows stand in `order`.
pub open spec fn ordered(rows: Seq<CheckoutRow>, order: RowOrder) -> bool {
    forall|i: int, j: int|
        0 <= i < j < rows.len() ==> sort_key(order, rows[i]) <= sort_key(order, rows[j])
}

/// The first index at or after `start` whose row must come after `row`; the
/// length of `rows` if there is none.
pub open spec fn insertion_point_from(
    rows: Seq<CheckoutRow>,
    row: CheckoutRow,
    order: RowOrder,
    start: int,
) -> int
    decreases rows.len() - start,
{
    if start >= rows.len() {
        rows.len() as int
    } else if sort_key(order, rows[start]) > sort_key(order, row) {
        start
    } else {
        insertion_point_from(rows, row, order, start + 1)
    }
}

/// `rows` with `row` put behind every row that does not have to come after
/// it: rows of equal rank keep the order in which they were put in.
pub open spec fn insert_ordered(rows: Seq<CheckoutRow>, row: CheckoutRow, order: RowOrder) -> Seq<
    CheckoutRow,
> {
    rows.insert(insertion_point_from(rows, row, order, 0), row)
}

/// Where `insertion_point_from` points, and what stands on either side.
pub proof fn lemma_insertion_point(
    rows: Seq<CheckoutRow>,
    row: CheckoutRow,
    order: RowOrder,
    start: int,
)
    requires
        0 <= start <= rows.len(),
    ensures
        start <= insertion_point_from(rows, row, order, start) <= rows.len(),
        forall|j: int|
            start <= j < insertion_point_from(rows, row, order, start) ==> sort_key(order, rows[j])
                <= sort_key(order, row),
        insertion_point_from(rows, row, order, start) < rows.len() ==> sort_key(
            order,
            rows[insertion_point_from(rows, row, order, start)],
        ) > sort_key(order, row),
    decreases rows.len() - start,
{
    if start < rows.len() && sort_key(order, rows[start]) <= sort_key(order, row) {
        lemma_insertion_point(rows, row, order, start + 1);
    }
}

/// Putting a row into ordered rows leaves them ordered, and adds that row
/// and no other.
pub proof fn lemma_insert_ordered(rows: Seq<CheckoutRow>, row: CheckoutRow, order: RowOrder)
    requires
        ordered(rows, order),
    ensures
        ordered(insert_ordered(rows, row, order), order),
        insert_ordered(rows, row, order).len() == rows.len() + 1,
        insert_ordered(rows, row, order).to_multiset() == rows.to_multiset().insert(row),
        forall|other: CheckoutRow|
            insert_ordered(rows, row, order).contains(other) <==> other == row || rows.contains(
                other,
            ),
{
    let at = insertion_point_from(rows, row, order, 0);
    let out = insert_ordered(rows, row, order);
    lemma_insertion_point(rows, row, order, 0);
    assert forall|i: int, j: int| 0 <= i < j < out.len() implies sort_key(order, out[i])
        <= sort_key(order, out[j]) by {
        if j < at {
            assert(out[i] == rows[i] && out[j] == rows[j]);
        } else if j == at {
            assert(out[i] == rows[i]);
        } else if i < at {
            assert(out[i] == rows[i] && out[j] == rows[j - 1]);
            assert(sort_key(order, rows[i]) <= sort_key(order, row));
            if at < j - 1 {
                assert(sort_key(order, rows[at]) <= sort_key(order, rows[j - 1]));
            }
        } else if i == at {
            assert(out[j] == rows[j - 1]);
            if at < j - 1 {
                assert(sort_key(order, rows[at]) <= sort_key(order, rows[j - 1]));
            }
        } else {
            assert(out[i] == rows[i - 1] && out[j] == rows[j - 1]);
        }
    }
    vstd::seq_lib::to_multiset_insert(rows, at, row);
    assert forall|other: CheckoutRow| out.contains(other) <==> other == row || rows.contains(
        other,
    ) by {
        assert(out[at] == row);
        if rows.contains(other) {
            let k = choose|k: int| 0 <= k < rows.len() && rows[k] == other;
            assert(out[if k < at {
                k
            } else {
                k + 1
            }] == other);
        }
        if out.contains(other) && other != row {
            let k = choose|k: int| 0 <= k < out.len() && out[k] == other;
            assert(rows[if k < at {
                k
            } else {
                k - 1
            }] == other);
        }
    }
}

/// Whether `a` must come after `b` in `order`.
pub fn comes_after(order: RowOrder, a: &CheckoutRow, b: &CheckoutRow) -> (after: bool)
    ensures
        after == (sort_key(order, *a) > sort_key(order, *b)),
{
    match order {
        RowOrder::OldestCheckoutFirst => a.checked_out_at.0 > b.checked_out_at.0,
        RowOrder::LatestReturnFirst => match (a.returned_at, b.returned_at) {
            (Some(x), Some(y)) => x.0 < y.0,
            (Some(_), None) => true,
            (None, _) => false,
        },
    }
}

/// Puts `row` into `rows` at its place in `order`.
pub fn put_in_order(rows: &mut Vec<CheckoutRow>, row: CheckoutRow, order: RowOrder)
    ensures
        final(rows)@ == insert_ordered(old(rows)@, row, order),
{
    let mut at: usize = 0;
    while at < rows.len() && !comes_after(order, &rows[at], &row)
        invariant
            at <= rows.len(),
            rows@ == old(rows)@,
            insertion_point_from(rows@, row, order, 0) == insertion_point_from(
                rows@,
                row,
                order,
                at as int,
            ),
        decreases rows.len() - at,
    {
        at += 1;
    }
    rows.insert(at, row);
}

} // verus!
