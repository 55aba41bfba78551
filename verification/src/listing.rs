//! The order in which executions are listed: by the time of their last change,
//! as a text, and then by their identifier.
use crate::store::GraphRow;
use vstd::prelude::*;
use vstd::seq_lib::*;
use vstd::string::*;
use vstd::utf8::encode_utf8;

verus! {

/// Whether one text comes before another, byte by byte.
pub open spec fn bytes_before(a: Seq<u8>, b: Seq<u8>) -> bool
    decreases b.len(),
{
    if b.len() == 0 {
        false
    } else if a.len() == 0 {
        true
    } else if a[0] != b[0] {
        a[0] < b[0]
    } else {
        bytes_before(a.skip(1), b.skip(1))
    }
}

fn is_before(a: &[u8], b: &[u8]) -> (r: bool)
    ensures
        r == bytes_before(a@, b@),
{
    let mut i: usize = 0;
    assert(a@.skip(0) =~= a@);
    assert(b@.skip(0) =~= b@);
    while i < a.len() && i < b.len() && a[i] == b[i]
        invariant
            i <= a@.len(),
            i <= b@.len(),
            bytes_before(a@, b@) == bytes_before(a@.skip(i as int), b@.skip(i as int)),
        decreases a@.len() - i,
    {
        assert(a@.skip(i as int).skip(1) =~= a@.skip(i as int + 1));
        assert(b@.skip(i as int).skip(1) =~= b@.skip(i as int + 1));
        i += 1;
    }
    if i >= b.len() {
        false
    } else if i >= a.len() {
        true
    } else {
        a[i] < b[i]
    }
}

/// Whether one execution is listed before another.
pub open spec fn listed_before(a: GraphRow, b: GraphRow) -> bool {
    ||| bytes_before(encode_utf8(a.updated_at@), encode_utf8(b.updated_at@))
    ||| a.updated_at@ == b.updated_at@ && a.execution_id.bits < b.execution_id.bits
}

fn is_listed_before(a: &GraphRow, b: &GraphRow) -> (r: bool)
    ensures
        r == listed_before(*a, *b),
{
    is_before(a.updated_at.as_str().as_bytes(), b.updated_at.as_str().as_bytes()) || (
    a.updated_at == b.updated_at && a.execution_id.bits < b.execution_id.bits)
}

/// Where a row goes in a list, from index `from` on: before the first that it
/// comes before.
pub open spec fn place(rows: Seq<GraphRow>, row: GraphRow, from: int) -> int
    decreases rows.len() - from,
{
    if from < 0 || from >= rows.len() {
        rows.len() as int
    } else if listed_before(row, rows[from]) {
        from
    } else {
        place(rows, row, from + 1)
    }
}

/// Rows as they are listed.
pub open spec fn listed(rows: Seq<GraphRow>) -> Seq<GraphRow>
    decreases rows.len(),
{
    if rows.len() == 0 {
        Seq::empty()
    } else {
        let before = listed(rows.drop_last());
        before.insert(place(before, rows.last(), 0), rows.last())
    }
}

pub open spec fn rows_of(rows: Seq<&GraphRow>) -> Seq<GraphRow> {
    Seq::new(rows.len(), |i: int| *rows[i])
}

/// Lists rows in their order.
pub fn list_graphs(rows: &Vec<GraphRow>) -> (r: Vec<&GraphRow>)
    ensures
        rows_of(r@) == listed(rows@),
{
    let mut found: Vec<&GraphRow> = Vec::new();
    let mut i: usize = 0;
    assert(rows_of(found@) =~= listed(rows@.take(0)));
    while i < rows.len()
        invariant
            i <= rows@.len(),
            rows_of(found@) == listed(rows@.take(i as int)),
        decreases rows@.len() - i,
    {
        let ghost before = listed(rows@.take(i as int));
        let row = &rows[i];
        let mut p: usize = 0;
        while p < found.len() && !is_listed_before(row, found[p])
            invariant
                p <= found@.len(),
                rows_of(found@) == before,
                place(before, *row, 0) == place(before, *row, p as int),
            decreases found@.len() - p,
        {
            assert(before[p as int] == *found@[p as int]);
            p += 1;
        }
        proof {
            if p < found.len() {
                assert(before[p as int] == *found@[p as int]);
            }
            let next = rows@.take(i as int + 1);
            assert(next.drop_last() =~= rows@.take(i as int));
            assert(next.last() == *row);
            assert(rows_of(found@.insert(p as int, row)) =~= before.insert(p as int, *row));
        }
        found.insert(p, row);
        i += 1;
    }
    assert(rows@.take(rows@.len() as int) =~= rows@);
    found
}

proof fn lemma_never_before_itself(a: Seq<u8>)
    ensures
        !bytes_before(a, a),
    decreases a.len(),
{
    if a.len() > 0 {
        lemma_never_before_itself(a.skip(1));
    }
}

proof fn lemma_before_and_before(a: Seq<u8>, b: Seq<u8>, c: Seq<u8>)
    requires
        bytes_before(a, b),
        bytes_before(b, c),
    ensures
        bytes_before(a, c),
    decreases c.len(),
{
    if a.len() > 0 && a[0] == b[0] && b[0] == c[0] {
        lemma_before_and_before(a.skip(1), b.skip(1), c.skip(1));
    }
}

proof fn lemma_listed_and_listed(a: GraphRow, b: GraphRow, c: GraphRow)
    requires
        listed_before(a, b),
        listed_before(b, c),
    ensures
        listed_before(a, c),
        !listed_before(a, a),
{
    let x = encode_utf8(a.updated_at@);
    let y = encode_utf8(b.updated_at@);
    let z = encode_utf8(c.updated_at@);
    if bytes_before(x, y) && bytes_before(y, z) {
        lemma_before_and_before(x, y, z);
    }
    lemma_never_before_itself(x);
}

pub proof fn lemma_place(rows: Seq<GraphRow>, row: GraphRow, from: int)
    requires
        0 <= from <= rows.len(),
    ensures
        from <= place(rows, row, from) <= rows.len(),
        place(rows, row, from) < rows.len() ==> listed_before(
            row,
            rows[place(rows, row, from)],
        ),
        forall|k: int|
            from <= k < place(rows, row, from) ==> !listed_before(row, #[trigger] rows[k]),
    decreases rows.len() - from,
{
    if from < rows.len() && !listed_before(row, rows[from]) {
        lemma_place(rows, row, from + 1);
    }
}

/// A listing holds every row as often as the table does, and nothing in it
/// stands before what it should come after.
pub proof fn law_listing_is_in_order(rows: Seq<GraphRow>)
    ensures
        listed(rows).len() == rows.len(),
        listed(rows).to_multiset() == rows.to_multiset(),
        forall|i: int, j: int|
            0 <= i < j < rows.len() ==> !listed_before(
                #[trigger] listed(rows)[j],
                #[trigger] listed(rows)[i],
            ),
    decreases rows.len(),
{
    if rows.len() == 0 {
        assert(listed(rows) =~= rows);
    } else {
        let tail = rows.drop_last();
        let row = rows.last();
        law_listing_is_in_order(tail);
        let before = listed(tail);
        lemma_place(before, row, 0);
        let p = place(before, row, 0);
        let all = before.insert(p, row);
        to_multiset_insert(before, p, row);
        assert(rows =~= tail.push(row));
        tail.to_multiset_ensures();
        assert(rows.to_multiset() =~= tail.to_multiset().insert(row));
        assert forall|i: int, j: int| 0 <= i < j < rows.len() implies !listed_before(
            #[trigger] all[j],
            #[trigger] all[i],
        ) by {
            if i == p && listed_before(all[j], row) {
                assert(all[j] == before[j - 1]);
                lemma_listed_and_listed(before[j - 1], row, before[p]);
                if j - 1 == p {
                    lemma_listed_and_listed(row, before[p], row);
                } else {
                    assert(!listed_before(before[j - 1], before[p]));
                }
            } else if i != p && j != p {
                let a = if i < p {
                    i
                } else {
                    i - 1
                };
                let b = if j < p {
                    j
                } else {
                    j - 1
                };
                assert(all[i] == before[a] && all[j] == before[b]);
            }
        }
    }
}

} // verus!
