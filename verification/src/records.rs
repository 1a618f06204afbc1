//! How much of a result is handed on: whole batches of rows, up to a number
//! of records.

use vstd::prelude::*;

verus! {

/// The number of rows in the first `count` batches.
pub open spec fn rows_in(rows: Seq<usize>, count: int) -> int
    decreases count,
{
    if count <= 0 {
        0
    } else {
        rows_in(rows, count - 1) + rows[count - 1]
    }
}

/// The number of batches that are handed on: batches are taken whole and in
/// order, and no further one once `max_records` rows are reached. The first
/// batch is always taken.
pub open spec fn batches_taken(rows: Seq<usize>, max_records: usize, count: int) -> bool {
    &&& 0 <= count <= rows.len()
    &&& rows.len() > 0 ==> count >= 1
    &&& forall|k: int| 1 <= k < count ==> rows_in(rows, k) < max_records
    &&& count < rows.len() ==> rows_in(rows, count) >= max_records
}

/// There is one number of batches to take, and no other.
pub proof fn lemma_batches_taken_unique(rows: Seq<usize>, max_records: usize, a: int, b: int)
    requires
        batches_taken(rows, max_records, a),
        batches_taken(rows, max_records, b),
    ensures
        a == b,
{
    if a < b {
        assert(rows_in(rows, a) < max_records);
    } else if b < a {
        assert(rows_in(rows, b) < max_records);
    }
}

/// The number of batches to hand on, of batches with these numbers of rows.
pub fn batches_to_write(rows: &Vec<usize>, max_records: usize) -> (count: usize)
    ensures
        batches_taken(rows@, max_records, count as int),
{
    let mut count: usize = 0;
    let mut written: usize = 0;
    while count < rows.len()
        invariant
            0 <= count <= rows.len(),
            written == rows_in(rows@, count as int),
            written < max_records || count == 0,
            forall|k: int| 1 <= k <= count ==> rows_in(rows@, k) < max_records,
        decreases rows.len() - count,
    {
        let more = rows[count];
        count = count + 1;
        if more >= max_records - written || written >= max_records {
            return count;
        }
        written = written + more;
    }
    count
}

} // verus!
