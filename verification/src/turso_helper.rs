//! Turning the rows a database query yields into results: all rows, the
//! first row if any, or the number in the first column of the first row.
//!
//! The rows are read one at a time; each read hands over either a row, the
//! end of the rows, or a failure to read, and the functions here decide
//! what the reads amount to. When all rows or the first row are asked for,
//! a failed read is an error: the caller gets all the rows, or the first
//! row if any, or an error, never a part passed off as the whole. A count
//! reads as 0 when its row cannot be read.
use vstd::prelude::*;

verus! {

/// One read from the rows of a query.
pub enum RowRead<T> {
    /// A row, as the caller converted it.
    Row(T),
    /// There are no more rows.
    End,
    /// Reading the next row failed, with the error's message.
    Failed(String),
}

/// The count in the first column of the first row; 0 when there is no row,
/// the row cannot be read, or the column holds no integer.
pub open spec fn count_result(first: RowRead<Option<i64>>) -> i64 {
    match first {
        RowRead::Row(Some(n)) => n,
        _ => 0,
    }
}

/// The first row, if there is one: a row that could not be converted, or a
/// failed read, is the error; the end of the rows is no row.
pub open spec fn fetch_optional_result<T>(first: RowRead<Result<T, String>>) -> Result<Option<T>, String> {
    match first {
        RowRead::Row(Ok(value)) => Ok(Some(value)),
        RowRead::Row(Err(e)) => Err(e),
        RowRead::End => Ok(None),
        RowRead::Failed(e) => Err(e),
    }
}

/// Whether collecting all rows goes on after this read.
pub open spec fn fetch_all_continues<T>(read: RowRead<Result<T, String>>) -> bool {
    read matches RowRead::Row(Ok(_))
}

/// The rows collected once a row that goes on is added.
pub open spec fn fetch_all_after<T>(rows: Seq<T>, read: RowRead<Result<T, String>>) -> Seq<T> {
    match read {
        RowRead::Row(Ok(value)) => rows.push(value),
        _ => rows,
    }
}

/// The result when collecting stops at this read: all the rows collected
/// at the end of the rows, else the error of the row that could not be
/// converted or of the read that failed.
pub open spec fn fetch_all_done<T>(rows: Seq<T>, read: RowRead<Result<T, String>>) -> Result<Seq<T>, String> {
    match read {
        RowRead::Row(Err(e)) => Err(e),
        RowRead::Failed(e) => Err(e),
        _ => Ok(rows),
    }
}

/// Collecting all rows over a sequence of reads, from the rows collected so
/// far.
pub open spec fn fetch_all_run<T>(rows: Seq<T>, reads: Seq<RowRead<Result<T, String>>>) -> Result<Seq<T>, String>
    decreases reads.len(),
{
    if reads.len() == 0 {
        Ok(rows)
    } else if fetch_all_continues(reads[0]) {
        fetch_all_run(fetch_all_after(rows, reads[0]), reads.drop_first())
    } else {
        fetch_all_done(rows, reads[0])
    }
}

/// The result of collecting all rows over a sequence of reads.
pub open spec fn fetch_all_result<T>(reads: Seq<RowRead<Result<T, String>>>) -> Result<Seq<T>, String> {
    fetch_all_run(Seq::empty(), reads)
}

pub open spec fn rows_outcome<T>(r: Result<Vec<T>, String>) -> Result<Seq<T>, String> {
    match r {
        Ok(rows) => Ok(rows@),
        Err(e) => Err(e),
    }
}

/// The count that a count query's first read gives.
pub fn count(first: RowRead<Option<i64>>) -> (n: i64)
    ensures
        n == count_result(first),
        first matches RowRead::Row(Some(k)) ==> n == k,
        !(first matches RowRead::Row(Some(_))) ==> n == 0,
{
    match first {
        RowRead::Row(Some(n)) => n,
        _ => 0,
    }
}

/// The first row that a query's first read gives, if any.
pub fn fetch_optional<T>(first: RowRead<Result<T, String>>) -> (r: Result<Option<T>, String>)
    ensures
        r == fetch_optional_result(first),
{
    match first {
        RowRead::Row(Ok(value)) => Ok(Some(value)),
        RowRead::Row(Err(e)) => Err(e),
        RowRead::End => Ok(None),
        RowRead::Failed(e) => Err(e),
    }
}

/// Collects all rows of a query, one read at a time.
pub struct FetchAll<T> {
    rows: Vec<T>,
}

impl<T> FetchAll<T> {
    /// The rows collected so far.
    pub closed spec fn collected(&self) -> Seq<T> {
        self.rows@
    }

    /// Nothing collected yet.
    pub fn new() -> (fetch: FetchAll<T>)
        ensures
            fetch.collected() == Seq::<T>::empty(),
    {
        FetchAll { rows: Vec::new() }
    }

    /// Takes the next read: `None` while collecting goes on, else the
    /// result.
    pub fn step(&mut self, read: RowRead<Result<T, String>>) -> (done: Option<Result<Vec<T>, String>>)
        ensures
            fetch_all_continues(read) ==> done is None && final(self).collected() == fetch_all_after(
                old(self).collected(),
                read,
            ),
            !fetch_all_continues(read) ==> (done matches Some(r) && rows_outcome(r) == fetch_all_done(
                old(self).collected(),
                read,
            )),
    {
        match read {
            RowRead::Row(Ok(value)) => {
                self.rows.push(value);
                None
            },
            RowRead::Row(Err(e)) => Some(Err(e)),
            RowRead::Failed(e) => Some(Err(e)),
            RowRead::End => {
                let mut rows = Vec::new();
                std::mem::swap(&mut rows, &mut self.rows);
                Some(Ok(rows))
            },
        }
    }
}

proof fn lemma_fetch_all_run_keeps_prefix<T>(rows: Seq<T>, reads: Seq<RowRead<Result<T, String>>>)
    ensures
        fetch_all_run(rows, reads) matches Ok(v) ==> rows.len() <= v.len() && v.subrange(
            0,
            rows.len() as int,
        ) == rows,
    decreases reads.len(),
{
    if reads.len() > 0 && fetch_all_continues(reads[0]) {
        let next = fetch_all_after(rows, reads[0]);
        lemma_fetch_all_run_keeps_prefix(next, reads.drop_first());
        if let Ok(v) = fetch_all_run(rows, reads) {
            assert(v.subrange(0, next.len() as int) == next);
            assert(v.subrange(0, rows.len() as int) =~= next.subrange(0, rows.len() as int));
            assert(next.subrange(0, rows.len() as int) =~= rows);
        }
    } else if reads.len() > 0 {
        if let Ok(v) = fetch_all_run(rows, reads) {
            assert(v.subrange(0, rows.len() as int) =~= rows);
        }
    } else {
        assert(rows.subrange(0, rows.len() as int) =~= rows);
    }
}

/// Law: the first row is the first of all rows. Whenever collecting all
/// rows over the reads succeeds, `fetch_optional` on the first read gives
/// the first collected row, or no row when none was collected; and a first
/// row that cannot be converted, or a first read that fails, is an error
/// for both.
pub proof fn law_fetch_optional_is_first_of_fetch_all<T>(reads: Seq<RowRead<Result<T, String>>>)
    requires
        reads.len() > 0,
    ensures
        fetch_all_result(reads) matches Ok(v) ==> fetch_optional_result(reads[0]) == (if v.len()
            > 0 {
            Ok::<Option<T>, String>(Some(v[0]))
        } else {
            Ok::<Option<T>, String>(None)
        }),
        reads[0] matches RowRead::Row(Err(e)) ==> fetch_all_result(reads) == Err::<Seq<T>, String>(e)
            && fetch_optional_result(reads[0]) == Err::<Option<T>, String>(e),
        reads[0] matches RowRead::Failed(e) ==> fetch_all_result(reads) == Err::<Seq<T>, String>(e)
            && fetch_optional_result(reads[0]) == Err::<Option<T>, String>(e),
{
    let first = reads[0];
    if let RowRead::Row(Ok(x)) = first {
        let start = Seq::<T>::empty().push(x);
        lemma_fetch_all_run_keeps_prefix(start, reads.drop_first());
        if let Ok(v) = fetch_all_result(reads) {
            assert(v.subrange(0, 1)[0] == v[0]);
            assert(start[0] == x);
        }
    }
}

/// Law: the count is the integer in the first column of the first row,
/// whatever that integer is; with no such integer it is 0.
pub proof fn law_count_is_first_column(n: i64, e: String)
    ensures
        count_result(RowRead::Row(Some(n))) == n,
        count_result(RowRead::<Option<i64>>::Row(None)) == 0,
        count_result(RowRead::<Option<i64>>::End) == 0,
        count_result(RowRead::<Option<i64>>::Failed(e)) == 0,
{
}

/// The reads of a query that yields `values`, each row converted, then the
/// end of the rows.
pub open spec fn reads_of_rows<T>(values: Seq<T>) -> Seq<RowRead<Result<T, String>>> {
    Seq::new(values.len() + 1, |i: int| if i < values.len() {
        RowRead::Row(Ok(values[i]))
    } else {
        RowRead::End
    })
}

/// Law: each row read keeps the rows collected before it and adds itself
/// at the end.
pub proof fn law_row_is_collected_last<T>(rows: Seq<T>, value: T)
    ensures
        fetch_all_continues(RowRead::<Result<T, String>>::Row(Ok(value))),
        fetch_all_after(rows, RowRead::<Result<T, String>>::Row(Ok(value))).len() == rows.len() + 1,
        fetch_all_after(rows, RowRead::<Result<T, String>>::Row(Ok(value))).last() == value,
        fetch_all_after(rows, RowRead::<Result<T, String>>::Row(Ok(value))).drop_last() == rows,
{
    assert(rows.push(value).drop_last() =~= rows);
}

proof fn lemma_fetch_all_run_collects<T>(rows: Seq<T>, values: Seq<T>)
    ensures
        fetch_all_run(rows, reads_of_rows(values)) == Ok::<Seq<T>, String>(rows + values),
    decreases values.len(),
{
    let reads = reads_of_rows(values);
    if values.len() == 0 {
        assert(reads[0] is End);
        assert(rows + values =~= rows);
    } else {
        assert(reads[0] == RowRead::<Result<T, String>>::Row(Ok(values[0])));
        assert(reads.drop_first() =~= reads_of_rows(values.drop_first()));
        lemma_fetch_all_run_collects(rows.push(values[0]), values.drop_first());
        assert(rows.push(values[0]) + values.drop_first() =~= rows + values);
    }
}

/// Law: all rows are collected. When a query yields any number of rows, each
/// converted, and then ends, collecting all rows gives every one of them,
/// in the order they were read.
pub proof fn law_fetch_all_collects_every_row<T>(values: Seq<T>)
    ensures
        fetch_all_result(reads_of_rows(values)) == Ok::<Seq<T>, String>(values),
{
    lemma_fetch_all_run_collects(Seq::<T>::empty(), values);
    assert(Seq::<T>::empty() + values =~= values);
}

} // verus!
