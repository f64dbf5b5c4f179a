use vstd::prelude::*;

use crate::job::{JobView, MigrationJob};

verus! {

/// Why a tabular input yields no job list: its row structure could not be
/// parsed at all, or some row carries fewer than the four required fields
/// (the payload is the index of the first such row).
#[derive(Clone, Copy, Debug, PartialEq, Eq, Structural)]
pub enum InputError {
    Structure,
    ShortRow(usize),
}

/// What the CSV parser makes of a byte content: `None` where the row structure
/// is unparseable, otherwise each row's fields, in row order, first row
/// included as data. A function of the bytes alone.
pub uninterp spec fn csv_rows_of(bytes: Seq<u8>) -> Option<Seq<Seq<Seq<char>>>>;

/// The error type of the CSV parser, carried through untouched.
#[verifier::external_type_specification]
#[verifier::external_body]
pub struct ExCsvError(csv::Error);

/// Relies on csv::ReaderBuilder and csv::Reader::records: parses the byte
/// content as headerless CSV; the result depends on the bytes alone.
#[verifier::external_body]
fn parse_csv_rows(bytes: &Vec<u8>) -> (r: Result<Vec<Vec<String>>, csv::Error>)
    ensures
        r is Ok <==> csv_rows_of(bytes@) is Some,
        r is Ok ==> (r->Ok_0).deep_view() == csv_rows_of(bytes@)->Some_0,
{
    let mut rdr = csv::ReaderBuilder::new().has_headers(false).from_reader(&bytes[..]);
    let mut rows: Vec<Vec<String>> = Vec::new();
    for record in rdr.records() {
        match record {
            Ok(rec) => rows.push(rec.iter().map(|field| field.to_string()).collect()),
            Err(e) => return Err(e),
        }
    }
    Ok(rows)
}

/// A row carries enough fields to name both account pairs.
pub open spec fn row_complete(row: Seq<Seq<char>>) -> bool {
    row.len() >= 4
}

pub open spec fn rows_all_complete(rows: Seq<Seq<Seq<char>>>) -> bool {
    forall|i: int| 0 <= i < rows.len() ==> #[trigger] row_complete(rows[i])
}

/// Row `k` is the first row of `rows` with fewer than four fields.
pub open spec fn first_short_row(rows: Seq<Seq<Seq<char>>>, k: int) -> bool {
    &&& 0 <= k < rows.len()
    &&& !row_complete(rows[k])
    &&& forall|j: int| 0 <= j < k ==> #[trigger] row_complete(rows[j])
}

/// The job a complete row describes: its first four fields, in fixed order.
pub open spec fn spec_job_of_row(row: Seq<Seq<char>>) -> JobView
    recommends
        row_complete(row),
{
    JobView { old_email: row[0], old_password: row[1], new_email: row[2], new_password: row[3] }
}

/// How a job list relates to the rows it was drawn from: one job per row, in
/// row order, each from its row's first four fields.
pub open spec fn jobs_match_rows(rows: Seq<Seq<Seq<char>>>, jobs: Seq<JobView>) -> bool {
    &&& jobs.len() == rows.len()
    &&& forall|i: int| 0 <= i < rows.len() ==> #[trigger] jobs[i] == spec_job_of_row(rows[i])
}

/// Builds one job per row, in row order, skipping nothing. Succeeds exactly
/// when every row carries at least four fields; otherwise nothing is returned
/// and the error names the first short row.
pub fn jobs_from_rows(rows: &Vec<Vec<String>>) -> (r: Result<Vec<MigrationJob>, InputError>)
    ensures
        r is Ok <==> rows_all_complete(rows.deep_view()),
        r is Ok ==> jobs_match_rows(rows.deep_view(), (r->Ok_0).deep_view()),
        r is Err ==> ((r->Err_0) matches InputError::ShortRow(k) && first_short_row(
            rows.deep_view(),
            k as int,
        )),
{
    let ghost rv: Seq<Seq<Seq<char>>> = rows.deep_view();
    let mut jobs: Vec<MigrationJob> = Vec::new();
    let n = rows.len();
    for i in 0..n
        invariant
            n == rows.len(),
            rv == rows.deep_view(),
            jobs.len() == i,
            forall|j: int| 0 <= j < i ==> #[trigger] row_complete(rv[j]),
            forall|j: int| 0 <= j < i ==> #[trigger] jobs.deep_view()[j] == spec_job_of_row(rv[j]),
    {
        let row = &rows[i];
        if row.len() < 4 {
            assert(first_short_row(rv, i as int));
            return Err(InputError::ShortRow(i));
        }
        let job = MigrationJob {
            old_email: row[0].clone(),
            old_password: row[1].clone(),
            new_email: row[2].clone(),
            new_password: row[3].clone(),
        };
        proof {
            assert(rv[i as int] == row.deep_view());
            assert(job@ == spec_job_of_row(rv[i as int]));
        }
        let ghost pre = jobs.deep_view();
        jobs.push(job);
        proof {
            assert(jobs.deep_view() =~= pre.push(job.deep_view()));
        }
    }
    assert(jobs_match_rows(rv, jobs.deep_view()));
    Ok(jobs)
}

/// Turns a tabular byte content into the run's job list: parses it as
/// headerless CSV and builds one job per row. Fails with `Structure` exactly
/// when the rows cannot be parsed, and with `ShortRow` naming the first row
/// with fewer than four fields; no partial list is ever returned.
pub fn load_jobs(bytes: &Vec<u8>) -> (r: Result<Vec<MigrationJob>, InputError>)
    ensures
        r == Err::<Vec<MigrationJob>, InputError>(InputError::Structure) <==> csv_rows_of(
            bytes@,
        ) is None,
        csv_rows_of(bytes@) is Some ==> {
            let rows = csv_rows_of(bytes@)->Some_0;
            &&& (r is Ok <==> rows_all_complete(rows))
            &&& (r is Ok ==> jobs_match_rows(rows, (r->Ok_0).deep_view()))
            &&& (r is Err ==> ((r->Err_0) matches InputError::ShortRow(k) && first_short_row(
                rows,
                k as int,
            )))
        },
{
    match parse_csv_rows(bytes) {
        Err(_) => Err(InputError::Structure),
        Ok(rows) => jobs_from_rows(&rows),
    }
}

} // verus!
