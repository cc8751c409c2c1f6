//! The retrieval pipeline around the per-file parser: resolving the records
//! directory, filtering discovered candidates by period, and aggregating
//! per-file outcomes into the final list.
//!
//! The stages here work on plain values — a resolved home directory, the
//! discovered paths with their modification times, the per-file parse
//! outcomes — so that a caller doing the surrounding I/O and concurrency can
//! hand each stage exactly what it saw, in the order it saw it.

use vstd::prelude::*;
use vstd::string::StringExecFns;

use crate::errors::Error;
use crate::period::{Period, in_period, parse_period, period_includes, period_of};
use crate::record::Record;

verus! {

/// One discovered candidate file: its display path and its last-modified
/// instant in epoch milliseconds.
pub struct FileMeta {
    pub path: String,
    pub mtime_ms: u64,
}

/// Resolves the records directory under a home directory; a platform
/// without one is a fatal failure of the whole request.
pub fn records_dir(home: Option<String>) -> (r: Result<String, Error>)
    ensures
        home matches Some(h) ==> (r matches Ok(d) && d@ == h@ + "/speedrunigt/records/"@),
        home is None ==> (r matches Err(e) && e matches Error::Other(m) && m@
            == "Home dir not found!"@),
{
    match home {
        Some(h) => Ok(h.concat("/speedrunigt/records/")),
        None => Err(Error::Other("Home dir not found!".to_owned())),
    }
}

/// The glob pattern that enumerates candidate record files: every `.json`
/// entry directly under the records directory.
pub fn records_pattern(dir: &str) -> (r: String)
    ensures
        r@ == dir@ + "*.json"@,
{
    dir.to_owned().concat("*.json")
}

/// The paths of the candidates whose modification time lies inside the
/// window of `p` before `now`, in discovery order.
pub open spec fn included_paths(files: Seq<FileMeta>, p: Period, now: int) -> Seq<String>
    decreases files.len(),
{
    if files.len() == 0 {
        Seq::empty()
    } else if in_period(p, files.last().mtime_ms as int, now) {
        included_paths(files.drop_last(), p, now).push(files.last().path)
    } else {
        included_paths(files.drop_last(), p, now)
    }
}

proof fn lemma_included_take_step(files: Seq<FileMeta>, p: Period, now: int, i: int)
    requires
        0 <= i < files.len(),
    ensures
        included_paths(files.take(i + 1), p, now) == if in_period(
            p,
            files[i].mtime_ms as int,
            now,
        ) {
            included_paths(files.take(i), p, now).push(files[i].path)
        } else {
            included_paths(files.take(i), p, now)
        },
{
    assert(files.take(i + 1).last() == files[i]);
    assert(files.take(i + 1).drop_last() =~= files.take(i));
}

/// Filters the discovered candidates by the requested period keyword,
/// keeping discovery order. An unrecognized keyword is rejected as a fatal
/// input error rather than silently matching nothing.
pub fn filter_record_files(files: &Vec<FileMeta>, period: &str, now_ms: u64) -> (r: Result<
    Vec<String>,
    Error,
>)
    ensures
        period_of(period@) matches Some(p) ==> (r matches Ok(kept) && kept@ == included_paths(
            files@,
            p,
            now_ms as int,
        )),
        period_of(period@) is None ==> (r matches Err(e) && e matches Error::Other(m) && m@
            == "Invalid period!"@),
{
    let p = match parse_period(period) {
        Some(p) => p,
        None => {
            return Err(Error::Other("Invalid period!".to_owned()));
        },
    };
    let mut kept: Vec<String> = Vec::new();
    let n = files.len();
    let mut i: usize = 0;
    while i < n
        invariant
            i <= n,
            n == files.len(),
            kept@ == included_paths(files@.take(i as int), p, now_ms as int),
        decreases n - i,
    {
        proof {
            lemma_included_take_step(files@, p, now_ms as int, i as int);
        }
        if period_includes(p, files[i].mtime_ms, now_ms) {
            kept.push(files[i].path.clone());
        }
        i = i + 1;
    }
    proof {
        assert(files@.take(n as int) =~= files@);
    }
    Ok(kept)
}

/// The records of the successful outcomes of a batch, in outcome order:
/// failed files contribute nothing and raise no error.
pub open spec fn successful_records(outcomes: Seq<Result<Record, Error>>) -> Seq<Record>
    decreases outcomes.len(),
{
    if outcomes.len() == 0 {
        Seq::empty()
    } else if outcomes.last() is Ok {
        successful_records(outcomes.drop_last()).push(outcomes.last()->Ok_0)
    } else {
        successful_records(outcomes.drop_last())
    }
}

proof fn lemma_successful_take_step(outcomes: Seq<Result<Record, Error>>, i: int)
    requires
        0 <= i < outcomes.len(),
    ensures
        successful_records(outcomes.take(i + 1)) == if outcomes[i] is Ok {
            successful_records(outcomes.take(i)).push(outcomes[i]->Ok_0)
        } else {
            successful_records(outcomes.take(i))
        },
{
    assert(outcomes.take(i + 1).last() == outcomes[i]);
    assert(outcomes.take(i + 1).drop_last() =~= outcomes.take(i));
}

/// Aggregates the per-file outcomes of one batch: exactly the successfully
/// parsed records survive, in outcome order; per-file failures are dropped
/// without aborting the batch.
pub fn collect_records(outcomes: Vec<Result<Record, Error>>) -> (r: Vec<Record>)
    ensures
        r@ == successful_records(outcomes@),
{
    let ghost orig = outcomes@;
    let mut rest = outcomes;
    let mut records: Vec<Record> = Vec::new();
    let ghost mut i: int = 0;
    while rest.len() > 0
        invariant
            0 <= i <= orig.len(),
            rest@ == orig.skip(i),
            records@ == successful_records(orig.take(i)),
        decreases rest.len(),
    {
        proof {
            lemma_successful_take_step(orig, i);
            assert(orig.skip(i)[0] == orig[i]);
            assert(orig.skip(i).remove(0) =~= orig.skip(i + 1));
        }
        let outcome = rest.remove(0);
        match outcome {
            Ok(rec) => records.push(rec),
            Err(_) => (),
        }
        proof {
            i = i + 1;
        }
    }
    proof {
        assert(orig.take(i) =~= orig);
    }
    records
}

} // verus!
