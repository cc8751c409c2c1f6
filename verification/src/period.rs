//! Classification of candidate files by modification time.
//!
//! A requested period keyword selects a time window; a file is kept when its
//! last-modified timestamp falls inside that window, evaluated against "now"
//! at filter time. All comparisons are strict, so a file modified exactly at
//! a window boundary is excluded. Timestamps are epoch milliseconds.

use vstd::prelude::*;

verus! {

/// A recognized retention window keyword.
#[derive(Clone, Copy, PartialEq, Eq, Structural, Debug)]
pub enum Period {
    /// Every file, unconditionally.
    All,
    /// Files modified within the last 24 hours.
    Today,
    /// Files modified within the last 7 days.
    Week,
    /// Files modified within the last 30 days.
    Month,
    /// Files modified strictly between 48 and 24 hours ago.
    Yesterday,
}

/// The period named by a keyword, or `None` for an unrecognized keyword.
pub open spec fn period_of(s: Seq<char>) -> Option<Period> {
    if s == "all"@ {
        Some(Period::All)
    } else if s == "today"@ {
        Some(Period::Today)
    } else if s == "week"@ {
        Some(Period::Week)
    } else if s == "month"@ {
        Some(Period::Month)
    } else if s == "yesterday"@ {
        Some(Period::Yesterday)
    } else {
        None
    }
}

/// Whether a file modified at `mtime` lies inside the window of `p`, with
/// both instants in epoch milliseconds and all bounds strict.
pub open spec fn in_period(p: Period, mtime: int, now: int) -> bool {
    match p {
        Period::All => true,
        Period::Today => mtime > now - 86400000,
        Period::Week => mtime > now - 7 * 86400000,
        Period::Month => mtime > now - 30 * 86400000,
        Period::Yesterday => mtime > now - 2 * 86400000 && mtime < now - 86400000,
    }
}

/// Parses a period keyword; unrecognized keywords (the empty string
/// included) yield `None`.
pub fn parse_period(s: &str) -> (r: Option<Period>)
    ensures
        r == period_of(s@),
{
    let t: String = s.to_owned();
    if t == "all".to_owned() {
        Some(Period::All)
    } else if t == "today".to_owned() {
        Some(Period::Today)
    } else if t == "week".to_owned() {
        Some(Period::Week)
    } else if t == "month".to_owned() {
        Some(Period::Month)
    } else if t == "yesterday".to_owned() {
        Some(Period::Yesterday)
    } else {
        None
    }
}

/// Decides inclusion of one file: true exactly when `mtime_ms` lies inside
/// the window that `p` spans before `now_ms`.
pub fn period_includes(p: Period, mtime_ms: u64, now_ms: u64) -> (r: bool)
    ensures
        r == in_period(p, mtime_ms as int, now_ms as int),
{
    match p {
        Period::All => true,
        Period::Today => now_ms < 86400000 || mtime_ms > now_ms - 86400000,
        Period::Week => now_ms < 604800000 || mtime_ms > now_ms - 604800000,
        Period::Month => now_ms < 2592000000 || mtime_ms > now_ms - 2592000000,
        Period::Yesterday => (now_ms < 172800000 || mtime_ms > now_ms - 172800000)
            && (now_ms >= 86400000 && mtime_ms < now_ms - 86400000),
    }
}

/// A file modified exactly at the 24-hour boundary is excluded from
/// `today`, since the comparison is strict.
pub proof fn lemma_today_boundary_excluded(now: int)
    ensures
        !in_period(Period::Today, now - 86400000, now),
{
}

} // verus!
