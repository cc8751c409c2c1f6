//! The normalized output unit of the pipeline and its timeline projection.
//!
//! A [`Record`] is built once per successfully parsed file. Its six derived
//! checkpoint fields are a pure function of its `timelines` sequence: for
//! each recognized checkpoint name, the field equals the in-game time of the
//! *last* timeline entry carrying that name, and `0` when no entry does.
//! Unrecognized timeline names are ignored. `key` and `file` are metadata
//! stamped by the pipeline, never taken from file content.

use vstd::prelude::*;

verus! {

/// One named checkpoint event of a run's timeline, carrying an in-game-time
/// and a real-time offset in the source file's integer time units.
#[derive(Debug)]
pub struct TimelineEvent {
    pub name: String,
    pub igt: i32,
    pub rta: i32,
}

/// One normalized speedrun attempt, derived from one on-disk JSON file.
#[derive(Debug)]
pub struct Record {
    /// Sequence number stamped by the pipeline in task-launch order.
    pub key: i32,
    /// Display path of the originating file, stamped by the pipeline.
    pub file: String,
    pub mc_version: String,
    pub category: String,
    pub run_type: String,
    pub is_completed: bool,
    pub is_coop: bool,
    pub is_hardcore: bool,
    pub world_name: String,
    pub is_cheat_allowed: bool,
    pub date: i64,
    pub retimed_igt: i32,
    pub final_igt: i32,
    pub final_rta: i32,
    pub timelines: Vec<TimelineEvent>,
    pub enter_nether: i32,
    pub enter_bastion: i32,
    pub enter_fortress: i32,
    pub nether_travel: i32,
    pub enter_stronghold: i32,
    pub enter_end: i32,
}

/// The in-game time of the last timeline entry named `name`, or `0` when no
/// entry carries that name.
pub open spec fn checkpoint_of(tl: Seq<TimelineEvent>, name: Seq<char>) -> i32
    decreases tl.len(),
{
    if tl.len() == 0 {
        0
    } else if tl.last().name@ == name {
        tl.last().igt
    } else {
        checkpoint_of(tl.drop_last(), name)
    }
}

/// The six derived checkpoint fields of `r` agree with the projection of its
/// timeline sequence.
pub open spec fn record_projected(r: Record) -> bool {
    &&& r.enter_nether == checkpoint_of(r.timelines@, "enter_nether"@)
    &&& r.enter_bastion == checkpoint_of(r.timelines@, "enter_bastion"@)
    &&& r.enter_fortress == checkpoint_of(r.timelines@, "enter_fortress"@)
    &&& r.nether_travel == checkpoint_of(r.timelines@, "nether_travel"@)
    &&& r.enter_stronghold == checkpoint_of(r.timelines@, "enter_stronghold"@)
    &&& r.enter_end == checkpoint_of(r.timelines@, "enter_end"@)
}

proof fn lemma_checkpoint_take_step(tl: Seq<TimelineEvent>, name: Seq<char>, i: int)
    requires
        0 <= i < tl.len(),
    ensures
        checkpoint_of(tl.take(i + 1), name) == if tl[i].name@ == name {
            tl[i].igt
        } else {
            checkpoint_of(tl.take(i), name)
        },
{
    assert(tl.take(i + 1).last() == tl[i]);
    assert(tl.take(i + 1).drop_last() =~= tl.take(i));
}

/// Later timeline entries of a name overwrite earlier ones: the projected
/// value for `name` is the in-game time of the last entry carrying it.
pub proof fn lemma_checkpoint_last_wins(tl: Seq<TimelineEvent>, name: Seq<char>, i: int)
    requires
        0 <= i < tl.len(),
        tl[i].name@ == name,
        forall|j: int| i < j < tl.len() ==> tl[j].name@ != name,
    ensures
        checkpoint_of(tl, name) == tl[i].igt,
    decreases tl.len(),
{
    if i == tl.len() - 1 {
    } else {
        assert(tl.last().name@ != name);
        assert(tl.drop_last()[i] == tl[i]);
        assert(forall|j: int| i < j < tl.drop_last().len() ==> tl.drop_last()[j] == tl[j]);
        lemma_checkpoint_last_wins(tl.drop_last(), name, i);
    }
}

/// A name absent from the whole timeline projects to `0`.
pub proof fn lemma_checkpoint_absent(tl: Seq<TimelineEvent>, name: Seq<char>)
    requires
        forall|j: int| 0 <= j < tl.len() ==> tl[j].name@ != name,
    ensures
        checkpoint_of(tl, name) == 0,
    decreases tl.len(),
{
    if tl.len() > 0 {
        assert(forall|j: int| 0 <= j < tl.drop_last().len() ==> tl.drop_last()[j] == tl[j]);
        lemma_checkpoint_absent(tl.drop_last(), name);
    }
}

/// On a projected record, a timeline holding `enter_nether` entries leaves
/// the field equal to whichever entry the projector processed last.
pub proof fn lemma_enter_nether_last_wins(r: Record, i: int)
    requires
        record_projected(r),
        0 <= i < r.timelines@.len(),
        r.timelines@[i].name@ == "enter_nether"@,
        forall|j: int| i < j < r.timelines@.len() ==> r.timelines@[j].name@ != "enter_nether"@,
    ensures
        r.enter_nether == r.timelines@[i].igt,
{
    lemma_checkpoint_last_wins(r.timelines@, "enter_nether"@, i);
}

/// On a projected record whose timeline omits `enter_end`, the field is `0`.
pub proof fn lemma_enter_end_absent(r: Record)
    requires
        record_projected(r),
        forall|j: int| 0 <= j < r.timelines@.len() ==> r.timelines@[j].name@ != "enter_end"@,
    ensures
        r.enter_end == 0,
{
    lemma_checkpoint_absent(r.timelines@, "enter_end"@);
}

/// Stamps `key` and `file` onto a freshly parsed record and projects its
/// timeline into the six checkpoint fields, in sequence order with later
/// entries overwriting earlier ones. Every other field is left unchanged.
pub fn project_record(r: &mut Record, key: i32, file: String)
    ensures
        final(r).key == key,
        final(r).file == file,
        final(r).mc_version == old(r).mc_version,
        final(r).category == old(r).category,
        final(r).run_type == old(r).run_type,
        final(r).is_completed == old(r).is_completed,
        final(r).is_coop == old(r).is_coop,
        final(r).is_hardcore == old(r).is_hardcore,
        final(r).world_name == old(r).world_name,
        final(r).is_cheat_allowed == old(r).is_cheat_allowed,
        final(r).date == old(r).date,
        final(r).retimed_igt == old(r).retimed_igt,
        final(r).final_igt == old(r).final_igt,
        final(r).final_rta == old(r).final_rta,
        final(r).timelines == old(r).timelines,
        record_projected(*final(r)),
{
    r.key = key;
    r.file = file;
    r.enter_nether = 0;
    r.enter_bastion = 0;
    r.enter_fortress = 0;
    r.nether_travel = 0;
    r.enter_stronghold = 0;
    r.enter_end = 0;
    let n = r.timelines.len();
    let mut i: usize = 0;
    while i < n
        invariant
            i <= n,
            n == r.timelines.len(),
            r.timelines == old(r).timelines,
            r.key == key,
            r.file == file,
            r.mc_version == old(r).mc_version,
            r.category == old(r).category,
            r.run_type == old(r).run_type,
            r.is_completed == old(r).is_completed,
            r.is_coop == old(r).is_coop,
            r.is_hardcore == old(r).is_hardcore,
            r.world_name == old(r).world_name,
            r.is_cheat_allowed == old(r).is_cheat_allowed,
            r.date == old(r).date,
            r.retimed_igt == old(r).retimed_igt,
            r.final_igt == old(r).final_igt,
            r.final_rta == old(r).final_rta,
            r.enter_nether == checkpoint_of(r.timelines@.take(i as int), "enter_nether"@),
            r.enter_bastion == checkpoint_of(r.timelines@.take(i as int), "enter_bastion"@),
            r.enter_fortress == checkpoint_of(r.timelines@.take(i as int), "enter_fortress"@),
            r.nether_travel == checkpoint_of(r.timelines@.take(i as int), "nether_travel"@),
            r.enter_stronghold == checkpoint_of(r.timelines@.take(i as int), "enter_stronghold"@),
            r.enter_end == checkpoint_of(r.timelines@.take(i as int), "enter_end"@),
        decreases n - i,
    {
        proof {
            reveal_strlit("enter_nether");
            reveal_strlit("enter_bastion");
            reveal_strlit("enter_fortress");
            reveal_strlit("nether_travel");
            reveal_strlit("enter_stronghold");
            reveal_strlit("enter_end");
            lemma_checkpoint_take_step(r.timelines@, "enter_nether"@, i as int);
            lemma_checkpoint_take_step(r.timelines@, "enter_bastion"@, i as int);
            lemma_checkpoint_take_step(r.timelines@, "enter_fortress"@, i as int);
            lemma_checkpoint_take_step(r.timelines@, "nether_travel"@, i as int);
            lemma_checkpoint_take_step(r.timelines@, "enter_stronghold"@, i as int);
            lemma_checkpoint_take_step(r.timelines@, "enter_end"@, i as int);
        }
        if r.timelines[i].name == "enter_nether".to_owned() {
            r.enter_nether = r.timelines[i].igt;
        }
        if r.timelines[i].name == "enter_bastion".to_owned() {
            r.enter_bastion = r.timelines[i].igt;
        }
        if r.timelines[i].name == "enter_fortress".to_owned() {
            r.enter_fortress = r.timelines[i].igt;
        }
        if r.timelines[i].name == "nether_travel".to_owned() {
            r.nether_travel = r.timelines[i].igt;
        }
        if r.timelines[i].name == "enter_stronghold".to_owned() {
            r.enter_stronghold = r.timelines[i].igt;
        }
        if r.timelines[i].name == "enter_end".to_owned() {
            r.enter_end = r.timelines[i].igt;
        }
        i = i + 1;
    }
    proof {
        assert(r.timelines@.take(n as int) =~= r.timelines@);
    }
}

/// The fields of one record as found in a file, before the schema is
/// enforced: `None` marks a field that was absent or of the wrong type.
pub struct RecordParts {
    pub mc_version: Option<String>,
    pub category: Option<String>,
    pub run_type: Option<String>,
    pub is_completed: Option<bool>,
    pub is_coop: Option<bool>,
    pub is_hardcore: Option<bool>,
    pub world_name: Option<String>,
    pub is_cheat_allowed: Option<bool>,
    pub date: Option<i64>,
    pub retimed_igt: Option<i64>,
    pub final_igt: Option<i64>,
    pub final_rta: Option<i64>,
    pub timelines: Option<Vec<TimelineEvent>>,
}

/// Whether a set of parts satisfies the record schema: every field but
/// `is_cheat_allowed` present, and the three core timings within `i32`.
pub open spec fn parts_complete(p: RecordParts) -> bool {
    &&& p.mc_version is Some
    &&& p.category is Some
    &&& p.run_type is Some
    &&& p.is_completed is Some
    &&& p.is_coop is Some
    &&& p.is_hardcore is Some
    &&& p.world_name is Some
    &&& p.date is Some
    &&& p.retimed_igt matches Some(x) && i32::MIN <= x <= i32::MAX
    &&& p.final_igt matches Some(x) && i32::MIN <= x <= i32::MAX
    &&& p.final_rta matches Some(x) && i32::MIN <= x <= i32::MAX
    &&& p.timelines is Some
}

/// Enforces the record schema on a set of extracted parts: succeeds exactly
/// when the parts are complete, carries every present field over unchanged,
/// defaults the absent `is_cheat_allowed` to false, and leaves the pipeline
/// metadata and the six checkpoint fields at their zero defaults.
pub fn record_from_parts(p: RecordParts) -> (r: Option<Record>)
    ensures
        r is Some <==> parts_complete(p),
        r matches Some(rec) ==> {
            &&& rec.key == 0
            &&& rec.file@ == Seq::<char>::empty()
            &&& p.mc_version matches Some(v) && rec.mc_version == v
            &&& p.category matches Some(v) && rec.category == v
            &&& p.run_type matches Some(v) && rec.run_type == v
            &&& p.is_completed matches Some(v) && rec.is_completed == v
            &&& p.is_coop matches Some(v) && rec.is_coop == v
            &&& p.is_hardcore matches Some(v) && rec.is_hardcore == v
            &&& p.world_name matches Some(v) && rec.world_name == v
            &&& rec.is_cheat_allowed == (match p.is_cheat_allowed {
                Some(v) => v,
                None => false,
            })
            &&& p.date matches Some(v) && rec.date == v
            &&& p.retimed_igt matches Some(v) && rec.retimed_igt == v
            &&& p.final_igt matches Some(v) && rec.final_igt == v
            &&& p.final_rta matches Some(v) && rec.final_rta == v
            &&& p.timelines matches Some(v) && rec.timelines == v
            &&& rec.enter_nether == 0
            &&& rec.enter_bastion == 0
            &&& rec.enter_fortress == 0
            &&& rec.nether_travel == 0
            &&& rec.enter_stronghold == 0
            &&& rec.enter_end == 0
        },
{
    let RecordParts {
        mc_version,
        category,
        run_type,
        is_completed,
        is_coop,
        is_hardcore,
        world_name,
        is_cheat_allowed,
        date,
        retimed_igt,
        final_igt,
        final_rta,
        timelines,
    } = p;
    let mc_version = match mc_version {
        Some(v) => v,
        None => {
            return None;
        },
    };
    let category = match category {
        Some(v) => v,
        None => {
            return None;
        },
    };
    let run_type = match run_type {
        Some(v) => v,
        None => {
            return None;
        },
    };
    let is_completed = match is_completed {
        Some(v) => v,
        None => {
            return None;
        },
    };
    let is_coop = match is_coop {
        Some(v) => v,
        None => {
            return None;
        },
    };
    let is_hardcore = match is_hardcore {
        Some(v) => v,
        None => {
            return None;
        },
    };
    let world_name = match world_name {
        Some(v) => v,
        None => {
            return None;
        },
    };
    let date = match date {
        Some(v) => v,
        None => {
            return None;
        },
    };
    let retimed_igt = match int_field(retimed_igt) {
        Some(v) => v,
        None => {
            return None;
        },
    };
    let final_igt = match int_field(final_igt) {
        Some(v) => v,
        None => {
            return None;
        },
    };
    let final_rta = match int_field(final_rta) {
        Some(v) => v,
        None => {
            return None;
        },
    };
    let timelines = match timelines {
        Some(v) => v,
        None => {
            return None;
        },
    };
    let is_cheat_allowed = match is_cheat_allowed {
        Some(v) => v,
        None => false,
    };
    Some(
        Record {
            key: 0,
            file: String::new(),
            mc_version,
            category,
            run_type,
            is_completed,
            is_coop,
            is_hardcore,
            world_name,
            is_cheat_allowed,
            date,
            retimed_igt,
            final_igt,
            final_rta,
            timelines,
            enter_nether: 0,
            enter_bastion: 0,
            enter_fortress: 0,
            nether_travel: 0,
            enter_stronghold: 0,
            enter_end: 0,
        },
    )
}

/// Narrows an extracted integer field to the `i32` range of the record's
/// timing fields; an out-of-range or absent value is a schema mismatch.
pub fn int_field(v: Option<i64>) -> (r: Option<i32>)
    ensures
        r is Some <==> (v matches Some(x) && i32::MIN <= x <= i32::MAX),
        r matches Some(y) ==> (v matches Some(x) && y == x),
{
    match v {
        Some(x) => {
            if -2147483648i64 <= x && x <= 2147483647i64 {
                Some(x as i32)
            } else {
                None
            }
        },
        None => None,
    }
}

} // verus!
