//! Parsing of one record file's JSON content into a [`Record`].
//!
//! The JSON text is handed to serde_json, whose value tree is opaque here.
//! Each serde_json call the parser relies on is deterministic — a function
//! of its arguments alone — so its result carries an uninterpreted name
//! (`json_of`, `json_field_of`, ...), and the record schema — which fields
//! are required, which default, the `i32` range of the timing fields — is
//! stated over those names and enforced by verified code. Any structural
//! mismatch yields one per-file parse failure.

use vstd::prelude::*;

use crate::record::{
    Record, RecordParts, TimelineEvent, int_field, parts_complete, project_record,
    record_from_parts, record_projected,
};

verus! {

#[verifier::external_type_specification]
#[verifier::external_body]
pub struct ExJsonValue(serde_json::Value);

// Names for the results of the serde_json calls the parser relies on, one
// name per call; each depends on its arguments alone.
pub uninterp spec fn json_of(s: Seq<char>) -> Option<serde_json::Value>;

pub uninterp spec fn json_field_of(v: serde_json::Value, key: Seq<char>) -> Option<
    serde_json::Value,
>;

pub uninterp spec fn json_str_of(v: serde_json::Value) -> Option<Seq<char>>;

pub uninterp spec fn json_i64_of(v: serde_json::Value) -> Option<i64>;

pub uninterp spec fn json_bool_of(v: serde_json::Value) -> Option<bool>;

pub uninterp spec fn json_arr_of(v: serde_json::Value) -> Option<Seq<serde_json::Value>>;

/// Relies on serde_json::from_str: deserializes a JSON document into a
/// value tree, `None` on malformed input; the result depends on the text
/// alone.
#[verifier::external_body]
fn json_parse(s: &str) -> (r: Option<serde_json::Value>)
    ensures
        r == json_of(s@),
{
    match serde_json::from_str(s) {
        Ok(v) => Some(v),
        Err(_) => None,
    }
}

/// Relies on serde_json::Value::get: looks a key up in a JSON object,
/// `None` when the key is absent or the value is no object.
#[verifier::external_body]
fn json_get<'a>(v: &'a serde_json::Value, key: &str) -> (r: Option<&'a serde_json::Value>)
    ensures
        r matches Some(f) ==> json_field_of(*v, key@) == Some(*f),
        r is None ==> json_field_of(*v, key@) is None,
{
    v.get(key)
}

/// Relies on serde_json::Value::as_str: the contained text of a JSON
/// string value, `None` for any other kind of value.
#[verifier::external_body]
fn json_string(v: &serde_json::Value) -> (r: Option<String>)
    ensures
        r matches Some(s) ==> json_str_of(*v) == Some(s@),
        r is None ==> json_str_of(*v) is None,
{
    match v.as_str() {
        Some(s) => Some(s.to_owned()),
        None => None,
    }
}

/// Relies on serde_json::Value::as_i64: the contained integer of a JSON
/// number representable as `i64`, `None` otherwise.
#[verifier::external_body]
fn json_i64(v: &serde_json::Value) -> (r: Option<i64>)
    ensures
        r == json_i64_of(*v),
{
    v.as_i64()
}

/// Relies on serde_json::Value::as_bool: the contained boolean of a JSON
/// boolean value, `None` for any other kind of value.
#[verifier::external_body]
fn json_bool(v: &serde_json::Value) -> (r: Option<bool>)
    ensures
        r == json_bool_of(*v),
{
    v.as_bool()
}

/// Relies on serde_json::Value::as_array: the contained elements of a JSON
/// array value, `None` for any other kind of value.
#[verifier::external_body]
fn json_array<'a>(v: &'a serde_json::Value) -> (r: Option<&'a Vec<serde_json::Value>>)
    ensures
        r matches Some(a) ==> json_arr_of(*v) == Some(a@),
        r is None ==> json_arr_of(*v) is None,
{
    v.as_array()
}

/// The text of field `key` of `v`, when `v` has it as a string.
pub open spec fn spec_str_field(v: serde_json::Value, key: Seq<char>) -> Option<Seq<char>> {
    match json_field_of(v, key) {
        Some(f) => json_str_of(f),
        None => None,
    }
}

/// The integer of field `key` of `v`, when `v` has it as an `i64` number.
pub open spec fn spec_i64_field(v: serde_json::Value, key: Seq<char>) -> Option<i64> {
    match json_field_of(v, key) {
        Some(f) => json_i64_of(f),
        None => None,
    }
}

/// The boolean of field `key` of `v`, when `v` has it as a boolean.
pub open spec fn spec_bool_field(v: serde_json::Value, key: Seq<char>) -> Option<bool> {
    match json_field_of(v, key) {
        Some(f) => json_bool_of(f),
        None => None,
    }
}

/// One timeline entry of the wire format as plain values — name, in-game
/// time and real time — when the element carries all three with the two
/// timings inside `i32`.
pub open spec fn spec_event_of(v: serde_json::Value) -> Option<(Seq<char>, int, int)> {
    match spec_str_field(v, "name"@) {
        Some(nm) => match spec_i64_field(v, "igt"@) {
            Some(igt) => if i32::MIN <= igt <= i32::MAX {
                match spec_i64_field(v, "rta"@) {
                    Some(rta) => if i32::MIN <= rta <= i32::MAX {
                        Some((nm, igt as int, rta as int))
                    } else {
                        None
                    },
                    None => None,
                }
            } else {
                None
            },
            None => None,
        },
        None => None,
    }
}

/// The whole timeline as plain values; one malformed element fails the
/// whole sequence.
pub open spec fn spec_events_of(a: Seq<serde_json::Value>) -> Option<Seq<(Seq<char>, int, int)>>
    decreases a.len(),
{
    if a.len() == 0 {
        Some(Seq::empty())
    } else {
        match spec_events_of(a.drop_last()) {
            Some(rest) => match spec_event_of(a.last()) {
                Some(e) => Some(rest.push(e)),
                None => None,
            },
            None => None,
        }
    }
}

/// The `timelines` field of `v` as plain values, when it is an array of
/// well-formed entries.
pub open spec fn spec_timelines_of(v: serde_json::Value) -> Option<Seq<(Seq<char>, int, int)>> {
    match json_field_of(v, "timelines"@) {
        Some(f) => match json_arr_of(f) {
            Some(a) => spec_events_of(a),
            None => None,
        },
        None => None,
    }
}

/// The plain-value views of a sequence of timeline events.
pub open spec fn event_views(tl: Seq<TimelineEvent>) -> Seq<(Seq<char>, int, int)> {
    tl.map_values(|ev: TimelineEvent| (ev.name@, ev.igt as int, ev.rta as int))
}

/// Whether a parsed value tree satisfies the record schema: every field
/// but `is_cheat_allowed` present with its type, core timings inside
/// `i32`, and a well-formed timeline.
pub open spec fn spec_schema_ok(v: serde_json::Value) -> bool {
    &&& spec_str_field(v, "mc_version"@) is Some
    &&& spec_str_field(v, "category"@) is Some
    &&& spec_str_field(v, "run_type"@) is Some
    &&& spec_bool_field(v, "is_completed"@) is Some
    &&& spec_bool_field(v, "is_coop"@) is Some
    &&& spec_bool_field(v, "is_hardcore"@) is Some
    &&& spec_str_field(v, "world_name"@) is Some
    &&& spec_i64_field(v, "date"@) is Some
    &&& spec_i64_field(v, "retimed_igt"@) matches Some(x) && i32::MIN <= x <= i32::MAX
    &&& spec_i64_field(v, "final_igt"@) matches Some(x) && i32::MIN <= x <= i32::MAX
    &&& spec_i64_field(v, "final_rta"@) matches Some(x) && i32::MIN <= x <= i32::MAX
    &&& spec_timelines_of(v) is Some
}

fn string_field(v: &serde_json::Value, key: &str) -> (r: Option<String>)
    ensures
        r matches Some(s) ==> spec_str_field(*v, key@) == Some(s@),
        r is None ==> spec_str_field(*v, key@) is None,
{
    match json_get(v, key) {
        Some(f) => json_string(f),
        None => None,
    }
}

fn i64_field(v: &serde_json::Value, key: &str) -> (r: Option<i64>)
    ensures
        r == spec_i64_field(*v, key@),
{
    match json_get(v, key) {
        Some(f) => json_i64(f),
        None => None,
    }
}

fn bool_field(v: &serde_json::Value, key: &str) -> (r: Option<bool>)
    ensures
        r == spec_bool_field(*v, key@),
{
    match json_get(v, key) {
        Some(f) => json_bool(f),
        None => None,
    }
}

/// Reads one timeline entry: a name, an in-game time and a real time, the
/// two timings within the `i32` range of the record's fields.
fn parse_timeline(v: &serde_json::Value) -> (r: Option<TimelineEvent>)
    ensures
        r matches Some(ev) ==> spec_event_of(*v) == Some((ev.name@, ev.igt as int, ev.rta as int)),
        r is None ==> spec_event_of(*v) is None,
{
    let name = match string_field(v, "name") {
        Some(s) => s,
        None => {
            return None;
        },
    };
    let igt = match int_field(i64_field(v, "igt")) {
        Some(x) => x,
        None => {
            return None;
        },
    };
    let rta = match int_field(i64_field(v, "rta")) {
        Some(x) => x,
        None => {
            return None;
        },
    };
    Some(TimelineEvent { name, igt, rta })
}

proof fn lemma_events_take_step(a: Seq<serde_json::Value>, i: int)
    requires
        0 <= i < a.len(),
    ensures
        spec_events_of(a.take(i + 1)) == (match spec_events_of(a.take(i)) {
            Some(rest) => match spec_event_of(a[i]) {
                Some(e) => Some(rest.push(e)),
                None => None,
            },
            None => None,
        }),
{
    assert(a.take(i + 1).last() == a[i]);
    assert(a.take(i + 1).drop_last() =~= a.take(i));
}

proof fn lemma_events_none_extends(a: Seq<serde_json::Value>, i: int)
    requires
        0 <= i <= a.len(),
        spec_events_of(a.take(i)) is None,
    ensures
        spec_events_of(a) is None,
    decreases a.len() - i,
{
    if i == a.len() {
        assert(a.take(i) =~= a);
    } else {
        lemma_events_take_step(a, i);
        lemma_events_none_extends(a, i + 1);
    }
}

/// Reads the `timelines` array; one malformed entry fails the whole
/// sequence, as the schema admits no partial timeline.
fn parse_timelines(v: &serde_json::Value) -> (r: Option<Vec<TimelineEvent>>)
    ensures
        r matches Some(out) ==> spec_timelines_of(*v) == Some(event_views(out@)),
        r is None ==> spec_timelines_of(*v) is None,
{
    let arr = match json_get(v, "timelines") {
        Some(f) => match json_array(f) {
            Some(a) => a,
            None => {
                return None;
            },
        },
        None => {
            return None;
        },
    };
    let ghost elems = arr@;
    let mut out: Vec<TimelineEvent> = Vec::new();
    let n = arr.len();
    let mut i: usize = 0;
    proof {
        assert(elems.take(0) =~= Seq::<serde_json::Value>::empty());
        assert(event_views(out@) =~= Seq::<(Seq<char>, int, int)>::empty());
    }
    while i < n
        invariant
            i <= n,
            n == arr.len(),
            elems == arr@,
            spec_events_of(elems.take(i as int)) == Some(event_views(out@)),
            spec_timelines_of(*v) == spec_events_of(elems),
        decreases n - i,
    {
        proof {
            lemma_events_take_step(elems, i as int);
        }
        match parse_timeline(&arr[i]) {
            Some(ev) => {
                let ghost before = out@;
                out.push(ev);
                proof {
                    assert(event_views(out@) =~= event_views(before).push(
                        (ev.name@, ev.igt as int, ev.rta as int),
                    ));
                }
            },
            None => {
                proof {
                    lemma_events_none_extends(elems, i as int + 1);
                }
                return None;
            },
        }
        i = i + 1;
    }
    proof {
        assert(elems.take(n as int) =~= elems);
    }
    Some(out)
}

/// Gathers every schema field out of the parsed value tree; absent or
/// mistyped fields are marked `None` and judged by [`record_from_parts`].
fn extract_parts(v: &serde_json::Value) -> (r: RecordParts)
    ensures
        r.mc_version matches Some(s) ==> spec_str_field(*v, "mc_version"@) == Some(s@),
        r.mc_version is None ==> spec_str_field(*v, "mc_version"@) is None,
        r.category matches Some(s) ==> spec_str_field(*v, "category"@) == Some(s@),
        r.category is None ==> spec_str_field(*v, "category"@) is None,
        r.run_type matches Some(s) ==> spec_str_field(*v, "run_type"@) == Some(s@),
        r.run_type is None ==> spec_str_field(*v, "run_type"@) is None,
        r.is_completed == spec_bool_field(*v, "is_completed"@),
        r.is_coop == spec_bool_field(*v, "is_coop"@),
        r.is_hardcore == spec_bool_field(*v, "is_hardcore"@),
        r.world_name matches Some(s) ==> spec_str_field(*v, "world_name"@) == Some(s@),
        r.world_name is None ==> spec_str_field(*v, "world_name"@) is None,
        r.is_cheat_allowed == spec_bool_field(*v, "is_cheat_allowed"@),
        r.date == spec_i64_field(*v, "date"@),
        r.retimed_igt == spec_i64_field(*v, "retimed_igt"@),
        r.final_igt == spec_i64_field(*v, "final_igt"@),
        r.final_rta == spec_i64_field(*v, "final_rta"@),
        r.timelines matches Some(out) ==> spec_timelines_of(*v) == Some(event_views(out@)),
        r.timelines is None ==> spec_timelines_of(*v) is None,
{
    RecordParts {
        mc_version: string_field(v, "mc_version"),
        category: string_field(v, "category"),
        run_type: string_field(v, "run_type"),
        is_completed: bool_field(v, "is_completed"),
        is_coop: bool_field(v, "is_coop"),
        is_hardcore: bool_field(v, "is_hardcore"),
        world_name: string_field(v, "world_name"),
        is_cheat_allowed: bool_field(v, "is_cheat_allowed"),
        date: i64_field(v, "date"),
        retimed_igt: i64_field(v, "retimed_igt"),
        final_igt: i64_field(v, "final_igt"),
        final_rta: i64_field(v, "final_rta"),
        timelines: parse_timelines(v),
    }
}

/// Parses one file's JSON content into a record stamped with `key` and
/// `file_name` and projected from its timeline. Success is owed exactly
/// when the text is well-formed JSON whose value tree satisfies the record
/// schema; the record's content fields then equal the file's. Malformed
/// JSON and schema mismatches alike yield the one per-file parse error,
/// which the orchestrator drops without aborting its batch.
pub fn parse_record(content: &str, key: i32, file_name: &str) -> (r: Result<
    Record,
    crate::errors::Error,
>)
    ensures
        r is Ok <==> (json_of(content@) matches Some(v) && spec_schema_ok(v)),
        r matches Ok(rec) ==> {
            &&& rec.key == key
            &&& rec.file@ == file_name@
            &&& record_projected(rec)
            &&& json_of(content@) matches Some(v) && {
                &&& spec_str_field(v, "mc_version"@) == Some(rec.mc_version@)
                &&& spec_str_field(v, "category"@) == Some(rec.category@)
                &&& spec_str_field(v, "run_type"@) == Some(rec.run_type@)
                &&& spec_bool_field(v, "is_completed"@) == Some(rec.is_completed)
                &&& spec_bool_field(v, "is_coop"@) == Some(rec.is_coop)
                &&& spec_bool_field(v, "is_hardcore"@) == Some(rec.is_hardcore)
                &&& spec_str_field(v, "world_name"@) == Some(rec.world_name@)
                &&& rec.is_cheat_allowed == (match spec_bool_field(v, "is_cheat_allowed"@) {
                    Some(b) => b,
                    None => false,
                })
                &&& spec_i64_field(v, "date"@) == Some(rec.date)
                &&& spec_i64_field(v, "retimed_igt"@) == Some(rec.retimed_igt as i64)
                &&& spec_i64_field(v, "final_igt"@) == Some(rec.final_igt as i64)
                &&& spec_i64_field(v, "final_rta"@) == Some(rec.final_rta as i64)
                &&& spec_timelines_of(v) == Some(event_views(rec.timelines@))
            }
        },
        r matches Err(e) ==> (e matches crate::errors::Error::Other(m) && m@
            == "Can't open record file"@),
{
    let v = match json_parse(content) {
        Some(v) => v,
        None => {
            return Err(crate::errors::Error::Other("Can't open record file".to_owned()));
        },
    };
    let parts = extract_parts(&v);
    let mut rec = match record_from_parts(parts) {
        Some(rec) => rec,
        None => {
            proof {
                assert(!parts_complete(parts));
                assert(!spec_schema_ok(v));
            }
            return Err(crate::errors::Error::Other("Can't open record file".to_owned()));
        },
    };
    project_record(&mut rec, key, file_name.to_owned());
    Ok(rec)
}

} // verus!
