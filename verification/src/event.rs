//! The event model: decoding one line of JSON input into a [`Record`].
//!
//! A line is one JSON object.  Its `type` member names the family (`suite` or
//! `test`), its `event` member the kind (`started`, `ok` or `failed`); the
//! remaining members carry the event's data.  Lines that do not match decode
//! to a [`DecodeError`], which callers treat as "skip this line".

pub mod suite;
pub mod test;

use vstd::prelude::*;

use crate::duration::Duration;
use crate::text::str_eq;

verus! {

/// One decoded input line: either about the whole suite or about one test.
#[derive(Clone, Debug)]
pub enum Record {
    Suite(suite::Event),
    Test(test::Event),
}

/// The mathematical shape of a [`Record`].
pub enum RecordView {
    Suite(suite::Event),
    Test(test::EventView),
}

impl View for Record {
    type V = RecordView;

    open spec fn view(&self) -> RecordView {
        match self {
            Record::Suite(e) => RecordView::Suite(*e),
            Record::Test(e) => RecordView::Test(e@),
        }
    }
}

impl RecordView {
    /// Every duration carried by the record is well-formed.
    pub open spec fn wf(self) -> bool {
        match self {
            RecordView::Suite(e) => e.wf(),
            RecordView::Test(e) => e.wf(),
        }
    }
}

/// Why a line failed to decode.
#[derive(Clone, Copy, Debug, PartialEq, Eq, Structural)]
pub enum DecodeError {
    /// The line is not a JSON object at all.
    NotObject,
    /// The `type` or `event` member is missing, not a string, or names no
    /// known kind of event.
    UnknownKind,
    /// A member the event needs is missing or has the wrong type.
    BadField,
}

/// One scalar member of a decoded JSON object.
///
/// A JSON number is kept in both readings the events use: as an unsigned
/// integer (when it is one) and as a span of seconds (when it is a finite,
/// non-negative number).
pub enum Scalar {
    Text(String),
    Num { uint: Option<u64>, dur: Option<Duration> },
    Other,
}

/// The mathematical shape of a [`Scalar`].
pub enum ScalarView {
    Text(Seq<char>),
    Num { uint: Option<u64>, dur: Option<Duration> },
    Other,
}

impl View for Scalar {
    type V = ScalarView;

    open spec fn view(&self) -> ScalarView {
        match self {
            Scalar::Text(t) => ScalarView::Text(t@),
            Scalar::Num { uint, dur } => ScalarView::Num { uint: *uint, dur: *dur },
            Scalar::Other => ScalarView::Other,
        }
    }
}

/// Any duration the scalar carries is well-formed.
pub open spec fn scalar_wf(s: ScalarView) -> bool {
    match s {
        ScalarView::Num { dur: Some(d), .. } => d.wf(),
        _ => true,
    }
}

/// Every scalar of the field list is well-formed.
pub open spec fn fields_wf(fields: Seq<(Seq<char>, ScalarView)>) -> bool {
    forall|i: int| 0 <= i < fields.len() ==> scalar_wf(#[trigger] fields[i].1)
}

/// The view of an executable field list.
pub open spec fn fields_view(fields: Seq<(String, Scalar)>) -> Seq<(Seq<char>, ScalarView)> {
    fields.map_values(|f: (String, Scalar)| (f.0@, f.1@))
}

/// What parsing a line as JSON yields: `None` when the line is not a JSON
/// object, else the object's members in a fixed order, scalars kept and
/// nested values flattened to [`ScalarView::Other`].  Parsing is a function
/// of the line's characters alone.
pub uninterp spec fn json_fields(line: Seq<char>) -> Option<Seq<(Seq<char>, ScalarView)>>;

/// Relies on `serde_json::from_str` and the accessors of `serde_json::Value`:
/// a line parses to at most one JSON object, whose members are handed over as
/// plain values.  A number is read both with `Number::as_u64` and, through
/// `Number::as_f64` and std's `Duration::try_from_secs_f64`, as a span of
/// seconds, whose sub-second part std keeps below one second.
#[verifier::external_body]
fn parse_object(line: &str) -> (r: Option<Vec<(String, Scalar)>>)
    ensures
        match r {
            Some(fields) => json_fields(line@) == Some(fields_view(fields@)) && fields_wf(
                fields_view(fields@),
            ),
            None => json_fields(line@) is None,
        },
{
    let value: serde_json::Value = serde_json::from_str(line).ok()?;
    let object = value.as_object()?;
    let mut out: Vec<(String, Scalar)> = Vec::new();
    for (key, member) in object {
        out.push((key.clone(), match member {
            serde_json::Value::String(t) => Scalar::Text(t.clone()),
            serde_json::Value::Number(n) => Scalar::Num {
                uint: n.as_u64(),
                dur: n.as_f64().and_then(|sec| std::time::Duration::try_from_secs_f64(sec).ok())
                    .map(|d| Duration { secs: d.as_secs(), nanos: d.subsec_nanos() }),
            },
            _ => Scalar::Other,
        }));
    }
    Some(out)
}

/// The value of the first member named `key`, if any.
pub open spec fn spec_lookup(fields: Seq<(Seq<char>, ScalarView)>, key: Seq<char>) -> Option<
    ScalarView,
>
    decreases fields.len(),
{
    if fields.len() == 0 {
        None
    } else if fields[0].0 == key {
        Some(fields[0].1)
    } else {
        spec_lookup(fields.drop_first(), key)
    }
}

/// The member `key` read as a string.
pub open spec fn spec_text_field(fields: Seq<(Seq<char>, ScalarView)>, key: Seq<char>) -> Option<
    Seq<char>,
> {
    match spec_lookup(fields, key) {
        Some(ScalarView::Text(t)) => Some(t),
        _ => None,
    }
}

/// The member `key` read as an unsigned integer.
pub open spec fn spec_uint_field(fields: Seq<(Seq<char>, ScalarView)>, key: Seq<char>) -> Option<
    u64,
> {
    match spec_lookup(fields, key) {
        Some(ScalarView::Num { uint: Some(u), .. }) => Some(u),
        _ => None,
    }
}

/// The member `key` read as a span of seconds.
pub open spec fn spec_dur_field(fields: Seq<(Seq<char>, ScalarView)>, key: Seq<char>) -> Option<
    Duration,
> {
    match spec_lookup(fields, key) {
        Some(ScalarView::Num { dur: Some(d), .. }) => Some(d),
        _ => None,
    }
}

/// Decoding of a `suite` line, given its members.
pub open spec fn spec_decode_suite(fields: Seq<(Seq<char>, ScalarView)>) -> Result<
    RecordView,
    DecodeError,
> {
    match spec_text_field(fields, "event"@) {
        Some(ev) => if ev == "started"@ {
            match spec_uint_field(fields, "test_count"@) {
                Some(n) => Ok(RecordView::Suite(suite::Event::Started { test_count: n })),
                None => Err(DecodeError::BadField),
            }
        } else if ev == "ok"@ || ev == "failed"@ {
            match (
                spec_uint_field(fields, "passed"@),
                spec_uint_field(fields, "failed"@),
                spec_uint_field(fields, "allowed_fail"@),
                spec_uint_field(fields, "ignored"@),
                spec_uint_field(fields, "filtered_out"@),
                spec_dur_field(fields, "exec_time"@),
            ) {
                (Some(p), Some(f), Some(a), Some(i), Some(fo), Some(t)) => Ok(
                    RecordView::Suite(
                        if ev == "ok"@ {
                            suite::Event::Passed {
                                passed: p,
                                failed: f,
                                allowed_fail: a,
                                ignored: i,
                                filtered_out: fo,
                                exec_time: t,
                            }
                        } else {
                            suite::Event::Failed {
                                passed: p,
                                failed: f,
                                allowed_fail: a,
                                ignored: i,
                                filtered_out: fo,
                                exec_time: t,
                            }
                        },
                    ),
                ),
                _ => Err(DecodeError::BadField),
            }
        } else {
            Err(DecodeError::UnknownKind)
        },
        None => Err(DecodeError::UnknownKind),
    }
}

/// Decoding of a `test` line, given its members.
pub open spec fn spec_decode_test(fields: Seq<(Seq<char>, ScalarView)>) -> Result<
    RecordView,
    DecodeError,
> {
    match spec_text_field(fields, "event"@) {
        Some(ev) => if ev == "started"@ {
            match spec_text_field(fields, "name"@) {
                Some(name) => Ok(RecordView::Test(test::EventView::Started { name })),
                None => Err(DecodeError::BadField),
            }
        } else if ev == "ok"@ {
            match (spec_text_field(fields, "name"@), spec_dur_field(fields, "exec_time"@)) {
                (Some(name), Some(t)) => Ok(
                    RecordView::Test(test::EventView::Passed { name, exec_time: t }),
                ),
                _ => Err(DecodeError::BadField),
            }
        } else if ev == "failed"@ {
            match (spec_text_field(fields, "name"@), spec_dur_field(fields, "exec_time"@)) {
                (Some(name), Some(t)) => match spec_lookup(fields, "stdout"@) {
                    None => Ok(
                        RecordView::Test(
                            test::EventView::Failed { name, exec_time: t, stdout: Seq::empty() },
                        ),
                    ),
                    Some(ScalarView::Text(out)) => Ok(
                        RecordView::Test(
                            test::EventView::Failed { name, exec_time: t, stdout: out },
                        ),
                    ),
                    Some(_) => Err(DecodeError::BadField),
                },
                _ => Err(DecodeError::BadField),
            }
        } else {
            Err(DecodeError::UnknownKind)
        },
        None => Err(DecodeError::UnknownKind),
    }
}

/// What one line decodes to, given what it parses to as JSON.
pub open spec fn spec_decode(parsed: Option<Seq<(Seq<char>, ScalarView)>>) -> Result<
    RecordView,
    DecodeError,
> {
    match parsed {
        None => Err(DecodeError::NotObject),
        Some(fields) => match spec_text_field(fields, "type"@) {
            Some(kind) => if kind == "suite"@ {
                spec_decode_suite(fields)
            } else if kind == "test"@ {
                spec_decode_test(fields)
            } else {
                Err(DecodeError::UnknownKind)
            },
            None => Err(DecodeError::UnknownKind),
        },
    }
}

/// The view of an executable decode result.
pub open spec fn spec_result(r: Result<Record, DecodeError>) -> Result<RecordView, DecodeError> {
    match r {
        Ok(rec) => Ok(rec@),
        Err(e) => Err(e),
    }
}

/// A member found by lookup is one of the list's scalars.
proof fn lemma_lookup_wf(fields: Seq<(Seq<char>, ScalarView)>, key: Seq<char>)
    requires
        fields_wf(fields),
    ensures
        spec_lookup(fields, key) matches Some(s) ==> scalar_wf(s),
    decreases fields.len(),
{
    if fields.len() > 0 && fields[0].0 != key {
        assert(fields_wf(fields.drop_first())) by {
            assert(forall|i: int|
                0 <= i < fields.drop_first().len() ==> #[trigger] fields.drop_first()[i]
                    == fields[i + 1]);
        }
        lemma_lookup_wf(fields.drop_first(), key);
    }
}

/// Whatever a well-formed field list decodes to carries only well-formed
/// durations.
proof fn lemma_decode_wf(fields: Seq<(Seq<char>, ScalarView)>)
    requires
        fields_wf(fields),
    ensures
        spec_decode(Some(fields)) matches Ok(v) ==> v.wf(),
{
    lemma_lookup_wf(fields, "exec_time"@);
}

/// The first member named `key`, scanned front to back.
fn find_field<'a>(fields: &'a Vec<(String, Scalar)>, key: &str) -> (r: Option<&'a Scalar>)
    ensures
        match r {
            Some(s) => spec_lookup(fields_view(fields@), key@) == Some(s@),
            None => spec_lookup(fields_view(fields@), key@) is None,
        },
{
    let ghost all = fields_view(fields@);
    proof {
        assert(all.skip(0) =~= all);
    }
    let mut i: usize = 0;
    while i < fields.len()
        invariant
            i <= fields@.len(),
            all == fields_view(fields@),
            all.len() == fields@.len(),
            spec_lookup(all, key@) == spec_lookup(all.skip(i as int), key@),
        decreases fields@.len() - i,
    {
        proof {
            assert(all.skip(i as int)[0] == all[i as int]);
        }
        if str_eq(fields[i].0.as_str(), key) {
            return Some(&fields[i].1);
        }
        proof {
            assert(all.skip(i as int).drop_first() =~= all.skip(i as int + 1));
        }
        i = i + 1;
    }
    proof {
        assert(all.skip(i as int).len() == 0);
    }
    None
}

/// The member `key` read as a string.
fn text_field<'a>(fields: &'a Vec<(String, Scalar)>, key: &str) -> (r: Option<&'a String>)
    ensures
        match r {
            Some(t) => spec_text_field(fields_view(fields@), key@) == Some(t@),
            None => spec_text_field(fields_view(fields@), key@) is None,
        },
{
    match find_field(fields, key) {
        Some(s) => match s {
            Scalar::Text(t) => Some(t),
            _ => None,
        },
        None => None,
    }
}

/// The member `key` read as an unsigned integer.
fn uint_field(fields: &Vec<(String, Scalar)>, key: &str) -> (r: Option<u64>)
    ensures
        r == spec_uint_field(fields_view(fields@), key@),
{
    match find_field(fields, key) {
        Some(s) => match s {
            Scalar::Num { uint, .. } => *uint,
            _ => None,
        },
        None => None,
    }
}

/// The member `key` read as a span of seconds.
fn dur_field(fields: &Vec<(String, Scalar)>, key: &str) -> (r: Option<Duration>)
    ensures
        r == spec_dur_field(fields_view(fields@), key@),
{
    match find_field(fields, key) {
        Some(s) => match s {
            Scalar::Num { dur, .. } => *dur,
            _ => None,
        },
        None => None,
    }
}

/// Decodes a `suite` line from its members.
fn decode_suite(fields: &Vec<(String, Scalar)>) -> (r: Result<Record, DecodeError>)
    ensures
        spec_result(r) == spec_decode_suite(fields_view(fields@)),
{
    let ev = match text_field(fields, "event") {
        Some(t) => t,
        None => return Err(DecodeError::UnknownKind),
    };
    if str_eq(ev.as_str(), "started") {
        match uint_field(fields, "test_count") {
            Some(n) => Ok(Record::Suite(suite::Event::Started { test_count: n })),
            None => Err(DecodeError::BadField),
        }
    } else if str_eq(ev.as_str(), "ok") || str_eq(ev.as_str(), "failed") {
        let passed = uint_field(fields, "passed");
        let failed = uint_field(fields, "failed");
        let allowed_fail = uint_field(fields, "allowed_fail");
        let ignored = uint_field(fields, "ignored");
        let filtered_out = uint_field(fields, "filtered_out");
        let exec_time = dur_field(fields, "exec_time");
        match (passed, failed, allowed_fail, ignored, filtered_out, exec_time) {
            (Some(p), Some(f), Some(a), Some(i), Some(fo), Some(t)) => Ok(
                Record::Suite(
                    if str_eq(ev.as_str(), "ok") {
                        suite::Event::Passed {
                            passed: p,
                            failed: f,
                            allowed_fail: a,
                            ignored: i,
                            filtered_out: fo,
                            exec_time: t,
                        }
                    } else {
                        suite::Event::Failed {
                            passed: p,
                            failed: f,
                            allowed_fail: a,
                            ignored: i,
                            filtered_out: fo,
                            exec_time: t,
                        }
                    },
                ),
            ),
            _ => Err(DecodeError::BadField),
        }
    } else {
        Err(DecodeError::UnknownKind)
    }
}

/// Decodes a `test` line from its members.
fn decode_test(fields: &Vec<(String, Scalar)>) -> (r: Result<Record, DecodeError>)
    ensures
        spec_result(r) == spec_decode_test(fields_view(fields@)),
{
    let ev = match text_field(fields, "event") {
        Some(t) => t,
        None => return Err(DecodeError::UnknownKind),
    };
    let started = str_eq(ev.as_str(), "started");
    let passed = str_eq(ev.as_str(), "ok");
    let failed = str_eq(ev.as_str(), "failed");
    if !started && !passed && !failed {
        return Err(DecodeError::UnknownKind);
    }
    let name = match text_field(fields, "name") {
        Some(t) => t.clone(),
        None => return Err(DecodeError::BadField),
    };
    if started {
        return Ok(Record::Test(test::Event::Started { name }));
    }
    let exec_time = match dur_field(fields, "exec_time") {
        Some(t) => t,
        None => return Err(DecodeError::BadField),
    };
    if passed {
        return Ok(Record::Test(test::Event::Passed { name, exec_time }));
    }
    match find_field(fields, "stdout") {
        None => Ok(
            Record::Test(test::Event::Failed { name, exec_time, stdout: String::new() }),
        ),
        Some(s) => match s {
            Scalar::Text(out) => Ok(
                Record::Test(test::Event::Failed { name, exec_time, stdout: out.clone() }),
            ),
            _ => Err(DecodeError::BadField),
        },
    }
}

/// Decodes one input line.
///
/// The result is exactly what [`spec_decode`] says of the line's parse; a
/// successfully decoded record carries only well-formed durations.
pub fn decode(line: &str) -> (r: Result<Record, DecodeError>)
    ensures
        spec_result(r) == spec_decode(json_fields(line@)),
        r matches Ok(rec) ==> rec@.wf(),
{
    let fields = match parse_object(line) {
        Some(fields) => fields,
        None => return Err(DecodeError::NotObject),
    };
    proof {
        lemma_decode_wf(fields_view(fields@));
    }
    let kind = match text_field(&fields, "type") {
        Some(t) => t,
        None => return Err(DecodeError::UnknownKind),
    };
    if str_eq(kind.as_str(), "suite") {
        decode_suite(&fields)
    } else if str_eq(kind.as_str(), "test") {
        decode_test(&fields)
    } else {
        Err(DecodeError::UnknownKind)
    }
}

} // verus!
