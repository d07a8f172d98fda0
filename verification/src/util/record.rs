use crate::error::RenderError;
use vstd::prelude::*;
use vstd::std_specs::iter::IteratorSpec;

verus! {

/// Name of the file that holds a cache directory's metadata record.
pub const RECORD_FILE: &'static str = "content.json";

/// The record's field for the time between two frames, in milliseconds.
pub const INTERVAL_KEY: &'static str = "duration";

/// The record's field for the list of rendered frames.
pub const FRAMES_KEY: &'static str = "frames";

/// The longest run of decimal digits that the text of a record may hold. The
/// parser counts the digits of a number's fraction in 16 bits; a text with a
/// longer run is not read as a record.
pub const DIGIT_RUN_LIMIT: usize = 32_767;

/// Whether a character is a decimal digit.
pub open spec fn is_digit(c: char) -> bool {
    '0' <= c <= '9'
}

/// Whether the `len` characters from `start` on are all decimal digits.
pub open spec fn run_at(s: Seq<char>, start: int, len: int) -> bool {
    forall|k: int| start <= k < start + len ==> is_digit(#[trigger] s[k])
}

/// Whether a text holds no `len` decimal digits in a row.
pub open spec fn no_run_of(s: Seq<char>, len: int) -> bool {
    forall|start: int| 0 <= start && start + len <= s.len() ==> !#[trigger] run_at(s, start, len)
}

/// Whether every run of decimal digits in a text is `limit` digits long at
/// most.
pub open spec fn digit_runs_within(s: Seq<char>, limit: int) -> bool {
    no_run_of(s, limit + 1)
}

/// Tells whether every run of decimal digits in a text is `DIGIT_RUN_LIMIT`
/// digits long at most.
pub fn digit_runs_fit(text: &str) -> (ok: bool)
    ensures
        ok == digit_runs_within(text@, DIGIT_RUN_LIMIT as int),
{
    let ghost s = text@;
    let ghost longer = DIGIT_RUN_LIMIT as int + 1;
    let mut run: usize = 0;
    let mut ok = true;
    for c in it: text.chars()
        invariant
            it.seq() == s,
            s == text@,
            longer == DIGIT_RUN_LIMIT as int + 1,
            run <= DIGIT_RUN_LIMIT,
            run <= it.index(),
            ok ==> run_at(s, it.index() - run, run as int),
            ok ==> it.index() - run == 0 || !is_digit(s[it.index() - run - 1]),
            ok ==> forall|start: int|
                0 <= start && start + longer <= it.index() ==> !#[trigger] run_at(s, start, longer),
            !ok ==> !no_run_of(s, longer),
    {
        let ghost at = it.index() as int;
        if ok {
            if '0' <= c && c <= '9' {
                if run == DIGIT_RUN_LIMIT {
                    ok = false;
                    assert(run_at(s, at - run, longer));
                } else {
                    assert(at + 1 - longer >= 0 ==> !is_digit(s[at - run - 1]));
                    run = run + 1;
                    assert(at + 1 - longer >= 0 ==> !run_at(s, at + 1 - longer, longer));
                }
            } else {
                run = 0;
                assert(!is_digit(s[at]));
                assert(!run_at(s, at + 1 - longer, longer));
            }
        }
    }
    ok
}

/// What a JSON document holds in the two fields of a metadata record, before
/// any of it is judged.
#[derive(Debug)]
pub struct RecordFields {
    /// The interval field, if it is a number that a `u64` holds.
    pub interval: Option<u64>,
    /// The members of the frames field, each with its text if it is a
    /// string. A field that is missing or no array has no members.
    pub frames: Vec<Option<String>>,
}

/// The fields of a record as plain values.
pub type FieldsView = Option<(Option<u64>, Seq<Option<Seq<char>>>)>;

/// A set of frames as plain values: the frames' texts and their interval.
pub type FrameSetView = Option<(Seq<Seq<char>>, u64)>;

/// The texts of a list of frames.
pub open spec fn frame_texts(frames: Seq<String>) -> Seq<Seq<char>> {
    frames.map_values(|frame: String| frame@)
}

/// The members of a frames field as plain values.
pub open spec fn member_texts(members: Seq<Option<String>>) -> Seq<Option<Seq<char>>> {
    members.map_values(
        |member: Option<String>|
            match member {
                Some(text) => Some(text@),
                None => None,
            },
    )
}

/// What was read of a document, as plain values.
pub open spec fn fields_view(fields: Option<RecordFields>) -> FieldsView {
    match fields {
        Some(found) => Some((found.interval, member_texts(found.frames@))),
        None => None,
    }
}

/// What `json::parse` and the accessors of `json::JsonValue` find in a text:
/// nothing where the text is no JSON document, else the member under
/// `interval_key` as `as_u64` reads it, and the members of the array under
/// `frames_key`, each as `as_str` reads it.
pub uninterp spec fn json_fields(
    text: Seq<char>,
    interval_key: Seq<char>,
    frames_key: Seq<char>,
) -> FieldsView;

/// The text that `json::stringify` writes for an object with the number
/// `interval` under `interval_key` and the array of the strings `frames` under
/// `frames_key`.
pub uninterp spec fn json_record(
    interval_key: Seq<char>,
    frames_key: Seq<char>,
    interval: u64,
    frames: Seq<Seq<char>>,
) -> Seq<char>;

/// Parses a text with `json::parse` and reads the two fields of a record from
/// the document: the member under `interval_key` with
/// `json::JsonValue::as_u64`, and the members of the array under `frames_key`
/// (`json::JsonValue::members`), each with `json::JsonValue::as_str`.
///
/// Trusted: the result is a function of the three arguments, named
/// [`json_fields`]. Nothing is claimed about what a document holds. Left out
/// are texts with more than `DIGIT_RUN_LIMIT` digits in a row: the parser
/// counts the digits of a fraction in an `i16`, which more digits overflow.
#[verifier::external_body]
pub(crate) fn read_fields(text: &str, interval_key: &str, frames_key: &str) -> (found: Option<
    RecordFields,
>)
    requires
        digit_runs_within(text@, DIGIT_RUN_LIMIT as int),
    ensures
        fields_view(found) == json_fields(text@, interval_key@, frames_key@),
{
    let document = json::parse(text).ok()?;
    let interval = document[interval_key].as_u64();
    let frames = document[frames_key].members().map(|m| m.as_str().map(String::from)).collect();
    Some(RecordFields { interval, frames })
}

/// Builds a record as a `json::JsonValue` (`json::JsonValue::new_object`, the
/// interval as a number, the frames as an array of strings) and writes it
/// with `json::stringify`.
///
/// Trusted: the result is a function of the four arguments, named
/// [`json_record`]. Nothing is claimed about the text.
#[verifier::external_body]
pub(crate) fn write_fields(
    interval_key: &str,
    frames_key: &str,
    interval: u64,
    frames: &Vec<String>,
) -> (text: String)
    ensures
        text@ == json_record(interval_key@, frames_key@, interval, frame_texts(frames@)),
{
    let mut document = json::JsonValue::new_object();
    document[interval_key] = interval.into();
    document[frames_key] = json::JsonValue::Array(
        frames.iter().map(|frame| json::JsonValue::String(frame.clone())).collect(),
    );
    json::stringify(document)
}

/// The set of frames that a record's fields make up: there is one where the
/// interval is a number and the frames are a list, not empty, of strings
/// alone.
pub open spec fn frame_set(fields: FieldsView) -> FrameSetView {
    match fields {
        Some((Some(interval), frames)) => if frames.len() > 0 && forall|i: int|
            0 <= i < frames.len() ==> (#[trigger] frames[i]) is Some {
            Some((Seq::new(frames.len(), |i: int| frames[i].unwrap()), interval))
        } else {
            None
        },
        _ => None,
    }
}

/// Judges what was read of a metadata record: returns the frames and their
/// interval where the record is a valid set of frames, and `CacheRead`
/// otherwise.
pub fn check_record(fields: Option<RecordFields>) -> (set: Result<(Vec<String>, u64), RenderError>)
    ensures
        match frame_set(fields_view(fields)) {
            Some((frames, interval)) => set matches Ok(found) && frame_texts(found.0@) == frames
                && found.1 == interval,
            None => set == Err::<(Vec<String>, u64), RenderError>(RenderError::CacheRead),
        },
{
    let found = match fields {
        Some(found) => found,
        None => {
            return Err(RenderError::CacheRead);
        },
    };
    let interval: u64 = match found.interval {
        Some(interval) => interval,
        None => {
            return Err(RenderError::CacheRead);
        },
    };
    if found.frames.len() == 0 {
        return Err(RenderError::CacheRead);
    }
    let ghost members = member_texts(found.frames@);
    let mut frames: Vec<String> = Vec::new();
    let mut i: usize = 0;
    while i < found.frames.len()
        invariant
            i <= found.frames.len(),
            members == member_texts(found.frames@),
            fields_view(fields) == Some((Some(interval), members)),
            frames.len() == i,
            forall|k: int| 0 <= k < i ==> (#[trigger] members[k]) == Some(frames@[k]@),
        decreases found.frames.len() - i,
    {
        match &found.frames[i] {
            Some(text) => {
                frames.push(text.clone());
            },
            None => {
                assert(members[i as int] is None);
                return Err(RenderError::CacheRead);
            },
        }
        i += 1;
    }
    assert(frame_texts(frames@) =~= Seq::new(members.len(), |i: int| members[i].unwrap()));
    Ok((frames, interval))
}

} // verus!
