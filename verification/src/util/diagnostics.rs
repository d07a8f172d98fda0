use crate::error::RenderError;
use crate::text::{chars_of, decimal_value, read_decimal};
use vstd::prelude::*;

verus! {

/// Finds the number of frames in the decoder's diagnostics.
pub const FRAME_PATTERN: &'static str = "frame=?\\s*(\\d+)";

/// Finds the elapsed playback time, `HH:MM:SS.ff`, in the decoder's
/// diagnostics.
pub const TIME_PATTERN: &'static str = "time=(\\d{2}):(\\d{2}):(\\d{2}.\\d{2})";

/// The texts of a match's groups; a group that took no part in the match has
/// none.
pub type Groups = Option<Vec<Option<String>>>;

/// What `regex::Regex::captures` finds for a pattern in a text: the groups of
/// the first match, the whole match first, or nothing where the text has no
/// match or the pattern is not a valid one.
pub uninterp spec fn regex_captures(pattern: Seq<char>, text: Seq<char>) -> Option<
    Seq<Option<Seq<char>>>,
>;

/// The groups of a match as plain texts.
pub open spec fn groups_view(groups: Groups) -> Option<Seq<Option<Seq<char>>>> {
    match groups {
        Some(found) => Some(
            found@.map_values(
                |g: Option<String>|
                    match g {
                        Some(text) => Some(text@),
                        None => None,
                    },
            ),
        ),
        None => None,
    }
}

/// Compiles `pattern` with `regex::Regex::new`, searches `text` with
/// `regex::Regex::captures`, and copies the text of every group of the match
/// (`regex::Captures::iter`, `regex::Match::as_str`).
///
/// Trusted: the result is a function of the two arguments, named
/// [`regex_captures`]. Nothing is claimed about what matches.
#[verifier::external_body]
pub(crate) fn captures(pattern: &str, text: &str) -> (groups: Groups)
    ensures
        groups_view(groups) == regex_captures(pattern@, text@),
{
    let compiled = regex::Regex::new(pattern).ok()?;
    let found = compiled.captures(text);
    found.map(|groups| groups.iter().map(|g| g.map(|m| m.as_str().to_owned())).collect())
}

/// The text of group `i`, if there is a match and the group took part in it.
pub open spec fn group(groups: Option<Seq<Option<Seq<char>>>>, i: int) -> Option<Seq<char>> {
    match groups {
        Some(found) => if 0 <= i < found.len() {
            found[i]
        } else {
            None
        },
        None => None,
    }
}

/// The number that a text of exactly two decimal digits denotes.
pub open spec fn two_digits(s: Seq<char>) -> Option<nat> {
    if s.len() == 2 {
        decimal_value(s)
    } else {
        None
    }
}

/// The milliseconds that a text of the form `SS.ff` denotes: seconds and
/// hundredths of a second, two decimal digits each.
pub open spec fn seconds_ms(s: Seq<char>) -> Option<nat> {
    if s.len() == 5 && s[2] == '.' {
        match (two_digits(s.subrange(0, 2)), two_digits(s.subrange(3, 5))) {
            (Some(seconds), Some(hundredths)) => Some(1000 * seconds + 10 * hundredths),
            _ => None,
        }
    } else {
        None
    }
}

/// The elapsed time in milliseconds that a match of the time pattern denotes:
/// hours, minutes and seconds in its groups 1, 2 and 3.
pub open spec fn elapsed_ms(time: Option<Seq<Option<Seq<char>>>>) -> Option<nat> {
    match (group(time, 1), group(time, 2), group(time, 3)) {
        (Some(hours), Some(minutes), Some(seconds)) => match (
            two_digits(hours),
            two_digits(minutes),
            seconds_ms(seconds),
        ) {
            (Some(h), Some(m), Some(ms)) => Some(3_600_000 * h + 60_000 * m + ms),
            _ => None,
        },
        _ => None,
    }
}

/// The number of frames that a match of the frame pattern denotes: the
/// decimal number in its group 1.
pub open spec fn frame_count(frame: Option<Seq<Option<Seq<char>>>>) -> Option<nat> {
    match group(frame, 1) {
        Some(count) => decimal_value(count),
        None => None,
    }
}

/// `total / count`, rounded to the nearest whole number, halves upwards.
pub open spec fn nearest_quotient(total: nat, count: nat) -> nat {
    (2 * total + count) / (2 * count)
}

/// The time between two frames in milliseconds: the elapsed time divided by
/// the number of frames, to the nearest millisecond. There is none where
/// either is missing or unreadable, or where no frame was counted.
pub open spec fn frame_interval(
    frame: Option<Seq<Option<Seq<char>>>>,
    time: Option<Seq<Option<Seq<char>>>>,
) -> Option<nat> {
    match (frame_count(frame), elapsed_ms(time)) {
        (Some(count), Some(elapsed)) => if count > 0 {
            Some(nearest_quotient(elapsed, count))
        } else {
            None
        },
        _ => None,
    }
}

/// The characters of group `i`.
fn group_chars(groups: &Groups, i: usize) -> (chars: Option<Vec<char>>)
    ensures
        match chars {
            Some(c) => group(groups_view(*groups), i as int) == Some(c@),
            None => group(groups_view(*groups), i as int) is None,
        },
{
    match groups {
        Some(found) => {
            if i < found.len() {
                match &found[i] {
                    Some(text) => Some(chars_of(text.as_str())),
                    None => None,
                }
            } else {
                None
            }
        },
        None => None,
    }
}

/// A number of two digits is below a hundred.
pub proof fn lemma_two_digits_bound(s: Seq<char>)
    ensures
        two_digits(s) matches Some(v) ==> v <= 99,
{
    reveal_with_fuel(decimal_value, 3);
}

/// Reads the two-digit number in `chars[from..from + 2]`.
fn read_two_digits(chars: &Vec<char>, from: usize) -> (n: Option<u64>)
    requires
        from + 2 <= chars.len(),
    ensures
        match n {
            Some(v) => two_digits(chars@.subrange(from as int, from + 2)) == Some(v as nat),
            None => two_digits(chars@.subrange(from as int, from + 2)) is None,
        },
{
    proof {
        lemma_two_digits_bound(chars@.subrange(from as int, from + 2));
    }
    read_decimal(chars, from, from + 2)
}

/// Reads the elapsed time of a match of the time pattern.
fn read_elapsed(time: &Groups) -> (ms: Option<u64>)
    ensures
        match ms {
            Some(v) => elapsed_ms(groups_view(*time)) == Some(v as nat) && v < 400_000_000,
            None => elapsed_ms(groups_view(*time)) is None,
        },
{
    let hours = match group_chars(time, 1) {
        Some(chars) => chars,
        None => {
            return None;
        },
    };
    let minutes = match group_chars(time, 2) {
        Some(chars) => chars,
        None => {
            return None;
        },
    };
    let seconds = match group_chars(time, 3) {
        Some(chars) => chars,
        None => {
            return None;
        },
    };
    if hours.len() != 2 || minutes.len() != 2 || seconds.len() != 5 {
        return None;
    }
    if seconds[2] != '.' {
        return None;
    }
    assert(hours@.subrange(0, 2) =~= hours@);
    assert(minutes@.subrange(0, 2) =~= minutes@);
    let h = match read_two_digits(&hours, 0) {
        Some(v) => v,
        None => {
            return None;
        },
    };
    let m = match read_two_digits(&minutes, 0) {
        Some(v) => v,
        None => {
            return None;
        },
    };
    let s = match read_two_digits(&seconds, 0) {
        Some(v) => v,
        None => {
            return None;
        },
    };
    let f = match read_two_digits(&seconds, 3) {
        Some(v) => v,
        None => {
            return None;
        },
    };
    proof {
        lemma_two_digits_bound(hours@);
        lemma_two_digits_bound(minutes@);
        lemma_two_digits_bound(seconds@.subrange(0, 2));
        lemma_two_digits_bound(seconds@.subrange(3, 5));
    }
    Some(3_600_000 * h + 60_000 * m + 1000 * s + 10 * f)
}

/// Derives the time between two frames from what the two patterns found in
/// the decoder's diagnostics.
///
/// Fails with `ExternalTool` where the frame count or the elapsed time is
/// missing or unreadable, or where no frame was counted.
pub fn interval_from_captures(frame: &Groups, time: &Groups) -> (interval: Result<u64, RenderError>)
    ensures
        match frame_interval(groups_view(*frame), groups_view(*time)) {
            Some(ms) => interval == Ok::<u64, RenderError>(ms as u64) && ms <= u64::MAX,
            None => interval == Err::<u64, RenderError>(RenderError::ExternalTool),
        },
{
    let count_chars = match group_chars(frame, 1) {
        Some(chars) => chars,
        None => {
            return Err(RenderError::ExternalTool);
        },
    };
    assert(count_chars@.subrange(0, count_chars@.len() as int) =~= count_chars@);
    let count: u64 = match read_decimal(&count_chars, 0, count_chars.len()) {
        Some(v) => v,
        None => {
            return Err(RenderError::ExternalTool);
        },
    };
    let elapsed: u64 = match read_elapsed(time) {
        Some(v) => v,
        None => {
            return Err(RenderError::ExternalTool);
        },
    };
    if count == 0 {
        return Err(RenderError::ExternalTool);
    }
    let ghost exact = decimal_value(count_chars@).unwrap();
    assert(nearest_quotient(elapsed as nat, exact) == nearest_quotient(elapsed as nat, count as nat))
        by {
        if exact > u64::MAX {
            lemma_nearest_vanishes(elapsed as nat, exact);
            lemma_nearest_vanishes(elapsed as nat, count as nat);
        }
    }
    proof {
        lemma_nearest_bound(elapsed as nat, count as nat);
    }
    let doubled: u128 = 2 * (elapsed as u128) + count as u128;
    Ok((doubled / (2 * (count as u128))) as u64)
}

/// The quotient is the whole number nearest to `total / count`: as a multiple
/// of `count` it misses `total` by half of `count` at most, and where two
/// whole numbers are equally near it is the larger.
pub proof fn law_nearest_quotient(total: nat, count: nat)
    requires
        count > 0,
    ensures
        2 * total - count < 2 * (nearest_quotient(total, count) * count) <= 2 * total + count,
{
    let q = nearest_quotient(total, count);
    assert(2 * total - count < 2 * (q * count) <= 2 * total + count) by (nonlinear_arith)
        requires
            count > 0,
            total >= 0,
            q == (2 * total + count) / (2 * count),
    ;
}

/// The quotient vanishes once the divisor is more than twice the total.
pub proof fn lemma_nearest_vanishes(total: nat, count: nat)
    requires
        count > 2 * total,
    ensures
        nearest_quotient(total, count) == 0,
{
    assert((2 * total + count) / (2 * count) == 0) by (nonlinear_arith)
        requires
            0 <= 2 * total + count < 2 * count,
    ;
}

/// The quotient by a positive number is no more than the total.
pub proof fn lemma_nearest_bound(total: nat, count: nat)
    requires
        count > 0,
    ensures
        nearest_quotient(total, count) <= total,
{
    assert((2 * total + count) / (2 * count) <= total) by (nonlinear_arith)
        requires
            count > 0,
            total >= 0,
    ;
}

} // verus!
