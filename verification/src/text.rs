use vstd::prelude::*;
use vstd::std_specs::iter::IteratorSpec;

verus! {

/// `String::push` of the standard library.
///
/// Trusted: it appends the character to the end of the string.
pub assume_specification[ String::push ](s: &mut String, ch: char)
    ensures
        final(s)@ == old(s)@.push(ch),
;

/// The character of a decimal digit.
pub open spec fn digit(d: int) -> char {
    (48 + d) as char
}

/// Decimal notation of a number, without sign or leading zeros.
pub open spec fn decimal(n: nat) -> Seq<char>
    decreases n,
{
    if n < 10 {
        seq![digit(n as int)]
    } else {
        decimal(n / 10).push(digit((n % 10) as int))
    }
}

/// Appends the decimal notation of `n`.
pub fn push_decimal(out: &mut String, n: usize)
    ensures
        final(out)@ == old(out)@ + decimal(n as nat),
    decreases n,
{
    if n >= 10 {
        push_decimal(out, n / 10);
    }
    let low: u8 = (n % 10) as u8;
    let ch: char = (48u8 + low) as char;
    out.push(ch);
    assert(out@ =~= old(out)@ + decimal(n as nat));
}

/// Copies a string's characters into a vector.
pub fn chars_of(s: &str) -> (v: Vec<char>)
    ensures
        v@ == s@,
{
    let mut v: Vec<char> = Vec::new();
    for c in it: s.chars()
        invariant
            it.seq() == s@,
            v@ == it.seq().take(it.index() as int),
    {
        v.push(c);
    }
    v
}

/// The value of a decimal digit, if the character is one of `0` to `9`.
pub open spec fn digit_value(c: char) -> Option<nat> {
    if '0' <= c <= '9' {
        Some((c as int - 48) as nat)
    } else {
        None
    }
}

/// The number that a text of decimal digits denotes. The empty text and a
/// text with any other character denote none.
pub open spec fn decimal_value(s: Seq<char>) -> Option<nat>
    decreases s.len(),
{
    if s.len() == 0 {
        None
    } else if s.len() == 1 {
        digit_value(s[0])
    } else {
        match (decimal_value(s.drop_last()), digit_value(s.last())) {
            (Some(high), Some(low)) => Some(10 * high + low),
            _ => None,
        }
    }
}

/// The number that a text of decimal digits denotes, as far as a `u64` holds
/// it: a number above `u64::MAX` counts as `u64::MAX`.
pub open spec fn bounded_value(s: Seq<char>) -> Option<u64> {
    match decimal_value(s) {
        Some(exact) => Some(
            if exact <= u64::MAX {
                exact as u64
            } else {
                u64::MAX
            },
        ),
        None => None,
    }
}

/// Reads one decimal digit.
pub fn read_digit(c: char) -> (d: Option<u8>)
    ensures
        match d {
            Some(v) => digit_value(c) == Some(v as nat),
            None => digit_value(c) is None,
        },
{
    if '0' <= c && c <= '9' {
        Some((c as u32 - 48) as u8)
    } else {
        None
    }
}

/// Reads the decimal number in `chars[from..to]`. A number above `u64::MAX`
/// is read as `u64::MAX`.
pub fn read_decimal(chars: &Vec<char>, from: usize, to: usize) -> (n: Option<u64>)
    requires
        from <= to <= chars.len(),
    ensures
        n == bounded_value(chars@.subrange(from as int, to as int)),
{
    if from == to {
        return None;
    }
    let mut value: u64 = 0;
    let mut i: usize = from;
    while i < to
        invariant
            from <= i <= to <= chars.len(),
            i == from ==> value == 0,
            i > from ==> bounded_value(chars@.subrange(from as int, i as int)) == Some(value),
        decreases to - i,
    {
        let ghost before = chars@.subrange(from as int, i as int);
        let ghost after = chars@.subrange(from as int, i + 1);
        assert(after.drop_last() =~= before);
        assert(after.last() == chars@[i as int]);
        match read_digit(chars[i]) {
            Some(d) => {
                if value > (u64::MAX - d as u64) / 10 {
                    value = u64::MAX;
                } else {
                    value = value * 10 + d as u64;
                }
            },
            None => {
                proof {
                    lemma_decimal_value_prefix(chars@.subrange(from as int, to as int), i - from + 1);
                    assert(chars@.subrange(from as int, to as int).take(i - from + 1) =~= after);
                }
                return None;
            },
        }
        i += 1;
    }
    assert(chars@.subrange(from as int, i as int) =~= chars@.subrange(from as int, to as int));
    Some(value)
}

/// The decimal notation of a number is not empty and holds digits alone.
pub proof fn lemma_decimal_digits(n: nat)
    ensures
        decimal(n).len() >= 1,
        forall|i: int| 0 <= i < decimal(n).len() ==> '0' <= #[trigger] decimal(n)[i] <= '9',
    decreases n,
{
    if n >= 10 {
        lemma_decimal_digits(n / 10);
    }
}

/// Reading the decimal notation of a number gives the number back. So two
/// numbers with the same notation are the same number.
pub proof fn law_decimal_round_trip(n: nat)
    ensures
        decimal_value(decimal(n)) == Some(n),
    decreases n,
{
    if n >= 10 {
        law_decimal_round_trip(n / 10);
        lemma_decimal_digits(n / 10);
        assert(decimal(n).drop_last() =~= decimal(n / 10));
    }
}

/// A text denotes a number only if each of its beginnings does.
pub proof fn lemma_decimal_value_prefix(s: Seq<char>, n: int)
    requires
        1 <= n <= s.len(),
    ensures
        decimal_value(s.take(n)) is None ==> decimal_value(s) is None,
    decreases s.len(),
{
    if n < s.len() {
        lemma_decimal_value_prefix(s.drop_last(), n);
        assert(s.drop_last().take(n) =~= s.take(n));
    } else {
        assert(s.take(n) =~= s);
    }
}

} // verus!
