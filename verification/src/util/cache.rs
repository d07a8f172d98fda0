use crate::config::Config;
use crate::error::RenderError;
use crate::text::{decimal, law_decimal_round_trip, lemma_decimal_digits, push_decimal};
use vstd::prelude::*;

verus! {

/// Sources of this many bytes or more are too long to hash.
pub const HASH_LIMIT: u64 = 0x2000_0000_0000_0000;

/// The SHA-256 digest of some bytes, as `ring::digest::digest` computes it.
pub uninterp spec fn sha256(data: Seq<u8>) -> Seq<u8>;

/// The upper-case hexadecimal digit of a value below sixteen.
pub open spec fn hex_digit(v: int) -> char {
    if v < 10 {
        (48 + v) as char
    } else {
        (55 + v) as char
    }
}

/// Upper-case hexadecimal notation of some bytes: two digits per byte, the
/// high half first.
pub open spec fn hex_upper(data: Seq<u8>) -> Seq<char> {
    Seq::new(
        2 * data.len(),
        |i: int|
            if i % 2 == 0 {
                hex_digit(data[i / 2] as int / 16)
            } else {
                hex_digit(data[i / 2] as int % 16)
            },
    )
}

/// Calls `ring::digest::digest` with `ring::digest::SHA256` and copies the
/// digest's bytes.
///
/// Trusted: the digest is a function of the data, named [`sha256`], and is 32
/// bytes long. Left out is data whose length in bits does not fit in 64 bits,
/// which `ring` refuses.
#[verifier::external_body]
fn digest(data: &[u8]) -> (out: Vec<u8>)
    requires
        data@.len() < HASH_LIMIT,
    ensures
        out@ == sha256(data@),
        out@.len() == 32,
{
    ring::digest::digest(&ring::digest::SHA256, data).as_ref().to_vec()
}

/// Calls `data_encoding::Encoding::encode` of `data_encoding::HEXUPPER`.
///
/// Trusted: the text is the base-16 notation of the bytes with the digits
/// `0123456789ABCDEF`, as [`hex_upper`] states it. Left out are more than
/// `usize::MAX / 512` bytes, for which `data_encoding` may panic.
#[verifier::external_body]
fn encode_hex(data: &Vec<u8>) -> (text: String)
    requires
        data@.len() <= usize::MAX / 512,
    ensures
        text@ == hex_upper(data@),
{
    data_encoding::HEXUPPER.encode(data)
}

/// Hashes a source's content: its SHA-256 digest in upper-case hexadecimal
/// notation. Fails with `Decode` where the content is too long to hash.
pub fn sha256_digest(content: &[u8]) -> (hash: Result<String, RenderError>)
    ensures
        match hash {
            Ok(text) => content@.len() < HASH_LIMIT && text@ == hex_upper(sha256(content@)),
            Err(e) => content@.len() >= HASH_LIMIT && e == RenderError::Decode,
        },
{
    if content.len() as u64 >= HASH_LIMIT {
        return Err(RenderError::Decode);
    }
    let bytes = digest(content);
    Ok(encode_hex(&bytes))
}

/// Where a source's frames are cached: one directory per source, and in it
/// one directory per grid and rendering mode.
#[derive(Debug)]
pub struct CacheDir {
    /// Directory of the source, named after its content.
    pub source: String,
    /// Directory, within the source's, of one grid and rendering mode.
    pub variant: String,
}

/// How a flag is written in a directory name.
pub open spec fn flag_text(flag: bool) -> Seq<char> {
    if flag {
        seq!['t', 'r', 'u', 'e']
    } else {
        seq!['f', 'a', 'l', 's', 'e']
    }
}

/// Name of the directory of the source with the given hash.
pub open spec fn cache_source(hash: Seq<char>) -> Seq<char> {
    seq!['i', '2', 'a', '-', 'r', 's', '_'] + hash
}

/// Name of the directory of a grid and rendering mode:
/// `<width>x<height>x<grayscale>x<dup>`.
pub open spec fn cache_variant(width: nat, height: nat, grayscale: bool, dup: bool) -> Seq<char> {
    decimal(width) + seq!['x'] + decimal(height) + seq!['x'] + flag_text(grayscale) + seq!['x']
        + flag_text(dup)
}

/// Two texts that are cut by the same mark, which neither has before the
/// cut, agree before the cut and after it.
proof fn lemma_same_cut(a: Seq<char>, rest_a: Seq<char>, b: Seq<char>, rest_b: Seq<char>, mark: char)
    requires
        a + seq![mark] + rest_a == b + seq![mark] + rest_b,
        forall|i: int| 0 <= i < a.len() ==> a[i] != mark,
        forall|i: int| 0 <= i < b.len() ==> b[i] != mark,
    ensures
        a == b,
        rest_a == rest_b,
{
    let left = a + seq![mark] + rest_a;
    let right = b + seq![mark] + rest_b;
    if a.len() < b.len() {
        assert(left[a.len() as int] == mark);
        assert(right[a.len() as int] == b[a.len() as int]);
    }
    if b.len() < a.len() {
        assert(right[b.len() as int] == mark);
        assert(left[b.len() as int] == a[b.len() as int]);
    }
    assert(a =~= left.subrange(0, a.len() as int));
    assert(b =~= right.subrange(0, b.len() as int));
    assert(rest_a =~= left.subrange(a.len() as int + 1, left.len() as int));
    assert(rest_b =~= right.subrange(b.len() as int + 1, right.len() as int));
}

/// A flag's text holds no `x`, and tells the flag.
proof fn lemma_flag_text(flag: bool, other: bool)
    ensures
        forall|i: int| 0 <= i < flag_text(flag).len() ==> flag_text(flag)[i] != 'x',
        flag_text(flag) == flag_text(other) ==> flag == other,
{
    if flag_text(flag) == flag_text(other) {
        assert(flag_text(flag).len() == flag_text(other).len());
    }
}

/// The last two parts of a variant's name: the mode.
spec fn mode_text(grayscale: bool, dup: bool) -> Seq<char> {
    flag_text(grayscale) + seq!['x'] + flag_text(dup)
}

/// The last three parts of a variant's name: the height and the mode.
spec fn height_text(height: nat, grayscale: bool, dup: bool) -> Seq<char> {
    decimal(height) + seq!['x'] + mode_text(grayscale, dup)
}

/// A variant's name, cut behind the width.
proof fn lemma_variant_cut(width: nat, height: nat, grayscale: bool, dup: bool)
    ensures
        cache_variant(width, height, grayscale, dup) == decimal(width) + seq!['x'] + height_text(
            height,
            grayscale,
            dup,
        ),
{
    assert(cache_variant(width, height, grayscale, dup) =~= decimal(width) + seq!['x']
        + height_text(height, grayscale, dup));
}

/// Every grid and rendering mode has a directory of its own: two that differ
/// in the width, the height or either flag differ in the directory's name.
pub proof fn law_cache_variant_distinct(
    width: nat,
    height: nat,
    grayscale: bool,
    dup: bool,
    other_width: nat,
    other_height: nat,
    other_grayscale: bool,
    other_dup: bool,
)
    requires
        cache_variant(width, height, grayscale, dup) == cache_variant(
            other_width,
            other_height,
            other_grayscale,
            other_dup,
        ),
    ensures
        width == other_width,
        height == other_height,
        grayscale == other_grayscale,
        dup == other_dup,
{
    lemma_variant_cut(width, height, grayscale, dup);
    lemma_variant_cut(other_width, other_height, other_grayscale, other_dup);
    assert(decimal(width) == decimal(other_width) && height_text(height, grayscale, dup)
        == height_text(other_height, other_grayscale, other_dup)) by {
        lemma_decimal_digits(width);
        lemma_decimal_digits(other_width);
        lemma_same_cut(
            decimal(width),
            height_text(height, grayscale, dup),
            decimal(other_width),
            height_text(other_height, other_grayscale, other_dup),
            'x',
        );
    }
    assert(decimal(height) == decimal(other_height) && mode_text(grayscale, dup) == mode_text(
        other_grayscale,
        other_dup,
    )) by {
        lemma_decimal_digits(height);
        lemma_decimal_digits(other_height);
        lemma_same_cut(
            decimal(height),
            mode_text(grayscale, dup),
            decimal(other_height),
            mode_text(other_grayscale, other_dup),
            'x',
        );
    }
    assert(grayscale == other_grayscale && dup == other_dup) by {
        lemma_flag_text(grayscale, other_grayscale);
        lemma_flag_text(other_grayscale, grayscale);
        lemma_flag_text(dup, other_dup);
        lemma_same_cut(
            flag_text(grayscale),
            flag_text(dup),
            flag_text(other_grayscale),
            flag_text(other_dup),
            'x',
        );
    }
    law_decimal_round_trip(width);
    law_decimal_round_trip(other_width);
    law_decimal_round_trip(height);
    law_decimal_round_trip(other_height);
}

/// Every source has a directory of its own: two hashes that differ give
/// directory names that differ.
pub proof fn law_cache_source_distinct(hash: Seq<char>, other_hash: Seq<char>)
    requires
        cache_source(hash) == cache_source(other_hash),
    ensures
        hash == other_hash,
{
    assert(hash =~= cache_source(hash).subrange(7, cache_source(hash).len() as int));
    assert(other_hash =~= cache_source(other_hash).subrange(
        7,
        cache_source(other_hash).len() as int,
    ));
}

/// Appends a flag as it is written in a directory name.
fn push_flag(out: &mut String, flag: bool)
    ensures
        final(out)@ == old(out)@ + flag_text(flag),
{
    proof {
        reveal_strlit("true");
        reveal_strlit("false");
    }
    if flag {
        out.append("true");
    } else {
        out.append("false");
    }
    assert(out@ =~= old(out)@ + flag_text(flag));
}

/// Names the cache directory of a source, a grid and a rendering mode. Of the
/// configuration only `grayscale` and `dup` count.
pub fn get_cache_dirname(hash: &str, width: usize, height: usize, config: &Config) -> (dir:
    CacheDir)
    ensures
        dir.source@ == cache_source(hash@),
        dir.variant@ == cache_variant(width as nat, height as nat, config.grayscale, config.dup),
{
    proof {
        reveal_strlit("i2a-rs_");
    }
    let mut source = String::new();
    source.append("i2a-rs_");
    source.append(hash);
    assert(source@ =~= cache_source(hash@));
    let mut variant = String::new();
    push_decimal(&mut variant, width);
    variant.push('x');
    push_decimal(&mut variant, height);
    variant.push('x');
    push_flag(&mut variant, config.grayscale);
    variant.push('x');
    push_flag(&mut variant, config.dup);
    assert(variant@ =~= cache_variant(
        width as nat,
        height as nat,
        config.grayscale,
        config.dup,
    ));
    CacheDir { source, variant }
}

} // verus!
