use crate::text::push_char;
use vstd::prelude::*;

verus! {

/// Longest file name, in bytes, that common file systems accept.
pub const MAX_FILENAME_BYTES: usize = 255;

/// The lowercase form of a string, character by character as Unicode defines it.
pub uninterp spec fn lower_of(s: Seq<char>) -> Seq<char>;

/// Relies on str::to_lowercase, whose result depends on the characters alone.
#[verifier::external_body]
fn lowercase_chars(s: &str) -> (r: Vec<char>)
    ensures
        r@ == lower_of(s@),
        s@.len() == 0 ==> r@.len() == 0,
{
    s.to_lowercase().chars().collect()
}

/// Characters that file systems reject or that make names awkward to use.
pub open spec fn is_reserved(c: char) -> bool {
    c == '/' || c == '\\' || c == ':' || c == '*' || c == '?' || c == '"' || c == '<' || c == '>'
        || c == '|' || c == ' '
}

/// The Unicode control characters (general category Cc).
pub open spec fn is_control(c: char) -> bool {
    (c as u32) <= 0x1f || (0x7f <= (c as u32) && (c as u32) <= 0x9f)
}

pub open spec fn replaced(c: char) -> char {
    if is_reserved(c) || is_control(c) {
        '_'
    } else {
        c
    }
}

/// Bytes that a character takes in UTF-8.
pub open spec fn utf8_len(c: char) -> nat {
    if (c as u32) < 0x80 {
        1
    } else if (c as u32) < 0x800 {
        2
    } else if (c as u32) < 0x10000 {
        3
    } else {
        4
    }
}

/// The longest prefix of `s` whose UTF-8 encoding fits in `budget` bytes.
pub open spec fn fit_prefix(s: Seq<char>, budget: int) -> Seq<char>
    decreases s.len(),
{
    if s.len() == 0 || utf8_len(s[0]) > budget {
        Seq::empty()
    } else {
        seq![s[0]] + fit_prefix(s.drop_first(), budget - utf8_len(s[0]))
    }
}

/// A lowercased name made safe for a file: reserved and control characters
/// become `_`, and the result is cut to the longest run of whole characters
/// that fits in the byte limit.
pub open spec fn sanitized_of(lowered: Seq<char>) -> Seq<char> {
    fit_prefix(lowered.map_values(|c: char| replaced(c)), MAX_FILENAME_BYTES as int)
}

fn replace_char(c: char) -> (r: char)
    ensures
        r == replaced(c),
{
    let code = c as u32;
    if c == '/' || c == '\\' || c == ':' || c == '*' || c == '?' || c == '"' || c == '<' || c == '>'
        || c == '|' || c == ' ' || code <= 0x1f || (0x7f <= code && code <= 0x9f) {
        '_'
    } else {
        c
    }
}

fn utf8_width(c: char) -> (r: usize)
    ensures
        r == utf8_len(c),
{
    let code = c as u32;
    if code < 0x80 {
        1
    } else if code < 0x800 {
        2
    } else if code < 0x10000 {
        3
    } else {
        4
    }
}

/// Sanitizes a name that is already lowercase.
pub fn sanitize_lowercase(lowered: &[char]) -> (r: String)
    ensures
        r@ == sanitized_of(lowered@),
{
    let ghost mapped = lowered@.map_values(|c: char| replaced(c));
    let mut out = String::new();
    let mut used: usize = 0;
    let mut i: usize = 0;
    assert(mapped.subrange(0, mapped.len() as int) =~= mapped);
    assert(out@ + fit_prefix(mapped, MAX_FILENAME_BYTES as int) =~= fit_prefix(
        mapped,
        MAX_FILENAME_BYTES as int,
    ));
    while i < lowered.len()
        invariant
            0 <= i <= lowered@.len(),
            used <= MAX_FILENAME_BYTES,
            mapped == lowered@.map_values(|c: char| replaced(c)),
            fit_prefix(mapped, MAX_FILENAME_BYTES as int) == out@ + fit_prefix(
                mapped.subrange(i as int, mapped.len() as int),
                MAX_FILENAME_BYTES - used,
            ),
        decreases lowered@.len() - i,
    {
        let c = replace_char(lowered[i]);
        let w = utf8_width(c);
        let ghost rest = mapped.subrange(i as int, mapped.len() as int);
        assert(rest[0] == c);
        assert(rest.drop_first() =~= mapped.subrange(i + 1, mapped.len() as int));
        if w > MAX_FILENAME_BYTES - used {
            assert(out@ + Seq::<char>::empty() =~= out@);
            return out;
        }
        let ghost before = out@;
        push_char(&mut out, c);
        assert(before + fit_prefix(rest, MAX_FILENAME_BYTES - used) =~= out@ + fit_prefix(
            rest.drop_first(),
            MAX_FILENAME_BYTES - used - w,
        ));
        used = used + w;
        i = i + 1;
    }
    assert(mapped.subrange(i as int, mapped.len() as int) =~= Seq::<char>::empty());
    assert(out@ + Seq::<char>::empty() =~= out@);
    out
}

/// Makes a string usable as a file name: lowercases it, replaces reserved and
/// control characters with `_`, and cuts it to at most 255 bytes on a
/// character boundary.
pub fn sanitize_filename(input: &str) -> (r: String)
    ensures
        r@ == sanitized_of(lower_of(input@)),
{
    let lowered = lowercase_chars(input);
    sanitize_lowercase(lowered.as_slice())
}

} // verus!
