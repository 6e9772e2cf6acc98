use vstd::prelude::*;

verus! {

/// The characters with the Unicode `White_Space` property.
pub open spec fn is_white_space_char(c: char) -> bool {
    ||| '\u{9}' <= c <= '\u{d}'
    ||| c == ' '
    ||| c == '\u{85}'
    ||| c == '\u{a0}'
    ||| c == '\u{1680}'
    ||| '\u{2000}' <= c <= '\u{200a}'
    ||| c == '\u{2028}'
    ||| c == '\u{2029}'
    ||| c == '\u{202f}'
    ||| c == '\u{205f}'
    ||| c == '\u{3000}'
}

/// A string is blank when it is empty or holds only white space.
pub open spec fn is_blank_seq(s: Seq<char>) -> bool {
    forall|i: int| 0 <= i < s.len() ==> is_white_space_char(#[trigger] s[i])
}

/// A string is blank exactly when each of its chars is one of U+0009 to U+000D, U+0020,
/// U+0085, U+00A0, U+1680, U+2000 to U+200A, U+2028, U+2029, U+202F, U+205F or U+3000.
pub proof fn lemma_blank_chars(s: Seq<char>)
    ensures
        is_blank_seq(s) <==> forall|i: int|
            0 <= i < s.len() ==> {
                let c = #[trigger] s[i];
                ||| '\u{9}' <= c && c <= '\u{d}'
                ||| c == '\u{20}'
                ||| c == '\u{85}'
                ||| c == '\u{a0}'
                ||| c == '\u{1680}'
                ||| '\u{2000}' <= c && c <= '\u{200a}'
                ||| c == '\u{2028}'
                ||| c == '\u{2029}'
                ||| c == '\u{202f}'
                ||| c == '\u{205f}'
                ||| c == '\u{3000}'
            },
{
}

/// Whether `c` is white space, in the sense of `char::is_whitespace`.
pub fn is_white_space(c: char) -> (b: bool)
    ensures
        b == is_white_space_char(c),
{
    ('\u{9}' <= c && c <= '\u{d}') || c == ' ' || c == '\u{85}' || c == '\u{a0}' || c
        == '\u{1680}' || ('\u{2000}' <= c && c <= '\u{200a}') || c == '\u{2028}' || c
        == '\u{2029}' || c == '\u{202f}' || c == '\u{205f}' || c == '\u{3000}'
}

/// Whether `s.trim()` would be empty.
pub fn is_blank(s: &str) -> (b: bool)
    ensures
        b == is_blank_seq(s@),
{
    broadcast use vstd::string::group_string_axioms;
    let mut blank = true;
    for c in it: s.chars()
        invariant
            it.seq() == s@,
            blank == (forall|j: int| 0 <= j < it.index() ==> is_white_space_char(#[trigger] s@[j])),
    {
        if !is_white_space(c) {
            blank = false;
        }
    }
    blank
}

/// Number of extended grapheme clusters in `s`, as `unicode-segmentation` counts them.
pub uninterp spec fn grapheme_count(s: Seq<char>) -> nat;

/// Whether a carriage return is directly followed by a line feed somewhere in `s`.
pub open spec fn has_crlf(s: Seq<char>) -> bool {
    exists|i: int| 0 <= i < s.len() - 1 && #[trigger] s[i] == '\r' && s[i + 1] == '\n'
}

/// Calls `UnicodeSegmentation::graphemes(s, true).count()` from `unicode-segmentation`.
/// Trusted: the count is `grapheme_count(s@)`; since the crate yields non-empty, contiguous
/// clusters that cover the whole string, the count is zero exactly for the empty string and
/// never exceeds the number of chars; and since ASCII chars are of the categories Any, CR,
/// LF and Control, between which only CR LF stays together, an ASCII string with no CR LF
/// pair has one cluster per char.
#[verifier::external_body]
pub(crate) fn count_graphemes(s: &str) -> (n: usize)
    ensures
        n == grapheme_count(s@),
        n <= s@.len(),
        (n == 0) == (s@.len() == 0),
        is_ascii_seq(s@) && !has_crlf(s@) ==> n == s@.len(),
{
    unicode_segmentation::UnicodeSegmentation::graphemes(s, true).count()
}

/// Unicode lower-casing of a string, as `str::to_lowercase` computes it.
pub uninterp spec fn lowercase(s: Seq<char>) -> Seq<char>;

pub open spec fn is_ascii_char(c: char) -> bool {
    (c as u32) < 128
}

pub open spec fn ascii_lower(c: char) -> char {
    if 'A' <= c <= 'Z' {
        ((c as u32) + 32) as char
    } else {
        c
    }
}

pub open spec fn is_ascii_seq(s: Seq<char>) -> bool {
    forall|i: int| 0 <= i < s.len() ==> is_ascii_char(#[trigger] s[i])
}

/// ASCII lower-casing: `A`..`Z` become `a`..`z`, every other char stays.
pub open spec fn ascii_lowercase(s: Seq<char>) -> Seq<char> {
    s.map_values(|c: char| ascii_lower(c))
}

/// Calls `str::to_lowercase`. Trusted: the result is `lowercase(s@)`, and on a string of
/// ASCII chars Unicode lower-casing maps `A`..`Z` to `a`..`z` and keeps every other char.
#[verifier::external_body]
pub(crate) fn to_lowercase(s: &str) -> (res: String)
    ensures
        res@ == lowercase(s@),
        is_ascii_seq(s@) ==> res@ == ascii_lowercase(s@),
{
    s.to_lowercase()
}

/// Calls `String::push`.
#[verifier::external_body]
pub(crate) fn push_char(s: &mut String, c: char)
    ensures
        final(s)@ == old(s)@.push(c),
{
    s.push(c)
}

/// Whether some char of `s` is in the set `f`.
pub open spec fn has_char_in(s: Seq<char>, f: spec_fn(char) -> bool) -> bool {
    exists|i: int| 0 <= i < s.len() && f(#[trigger] s[i])
}

pub open spec fn digit_char(d: nat) -> char {
    if d == 0 { '0' }
    else if d == 1 { '1' }
    else if d == 2 { '2' }
    else if d == 3 { '3' }
    else if d == 4 { '4' }
    else if d == 5 { '5' }
    else if d == 6 { '6' }
    else if d == 7 { '7' }
    else if d == 8 { '8' }
    else { '9' }
}

/// The decimal digits of `n`, most significant first, with no leading zero.
pub open spec fn decimal(n: nat) -> Seq<char>
    decreases n,
{
    if n < 10 {
        seq![digit_char(n)]
    } else {
        decimal(n / 10).push(digit_char(n % 10))
    }
}

/// The value of a string of decimal digits, read most significant digit first.
pub open spec fn numeral_value(s: Seq<char>) -> int
    decreases s.len(),
{
    if s.len() == 0 {
        0
    } else {
        numeral_value(s.drop_last()) * 10 + ((s.last() as int) - ('0' as int))
    }
}

/// Each digit is the char whose code is that of `0` plus its value.
pub proof fn lemma_digit_char_code(d: nat)
    requires
        d < 10,
    ensures
        digit_char(d) as int == ('0' as int) + d,
{
}

/// The decimal form of `n` is a non-empty string of the chars `0` to `9`, with no leading
/// zero unless `n` is zero, that reads back as `n`.
pub proof fn lemma_decimal_reads_back(n: nat)
    ensures
        numeral_value(decimal(n)) == n,
        decimal(n).len() >= 1,
        forall|i: int| 0 <= i < decimal(n).len() ==> '0' <= #[trigger] decimal(n)[i] <= '9',
        decimal(n)[0] == '0' ==> n == 0,
    decreases n,
{
    if n < 10 {
        lemma_digit_char_code(n);
        let s = decimal(n);
        assert(s.len() == 1);
        assert(s.drop_last() =~= Seq::<char>::empty());
        assert(numeral_value(s) == numeral_value(s.drop_last()) * 10 + ((s.last() as int) - (
        '0' as int)));
    } else {
        let q = n / 10;
        let r = n % 10;
        lemma_decimal_reads_back(q as nat);
        lemma_digit_char_code(r as nat);
        let p = decimal(q as nat);
        let s = decimal(n);
        assert(s == p.push(digit_char(r as nat)));
        assert(s.drop_last() =~= p);
        assert(s.last() == digit_char(r as nat));
        assert(numeral_value(s) == numeral_value(p) * 10 + r);
        assert(q * 10 + r == n);
        assert forall|i: int| 0 <= i < s.len() implies '0' <= #[trigger] s[i] <= '9' by {
            if i < p.len() {
                assert(s[i] == p[i]);
            }
        }
        assert(s[0] == p[0]);
        assert(q >= 1);
    }
}

fn digit(d: u16) -> (c: char)
    requires
        d < 10,
    ensures
        c == digit_char(d as nat),
{
    if d == 0 { '0' }
    else if d == 1 { '1' }
    else if d == 2 { '2' }
    else if d == 3 { '3' }
    else if d == 4 { '4' }
    else if d == 5 { '5' }
    else if d == 6 { '6' }
    else if d == 7 { '7' }
    else if d == 8 { '8' }
    else { '9' }
}

/// Appends the decimal form of `n` to `s`.
pub fn push_decimal(s: &mut String, n: u16)
    ensures
        final(s)@ == old(s)@ + decimal(n as nat),
    decreases n,
{
    if n < 10 {
        push_char(s, digit(n));
        assert(old(s)@.push(digit_char(n as nat)) =~= old(s)@ + decimal(n as nat));
    } else {
        push_decimal(s, n / 10);
        push_char(s, digit(n % 10));
        assert(old(s)@ + decimal(n as nat) =~= (old(s)@ + decimal((n / 10) as nat)).push(
            digit_char((n % 10) as nat),
        ));
    }
}

} // verus!
