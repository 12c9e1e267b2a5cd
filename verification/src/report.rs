//! Presentation helpers for run listings and statistics: display truncation,
//! digit grouping, and look-back durations.

use vstd::prelude::*;

use crate::config::lower_ascii;
use crate::text::{
    chars_string, dec_str_of, parse_i64_chars, replace_chars, spec_parse_i64, str_chars,
    str_replace_of, sub_chars, trim_chars, trim_spec, u64_to_dec,
};

verus! {

/// `s` cleaned for one-line display: newlines become spaces and one pass of
/// double-space collapsing runs over the result.
pub open spec fn cleaned_for_display(s: Seq<char>) -> Seq<char> {
    str_replace_of(str_replace_of(s, seq!['\n'], seq![' ']), seq![' ', ' '], seq![' '])
}

/// The display form of `s` cut to `max_len` characters: the cleaned text
/// as it is when it fits, else its head with a trailing ellipsis.
pub open spec fn truncated_display(s: Seq<char>, max_len: int) -> Seq<char> {
    let cleaned = cleaned_for_display(s);
    if cleaned.len() <= max_len {
        cleaned
    } else {
        cleaned.take(max_len - 3) + seq!['.', '.', '.']
    }
}

/// Cuts a string down for one-line display.
pub fn truncate_string(s: &str, max_len: usize) -> (r: String)
    requires
        max_len >= 3,
    ensures
        r@ == truncated_display(s@, max_len as int),
{
    let newline: Vec<char> = vec!['\n'];
    let space: Vec<char> = vec![' '];
    let two_spaces: Vec<char> = vec![' ', ' '];
    proof {
        assert(newline@ =~= seq!['\n']);
        assert(space@ =~= seq![' ']);
        assert(two_spaces@ =~= seq![' ', ' ']);
    }
    let cleaned = replace_chars(&replace_chars(&str_chars(s), &newline, &space), &two_spaces, &space);
    if cleaned.len() <= max_len {
        chars_string(&cleaned)
    } else {
        let mut head = sub_chars(&cleaned, 0, max_len - 3);
        head.push('.');
        head.push('.');
        head.push('.');
        proof {
            assert(head@ =~= cleaned@.take(max_len - 3) + seq!['.', '.', '.']);
        }
        chars_string(&head)
    }
}

/// How many bytes one character takes in UTF-8.
pub open spec fn utf8_width(c: char) -> int {
    let u = c as u32;
    if u < 0x80 {
        1
    } else if u < 0x800 {
        2
    } else if u < 0x10000 {
        3
    } else {
        4
    }
}

/// The UTF-8 byte length of a text.
pub open spec fn utf8_byte_len(s: Seq<char>) -> int
    decreases s.len(),
{
    if s.len() == 0 {
        0
    } else {
        utf8_width(s[0]) + utf8_byte_len(s.drop_first())
    }
}

/// The characters whose starting byte offset lies below `limit`.
pub open spec fn take_bytes(s: Seq<char>, limit: int) -> Seq<char>
    decreases s.len(),
{
    if s.len() == 0 || limit <= 0 {
        Seq::empty()
    } else {
        seq![s[0]] + take_bytes(s.drop_first(), limit - utf8_width(s[0]))
    }
}

/// Content cut to fit an attribute-size bound: text within the bound passes
/// through; longer text keeps the characters that start below the bound less
/// room for the marker, then the marker. A zero bound means the default of
/// four thousand bytes.
pub open spec fn truncated_content(s: Seq<char>, max_size: int) -> Seq<char> {
    let max = if max_size == 0 {
        4000int
    } else {
        max_size
    };
    if utf8_byte_len(s) <= max {
        s
    } else {
        take_bytes(s, if max >= 12 {
            max - 12
        } else {
            0
        }) + "[TRUNCATED]"@
    }
}

fn utf8_width_of(c: char) -> (r: u64)
    ensures
        r == utf8_width(c),
{
    let u = c as u32;
    if u < 0x80 {
        1
    } else if u < 0x800 {
        2
    } else if u < 0x10000 {
        3
    } else {
        4
    }
}

/// Cuts content to fit within an attribute size bound, byte-accurately.
pub fn truncate_content(content: &str, max_size: usize) -> (r: String)
    requires
        max_size <= 0x1000_0000,
    ensures
        r@ == truncated_content(content@, max_size as int),
{
    let max: usize = if max_size == 0 {
        4000
    } else {
        max_size
    };
    let chars = str_chars(content);
    let mut total: u64 = 0;
    let mut i: usize = 0;
    while i < chars.len() && total <= max as u64
        invariant
            i <= chars@.len(),
            max <= 0x1000_0000,
            total == utf8_byte_len(chars@.take(i as int)),
            total <= max + 4,
        decreases chars@.len() - i,
    {
        proof {
            lemma_utf8_take_step(chars@, i as int);
        }
        total = total + utf8_width_of(chars[i]);
        i = i + 1;
    }
    proof {
        lemma_utf8_split(chars@, i as int);
        lemma_utf8_nonneg(chars@.skip(i as int));
        if i == chars@.len() {
            assert(chars@.take(chars@.len() as int) =~= chars@);
        }
    }
    if i == chars.len() && total <= max as u64 {
        proof {
            assert(chars@.take(chars@.len() as int) =~= chars@);
        }
        chars_string(&chars)
    } else {
        let limit: u64 = if max >= 12 {
            (max - 12) as u64
        } else {
            0
        };
        let mut head: Vec<char> = Vec::new();
        let mut offset: u64 = 0;
        let mut k: usize = 0;
        proof {
            assert(chars@.skip(0) =~= chars@);
            assert(head@ =~= chars@.take(0));
            assert(take_bytes(chars@, limit as int) =~= head@ + take_bytes(
                chars@.skip(0),
                limit as int,
            ));
        }
        while k < chars.len() && offset < limit
            invariant
                k <= chars@.len(),
                offset == utf8_byte_len(chars@.take(k as int)),
                offset <= 4 * k,
                limit <= 0x1000_0000,
                head@ == chars@.take(k as int),
                take_bytes(chars@, limit as int) == head@ + take_bytes(
                    chars@.skip(k as int),
                    limit as int - offset as int,
                ),
            decreases chars@.len() - k,
        {
            proof {
                lemma_utf8_take_step(chars@, k as int);
                assert(chars@.skip(k as int)[0] == chars@[k as int]);
                assert(chars@.skip(k as int).drop_first() =~= chars@.skip(k + 1));
            }
            head.push(chars[k]);
            offset = offset + utf8_width_of(chars[k]);
            k = k + 1;
            proof {
                assert(head@ =~= chars@.take(k as int));
            }
        }
        proof {
            if k == chars@.len() {
                assert(chars@.skip(k as int).len() == 0);
            }
            assert(take_bytes(chars@.skip(k as int), limit as int - offset as int).len() == 0);
            assert(take_bytes(chars@, limit as int) =~= head@);
        }
        let mut out = chars_string(&head);
        out.append("[TRUNCATED]");
        out
    }
}

proof fn lemma_utf8_nonneg(s: Seq<char>)
    ensures
        utf8_byte_len(s) >= s.len(),
    decreases s.len(),
{
    if s.len() > 0 {
        lemma_utf8_nonneg(s.drop_first());
    }
}

proof fn lemma_utf8_split(s: Seq<char>, i: int)
    requires
        0 <= i <= s.len(),
    ensures
        utf8_byte_len(s) == utf8_byte_len(s.take(i)) + utf8_byte_len(s.skip(i)),
    decreases i,
{
    if i == 0 {
        assert(s.take(0).len() == 0);
        assert(s.skip(0) =~= s);
    } else {
        lemma_utf8_split(s, i - 1);
        lemma_utf8_take_step(s, i - 1);
        assert(s.skip(i - 1)[0] == s[i - 1]);
        assert(s.skip(i - 1).drop_first() =~= s.skip(i));
        assert(utf8_byte_len(s.skip(i - 1)) == utf8_width(s[i - 1]) + utf8_byte_len(s.skip(i)));
    }
}

proof fn lemma_utf8_take_step(s: Seq<char>, i: int)
    requires
        0 <= i < s.len(),
    ensures
        utf8_byte_len(s.take(i + 1)) == utf8_byte_len(s.take(i)) + utf8_width(s[i]),
    decreases i,
{
    if i == 0 {
        assert(s.take(1)[0] == s[0]);
        assert(s.take(1).drop_first() =~= s.take(0));
    } else {
        assert(s.take(i + 1)[0] == s[0]);
        assert(s.take(i)[0] == s[0]);
        assert(s.take(i + 1).drop_first() =~= s.drop_first().take(i));
        assert(s.take(i).drop_first() =~= s.drop_first().take(i - 1));
        lemma_utf8_take_step(s.drop_first(), i - 1);
        assert(s.drop_first()[i - 1] == s[i]);
    }
}

/// Digits grouped by thousands with commas, from the right.
pub open spec fn grouped_digits(s: Seq<char>) -> Seq<char>
    decreases s.len(),
{
    if s.len() <= 3 {
        s
    } else {
        grouped_digits(s.take(s.len() - 3)) + seq![','] + s.skip(s.len() - 3)
    }
}

fn grouped_chars(v: &Vec<char>) -> (r: Vec<char>)
    ensures
        r@ == grouped_digits(v@),
    decreases v@.len(),
{
    let n = v.len();
    if n <= 3 {
        let whole = sub_chars(v, 0, n);
        proof {
            assert(whole@ =~= v@);
        }
        whole
    } else {
        let head = sub_chars(v, 0, n - 3);
        proof {
            assert(head@ =~= v@.take(n - 3));
        }
        let mut out = grouped_chars(&head);
        out.push(',');
        let tail = sub_chars(v, n - 3, n);
        proof {
            assert(tail@ =~= v@.skip(n - 3));
        }
        let mut k: usize = 0;
        while k < tail.len()
            invariant
                k <= tail@.len(),
                out@ == grouped_digits(v@.take(v@.len() - 3)) + seq![','] + tail@.take(k as int),
            decreases tail@.len() - k,
        {
            out.push(tail[k]);
            k = k + 1;
            proof {
                assert(tail@.take(k as int) =~= tail@.take(k - 1).push(tail@[k - 1]));
                assert(out@ =~= grouped_digits(v@.take(v@.len() - 3)) + seq![','] + tail@.take(
                    k as int,
                ));
            }
        }
        proof {
            assert(tail@.take(tail@.len() as int) =~= tail@);
            assert(out@ =~= grouped_digits(v@));
        }
        out
    }
}

/// Writes a number with thousands separators.
pub fn format_number(n: u64) -> (r: String)
    ensures
        r@ == grouped_digits(dec_str_of(n as int)),
{
    let digits = u64_to_dec(n);
    chars_string(&grouped_chars(&str_chars(digits.as_str())))
}

/// The milliseconds a look-back expression names: a number with a `d`, `h`
/// or `m` suffix after trimming and ASCII case folding, scaled to
/// milliseconds, when that fits the result type.
pub open spec fn spec_lookback_ms(s: Seq<char>) -> Option<int> {
    let t = lower_ascii(trim_spec(s));
    if t.len() >= 1 && t.last() == 'd' {
        scale_lookback(spec_parse_i64(t.take(t.len() - 1)), 86_400_000)
    } else if t.len() >= 1 && t.last() == 'h' {
        scale_lookback(spec_parse_i64(t.take(t.len() - 1)), 3_600_000)
    } else if t.len() >= 1 && t.last() == 'm' {
        scale_lookback(spec_parse_i64(t.take(t.len() - 1)), 60_000)
    } else {
        None
    }
}

/// A parsed count scaled by a unit, when the product fits `i64`.
pub open spec fn scale_lookback(n: Option<i64>, unit: int) -> Option<int> {
    match n {
        None => None,
        Some(v) => if i64::MIN <= v * unit <= i64::MAX {
            Some(v * unit)
        } else {
            None
        },
    }
}

/// Reads a look-back expression such as `7d`, `24h` or `30m` as a span of
/// milliseconds; the collaborator subtracts it from the current time.
pub fn parse_lookback_ms(s: &str) -> (r: Result<i64, String>)
    ensures
        match r {
            Ok(ms) => spec_lookback_ms(s@) == Some(ms as int),
            Err(m) => spec_lookback_ms(s@) is None && m@
                == "Invalid duration format. Use formats like: 1h, 24h, 7d, 30m"@,
        },
{
    let t = crate::config::lower_ascii_chars(&trim_chars(&str_chars(s)));
    let n = t.len();
    let unit_ms: i64 = if n >= 1 && t[n - 1] == 'd' {
        86_400_000
    } else if n >= 1 && t[n - 1] == 'h' {
        3_600_000
    } else if n >= 1 && t[n - 1] == 'm' {
        60_000
    } else {
        return Err(
            String::from_str("Invalid duration format. Use formats like: 1h, 24h, 7d, 30m"),
        );
    };
    let number = sub_chars(&t, 0, n - 1);
    proof {
        assert(number@ =~= t@.take(t@.len() - 1));
    }
    match parse_i64_chars(&number) {
        None => Err(String::from_str("Invalid duration format. Use formats like: 1h, 24h, 7d, 30m")),
        Some(v) => match v.checked_mul(unit_ms) {
            Some(ms) => Ok(ms),
            None => Err(
                String::from_str("Invalid duration format. Use formats like: 1h, 24h, 7d, 30m"),
            ),
        },
    }
}

} // verus!
