//! Verified text utilities: character-level substring search, trimming,
//! whitespace classification, and decimal conversion.
//!
//! The engine's response parsing and the built-in tools work on `Seq<char>`
//! views of strings; the helpers here connect executable strings to those
//! views.

use vstd::prelude::*;

verus! {

/// Whitespace, following the Unicode `White_Space` set that `str::trim` uses.
pub open spec fn is_space_char(c: char) -> bool {
    let u = c as u32;
    (9 <= u && u <= 13) || u == 32 || u == 0x85 || u == 0xA0 || u == 0x1680 || (0x2000 <= u
        && u <= 0x200A) || u == 0x2028 || u == 0x2029 || u == 0x202F || u == 0x205F || u == 0x3000
}

/// Returns whether `c` is a whitespace character.
pub fn is_space(c: char) -> (r: bool)
    ensures
        r == is_space_char(c),
{
    let u = c as u32;
    (9 <= u && u <= 13) || u == 32 || u == 0x85 || u == 0xA0 || u == 0x1680 || (0x2000 <= u
        && u <= 0x200A) || u == 0x2028 || u == 0x2029 || u == 0x202F || u == 0x205F || u == 0x3000
}

/// The pattern `pat` occurs in `s` at position `i`.
pub open spec fn occurs_at(s: Seq<char>, pat: Seq<char>, i: int) -> bool {
    0 <= i && i + pat.len() <= s.len() && s.subrange(i, i + pat.len() as int) == pat
}

/// The pattern `pat` occurs somewhere in `s`.
pub open spec fn contains_seq(s: Seq<char>, pat: Seq<char>) -> bool {
    exists|i: int| occurs_at(s, pat, i)
}

/// Position of the first occurrence of `pat` in `s` at or after `from`.
pub open spec fn find_from(s: Seq<char>, pat: Seq<char>, from: int) -> Option<int>
    decreases s.len() - from,
{
    if from < 0 || from + pat.len() > s.len() {
        None
    } else if pat.len() == 0 {
        Some(from)
    } else if occurs_at(s, pat, from) {
        Some(from)
    } else {
        find_from(s, pat, from + 1)
    }
}

/// Position of the first occurrence of `pat` in `s`.
pub open spec fn find_seq(s: Seq<char>, pat: Seq<char>) -> Option<int> {
    find_from(s, pat, 0)
}

/// A found position is a real occurrence, and no occurrence precedes it.
pub proof fn lemma_find_from_some(s: Seq<char>, pat: Seq<char>, from: int, i: int)
    requires
        find_from(s, pat, from) == Some(i),
    ensures
        occurs_at(s, pat, i),
        from <= i,
        forall|j: int| from <= j < i ==> !occurs_at(s, pat, j),
    decreases s.len() - from,
{
    if from < 0 || from + pat.len() > s.len() {
    } else if pat.len() == 0 {
    } else if occurs_at(s, pat, from) {
    } else {
        lemma_find_from_some(s, pat, from + 1, i);
    }
    assert(pat.len() == 0 && 0 <= i <= s.len() ==> occurs_at(s, pat, i)) by {
        if pat.len() == 0 && 0 <= i <= s.len() {
            assert(s.subrange(i, i) =~= pat);
        }
    }
}

/// When the search fails there is no occurrence at or after `from`.
pub proof fn lemma_find_from_none(s: Seq<char>, pat: Seq<char>, from: int)
    requires
        from >= 0,
        find_from(s, pat, from) == None::<int>,
    ensures
        forall|j: int| from <= j ==> !occurs_at(s, pat, j),
    decreases s.len() - from,
{
    if from < 0 || from + pat.len() > s.len() {
        assert forall|j: int| from <= j implies !occurs_at(s, pat, j) by {
            if occurs_at(s, pat, j) {
                assert(j + pat.len() <= s.len());
            }
        }
    } else if pat.len() == 0 {
    } else if occurs_at(s, pat, from) {
    } else {
        lemma_find_from_none(s, pat, from + 1);
    }
}

/// `find_seq` succeeds exactly when the pattern occurs at all.
pub proof fn lemma_find_seq_contains(s: Seq<char>, pat: Seq<char>)
    ensures
        find_seq(s, pat) is Some <==> contains_seq(s, pat),
{
    match find_seq(s, pat) {
        Some(i) => {
            lemma_find_from_some(s, pat, 0, i);
        },
        None => {
            lemma_find_from_none(s, pat, 0);
            assert forall|i: int| !occurs_at(s, pat, i) by {
                if occurs_at(s, pat, i) {
                    assert(0 <= i);
                }
            }
        },
    }
}

/// Collects the characters of `s` into a vector.
pub fn str_chars(s: &str) -> (r: Vec<char>)
    ensures
        r@ == s@,
{
    let n = s.unicode_len();
    let mut r: Vec<char> = Vec::new();
    let mut i: usize = 0;
    while i < n
        invariant
            i <= n,
            n == s@.len(),
            r@ == s@.subrange(0, i as int),
        decreases n - i,
    {
        let c = s.get_char(i);
        r.push(c);
        i = i + 1;
        assert(r@ =~= s@.subrange(0, i as int));
    }
    assert(r@ =~= s@);
    r
}

/// Relies on `String::push` from std: appends one character.
#[verifier::external_body]
pub(crate) fn push_char(s: &mut String, c: char)
    ensures
        final (s)@ == old(s)@.push(c),
{
    s.push(c);
}

/// Relies on str's `PartialEq` from std: two strings compare equal exactly
/// when their character sequences are equal.
#[verifier::external_body]
pub(crate) fn str_eq(a: &str, b: &str) -> (r: bool)
    ensures
        r == (a@ == b@),
{
    a == b
}

/// Builds a string out of a vector of characters.
pub fn chars_string(v: &Vec<char>) -> (r: String)
    ensures
        r@ == v@,
{
    let mut r = String::new();
    let mut i: usize = 0;
    while i < v.len()
        invariant
            i <= v.len(),
            r@ == v@.subrange(0, i as int),
        decreases v.len() - i,
    {
        push_char(&mut r, v[i]);
        i = i + 1;
        assert(r@ =~= v@.subrange(0, i as int));
    }
    assert(r@ =~= v@);
    r
}

/// Whether `pat` occurs at position `i` of `s`.
fn match_at(s: &Vec<char>, pat: &Vec<char>, i: usize) -> (r: bool)
    requires
        i + pat.len() <= s.len(),
    ensures
        r == occurs_at(s@, pat@, i as int),
{
    let mut k: usize = 0;
    while k < pat.len()
        invariant
            i + pat.len() <= s.len(),
            k <= pat.len(),
            forall|m: int| 0 <= m < k ==> s@[i + m] == pat@[m],
        decreases pat.len() - k,
    {
        if s[i + k] != pat[k] {
            proof {
                if occurs_at(s@, pat@, i as int) {
                    assert(s@.subrange(i as int, i + pat@.len())[k as int] == pat@[k as int]);
                }
            }
            return false;
        }
        k = k + 1;
    }
    proof {
        assert(s@.subrange(i as int, i + pat@.len()) =~= pat@);
    }
    true
}

/// First occurrence of `pat` in `s` at or after `from`, as `find_from` gives it.
pub fn find_chars(s: &Vec<char>, pat: &Vec<char>, from: usize) -> (r: Option<usize>)
    ensures
        match r {
            Some(i) => find_from(s@, pat@, from as int) == Some(i as int),
            None => find_from(s@, pat@, from as int) == None::<int>,
        },
{
    if pat.len() > s.len() || from > s.len() - pat.len() {
        return None;
    }
    let last = s.len() - pat.len();
    let mut i: usize = from;
    while i <= last
        invariant
            pat.len() + last == s.len(),
            from <= i,
            find_from(s@, pat@, from as int) == find_from(s@, pat@, i as int),
        decreases last + 1 - i,
    {
        if match_at(s, pat, i) {
            return Some(i);
        }
        assert(pat@.len() > 0) by {
            if pat@.len() == 0 {
                assert(s@.subrange(i as int, i as int) =~= pat@);
            }
        }
        i = i + 1;
    }
    None
}

/// `s` with leading whitespace removed.
pub open spec fn trim_start_spec(s: Seq<char>) -> Seq<char>
    decreases s.len(),
{
    if s.len() > 0 && is_space_char(s[0]) {
        trim_start_spec(s.drop_first())
    } else {
        s
    }
}

/// `s` with trailing whitespace removed.
pub open spec fn trim_end_spec(s: Seq<char>) -> Seq<char>
    decreases s.len(),
{
    if s.len() > 0 && is_space_char(s.last()) {
        trim_end_spec(s.drop_last())
    } else {
        s
    }
}

/// `s` with whitespace removed from both ends, as `str::trim` gives it.
pub open spec fn trim_spec(s: Seq<char>) -> Seq<char> {
    trim_end_spec(trim_start_spec(s))
}

proof fn lemma_trim_start_range(s: Seq<char>, i: int)
    requires
        0 <= i <= s.len(),
        forall|k: int| 0 <= k < i ==> is_space_char(s[k]),
        i < s.len() ==> !is_space_char(s[i]),
    ensures
        trim_start_spec(s) =~= s.subrange(i, s.len() as int),
    decreases s.len(),
{
    if s.len() > 0 && is_space_char(s[0]) {
        assert(i >= 1);
        lemma_trim_start_range(s.drop_first(), i - 1);
        assert(s.drop_first().subrange(i - 1, s.drop_first().len() as int) =~= s.subrange(
            i,
            s.len() as int,
        ));
    } else {
        assert(i == 0);
        assert(s.subrange(0, s.len() as int) =~= s);
    }
}

proof fn lemma_trim_end_range(s: Seq<char>, j: int)
    requires
        0 <= j <= s.len(),
        forall|k: int| j <= k < s.len() ==> is_space_char(s[k]),
        j > 0 ==> !is_space_char(s[j - 1]),
    ensures
        trim_end_spec(s) =~= s.subrange(0, j),
    decreases s.len(),
{
    if s.len() > 0 && is_space_char(s.last()) {
        assert(j < s.len());
        lemma_trim_end_range(s.drop_last(), j);
        assert(s.drop_last().subrange(0, j) =~= s.subrange(0, j));
    } else {
        assert(j == s.len());
        assert(s.subrange(0, s.len() as int) =~= s);
    }
}

/// Copy of `s` with whitespace removed from both ends.
pub fn trim_chars(s: &Vec<char>) -> (r: Vec<char>)
    ensures
        r@ == trim_spec(s@),
{
    let mut i: usize = 0;
    while i < s.len() && is_space(s[i])
        invariant
            i <= s.len(),
            forall|k: int| 0 <= k < i ==> is_space_char(s@[k]),
        decreases s.len() - i,
    {
        i = i + 1;
    }
    let mut j: usize = s.len();
    while j > i && is_space(s[j - 1])
        invariant
            i <= j <= s.len(),
            forall|k: int| 0 <= k < i ==> is_space_char(s@[k]),
            forall|k: int| j <= k < s.len() ==> is_space_char(s@[k]),
        decreases j,
    {
        j = j - 1;
    }
    proof {
        lemma_trim_start_range(s@, i as int);
        let t = s@.subrange(i as int, s@.len() as int);
        if j > i {
            lemma_trim_end_range(t, j - i);
        } else {
            assert(forall|k: int| 0 <= k < t.len() ==> is_space_char(t[k]));
            lemma_trim_end_range(t, 0);
        }
    }
    let mut r: Vec<char> = Vec::new();
    let mut k: usize = i;
    while k < j
        invariant
            i <= k <= j <= s.len(),
            r@ == s@.subrange(i as int, k as int),
        decreases j - k,
    {
        r.push(s[k]);
        k = k + 1;
        assert(r@ =~= s@.subrange(i as int, k as int));
    }
    proof {
        let t = s@.subrange(i as int, s@.len() as int);
        assert(t.subrange(0, j - i) =~= s@.subrange(i as int, j as int));
        assert(r@ =~= s@.subrange(i as int, j as int));
    }
    r
}

/// Decimal digit.
pub open spec fn is_digit_char(c: char) -> bool {
    48 <= c as u32 && c as u32 <= 57
}

/// Numeric value of a decimal digit character.
pub open spec fn digit_val(c: char) -> int {
    c as u32 - 48
}

/// Every character of `s` is a decimal digit.
pub open spec fn all_digits(s: Seq<char>) -> bool {
    forall|i: int| 0 <= i < s.len() ==> is_digit_char(s[i])
}

/// Value of a digit string read in base ten.
pub open spec fn dec_value(s: Seq<char>) -> int
    decreases s.len(),
{
    if s.len() == 0 {
        0
    } else {
        dec_value(s.drop_last()) * 10 + digit_val(s.last())
    }
}

pub proof fn lemma_dec_value_nonneg(s: Seq<char>)
    requires
        all_digits(s),
    ensures
        dec_value(s) >= 0,
    decreases s.len(),
{
    if s.len() > 0 {
        assert(all_digits(s.drop_last()));
        lemma_dec_value_nonneg(s.drop_last());
    }
}

/// Extending a digit string to the right never lowers its value.
pub proof fn lemma_dec_value_prefix(q: Seq<char>, n: int)
    requires
        all_digits(q),
        0 <= n <= q.len(),
    ensures
        dec_value(q) >= dec_value(q.take(n)),
    decreases q.len(),
{
    if n == q.len() {
        assert(q.take(n) =~= q);
    } else {
        assert(all_digits(q.drop_last()));
        assert(q.drop_last().take(n) =~= q.take(n));
        lemma_dec_value_prefix(q.drop_last(), n);
        lemma_dec_value_nonneg(q.drop_last());
    }
}

/// What `str::parse::<u64>` accepts: an optional leading plus sign and at
/// least one digit, with the value fitting the type.
pub open spec fn spec_parse_u64(s: Seq<char>) -> Option<u64> {
    let body = if s.len() > 0 && s[0] == '+' {
        s.drop_first()
    } else {
        s
    };
    if body.len() > 0 && all_digits(body) && dec_value(body) <= u64::MAX {
        Some(dec_value(body) as u64)
    } else {
        None
    }
}

/// What `str::parse::<i64>` accepts: an optional sign and at least one digit,
/// with the value fitting the type.
pub open spec fn spec_parse_i64(s: Seq<char>) -> Option<i64> {
    let neg = s.len() > 0 && s[0] == '-';
    let body = if s.len() > 0 && (s[0] == '-' || s[0] == '+') {
        s.drop_first()
    } else {
        s
    };
    if body.len() > 0 && all_digits(body) {
        if neg && dec_value(body) <= 0x8000_0000_0000_0000 {
            Some((-dec_value(body)) as i64)
        } else if !neg && dec_value(body) <= i64::MAX {
            Some(dec_value(body) as i64)
        } else {
            None
        }
    } else {
        None
    }
}

/// Reads the digits of `v` from `start` on as a base-ten number.
fn parse_digits(v: &Vec<char>, start: usize) -> (r: Option<u64>)
    requires
        start <= v.len(),
    ensures
        ({
            let body = v@.skip(start as int);
            match r {
                Some(x) => body.len() > 0 && all_digits(body) && dec_value(body) == x,
                None => !(body.len() > 0 && all_digits(body) && dec_value(body) <= u64::MAX),
            }
        }),
{
    let ghost body = v@.skip(start as int);
    if start == v.len() {
        return None;
    }
    let mut acc: u64 = 0;
    let mut i: usize = start;
    while i < v.len()
        invariant
            start <= i <= v.len(),
            body == v@.skip(start as int),
            all_digits(body.take(i - start)),
            acc == dec_value(body.take(i - start)),
        decreases v.len() - i,
    {
        let c = v[i];
        let u = c as u32;
        if !(48 <= u && u <= 57) {
            proof {
                assert(body[i - start] == v@[i as int]);
                assert(!is_digit_char(body[i - start]));
            }
            return None;
        }
        let d = (u - 48) as u64;
        let step = match acc.checked_mul(10) {
            Some(x) => x.checked_add(d),
            None => None,
        };
        match step {
            Some(x) => {
                proof {
                    assert(body.take(i + 1 - start).drop_last() =~= body.take(i - start));
                    assert(body.take(i + 1 - start).last() == v@[i as int]);
                }
                acc = x;
                i = i + 1;
            },
            None => {
                proof {
                    if all_digits(body) {
                        assert(body.take(i + 1 - start).drop_last() =~= body.take(i - start));
                        assert(body.take(i + 1 - start).last() == v@[i as int]);
                        assert(dec_value(body.take(i + 1 - start)) > u64::MAX);
                        lemma_dec_value_prefix(body, i + 1 - start);
                    }
                }
                return None;
            },
        }
    }
    proof {
        assert(body.take(v@.len() - start) =~= body);
    }
    Some(acc)
}

/// Parses an unsigned number the way `str::parse::<u64>` reads it.
pub fn parse_u64_chars(v: &Vec<char>) -> (r: Option<u64>)
    ensures
        r == spec_parse_u64(v@),
{
    let start: usize = if v.len() > 0 && v[0] == '+' {
        1
    } else {
        0
    };
    proof {
        if v@.len() > 0 && v@[0] == '+' {
            assert(v@.skip(1) =~= v@.drop_first());
        } else {
            assert(v@.skip(0) =~= v@);
        }
    }
    parse_digits(v, start)
}

/// Parses a signed number the way `str::parse::<i64>` reads it.
pub fn parse_i64_chars(v: &Vec<char>) -> (r: Option<i64>)
    ensures
        r == spec_parse_i64(v@),
{
    let neg = v.len() > 0 && v[0] == '-';
    let start: usize = if v.len() > 0 && (v[0] == '-' || v[0] == '+') {
        1
    } else {
        0
    };
    proof {
        if v@.len() > 0 && (v@[0] == '-' || v@[0] == '+') {
            assert(v@.skip(1) =~= v@.drop_first());
        } else {
            assert(v@.skip(0) =~= v@);
        }
    }
    match parse_digits(v, start) {
        None => None,
        Some(mag) => {
            if neg {
                if mag <= 0x8000_0000_0000_0000 {
                    if mag == 0x8000_0000_0000_0000 {
                        Some(i64::MIN)
                    } else {
                        Some(-(mag as i64))
                    }
                } else {
                    None
                }
            } else {
                if mag <= i64::MAX as u64 {
                    Some(mag as i64)
                } else {
                    None
                }
            }
        },
    }
}

/// The character for a decimal digit value.
pub open spec fn digit_char(d: int) -> char {
    ((48 + d) as u32) as char
}

/// Decimal text of a non-negative number.
pub open spec fn dec_str_of(n: int) -> Seq<char>
    decreases n,
{
    if n < 0 {
        Seq::empty()
    } else if n < 10 {
        seq![digit_char(n)]
    } else {
        dec_str_of(n / 10).push(digit_char(n % 10))
    }
}

/// Decimal text of a signed number.
pub open spec fn dec_str_i64_of(n: int) -> Seq<char> {
    if n < 0 {
        seq!['-'] + dec_str_of(-n)
    } else {
        dec_str_of(n)
    }
}

fn digit_char_of(d: u64) -> (c: char)
    requires
        d < 10,
    ensures
        c == digit_char(d as int),
{
    match d {
        0 => '0',
        1 => '1',
        2 => '2',
        3 => '3',
        4 => '4',
        5 => '5',
        6 => '6',
        7 => '7',
        8 => '8',
        _ => '9',
    }
}

/// Decimal text of `n`, as `u64`'s display gives it.
pub fn u64_to_dec(n: u64) -> (r: String)
    ensures
        r@ == dec_str_of(n as int),
{
    let mut rev: Vec<char> = Vec::new();
    let mut m: u64 = n;
    rev.push(digit_char_of(m % 10));
    m = m / 10;
    while m > 0
        invariant
            rev@.len() >= 1,
            dec_str_of(n as int) =~= (if m > 0 {
                dec_str_of(m as int) + rev@.reverse()
            } else {
                rev@.reverse()
            }),
        decreases m,
    {
        let d = m % 10;
        proof {
            let prev = rev@;
            assert(prev.push(digit_char(d as int)).reverse() =~= seq![digit_char(d as int)]
                + prev.reverse());
        }
        rev.push(digit_char_of(d));
        m = m / 10;
        proof {
            if m > 0 {
                assert(dec_str_of((m * 10 + d) as int) == dec_str_of(m as int).push(
                    digit_char(d as int),
                ));
                assert(dec_str_of(m as int).push(digit_char(d as int)) + rev@.drop_last().reverse()
                    =~= dec_str_of(m as int) + rev@.reverse());
            } else {
                assert(dec_str_of(d as int) + rev@.drop_last().reverse() =~= rev@.reverse());
            }
        }
    }
    let mut out: Vec<char> = Vec::new();
    let mut j: usize = rev.len();
    while j > 0
        invariant
            j <= rev@.len(),
            out@ =~= rev@.skip(j as int).reverse(),
        decreases j,
    {
        j = j - 1;
        out.push(rev[j]);
        proof {
            assert(rev@.skip(j as int) =~= seq![rev@[j as int]] + rev@.skip(j + 1));
            assert(rev@.skip(j as int).reverse() =~= rev@.skip(j + 1).reverse().push(
                rev@[j as int],
            ));
        }
    }
    proof {
        assert(rev@.skip(0) =~= rev@);
    }
    chars_string(&out)
}

/// Decimal text of `n`, as `u32`'s display gives it.
pub fn u32_to_dec(n: u32) -> (r: String)
    ensures
        r@ == dec_str_of(n as int),
{
    u64_to_dec(n as u64)
}

/// Decimal text of `n`, as `i64`'s display gives it.
pub fn i64_to_dec(n: i64) -> (r: String)
    ensures
        r@ == dec_str_i64_of(n as int),
{
    if n >= 0 {
        u64_to_dec(n as u64)
    } else {
        let mag: u64 = if n == i64::MIN {
            0x8000_0000_0000_0000
        } else {
            (-n) as u64
        };
        let mut s = chars_string(&vec!['-']);
        let digits = u64_to_dec(mag);
        s.append(digits.as_str());
        proof {
            assert(seq!['-'] + dec_str_of(mag as int) =~= dec_str_i64_of(n as int));
        }
        s
    }
}

/// Copy of `s[from..to]`.
pub fn sub_chars(s: &Vec<char>, from: usize, to: usize) -> (r: Vec<char>)
    requires
        from <= to <= s.len(),
    ensures
        r@ == s@.subrange(from as int, to as int),
{
    let mut r: Vec<char> = Vec::new();
    let mut k: usize = from;
    while k < to
        invariant
            from <= k <= to <= s.len(),
            r@ == s@.subrange(from as int, k as int),
        decreases to - k,
    {
        r.push(s[k]);
        k = k + 1;
        assert(r@ =~= s@.subrange(from as int, k as int));
    }
    assert(r@ =~= s@.subrange(from as int, to as int));
    r
}

/// Position of the last occurrence of `c` in `s`.
pub open spec fn rfind_char(s: Seq<char>, c: char) -> Option<int>
    decreases s.len(),
{
    if s.len() == 0 {
        None
    } else if s.last() == c {
        Some(s.len() - 1)
    } else {
        rfind_char(s.drop_last(), c)
    }
}

/// A found last occurrence is in range and holds `c`.
pub proof fn lemma_rfind_char_bound(s: Seq<char>, c: char, p: int)
    requires
        rfind_char(s, c) == Some(p),
    ensures
        0 <= p < s.len(),
        s[p] == c,
    decreases s.len(),
{
    if s.len() > 0 {
        if s.last() == c {
        } else {
            lemma_rfind_char_bound(s.drop_last(), c, p);
        }
    }
}

/// Last occurrence of `c` in `s`, as `rfind_char` gives it.
pub fn rfind_char_at(s: &Vec<char>, c: char) -> (r: Option<usize>)
    ensures
        match r {
            Some(i) => rfind_char(s@, c) == Some(i as int),
            None => rfind_char(s@, c) == None::<int>,
        },
{
    proof {
        assert(s@.take(s@.len() as int) =~= s@);
    }
    let mut j: usize = s.len();
    while j > 0
        invariant
            j <= s.len(),
            rfind_char(s@, c) == rfind_char(s@.take(j as int), c),
        decreases j,
    {
        if s[j - 1] == c {
            return Some(j - 1);
        }
        j = j - 1;
        proof {
            assert(s@.take(j + 1).drop_last() =~= s@.take(j as int));
        }
    }
    None
}

/// `s` with every ASCII space removed, as `str::replace(" ", "")` leaves it.
pub open spec fn without_spaces(s: Seq<char>) -> Seq<char>
    decreases s.len(),
{
    if s.len() == 0 {
        Seq::empty()
    } else {
        without_spaces(s.drop_last()) + (if s.last() == ' ' {
            Seq::empty()
        } else {
            seq![s.last()]
        })
    }
}

/// Copy of `s` with every ASCII space removed.
pub fn remove_spaces(s: &Vec<char>) -> (r: Vec<char>)
    ensures
        r@ == without_spaces(s@),
{
    let mut r: Vec<char> = Vec::new();
    let mut i: usize = 0;
    while i < s.len()
        invariant
            i <= s.len(),
            r@ == without_spaces(s@.take(i as int)),
        decreases s.len() - i,
    {
        if s[i] != ' ' {
            r.push(s[i]);
        }
        i = i + 1;
        proof {
            assert(s@.take(i as int).drop_last() =~= s@.take(i - 1));
            assert(s@.take(i as int).last() == s@[i - 1]);
        }
    }
    proof {
        assert(s@.take(s@.len() as int) =~= s@);
    }
    r
}

/// `s` with every occurrence of `from` replaced by `to`, scanning left to
/// right without overlap, for a non-empty pattern.
pub open spec fn replace_of(s: Seq<char>, from: Seq<char>, to: Seq<char>) -> Seq<char>
    decreases s.len(),
        when from.len() > 0
        via replace_of_dec
{
    match find_seq(s, from) {
        None => s,
        Some(i) => s.take(i) + to + replace_of(s.skip(i + from.len() as int), from, to),
    }
}

#[via_fn]
proof fn replace_of_dec(s: Seq<char>, from: Seq<char>, to: Seq<char>) {
    match find_seq(s, from) {
        Some(i) => {
            lemma_find_from_some(s, from, 0, i);
        },
        None => {},
    }
}

/// `to` written before, between and after the characters of `s`: what
/// replacing the empty pattern by `to` gives.
pub open spec fn interleave_of(s: Seq<char>, to: Seq<char>) -> Seq<char>
    decreases s.len(),
{
    if s.len() == 0 {
        to
    } else {
        to + seq![s[0]] + interleave_of(s.drop_first(), to)
    }
}

/// `s` with every occurrence of `from` replaced by `to`, as `str::replace`
/// gives it.
pub open spec fn str_replace_of(s: Seq<char>, from: Seq<char>, to: Seq<char>) -> Seq<char> {
    if from.len() == 0 {
        interleave_of(s, to)
    } else {
        replace_of(s, from, to)
    }
}

fn replace_nonempty(s: &Vec<char>, from: &Vec<char>, to: &Vec<char>) -> (r: Vec<char>)
    requires
        from.len() > 0,
    ensures
        r@ == replace_of(s@, from@, to@),
    decreases s@.len(),
{
    match find_chars(s, from, 0) {
        None => {
            proof {
                assert(s@.subrange(0, s@.len() as int) =~= s@);
            }
            sub_chars(s, 0, s.len())
        },
        Some(i) => {
            let n = s.len();
            proof {
                lemma_find_from_some(s@, from@, 0, i as int);
                assert(i + from@.len() <= n);
            }
            let mut out = sub_chars(s, 0, i);
            let mut mid = sub_chars(to, 0, to.len());
            proof {
                assert(to@.subrange(0, to@.len() as int) =~= to@);
            }
            out.append(&mut mid);
            let rest = sub_chars(s, i + from.len(), n);
            let mut tail = replace_nonempty(&rest, from, to);
            out.append(&mut tail);
            proof {
                assert(s@.subrange(i + from@.len(), s@.len() as int) =~= s@.skip(i
                    + from@.len() as int));
                assert(out@ =~= s@.take(i as int) + to@ + replace_of(
                    s@.skip(i + from@.len() as int),
                    from@,
                    to@,
                ));
            }
            out
        },
    }
}

fn interleave_chars(s: &Vec<char>, to: &Vec<char>) -> (r: Vec<char>)
    ensures
        r@ == interleave_of(s@, to@),
    decreases s@.len(),
{
    let mut out = sub_chars(to, 0, to.len());
    proof {
        assert(to@.subrange(0, to@.len() as int) =~= to@);
    }
    if s.len() == 0 {
        out
    } else {
        out.push(s[0]);
        let rest = sub_chars(s, 1, s.len());
        proof {
            assert(s@.subrange(1, s@.len() as int) =~= s@.drop_first());
        }
        let mut tail = interleave_chars(&rest, to);
        out.append(&mut tail);
        proof {
            assert(out@ =~= to@ + seq![s@[0]] + interleave_of(s@.drop_first(), to@));
        }
        out
    }
}

/// `s` with every occurrence of `from` replaced by `to`.
pub fn replace_chars(s: &Vec<char>, from: &Vec<char>, to: &Vec<char>) -> (r: Vec<char>)
    ensures
        r@ == str_replace_of(s@, from@, to@),
{
    if from.len() == 0 {
        interleave_chars(s, to)
    } else {
        replace_nonempty(s, from, to)
    }
}

/// The message `str::parse::<u64>` reports: an empty text, a non-digit, or
/// a value too large, in that order of detection.
pub open spec fn spec_parse_u64_err(s: Seq<char>) -> Seq<char> {
    let body = if s.len() > 0 && s[0] == '+' {
        s.drop_first()
    } else {
        s
    };
    if s.len() == 0 {
        "cannot parse integer from empty string"@
    } else if body.len() == 0 || !all_digits(body) {
        "invalid digit found in string"@
    } else {
        "number too large to fit in target type"@
    }
}

/// Parses as `str::parse::<u64>` does, reporting its error message.
pub fn parse_u64_with_error(v: &Vec<char>) -> (r: Result<u64, String>)
    ensures
        match r {
            Ok(x) => spec_parse_u64(v@) == Some(x),
            Err(m) => spec_parse_u64(v@) is None && m@ == spec_parse_u64_err(v@),
        },
{
    if v.len() == 0 {
        return Err(String::from_str("cannot parse integer from empty string"));
    }
    let start: usize = if v[0] == '+' {
        1
    } else {
        0
    };
    let ghost body = if v@.len() > 0 && v@[0] == '+' {
        v@.drop_first()
    } else {
        v@
    };
    proof {
        assert(body =~= v@.skip(start as int));
    }
    if start == v.len() {
        return Err(String::from_str("invalid digit found in string"));
    }
    let mut i: usize = start;
    while i < v.len()
        invariant
            v@.len() > 0,
            start <= 1,
            start <= i <= v.len(),
            start == 1 <==> v@[0] == '+',
            body == v@.skip(start as int),
            body.len() > 0,
            forall|k: int| 0 <= k < i - start ==> is_digit_char(body[k]),
        decreases v.len() - i,
    {
        let u = v[i] as u32;
        if !(48 <= u && u <= 57) {
            proof {
                assert(body[i - start] == v@[i as int]);
            }
            return Err(String::from_str("invalid digit found in string"));
        }
        i = i + 1;
    }
    proof {
        assert(all_digits(body));
    }
    match parse_digits(v, start) {
        Some(x) => Ok(x),
        None => Err(String::from_str("number too large to fit in target type")),
    }
}

} // verus!
