//! Verified text helpers shared across the service modules.
//!
//! The wire protocol's keyword vocabulary is plain ASCII, so the helpers
//! fold case and strip surrounding blanks over the ASCII range only; a
//! keyword match never depends on any other character.

use vstd::prelude::*;

verus! {

broadcast use vstd::std_specs::vec::group_vec_axioms, vstd::seq::group_seq_axioms;

/// ASCII lower-casing of one character.
pub open spec fn lower_char(c: char) -> char {
    if 'A' <= c && c <= 'Z' {
        (((c as u8) + 32) as u8) as char
    } else {
        c
    }
}

/// ASCII lower-casing of a whole character sequence.
pub open spec fn lower(s: Seq<char>) -> Seq<char> {
    s.map_values(|c: char| lower_char(c))
}

/// The blank characters stripped from keyword text.
pub open spec fn is_blank(c: char) -> bool {
    c == ' ' || c == '\t' || c == '\n' || c == '\r' || c == '\u{b}' || c == '\u{c}'
}

/// `s` without its leading blanks.
pub open spec fn drop_leading_blanks(s: Seq<char>) -> Seq<char>
    decreases s.len(),
{
    if s.len() > 0 && is_blank(s[0]) {
        drop_leading_blanks(s.drop_first())
    } else {
        s
    }
}

/// `s` without its trailing blanks.
pub open spec fn drop_trailing_blanks(s: Seq<char>) -> Seq<char>
    decreases s.len(),
{
    if s.len() > 0 && is_blank(s.last()) {
        drop_trailing_blanks(s.drop_last())
    } else {
        s
    }
}

/// `s` without leading and trailing blanks.
pub open spec fn trimmed(s: Seq<char>) -> Seq<char> {
    drop_trailing_blanks(drop_leading_blanks(s))
}

/// The keyword form under which protocol text is matched: lower-cased,
/// with surrounding blanks stripped.
pub open spec fn folded(s: Seq<char>) -> Seq<char> {
    drop_trailing_blanks(drop_leading_blanks(lower(s)))
}

/// Exec counterpart of [`lower_char`].
pub fn lower_char_exec(c: char) -> (r: char)
    ensures
        r == lower_char(c),
{
    if 'A' <= c && c <= 'Z' {
        ((c as u8) + 32) as char
    } else {
        c
    }
}

/// Exec counterpart of [`is_blank`].
pub fn is_blank_exec(c: char) -> (r: bool)
    ensures
        r == is_blank(c),
{
    c == ' ' || c == '\t' || c == '\n' || c == '\r' || c == '\u{b}' || c == '\u{c}'
}

proof fn lemma_drop_leading_blanks(s: Seq<char>, k: int)
    requires
        0 <= k <= s.len(),
        forall|i: int| 0 <= i < k ==> is_blank(s[i]),
        k < s.len() ==> !is_blank(s[k]),
    ensures
        drop_leading_blanks(s) =~= s.subrange(k, s.len() as int),
    decreases k,
{
    if k == 0 {
        if s.len() > 0 && is_blank(s[0]) {
            assert(false);
        }
    } else {
        let t = s.drop_first();
        assert(forall|i: int| 0 <= i < k - 1 ==> is_blank(t[i]));
        lemma_drop_leading_blanks(t, k - 1);
    }
}

proof fn lemma_drop_trailing_blanks(s: Seq<char>, k: int)
    requires
        0 <= k <= s.len(),
        forall|i: int| k <= i < s.len() ==> is_blank(s[i]),
        k > 0 ==> !is_blank(s[k - 1]),
    ensures
        drop_trailing_blanks(s) =~= s.subrange(0, k),
    decreases s.len() - k,
{
    if k == s.len() {
        if s.len() > 0 && is_blank(s.last()) {
            let t = s.drop_last();
            assert(forall|i: int| k - 1 <= i < t.len() ==> is_blank(t[i]));
            lemma_drop_trailing_blanks(t, k - 1);
        }
    } else {
        let t = s.drop_last();
        assert(forall|i: int| k <= i < t.len() ==> is_blank(t[i]));
        lemma_drop_trailing_blanks(t, k);
    }
}

/// Whether the keyword form of `s` is exactly `keyword`.
///
/// `keyword` must already be lower-case ASCII without surrounding blanks;
/// the callers pass fixed protocol literals.
pub fn matches_keyword(s: &str, keyword: &str) -> (r: bool)
    ensures
        r == (folded(s@) == keyword@),
{
    let n = s.unicode_len();
    let m = keyword.unicode_len();
    let ghost ls = lower(s@);

    let mut start: usize = 0;
    while start < n && is_blank_exec(s.get_char(start))
        invariant
            0 <= start <= n,
            n == s@.len(),
            forall|i: int| 0 <= i < start ==> is_blank(s@[i]),
        decreases n - start,
    {
        start = start + 1;
    }
    let mut end: usize = n;
    while end > start && is_blank_exec(s.get_char(end - 1))
        invariant
            start <= end <= n,
            n == s@.len(),
            forall|i: int| end <= i < n ==> is_blank(s@[i]),
        decreases end,
    {
        end = end - 1;
    }
    proof {
        assert(ls.len() == s@.len());
        assert forall|i: int| 0 <= i < s@.len() implies is_blank(ls[i]) == is_blank(s@[i]) by {
            assert(ls[i] == lower_char(s@[i]));
        }
        lemma_drop_leading_blanks(ls, start as int);
        let tail = ls.subrange(start as int, ls.len() as int);
        if end > start {
            assert(!is_blank(s@[end - 1]));
        }
        assert(forall|i: int| (end - start) <= i < tail.len() ==> is_blank(tail[i]));
        lemma_drop_trailing_blanks(tail, end - start);
        assert(folded(s@) =~= tail.subrange(0, end - start));
        assert(folded(s@) =~= ls.subrange(start as int, end as int));
    }
    if end - start != m {
        proof {
            assert(folded(s@).len() == end - start);
        }
        return false;
    }
    let mut j: usize = 0;
    while j < m
        invariant
            0 <= j <= m,
            m == keyword@.len(),
            n == s@.len(),
            start <= end <= n,
            end - start == m,
            folded(s@) =~= lower(s@).subrange(start as int, end as int),
            forall|i: int| 0 <= i < j ==> folded(s@)[i] == keyword@[i],
        decreases m - j,
    {
        let c = lower_char_exec(s.get_char(start + j));
        proof {
            assert(lower(s@)[start + j] == lower_char(s@[start + j]));
            assert(folded(s@)[j as int] == lower(s@)[start + j]);
        }
        if c != keyword.get_char(j) {
            proof {
                assert(folded(s@)[j as int] != keyword@[j as int]);
            }
            return false;
        }
        j = j + 1;
    }
    proof {
        assert(folded(s@) =~= keyword@);
    }
    true
}

/// Whether `s` begins with `prefix`.
pub fn starts_with(s: &str, prefix: &str) -> (r: bool)
    ensures
        r == prefix@.is_prefix_of(s@),
{
    let n = s.unicode_len();
    let m = prefix.unicode_len();
    if m > n {
        assert(!prefix@.is_prefix_of(s@));
        return false;
    }
    let mut j: usize = 0;
    while j < m
        invariant
            0 <= j <= m,
            m == prefix@.len(),
            n == s@.len(),
            m <= n,
            forall|i: int| 0 <= i < j ==> s@[i] == prefix@[i],
        decreases m - j,
    {
        if s.get_char(j) != prefix.get_char(j) {
            assert(!prefix@.is_prefix_of(s@));
            return false;
        }
        j = j + 1;
    }
    assert(prefix@.is_prefix_of(s@)) by {
        assert(s@.subrange(0, m as int) =~= prefix@);
    }
    true
}

/// Whether `needle` occurs contiguously anywhere inside `s`.
pub open spec fn contains_seq(s: Seq<char>, needle: Seq<char>) -> bool {
    exists|k: int|
        0 <= k <= s.len() - needle.len() && #[trigger] s.subrange(k, k + needle.len() as int)
            =~= needle
}

/// Whether `needle` occurs contiguously anywhere inside `s`.
pub fn contains(s: &str, needle: &str) -> (r: bool)
    ensures
        r == contains_seq(s@, needle@),
{
    let n = s.unicode_len();
    let m = needle.unicode_len();
    if m > n {
        assert(!contains_seq(s@, needle@));
        return false;
    }
    let mut k: usize = 0;
    while k <= n - m
        invariant
            0 <= k <= n - m + 1,
            m <= n,
            n == s@.len(),
            m == needle@.len(),
            forall|p: int| 0 <= p < k ==> !(#[trigger] s@.subrange(p, p + needle@.len() as int)
                =~= needle@),
        decreases n + 1 - k,
    {
        let mut j: usize = 0;
        let mut matched = true;
        while j < m && matched
            invariant
                0 <= j <= m,
                k + m <= n,
                n == s@.len(),
                m == needle@.len(),
                matched ==> forall|i: int| 0 <= i < j ==> s@[k + i] == needle@[i],
                !matched ==> !(s@.subrange(k as int, k + m as int) =~= needle@),
            decreases (if matched { 1int } else { 0int }), m - j,
        {
            if s.get_char(k + j) != needle.get_char(j) {
                proof {
                    let sub = s@.subrange(k as int, k + m as int);
                    assert(sub[j as int] == s@[k + j]);
                    assert(sub[j as int] != needle@[j as int]);
                    assert(!(sub =~= needle@));
                }
                matched = false;
            } else {
                j = j + 1;
            }
        }
        if matched {
            proof {
                assert(s@.subrange(k as int, k + m as int) =~= needle@);
            }
            return true;
        }
        k = k + 1;
    }
    proof {
        assert forall|p: int| 0 <= p <= s@.len() - needle@.len() implies !(#[trigger] s@.subrange(
            p,
            p + needle@.len() as int,
        ) =~= needle@) by {}
        assert(!contains_seq(s@, needle@));
    }
    false
}

/// Whether `c` is a decimal digit.
pub open spec fn is_digit(c: char) -> bool {
    '0' <= c && c <= '9'
}

/// The numeric value of a decimal digit.
pub open spec fn digit_val(c: char) -> int {
    (c as u32) as int - 48
}

/// Whether every character of `s` is a decimal digit.
pub open spec fn all_digits(s: Seq<char>) -> bool {
    forall|i: int| 0 <= i < s.len() ==> is_digit(#[trigger] s[i])
}

/// The value of a sequence of decimal digits, most significant first.
pub open spec fn digits_val(s: Seq<char>) -> int
    decreases s.len(),
{
    if s.len() == 0 {
        0
    } else {
        digits_val(s.drop_last()) * 10 + digit_val(s.last())
    }
}

/// What parsing `s` as a signed 64-bit decimal integer yields: an optional
/// sign, then at least one digit, and a value within the type's range.
pub open spec fn parse_i64_spec(s: Seq<char>) -> Option<i64> {
    let signed = s.len() > 0 && (s[0] == '+' || s[0] == '-');
    let body = if signed { s.drop_first() } else { s };
    if body.len() == 0 || !all_digits(body) {
        None
    } else {
        let v: int = if signed && s[0] == '-' { -digits_val(body) } else { digits_val(body) };
        if i64::MIN <= v <= i64::MAX {
            Some(v as i64)
        } else {
            None
        }
    }
}

proof fn lemma_digits_val_nonneg(s: Seq<char>)
    requires
        all_digits(s),
    ensures
        digits_val(s) >= 0,
    decreases s.len(),
{
    if s.len() > 0 {
        assert(all_digits(s.drop_last()));
        lemma_digits_val_nonneg(s.drop_last());
    }
}

/// Parses `s` as a signed 64-bit decimal integer, as [`parse_i64_spec`]
/// describes.
pub fn parse_i64(s: &str) -> (r: Option<i64>)
    ensures
        r == parse_i64_spec(s@),
{
    let n = s.unicode_len();
    let mut start: usize = 0;
    let mut neg = false;
    if n > 0 {
        let c0 = s.get_char(0);
        if c0 == '+' {
            start = 1;
        } else if c0 == '-' {
            neg = true;
            start = 1;
        }
    }
    let ghost body = if start == 1 { s@.drop_first() } else { s@ };
    proof {
        if start == 1 {
            assert(body =~= s@.subrange(1, n as int));
        } else {
            assert(body =~= s@.subrange(0, n as int));
        }
    }
    if start >= n {
        return None;
    }
    let mut acc: u64 = 0;
    let mut overflow = false;
    let mut i: usize = start;
    while i < n
        invariant
            start <= i <= n,
            n == s@.len(),
            start == 1 ==> body =~= s@.subrange(1, n as int),
            start == 0 ==> body =~= s@.subrange(0, n as int),
            start <= 1,
            start < n,
            (start == 1) == (s@.len() > 0 && (s@[0] == '+' || s@[0] == '-')),
            neg == (start == 1 && s@[0] == '-'),
            all_digits(s@.subrange(start as int, i as int)),
            !overflow ==> acc == digits_val(s@.subrange(start as int, i as int)),
            !overflow ==> acc <= u64::MAX,
            overflow ==> digits_val(s@.subrange(start as int, i as int)) > 0x8000_0000_0000_0000,
        decreases n - i,
    {
        let c = s.get_char(i);
        let ghost pre = s@.subrange(start as int, i as int);
        let ghost post = s@.subrange(start as int, i as int + 1);
        proof {
            assert(post =~= pre.push(s@[i as int]));
            assert(post.drop_last() =~= pre);
            assert(digits_val(post) == digits_val(pre) * 10 + digit_val(c));
        }
        if !('0' <= c && c <= '9') {
            proof {
                if start == 1 {
                    assert(body[i - start] == s@[i as int]);
                } else {
                    assert(body[i - start] == s@[i as int]);
                }
                assert(!is_digit(body[i - start]));
                assert(!all_digits(body));
            }
            return None;
        }
        let d: u64 = ((c as u8) - 48) as u64;
        proof {
            assert(d == digit_val(c));
        }
        if overflow {
            proof {
                lemma_digits_val_nonneg(pre);
                assert(digits_val(post) > 0x8000_0000_0000_0000) by (nonlinear_arith)
                    requires
                        digits_val(post) == digits_val(pre) * 10 + digit_val(c),
                        digits_val(pre) > 0x8000_0000_0000_0000,
                        digit_val(c) >= 0,
                {}
            }
        } else if acc > (u64::MAX - 9) / 10 {
            proof {
                assert(digits_val(post) > 0x8000_0000_0000_0000) by (nonlinear_arith)
                    requires
                        digits_val(post) == digits_val(pre) * 10 + digit_val(c),
                        digits_val(pre) == acc,
                        acc > (u64::MAX - 9) / 10,
                        digit_val(c) >= 0,
                {}
            }
            overflow = true;
        } else {
            proof {
                assert(acc * 10 + d <= u64::MAX) by (nonlinear_arith)
                    requires
                        acc <= (u64::MAX - 9) / 10,
                        d <= 9,
                {}
            }
            acc = acc * 10 + d;
        }
        i = i + 1;
    }
    proof {
        assert(s@.subrange(start as int, n as int) =~= body);
        assert(all_digits(body));
        if !overflow {
            assert(acc == digits_val(body));
        } else {
            assert(digits_val(body) > 0x8000_0000_0000_0000);
        }
    }
    if overflow {
        return None;
    }
    if neg {
        if acc > 0x8000_0000_0000_0000 {
            None
        } else if acc == 0x8000_0000_0000_0000 {
            Some(i64::MIN)
        } else {
            Some(-(acc as i64))
        }
    } else {
        if acc > i64::MAX as u64 {
            None
        } else {
            Some(acc as i64)
        }
    }
}

/// Whether two pieces of text are equal, character for character.
pub fn str_eq(a: &str, b: &str) -> (r: bool)
    ensures
        r == (a@ == b@),
{
    let n = a.unicode_len();
    let m = b.unicode_len();
    if n != m {
        return false;
    }
    let mut j: usize = 0;
    while j < n
        invariant
            0 <= j <= n,
            n == a@.len(),
            n == b@.len(),
            forall|i: int| 0 <= i < j ==> a@[i] == b@[i],
        decreases n - j,
    {
        if a.get_char(j) != b.get_char(j) {
            return false;
        }
        j = j + 1;
    }
    proof {
        assert(a@ =~= b@);
    }
    true
}

} // verus!
