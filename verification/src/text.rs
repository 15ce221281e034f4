use vstd::prelude::*;

verus! {

/// Index of the last occurrence of `c` among the first `end` characters of
/// `s`, or -1 when there is none.
pub open spec fn last_index_before(s: Seq<char>, c: char, end: int) -> int
    decreases end,
{
    if end <= 0 {
        -1
    } else if s[end - 1] == c {
        end - 1
    } else {
        last_index_before(s, c, end - 1)
    }
}

/// Index of the last occurrence of `c` in `s`, or -1.
pub open spec fn last_index_of(s: Seq<char>, c: char) -> int {
    last_index_before(s, c, s.len() as int)
}

/// First index at or after `start` whose character is not `c` (or `s.len()`).
pub open spec fn skip_run(s: Seq<char>, c: char, start: int) -> int
    decreases s.len() - start,
{
    if 0 <= start < s.len() && s[start] == c {
        skip_run(s, c, start + 1)
    } else {
        start
    }
}

/// `s` with every leading `c` removed.
pub open spec fn strip_leading(s: Seq<char>, c: char) -> Seq<char> {
    s.subrange(skip_run(s, c, 0), s.len() as int)
}

/// `needle` occurs in `hay` at position `i`.
pub open spec fn occurs_at(hay: Seq<char>, needle: Seq<char>, i: int) -> bool {
    0 <= i && i + needle.len() <= hay.len() && hay.subrange(i, i + needle.len()) == needle
}

/// `needle` occurs somewhere in `hay`.
pub open spec fn has_substring(hay: Seq<char>, needle: Seq<char>) -> bool {
    exists|i: int| occurs_at(hay, needle, i)
}

/// Skipping a run stays inside the string and stops at a character other
/// than `c` (or at the end).
pub proof fn lemma_skip_run_stops(s: Seq<char>, c: char, start: int)
    requires
        0 <= start <= s.len(),
    ensures
        start <= skip_run(s, c, start) <= s.len(),
        skip_run(s, c, start) < s.len() ==> s[skip_run(s, c, start)] != c,
    decreases s.len() - start,
{
    if start < s.len() && s[start] == c {
        lemma_skip_run_stops(s, c, start + 1);
    }
}

/// Character-wise equality of two strings.
pub fn text_eq(a: &str, b: &str) -> (eq: bool)
    ensures
        eq == (a@ == b@),
{
    let n = a.unicode_len();
    if n != b.unicode_len() {
        return false;
    }
    let mut i: usize = 0;
    while i < n
        invariant
            n == a@.len(),
            n == b@.len(),
            i <= n,
            forall|j: int| 0 <= j < i ==> a@[j] == b@[j],
        decreases n - i,
    {
        if a.get_char(i) != b.get_char(i) {
            return false;
        }
        i = i + 1;
    }
    assert(a@ =~= b@);
    true
}

/// Whether `needle` occurs in `hay`.
pub fn contains_text(hay: &str, needle: &str) -> (found: bool)
    ensures
        found == has_substring(hay@, needle@),
{
    let n = hay.unicode_len();
    let m = needle.unicode_len();
    if m > n {
        assert forall|i: int| !occurs_at(hay@, needle@, i) by {}
        return false;
    }
    let mut i: usize = 0;
    while i <= n - m
        invariant
            n == hay@.len(),
            m == needle@.len(),
            m <= n,
            i <= n - m + 1,
            forall|k: int| 0 <= k < i ==> !occurs_at(hay@, needle@, k),
        decreases n - m + 1 - i,
    {
        let mut j: usize = 0;
        let mut matched = true;
        while j < m
            invariant
                n == hay@.len(),
                m == needle@.len(),
                i + m <= n,
                j <= m,
                matched ==> forall|t: int| 0 <= t < j ==> hay@[i + t] == needle@[t],
                !matched ==> exists|t: int| 0 <= t < m && hay@[i + t] != needle@[t],
            decreases m - j,
        {
            if hay.get_char(i + j) != needle.get_char(j) {
                matched = false;
            }
            j = j + 1;
        }
        if matched {
            assert(hay@.subrange(i as int, i + m) =~= needle@);
            assert(occurs_at(hay@, needle@, i as int));
            return true;
        }
        proof {
            let t = choose|t: int| 0 <= t < m && hay@[i + t] != needle@[t];
            assert(hay@.subrange(i as int, i + m)[t] != needle@[t]);
        }
        i = i + 1;
    }
    assert forall|k: int| !occurs_at(hay@, needle@, k) by {
        if 0 <= k && k + m <= n {
            assert(k < i);
        }
    }
    false
}

/// The part of `s` after the last `c`, or all of `s` when it holds no `c`.
pub fn after_last<'a>(s: &'a str, c: char) -> (tail: &'a str)
    ensures
        tail@ == s@.subrange(last_index_of(s@, c) + 1, s@.len() as int),
{
    let n = s.unicode_len();
    let mut i: usize = n;
    while i > 0
        invariant
            n == s@.len(),
            i <= n,
            last_index_of(s@, c) == last_index_before(s@, c, i as int),
        decreases i,
    {
        if s.get_char(i - 1) == c {
            return s.substring_char(i, n);
        }
        i = i - 1;
    }
    s.substring_char(0, n)
}

/// `s` with every leading `c` removed.
pub fn trim_leading<'a>(s: &'a str, c: char) -> (rest: &'a str)
    ensures
        rest@ == strip_leading(s@, c),
{
    let n = s.unicode_len();
    let mut i: usize = 0;
    while i < n && s.get_char(i) == c
        invariant
            n == s@.len(),
            i <= n,
            skip_run(s@, c, 0) == skip_run(s@, c, i as int),
        decreases n - i,
    {
        i = i + 1;
    }
    s.substring_char(i, n)
}

/// Unicode `White_Space` characters, the white space that `str::trim`
/// removes.
pub open spec fn is_white_space(c: char) -> bool {
    let u = c as u32;
    ||| 0x09 <= u <= 0x0D
    ||| u == 0x20
    ||| u == 0x85
    ||| u == 0xA0
    ||| u == 0x1680
    ||| 0x2000 <= u <= 0x200A
    ||| u == 0x2028
    ||| u == 0x2029
    ||| u == 0x202F
    ||| u == 0x205F
    ||| u == 0x3000
}

/// First index at or after `start` that is not white space (or `s.len()`).
pub open spec fn skip_white(s: Seq<char>, start: int) -> int
    decreases s.len() - start,
{
    if 0 <= start < s.len() && is_white_space(s[start]) {
        skip_white(s, start + 1)
    } else {
        start
    }
}

/// `end` moved back over trailing white space, but not below `lo`.
pub open spec fn back_white(s: Seq<char>, lo: int, end: int) -> int
    decreases end - lo,
{
    if lo < end && is_white_space(s[end - 1]) {
        back_white(s, lo, end - 1)
    } else {
        end
    }
}

/// `s` without leading and trailing white space.
pub open spec fn trimmed(s: Seq<char>) -> Seq<char> {
    let a = skip_white(s, 0);
    s.subrange(a, back_white(s, a, s.len() as int))
}

proof fn lemma_skip_white_stops(s: Seq<char>, start: int)
    requires
        0 <= start <= s.len(),
    ensures
        start <= skip_white(s, start) <= s.len(),
        skip_white(s, start) < s.len() ==> !is_white_space(s[skip_white(s, start)]),
        forall|k: int| start <= k < skip_white(s, start) ==> is_white_space(#[trigger] s[k]),
    decreases s.len() - start,
{
    if start < s.len() && is_white_space(s[start]) {
        lemma_skip_white_stops(s, start + 1);
    }
}

proof fn lemma_back_white_stops(s: Seq<char>, lo: int, end: int)
    requires
        0 <= lo <= end <= s.len(),
    ensures
        lo <= back_white(s, lo, end) <= end,
        back_white(s, lo, end) > lo ==> !is_white_space(s[back_white(s, lo, end) - 1]),
        forall|k: int| back_white(s, lo, end) <= k < end ==> is_white_space(#[trigger] s[k]),
    decreases end - lo,
{
    if lo < end && is_white_space(s[end - 1]) {
        lemma_back_white_stops(s, lo, end - 1);
    }
}

/// Trimming removes exactly the white space at both ends: what is left is a
/// piece of `s` that neither starts nor ends with white space, and everything
/// cut off is white space; a text with no white space at its ends is kept
/// whole.
pub proof fn lemma_trimmed_shape(s: Seq<char>)
    ensures
        exists|a: int, b: int|
            0 <= a <= b <= s.len() && trimmed(s) == s.subrange(a, b) && (forall|k: int|
                0 <= k < a ==> is_white_space(#[trigger] s[k])) && (forall|k: int|
                b <= k < s.len() ==> is_white_space(#[trigger] s[k])),
        trimmed(s).len() > 0 ==> !is_white_space(trimmed(s)[0]) && !is_white_space(
            trimmed(s)[trimmed(s).len() - 1],
        ),
        s.len() > 0 && !is_white_space(s[0]) && !is_white_space(s[s.len() - 1]) ==> trimmed(s) == s,
{
    lemma_skip_white_stops(s, 0);
    let a = skip_white(s, 0);
    lemma_back_white_stops(s, a, s.len() as int);
    let b = back_white(s, a, s.len() as int);
    assert(trimmed(s) == s.subrange(a, b));
    if s.len() > 0 && !is_white_space(s[0]) && !is_white_space(s[s.len() - 1]) {
        assert(a == 0);
        assert(b == s.len());
        assert(s.subrange(0, s.len() as int) =~= s);
    }
}

/// Whether `c` is white space.
pub fn white_space(c: char) -> (b: bool)
    ensures
        b == is_white_space(c),
{
    let u = c as u32;
    (0x09 <= u && u <= 0x0D) || u == 0x20 || u == 0x85 || u == 0xA0 || u == 0x1680 || (0x2000 <= u
        && u <= 0x200A) || u == 0x2028 || u == 0x2029 || u == 0x202F || u == 0x205F || u == 0x3000
}

/// `s` without leading and trailing white space.
pub fn trim_text<'a>(s: &'a str) -> (t: &'a str)
    ensures
        t@ == trimmed(s@),
{
    let n = s.unicode_len();
    let mut a: usize = 0;
    while a < n && white_space(s.get_char(a))
        invariant
            n == s@.len(),
            a <= n,
            skip_white(s@, 0) == skip_white(s@, a as int),
        decreases n - a,
    {
        a = a + 1;
    }
    let mut e: usize = n;
    while a < e && white_space(s.get_char(e - 1))
        invariant
            n == s@.len(),
            a <= e <= n,
            skip_white(s@, 0) == a,
            back_white(s@, a as int, n as int) == back_white(s@, a as int, e as int),
        decreases e - a,
    {
        e = e - 1;
    }
    s.substring_char(a, e)
}

/// Value of a run of decimal digits.
pub open spec fn digits_value(d: Seq<char>) -> nat
    decreases d.len(),
{
    if d.len() == 0 {
        0
    } else {
        digits_value(d.drop_last()) * 10 + ((d.last() as u32) - ('0' as u32)) as nat
    }
}

pub open spec fn is_digit(c: char) -> bool {
    '0' <= c <= '9'
}

/// The digits of a number's text, without its optional leading `+`.
pub open spec fn unsigned_digits(s: Seq<char>) -> Seq<char> {
    if s.len() > 0 && s[0] == '+' {
        s.drop_first()
    } else {
        s
    }
}

/// Text of an unsigned decimal number as `u64::from_str` reads it: an
/// optional `+`, then one or more ASCII digits; `None` when that is not the
/// shape of the text or the value exceeds `u64::MAX`.
pub open spec fn u64_of_text(s: Seq<char>) -> Option<u64> {
    let d = unsigned_digits(s);
    if d.len() > 0 && (forall|i: int| 0 <= i < d.len() ==> is_digit(#[trigger] d[i]))
        && digits_value(d) <= u64::MAX {
        Some(digits_value(d) as u64)
    } else {
        None
    }
}

proof fn lemma_digits_value_grows(d: Seq<char>, i: int, j: int)
    requires
        0 <= i <= j <= d.len(),
        forall|k: int| 0 <= k < d.len() ==> is_digit(#[trigger] d[k]),
    ensures
        digits_value(d.subrange(0, i)) <= digits_value(d.subrange(0, j)),
    decreases j - i,
{
    if i < j {
        lemma_digits_value_grows(d, i, j - 1);
        assert(d.subrange(0, j).drop_last() =~= d.subrange(0, j - 1));
    }
}

proof fn lemma_overflow_text(s: Seq<char>, p: int)
    requires
        0 <= p <= unsigned_digits(s).len(),
        forall|k: int| 0 <= k < p ==> is_digit(#[trigger] unsigned_digits(s)[k]),
        digits_value(unsigned_digits(s).subrange(0, p)) > u64::MAX,
    ensures
        u64_of_text(s) is None,
{
    let d = unsigned_digits(s);
    if forall|i: int| 0 <= i < d.len() ==> is_digit(#[trigger] d[i]) {
        lemma_digits_value_grows(d, p, d.len() as int);
        assert(d.subrange(0, d.len() as int) =~= d);
    }
}

/// Read an unsigned decimal number, as `u64::from_str` does.
pub fn parse_u64(s: &str) -> (v: Option<u64>)
    ensures
        v == u64_of_text(s@),
{
    let n = s.unicode_len();
    let start: usize = if n > 0 && s.get_char(0) == '+' {
        1
    } else {
        0
    };
    let ghost d = unsigned_digits(s@);
    assert(d =~= s@.subrange(start as int, n as int));
    if start == n {
        return None;
    }
    let mut i: usize = start;
    let mut acc: u64 = 0;
    while i < n
        invariant
            n == s@.len(),
            start <= i <= n,
            start < n,
            d == unsigned_digits(s@),
            d =~= s@.subrange(start as int, n as int),
            forall|k: int| 0 <= k < i - start ==> is_digit(#[trigger] d[k]),
            acc == digits_value(d.subrange(0, i - start)),
        decreases n - i,
    {
        let c = s.get_char(i);
        assert(d[i - start] == c);
        if !('0' <= c && c <= '9') {
            return None;
        }
        let digit = (c as u32 - '0' as u32) as u64;
        assert(d.subrange(0, i + 1 - start).drop_last() =~= d.subrange(0, i - start));
        assert(d.subrange(0, i + 1 - start).last() == c);
        let next = match acc.checked_mul(10) {
            Some(m) => m.checked_add(digit),
            None => None,
        };
        match next {
            Some(v) => {
                acc = v;
            },
            None => {
                proof {
                    lemma_overflow_text(s@, i + 1 - start);
                }
                return None;
            },
        }
        i = i + 1;
    }
    assert(d.subrange(0, n - start) =~= d);
    Some(acc)
}

/// The character of a decimal digit.
pub open spec fn digit_char(d: nat) -> char {
    if d == 0 {
        '0'
    } else if d == 1 {
        '1'
    } else if d == 2 {
        '2'
    } else if d == 3 {
        '3'
    } else if d == 4 {
        '4'
    } else if d == 5 {
        '5'
    } else if d == 6 {
        '6'
    } else if d == 7 {
        '7'
    } else if d == 8 {
        '8'
    } else {
        '9'
    }
}

/// Decimal digits of `n`, most significant first, without leading zeros.
pub open spec fn decimal_digits(n: nat) -> Seq<char>
    decreases n,
{
    if n < 10 {
        seq![digit_char(n)]
    } else {
        decimal_digits(n / 10).push(digit_char(n % 10))
    }
}

/// Decimal text of an integer, with a leading `-` when negative.
pub open spec fn decimal_text(n: int) -> Seq<char> {
    if n < 0 {
        seq!['-'] + decimal_digits((-n) as nat)
    } else {
        decimal_digits(n as nat)
    }
}

fn digit_str(d: u64) -> (s: &'static str)
    requires
        d < 10,
    ensures
        s@ == seq![digit_char(d as nat)],
{
    proof {
        reveal_strlit("0");
        reveal_strlit("1");
        reveal_strlit("2");
        reveal_strlit("3");
        reveal_strlit("4");
        reveal_strlit("5");
        reveal_strlit("6");
        reveal_strlit("7");
        reveal_strlit("8");
        reveal_strlit("9");
    }
    let s = if d == 0 {
        "0"
    } else if d == 1 {
        "1"
    } else if d == 2 {
        "2"
    } else if d == 3 {
        "3"
    } else if d == 4 {
        "4"
    } else if d == 5 {
        "5"
    } else if d == 6 {
        "6"
    } else if d == 7 {
        "7"
    } else if d == 8 {
        "8"
    } else {
        "9"
    };
    assert(s@ =~= seq![digit_char(d as nat)]);
    s
}

fn push_decimal(out: &mut String, n: u64)
    ensures
        final(out)@ == old(out)@ + decimal_digits(n as nat),
    decreases n,
{
    if n >= 10 {
        push_decimal(out, n / 10);
    }
    out.append(digit_str(n % 10));
    assert(final(out)@ =~= old(out)@ + decimal_digits(n as nat));
}

/// Decimal text of `n`, as `{}` formatting writes it.
pub fn int_text(n: i64) -> (s: String)
    ensures
        s@ == decimal_text(n as int),
{
    let mut s = String::new();
    if n < 0 {
        s.append("-");
        proof {
            reveal_strlit("-");
        }
        let magnitude: u64 = if n == i64::MIN {
            9223372036854775808
        } else {
            (-n) as u64
        };
        push_decimal(&mut s, magnitude);
        assert(s@ =~= decimal_text(n as int));
    } else {
        push_decimal(&mut s, n as u64);
    }
    s
}

} // verus!
