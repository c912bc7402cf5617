//! Character-level text handling shared by the label and hook modules.
//!
//! Everything here counts and cuts in characters, never bytes, so no label or
//! target can be split inside a multi-byte character.

use vstd::prelude::*;

verus! {

/// The `White_Space` property, which is what `char::is_whitespace` tests.
pub open spec fn is_white_space(c: char) -> bool {
    let u = c as u32;
    ||| u == 0x20
    ||| 0x09 <= u <= 0x0d
    ||| u == 0x85
    ||| u == 0xa0
    ||| u == 0x1680
    ||| 0x2000 <= u <= 0x200a
    ||| u == 0x2028
    ||| u == 0x2029
    ||| u == 0x202f
    ||| u == 0x205f
    ||| u == 0x3000
}

/// `s` without its leading white space.
pub open spec fn trim_start(s: Seq<char>) -> Seq<char>
    decreases s.len(),
{
    if s.len() > 0 && is_white_space(s[0]) {
        trim_start(s.drop_first())
    } else {
        s
    }
}

/// `s` without its trailing white space.
pub open spec fn trim_end(s: Seq<char>) -> Seq<char>
    decreases s.len(),
{
    if s.len() > 0 && is_white_space(s.last()) {
        trim_end(s.drop_last())
    } else {
        s
    }
}

/// `s` without white space at either end.
pub open spec fn trim(s: Seq<char>) -> Seq<char> {
    trim_end(trim_start(s))
}

pub open spec fn is_path_sep(c: char) -> bool {
    c == '/' || c == '\\'
}

/// What follows the last `/` or `\` in `s` (all of `s` when it has none).
pub open spec fn last_segment(s: Seq<char>) -> Seq<char>
    decreases s.len(),
{
    if s.len() == 0 {
        s
    } else if is_path_sep(s.last()) {
        Seq::empty()
    } else {
        last_segment(s.drop_last()).push(s.last())
    }
}

/// The last path segment, or the whole of `s` when that segment is empty.
pub open spec fn basename(s: Seq<char>) -> Seq<char> {
    if last_segment(s).len() > 0 {
        last_segment(s)
    } else {
        s
    }
}

/// At most the first `n` characters of `s`.
pub open spec fn first_chars(s: Seq<char>, n: nat) -> Seq<char> {
    if s.len() <= n {
        s
    } else {
        s.take(n as int)
    }
}

pub open spec fn digit_char(d: nat) -> char
    recommends
        d < 10,
{
    if d == 0 {
        '0'
    } else if d == 1 {
        '1'
    } else if d == 2 {
        '2'
    } else if d == 3 {
        '3'
    } else if d == 4 {
        '4'
    } else if d == 5 {
        '5'
    } else if d == 6 {
        '6'
    } else if d == 7 {
        '7'
    } else if d == 8 {
        '8'
    } else {
        '9'
    }
}

/// The decimal digits of `n`, with no leading zeros.
pub open spec fn decimal(n: nat) -> Seq<char>
    decreases n,
{
    if n < 10 {
        seq![digit_char(n)]
    } else {
        decimal(n / 10).push(digit_char(n % 10))
    }
}

/// A signed number in decimal: a minus sign when negative, then the digits.
pub open spec fn signed_decimal(n: int) -> Seq<char> {
    if n < 0 {
        seq!['-'] + decimal((-n) as nat)
    } else {
        decimal(n as nat)
    }
}

/// `s` begins with `p`.
pub open spec fn has_prefix(s: Seq<char>, p: Seq<char>) -> bool {
    p.len() <= s.len() && s.take(p.len() as int) == p
}

/// ASCII upper-case letters mapped to lower case, everything else kept.
pub open spec fn ascii_lower(c: char) -> char {
    if 'A' <= c && c <= 'Z' {
        ((c as u32) + 32) as char
    } else {
        c
    }
}

pub open spec fn ascii_lowercase(s: Seq<char>) -> Seq<char> {
    s.map_values(|c: char| ascii_lower(c))
}

proof fn lemma_trim_start_skip(s: Seq<char>, a: int)
    requires
        0 <= a <= s.len(),
        forall|j: int| 0 <= j < a ==> is_white_space(#[trigger] s[j]),
        a == s.len() || !is_white_space(s[a]),
    ensures
        trim_start(s) == s.skip(a),
    decreases a,
{
    if a == 0 {
        assert(s.skip(0) =~= s);
    } else {
        let t = s.drop_first();
        assert forall|j: int| 0 <= j < a - 1 implies is_white_space(#[trigger] t[j]) by {
            assert(t[j] == s[j + 1]);
        }
        if a - 1 < t.len() {
            assert(t[a - 1] == s[a]);
        }
        lemma_trim_start_skip(t, a - 1);
        assert(t.skip(a - 1) =~= s.skip(a));
    }
}

proof fn lemma_trim_end_take(s: Seq<char>, b: int)
    requires
        0 <= b <= s.len(),
        forall|j: int| b <= j < s.len() ==> is_white_space(#[trigger] s[j]),
        b == 0 || !is_white_space(s[b - 1]),
    ensures
        trim_end(s) == s.take(b),
    decreases s.len() - b,
{
    if b == s.len() {
        assert(s.take(b) =~= s);
    } else {
        let t = s.drop_last();
        assert forall|j: int| b <= j < t.len() implies is_white_space(#[trigger] t[j]) by {
            assert(t[j] == s[j]);
        }
        if b > 0 {
            assert(t[b - 1] == s[b - 1]);
        }
        lemma_trim_end_take(t, b);
        assert(t.take(b) =~= s.take(b));
    }
}

proof fn lemma_last_segment_from(s: Seq<char>, start: int)
    requires
        0 <= start <= s.len(),
        forall|j: int| start <= j < s.len() ==> !is_path_sep(#[trigger] s[j]),
        start == 0 || is_path_sep(s[start - 1]),
    ensures
        last_segment(s) == s.subrange(start, s.len() as int),
    decreases s.len(),
{
    if s.len() == 0 {
        assert(s.subrange(0, 0) =~= s);
    } else if start == s.len() {
        assert(s.subrange(start, s.len() as int) =~= Seq::<char>::empty());
    } else {
        let t = s.drop_last();
        assert forall|j: int| start <= j < t.len() implies !is_path_sep(#[trigger] t[j]) by {
            assert(t[j] == s[j]);
        }
        if start > 0 {
            assert(t[start - 1] == s[start - 1]);
        }
        lemma_last_segment_from(t, start);
        assert(t.subrange(start, t.len() as int).push(s.last()) =~= s.subrange(
            start,
            s.len() as int,
        ));
    }
}

/// Trimming never lengthens.
pub proof fn lemma_trim_end_len(s: Seq<char>)
    ensures
        trim_end(s).len() <= s.len(),
    decreases s.len(),
{
    if s.len() > 0 && is_white_space(s.last()) {
        lemma_trim_end_len(s.drop_last());
    }
}

pub proof fn lemma_trim_start_len(s: Seq<char>)
    ensures
        trim_start(s).len() <= s.len(),
    decreases s.len(),
{
    if s.len() > 0 && is_white_space(s[0]) {
        lemma_trim_start_len(s.drop_first());
    }
}

pub proof fn lemma_last_segment_len(s: Seq<char>)
    ensures
        last_segment(s).len() <= s.len(),
    decreases s.len(),
{
    if s.len() > 0 && !is_path_sep(s.last()) {
        lemma_last_segment_len(s.drop_last());
    }
}

/// A character absent from both halves is absent from the whole.
pub proof fn lemma_concat_lacks(a: Seq<char>, b: Seq<char>, c: char)
    requires
        !a.contains(c),
        !b.contains(c),
    ensures
        !(a + b).contains(c),
{
    if (a + b).contains(c) {
        let i = choose|i: int| 0 <= i < (a + b).len() && (a + b)[i] == c;
        if i < a.len() {
            assert(a[i] == c);
        } else {
            assert(b[i - a.len()] == c);
        }
    }
}

/// A prefix holds no character the whole does not.
pub proof fn lemma_take_lacks(s: Seq<char>, n: int, c: char)
    requires
        !s.contains(c),
        0 <= n <= s.len(),
    ensures
        !s.take(n).contains(c),
{
    if s.take(n).contains(c) {
        let i = choose|i: int| 0 <= i < s.take(n).len() && s.take(n)[i] == c;
        assert(s[i] == c);
    }
}

/// Trimming only removes characters.
pub proof fn lemma_trim_end_lacks(s: Seq<char>, c: char)
    requires
        !s.contains(c),
    ensures
        !trim_end(s).contains(c),
    decreases s.len(),
{
    if s.len() > 0 && is_white_space(s.last()) {
        lemma_take_lacks(s, s.len() - 1, c);
        assert(s.drop_last() =~= s.take(s.len() - 1));
        lemma_trim_end_lacks(s.drop_last(), c);
    }
}

/// A path's basename is made of the path's own characters.
pub proof fn lemma_basename_lacks(s: Seq<char>, c: char)
    requires
        !s.contains(c),
    ensures
        !basename(s).contains(c),
{
    lemma_last_segment_lacks(s, c);
}

proof fn lemma_last_segment_lacks(s: Seq<char>, c: char)
    requires
        !s.contains(c),
    ensures
        !last_segment(s).contains(c),
    decreases s.len(),
{
    if s.len() > 0 && !is_path_sep(s.last()) {
        lemma_take_lacks(s, s.len() - 1, c);
        assert(s.drop_last() =~= s.take(s.len() - 1));
        lemma_last_segment_lacks(s.drop_last(), c);
        let t = last_segment(s.drop_last());
        if t.push(s.last()).contains(c) {
            let i = choose|i: int| 0 <= i < t.push(s.last()).len() && t.push(s.last())[i] == c;
            if i < t.len() {
                assert(t[i] == c);
            } else {
                assert(s[s.len() - 1] == c);
            }
        }
    }
}

/// A decimal numeral is a non-empty run of digits.
pub proof fn lemma_decimal_digits(n: nat)
    ensures
        decimal(n).len() >= 1,
        n >= 10 ==> decimal(n).len() >= 2,
        forall|i: int| 0 <= i < decimal(n).len() ==> '0' <= #[trigger] decimal(n)[i] <= '9',
    decreases n,
{
    if n >= 10 {
        lemma_decimal_digits(n / 10);
    }
}

/// Different numbers have different numerals.
pub proof fn lemma_decimal_injective(a: nat, b: nat)
    requires
        decimal(a) == decimal(b),
    ensures
        a == b,
    decreases a,
{
    lemma_decimal_digits(a);
    lemma_decimal_digits(b);
    if a >= 10 && b >= 10 {
        let (da, db) = (decimal(a), decimal(b));
        assert(da.drop_last() =~= decimal(a / 10));
        assert(db.drop_last() =~= decimal(b / 10));
        lemma_decimal_injective(a / 10, b / 10);
        assert(da.last() == digit_char(a % 10));
        assert(db.last() == digit_char(b % 10));
    } else if a < 10 && b < 10 {
        assert(decimal(a)[0] == digit_char(a));
        assert(decimal(b)[0] == digit_char(b));
    }
}

/// A signed numeral is digits, with at most a leading minus sign.
pub proof fn lemma_signed_decimal_chars(n: int)
    ensures
        forall|i: int|
            0 <= i < signed_decimal(n).len() ==> ('0' <= #[trigger] signed_decimal(n)[i] <= '9'
                || signed_decimal(n)[i] == '-'),
{
    if n < 0 {
        lemma_decimal_digits((-n) as nat);
        assert forall|i: int| 0 <= i < signed_decimal(n).len() implies ('0'
            <= #[trigger] signed_decimal(n)[i] <= '9' || signed_decimal(n)[i] == '-') by {
            if i > 0 {
                assert(signed_decimal(n)[i] == decimal((-n) as nat)[i - 1]);
            }
        }
    } else {
        lemma_decimal_digits(n as nat);
    }
}

/// Different numbers have different signed numerals.
pub proof fn lemma_signed_decimal_injective(a: int, b: int)
    requires
        signed_decimal(a) == signed_decimal(b),
    ensures
        a == b,
{
    lemma_decimal_digits(if a < 0 { (-a) as nat } else { a as nat });
    lemma_decimal_digits(if b < 0 { (-b) as nat } else { b as nat });
    let (sa, sb) = (signed_decimal(a), signed_decimal(b));
    if a < 0 && b < 0 {
        assert(sa.drop_first() =~= decimal((-a) as nat));
        assert(sb.drop_first() =~= decimal((-b) as nat));
        lemma_decimal_injective((-a) as nat, (-b) as nat);
    } else if a >= 0 && b >= 0 {
        lemma_decimal_injective(a as nat, b as nat);
    } else {
        assert(sa[0] != sb[0]);
    }
}

/// Two texts that each read "a field, then the separator `c`, then the rest",
/// where neither field holds `c`, agree field for field.
pub proof fn lemma_split_at_separator(a1: Seq<char>, r1: Seq<char>, a2: Seq<char>, r2: Seq<char>, c: char)
    requires
        forall|i: int| 0 <= i < a1.len() ==> #[trigger] a1[i] != c,
        forall|i: int| 0 <= i < a2.len() ==> #[trigger] a2[i] != c,
        a1 + (seq![c] + r1) == a2 + (seq![c] + r2),
    ensures
        a1 == a2,
        r1 == r2,
{
    let s = a1 + (seq![c] + r1);
    let t = a2 + (seq![c] + r2);
    if a1.len() < a2.len() {
        assert(s[a1.len() as int] == c);
        assert(t[a1.len() as int] == a2[a1.len() as int]);
    } else if a2.len() < a1.len() {
        assert(t[a2.len() as int] == c);
        assert(s[a2.len() as int] == a1[a2.len() as int]);
    }
    assert(a1 =~= s.take(a1.len() as int));
    assert(a2 =~= t.take(a2.len() as int));
    assert(r1 =~= s.skip(a1.len() as int + 1));
    assert(r2 =~= t.skip(a2.len() as int + 1));
}

/// Whether `c` is white space, as `char::is_whitespace` decides it.
pub fn is_whitespace(c: char) -> (r: bool)
    ensures
        r == is_white_space(c),
{
    let u = c as u32;
    u == 0x20 || (0x09 <= u && u <= 0x0d) || u == 0x85 || u == 0xa0 || u == 0x1680 || (0x2000
        <= u && u <= 0x200a) || u == 0x2028 || u == 0x2029 || u == 0x202f || u == 0x205f || u
        == 0x3000
}

/// The number of characters in `s`.
pub fn char_len(s: &str) -> (r: usize)
    ensures
        r == s@.len(),
{
    s.unicode_len()
}

/// `s` with white space removed from both ends.
pub fn trimmed(s: &str) -> (r: &str)
    ensures
        r@ == trim(s@),
{
    let len = s.unicode_len();
    let mut i: usize = 0;
    let mut first: Option<usize> = None;
    let mut last: usize = 0;
    for c in it: s.chars()
        invariant
            i == it.index(),
            it.seq() == s@,
            len == s@.len(),
            first is None ==> forall|j: int| 0 <= j < i ==> is_white_space(#[trigger] s@[j]),
            first matches Some(a) ==> {
                &&& a <= last < i
                &&& forall|j: int| 0 <= j < a ==> is_white_space(#[trigger] s@[j])
                &&& !is_white_space(s@[a as int])
                &&& !is_white_space(s@[last as int])
                &&& forall|j: int| last < j < i ==> is_white_space(#[trigger] s@[j])
            },
    {
        assert(i < len);
        if !is_whitespace(c) {
            if first.is_none() {
                first = Some(i);
            }
            last = i;
        }
        i = i + 1;
    }
    match first {
        None => {
            proof {
                lemma_trim_start_skip(s@, s@.len() as int);
                assert(s@.skip(s@.len() as int) =~= Seq::<char>::empty());
            }
            s.substring_char(0, 0)
        },
        Some(a) => {
            proof {
                lemma_trim_start_skip(s@, a as int);
                let t = s@.skip(a as int);
                assert forall|j: int| (last - a + 1) <= j < t.len() implies is_white_space(
                    #[trigger] t[j],
                ) by {
                    assert(t[j] == s@[j + a]);
                }
                assert(t[last - a] == s@[last as int]);
                lemma_trim_end_take(t, last - a + 1);
                assert(t.take(last - a + 1) =~= s@.subrange(a as int, last + 1));
            }
            s.substring_char(a, last + 1)
        },
    }
}

/// `s` with trailing white space removed.
pub fn trimmed_end(s: &str) -> (r: &str)
    ensures
        r@ == trim_end(s@),
{
    let len = s.unicode_len();
    let mut i: usize = 0;
    let mut end: usize = 0;
    for c in it: s.chars()
        invariant
            i == it.index(),
            it.seq() == s@,
            len == s@.len(),
            end <= i,
            end == 0 || !is_white_space(s@[end - 1]),
            forall|j: int| end <= j < i ==> is_white_space(#[trigger] s@[j]),
    {
        assert(i < len);
        if !is_whitespace(c) {
            end = i + 1;
        }
        i = i + 1;
    }
    proof {
        lemma_trim_end_take(s@, end as int);
        assert(s@.take(end as int) =~= s@.subrange(0, end as int));
    }
    s.substring_char(0, end)
}

/// The last path segment of `s`, or `s` itself when that segment is empty.
pub fn basename_of(s: &str) -> (r: &str)
    ensures
        r@ == basename(s@),
{
    let len = s.unicode_len();
    let mut i: usize = 0;
    let mut start: usize = 0;
    for c in it: s.chars()
        invariant
            i == it.index(),
            it.seq() == s@,
            len == s@.len(),
            start <= i,
            start == 0 || is_path_sep(s@[start - 1]),
            forall|j: int| start <= j < i ==> !is_path_sep(#[trigger] s@[j]),
    {
        assert(i < len);
        if c == '/' || c == '\\' {
            start = i + 1;
        }
        i = i + 1;
    }
    proof {
        lemma_last_segment_from(s@, start as int);
    }
    if start < len {
        s.substring_char(start, len)
    } else {
        s
    }
}

/// At most the first `n` characters of `s`, cut on a character boundary.
pub fn first_n_chars(s: &str, n: usize) -> (r: &str)
    ensures
        r@ == first_chars(s@, n as nat),
{
    let len = s.unicode_len();
    if len <= n {
        s
    } else {
        let r = s.substring_char(0, n);
        assert(r@ =~= s@.take(n as int));
        r
    }
}

/// Whether two texts are the same characters.
pub fn same_text(a: &str, b: &str) -> (r: bool)
    ensures
        r == (a@ == b@),
{
    let x = a.to_owned();
    let y = b.to_owned();
    x == y
}

/// Whether `s` begins with `p`.
pub fn starts_with(s: &str, p: &str) -> (r: bool)
    ensures
        r == has_prefix(s@, p@),
{
    let n = p.unicode_len();
    if s.unicode_len() < n {
        false
    } else {
        let head = s.substring_char(0, n);
        assert(head@ =~= s@.take(n as int));
        same_text(head, p)
    }
}

fn digit_text(d: u64) -> (r: &'static str)
    requires
        d < 10,
    ensures
        r@ == seq![digit_char(d as nat)],
{
    proof {
        reveal_strlit("0");
        reveal_strlit("1");
        reveal_strlit("2");
        reveal_strlit("3");
        reveal_strlit("4");
        reveal_strlit("5");
        reveal_strlit("6");
        reveal_strlit("7");
        reveal_strlit("8");
        reveal_strlit("9");
    }
    if d == 0 {
        "0"
    } else if d == 1 {
        "1"
    } else if d == 2 {
        "2"
    } else if d == 3 {
        "3"
    } else if d == 4 {
        "4"
    } else if d == 5 {
        "5"
    } else if d == 6 {
        "6"
    } else if d == 7 {
        "7"
    } else if d == 8 {
        "8"
    } else {
        "9"
    }
}

/// `n` in decimal.
pub fn decimal_text(n: u64) -> (r: String)
    ensures
        r@ == decimal(n as nat),
    decreases n,
{
    if n < 10 {
        digit_text(n).to_owned()
    } else {
        let mut r = decimal_text(n / 10);
        r.append(digit_text(n % 10));
        r
    }
}

/// `n` in decimal, with a leading minus sign when negative.
pub fn signed_decimal_text(n: i64) -> (r: String)
    ensures
        r@ == signed_decimal(n as int),
{
    if n < 0 {
        let magnitude: u64 = if n == i64::MIN {
            9_223_372_036_854_775_808u64
        } else {
            (-n) as u64
        };
        let mut r = "-".to_owned();
        proof {
            reveal_strlit("-");
        }
        let digits = decimal_text(magnitude);
        r.append(digits.as_str());
        r
    } else {
        decimal_text(n as u64)
    }
}

/// What precedes the first `c` in `s` (all of `s` when there is none).
pub open spec fn before_first(s: Seq<char>, c: char) -> Seq<char>
    decreases s.len(),
{
    if s.len() == 0 {
        s
    } else if s[0] == c {
        Seq::empty()
    } else {
        seq![s[0]] + before_first(s.drop_first(), c)
    }
}

proof fn lemma_before_first(s: Seq<char>, c: char, i: int)
    requires
        0 <= i <= s.len(),
        forall|j: int| 0 <= j < i ==> #[trigger] s[j] != c,
        i == s.len() || s[i] == c,
    ensures
        before_first(s, c) == s.take(i),
    decreases i,
{
    if i == 0 {
        if s.len() == 0 {
            assert(s.take(0) =~= s);
        } else {
            assert(s.take(0) =~= Seq::<char>::empty());
        }
    } else {
        let t = s.drop_first();
        assert forall|j: int| 0 <= j < i - 1 implies #[trigger] t[j] != c by {
            assert(t[j] == s[j + 1]);
        }
        if i < s.len() {
            assert(t[i - 1] == s[i]);
        }
        lemma_before_first(t, c, i - 1);
        assert(seq![s[0]] + t.take(i - 1) =~= s.take(i));
    }
}

/// What precedes the first `c` in `s`, as `s.split(c).next()` gives it.
pub fn text_before(s: &str, c: char) -> (r: &str)
    ensures
        r@ == before_first(s@, c),
{
    let len = s.unicode_len();
    let mut i: usize = 0;
    let mut cut: Option<usize> = None;
    for ch in it: s.chars()
        invariant
            i == it.index(),
            it.seq() == s@,
            len == s@.len(),
            cut is None ==> forall|j: int| 0 <= j < i ==> #[trigger] s@[j] != c,
            cut matches Some(k) ==> k < i && s@[k as int] == c && forall|j: int|
                0 <= j < k ==> #[trigger] s@[j] != c,
    {
        assert(i < len);
        if cut.is_none() && ch == c {
            cut = Some(i);
        }
        i = i + 1;
    }
    let end = match cut {
        Some(k) => k,
        None => len,
    };
    proof {
        lemma_before_first(s@, c, end as int);
    }
    let r = s.substring_char(0, end);
    assert(r@ =~= s@.take(end as int));
    r
}

/// `s` with leading white space removed.
pub fn trimmed_start(s: &str) -> (r: &str)
    ensures
        r@ == trim_start(s@),
{
    let len = s.unicode_len();
    let mut i: usize = 0;
    let mut first: Option<usize> = None;
    for c in it: s.chars()
        invariant
            i == it.index(),
            it.seq() == s@,
            len == s@.len(),
            first is None ==> forall|j: int| 0 <= j < i ==> is_white_space(#[trigger] s@[j]),
            first matches Some(a) ==> a < i && !is_white_space(s@[a as int]) && forall|j: int|
                0 <= j < a ==> is_white_space(#[trigger] s@[j]),
    {
        assert(i < len);
        if first.is_none() && !is_whitespace(c) {
            first = Some(i);
        }
        i = i + 1;
    }
    let a = match first {
        Some(a) => a,
        None => len,
    };
    proof {
        lemma_trim_start_skip(s@, a as int);
    }
    let r = s.substring_char(a, len);
    assert(r@ =~= s@.skip(a as int));
    r
}

/// Whether `s`, with ASCII letters lowered, begins with `p`.
pub fn starts_with_lowered(s: &str, p: &str) -> (r: bool)
    ensures
        r == has_prefix(ascii_lowercase(s@), p@),
{
    let n = p.unicode_len();
    if s.unicode_len() < n {
        return false;
    }
    let head = s.substring_char(0, n);
    let mut i: usize = 0;
    for c in it: head.chars()
        invariant
            i == it.index(),
            it.seq() == head@,
            head@ == s@.take(n as int),
            n == p@.len(),
            n <= s@.len(),
            forall|j: int| 0 <= j < i ==> ascii_lower(#[trigger] head@[j]) == p@[j],
    {
        assert(i < n);
        let lowered = lower_char(c);
        if lowered != p.get_char(i) {
            assert(ascii_lowercase(s@)[i as int] == ascii_lower(s@[i as int]));
            assert(ascii_lowercase(s@).take(n as int)[i as int] != p@[i as int]);
            return false;
        }
        i = i + 1;
    }
    assert(ascii_lowercase(s@).take(n as int) =~= p@) by {
        assert forall|j: int| 0 <= j < n implies #[trigger] ascii_lowercase(s@).take(n as int)[j]
            == p@[j] by {
            assert(head@[j] == s@[j]);
        }
    }
    true
}

/// Whether `a` and `b` are the same once ASCII letters are lowered, which is
/// `eq_ignore_ascii_case`.
pub fn same_ignoring_ascii_case(a: &str, b: &str) -> (r: bool)
    ensures
        r == (ascii_lowercase(a@) == ascii_lowercase(b@)),
{
    if a.unicode_len() != b.unicode_len() {
        assert(ascii_lowercase(a@).len() != ascii_lowercase(b@).len());
        return false;
    }
    let n = a.unicode_len();
    let mut i: usize = 0;
    for c in it: a.chars()
        invariant
            i == it.index(),
            it.seq() == a@,
            n == a@.len(),
            n == b@.len(),
            forall|j: int| 0 <= j < i ==> ascii_lower(#[trigger] a@[j]) == ascii_lower(b@[j]),
    {
        assert(i < n);
        let d = b.get_char(i);
        if !(lower_char(c) == lower_char(d)) {
            assert(ascii_lowercase(a@)[i as int] != ascii_lowercase(b@)[i as int]);
            return false;
        }
        i = i + 1;
    }
    assert(ascii_lowercase(a@) =~= ascii_lowercase(b@));
    true
}

fn lower_char(c: char) -> (r: char)
    ensures
        r == ascii_lower(c),
{
    if 'A' <= c && c <= 'Z' {
        let b: u8 = c as u8;
        assert(b == c as u32);
        (b + 32) as char
    } else {
        c
    }
}

} // verus!
