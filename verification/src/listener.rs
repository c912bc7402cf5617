//! The rules of the hook listener: which requests are hook posts, which
//! bodies are read, and which port to ask for.
//!
//! The shell owns the socket and the threads; it asks these functions what
//! to do with what it received.

use vstd::prelude::*;

use crate::text::{
    ascii_lowercase, before_first, has_prefix, same_ignoring_ascii_case, same_text,
    starts_with, starts_with_lowered, text_before, trim, trim_start, trimmed, trimmed_start,
};

verus! {

/// The port the installed hook config points at.
pub const DEFAULT_PORT: u16 = 8787;

/// How many neighbouring ports to try when the default is taken.
pub const PORT_SCAN: u16 = 4;

/// Largest body accepted.
///
/// A `Write` tool call carries the whole file it is writing, so large bodies
/// are ordinary traffic. The cap keeps a runaway body from being read into
/// memory without bound; a body that reaches it is dropped as oversized,
/// never counted as malformed.
pub const MAX_BODY: u64 = 16_777_216;

/// The header that names a JSON body, whatever the case of its name.
pub open spec fn is_content_type(field: Seq<char>) -> bool {
    ascii_lowercase(field) == ascii_lowercase("Content-Type"@)
}

/// A content type that says JSON, allowing a `; charset=...` suffix.
pub open spec fn says_json(value: Seq<char>) -> bool {
    has_prefix(ascii_lowercase(trim_start(value)), "application/json"@)
}

/// A POST to `/hook` (query string aside) with a JSON content type.
///
/// Requiring JSON is what closes the browser vector: a page can POST
/// text/plain or a form body cross-origin without a preflight, but not
/// application/json.
pub open spec fn hook_post(method: Seq<char>, url: Seq<char>, headers: Seq<(String, String)>) -> bool {
    &&& method == "POST"@
    &&& before_first(url, '?') == "/hook"@
    &&& exists|i: int|
        0 <= i < headers.len() && is_content_type(#[trigger] headers[i].0@) && says_json(
            headers[i].1@,
        )
}

/// A JSON content type anywhere among the headers makes a POST to `/hook` a
/// hook post: its position in the list does not matter.
pub proof fn law_a_json_header_anywhere_marks_a_hook(
    method: Seq<char>,
    url: Seq<char>,
    headers: Seq<(String, String)>,
    i: int,
)
    requires
        method == "POST"@,
        before_first(url, '?') == "/hook"@,
        0 <= i < headers.len(),
        is_content_type(headers[i].0@),
        says_json(headers[i].1@),
    ensures
        hook_post(method, url, headers),
{
}

/// The plain case, spelled out: `POST /hook` (any query string aside) with a
/// `Content-Type` header whose value begins `application/json`, wherever that
/// header stands, is a hook post.
pub proof fn law_a_json_post_to_the_hook_path_is_a_hook(
    url: Seq<char>,
    headers: Seq<(String, String)>,
    i: int,
)
    requires
        url == "/hook"@ || has_prefix(url, "/hook?"@),
        0 <= i < headers.len(),
        headers[i].0@ == "Content-Type"@,
        has_prefix(headers[i].1@, "application/json"@),
    ensures
        hook_post("POST"@, url, headers),
{
    reveal_strlit("/hook");
    reveal_strlit("/hook?");
    reveal_strlit("application/json");
    let v = headers[i].1@;
    assert(v[0] == v.take(16)[0]);
    assert(trim_start(v) == v);
    let lowered = ascii_lowercase(v);
    assert(lowered.take(16) =~= "application/json"@) by {
        assert forall|k: int| 0 <= k < 16 implies #[trigger] lowered.take(16)[k]
            == "application/json"@[k] by {
            assert(v[k] == v.take(16)[k]);
        }
    }
    assert(says_json(v));
    assert(is_content_type(headers[i].0@));
    let u = url;
    assert(u[0] == '/' && u[1] == 'h' && u[2] == 'o' && u[3] == 'o' && u[4] == 'k') by {
        if u != "/hook"@ {
            assert(u[0] == u.take(6)[0] && u[1] == u.take(6)[1] && u[2] == u.take(6)[2]);
            assert(u[3] == u.take(6)[3] && u[4] == u.take(6)[4]);
        }
    }
    assert(u.len() == 5 || u[5] == '?') by {
        if u != "/hook"@ {
            assert(u[5] == u.take(6)[5]);
        }
    }
    let d1 = u.drop_first();
    let d2 = d1.drop_first();
    let d3 = d2.drop_first();
    let d4 = d3.drop_first();
    let d5 = d4.drop_first();
    assert(before_first(d5, '?') =~= Seq::<char>::empty());
    assert(before_first(d4, '?') =~= seq!['k']);
    assert(before_first(d3, '?') =~= seq!['o', 'k']);
    assert(before_first(d2, '?') =~= seq!['o', 'o', 'k']);
    assert(before_first(d1, '?') =~= seq!['h', 'o', 'o', 'k']);
    assert(before_first(u, '?') =~= "/hook"@);
}

/// Header order never decides: two header lists holding the same headers,
/// in any order, give the same verdict.
pub proof fn law_header_order_does_not_matter(
    method: Seq<char>,
    url: Seq<char>,
    a: Seq<(String, String)>,
    b: Seq<(String, String)>,
)
    requires
        a.to_multiset() == b.to_multiset(),
    ensures
        hook_post(method, url, a) == hook_post(method, url, b),
{
    a.to_multiset_ensures();
    b.to_multiset_ensures();
    if hook_post(method, url, a) {
        let i = choose|i: int|
            0 <= i < a.len() && is_content_type(#[trigger] a[i].0@) && says_json(a[i].1@);
        assert(a.contains(a[i]));
        assert(a.to_multiset().count(a[i]) > 0);
        assert(b.to_multiset().count(a[i]) > 0);
        assert(b.contains(a[i]));
        let j = choose|j: int| 0 <= j < b.len() && b[j] == a[i];
        assert(is_content_type(b[j].0@));
    }
    if hook_post(method, url, b) {
        let i = choose|i: int|
            0 <= i < b.len() && is_content_type(#[trigger] b[i].0@) && says_json(b[i].1@);
        assert(b.contains(b[i]));
        assert(b.to_multiset().count(b[i]) > 0);
        assert(a.to_multiset().count(b[i]) > 0);
        assert(a.contains(b[i]));
        let j = choose|j: int| 0 <= j < a.len() && a[j] == b[i];
        assert(is_content_type(a[j].0@));
    }
}

/// Whether a request is a hook post: anything else is answered 404.
pub fn is_hook_post(method: &str, url: &str, headers: &Vec<(String, String)>) -> (r: bool)
    ensures
        r == hook_post(method@, url@, headers@),
{
    if !same_text(method, "POST") {
        return false;
    }
    if !same_text(text_before(url, '?'), "/hook") {
        return false;
    }
    let n = headers.len();
    let mut i: usize = 0;
    while i < n
        invariant
            n == headers@.len(),
            i <= n,
            method@ == "POST"@,
            before_first(url@, '?') == "/hook"@,
            forall|j: int|
                0 <= j < i ==> !(is_content_type(#[trigger] headers@[j].0@) && says_json(
                    headers@[j].1@,
                )),
        decreases n - i,
    {
        let field = headers[i].0.as_str();
        let value = headers[i].1.as_str();
        if same_ignoring_ascii_case(field, "Content-Type") && starts_with_lowered(
            trimmed_start(value),
            "application/json",
        ) {
            assert(is_content_type(headers@[i as int].0@) && says_json(headers@[i as int].1@));
            return true;
        }
        i = i + 1;
    }
    false
}

/// Whether a declared body length is over the cap, so the body is answered
/// and dropped unread.
pub fn declared_too_large(length: Option<u64>) -> (r: bool)
    ensures
        r == (length matches Some(n) && n > MAX_BODY),
{
    match length {
        Some(n) => n > MAX_BODY,
        None => false,
    }
}

/// Whether a body read up to the cap stopped at it. A chunked body has no
/// declared length, so reaching the cap is the only sign it was too big.
pub fn read_reached_cap(read: u64) -> (r: bool)
    ensures
        r == (read >= MAX_BODY),
{
    read >= MAX_BODY
}

pub open spec fn is_digit(c: char) -> bool {
    '0' <= c && c <= '9'
}

/// The number a string of decimal digits denotes.
pub open spec fn digits_value(s: Seq<char>) -> nat
    decreases s.len(),
{
    if s.len() == 0 {
        0
    } else {
        digits_value(s.drop_last()) * 10 + ((s.last() as u32) - ('0' as u32)) as nat
    }
}

pub open spec fn all_digits(s: Seq<char>) -> bool {
    forall|i: int| 0 <= i < s.len() ==> is_digit(#[trigger] s[i])
}

/// What `str::parse::<u16>` gives: an optional `+`, then one or more digits
/// denoting at most 65535.
pub open spec fn port_number(s: Seq<char>) -> Option<u16> {
    let t = if s.len() > 0 && s[0] == '+' {
        s.drop_first()
    } else {
        s
    };
    if t.len() > 0 && all_digits(t) && digits_value(t) <= u16::MAX {
        Some(digits_value(t) as u16)
    } else {
        None
    }
}

/// The port to ask for: the setting, trimmed, when it is a port number;
/// otherwise the default.
pub open spec fn port_from_setting(setting: Option<Seq<char>>) -> u16 {
    match setting {
        Some(v) => match port_number(trim(v)) {
            Some(p) => p,
            None => DEFAULT_PORT,
        },
        None => DEFAULT_PORT,
    }
}

proof fn lemma_digits_value_grows(t: Seq<char>, i: int)
    requires
        0 <= i <= t.len(),
        all_digits(t),
    ensures
        digits_value(t.take(i)) <= digits_value(t),
    decreases t.len() - i,
{
    if i < t.len() {
        let u = t.drop_last();
        assert(all_digits(u)) by {
            assert forall|j: int| 0 <= j < u.len() implies is_digit(#[trigger] u[j]) by {
                assert(u[j] == t[j]);
            }
        }
        lemma_digits_value_grows(u, i);
        assert(u.take(i) =~= t.take(i));
    } else {
        assert(t.take(i) =~= t);
    }
}

/// A port number, as `str::parse::<u16>` reads one.
pub fn parse_port(text: &str) -> (r: Option<u16>)
    ensures
        r == port_number(text@),
{
    proof {
        reveal_strlit("+");
        if text@.len() > 0 {
            assert(text@.take(1) =~= seq![text@[0]]);
        }
    }
    let len = text.unicode_len();
    let plus = starts_with(text, "+");
    proof {
        if text@.len() > 0 {
            if text@[0] == '+' {
                assert(text@.take(1) =~= "+"@);
            } else {
                assert(text@.take(1)[0] != "+"@[0]);
            }
        }
    }
    assert(plus == (text@.len() > 0 && text@[0] == '+'));
    let digits = if plus {
        let d = text.substring_char(1, len);
        assert(d@ =~= text@.drop_first());
        d
    } else {
        text
    };
    let ghost t = digits@;
    let n = digits.unicode_len();
    if n == 0 {
        return None;
    }
    let mut value: u32 = 0;
    let mut i: usize = 0;
    for c in it: digits.chars()
        invariant
            i == it.index(),
            it.seq() == t,
            n == t.len(),
            n > 0,
            t == digits@,
            t == (if text@.len() > 0 && text@[0] == '+' {
                text@.drop_first()
            } else {
                text@
            }),
            forall|j: int| 0 <= j < i ==> is_digit(#[trigger] t[j]),
            value == digits_value(t.take(i as int)),
            value <= u16::MAX,
    {
        assert(i < n);
        if !('0' <= c && c <= '9') {
            assert(!all_digits(t));
            return None;
        }
        let d: u32 = (c as u32) - ('0' as u32);
        assert(t.take(i + 1).drop_last() =~= t.take(i as int));
        assert(t.take(i + 1).last() == c);
        if value * 10 + d > 65535 {
            proof {
                if all_digits(t) {
                    lemma_digits_value_grows(t, i + 1);
                }
            }
            return None;
        }
        value = value * 10 + d;
        i = i + 1;
    }
    assert(t.take(n as int) =~= t);
    Some(value as u16)
}

/// The port to ask for, given the setting's text if there is one.
pub fn requested_port(setting: Option<&str>) -> (r: u16)
    ensures
        r == port_from_setting(
            match setting {
                Some(v) => Some(v@),
                None => None,
            },
        ),
{
    match setting {
        Some(v) => match parse_port(trimmed(v)) {
            Some(p) => p,
            None => DEFAULT_PORT,
        },
        None => DEFAULT_PORT,
    }
}

/// The ports to try binding, in order: the requested one and up to
/// `PORT_SCAN` neighbours above it, stopping at the top of the range.
pub fn candidate_ports(port: u16) -> (r: Vec<u16>)
    ensures
        r@.len() == (if port as int + PORT_SCAN <= u16::MAX {
            PORT_SCAN + 1
        } else {
            u16::MAX - port + 1
        }),
        forall|i: int| 0 <= i < r@.len() ==> #[trigger] r@[i] == port + i,
{
    let last: u16 = port.saturating_add(PORT_SCAN);
    let mut out: Vec<u16> = Vec::new();
    let mut p: u16 = port;
    loop
        invariant_except_break
            port <= p <= last,
            last == (if port as int + PORT_SCAN <= u16::MAX {
                port + PORT_SCAN
            } else {
                u16::MAX as int
            }),
            out@.len() == p - port,
            forall|i: int| 0 <= i < out@.len() ==> #[trigger] out@[i] == port + i,
        ensures
            out@.len() == last - port + 1,
            forall|i: int| 0 <= i < out@.len() ==> #[trigger] out@[i] == port + i,
        decreases last - p,
    {
        out.push(p);
        if p == last {
            break;
        }
        p = p + 1;
    }
    out
}

} // verus!
