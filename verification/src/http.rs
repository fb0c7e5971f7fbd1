//! The browser bridge: requests, routes and responses as text and bytes.
//!
//! The socket is left to the caller, who hands over the bytes that arrive and
//! sends the bytes that are given back.
use crate::text;
use crate::text::{
    append_decimal, characters, find_char_between, is_space_char, joined, lowered_of, same,
    starts_with, string_between,
};
use vstd::prelude::*;
use vstd::string::StringExecFns;

verus! {

// ---------------------------------------------------------------------------
// Bytes and characters
// ---------------------------------------------------------------------------

/// Whether `needle` stands in `haystack` at `i`.
pub open spec fn occurs_at(haystack: Seq<u8>, needle: Seq<u8>, i: int) -> bool {
    0 <= i && i + needle.len() <= haystack.len() && haystack.subrange(i, i + needle.len())
        == needle
}

/// Whether `r` is the first place where `needle` stands in `haystack`.
pub open spec fn first_occurrence(haystack: Seq<u8>, needle: Seq<u8>, r: Option<int>) -> bool {
    match r {
        Some(i) => occurs_at(haystack, needle, i) && forall|j: int|
            0 <= j < i ==> !occurs_at(haystack, needle, j),
        None => forall|j: int| !occurs_at(haystack, needle, j),
    }
}

/// The first place where `needle` stands in `haystack`.
pub fn find_subsequence(haystack: &[u8], needle: &[u8]) -> (r: Option<usize>)
    requires
        needle@.len() > 0,
    ensures
        first_occurrence(
            haystack@,
            needle@,
            match r {
                Some(i) => Some(i as int),
                None => None,
            },
        ),
{
    let n: usize = haystack.len();
    let m: usize = needle.len();
    if m > n {
        return None;
    }
    let mut i: usize = 0;
    while i <= n - m
        invariant
            m == needle@.len(),
            n == haystack@.len(),
            0 < m <= n,
            i <= n - m + 1,
            forall|j: int| 0 <= j < i ==> !occurs_at(haystack@, needle@, j),
        decreases n - m + 1 - i,
    {
        let mut k: usize = 0;
        while k < m && haystack[i + k] == needle[k]
            invariant
                m == needle@.len(),
                n == haystack@.len(),
                0 < m <= n,
                i <= n - m,
                k <= m,
                forall|j: int| 0 <= j < k ==> haystack@[i + j] == needle@[j],
            decreases m - k,
        {
            k += 1;
        }
        if k == m {
            assert(haystack@.subrange(i as int, i + m) =~= needle@);
            return Some(i);
        }
        proof {
            if occurs_at(haystack@, needle@, i as int) {
                assert(haystack@.subrange(i as int, i + m)[k as int] == needle@[k as int]);
            }
        }
        i += 1;
    }
    None
}

/// The first place of a line end in `s`, or the length of `s` where there is none.
pub open spec fn find_line_end(s: Seq<char>) -> int
    decreases s.len(),
{
    if s.len() == 0 || (s.len() >= 2 && s[0] == '\r' && s[1] == '\n') {
        0
    } else {
        1 + find_line_end(s.skip(1))
    }
}

/// [`find_line_end`] from what stands at the place and before it.
proof fn lemma_find_line_end(s: Seq<char>, i: int)
    requires
        0 <= i <= s.len(),
        forall|j: int| 0 <= j < i && j + 1 < s.len() ==> !(s[j] == '\r' && #[trigger] s[j + 1] == '\n'),
        i < s.len() ==> i + 1 < s.len() && s[i] == '\r' && s[i + 1] == '\n',
    ensures
        find_line_end(s) == i,
    decreases s.len(),
{
    if i > 0 {
        let t = s.skip(1);
        assert(s.len() >= 2 ==> s[0int + 1] == s[1]);
        assert forall|j: int| 0 <= j < i - 1 && j + 1 < t.len() implies !(t[j] == '\r'
            && #[trigger] t[j + 1] == '\n') by {
            assert(t[j] == s[j + 1] && t[j + 1] == s[(j + 1) + 1]);
        }
        lemma_find_line_end(t, i - 1);
    }
}

/// The first line end in `v` from `from`, or the length of `v`.
fn find_line_end_from(v: &Vec<char>, from: usize) -> (r: usize)
    requires
        from <= v@.len(),
    ensures
        from <= r <= v@.len(),
        r == from + find_line_end(v@.skip(from as int)),
        r < v@.len() ==> r + 2 <= v@.len(),
{
    let n: usize = v.len();
    let mut i: usize = from;
    while i < n && !(i + 1 < n && v[i] == '\r' && v[i + 1] == '\n')
        invariant
            n == v@.len(),
            from <= i <= n,
            forall|j: int|
                from <= j < i && j + 1 < n ==> !(v@[j] == '\r' && #[trigger] v@[j + 1] == '\n'),
        decreases n - i,
    {
        assert(i + 1 < n ==> v@[i as int + 1] == v@[i + 1]);
        i += 1;
    }
    proof {
        let s = v@.skip(from as int);
        assert forall|j: int| 0 <= j < i - from && j + 1 < s.len() implies !(s[j] == '\r'
            && #[trigger] s[j + 1] == '\n') by {
            assert(s[j] == v@[from + j] && s[j + 1] == v@[(from + j) + 1]);
        }
        lemma_find_line_end(s, i - from);
    }
    i
}

/// `s` without white space at its start.
pub open spec fn trim_start(s: Seq<char>) -> Seq<char>
    decreases s.len(),
{
    if s.len() > 0 && text::is_space(s[0]) {
        trim_start(s.skip(1))
    } else {
        s
    }
}

/// `s` without white space at its end.
pub open spec fn trim_end(s: Seq<char>) -> Seq<char>
    decreases s.len(),
{
    if s.len() > 0 && text::is_space(s.last()) {
        trim_end(s.drop_last())
    } else {
        s
    }
}

/// The string of the characters from `from` up to `to`, without white space at
/// either side.
fn trimmed_between(v: &Vec<char>, from: usize, to: usize) -> (r: String)
    requires
        from <= to <= v@.len(),
    ensures
        r@ == trim_end(trim_start(v@.subrange(from as int, to as int))),
{
    let mut a: usize = from;
    while a < to && is_space_char(v[a])
        invariant
            from <= a <= to <= v@.len(),
            trim_start(v@.subrange(a as int, to as int)) == trim_start(
                v@.subrange(from as int, to as int),
            ),
        decreases to - a,
    {
        assert(v@.subrange(a as int, to as int).skip(1) =~= v@.subrange(a + 1, to as int));
        a += 1;
    }
    let mut b: usize = to;
    while a < b && is_space_char(v[b - 1])
        invariant
            from <= a <= b <= to <= v@.len(),
            trim_end(v@.subrange(a as int, b as int)) == trim_end(v@.subrange(a as int, to as int)),
        decreases b - a,
    {
        assert(v@.subrange(a as int, b as int).drop_last() =~= v@.subrange(a as int, b - 1));
        b -= 1;
    }
    string_between(v, a, b)
}

/// Whether every character is a decimal digit.
pub open spec fn all_digits(s: Seq<char>) -> bool {
    forall|i: int| 0 <= i < s.len() ==> '0' <= #[trigger] s[i] <= '9'
}

/// The number that decimal digits write.
pub open spec fn digits_value(s: Seq<char>) -> int
    decreases s.len(),
{
    if s.len() == 0 {
        0
    } else {
        digits_value(s.drop_last()) * 10 + (s.last() as u32 - 48)
    }
}

/// The number up to `max` that `s` writes: digits, with a plus sign before them if
/// any.
pub open spec fn parsed_number(s: Seq<char>, max: int) -> Option<int> {
    let d = if s.len() > 0 && s[0] == '+' {
        s.skip(1)
    } else {
        s
    };
    if d.len() > 0 && all_digits(d) && digits_value(d) <= max {
        Some(digits_value(d))
    } else {
        None
    }
}

/// More digits do not make a number smaller.
proof fn lemma_digits_grow(s: Seq<char>, i: int)
    requires
        all_digits(s),
        0 <= i <= s.len(),
    ensures
        0 <= digits_value(s.take(i)) <= digits_value(s),
    decreases s.len(),
{
    if s.len() == 0 {
        assert(s.take(i) =~= s);
    } else if i == s.len() {
        assert(s.take(i) =~= s);
        assert(all_digits(s.drop_last()));
        lemma_digits_grow(s.drop_last(), s.len() - 1);
        assert(s.drop_last().take(s.len() - 1) =~= s.drop_last());
    } else {
        assert(all_digits(s.drop_last()));
        lemma_digits_grow(s.drop_last(), i);
        assert(s.drop_last().take(i) =~= s.take(i));
    }
}

/// The number up to `max` that `s` writes.
fn parse_number(s: &str, max: u64) -> (r: Option<u64>)
    ensures
        match r {
            Some(n) => parsed_number(s@, max as int) == Some(n as int),
            None => parsed_number(s@, max as int) is None,
        },
{
    let v = characters(s);
    let from: usize = if v.len() > 0 && v[0] == '+' {
        1
    } else {
        0
    };
    let ghost d = v@.skip(from as int);
    proof {
        assert(v@.skip(0) =~= v@);
    }
    if v.len() == from {
        return None;
    }
    let mut n: u64 = 0;
    let mut i: usize = from;
    while i < v.len()
        invariant
            from <= i <= v@.len(),
            d == v@.skip(from as int),
            all_digits(d.take(i - from)),
            n == digits_value(d.take(i - from)),
            n <= max,
            d == (if s@.len() > 0 && s@[0] == '+' {
                s@.skip(1)
            } else {
                s@
            }),
            d.len() > 0,
        decreases v@.len() - i,
    {
        let c: char = v[i];
        assert(d[i - from] == c);
        if c < '0' || c > '9' {
            assert(!all_digits(d));
            return None;
        }
        let x: u64 = c as u64 - 48;
        assert(d.take(i + 1 - from).drop_last() =~= d.take(i - from));
        assert(d.take(i + 1 - from).last() == c);
        assert(digits_value(d.take(i + 1 - from)) == n * 10 + x);
        if n > max / 10 || max < x || n * 10 > max - x {
            proof {
                if all_digits(d) {
                    lemma_digits_grow(d, i + 1 - from);
                }
            }
            return None;
        }
        n = n * 10 + x;
        i += 1;
    }
    assert(d.take(i - from) =~= d);
    Some(n)
}

// ---------------------------------------------------------------------------
// Text of bytes
// ---------------------------------------------------------------------------

/// `core::str::from_utf8` gives the text that the bytes encode, and nothing where
/// they encode none.
#[verifier::external_body]
fn text_of(bytes: &[u8]) -> (r: Option<String>)
    ensures
        match r {
            Some(s) => vstd::utf8::valid_utf8(bytes@) && s@ == vstd::utf8::decode_utf8(bytes@),
            None => !vstd::utf8::valid_utf8(bytes@),
        },
{
    match core::str::from_utf8(bytes) {
        Ok(s) => Some(s.to_owned()),
        Err(_) => None,
    }
}

/// The text that stands for bytes which need not encode one.
pub uninterp spec fn lossy_text(bytes: Seq<u8>) -> Seq<char>;

/// `String::from_utf8_lossy` gives the text that the bytes encode; bytes that
/// encode none are replaced, in a way left to the name.
#[verifier::external_body]
fn lossy_text_of(bytes: &[u8]) -> (r: String)
    ensures
        r@ == lossy_text(bytes@),
        vstd::utf8::valid_utf8(bytes@) ==> r@ == vstd::utf8::decode_utf8(bytes@),
{
    String::from_utf8_lossy(bytes).into_owned()
}

/// The text of an uploaded body.
pub fn body_text(body: &[u8]) -> (r: String)
    ensures
        r@ == lossy_text(body@),
        vstd::utf8::valid_utf8(body@) ==> r@ == vstd::utf8::decode_utf8(body@),
{
    lossy_text_of(body)
}

/// The value of a hexadecimal digit, of either case.
pub open spec fn hex_value(b: u8) -> Option<int> {
    if 48 <= b <= 57 {
        Some(b - 48)
    } else if 65 <= b <= 70 {
        Some(b - 55)
    } else if 97 <= b <= 102 {
        Some(b - 87)
    } else {
        None
    }
}

/// The byte that two characters after a percent sign write. A plus sign may stand
/// in place of the first digit.
pub open spec fn escaped_byte(a: u8, b: u8) -> Option<u8> {
    match (hex_value(a), hex_value(b)) {
        (Some(x), Some(y)) => Some((x * 16 + y) as u8),
        (None, Some(y)) => if a == 43 {
            Some(y as u8)
        } else {
            None
        },
        _ => None,
    }
}

/// The bytes that a percent-encoded query value stands for.
pub open spec fn decoded_bytes(b: Seq<u8>) -> Seq<u8>
    decreases b.len(),
{
    if b.len() == 0 {
        Seq::empty()
    } else if b[0] == 37 && b.len() > 2 && escaped_byte(b[1], b[2]) is Some {
        seq![escaped_byte(b[1], b[2])->0] + decoded_bytes(b.skip(3))
    } else if b[0] == 43 {
        seq![32u8] + decoded_bytes(b.skip(1))
    } else {
        seq![b[0]] + decoded_bytes(b.skip(1))
    }
}

/// The value of a hexadecimal digit.
fn hex_value_of(b: u8) -> (r: Option<u8>)
    ensures
        match r {
            Some(x) => hex_value(b) == Some(x as int) && x < 16,
            None => hex_value(b) is None,
        },
{
    if 48 <= b && b <= 57 {
        Some((b - 48) as u8)
    } else if 65 <= b && b <= 70 {
        Some((b - 55) as u8)
    } else if 97 <= b && b <= 102 {
        Some((b - 87) as u8)
    } else {
        None
    }
}

/// The byte that two characters after a percent sign write.
fn escaped_byte_of(a: u8, b: u8) -> (r: Option<u8>)
    ensures
        r == escaped_byte(a, b),
{
    match hex_value_of(b) {
        Some(y) => match hex_value_of(a) {
            Some(x) => Some(x * 16 + y),
            None => if a == 43 {
                Some(y)
            } else {
                None
            },
        },
        None => None,
    }
}

/// The text that a percent-encoded query value stands for: escapes as bytes, plus
/// signs as spaces.
pub fn percent_decode(s: &str) -> (r: String)
    ensures
        r@ == lossy_text(decoded_bytes(vstd::utf8::encode_utf8(s@))),
        vstd::utf8::valid_utf8(decoded_bytes(vstd::utf8::encode_utf8(s@))) ==> r@
            == vstd::utf8::decode_utf8(decoded_bytes(vstd::utf8::encode_utf8(s@))),
{
    let bytes = s.as_bytes();
    let ghost all = bytes@;
    let mut out: Vec<u8> = Vec::new();
    let mut i: usize = 0;
    assert(all.skip(0) =~= all);
    assert(out@ + decoded_bytes(all) =~= decoded_bytes(all));
    while i < bytes.len()
        invariant
            i <= bytes@.len(),
            all == bytes@,
            out@ + decoded_bytes(all.skip(i as int)) == decoded_bytes(all),
        decreases bytes@.len() - i,
    {
        let ghost rest = all.skip(i as int);
        let ghost before = out@;
        assert(rest[0] == all[i as int]);
        if bytes[i] == 37 && bytes.len() - i > 2 {
            assert(rest[1] == all[i + 1] && rest[2] == all[i + 2]);
            match escaped_byte_of(bytes[i + 1], bytes[i + 2]) {
                Some(b) => {
                    out.push(b);
                    i += 3;
                    proof {
                        assert(rest.skip(3) =~= all.skip(i as int));
                        assert(out@ + decoded_bytes(all.skip(i as int)) =~= before + (seq![b]
                            + decoded_bytes(rest.skip(3))));
                    }
                    continue ;
                },
                None => {},
            }
        }
        let b: u8 = if bytes[i] == 43 {
            32
        } else {
            bytes[i]
        };
        out.push(b);
        i += 1;
        proof {
            assert(rest.skip(1) =~= all.skip(i as int));
            assert(out@ + decoded_bytes(all.skip(i as int)) =~= before + (seq![b] + decoded_bytes(
                rest.skip(1),
            )));
        }
    }
    assert(all.skip(i as int) =~= Seq::empty());
    assert(out@ =~= decoded_bytes(all));
    lossy_text_of(out.as_slice())
}

/// Law: a value without percent signs and plus signs decodes to itself.
pub proof fn law_plain_values_decode_to_themselves(b: Seq<u8>)
    requires
        forall|i: int| 0 <= i < b.len() ==> #[trigger] b[i] != 37 && b[i] != 43,
    ensures
        decoded_bytes(b) == b,
    decreases b.len(),
{
    if b.len() > 0 {
        assert forall|i: int| 0 <= i < b.skip(1).len() implies #[trigger] b.skip(1)[i] != 37
            && b.skip(1)[i] != 43 by {
            assert(b.skip(1)[i] == b[i + 1]);
        }
        law_plain_values_decode_to_themselves(b.skip(1));
        assert(seq![b[0]] + b.skip(1) =~= b);
    }
}

/// Law: decoding never makes a value longer.
pub proof fn law_decoding_shrinks(b: Seq<u8>)
    ensures
        decoded_bytes(b).len() <= b.len(),
    decreases b.len(),
{
    if b.len() > 0 {
        if b[0] == 37 && b.len() > 2 && escaped_byte(b[1], b[2]) is Some {
            law_decoding_shrinks(b.skip(3));
        } else {
            law_decoding_shrinks(b.skip(1));
        }
    }
}

// ---------------------------------------------------------------------------
// Requests
// ---------------------------------------------------------------------------

/// A header of the head: name in lower case, value.
pub open spec fn header_of(line: Seq<char>) -> Option<(Seq<char>, Seq<char>)> {
    let i = text::find_char(line, ':');
    if i < line.len() {
        Some((text::lowered(trim_end(trim_start(line.take(i)))), trim_end(trim_start(line.skip(i + 1)))))
    } else {
        None
    }
}

/// The headers of the lines of `s`, in order. A line without a colon is none.
pub open spec fn headers_of(s: Seq<char>) -> Seq<(Seq<char>, Seq<char>)>
    decreases s.len(),
{
    let i = find_line_end(s);
    let first = match header_of(s.take(i)) {
        Some(h) => seq![h],
        None => Seq::empty(),
    };
    if 0 <= i && i + 2 <= s.len() {
        first + headers_of(s.skip(i + 2))
    } else {
        first
    }
}

/// The first line of a head.
pub open spec fn request_line(head: Seq<char>) -> Seq<char> {
    head.take(find_line_end(head))
}

/// The headers of a head: those of the lines after the first.
pub open spec fn head_headers(head: Seq<char>) -> Seq<(Seq<char>, Seq<char>)> {
    let i = find_line_end(head);
    if i < head.len() {
        headers_of(head.skip(i + 2))
    } else {
        Seq::empty()
    }
}

/// The method of a request line: what stands before its first space.
pub open spec fn line_method(line: Seq<char>) -> Seq<char> {
    line.take(text::find_char(line, ' '))
}

/// The target of a request line: what stands between its first two spaces. A line
/// without a space asks for the root.
pub open spec fn line_path(line: Seq<char>) -> Seq<char> {
    let i = text::find_char(line, ' ');
    if i < line.len() {
        let rest = line.skip(i + 1);
        rest.take(text::find_char(rest, ' '))
    } else {
        seq!['/']
    }
}

/// The characters of the headers.
pub open spec fn header_views(h: Seq<(String, String)>) -> Seq<(Seq<char>, Seq<char>)> {
    h.map_values(|p: (String, String)| (p.0@, p.1@))
}

/// The value of the first header with the name `key`.
pub open spec fn header_lookup(h: Seq<(Seq<char>, Seq<char>)>, key: Seq<char>) -> Option<Seq<char>>
    decreases h.len(),
{
    if h.len() == 0 {
        None
    } else if h[0].0 == key {
        Some(h[0].1)
    } else {
        header_lookup(h.skip(1), key)
    }
}

/// The value of the first header with the name `key`.
pub fn header_value<'a>(headers: &'a [(String, String)], key: &str) -> (r: Option<&'a str>)
    ensures
        match r {
            Some(v) => header_lookup(header_views(headers@), key@) == Some(v@),
            None => header_lookup(header_views(headers@), key@) is None,
        },
{
    let ghost all = header_views(headers@);
    let mut i: usize = 0;
    assert(all.skip(0) =~= all);
    while i < headers.len()
        invariant
            i <= headers@.len(),
            all == header_views(headers@),
            header_lookup(all.skip(i as int), key@) == header_lookup(all, key@),
        decreases headers@.len() - i,
    {
        let ghost rest = all.skip(i as int);
        assert(rest[0] == all[i as int]);
        assert(rest.skip(1) =~= all.skip(i + 1));
        if same(headers[i].0.as_str(), key) {
            return Some(headers[i].1.as_str());
        }
        i += 1;
    }
    None
}

/// The head of a request.
#[derive(Clone, Debug)]
pub struct RequestHead {
    pub method: String,
    pub path: String,
    pub headers: Vec<(String, String)>,
}

/// Whether `h` is what the head `s` says.
pub open spec fn says(h: RequestHead, s: Seq<char>) -> bool {
    &&& h.method@ == line_method(request_line(s))
    &&& h.path@ == line_path(request_line(s))
    &&& header_views(h.headers@) == head_headers(s)
}

/// What the head `s` says.
pub fn parse_head(s: &str) -> (r: RequestHead)
    ensures
        says(r, s@),
{
    let v = characters(s);
    let end: usize = find_line_end_from(&v, 0);
    let ghost line = request_line(s@);
    proof {
        assert(v@.skip(0) =~= v@);
        assert(v@.subrange(0, end as int) =~= line);
    }
    let space: usize = find_char_between(&v, 0, end, ' ');
    let method = string_between(&v, 0, space);
    assert(method@ =~= line_method(line));
    let path = if space < end {
        let next: usize = find_char_between(&v, space + 1, end, ' ');
        proof {
            let rest = line.skip(space + 1);
            assert(v@.subrange(space + 1, end as int) =~= rest);
            assert(v@.subrange(space + 1, next as int) =~= rest.take(text::find_char(rest, ' ')));
        }
        string_between(&v, space + 1, next)
    } else {
        proof {
            reveal_strlit("/");
            assert("/"@ =~= seq!['/']);
        }
        "/".to_owned()
    };
    let mut headers: Vec<(String, String)> = Vec::new();
    assert(header_views(headers@) =~= Seq::empty());
    if end < v.len() {
        let mut at: usize = end + 2;
        let mut more: bool = true;
        let ghost all = headers_of(v@.skip(at as int));
        while more
            invariant
                at <= v@.len(),
                more ==> header_views(headers@) + headers_of(v@.skip(at as int)) == all,
                !more ==> header_views(headers@) == all,
            decreases v@.len() - at + (if more {
                1int
            } else {
                0
            }),
        {
            let ghost rest = v@.skip(at as int);
            let ghost before = header_views(headers@);
            let stop: usize = find_line_end_from(&v, at);
            let ghost text = rest.take(stop - at);
            assert(v@.subrange(at as int, stop as int) =~= text);
            let colon: usize = find_char_between(&v, at, stop, ':');
            let ghost i = colon - at;
            if colon < stop {
                let name = trimmed_between(&v, at, colon);
                let value = trimmed_between(&v, colon + 1, stop);
                proof {
                    assert(v@.subrange(at as int, colon as int) =~= text.take(i));
                    assert(v@.subrange(colon + 1, stop as int) =~= text.skip(i + 1));
                }
                let low = lowered_of(name.as_str());
                let ghost pair = (low@, value@);
                let ghost old_headers = headers@;
                headers.push((low, value));
                assert(header_views(headers@) =~= before.push(pair));
                assert(header_of(text) == Some(pair));
                assert(header_views(headers@) =~= before + seq![pair]);
            } else {
                assert(header_of(text) is None);
                assert(before + Seq::<(Seq<char>, Seq<char>)>::empty() =~= before);
            }
            if stop < v.len() {
                proof {
                    assert(rest.skip(stop - at + 2) =~= v@.skip(stop + 2));
                    let first = match header_of(text) {
                        Some(h) => seq![h],
                        None => Seq::empty(),
                    };
                    assert(header_views(headers@) == before + first);
                    assert(before + (first + headers_of(v@.skip(stop + 2))) =~= (before + first)
                        + headers_of(v@.skip(stop + 2)));
                }
                at = stop + 2;
            } else {
                more = false;
            }
        }
    }
    RequestHead { method, path, headers }
}

/// A whole request.
#[derive(Clone, Debug)]
pub struct Request {
    pub head: RequestHead,
    pub body: Vec<u8>,
}

/// Largest head that is read without its end in sight.
pub const MAX_HEAD: usize = 1_048_576;

/// The bytes that end a head.
pub open spec fn head_end() -> Seq<u8> {
    seq![13u8, 10u8, 13u8, 10u8]
}

/// The length of the body that a head announces; zero where it names none.
pub open spec fn content_length(head: Seq<char>) -> int {
    match header_lookup(head_headers(head), "content-length"@) {
        Some(v) => match parsed_number(v, usize::MAX as int) {
            Some(n) => n,
            None => 0,
        },
        None => 0,
    }
}

/// How far the bytes of a request have come.
pub enum Progress {
    /// Not all of it is there.
    Partial,
    /// The head has no end within the limit.
    TooLarge,
    /// The head is no text.
    NotText,
    /// All of it is there.
    Complete { head: Seq<char>, body: Seq<u8> },
}

/// How far the bytes `b` have come, the end of their head being at `end`.
pub open spec fn progress_at(b: Seq<u8>, end: Option<int>) -> Progress {
    match end {
        None => if b.len() > MAX_HEAD {
            Progress::TooLarge
        } else {
            Progress::Partial
        },
        Some(e) => if !vstd::utf8::valid_utf8(b.take(e)) {
            Progress::NotText
        } else {
            let head = vstd::utf8::decode_utf8(b.take(e));
            let body = b.skip(e + 4);
            if body.len() < content_length(head) {
                Progress::Partial
            } else {
                Progress::Complete { head, body: body.take(content_length(head)) }
            }
        },
    }
}

/// Whether the bytes `b` have come as far as `p` says.
pub open spec fn has_progress(b: Seq<u8>, p: Progress) -> bool {
    exists|end: Option<int>| #[trigger]
        first_occurrence(b, head_end(), end) && p == progress_at(b, end)
}

/// Why a request cannot be read.
#[derive(Clone, Copy, Debug, PartialEq, Eq, Structural)]
pub enum ReadError {
    IncompleteHeader,
    HeaderTooLarge,
    NonUtf8Header,
    BodyTruncated,
}

impl ReadError {
    /// The error in words.
    pub fn text(self) -> (r: &'static str)
        ensures
            r@ == (match self {
                ReadError::IncompleteHeader => "incomplete request header"@,
                ReadError::HeaderTooLarge => "request header too large"@,
                ReadError::NonUtf8Header => "non-utf8 request header"@,
                ReadError::BodyTruncated => "body truncated"@,
            }),
    {
        match self {
            ReadError::IncompleteHeader => "incomplete request header",
            ReadError::HeaderTooLarge => "request header too large",
            ReadError::NonUtf8Header => "non-utf8 request header",
            ReadError::BodyTruncated => "body truncated",
        }
    }
}

/// What to do after some bytes have arrived.
#[derive(Debug)]
pub enum ReadStep {
    /// Read on.
    More,
    /// The request is whole.
    Done(Request),
    Failed(ReadError),
}

/// Whether the step `step` answers the progress `p`.
pub open spec fn answers(step: ReadStep, p: Progress) -> bool {
    match p {
        Progress::Partial => step is More,
        Progress::TooLarge => step == ReadStep::Failed(ReadError::HeaderTooLarge),
        Progress::NotText => step == ReadStep::Failed(ReadError::NonUtf8Header),
        Progress::Complete { head, body } => step matches ReadStep::Done(q) && says(q.head, head)
            && q.body@ == body,
    }
}

/// The bytes of a request as they arrive.
#[derive(Debug)]
pub struct RequestReader {
    buf: Vec<u8>,
}

impl RequestReader {
    /// The bytes that have arrived.
    pub closed spec fn received(&self) -> Seq<u8> {
        self.buf@
    }

    /// A reader to which nothing has arrived.
    pub fn new() -> (r: RequestReader)
        ensures
            r.received() == Seq::<u8>::empty(),
    {
        RequestReader { buf: Vec::new() }
    }

    /// Takes bytes that have arrived and says what to do.
    pub fn feed(&mut self, chunk: &[u8]) -> (r: ReadStep)
        ensures
            final(self).received() == old(self).received() + chunk@,
            exists|p: Progress| #[trigger]
                has_progress(final(self).received(), p) && answers(r, p),
    {
        let ghost before = self.buf@;
        let mut i: usize = 0;
        while i < chunk.len()
            invariant
                i <= chunk@.len(),
                self.buf@ == before + chunk@.take(i as int),
            decreases chunk@.len() - i,
        {
            assert(before + chunk@.take(i + 1) =~= (before + chunk@.take(i as int)).push(
                chunk@[i as int],
            ));
            self.buf.push(chunk[i]);
            i += 1;
        }
        assert(chunk@.take(i as int) =~= chunk@);
        let needle: [u8; 4] = [13, 10, 13, 10];
        assert(needle@ =~= head_end());
        let end = find_subsequence(self.buf.as_slice(), needle.as_slice());
        let ghost at: Option<int> = match end {
            Some(e) => Some(e as int),
            None => None,
        };
        let ghost p = progress_at(self.buf@, at);
        assert(first_occurrence(self.buf@, head_end(), at));
        assert(has_progress(self.received(), p));
        match end {
            None => if self.buf.len() > MAX_HEAD {
                ReadStep::Failed(ReadError::HeaderTooLarge)
            } else {
                ReadStep::More
            },
            Some(e) => {
                let head_bytes = vstd::slice::slice_subrange(self.buf.as_slice(), 0, e);
                assert(head_bytes@ =~= self.buf@.take(e as int));
                match text_of(head_bytes) {
                    None => ReadStep::Failed(ReadError::NonUtf8Header),
                    Some(text) => {
                        let head = parse_head(text.as_str());
                        let want: usize = match header_value(
                            head.headers.as_slice(),
                            "content-length",
                        ) {
                            Some(v) => match parse_number(v, usize::MAX as u64) {
                                Some(n) => n as usize,
                                None => 0,
                            },
                            None => 0,
                        };
                        assert(want == content_length(text@));
                        assert(e + head_end().len() <= self.buf@.len());
                        let total: usize = self.buf.len();
                        let start: usize = e + 4;
                        if total - start < want {
                            return ReadStep::More;
                        }
                        let mut body: Vec<u8> = Vec::new();
                        let mut k: usize = 0;
                        while k < want
                            invariant
                                k <= want,
                                total == self.buf@.len(),
                                start + want <= total,
                                body@ == self.buf@.subrange(start as int, start + k),
                            decreases want - k,
                        {
                            assert(self.buf@.subrange(start as int, start + k + 1)
                                =~= self.buf@.subrange(start as int, start + k).push(
                                self.buf@[start + k],
                            ));
                            body.push(self.buf[start + k]);
                            k += 1;
                        }
                        assert(body@ =~= self.buf@.skip(start as int).take(want as int));
                        ReadStep::Done(Request { head, body })
                    },
                }
            },
        }
    }

    /// What it means that no more bytes will come, before the request is whole: the
    /// other side closed an idle connection (`None`), or broke off.
    pub fn end(&self) -> (r: Option<ReadError>)
        ensures
            self.received().len() == 0 <==> r is None,
            self.received().len() > 0 && first_occurrence(self.received(), head_end(), None) ==> r
                == Some(ReadError::IncompleteHeader),
            self.received().len() > 0 && !first_occurrence(self.received(), head_end(), None) ==> r
                == Some(ReadError::BodyTruncated),
    {
        if self.buf.len() == 0 {
            return None;
        }
        let needle: [u8; 4] = [13, 10, 13, 10];
        assert(needle@ =~= head_end());
        match find_subsequence(self.buf.as_slice(), needle.as_slice()) {
            None => Some(ReadError::IncompleteHeader),
            Some(_) => Some(ReadError::BodyTruncated),
        }
    }
}

/// Law: how far bytes have come is one thing only, so it does not matter in which
/// pieces they arrived.
pub proof fn law_progress_is_one_thing(b: Seq<u8>, p: Progress, q: Progress)
    requires
        has_progress(b, p),
        has_progress(b, q),
    ensures
        p == q,
{
    let e = choose|e: Option<int>| #[trigger]
        first_occurrence(b, head_end(), e) && p == progress_at(b, e);
    let f = choose|f: Option<int>| #[trigger]
        first_occurrence(b, head_end(), f) && q == progress_at(b, f);
    match (e, f) {
        (Some(i), Some(j)) => {
            if i < j {
                assert(!occurs_at(b, head_end(), i));
            } else if j < i {
                assert(!occurs_at(b, head_end(), j));
            }
        },
        (Some(i), None) => {
            assert(!occurs_at(b, head_end(), i));
        },
        (None, Some(j)) => {
            assert(!occurs_at(b, head_end(), j));
        },
        (None, None) => {},
    }
}

/// Law: bytes behind a whole request do not change it.
pub proof fn law_later_bytes_do_not_matter(
    b: Seq<u8>,
    later: Seq<u8>,
    head: Seq<char>,
    body: Seq<u8>,
)
    requires
        has_progress(b, Progress::Complete { head, body }),
    ensures
        has_progress(b + later, Progress::Complete { head, body }),
{
    let p = Progress::Complete { head, body };
    let end = choose|e: Option<int>| #[trigger]
        first_occurrence(b, head_end(), e) && p == progress_at(b, e);
    let e = end->0;
    let all = b + later;
    assert(all.subrange(e, e + 4) =~= b.subrange(e, e + 4));
    assert forall|j: int| 0 <= j < e implies !occurs_at(all, head_end(), j) by {
        assert(all.subrange(j, j + 4) =~= b.subrange(j, j + 4));
        assert(!occurs_at(b, head_end(), j));
    }
    assert(first_occurrence(all, head_end(), end));
    assert(all.take(e) =~= b.take(e));
    assert(content_length(head) >= 0) by {
        lemma_content_length(head);
    }
    assert(all.skip(e + 4).take(content_length(head)) =~= b.skip(e + 4).take(
        content_length(head),
    ));
    assert(progress_at(all, end) == p);
}

/// A body has no negative length.
proof fn lemma_content_length(head: Seq<char>)
    ensures
        content_length(head) >= 0,
{
    match header_lookup(head_headers(head), "content-length"@) {
        Some(v) => {
            let d = if v.len() > 0 && v[0] == '+' {
                v.skip(1)
            } else {
                v
            };
            if all_digits(d) {
                lemma_digits_grow(d, 0);
            }
        },
        None => {},
    }
}

// ---------------------------------------------------------------------------
// Routes
// ---------------------------------------------------------------------------

/// The path without its query.
pub open spec fn without_query(path: Seq<char>) -> Seq<char> {
    path.take(text::find_char(path, '?'))
}

/// The decoded value of the first pair of the query `q` whose name is `key`, in any
/// case.
pub open spec fn query_lookup(q: Seq<char>, key: Seq<char>) -> Option<Seq<char>>
    decreases q.len(),
{
    let i = text::find_char(q, '&');
    let pair = q.take(i);
    let e = text::find_char(pair, '=');
    if e < pair.len() && text::lowered(pair.take(e)) == text::lowered(key) {
        Some(lossy_text(decoded_bytes(vstd::utf8::encode_utf8(pair.skip(e + 1)))))
    } else if 0 <= i < q.len() {
        query_lookup(q.skip(i + 1), key)
    } else {
        None
    }
}

/// The decoded value of a query parameter of a path.
pub open spec fn query_value(path: Seq<char>, key: Seq<char>) -> Option<Seq<char>> {
    let i = text::find_char(path, '?');
    if i < path.len() {
        query_lookup(path.skip(i + 1), key)
    } else {
        None
    }
}

/// The decoded value of a query parameter of a path.
pub fn query_param(path: &str, key: &str) -> (r: Option<String>)
    ensures
        match r {
            Some(v) => query_value(path@, key@) == Some(v@),
            None => query_value(path@, key@) is None,
        },
{
    let v = characters(path);
    let n: usize = v.len();
    let mark: usize = find_char_between(&v, 0, n, '?');
    assert(v@.subrange(0, n as int) =~= path@);
    if mark == n {
        return None;
    }
    let low_key = lowered_of(key);
    let mut at: usize = mark + 1;
    assert(v@.skip(at as int) =~= path@.skip(mark + 1));
    loop
        invariant
            at <= n,
            n == v@.len(),
            low_key@ == text::lowered(key@),
            query_lookup(v@.skip(at as int), key@) == query_value(path@, key@),
        decreases n - at,
    {
        let ghost q = v@.skip(at as int);
        let stop: usize = find_char_between(&v, at, n, '&');
        assert(v@.subrange(at as int, n as int) =~= q);
        let ghost pair = q.take(stop - at);
        assert(v@.subrange(at as int, stop as int) =~= pair);
        let equals: usize = find_char_between(&v, at, stop, '=');
        if equals < stop {
            let name = string_between(&v, at, equals);
            assert(name@ =~= pair.take(equals - at));
            let low_name = lowered_of(name.as_str());
            if same(low_name.as_str(), low_key.as_str()) {
                let value = string_between(&v, equals + 1, stop);
                assert(value@ =~= pair.skip(equals - at + 1));
                return Some(percent_decode(value.as_str()));
            }
        }
        if stop == n {
            return None;
        }
        assert(q.skip(stop - at + 1) =~= v@.skip(stop + 1));
        at = stop + 1;
    }
}

/// Where a request leads.
#[derive(Clone, Debug)]
pub enum Route {
    /// The page itself.
    Index,
    /// A command by name, with the body as its arguments.
    Invoke(String),
    /// The stream of events.
    Events,
    /// A download of the recording in a format.
    ExportRecordings(String),
    /// A download of the configuration.
    ExportConfig,
    /// An upload of a scenario.
    Scenario,
    /// A question for what is allowed.
    Preflight,
    NotFound,
}

/// Whether the route `r` is where `method` and `path` lead.
pub open spec fn leads(r: Route, method: Seq<char>, path: Seq<char>) -> bool {
    let clean = without_query(path);
    let invoke = "/api/invoke/"@;
    if method == "GET"@ && (clean == "/"@ || clean == "/index.html"@) {
        r is Index
    } else if method == "POST"@ && text::has_prefix(clean, invoke) {
        r matches Route::Invoke(c) && c@ == clean.skip(invoke.len() as int)
    } else if method == "GET"@ && clean == "/api/events"@ {
        r is Events
    } else if method == "GET"@ && clean == "/api/export/recordings"@ {
        r matches Route::ExportRecordings(f) && f@ == (match query_value(path, "format"@) {
            Some(v) => v,
            None => "csv"@,
        })
    } else if method == "GET"@ && clean == "/api/export/config"@ {
        r is ExportConfig
    } else if method == "POST"@ && clean == "/api/scenario"@ {
        r is Scenario
    } else if method == "OPTIONS"@ {
        r is Preflight
    } else {
        r is NotFound
    }
}

/// Where a request leads.
pub fn route(method: &str, path: &str) -> (r: Route)
    ensures
        leads(r, method@, path@),
{
    let v = characters(path);
    let n: usize = v.len();
    let mark: usize = find_char_between(&v, 0, n, '?');
    assert(v@.subrange(0, n as int) =~= path@);
    let clean = string_between(&v, 0, mark);
    assert(clean@ =~= without_query(path@));
    let get: bool = same(method, "GET");
    let post: bool = same(method, "POST");
    if get && (same(clean.as_str(), "/") || same(clean.as_str(), "/index.html")) {
        Route::Index
    } else if post && starts_with(clean.as_str(), "/api/invoke/") {
        proof {
            reveal_strlit("/api/invoke/");
        }
        let name = string_between(&v, 12, mark);
        assert(name@ =~= clean@.skip(12));
        Route::Invoke(name)
    } else if get && same(clean.as_str(), "/api/events") {
        Route::Events
    } else if get && same(clean.as_str(), "/api/export/recordings") {
        match query_param(path, "format") {
            Some(f) => Route::ExportRecordings(f),
            None => Route::ExportRecordings("csv".to_owned()),
        }
    } else if get && same(clean.as_str(), "/api/export/config") {
        Route::ExportConfig
    } else if post && same(clean.as_str(), "/api/scenario") {
        Route::Scenario
    } else if same(method, "OPTIONS") {
        Route::Preflight
    } else {
        Route::NotFound
    }
}

/// A command that the bridge passes on.
#[derive(Clone, Copy, Debug, PartialEq, Eq, Structural)]
pub enum ApiCommand {
    CreatePlant,
    LoadScenario,
    StartSimulation,
    PauseSimulation,
    InjectFault,
    ClearFault,
    SetMode,
    SetWeather,
    SetSolarOverride,
    SetLoadOverride,
    SetCtMeter,
    SetBatterySoc,
    SetBatterySoh,
    StartCalibration,
    CancelCalibration,
    SetTickInterval,
    GetCurrentState,
    SavePlant,
    HasSavedPlant,
    LoadPlant,
    ExportRecording,
    ExportConfig,
    SetEvcEnabled,
    SetEvcChargeControl,
    SetEvcChargeCurrent,
    SetEvcSessionEnergy,
    SetEvcCableStatus,
    GetEvcState,
    SetEvcPort,
    GetEvcPort,
    SetDspFirmware,
    SetArmFirmware,
    SetInverterTemperature,
}

/// The command with a name.
pub open spec fn named_command(name: Seq<char>) -> Option<ApiCommand> {
    if name == "create_plant"@ {
        Some(ApiCommand::CreatePlant)
    } else if name == "load_scenario"@ {
        Some(ApiCommand::LoadScenario)
    } else if name == "start_simulation"@ {
        Some(ApiCommand::StartSimulation)
    } else if name == "pause_simulation"@ {
        Some(ApiCommand::PauseSimulation)
    } else if name == "inject_fault"@ {
        Some(ApiCommand::InjectFault)
    } else if name == "clear_fault"@ {
        Some(ApiCommand::ClearFault)
    } else if name == "set_mode"@ {
        Some(ApiCommand::SetMode)
    } else if name == "set_weather"@ {
        Some(ApiCommand::SetWeather)
    } else if name == "set_solar_override"@ {
        Some(ApiCommand::SetSolarOverride)
    } else if name == "set_load_override"@ {
        Some(ApiCommand::SetLoadOverride)
    } else if name == "set_ct_meter"@ {
        Some(ApiCommand::SetCtMeter)
    } else if name == "set_battery_soc"@ {
        Some(ApiCommand::SetBatterySoc)
    } else if name == "set_battery_soh"@ {
        Some(ApiCommand::SetBatterySoh)
    } else if name == "start_calibration"@ {
        Some(ApiCommand::StartCalibration)
    } else if name == "cancel_calibration"@ {
        Some(ApiCommand::CancelCalibration)
    } else if name == "set_tick_interval"@ {
        Some(ApiCommand::SetTickInterval)
    } else if name == "get_current_state"@ {
        Some(ApiCommand::GetCurrentState)
    } else if name == "save_plant"@ {
        Some(ApiCommand::SavePlant)
    } else if name == "has_saved_plant"@ {
        Some(ApiCommand::HasSavedPlant)
    } else if name == "load_plant"@ {
        Some(ApiCommand::LoadPlant)
    } else if name == "export_recording"@ {
        Some(ApiCommand::ExportRecording)
    } else if name == "export_config"@ {
        Some(ApiCommand::ExportConfig)
    } else if name == "set_evc_enabled"@ {
        Some(ApiCommand::SetEvcEnabled)
    } else if name == "set_evc_charge_control"@ {
        Some(ApiCommand::SetEvcChargeControl)
    } else if name == "set_evc_charge_current"@ {
        Some(ApiCommand::SetEvcChargeCurrent)
    } else if name == "set_evc_session_energy"@ {
        Some(ApiCommand::SetEvcSessionEnergy)
    } else if name == "set_evc_cable_status"@ {
        Some(ApiCommand::SetEvcCableStatus)
    } else if name == "get_evc_state"@ {
        Some(ApiCommand::GetEvcState)
    } else if name == "set_evc_port"@ {
        Some(ApiCommand::SetEvcPort)
    } else if name == "get_evc_port"@ {
        Some(ApiCommand::GetEvcPort)
    } else if name == "set_dsp_firmware"@ {
        Some(ApiCommand::SetDspFirmware)
    } else if name == "set_arm_firmware"@ {
        Some(ApiCommand::SetArmFirmware)
    } else if name == "set_inverter_temperature"@ {
        Some(ApiCommand::SetInverterTemperature)
    } else {
        None
    }
}

/// The command with a name.
fn command_named(name: &str) -> (r: Option<ApiCommand>)
    ensures
        r == named_command(name@),
{
    if same(name, "create_plant") {
        Some(ApiCommand::CreatePlant)
    } else if same(name, "load_scenario") {
        Some(ApiCommand::LoadScenario)
    } else if same(name, "start_simulation") {
        Some(ApiCommand::StartSimulation)
    } else if same(name, "pause_simulation") {
        Some(ApiCommand::PauseSimulation)
    } else if same(name, "inject_fault") {
        Some(ApiCommand::InjectFault)
    } else if same(name, "clear_fault") {
        Some(ApiCommand::ClearFault)
    } else if same(name, "set_mode") {
        Some(ApiCommand::SetMode)
    } else if same(name, "set_weather") {
        Some(ApiCommand::SetWeather)
    } else if same(name, "set_solar_override") {
        Some(ApiCommand::SetSolarOverride)
    } else if same(name, "set_load_override") {
        Some(ApiCommand::SetLoadOverride)
    } else if same(name, "set_ct_meter") {
        Some(ApiCommand::SetCtMeter)
    } else if same(name, "set_battery_soc") {
        Some(ApiCommand::SetBatterySoc)
    } else if same(name, "set_battery_soh") {
        Some(ApiCommand::SetBatterySoh)
    } else if same(name, "start_calibration") {
        Some(ApiCommand::StartCalibration)
    } else if same(name, "cancel_calibration") {
        Some(ApiCommand::CancelCalibration)
    } else if same(name, "set_tick_interval") {
        Some(ApiCommand::SetTickInterval)
    } else if same(name, "get_current_state") {
        Some(ApiCommand::GetCurrentState)
    } else if same(name, "save_plant") {
        Some(ApiCommand::SavePlant)
    } else if same(name, "has_saved_plant") {
        Some(ApiCommand::HasSavedPlant)
    } else if same(name, "load_plant") {
        Some(ApiCommand::LoadPlant)
    } else if same(name, "export_recording") {
        Some(ApiCommand::ExportRecording)
    } else if same(name, "export_config") {
        Some(ApiCommand::ExportConfig)
    } else if same(name, "set_evc_enabled") {
        Some(ApiCommand::SetEvcEnabled)
    } else if same(name, "set_evc_charge_control") {
        Some(ApiCommand::SetEvcChargeControl)
    } else if same(name, "set_evc_charge_current") {
        Some(ApiCommand::SetEvcChargeCurrent)
    } else if same(name, "set_evc_session_energy") {
        Some(ApiCommand::SetEvcSessionEnergy)
    } else if same(name, "set_evc_cable_status") {
        Some(ApiCommand::SetEvcCableStatus)
    } else if same(name, "get_evc_state") {
        Some(ApiCommand::GetEvcState)
    } else if same(name, "set_evc_port") {
        Some(ApiCommand::SetEvcPort)
    } else if same(name, "get_evc_port") {
        Some(ApiCommand::GetEvcPort)
    } else if same(name, "set_dsp_firmware") {
        Some(ApiCommand::SetDspFirmware)
    } else if same(name, "set_arm_firmware") {
        Some(ApiCommand::SetArmFirmware)
    } else if same(name, "set_inverter_temperature") {
        Some(ApiCommand::SetInverterTemperature)
    } else {
        None
    }
}

/// What a command takes from the arguments of a request.
#[derive(Clone, Copy, Debug)]
pub enum Argument {
    Nothing,
    /// The object under "params".
    Params,
    /// The value of one field.
    Field(&'static str),
}

/// [`Argument`] with the characters of its field.
pub enum ArgumentView {
    Nothing,
    Params,
    Field(Seq<char>),
}

impl View for Argument {
    type V = ArgumentView;

    open spec fn view(&self) -> ArgumentView {
        match self {
            Argument::Nothing => ArgumentView::Nothing,
            Argument::Params => ArgumentView::Params,
            Argument::Field(f) => ArgumentView::Field(f@),
        }
    }
}

/// What a command takes.
pub open spec fn argument_of(c: ApiCommand) -> ArgumentView {
    match c {
        ApiCommand::CreatePlant => ArgumentView::Params,
        ApiCommand::LoadScenario => ArgumentView::Params,
        ApiCommand::StartSimulation => ArgumentView::Params,
        ApiCommand::PauseSimulation => ArgumentView::Nothing,
        ApiCommand::InjectFault => ArgumentView::Params,
        ApiCommand::ClearFault => ArgumentView::Params,
        ApiCommand::SetMode => ArgumentView::Params,
        ApiCommand::SetWeather => ArgumentView::Params,
        ApiCommand::SetSolarOverride => ArgumentView::Params,
        ApiCommand::SetLoadOverride => ArgumentView::Params,
        ApiCommand::SetCtMeter => ArgumentView::Params,
        ApiCommand::SetBatterySoc => ArgumentView::Params,
        ApiCommand::SetBatterySoh => ArgumentView::Params,
        ApiCommand::StartCalibration => ArgumentView::Params,
        ApiCommand::CancelCalibration => ArgumentView::Nothing,
        ApiCommand::SetTickInterval => ArgumentView::Params,
        ApiCommand::GetCurrentState => ArgumentView::Nothing,
        ApiCommand::SavePlant => ArgumentView::Nothing,
        ApiCommand::HasSavedPlant => ArgumentView::Nothing,
        ApiCommand::LoadPlant => ArgumentView::Nothing,
        ApiCommand::ExportRecording => ArgumentView::Params,
        ApiCommand::ExportConfig => ArgumentView::Field("path"@),
        ApiCommand::SetEvcEnabled => ArgumentView::Field("enabled"@),
        ApiCommand::SetEvcChargeControl => ArgumentView::Field("mode"@),
        ApiCommand::SetEvcChargeCurrent => ArgumentView::Field("deciAmps"@),
        ApiCommand::SetEvcSessionEnergy => ArgumentView::Field("kwh"@),
        ApiCommand::SetEvcCableStatus => ArgumentView::Field("status"@),
        ApiCommand::GetEvcState => ArgumentView::Nothing,
        ApiCommand::SetEvcPort => ArgumentView::Field("port"@),
        ApiCommand::GetEvcPort => ArgumentView::Nothing,
        ApiCommand::SetDspFirmware => ArgumentView::Field("version"@),
        ApiCommand::SetArmFirmware => ArgumentView::Field("version"@),
        ApiCommand::SetInverterTemperature => ArgumentView::Field("celsius"@),
    }
}

impl ApiCommand {
    /// What the command takes.
    pub fn argument(self) -> (r: Argument)
        ensures
            r@ == argument_of(self),
    {
        match self {
            ApiCommand::CreatePlant => Argument::Params,
            ApiCommand::LoadScenario => Argument::Params,
            ApiCommand::StartSimulation => Argument::Params,
            ApiCommand::PauseSimulation => Argument::Nothing,
            ApiCommand::InjectFault => Argument::Params,
            ApiCommand::ClearFault => Argument::Params,
            ApiCommand::SetMode => Argument::Params,
            ApiCommand::SetWeather => Argument::Params,
            ApiCommand::SetSolarOverride => Argument::Params,
            ApiCommand::SetLoadOverride => Argument::Params,
            ApiCommand::SetCtMeter => Argument::Params,
            ApiCommand::SetBatterySoc => Argument::Params,
            ApiCommand::SetBatterySoh => Argument::Params,
            ApiCommand::StartCalibration => Argument::Params,
            ApiCommand::CancelCalibration => Argument::Nothing,
            ApiCommand::SetTickInterval => Argument::Params,
            ApiCommand::GetCurrentState => Argument::Nothing,
            ApiCommand::SavePlant => Argument::Nothing,
            ApiCommand::HasSavedPlant => Argument::Nothing,
            ApiCommand::LoadPlant => Argument::Nothing,
            ApiCommand::ExportRecording => Argument::Params,
            ApiCommand::ExportConfig => Argument::Field("path"),
            ApiCommand::SetEvcEnabled => Argument::Field("enabled"),
            ApiCommand::SetEvcChargeControl => Argument::Field("mode"),
            ApiCommand::SetEvcChargeCurrent => Argument::Field("deciAmps"),
            ApiCommand::SetEvcSessionEnergy => Argument::Field("kwh"),
            ApiCommand::SetEvcCableStatus => Argument::Field("status"),
            ApiCommand::GetEvcState => Argument::Nothing,
            ApiCommand::SetEvcPort => Argument::Field("port"),
            ApiCommand::GetEvcPort => Argument::Nothing,
            ApiCommand::SetDspFirmware => Argument::Field("version"),
            ApiCommand::SetArmFirmware => Argument::Field("version"),
            ApiCommand::SetInverterTemperature => Argument::Field("celsius"),
        }
    }
}

/// The command that a request names, or the status and the message of its refusal.
pub fn dispatch(cmd: &str) -> (r: Result<ApiCommand, (u16, String)>)
    ensures
        match named_command(cmd@) {
            Some(c) => r == Ok::<ApiCommand, (u16, String)>(c),
            None => match r {
                Ok(_) => false,
                Err(e) => e.0 == 404 && e.1@ == "unknown command: "@ + cmd@,
            },
        },
{
    match command_named(cmd) {
        Some(c) => Ok(c),
        None => Err((404, joined("unknown command: ", cmd))),
    }
}

/// The refusal of arguments that a command cannot use, with the reason `why`.
pub fn bad_argument(a: Argument, why: &str) -> (r: (u16, String))
    ensures
        r.0 == 400,
        r.1@ == (match a {
            Argument::Field(f) => "invalid `"@ + f@ + "`: "@ + why@,
            _ => "invalid params: "@ + why@,
        }),
{
    match a {
        Argument::Field(f) => {
            let mut m = joined("invalid `", f);
            m.append("`: ");
            m.append(why);
            (400, m)
        },
        _ => (400, joined("invalid params: ", why)),
    }
}

/// The answer to a command: the status 200, or 500 with the message of its failure.
pub fn answer_status<T>(r: &Result<T, String>) -> (s: u16)
    ensures
        s == (if r is Ok {
            200int
        } else {
            500
        }),
{
    match r {
        Ok(_) => 200,
        Err(_) => 500,
    }
}

// ---------------------------------------------------------------------------
// Responses
// ---------------------------------------------------------------------------

/// The reason phrase of a status.
pub open spec fn reason(code: int) -> Seq<char> {
    if code == 204 {
        "No Content"@
    } else if code == 400 {
        "Bad Request"@
    } else if code == 404 {
        "Not Found"@
    } else if code == 500 {
        "Internal Server Error"@
    } else {
        "OK"@
    }
}

/// The reason phrase of a status.
pub fn status_reason(code: u16) -> (r: &'static str)
    ensures
        r@ == reason(code as int),
{
    if code == 204 {
        "No Content"
    } else if code == 400 {
        "Bad Request"
    } else if code == 404 {
        "Not Found"
    } else if code == 500 {
        "Internal Server Error"
    } else {
        "OK"
    }
}

/// The head of a response that any page may read.
pub open spec fn response_head_text(status: u16, content_type: Seq<char>, length: nat) -> Seq<char> {
    "HTTP/1.1 "@ + text::decimal(status as nat) + " "@ + reason(status as int)
        + "\r\nContent-Type: "@ + content_type + "\r\nContent-Length: "@ + text::decimal(length)
        + "\r\nCache-Control: no-store\r\nAccess-Control-Allow-Origin: *\r\nAccess-Control-Allow-Methods: GET, POST, OPTIONS\r\nAccess-Control-Allow-Headers: Content-Type\r\nConnection: close\r\n\r\n"@
}

/// The head of a response with a body of `length` bytes.
pub fn response_head(status: u16, content_type: &str, length: usize) -> (r: String)
    ensures
        r@ == response_head_text(status, content_type@, length as nat),
{
    let mut s = "HTTP/1.1 ".to_owned();
    append_decimal(&mut s, status as u64);
    s.append(" ");
    s.append(status_reason(status));
    s.append("\r\nContent-Type: ");
    s.append(content_type);
    s.append("\r\nContent-Length: ");
    append_decimal(&mut s, length as u64);
    s.append("\r\nCache-Control: no-store\r\nAccess-Control-Allow-Origin: *\r\nAccess-Control-Allow-Methods: GET, POST, OPTIONS\r\nAccess-Control-Allow-Headers: Content-Type\r\nConnection: close\r\n\r\n");
    s
}

/// The head of a download.
pub open spec fn attachment_head_text(
    content_type: Seq<char>,
    filename: Seq<char>,
    length: nat,
) -> Seq<char> {
    "HTTP/1.1 200 OK\r\nContent-Type: "@ + content_type + "\r\nContent-Length: "@
        + text::decimal(length) + "\r\nContent-Disposition: attachment; filename=\""@ + filename
        + "\"\r\nCache-Control: no-store\r\nConnection: close\r\n\r\n"@
}

/// The head of a download of `length` bytes.
pub fn attachment_head(content_type: &str, filename: &str, length: usize) -> (r: String)
    ensures
        r@ == attachment_head_text(content_type@, filename@, length as nat),
{
    let mut s = "HTTP/1.1 200 OK\r\nContent-Type: ".to_owned();
    s.append(content_type);
    s.append("\r\nContent-Length: ");
    append_decimal(&mut s, length as u64);
    s.append("\r\nContent-Disposition: attachment; filename=\"");
    s.append(filename);
    s.append("\"\r\nCache-Control: no-store\r\nConnection: close\r\n\r\n");
    s
}

/// A hexadecimal digit, in small letters.
pub open spec fn small_hex_digit(d: int) -> char {
    if d < 10 {
        (48 + d) as char
    } else {
        (87 + d) as char
    }
}

/// A character as it stands in a JSON string.
pub open spec fn json_char(c: char) -> Seq<char> {
    let n = c as int;
    if c == '"' {
        "\\\""@
    } else if c == '\\' {
        "\\\\"@
    } else if n == 8 {
        "\\b"@
    } else if n == 9 {
        "\\t"@
    } else if n == 10 {
        "\\n"@
    } else if n == 12 {
        "\\f"@
    } else if n == 13 {
        "\\r"@
    } else if n < 32 {
        "\\u00"@ + seq![small_hex_digit(n / 16), small_hex_digit(n % 16)]
    } else {
        seq![c]
    }
}

/// The characters of a string as they stand in JSON.
pub open spec fn json_chars(s: Seq<char>) -> Seq<char>
    decreases s.len(),
{
    if s.len() == 0 {
        Seq::empty()
    } else {
        json_chars(s.drop_last()) + json_char(s.last())
    }
}

/// A JSON object with one member, a string.
pub open spec fn json_member(name: Seq<char>, value: Seq<char>) -> Seq<char> {
    "{\""@ + json_chars(name) + "\":\""@ + json_chars(value) + "\"}"@
}

/// The `Display` of a `serde_json::Value`: an object with one member as compact
/// JSON. Quotes, backslashes and control characters of its strings are escaped.
#[verifier::external_body]
fn json_member_of(name: &str, value: &str) -> (r: String)
    ensures
        r@ == json_member(name@, value@),
{
    let mut members = serde_json::Map::new();
    members.insert(name.to_owned(), serde_json::Value::String(value.to_owned()));
    serde_json::Value::Object(members).to_string()
}

/// The body that reports a failure.
pub fn error_payload(message: &str) -> (r: String)
    ensures
        r@ == json_member("error"@, message@),
{
    json_member_of("error", message)
}

/// The file extension of a download format; an unknown format is served as CSV.
pub open spec fn extension(format: Seq<char>) -> Seq<char> {
    if format == "jsonl"@ || format == "json"@ {
        format
    } else {
        "csv"@
    }
}

/// The file extension of a download format.
pub fn export_extension(format: &str) -> (r: &'static str)
    ensures
        r@ == extension(format@),
{
    if same(format, "jsonl") {
        "jsonl"
    } else if same(format, "json") {
        "json"
    } else {
        "csv"
    }
}

/// The file name of a download of the recording.
pub fn export_filename(format: &str) -> (r: String)
    ensures
        r@ == "recording."@ + extension(format@),
{
    joined("recording.", export_extension(format))
}

// ---------------------------------------------------------------------------
// Events
// ---------------------------------------------------------------------------

/// What happens while a browser listens.
#[derive(Clone, Debug)]
pub enum StreamEvent {
    /// A message for all browsers.
    Message(String),
    /// Messages were lost because the browser was slow.
    Lagged,
    /// No more messages will come.
    Closed,
    /// Nothing happened for a while.
    Idle,
}

/// What to do about it.
#[derive(Clone, Debug)]
pub enum StreamAction {
    Send(String),
    Wait,
    Stop,
}

/// The head of the event stream.
pub fn stream_head() -> (r: &'static str)
    ensures
        r@ == "HTTP/1.1 200 OK\r\nContent-Type: text/event-stream\r\nCache-Control: no-store\r\nConnection: keep-alive\r\nAccess-Control-Allow-Origin: *\r\n\r\n"@,
{
    "HTTP/1.1 200 OK\r\nContent-Type: text/event-stream\r\nCache-Control: no-store\r\nConnection: keep-alive\r\nAccess-Control-Allow-Origin: *\r\n\r\n"
}

/// What to do while a browser listens: pass messages on as frames, send a comment
/// when idle, and stop at the end. Lost messages are passed over.
pub fn stream_step(e: &StreamEvent) -> (r: StreamAction)
    ensures
        match e {
            StreamEvent::Message(m) => r matches StreamAction::Send(s) && s@ == "data: "@ + m@
                + "\n\n"@,
            StreamEvent::Idle => r matches StreamAction::Send(s) && s@ == ": keepalive\n\n"@,
            StreamEvent::Lagged => r is Wait,
            StreamEvent::Closed => r is Stop,
        },
{
    match e {
        StreamEvent::Message(m) => {
            let mut s = joined("data: ", m.as_str());
            s.append("\n\n");
            StreamAction::Send(s)
        },
        StreamEvent::Idle => StreamAction::Send(": keepalive\n\n".to_owned()),
        StreamEvent::Lagged => StreamAction::Wait,
        StreamEvent::Closed => StreamAction::Stop,
    }
}

/// The port of the page unless another is asked for.
pub const DEFAULT_WEB_PORT: u16 = 8001;

/// The port of the page: the one that `setting` names, where it names one.
pub fn web_port(setting: Option<&str>) -> (r: u16)
    ensures
        r == (match setting {
            Some(s) => match parsed_number(s@, 65535) {
                Some(n) => if n > 0 {
                    n
                } else {
                    DEFAULT_WEB_PORT as int
                },
                None => DEFAULT_WEB_PORT as int,
            },
            None => DEFAULT_WEB_PORT as int,
        }),
{
    match setting {
        Some(s) => match parse_number(s, 65535) {
            Some(n) => if n > 0 {
                n as u16
            } else {
                DEFAULT_WEB_PORT
            },
            None => DEFAULT_WEB_PORT,
        },
        None => DEFAULT_WEB_PORT,
    }
}

/// Name of a temporary file that no other request uses: by process, time and kind.
pub fn temp_name(pid: u32, nanos: u64, extension: &str) -> (r: String)
    ensures
        r@ == "givsim-"@ + text::decimal(pid as nat) + "-"@ + text::decimal(nanos as nat) + "."@
            + extension@,
{
    let mut s = "givsim-".to_owned();
    append_decimal(&mut s, pid as u64);
    s.append("-");
    append_decimal(&mut s, nanos);
    s.append(".");
    s.append(extension);
    s
}

} // verus!
