//! Text utilities with exact specifications: ASCII case folding, Unicode
//! whitespace trimming, decimal rendering and decimal parsing.

use vstd::prelude::*;
use vstd::string::*;

verus! {

// ------------------------------------------------------------------
// Characters
// ------------------------------------------------------------------

/// ASCII lowercase of one character (non-ASCII-uppercase characters unchanged).
pub open spec fn lower_ascii_char(c: char) -> char {
    if 'A' <= c && c <= 'Z' {
        ((c as u32) + 32) as char
    } else {
        c
    }
}

/// ASCII lowercase of a whole character sequence.
pub open spec fn lower_ascii(s: Seq<char>) -> Seq<char> {
    s.map_values(|c: char| lower_ascii_char(c))
}

/// The Unicode `White_Space` property, as used by `char::is_whitespace`.
pub open spec fn is_unicode_whitespace(c: char) -> bool {
    let u = c as u32;
    ||| (0x09 <= u && u <= 0x0D)
    ||| u == 0x20
    ||| u == 0x85
    ||| u == 0xA0
    ||| u == 0x1680
    ||| (0x2000 <= u && u <= 0x200A)
    ||| u == 0x2028
    ||| u == 0x2029
    ||| u == 0x202F
    ||| u == 0x205F
    ||| u == 0x3000
}

/// Number of leading whitespace characters of `s`.
pub open spec fn leading_ws(s: Seq<char>) -> nat
    decreases s.len(),
{
    if s.len() > 0 && is_unicode_whitespace(s[0]) {
        1 + leading_ws(s.drop_first())
    } else {
        0
    }
}

/// Number of trailing whitespace characters of `s`.
pub open spec fn trailing_ws(s: Seq<char>) -> nat
    decreases s.len(),
{
    if s.len() > 0 && is_unicode_whitespace(s.last()) {
        1 + trailing_ws(s.drop_last())
    } else {
        0
    }
}

/// `s` without leading and trailing Unicode whitespace.
pub open spec fn trim_spec(s: Seq<char>) -> Seq<char> {
    let t = s.skip(leading_ws(s) as int);
    t.take(t.len() - trailing_ws(t))
}

pub proof fn lemma_leading_ws_bound(s: Seq<char>)
    ensures
        leading_ws(s) <= s.len(),
    decreases s.len(),
{
    if s.len() > 0 && is_unicode_whitespace(s[0]) {
        lemma_leading_ws_bound(s.drop_first());
    }
}

pub proof fn lemma_trailing_ws_bound(s: Seq<char>)
    ensures
        trailing_ws(s) <= s.len(),
    decreases s.len(),
{
    if s.len() > 0 && is_unicode_whitespace(s.last()) {
        lemma_trailing_ws_bound(s.drop_last());
    }
}

/// Appends one character (`String::push`).
#[verifier::external_body]
pub(crate) fn push_char(s: &mut String, c: char)
    ensures
        final(s)@ == old(s)@.push(c),
{
    s.push(c);
}

/// Appends a string slice.
pub fn push_str(s: &mut String, t: &str)
    ensures
        final(s)@ == old(s)@ + t@,
{
    s.append(t);
}

/// The text of an optional string, empty when absent.
pub open spec fn text_or_empty(o: Option<String>) -> Seq<char> {
    match o {
        Some(s) => s@,
        None => seq![],
    }
}

/// The characters of `s`, in order.
pub fn chars_of(s: &str) -> (v: Vec<char>)
    ensures
        v@ == s@,
{
    let mut v: Vec<char> = Vec::new();
    for c in it: s.chars()
        invariant
            it.seq() == s@,
            v@ == s@.take(it.index() as int),
    {
        proof {
            assert(s@.take(it.index() as int + 1) == s@.take(it.index() as int).push(c));
        }
        v.push(c);
    }
    proof {
        assert(s@.take(s@.len() as int) == s@);
    }
    v
}

/// Builds a `String` from `v[from..to]`.
pub fn string_from_chars(v: &Vec<char>, from: usize, to: usize) -> (r: String)
    requires
        from <= to <= v.len(),
    ensures
        r@ == v@.subrange(from as int, to as int),
{
    let mut r = String::new();
    let mut i = from;
    while i < to
        invariant
            from <= i <= to <= v.len(),
            r@ == v@.subrange(from as int, i as int),
        decreases to - i,
    {
        push_char(&mut r, v[i]);
        proof {
            assert(v@.subrange(from as int, i + 1) == v@.subrange(from as int, i as int).push(v@[i as int]));
        }
        i = i + 1;
    }
    r
}

/// An owned copy of a string slice.
pub fn to_owned_string(s: &str) -> (r: String)
    ensures
        r@ == s@,
{
    s.to_owned()
}

/// Exact equality of two string slices.
pub fn str_eq(a: &str, b: &str) -> (r: bool)
    ensures
        r == (a@ == b@),
{
    let x = a.to_owned();
    let y = b.to_owned();
    x == y
}

/// ASCII lowercase copy (`str::to_ascii_lowercase`).
pub fn to_ascii_lowercase(s: &str) -> (r: String)
    ensures
        r@ == lower_ascii(s@),
{
    let mut r = String::new();
    for c in it: s.chars()
        invariant
            it.seq() == s@,
            r@ == lower_ascii(s@.take(it.index() as int)),
    {
        let l = if 'A' <= c && c <= 'Z' {
            ((c as u32) + 32) as u8 as char
        } else {
            c
        };
        proof {
            assert(s@.take(it.index() as int + 1) == s@.take(it.index() as int).push(c));
            assert(lower_ascii(s@.take(it.index() as int + 1)) == lower_ascii(
                s@.take(it.index() as int),
            ).push(lower_ascii_char(c)));
        }
        push_char(&mut r, l);
    }
    proof {
        assert(s@.take(s@.len() as int) == s@);
    }
    r
}

/// Case-insensitive (ASCII) equality (`str::eq_ignore_ascii_case`).
pub fn eq_ignore_ascii_case(a: &str, b: &str) -> (r: bool)
    ensures
        r == (lower_ascii(a@) == lower_ascii(b@)),
{
    let x = to_ascii_lowercase(a);
    let y = to_ascii_lowercase(b);
    x == y
}

/// `str::trim`: removes leading and trailing Unicode whitespace.
pub fn trim(s: &str) -> (r: String)
    ensures
        r@ == trim_spec(s@),
{
    let v = chars_of(s);
    let n = v.len();
    let mut start: usize = 0;
    proof {
        assert(s@.skip(0) == s@);
    }
    while start < n && is_whitespace(v[start])
        invariant
            v@ == s@,
            n == v.len(),
            start <= n,
            leading_ws(s@) == start + leading_ws(s@.skip(start as int)),
        decreases n - start,
    {
        proof {
            assert(s@.skip(start as int).drop_first() == s@.skip(start + 1));
        }
        start = start + 1;
    }
    proof {
        assert(leading_ws(s@.skip(start as int)) == 0);
    }
    let ghost t = s@.skip(start as int);
    let mut end: usize = n;
    proof {
        assert(t.take(end - start) == t);
    }
    while end > start && is_whitespace(v[end - 1])
        invariant
            v@ == s@,
            n == v.len(),
            start <= end <= n,
            t == s@.skip(start as int),
            trailing_ws(t) == (n - end) + trailing_ws(t.take(end - start)),
        decreases end - start,
    {
        proof {
            assert(t.take(end - start).drop_last() == t.take(end - 1 - start));
        }
        end = end - 1;
    }
    proof {
        assert(trailing_ws(t.take(end - start)) == 0);
        assert(t.take(t.len() - trailing_ws(t)) == s@.subrange(start as int, end as int));
    }
    string_from_chars(&v, start, end)
}

/// `char::is_whitespace`.
pub fn is_whitespace(c: char) -> (r: bool)
    ensures
        r == is_unicode_whitespace(c),
{
    let u = c as u32;
    (0x09 <= u && u <= 0x0D) || u == 0x20 || u == 0x85 || u == 0xA0 || u == 0x1680 || (0x2000
        <= u && u <= 0x200A) || u == 0x2028 || u == 0x2029 || u == 0x202F || u == 0x205F || u
        == 0x3000
}

/// Whether a string is empty after trimming whitespace.
pub fn is_blank(s: &str) -> (r: bool)
    ensures
        r == (trim_spec(s@).len() == 0),
{
    let t = trim(s);
    t.as_str().is_empty()
}

// ------------------------------------------------------------------
// Substring search
// ------------------------------------------------------------------

/// `needle` occurs in `hay` at position `i`.
pub open spec fn occurs_at(hay: Seq<char>, needle: Seq<char>, i: int) -> bool {
    0 <= i && i + needle.len() <= hay.len() && hay.subrange(i, i + needle.len()) == needle
}

/// `needle` occurs somewhere in `hay` (`str::contains` with a string pattern).
pub open spec fn contains_seq(hay: Seq<char>, needle: Seq<char>) -> bool {
    exists|i: int| occurs_at(hay, needle, i)
}

/// `str::contains` for a string pattern.
pub fn contains_str(hay: &str, needle: &str) -> (r: bool)
    ensures
        r == contains_seq(hay@, needle@),
{
    let h = chars_of(hay);
    let n = chars_of(needle);
    if n.len() > h.len() {
        proof {
            assert forall|i: int| !occurs_at(hay@, needle@, i) by {}
        }
        return false;
    }
    let mut i: usize = 0;
    while i <= h.len() - n.len()
        invariant
            h@ == hay@,
            n@ == needle@,
            n.len() <= h.len(),
            i <= h.len() - n.len() + 1,
            forall|j: int| 0 <= j < i ==> !occurs_at(hay@, needle@, j),
        decreases h.len() - i,
    {
        let mut k: usize = 0;
        let mut ok = true;
        while k < n.len()
            invariant
                h@ == hay@,
                n@ == needle@,
                i + n.len() <= h.len(),
                k <= n.len(),
                ok == (forall|m: int| 0 <= m < k ==> h@[i + m] == n@[m]),
            decreases n.len() - k,
        {
            if h[i + k] != n[k] {
                ok = false;
            }
            k = k + 1;
        }
        if ok {
            proof {
                assert(hay@.subrange(i as int, i + needle@.len()) =~= needle@);
                assert(occurs_at(hay@, needle@, i as int));
            }
            return true;
        }
        proof {
            assert(!occurs_at(hay@, needle@, i as int)) by {
                if occurs_at(hay@, needle@, i as int) {
                    let m = choose|m: int| 0 <= m < n.len() && h@[i + m] != n@[m];
                    assert(hay@.subrange(i as int, i + needle@.len())[m] == hay@[i + m]);
                }
            }
        }
        i = i + 1;
    }
    proof {
        assert forall|j: int| !occurs_at(hay@, needle@, j) by {
            if j >= i {
                assert(j + needle@.len() > hay@.len());
            }
        }
    }
    false
}

// ------------------------------------------------------------------
// Decimal rendering
// ------------------------------------------------------------------

/// The ASCII digit for `d < 10`.
pub open spec fn digit_char(d: nat) -> char {
    ((48 + d) as u32) as char
}

/// Decimal digits of `n` without leading zeros (`"0"` for zero).
pub open spec fn decimal(n: nat) -> Seq<char>
    decreases n,
{
    if n < 10 {
        seq![digit_char(n)]
    } else {
        decimal(n / 10).push(digit_char(n % 10))
    }
}

/// Decimal rendering of a signed integer (`-` then the digits of its magnitude).
pub open spec fn decimal_int(n: int) -> Seq<char> {
    if n < 0 {
        seq!['-'] + decimal((-n) as nat)
    } else {
        decimal(n as nat)
    }
}

/// `u64::to_string`.
pub fn u64_to_decimal(n: u64) -> (r: String)
    ensures
        r@ == decimal(n as nat),
    decreases n,
{
    let d = (n % 10) as u8;
    let c = (48u8 + d) as char;
    if n < 10 {
        let mut r = String::new();
        push_char(&mut r, c);
        proof {
            assert(r@ =~= seq![digit_char(n as nat)]);
        }
        r
    } else {
        let mut r = u64_to_decimal(n / 10);
        push_char(&mut r, c);
        r
    }
}

/// `i64::to_string`.
pub fn i64_to_decimal(n: i64) -> (r: String)
    ensures
        r@ == decimal_int(n as int),
{
    if n < 0 {
        let mag: u64 = if n == i64::MIN {
            9223372036854775808u64
        } else {
            (-n) as u64
        };
        let digits = u64_to_decimal(mag);
        let mut r = String::new();
        push_char(&mut r, '-');
        push_str(&mut r, digits.as_str());
        proof {
            assert(r@ =~= seq!['-'] + decimal((-(n as int)) as nat));
        }
        r
    } else {
        u64_to_decimal(n as u64)
    }
}

// ------------------------------------------------------------------
// Decimal parsing (`str::parse` for integers)
// ------------------------------------------------------------------

pub open spec fn is_ascii_digit(c: char) -> bool {
    '0' <= c && c <= '9'
}

pub open spec fn all_digits(s: Seq<char>) -> bool {
    forall|i: int| 0 <= i < s.len() ==> is_ascii_digit(#[trigger] s[i])
}

/// Value of a run of ASCII digits.
pub open spec fn digits_value(s: Seq<char>) -> nat
    decreases s.len(),
{
    if s.len() == 0 {
        0
    } else {
        digits_value(s.drop_last()) * 10 + ((s.last() as u32) - 48) as nat
    }
}

/// `str::parse` for an unsigned integer, before the range check: an optional
/// `+` followed by one or more ASCII digits.
pub open spec fn parse_unsigned(s: Seq<char>) -> Option<nat> {
    let body = if s.len() > 0 && s[0] == '+' {
        s.drop_first()
    } else {
        s
    };
    if body.len() > 0 && all_digits(body) {
        Some(digits_value(body))
    } else {
        None
    }
}

/// `str::parse` for a signed integer, before the range check: an optional
/// `+` or `-` followed by one or more ASCII digits.
pub open spec fn parse_signed(s: Seq<char>) -> Option<int> {
    if s.len() > 0 && s[0] == '-' {
        let body = s.drop_first();
        if body.len() > 0 && all_digits(body) {
            Some(-(digits_value(body) as int))
        } else {
            None
        }
    } else {
        match parse_unsigned(s) {
            Some(v) => Some(v as int),
            None => None,
        }
    }
}

/// Parses the digits `v[from..]`, failing when the value exceeds `limit`.
fn parse_digits_upto(v: &Vec<char>, from: usize, limit: u64) -> (r: Option<u64>)
    requires
        from <= v.len(),
    ensures
        match r {
            Some(x) => all_digits(v@.skip(from as int)) && x == digits_value(v@.skip(
                from as int,
            )) && x <= limit,
            None => !all_digits(v@.skip(from as int)) || digits_value(v@.skip(from as int))
                > limit,
        },
{
    let mut acc: u64 = 0;
    let mut i = from;
    while i < v.len()
        invariant
            from <= i <= v.len(),
            all_digits(v@.subrange(from as int, i as int)),
            acc == digits_value(v@.subrange(from as int, i as int)),
            acc <= limit,
        decreases v.len() - i,
    {
        let c = v[i];
        proof {
            assert(v@.subrange(from as int, i + 1).drop_last() == v@.subrange(from as int, i as int));
        }
        if !('0' <= c && c <= '9') {
            proof {
                assert(v@.skip(from as int)[i - from] == c);
            }
            return None;
        }
        let d = (c as u32 - 48) as u64;
        if acc > limit / 10 || (acc == limit / 10 && d > limit % 10) {
            proof {
                assert(v@.skip(from as int).take(i + 1 - from) == v@.subrange(from as int, i + 1));
                lemma_digits_value_prefix_le(v@.skip(from as int), (i + 1 - from) as nat);
                assert(acc * 10 + d > limit) by (nonlinear_arith)
                    requires
                        acc > limit / 10 || (acc == limit / 10 && d > limit % 10),
                ;
            }
            return None;
        }
        proof {
            assert(acc * 10 + d <= limit) by (nonlinear_arith)
                requires
                    acc <= limit / 10,
                    acc == limit / 10 ==> d <= limit % 10,
                    d <= 9,
            ;
        }
        acc = acc * 10 + d;
        i = i + 1;
    }
    proof {
        assert(v@.subrange(from as int, v.len() as int) == v@.skip(from as int));
    }
    Some(acc)
}

/// A prefix of a digit run never has a larger value than the whole run.
pub proof fn lemma_digits_value_prefix_le(s: Seq<char>, k: nat)
    requires
        k <= s.len(),
        all_digits(s.take(k as int)),
    ensures
        all_digits(s) ==> digits_value(s.take(k as int)) <= digits_value(s),
    decreases s.len(),
{
    if k < s.len() && all_digits(s) {
        assert(s.drop_last().take(k as int) == s.take(k as int));
        lemma_digits_value_prefix_le(s.drop_last(), k);
    } else if k == s.len() {
        assert(s.take(k as int) == s);
    }
}

/// `str::parse::<u64>`-style parsing with an upper bound: `Some(x)` exactly
/// when `s` is an optional `+` and digits whose value is at most `limit`.
pub fn parse_unsigned_upto(s: &str, limit: u64) -> (r: Option<u64>)
    ensures
        r == (match parse_unsigned(s@) {
            Some(x) => if x <= limit {
                Some(x as u64)
            } else {
                None::<u64>
            },
            None => None,
        }),
{
    let v = chars_of(s);
    let from: usize = if v.len() > 0 && v[0] == '+' {
        1
    } else {
        0
    };
    proof {
        assert(v@.skip(from as int) == (if s@.len() > 0 && s@[0] == '+' {
            s@.drop_first()
        } else {
            s@
        }));
    }
    if from == v.len() {
        return None;
    }
    parse_digits_upto(&v, from, limit)
}

/// `str::parse::<u8>`.
pub fn parse_u8(s: &str) -> (r: Option<u8>)
    ensures
        r == (match parse_unsigned(s@) {
            Some(x) => if x <= 255 {
                Some(x as u8)
            } else {
                None::<u8>
            },
            None => None,
        }),
{
    match parse_unsigned_upto(s, 255) {
        Some(x) => Some(x as u8),
        None => None,
    }
}

/// `str::parse::<u64>`.
pub fn parse_u64(s: &str) -> (r: Option<u64>)
    ensures
        r == (match parse_unsigned(s@) {
            Some(x) => if x <= u64::MAX {
                Some(x as u64)
            } else {
                None::<u64>
            },
            None => None,
        }),
{
    parse_unsigned_upto(s, u64::MAX)
}

/// `str::parse::<i64>`.
pub fn parse_i64(s: &str) -> (r: Option<i64>)
    ensures
        r == (match parse_signed(s@) {
            Some(x) => if i64::MIN <= x <= i64::MAX {
                Some(x as i64)
            } else {
                None::<i64>
            },
            None => None,
        }),
{
    let v = chars_of(s);
    if v.len() > 0 && v[0] == '-' {
        if v.len() == 1 {
            proof {
                assert(s@.drop_first().len() == 0);
            }
            return None;
        }
        proof {
            assert(v@.skip(1) == s@.drop_first());
        }
        match parse_digits_upto(&v, 1, 9223372036854775808u64) {
            Some(m) => {
                if m == 9223372036854775808u64 {
                    Some(i64::MIN)
                } else {
                    Some(-(m as i64))
                }
            },
            None => None,
        }
    } else {
        match parse_unsigned_upto(s, 9223372036854775807u64) {
            Some(x) => Some(x as i64),
            None => None,
        }
    }
}


// ------------------------------------------------------------------
// UTF-8 widths and byte-bounded truncation
// ------------------------------------------------------------------

/// The number of bytes in the UTF-8 encoding of `c` (`char::len_utf8`).
pub open spec fn utf8_width(c: char) -> nat {
    if (c as u32) < 0x80 {
        1
    } else if (c as u32) < 0x800 {
        2
    } else if (c as u32) < 0x10000 {
        3
    } else {
        4
    }
}

/// The number of bytes in the UTF-8 encoding of `s` (`str::len`).
pub open spec fn utf8_len(s: Seq<char>) -> nat
    decreases s.len(),
{
    if s.len() == 0 {
        0
    } else {
        utf8_width(s[0]) + utf8_len(s.drop_first())
    }
}

/// The characters of `s` whose encoding starts before byte `limit`.
pub open spec fn prefix_below(s: Seq<char>, limit: int) -> Seq<char>
    decreases s.len(),
{
    if s.len() == 0 || limit <= 0 {
        seq![]
    } else {
        seq![s[0]] + prefix_below(s.drop_first(), limit - utf8_width(s[0]))
    }
}

/// `s` unchanged when its encoding has at most `limit` bytes; otherwise the
/// characters that start before byte `limit`, followed by `"..."`.
pub open spec fn truncated_text(s: Seq<char>, limit: nat) -> Seq<char> {
    if utf8_len(s) > limit {
        prefix_below(s, limit as int) + "..."@
    } else {
        s
    }
}

/// `char::len_utf8`.
pub fn char_width(c: char) -> (r: usize)
    ensures
        r == utf8_width(c),
        1 <= r <= 4,
{
    let u = c as u32;
    if u < 0x80 {
        1
    } else if u < 0x800 {
        2
    } else if u < 0x10000 {
        3
    } else {
        4
    }
}

proof fn lemma_skip_step(s: Seq<char>, i: int)
    requires
        0 <= i < s.len(),
    ensures
        s.skip(i).len() > 0,
        s.skip(i)[0] == s[i],
        s.skip(i).drop_first() == s.skip(i + 1),
{
    assert(s.skip(i).drop_first() =~= s.skip(i + 1));
}

/// The UTF-8 length of `s`, capped at `cap`.
pub fn utf8_len_capped(s: &str, cap: usize) -> (r: usize)
    requires
        cap <= usize::MAX - 4,
    ensures
        r == if utf8_len(s@) < cap { utf8_len(s@) } else { cap as nat },
{
    let v = crate::text::chars_of(s);
    let n = v.len();
    let mut i: usize = 0;
    let mut off: usize = 0;
    proof {
        assert(s@.skip(0) == s@);
    }
    while i < n && off < cap
        invariant
            v@ == s@,
            n == v@.len(),
            i <= n,
            off <= cap + 4,
            cap <= usize::MAX - 4,
            utf8_len(s@) == off + utf8_len(s@.skip(i as int)),
        decreases n - i,
    {
        proof {
            lemma_skip_step(s@, i as int);
        }
        let w = char_width(v[i]);
        off = off + w;
        i = i + 1;
    }
    proof {
        if i == n {
            assert(s@.skip(i as int).len() == 0);
        }
    }
    if off < cap {
        off
    } else {
        cap
    }
}

/// The characters of `s` that start before byte `limit`, and whether the
/// UTF-8 encoding of `s` is longer than `limit` bytes.
pub fn prefix_before_byte(s: &str, limit: usize) -> (r: (String, bool))
    requires
        limit <= usize::MAX - 4,
    ensures
        r.0@ == prefix_below(s@, limit as int),
        r.1 == (utf8_len(s@) > limit),
{
    let v = crate::text::chars_of(s);
    let n = v.len();
    let mut i: usize = 0;
    let mut off: usize = 0;
    proof {
        assert(s@.skip(0) == s@);
        assert(s@.take(0) + prefix_below(s@, limit as int) == prefix_below(s@, limit as int));
    }
    while i < n && off < limit
        invariant
            v@ == s@,
            n == v@.len(),
            i <= n,
            off <= limit + 4,
            limit <= usize::MAX - 4,
            utf8_len(s@) == off + utf8_len(s@.skip(i as int)),
            prefix_below(s@, limit as int) == s@.take(i as int) + prefix_below(
                s@.skip(i as int),
                limit - off,
            ),
        decreases n - i,
    {
        proof {
            lemma_skip_step(s@, i as int);
            assert(s@.take(i as int + 1) == s@.take(i as int) + seq![s@[i as int]]);
        }
        let w = char_width(v[i]);
        off = off + w;
        i = i + 1;
    }
    proof {
        if i == n {
            assert(s@.skip(i as int).len() == 0);
        } else {
            lemma_skip_step(s@, i as int);
        }
        assert(prefix_below(s@.skip(i as int), limit - off) == Seq::<char>::empty());
        assert(s@.take(i as int) + Seq::<char>::empty() == s@.take(i as int));
    }
    (crate::text::string_from_chars(&v, 0, i), i < n || off > limit)
}

/// `s` cut to the characters that start before byte `limit`, with `"..."`
/// appended, when its UTF-8 encoding is longer than `limit` bytes.
pub fn truncate_utf8(s: &str, limit: usize) -> (r: String)
    requires
        limit <= usize::MAX - 4,
    ensures
        r@ == truncated_text(s@, limit as nat),
{
    let (prefix, over) = prefix_before_byte(s, limit);
    if over {
        let mut r = prefix;
        push_str(&mut r, "...");
        r
    } else {
        to_owned_string(s)
    }
}


// ------------------------------------------------------------------
// Unicode lowercase
// ------------------------------------------------------------------

/// The full Unicode lowercase mapping of a string, as `str::to_lowercase`
/// computes it.
pub uninterp spec fn unicode_lowercase(s: Seq<char>) -> Seq<char>;

/// Every character of `s` is ASCII.
pub open spec fn is_ascii_text(s: Seq<char>) -> bool {
    forall|i: int| 0 <= i < s.len() ==> (#[trigger] s[i] as u32) < 128
}

/// `str::to_lowercase`. The result is named by `unicode_lowercase`: a function
/// of the characters of `s` alone (the Unicode lowercase mapping). Of that
/// mapping only its ASCII part is stated: on ASCII text it maps `A`..`Z` to
/// `a`..`z` and keeps every other character, as std documents; what it does
/// to other characters is left unsaid.
#[verifier::external_body]
pub(crate) fn to_lowercase(s: &str) -> (r: String)
    ensures
        r@ == unicode_lowercase(s@),
        is_ascii_text(s@) ==> r@ == lower_ascii(s@),
{
    s.to_lowercase()
}


// ------------------------------------------------------------------
// Prefixes
// ------------------------------------------------------------------

/// `s` begins with `prefix`.
pub open spec fn has_prefix(s: Seq<char>, prefix: Seq<char>) -> bool {
    prefix.len() <= s.len() && s.take(prefix.len() as int) == prefix
}

/// `str::starts_with` for a string pattern.
pub fn starts_with(s: &str, prefix: &str) -> (r: bool)
    ensures
        r == has_prefix(s@, prefix@),
{
    let v = chars_of(s);
    let p = chars_of(prefix);
    if p.len() > v.len() {
        return false;
    }
    let mut i: usize = 0;
    while i < p.len()
        invariant
            i <= p.len() <= v.len(),
            v@ == s@,
            p@ == prefix@,
            forall|k: int| 0 <= k < i ==> v@[k] == p@[k],
        decreases p.len() - i,
    {
        if v[i] != p[i] {
            proof {
                assert(s@.take(prefix@.len() as int)[i as int] != prefix@[i as int]);
            }
            return false;
        }
        i = i + 1;
    }
    proof {
        assert(s@.take(prefix@.len() as int) =~= prefix@);
    }
    true
}


// ------------------------------------------------------------------
// Laws
// ------------------------------------------------------------------

proof fn lemma_decimal_digits(n: nat)
    ensures
        decimal(n).len() > 0,
        all_digits(decimal(n)),
        digits_value(decimal(n)) == n,
    decreases n,
{
    if n < 10 {
        let d = decimal(n);
        assert(d == seq![digit_char(n)]);
        assert(d.drop_last() =~= Seq::<char>::empty());
        assert((digit_char(n) as u32) == 48 + n);
        assert(d.last() == digit_char(n));
        assert(digits_value(d.drop_last()) == 0);
    } else {
        lemma_decimal_digits(n / 10);
        let d = decimal(n);
        let c = digit_char(n % 10);
        assert(d == decimal(n / 10).push(c));
        assert(d.drop_last() == decimal(n / 10));
        assert((c as u32) == 48 + n % 10);
        assert(d.last() == c);
        assert(digits_value(d) == digits_value(decimal(n / 10)) * 10 + ((c as u32) - 48) as nat);
        assert(n == (n / 10) * 10 + n % 10);
        assert forall|i: int| 0 <= i < d.len() implies is_ascii_digit(#[trigger] d[i]) by {
            if i < d.len() - 1 {
                assert(d[i] == decimal(n / 10)[i]);
            }
        }
    }
}

/// Rendering a number in decimal and parsing it back gives the number
/// (`u64::to_string` then `str::parse`).
pub proof fn lemma_decimal_roundtrip(n: nat)
    ensures
        parse_unsigned(decimal(n)) == Some(n),
{
    lemma_decimal_digits(n);
    assert(is_ascii_digit(decimal(n)[0]));
}

/// `s` has no whitespace at either end, so trimming keeps it.
pub proof fn lemma_trim_keeps(s: Seq<char>)
    requires
        s.len() > 0,
        !is_unicode_whitespace(s[0]),
        !is_unicode_whitespace(s.last()),
    ensures
        trim_spec(s) == s,
{
    assert(leading_ws(s) == 0);
    assert(s.skip(0) == s);
    assert(trailing_ws(s) == 0);
    assert(s.take(s.len() as int) == s);
}


/// Cutting to the characters that start before byte `limit` keeps a prefix
/// of whole characters whose encoding ends less than four bytes past the
/// limit; a text no longer than the limit is kept whole.
pub proof fn lemma_prefix_below(s: Seq<char>, limit: int)
    ensures
        prefix_below(s, limit).len() <= s.len(),
        s.take(prefix_below(s, limit).len() as int) == prefix_below(s, limit),
        limit > 0 ==> utf8_len(prefix_below(s, limit)) < limit + 4,
        utf8_len(s) <= limit ==> prefix_below(s, limit) == s,
    decreases s.len(),
{
    if s.len() == 0 || limit <= 0 {
        assert(s.take(0) =~= Seq::<char>::empty());
        if s.len() > 0 {
            assert(utf8_len(s) >= utf8_width(s[0]));
        }
    } else {
        let w = utf8_width(s[0]) as int;
        let rest = s.drop_first();
        lemma_prefix_below(rest, limit - w);
        let p = prefix_below(s, limit);
        let q = prefix_below(rest, limit - w);
        assert(p == seq![s[0]] + q);
        assert(p.drop_first() == q);
        assert(utf8_len(p) == w + utf8_len(q));
        assert(s.take(p.len() as int) =~= seq![s[0]] + rest.take(q.len() as int));
        if limit - w <= 0 {
            assert(q.len() == 0);
        }
        if utf8_len(s) <= limit {
            assert(utf8_len(rest) <= limit - w);
            assert(seq![s[0]] + rest =~= s);
        }
    }
}

} // verus!
