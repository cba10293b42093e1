//! String helpers over `Seq<char>` models: building strings, the first
//! line of a text, substring replacement and decimal parsing.

use vstd::prelude::*;
use vstd::string::StringExecFns;
use vstd::utf8::{decode_utf8, encode_utf8, is_char_boundary};

verus! {

/// Appends one character to a `String`.
/// Trusted: `String::push`, which appends the given char to the end of the string.
#[verifier::external_body]
pub fn push_char(s: &mut String, c: char)
    ensures
        final(s)@ == old(s)@.push(c),
{
    s.push(c);
}

/// The characters of `s`, in order.
pub fn chars_of(s: &str) -> (r: Vec<char>)
    ensures
        r@ == s@,
{
    let mut r: Vec<char> = Vec::new();
    for c in it: s.chars()
        invariant
            r@ == it.seq().take(it.index() as int),
            it.seq() == s@,
    {
        r.push(c);
    }
    r
}

/// A `String` holding the characters of `s[from..to]`.
pub fn string_of(s: &Vec<char>, from: usize, to: usize) -> (r: String)
    requires
        from <= to <= s@.len(),
    ensures
        r@ == s@.subrange(from as int, to as int),
{
    let mut r = String::new();
    let mut i: usize = from;
    while i < to
        invariant
            from <= i <= to <= s@.len(),
            r@ == s@.subrange(from as int, i as int),
        decreases to - i,
    {
        push_char(&mut r, s[i]);
        i = i + 1;
    }
    r
}

/// `a` followed by `b`.
pub fn cat2(a: &str, b: &str) -> (r: String)
    ensures
        r@ == a@ + b@,
{
    let mut r = String::from_str(a);
    r.append(b);
    r
}

/// `a`, `b` and `c` one after the other.
pub fn cat3(a: &str, b: &str, c: &str) -> (r: String)
    ensures
        r@ == a@ + b@ + c@,
{
    let mut r = String::from_str(a);
    r.append(b);
    r.append(c);
    r
}

/// `a`, `b`, `c` and `d` one after the other.
pub fn cat4(a: &str, b: &str, c: &str, d: &str) -> (r: String)
    ensures
        r@ == a@ + b@ + c@ + d@,
{
    let mut r = String::from_str(a);
    r.append(b);
    r.append(c);
    r.append(d);
    r
}

/// The first line of a text as `str::lines` yields it: `None` for the empty
/// text; otherwise everything before the first `'\n'` (or the whole text
/// when there is none), without one `'\r'` just before that `'\n'`.
pub open spec fn first_line(s: Seq<char>) -> Option<Seq<char>> {
    if s.len() == 0 {
        None
    } else if exists|i: int| 0 <= i < s.len() && s[i] == '\n' {
        let n = choose|i: int| 0 <= i < s.len() && s[i] == '\n' && forall|j: int| 0 <= j < i ==> s[j] != '\n';
        if n > 0 && s[n - 1] == '\r' {
            Some(s.take(n - 1))
        } else {
            Some(s.take(n))
        }
    } else {
        Some(s)
    }
}

/// Computes `first_line(s@)`.
pub fn first_line_of(s: &str) -> (r: Option<String>)
    ensures
        r matches Some(l) ==> first_line(s@) == Some(l@),
        r is None <==> first_line(s@) is None,
{
    let v = chars_of(s);
    if v.len() == 0 {
        return None;
    }
    let mut i: usize = 0;
    while i < v.len()
        invariant_except_break
            i <= v@.len(),
            forall|j: int| 0 <= j < i ==> v@[j] != '\n',
        ensures
            i <= v@.len(),
            forall|j: int| 0 <= j < i ==> v@[j] != '\n',
            i < v@.len() ==> v@[i as int] == '\n',
        decreases v.len() - i,
    {
        if v[i] == '\n' {
            break;
        }
        i = i + 1;
    }
    if i == v.len() {
        assert(!exists|k: int| 0 <= k < v@.len() && v@[k] == '\n');
        assert(v@.subrange(0, i as int) == v@);
        Some(string_of(&v, 0, i))
    } else {
        assert(forall|j: int| 0 <= j < i ==> v@[j] != '\n');
        let ghost n = choose|k: int| 0 <= k < v@.len() && v@[k] == '\n' && forall|j: int| 0 <= j < k ==> v@[j] != '\n';
        assert(n == i) by {
            if n < i {
                assert(v@[n] != '\n');
            } else if n > i {
                assert(v@[i as int] != '\n');
            }
        }
        if i > 0 && v[i - 1] == '\r' {
            Some(string_of(&v, 0, i - 1))
        } else {
            Some(string_of(&v, 0, i))
        }
    }
}

/// `s` with every occurrence of `pat` replaced by `rep`, searching from the
/// left and skipping over each replaced occurrence, as `str::replace` does.
/// With an empty `pat`, `rep` is put before every character and at the end.
pub open spec fn replace_all(s: Seq<char>, pat: Seq<char>, rep: Seq<char>) -> Seq<char>
    decreases s.len(),
{
    if pat.len() == 0 {
        if s.len() == 0 {
            rep
        } else {
            rep + seq![s[0]] + replace_all(s.skip(1), pat, rep)
        }
    } else if s.len() < pat.len() {
        s
    } else if s.take(pat.len() as int) == pat {
        rep + replace_all(s.skip(pat.len() as int), pat, rep)
    } else {
        seq![s[0]] + replace_all(s.skip(1), pat, rep)
    }
}

/// Replacing the empty pattern by the empty text changes nothing.
pub proof fn lemma_replace_empty_by_empty(s: Seq<char>)
    ensures
        replace_all(s, Seq::empty(), Seq::empty()) == s,
    decreases s.len(),
{
    if s.len() > 0 {
        lemma_replace_empty_by_empty(s.skip(1));
        assert(seq![s[0]] + s.skip(1) == s);
    }
}

/// Whether `v` holds `pat` at position `i`.
fn matches_at(v: &Vec<char>, i: usize, pat: &Vec<char>) -> (r: bool)
    requires
        i <= v@.len(),
    ensures
        r == (i + pat@.len() <= v@.len() && v@.subrange(i as int, i + pat@.len()) == pat@),
{
    if pat.len() > v.len() - i {
        return false;
    }
    let mut k: usize = 0;
    while k < pat.len()
        invariant
            k <= pat@.len(),
            i <= v@.len(),
            v@.len() <= usize::MAX,
            i + pat@.len() <= v@.len(),
            forall|j: int| 0 <= j < k ==> v@[i + j] == pat@[j],
        decreases pat.len() - k,
    {
        if v[i + k] != pat[k] {
            assert(v@.subrange(i as int, i + pat@.len())[k as int] != pat@[k as int]);
            return false;
        }
        k = k + 1;
    }
    assert(v@.subrange(i as int, i + pat@.len()) =~= pat@);
    true
}

proof fn lemma_replace_step_match(s: Seq<char>, i: int, pat: Seq<char>, rep: Seq<char>)
    requires
        pat.len() > 0,
        0 <= i,
        i + pat.len() <= s.len(),
        s.subrange(i, i + pat.len()) == pat,
    ensures
        replace_all(s.skip(i), pat, rep) == rep + replace_all(s.skip(i + pat.len()), pat, rep),
{
    assert(s.skip(i).take(pat.len() as int) =~= s.subrange(i, i + pat.len()));
    assert(s.skip(i).skip(pat.len() as int) =~= s.skip(i + pat.len()));
}

proof fn lemma_replace_step_char(s: Seq<char>, i: int, pat: Seq<char>, rep: Seq<char>)
    requires
        pat.len() > 0,
        0 <= i < s.len(),
        !(i + pat.len() <= s.len() && s.subrange(i, i + pat.len()) == pat),
    ensures
        replace_all(s.skip(i), pat, rep) == seq![s[i]] + replace_all(s.skip(i + 1), pat, rep),
{
    assert(s.skip(i).skip(1) =~= s.skip(i + 1));
    if s.skip(i).len() >= pat.len() {
        assert(s.skip(i).take(pat.len() as int) =~= s.subrange(i, i + pat.len()));
    } else {
        // too short to hold `pat`: the rest is copied unchanged
        lemma_replace_short(s.skip(i), pat, rep);
        lemma_replace_short(s.skip(i + 1), pat, rep);
        assert(s.skip(i) =~= seq![s[i]] + s.skip(i + 1));
    }
}

proof fn lemma_replace_short(s: Seq<char>, pat: Seq<char>, rep: Seq<char>)
    requires
        pat.len() > 0,
        s.len() < pat.len(),
    ensures
        replace_all(s, pat, rep) == s,
{
}

/// `s` with every occurrence of `pat` replaced by `rep` (`str::replace`).
pub fn replace(s: &str, pat: &str, rep: &str) -> (r: String)
    ensures
        r@ == replace_all(s@, pat@, rep@),
{
    let v = chars_of(s);
    let p = chars_of(pat);
    let w = chars_of(rep);
    if p.len() == 0 {
        let mut r = String::new();
        let mut i: usize = 0;
        assert(v@.skip(0) =~= v@);
        while i < v.len()
            invariant
                i <= v@.len(),
                p@.len() == 0,
                w@ == rep@,
                r@ + replace_all(v@.skip(i as int), p@, w@) == replace_all(v@, p@, w@),
            decreases v.len() - i,
        {
            let ghost r0 = r@;
            r.append(rep);
            push_char(&mut r, v[i]);
            proof {
                assert(v@.skip(i as int).skip(1) =~= v@.skip(i + 1));
                assert(v@.skip(i as int)[0] == v@[i as int]);
                assert(r@ =~= r0 + w@ + seq![v@[i as int]]);
                assert(r0 + (w@ + seq![v@[i as int]] + replace_all(v@.skip(i + 1), p@, w@))
                    =~= r@ + replace_all(v@.skip(i + 1), p@, w@));
            }
            i = i + 1;
        }
        r.append(rep);
        proof {
            assert(v@.skip(i as int) =~= Seq::<char>::empty());
        }
        return r;
    }
    let mut r = String::new();
    let mut i: usize = 0;
    assert(v@.skip(0) =~= v@);
    while i < v.len()
        invariant
            i <= v@.len(),
            p@.len() > 0,
            p@ == pat@,
            w@ == rep@,
            r@ + replace_all(v@.skip(i as int), p@, w@) == replace_all(v@, p@, w@),
        decreases v.len() - i,
    {
        if matches_at(&v, i, &p) {
            proof {
                lemma_replace_step_match(v@, i as int, p@, w@);
            }
            r.append(rep);
            assert(r@ + replace_all(v@.skip(i + p@.len()), p@, w@) =~= replace_all(v@, p@, w@));
            i = i + p.len();
        } else {
            proof {
                lemma_replace_step_char(v@, i as int, p@, w@);
            }
            push_char(&mut r, v[i]);
            assert(r@ + replace_all(v@.skip(i + 1), p@, w@) =~= replace_all(v@, p@, w@));
            i = i + 1;
        }
    }
    assert(v@.skip(i as int) =~= Seq::<char>::empty());
    r
}

/// The length in bytes of a text's UTF-8 encoding, as `str::len` gives it.
pub open spec fn byte_len(s: Seq<char>) -> int {
    (encode_utf8(s).len() as usize) as int
}

/// Whether `String::truncate(n)` accepts `s`: it panics when `n` falls
/// inside the encoding of a character.
pub open spec fn truncate_ok(s: Seq<char>, n: int) -> bool {
    byte_len(s) <= n || is_char_boundary(encode_utf8(s), n)
}

/// `s` cut to its first `n` bytes, as `String::truncate(n)` leaves it.
pub open spec fn truncated(s: Seq<char>, n: int) -> Seq<char> {
    if byte_len(s) <= n {
        s
    } else {
        decode_utf8(encode_utf8(s).take(n))
    }
}

/// `String::truncate`: keeps the first `n` bytes of `s`.
pub fn truncate_bytes(s: String, n: usize) -> (r: String)
    requires
        truncate_ok(s@, n as int),
    ensures
        r@ == truncated(s@, n as int),
{
    let t = s.as_str();
    if t.len() <= n {
        return s;
    }
    let (a, _b) = t.split_at(n);
    proof {
        vstd::utf8::encode_utf8_decode_utf8(a@);
        assert(encode_utf8(s@).subrange(0, n as int) =~= encode_utf8(s@).take(n as int));
    }
    a.to_owned()
}

/// Why a decimal text is not a `usize` (`std::num::IntErrorKind`).
#[derive(Clone, Copy, Debug, PartialEq, Eq)]
pub enum IntErrorKind {
    Empty,
    InvalidDigit,
    PosOverflow,
}

impl IntErrorKind {
    /// The text of the matching `ParseIntError`.
    pub fn description(&self) -> (r: &'static str)
        ensures
            r@ == self.spec_description(),
    {
        match self {
            IntErrorKind::Empty => "cannot parse integer from empty string",
            IntErrorKind::InvalidDigit => "invalid digit found in string",
            IntErrorKind::PosOverflow => "number too large to fit in target type",
        }
    }

    pub open spec fn spec_description(&self) -> Seq<char> {
        match self {
            IntErrorKind::Empty => "cannot parse integer from empty string"@,
            IntErrorKind::InvalidDigit => "invalid digit found in string"@,
            IntErrorKind::PosOverflow => "number too large to fit in target type"@,
        }
    }
}

pub open spec fn is_digit(c: char) -> bool {
    '0' <= c && c <= '9'
}

pub open spec fn digit_value(c: char) -> int {
    c as int - '0' as int
}

/// Reads the digits of `s` after the value `acc` read so far, left to right:
/// the first character that is no digit is an error, unless the value has
/// gone past `usize::MAX` before it.
pub open spec fn parse_digits(s: Seq<char>, acc: int) -> Result<int, IntErrorKind>
    decreases s.len(),
{
    if s.len() == 0 {
        Ok(acc)
    } else if !is_digit(s[0]) {
        Err(IntErrorKind::InvalidDigit)
    } else if acc * 10 + digit_value(s[0]) > usize::MAX {
        Err(IntErrorKind::PosOverflow)
    } else {
        parse_digits(s.skip(1), acc * 10 + digit_value(s[0]))
    }
}

/// `str::parse::<usize>`: an optional `+`, then at least one decimal digit.
pub open spec fn parse_usize_spec(s: Seq<char>) -> Result<int, IntErrorKind> {
    if s.len() == 0 {
        Err(IntErrorKind::Empty)
    } else if (s[0] == '+' || s[0] == '-') && s.len() == 1 {
        Err(IntErrorKind::InvalidDigit)
    } else if s[0] == '+' {
        parse_digits(s.skip(1), 0)
    } else {
        parse_digits(s, 0)
    }
}

proof fn lemma_parse_digits_bound(s: Seq<char>, acc: int)
    requires
        0 <= acc <= usize::MAX,
    ensures
        parse_digits(s, acc) matches Ok(v) ==> 0 <= v <= usize::MAX,
    decreases s.len(),
{
    if s.len() > 0 && is_digit(s[0]) && acc * 10 + digit_value(s[0]) <= usize::MAX {
        lemma_parse_digits_bound(s.skip(1), acc * 10 + digit_value(s[0]));
    }
}

/// A parsed value is a `usize`.
pub proof fn lemma_parse_usize_range(s: Seq<char>)
    ensures
        parse_usize_spec(s) matches Ok(v) ==> 0 <= v <= usize::MAX,
{
    lemma_parse_digits_bound(s, 0);
    if s.len() > 0 {
        lemma_parse_digits_bound(s.skip(1), 0);
    }
}

/// Parses a decimal `usize` as `str::parse::<usize>` does.
pub fn parse_usize(s: &str) -> (r: Result<usize, IntErrorKind>)
    ensures
        match r {
            Ok(v) => parse_usize_spec(s@) == Ok::<int, IntErrorKind>(v as int),
            Err(e) => parse_usize_spec(s@) == Err::<int, IntErrorKind>(e),
        },
{
    let v = chars_of(s);
    if v.len() == 0 {
        return Err(IntErrorKind::Empty);
    }
    if (v[0] == '+' || v[0] == '-') && v.len() == 1 {
        return Err(IntErrorKind::InvalidDigit);
    }
    let mut i: usize = if v[0] == '+' { 1 } else { 0 };
    let ghost start = i as int;
    let mut acc: usize = 0;
    assert(v@.skip(0) =~= v@);
    while i < v.len()
        invariant
            start <= i <= v@.len(),
            v@ == s@,
            parse_usize_spec(s@) == parse_digits(v@.skip(i as int), acc as int),
        decreases v.len() - i,
    {
        let c = v[i];
        assert(v@.skip(i as int)[0] == c);
        assert(v@.skip(i as int).skip(1) =~= v@.skip(i + 1));
        if !(c >= '0' && c <= '9') {
            return Err(IntErrorKind::InvalidDigit);
        }
        let d: usize = ((c as u32) - ('0' as u32)) as usize;
        match acc.checked_mul(10) {
            None => {
                return Err(IntErrorKind::PosOverflow);
            },
            Some(m) => match m.checked_add(d) {
                None => {
                    return Err(IntErrorKind::PosOverflow);
                },
                Some(n) => {
                    acc = n;
                },
            },
        }
        i = i + 1;
    }
    assert(v@.skip(i as int) =~= Seq::<char>::empty());
    Ok(acc)
}

} // verus!
