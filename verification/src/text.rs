//! Character-level text helpers shared by the screens: conversions between
//! strings and character vectors, equality, decimal formatting and parsing,
//! substring search and replacement, and whitespace trimming.

use vstd::prelude::*;

verus! {

/// Appends one character to a string (`String::push`).
///
/// Claims that the string afterwards is the string before with `c` added at
/// its end.
#[verifier::external_body]
pub(crate) fn push_char(s: &mut String, c: char)
    ensures
        final(s)@ == old(s)@.push(c),
{
    s.push(c);
}

/// The characters of a string, in order.
pub fn chars_of(s: &str) -> (v: Vec<char>)
    ensures
        v@ == s@,
{
    let mut v: Vec<char> = Vec::new();
    for c in it: s.chars()
        invariant
            v@ == it.history(),
    {
        v.push(c);
    }
    proof {
        broadcast use vstd::string::group_string_axioms;
        assert(v@ =~= s@);
    }
    v
}

/// Appends a sequence of characters to a string.
pub fn push_chars(s: &mut String, cs: &Vec<char>)
    ensures
        final(s)@ == old(s)@ + cs@,
{
    let ghost start = s@;
    let mut i: usize = 0;
    while i < cs.len()
        invariant
            i <= cs.len(),
            s@ == start + cs@.subrange(0, i as int),
        decreases cs.len() - i,
    {
        push_char(s, cs[i]);
        i = i + 1;
        assert(s@ =~= start + cs@.subrange(0, i as int));
    }
    assert(cs@.subrange(0, cs.len() as int) =~= cs@);
}

/// Appends the characters of `t` to a string.
pub fn push_str(s: &mut String, t: &str)
    ensures
        final(s)@ == old(s)@ + t@,
{
    let cs = chars_of(t);
    push_chars(s, &cs);
}

/// A string holding exactly these characters.
pub fn string_from_chars(cs: &Vec<char>) -> (s: String)
    ensures
        s@ == cs@,
{
    let mut s = String::new();
    push_chars(&mut s, cs);
    assert(s@ =~= cs@);
    s
}

/// A copy of a string slice as an owned string.
pub fn owned(t: &str) -> (s: String)
    ensures
        s@ == t@,
{
    let mut s = String::new();
    push_str(&mut s, t);
    assert(s@ =~= t@);
    s
}

/// Whether two character sequences are equal.
pub fn chars_eq(a: &Vec<char>, b: &Vec<char>) -> (eq: bool)
    ensures
        eq == (a@ == b@),
{
    if a.len() != b.len() {
        return false;
    }
    let mut i: usize = 0;
    while i < a.len()
        invariant
            a.len() == b.len(),
            i <= a.len(),
            forall|j: int| 0 <= j < i ==> a@[j] == b@[j],
        decreases a.len() - i,
    {
        if a[i] != b[i] {
            return false;
        }
        i = i + 1;
    }
    assert(a@ =~= b@);
    true
}

/// Whether two strings hold the same characters.
pub fn str_eq(a: &str, b: &str) -> (eq: bool)
    ensures
        eq == (a@ == b@),
{
    let va = chars_of(a);
    let vb = chars_of(b);
    chars_eq(&va, &vb)
}

// ---------------------------------------------------------------------------
// Decimal formatting
// ---------------------------------------------------------------------------

/// The character of a decimal digit.
pub open spec fn digit_char(d: int) -> char {
    if d == 0 {
        '0'
    } else if d == 1 {
        '1'
    } else if d == 2 {
        '2'
    } else if d == 3 {
        '3'
    } else if d == 4 {
        '4'
    } else if d == 5 {
        '5'
    } else if d == 6 {
        '6'
    } else if d == 7 {
        '7'
    } else if d == 8 {
        '8'
    } else {
        '9'
    }
}

/// The decimal representation of a natural number, as `format!("{}", n)`
/// writes it: no leading zeros, a single `0` for zero.
pub open spec fn decimal(n: nat) -> Seq<char>
    decreases n,
{
    if n < 10 {
        seq![digit_char(n as int)]
    } else {
        decimal(n / 10).push(digit_char((n % 10) as int))
    }
}

/// The decimal representation of an integer: a `-` before the digits of a
/// negative value.
pub open spec fn signed_decimal(n: int) -> Seq<char> {
    if n < 0 {
        seq!['-'] + decimal((-n) as nat)
    } else {
        decimal(n as nat)
    }
}

fn digit_to_char(d: u64) -> (c: char)
    requires
        d < 10,
    ensures
        c == digit_char(d as int),
{
    if d == 0 {
        '0'
    } else if d == 1 {
        '1'
    } else if d == 2 {
        '2'
    } else if d == 3 {
        '3'
    } else if d == 4 {
        '4'
    } else if d == 5 {
        '5'
    } else if d == 6 {
        '6'
    } else if d == 7 {
        '7'
    } else if d == 8 {
        '8'
    } else {
        '9'
    }
}

/// Appends the decimal representation of `n`.
pub fn push_decimal(s: &mut String, n: u64)
    ensures
        final(s)@ == old(s)@ + decimal(n as nat),
    decreases n,
{
    let ghost start = s@;
    if n >= 10 {
        push_decimal(s, n / 10);
    }
    push_char(s, digit_to_char(n % 10));
    proof {
        if n >= 10 {
            assert(s@ =~= start + decimal(n as nat));
        } else {
            assert(s@ =~= start + decimal(n as nat));
        }
    }
}

/// Appends the decimal representation of a signed `n`.
pub fn push_signed_decimal(s: &mut String, n: i64)
    ensures
        final(s)@ == old(s)@ + signed_decimal(n as int),
{
    let ghost start = s@;
    if n < 0 {
        push_char(s, '-');
        let magnitude: u64 = (0i128 - n as i128) as u64;
        push_decimal(s, magnitude);
        assert(s@ =~= start + signed_decimal(n as int));
    } else {
        push_decimal(s, n as u64);
    }
}

/// `format!("{}", n)` for an unsigned integer.
pub fn u64_to_string(n: u64) -> (s: String)
    ensures
        s@ == decimal(n as nat),
{
    let mut s = String::new();
    push_decimal(&mut s, n);
    assert(s@ =~= decimal(n as nat));
    s
}

/// `format!("{}", n)` for a signed integer.
pub fn i64_to_string(n: i64) -> (s: String)
    ensures
        s@ == signed_decimal(n as int),
{
    let mut s = String::new();
    push_signed_decimal(&mut s, n);
    assert(s@ =~= signed_decimal(n as int));
    s
}

// ---------------------------------------------------------------------------
// Decimal parsing
// ---------------------------------------------------------------------------

/// An ASCII decimal digit.
pub open spec fn is_digit(c: char) -> bool {
    '0' <= c && c <= '9'
}

/// The value of an ASCII decimal digit.
pub open spec fn digit_value(c: char) -> int {
    (c as int) - ('0' as int)
}

/// Every character is an ASCII decimal digit.
pub open spec fn all_digits(ds: Seq<char>) -> bool {
    forall|i: int| 0 <= i < ds.len() ==> #[trigger] is_digit(ds[i])
}

/// The value of a string of decimal digits, most significant first.
pub open spec fn digits_value(ds: Seq<char>) -> int
    decreases ds.len(),
{
    if ds.len() == 0 {
        0
    } else {
        digits_value(ds.drop_last()) * 10 + digit_value(ds.last())
    }
}

/// The digits after an optional leading `+`.
pub open spec fn unsigned_body(s: Seq<char>) -> Seq<char> {
    if s.len() > 0 && s[0] == '+' {
        s.drop_first()
    } else {
        s
    }
}

/// What `str::parse` gives for an unsigned integer type whose largest value
/// is `max`: an optional `+`, then at least one ASCII digit, the value not
/// above `max`.
pub open spec fn parsed_unsigned(s: Seq<char>, max: int) -> Option<int> {
    let body = unsigned_body(s);
    if body.len() > 0 && all_digits(body) && digits_value(body) <= max {
        Some(digits_value(body))
    } else {
        None
    }
}

/// The digits after an optional leading `+` or `-`.
pub open spec fn signed_body(s: Seq<char>) -> Seq<char> {
    if s.len() > 0 && (s[0] == '+' || s[0] == '-') {
        s.drop_first()
    } else {
        s
    }
}

/// Whether the text starts with a minus sign.
pub open spec fn is_negative_text(s: Seq<char>) -> bool {
    s.len() > 0 && s[0] == '-'
}

/// What `str::parse` gives for a signed integer type ranging over
/// `min..=max`: an optional sign, then at least one ASCII digit, the value in
/// range.
pub open spec fn parsed_signed(s: Seq<char>, min: int, max: int) -> Option<int> {
    let body = signed_body(s);
    let value = if is_negative_text(s) {
        -digits_value(body)
    } else {
        digits_value(body)
    };
    if body.len() > 0 && all_digits(body) && min <= value && value <= max {
        Some(value)
    } else {
        None
    }
}

/// A value of a string of digits is never negative.
pub proof fn lemma_digits_value_nonneg(ds: Seq<char>)
    requires
        all_digits(ds),
    ensures
        digits_value(ds) >= 0,
    decreases ds.len(),
{
    if ds.len() > 0 {
        assert(is_digit(ds[ds.len() - 1]));
        lemma_digits_value_nonneg(ds.drop_last());
    }
}

/// A prefix of a string of digits is worth no more than the whole.
pub proof fn lemma_digits_prefix_le(ds: Seq<char>, k: int)
    requires
        all_digits(ds),
        0 <= k <= ds.len(),
    ensures
        digits_value(ds.subrange(0, k)) <= digits_value(ds),
    decreases ds.len(),
{
    if k < ds.len() {
        let d = ds.drop_last();
        assert(all_digits(d));
        lemma_digits_prefix_le(d, k);
        assert(d.subrange(0, k) =~= ds.subrange(0, k));
        lemma_digits_value_nonneg(d);
        assert(is_digit(ds[ds.len() - 1]));
    } else {
        assert(ds.subrange(0, k) =~= ds);
    }
}

proof fn lemma_digit_char(d: int)
    requires
        0 <= d < 10,
    ensures
        is_digit(digit_char(d)),
        digit_value(digit_char(d)) == d,
{
}

/// The decimal digits of `n` are digits, at least one, and worth `n`.
pub proof fn lemma_decimal_digits(n: nat)
    ensures
        decimal(n).len() > 0,
        all_digits(decimal(n)),
        digits_value(decimal(n)) == n,
        decimal(n)[0] != '+' && decimal(n)[0] != '-',
    decreases n,
{
    if n < 10 {
        lemma_digit_char(n as int);
        let d = decimal(n);
        assert(d.drop_last() =~= Seq::<char>::empty());
        assert(digits_value(d) == digits_value(d.drop_last()) * 10 + digit_value(d.last()));
    } else {
        lemma_decimal_digits(n / 10);
        lemma_digit_char((n % 10) as int);
        let d = decimal(n);
        assert(d.drop_last() =~= decimal(n / 10));
        assert forall|i: int| 0 <= i < d.len() implies #[trigger] is_digit(d[i]) by {
            if i < d.len() - 1 {
                assert(d[i] == decimal(n / 10)[i]);
            }
        }
        assert(d[0] == decimal(n / 10)[0]);
        assert(d.last() == digit_char((n % 10) as int));
        vstd::arithmetic::div_mod::lemma_fundamental_div_mod(n as int, 10);
        assert(digits_value(d) == digits_value(decimal(n / 10)) * 10 + digit_value(d.last()));
    }
}

/// Reading back the decimal text of a number gives the number: parsing
/// undoes formatting, for unsigned types whose largest value is `max`.
pub proof fn law_parse_undoes_format_unsigned(n: nat, max: int)
    requires
        n <= max,
    ensures
        parsed_unsigned(decimal(n), max) == Some(n as int),
{
    lemma_decimal_digits(n);
}

/// Reading back the decimal text of a number gives the number, for signed
/// types ranging over `min..=max`.
pub proof fn law_parse_undoes_format_signed(n: int, min: int, max: int)
    requires
        min <= n <= max,
    ensures
        parsed_signed(signed_decimal(n), min, max) == Some(n),
{
    if n < 0 {
        lemma_decimal_digits((-n) as nat);
        let s = signed_decimal(n);
        assert(s.drop_first() =~= decimal((-n) as nat));
    } else {
        lemma_decimal_digits(n as nat);
    }
}

/// Parses `cs[start..]` as a run of digits worth at most `bound`.
fn parse_digits(cs: &Vec<char>, start: usize, bound: u64) -> (r: Option<u64>)
    requires
        start <= cs.len(),
    ensures
        ({
            let body = cs@.subrange(start as int, cs.len() as int);
            r == (if body.len() > 0 && all_digits(body) && digits_value(body) <= bound {
                Some(digits_value(body) as u64)
            } else {
                None::<u64>
            })
        }),
{
    let ghost body = cs@.subrange(start as int, cs.len() as int);
    if start == cs.len() {
        return None;
    }
    let mut acc: u64 = 0;
    let mut i: usize = start;
    while i < cs.len()
        invariant
            start <= i <= cs.len(),
            body == cs@.subrange(start as int, cs.len() as int),
            all_digits(cs@.subrange(start as int, i as int)),
            acc as int == digits_value(cs@.subrange(start as int, i as int)),
            acc <= bound,
        decreases cs.len() - i,
    {
        let c = cs[i];
        let ghost pre = cs@.subrange(start as int, i as int);
        let ghost next = cs@.subrange(start as int, i + 1);
        assert(next.drop_last() =~= pre);
        assert(pre =~= body.subrange(0, i - start));
        assert(next =~= body.subrange(0, i + 1 - start));
        if !('0' <= c && c <= '9') {
            assert(!is_digit(body[i - start]));
            return None;
        }
        let d: u64 = (c as u32 - '0' as u32) as u64;
        let wide: u128 = (acc as u128) * 10 + (d as u128);
        if wide > bound as u128 {
            proof {
                if all_digits(body) {
                    lemma_digits_prefix_le(body, i + 1 - start);
                }
            }
            return None;
        }
        acc = wide as u64;
        i = i + 1;
        assert(all_digits(cs@.subrange(start as int, i as int)));
    }
    assert(cs@.subrange(start as int, i as int) =~= body);
    Some(acc)
}

/// `s.parse::<T>().ok()` for an unsigned integer type `T` whose largest value
/// is `max`.
pub fn parse_unsigned(s: &str, max: u64) -> (r: Option<u64>)
    ensures
        r == (match parsed_unsigned(s@, max as int) {
            Some(v) => Some(v as u64),
            None => None::<u64>,
        }),
{
    let cs = chars_of(s);
    let start: usize = if cs.len() > 0 && cs[0] == '+' {
        1
    } else {
        0
    };
    assert(cs@.subrange(start as int, cs.len() as int) =~= unsigned_body(s@));
    parse_digits(&cs, start, max)
}

/// `s.parse::<T>().ok()` for a signed integer type `T` ranging over
/// `min..=max`.
pub fn parse_signed(s: &str, min: i64, max: i64) -> (r: Option<i64>)
    requires
        min <= 0 <= max,
    ensures
        r == (match parsed_signed(s@, min as int, max as int) {
            Some(v) => Some(v as i64),
            None => None::<i64>,
        }),
{
    let cs = chars_of(s);
    let negative = cs.len() > 0 && cs[0] == '-';
    let start: usize = if cs.len() > 0 && (cs[0] == '+' || cs[0] == '-') {
        1
    } else {
        0
    };
    assert(cs@.subrange(start as int, cs.len() as int) =~= signed_body(s@));
    let bound: u64 = if negative {
        (0i128 - min as i128) as u64
    } else {
        max as u64
    };
    match parse_digits(&cs, start, bound) {
        None => {
            proof {
                let body = signed_body(s@);
                if body.len() > 0 && all_digits(body) {
                    lemma_digits_value_nonneg(body);
                }
            }
            None
        },
        Some(v) => {
            proof {
                let body = signed_body(s@);
                lemma_digits_value_nonneg(body);
                assert(negative == is_negative_text(s@));
            }
            if negative {
                Some((0i128 - v as i128) as i64)
            } else {
                Some(v as i64)
            }
        },
    }
}


// ---------------------------------------------------------------------------
// Searching and replacing
// ---------------------------------------------------------------------------

/// `pat` occurs in `s` starting at index `i`.
pub open spec fn matches_at(s: Seq<char>, i: int, pat: Seq<char>) -> bool {
    0 <= i && i + pat.len() <= s.len() && s.subrange(i, i + pat.len()) == pat
}

/// `pat` occurs somewhere in `s` (`str::contains`).
pub open spec fn contains(s: Seq<char>, pat: Seq<char>) -> bool {
    exists|i: int| matches_at(s, i, pat)
}

/// `s` with every occurrence of `pat` replaced by `rep`, scanning from the
/// left and never reusing replaced characters (`str::replace`).
pub open spec fn replaced(s: Seq<char>, pat: Seq<char>, rep: Seq<char>) -> Seq<char>
    decreases s.len(),
{
    if s.len() == 0 || pat.len() == 0 {
        s
    } else if matches_at(s, 0, pat) {
        rep + replaced(s.skip(pat.len() as int), pat, rep)
    } else {
        seq![s[0]] + replaced(s.skip(1), pat, rep)
    }
}

/// Every character of `s` is ASCII.
pub open spec fn all_ascii(s: Seq<char>) -> bool {
    forall|i: int| 0 <= i < s.len() ==> '\0' <= #[trigger] s[i] <= '\u{7f}'
}

/// Replacing within an ASCII text by an ASCII text leaves an ASCII text.
pub proof fn lemma_replaced_ascii(s: Seq<char>, pat: Seq<char>, rep: Seq<char>)
    requires
        all_ascii(s),
        all_ascii(rep),
    ensures
        all_ascii(replaced(s, pat, rep)),
    decreases s.len(),
{
    if s.len() == 0 || pat.len() == 0 {
    } else if matches_at(s, 0, pat) {
        let t = s.skip(pat.len() as int);
        assert forall|i: int| 0 <= i < t.len() implies '\0' <= #[trigger] t[i] <= '\u{7f}' by {
            assert(t[i] == s[i + pat.len()]);
        }
        lemma_replaced_ascii(t, pat, rep);
        let r = replaced(s, pat, rep);
        assert forall|i: int| 0 <= i < r.len() implies '\0' <= #[trigger] r[i] <= '\u{7f}' by {
            if i < rep.len() {
                assert(r[i] == rep[i]);
            } else {
                assert(r[i] == replaced(t, pat, rep)[i - rep.len()]);
            }
        }
    } else {
        let t = s.skip(1);
        assert forall|i: int| 0 <= i < t.len() implies '\0' <= #[trigger] t[i] <= '\u{7f}' by {
            assert(t[i] == s[i + 1]);
        }
        lemma_replaced_ascii(t, pat, rep);
        let r = replaced(s, pat, rep);
        assert forall|i: int| 0 <= i < r.len() implies '\0' <= #[trigger] r[i] <= '\u{7f}' by {
            if i == 0 {
                assert(r[i] == s[0]);
            } else {
                assert(r[i] == replaced(t, pat, rep)[i - 1]);
            }
        }
    }
}

/// Whether `pat` occurs in `s` at index `i`.
pub fn matches_at_exec(s: &Vec<char>, i: usize, pat: &Vec<char>) -> (r: bool)
    ensures
        r == matches_at(s@, i as int, pat@),
{
    if i > s.len() || pat.len() > s.len() - i {
        return false;
    }
    let mut k: usize = 0;
    while k < pat.len()
        invariant
            i + pat.len() <= s.len(),
            k <= pat.len(),
            forall|j: int| 0 <= j < k ==> s@[i + j] == pat@[j],
        decreases pat.len() - k,
    {
        if s[i + k] != pat[k] {
            assert(s@.subrange(i as int, i + pat.len())[k as int] != pat@[k as int]);
            return false;
        }
        k = k + 1;
    }
    assert(s@.subrange(i as int, i + pat.len()) =~= pat@);
    true
}

/// The first index at which `pat` occurs in `s`.
pub fn find_chars(s: &Vec<char>, pat: &Vec<char>) -> (r: Option<usize>)
    ensures
        match r {
            Some(i) => matches_at(s@, i as int, pat@) && forall|j: int|
                0 <= j < i ==> !#[trigger] matches_at(s@, j, pat@),
            None => !contains(s@, pat@),
        },
{
    let mut i: usize = 0;
    while i < s.len()
        invariant
            i <= s.len(),
            forall|j: int| 0 <= j < i ==> !#[trigger] matches_at(s@, j, pat@),
        decreases s.len() - i,
    {
        if matches_at_exec(s, i, pat) {
            return Some(i);
        }
        i = i + 1;
    }
    if matches_at_exec(s, i, pat) {
        return Some(i);
    }
    assert forall|j: int| !matches_at(s@, j, pat@) by {
        if 0 <= j && j < i {
        }
    }
    None
}

/// Whether `pat` occurs in `s` (`str::contains`).
pub fn str_contains(s: &str, pat: &str) -> (r: bool)
    ensures
        r == contains(s@, pat@),
{
    let cs = chars_of(s);
    let ps = chars_of(pat);
    find_chars(&cs, &ps).is_some()
}

/// `s.replace(pat, rep)` for a non-empty pattern.
pub fn replace_all(s: &str, pat: &str, rep: &str) -> (r: String)
    requires
        pat@.len() > 0,
    ensures
        r@ == replaced(s@, pat@, rep@),
{
    let cs = chars_of(s);
    let ps = chars_of(pat);
    let rs = chars_of(rep);
    let mut out = String::new();
    let mut i: usize = 0;
    assert(cs@.skip(0) =~= cs@);
    assert(out@ + replaced(cs@.skip(0), ps@, rs@) =~= replaced(cs@, ps@, rs@));
    while i < cs.len()
        invariant
            i <= cs.len(),
            ps@.len() > 0,
            replaced(cs@, ps@, rs@) == out@ + replaced(cs@.skip(i as int), ps@, rs@),
        decreases cs.len() - i,
    {
        let ghost rest = cs@.skip(i as int);
        let ghost before = out@;
        assert(rest.len() > 0);
        if matches_at_exec(&cs, i, &ps) {
            assert(rest.subrange(0, ps@.len() as int) =~= cs@.subrange(i as int, i + ps@.len()));
            assert(matches_at(rest, 0, ps@));
            assert(rest.skip(ps@.len() as int) =~= cs@.skip(i + ps@.len()));
            push_chars(&mut out, &rs);
            i = i + ps.len();
            assert(out@ + replaced(cs@.skip(i as int), ps@, rs@) =~= before + replaced(rest, ps@, rs@));
        } else {
            assert(!matches_at(rest, 0, ps@)) by {
                if rest.len() >= ps@.len() {
                    assert(rest.subrange(0, ps@.len() as int) =~= cs@.subrange(i as int, i + ps@.len()));
                }
            }
            assert(rest.skip(1) =~= cs@.skip(i + 1));
            assert(rest[0] == cs@[i as int]);
            push_char(&mut out, cs[i]);
            i = i + 1;
            assert(out@ + replaced(cs@.skip(i as int), ps@, rs@) =~= before + replaced(rest, ps@, rs@));
        }
    }
    assert(cs@.skip(i as int).len() == 0);
    assert(out@ + replaced(cs@.skip(i as int), ps@, rs@) =~= out@);
    out
}

/// What precedes the first occurrence of `pat` in `s`: all of `s` when
/// there is none (the first piece of `str::split`).
pub open spec fn before_first(s: Seq<char>, pat: Seq<char>) -> Seq<char>
    decreases s.len(),
{
    if s.len() == 0 || matches_at(s, 0, pat) {
        Seq::empty()
    } else {
        seq![s[0]] + before_first(s.skip(1), pat)
    }
}

/// What follows the first occurrence of `pat` in `s`: nothing when there is
/// none.
pub open spec fn after_first(s: Seq<char>, pat: Seq<char>) -> Seq<char>
    decreases s.len(),
{
    if s.len() == 0 {
        Seq::empty()
    } else if matches_at(s, 0, pat) {
        s.skip(pat.len() as int)
    } else {
        after_first(s.skip(1), pat)
    }
}

/// The second piece of `s.split(pat)`: what lies between the first
/// occurrence of `pat` and the next one, or the end.
pub open spec fn second_piece(s: Seq<char>, pat: Seq<char>) -> Seq<char> {
    before_first(after_first(s, pat), pat)
}

proof fn lemma_matches_at_skip(s: Seq<char>, j: int, pat: Seq<char>)
    requires
        s.len() > 0,
        0 <= j,
    ensures
        matches_at(s.skip(1), j, pat) == matches_at(s, j + 1, pat),
{
    if j + pat.len() <= s.len() - 1 {
        assert(s.skip(1).subrange(j, j + pat.len()) =~= s.subrange(j + 1, j + 1 + pat.len()));
    }
}

/// Where `pat` first occurs at `i`, the pieces around it.
pub proof fn lemma_split_at_first(s: Seq<char>, pat: Seq<char>, i: int)
    requires
        pat.len() > 0,
        matches_at(s, i, pat),
        forall|j: int| 0 <= j < i ==> !#[trigger] matches_at(s, j, pat),
    ensures
        before_first(s, pat) == s.subrange(0, i),
        after_first(s, pat) == s.skip(i + pat.len()),
    decreases i,
{
    if i == 0 {
        assert(s.subrange(0, 0) =~= Seq::<char>::empty());
    } else {
        assert(!matches_at(s, 0, pat));
        let t = s.skip(1);
        lemma_matches_at_skip(s, i - 1, pat);
        assert forall|j: int| 0 <= j < i - 1 implies !#[trigger] matches_at(t, j, pat) by {
            lemma_matches_at_skip(s, j, pat);
            assert(!matches_at(s, j + 1, pat));
        }
        lemma_split_at_first(t, pat, i - 1);
        assert(seq![s[0]] + t.subrange(0, i - 1) =~= s.subrange(0, i));
        assert(t.skip(i - 1 + pat.len()) =~= s.skip(i + pat.len()));
    }
}

/// Where `pat` does not occur, the first piece is all of `s` and nothing
/// follows.
pub proof fn lemma_split_without_match(s: Seq<char>, pat: Seq<char>)
    requires
        forall|j: int| 0 <= j ==> !#[trigger] matches_at(s, j, pat),
    ensures
        before_first(s, pat) == s,
        after_first(s, pat) == Seq::<char>::empty(),
    decreases s.len(),
{
    if s.len() > 0 {
        assert(!matches_at(s, 0, pat));
        let t = s.skip(1);
        assert forall|j: int| 0 <= j implies !#[trigger] matches_at(t, j, pat) by {
            lemma_matches_at_skip(s, j, pat);
            assert(!matches_at(s, j + 1, pat));
        }
        lemma_split_without_match(t, pat);
        assert(seq![s[0]] + t =~= s);
    }
}

/// The characters `cs[from..to]`.
pub fn slice_chars(cs: &Vec<char>, from: usize, to: usize) -> (r: Vec<char>)
    requires
        from <= to <= cs.len(),
    ensures
        r@ == cs@.subrange(from as int, to as int),
{
    let mut r: Vec<char> = Vec::new();
    let mut k: usize = from;
    while k < to
        invariant
            from <= k <= to <= cs.len(),
            r@ == cs@.subrange(from as int, k as int),
        decreases to - k,
    {
        r.push(cs[k]);
        k = k + 1;
        assert(r@ =~= cs@.subrange(from as int, k as int));
    }
    r
}

/// The second piece of `s.split(pat)`, when `pat` occurs in `s`.
pub fn split_second(s: &str, pat: &str) -> (r: Option<String>)
    requires
        pat@.len() > 0,
    ensures
        contains(s@, pat@) ==> (r matches Some(p) && p@ == second_piece(s@, pat@)),
        !contains(s@, pat@) ==> r is None,
{
    let cs = chars_of(s);
    let ps = chars_of(pat);
    match find_chars(&cs, &ps) {
        None => None,
        Some(i) => {
            proof {
                lemma_split_at_first(cs@, ps@, i as int);
            }
            let rest = slice_chars(&cs, i + ps.len(), cs.len());
            assert(rest@ =~= after_first(s@, pat@));
            let piece = match find_chars(&rest, &ps) {
                None => {
                    proof {
                        lemma_split_without_match(rest@, ps@);
                    }
                    rest
                },
                Some(j) => {
                    proof {
                        lemma_split_at_first(rest@, ps@, j as int);
                    }
                    slice_chars(&rest, 0, j)
                },
            };
            Some(string_from_chars(&piece))
        },
    }
}

// ---------------------------------------------------------------------------
// Case
// ---------------------------------------------------------------------------

/// A text in lower case, as `str::to_lowercase` makes it.
pub uninterp spec fn lowercase(s: Seq<char>) -> Seq<char>;

/// `str::to_lowercase`.
///
/// Claims that the result is [`lowercase`] of the text; the Unicode case
/// mapping itself is left unsaid.
#[verifier::external_body]
pub(crate) fn to_lowercase(s: &str) -> (r: String)
    ensures
        r@ == lowercase(s@),
{
    s.to_lowercase()
}

// ---------------------------------------------------------------------------
// Order
// ---------------------------------------------------------------------------

/// Whether `a` comes before `b` or equals it in the order of strings
/// (`str`'s `Ord`): character by character, a prefix first.
pub open spec fn lex_le(a: Seq<char>, b: Seq<char>) -> bool
    decreases a.len(),
{
    if a.len() == 0 {
        true
    } else if b.len() == 0 {
        false
    } else if a[0] != b[0] {
        a[0] < b[0]
    } else {
        lex_le(a.drop_first(), b.drop_first())
    }
}

/// Of two strings, one comes first or they are equal.
pub proof fn lemma_lex_total(a: Seq<char>, b: Seq<char>)
    ensures
        lex_le(a, b) || lex_le(b, a),
    decreases a.len(),
{
    if a.len() > 0 && b.len() > 0 && a[0] == b[0] {
        lemma_lex_total(a.drop_first(), b.drop_first());
    }
}

/// The order of strings is transitive.
pub proof fn lemma_lex_transitive(a: Seq<char>, b: Seq<char>, c: Seq<char>)
    requires
        lex_le(a, b),
        lex_le(b, c),
    ensures
        lex_le(a, c),
    decreases a.len(),
{
    if a.len() > 0 && b.len() > 0 && c.len() > 0 && a[0] == b[0] && b[0] == c[0] {
        lemma_lex_transitive(a.drop_first(), b.drop_first(), c.drop_first());
    }
}

/// Whether `a` comes before `b` or equals it in the order of strings.
pub fn chars_le(a: &Vec<char>, b: &Vec<char>) -> (r: bool)
    ensures
        r == lex_le(a@, b@),
{
    let mut i: usize = 0;
    assert(a@.skip(0) =~= a@);
    assert(b@.skip(0) =~= b@);
    while i < a.len() && i < b.len() && a[i] == b[i]
        invariant
            i <= a.len(),
            i <= b.len(),
            lex_le(a@, b@) == lex_le(a@.skip(i as int), b@.skip(i as int)),
        decreases a.len() - i,
    {
        assert(a@.skip(i as int).drop_first() =~= a@.skip(i + 1));
        assert(b@.skip(i as int).drop_first() =~= b@.skip(i + 1));
        i = i + 1;
    }
    if i == a.len() {
        return true;
    }
    if i == b.len() {
        return false;
    }
    a[i] < b[i]
}

// ---------------------------------------------------------------------------
// Whitespace
// ---------------------------------------------------------------------------

/// Unicode `White_Space`, as `char::is_whitespace` tests it.
pub open spec fn is_whitespace(c: char) -> bool {
    c == '\t' || c == '\n' || c == '\u{0B}' || c == '\u{0C}' || c == '\r' || c == ' ' || c
        == '\u{85}' || c == '\u{A0}' || c == '\u{1680}' || ('\u{2000}' <= c && c <= '\u{200A}')
        || c == '\u{2028}' || c == '\u{2029}' || c == '\u{202F}' || c == '\u{205F}' || c
        == '\u{3000}'
}

/// `char::is_whitespace`.
pub fn char_is_whitespace(c: char) -> (r: bool)
    ensures
        r == is_whitespace(c),
{
    c == '\t' || c == '\n' || c == '\u{0B}' || c == '\u{0C}' || c == '\r' || c == ' ' || c
        == '\u{85}' || c == '\u{A0}' || c == '\u{1680}' || ('\u{2000}' <= c && c <= '\u{200A}')
        || c == '\u{2028}' || c == '\u{2029}' || c == '\u{202F}' || c == '\u{205F}' || c
        == '\u{3000}'
}

/// `s` without its leading whitespace.
pub open spec fn trim_start(s: Seq<char>) -> Seq<char>
    decreases s.len(),
{
    if s.len() > 0 && is_whitespace(s[0]) {
        trim_start(s.drop_first())
    } else {
        s
    }
}

/// `s` without its trailing whitespace.
pub open spec fn trim_end(s: Seq<char>) -> Seq<char>
    decreases s.len(),
{
    if s.len() > 0 && is_whitespace(s.last()) {
        trim_end(s.drop_last())
    } else {
        s
    }
}

/// `s` without leading or trailing whitespace (`str::trim`).
pub open spec fn trimmed(s: Seq<char>) -> Seq<char> {
    trim_end(trim_start(s))
}

/// The characters of `cs` without leading or trailing whitespace.
pub fn trim_chars(cs: &Vec<char>) -> (r: Vec<char>)
    ensures
        r@ == trimmed(cs@),
{
    let mut a: usize = 0;
    assert(cs@.skip(0) =~= cs@);
    while a < cs.len() && char_is_whitespace(cs[a])
        invariant
            a <= cs.len(),
            trim_start(cs@) == trim_start(cs@.skip(a as int)),
        decreases cs.len() - a,
    {
        assert(cs@.skip(a as int).drop_first() =~= cs@.skip(a + 1));
        a = a + 1;
    }
    let ghost t = cs@.skip(a as int);
    assert(trim_start(cs@) == t);
    let mut b: usize = cs.len();
    assert(cs@.subrange(a as int, b as int) =~= t);
    while b > a && char_is_whitespace(cs[b - 1])
        invariant
            a <= b <= cs.len(),
            t == cs@.skip(a as int),
            trim_end(t) == trim_end(cs@.subrange(a as int, b as int)),
        decreases b,
    {
        assert(cs@.subrange(a as int, b as int).drop_last() =~= cs@.subrange(a as int, b - 1));
        b = b - 1;
    }
    let mut r: Vec<char> = Vec::new();
    let mut k: usize = a;
    while k < b
        invariant
            a <= k <= b <= cs.len(),
            r@ == cs@.subrange(a as int, k as int),
        decreases b - k,
    {
        r.push(cs[k]);
        k = k + 1;
        assert(r@ =~= cs@.subrange(a as int, k as int));
    }
    r
}

/// `s.trim()` as an owned string.
pub fn trim(s: &str) -> (r: String)
    ensures
        r@ == trimmed(s@),
{
    let cs = chars_of(s);
    let t = trim_chars(&cs);
    string_from_chars(&t)
}

} // verus!
