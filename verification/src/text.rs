//! Character-level helpers shared by the notation, FEN and engine-protocol
//! code: decoding a `&str` into its characters, building `String`s, and
//! decimal formatting and parsing with exact specifications.

use vstd::prelude::*;
use vstd::std_specs::iter::IteratorSpec;

verus! {

/// The characters of `s`, in order.
pub fn chars_of(s: &str) -> (v: Vec<char>)
    ensures
        v@ == s@,
{
    broadcast use vstd::string::group_string_axioms;

    let mut v: Vec<char> = Vec::new();
    for c in it: s.chars()
        invariant
            it.seq() == s@,
            v@ == it.seq().take(it.index() as int),
    {
        v.push(c);
    }
    v
}

/// Appends one character (`String::push`).
#[verifier::external_body]
pub fn push_char(out: &mut String, c: char)
    ensures
        final(out)@ == old(out)@.push(c),
{
    out.push(c);
}

/// The lowercase mapping of a string, as `str::to_lowercase` computes it
/// from the Unicode tables.
pub uninterp spec fn lowercase(s: Seq<char>) -> Seq<char>;

/// `str::to_lowercase`; its result depends on `s` alone.
#[verifier::external_body]
pub(crate) fn to_lowercase(s: &str) -> (r: String)
    ensures
        r@ == lowercase(s@),
{
    s.to_lowercase()
}

/// Appends characters to a string.
pub fn push_chars(out: &mut String, cs: &[char])
    ensures
        final(out)@ == old(out)@ + cs@,
{
    let mut i: usize = 0;
    while i < cs.len()
        invariant
            i <= cs@.len(),
            out@ == old(out)@ + cs@.take(i as int),
        decreases cs@.len() - i,
    {
        push_char(out, cs[i]);
        i = i + 1;
        assert(cs@.take(i as int) == cs@.take(i - 1).push(cs@[i - 1]));
    }
    assert(cs@.take(cs@.len() as int) == cs@);
}

/// A new string holding exactly `cs`.
pub fn string_of(cs: &[char]) -> (s: String)
    ensures
        s@ == cs@,
{
    let mut s = String::new();
    push_chars(&mut s, cs);
    s
}

/// Appends a string slice.
pub fn push_str(out: &mut String, t: &str)
    ensures
        final(out)@ == old(out)@ + t@,
{
    let cs = chars_of(t);
    push_chars(out, cs.as_slice());
}

/// The ASCII character of decimal digit `d`.
pub open spec fn digit_char(d: int) -> char {
    (48 + d) as char
}

/// The decimal digit an ASCII digit character stands for.
pub open spec fn char_digit(c: char) -> int {
    c as int - 48
}

pub open spec fn is_digit(c: char) -> bool {
    '0' <= c && c <= '9'
}

/// Decimal text of a natural number, without leading zeros.
pub open spec fn nat_text(n: nat) -> Seq<char>
    decreases n,
{
    if n < 10 {
        seq![digit_char(n as int)]
    } else {
        nat_text(n / 10).push(digit_char((n % 10) as int))
    }
}

/// Decimal text of an integer, with a leading `-` when negative.
pub open spec fn int_text(n: int) -> Seq<char> {
    if n < 0 {
        seq!['-'] + nat_text((-n) as nat)
    } else {
        nat_text(n as nat)
    }
}

fn digit_of(d: u64) -> (c: char)
    requires
        d < 10,
    ensures
        c == digit_char(d as int),
{
    let b: u8 = 48u8 + d as u8;
    b as char
}

/// Appends the decimal text of `n`.
pub fn push_u64(out: &mut String, n: u64)
    ensures
        final(out)@ == old(out)@ + nat_text(n as nat),
    decreases n,
{
    if n >= 10 {
        push_u64(out, n / 10);
    }
    push_char(out, digit_of(n % 10));
    proof {
        if n < 10 {
            assert(nat_text(n as nat) == seq![digit_char(n as int)]);
        }
    }
}

/// Appends the decimal text of `n`, with `-` when negative.
pub fn push_i64(out: &mut String, n: i64)
    ensures
        final(out)@ == old(out)@ + int_text(n as int),
{
    if n < 0 {
        push_char(out, '-');
        let m: u64 = if n == i64::MIN {
            9223372036854775808u64
        } else {
            (-n) as u64
        };
        push_u64(out, m);
        assert(old(out)@.push('-') + nat_text(m as nat) == old(out)@ + (seq!['-'] + nat_text(
            m as nat,
        )));
    } else {
        push_u64(out, n as u64);
    }
}

/// The decimal text of a natural number is a run of digits spelling it,
/// so integer parsing reads it back.
pub proof fn lemma_nat_text_reads_back(n: nat, hi: int)
    requires
        n <= hi,
    ensures
        all_digits(nat_text(n)),
        digits_value(nat_text(n)) == n,
        parse_in_range(nat_text(n), 0, hi) == Some(n as int),
    decreases n,
{
    if n >= 10 {
        lemma_nat_text_reads_back(n / 10, hi);
        let t = nat_text(n);
        assert(t.drop_last() == nat_text(n / 10));
        assert forall|i: int| 0 <= i < t.len() implies is_digit(#[trigger] t[i]) by {
            if i < t.len() - 1 {
                assert(t[i] == nat_text(n / 10)[i]);
            }
        }
        assert(digits_value(t) == digits_value(nat_text(n / 10)) * 10 + (n % 10));
        assert((n / 10) * 10 + n % 10 == n) by (nonlinear_arith);
    } else {
        assert(nat_text(n).drop_last() =~= Seq::<char>::empty());
        assert(char_digit(digit_char(n as int)) == n);
        assert(digits_value(nat_text(n).drop_last()) == 0);
        assert(nat_text(n).last() == digit_char(n as int));
    }
    let t = nat_text(n);
    assert(is_digit(t[0]));
    assert(numeral_value(t) == Some(digits_value(t)));
}

/// Value of a run of decimal digits.
pub open spec fn digits_value(s: Seq<char>) -> int
    decreases s.len(),
{
    if s.len() == 0 {
        0
    } else {
        digits_value(s.drop_last()) * 10 + char_digit(s.last())
    }
}

/// A non-empty run of ASCII digits.
pub open spec fn all_digits(s: Seq<char>) -> bool {
    s.len() > 0 && forall|i: int| 0 <= i < s.len() ==> is_digit(#[trigger] s[i])
}

/// The integer that `s` spells as an optionally signed decimal numeral
/// (`+` or `-` followed by at least one digit, or digits alone), the form
/// that Rust's integer `parse` accepts.
pub open spec fn numeral_value(s: Seq<char>) -> Option<int> {
    if s.len() > 0 && s[0] == '-' && all_digits(s.skip(1)) {
        Some(-digits_value(s.skip(1)))
    } else if s.len() > 0 && s[0] == '+' && all_digits(s.skip(1)) {
        Some(digits_value(s.skip(1)))
    } else if all_digits(s) {
        Some(digits_value(s))
    } else {
        None
    }
}

/// What Rust's `parse` gives for an integer type spanning `lo..=hi`:
/// the numeral's value when it is in range (a `-` sign is refused by the
/// unsigned types, where `lo == 0`), else nothing.
pub open spec fn parse_in_range(s: Seq<char>, lo: int, hi: int) -> Option<int> {
    match numeral_value(s) {
        Some(v) => {
            if lo <= v <= hi && !(lo == 0 && s.len() > 0 && s[0] == '-') {
                Some(v)
            } else {
                None
            }
        },
        None => None,
    }
}

proof fn lemma_digits_value_nonneg(s: Seq<char>)
    requires
        forall|i: int| 0 <= i < s.len() ==> is_digit(#[trigger] s[i]),
    ensures
        digits_value(s) >= 0,
    decreases s.len(),
{
    if s.len() > 0 {
        lemma_digits_value_nonneg(s.drop_last());
    }
}

/// Parses `s[start..]` as digits, giving up once the value exceeds `cap`.
fn digits_upto(s: &[char], start: usize, cap: u128) -> (r: Option<u128>)
    requires
        start <= s@.len(),
        cap <= 0x1_0000_0000_0000_0000u128,
    ensures
        match r {
            Some(v) => all_digits(s@.skip(start as int)) && v == digits_value(s@.skip(start as int))
                && v <= cap,
            None => !all_digits(s@.skip(start as int)) || digits_value(s@.skip(start as int))
                > cap,
        },
{
    let ghost t = s@.skip(start as int);
    if start == s.len() {
        return None;
    }
    let mut acc: u128 = 0;
    let mut i: usize = start;
    while i < s.len()
        invariant
            start <= i <= s@.len(),
            t == s@.skip(start as int),
            cap <= 0x1_0000_0000_0000_0000u128,
            forall|j: int| 0 <= j < i - start ==> is_digit(#[trigger] t[j]),
            acc == digits_value(t.take(i - start)),
            acc <= cap,
        decreases s@.len() - i,
    {
        let c = s[i];
        if !('0' <= c && c <= '9') {
            assert(t[i - start] == c);
            return None;
        }
        let d: u128 = (c as u32 - 48) as u128;
        assert(t.take(i + 1 - start).drop_last() == t.take(i - start));
        assert(t.take(i + 1 - start).last() == c);
        let next = acc * 10 + d;
        if next > cap {
            proof {
                if all_digits(t) {
                    lemma_value_grows(t, (i + 1 - start) as int);
                }
            }
            return None;
        }
        acc = next;
        i = i + 1;
    }
    assert(t.take(i - start) == t);
    Some(acc)
}

/// A longer digit prefix has at least the value of a shorter one.
proof fn lemma_value_grows(t: Seq<char>, k: int)
    requires
        0 <= k <= t.len(),
        forall|j: int| 0 <= j < t.len() ==> is_digit(#[trigger] t[j]),
    ensures
        digits_value(t) >= digits_value(t.take(k)),
    decreases t.len() - k,
{
    if k < t.len() {
        lemma_value_grows(t, k + 1);
        let p = t.take(k + 1);
        assert(p.drop_last() == t.take(k));
        assert(is_digit(t[k]));
        assert(p.last() == t[k]);
        lemma_digits_value_nonneg(t.take(k));
    } else {
        assert(t.take(k) == t);
    }
}

/// Rust's integer `parse` for a type spanning `lo..=hi`.
pub fn parse_int(s: &[char], lo: i128, hi: i128) -> (r: Option<i128>)
    requires
        lo <= 0,
        0 <= hi < 0x1_0000_0000_0000_0000u128,
        -lo <= 0x1_0000_0000_0000_0000u128,
    ensures
        match r {
            Some(v) => parse_in_range(s@, lo as int, hi as int) == Some(v as int),
            None => parse_in_range(s@, lo as int, hi as int) is None,
        },
{
    let ghost t = s@;
    if s.len() > 0 && s[0] == '-' {
        if lo == 0 {
            return None;
        }
        match digits_upto(s, 1, 0x1_0000_0000_0000_0000u128) {
            Some(v) => {
                proof {
                    lemma_digits_value_nonneg(t.skip(1));
                }
                let neg = -(v as i128);
                if neg >= lo {
                    Some(neg)
                } else {
                    None
                }
            },
            None => None,
        }
    } else {
        let start: usize = if s.len() > 0 && s[0] == '+' {
            1
        } else {
            0
        };
        assert(start == 0 ==> t.skip(0) == t);
        match digits_upto(s, start, 0x1_0000_0000_0000_0000u128) {
            Some(v) => {
                if v as i128 <= hi {
                    Some(v as i128)
                } else {
                    None
                }
            },
            None => None,
        }
    }
}

/// Unicode white space (what `char::is_whitespace` accepts).
pub open spec fn is_ws(c: char) -> bool {
    c == ' ' || c == '\t' || c == '\n' || c == '\u{0B}' || c == '\u{0C}' || c == '\r' || c
        == '\u{85}' || c == '\u{A0}' || c == '\u{1680}' || ('\u{2000}' <= c && c <= '\u{200A}')
        || c == '\u{2028}' || c == '\u{2029}' || c == '\u{202F}' || c == '\u{205F}' || c
        == '\u{3000}'
}

/// Whether `c` is white space (see [`is_ws`]).
pub fn is_whitespace(c: char) -> (b: bool)
    ensures
        b == is_ws(c),
{
    c == ' ' || c == '\t' || c == '\n' || c == '\u{0B}' || c == '\u{0C}' || c == '\r' || c
        == '\u{85}' || c == '\u{A0}' || c == '\u{1680}' || ('\u{2000}' <= c && c <= '\u{200A}')
        || c == '\u{2028}' || c == '\u{2029}' || c == '\u{202F}' || c == '\u{205F}' || c
        == '\u{3000}'
}

/// End of the token starting at `i`: the first white space at or after `i`.
pub open spec fn token_end(s: Seq<char>, i: int) -> int
    decreases s.len() - i,
{
    if i < 0 || i >= s.len() || is_ws(s[i]) {
        if i < 0 { 0 } else { i }
    } else {
        token_end(s, i + 1)
    }
}

/// The white-space separated tokens of `s[i..]` (as `split_whitespace`).
pub open spec fn tokens_from(s: Seq<char>, i: int) -> Seq<Seq<char>>
    decreases s.len() - i, 0int,
{
    if i < 0 || i >= s.len() {
        seq![]
    } else if is_ws(s[i]) {
        tokens_from(s, i + 1)
    } else {
        let e = token_end(s, i);
        if e <= i || e > s.len() {
            seq![]
        } else {
            seq![s.subrange(i, e)] + tokens_from(s, e)
        }
    }
}

pub open spec fn tokens(s: Seq<char>) -> Seq<Seq<char>> {
    tokens_from(s, 0)
}

proof fn lemma_token_end(s: Seq<char>, i: int)
    requires
        0 <= i <= s.len(),
    ensures
        i <= token_end(s, i) <= s.len(),
        forall|j: int| i <= j < token_end(s, i) ==> !is_ws(#[trigger] s[j]),
        token_end(s, i) < s.len() ==> is_ws(s[token_end(s, i)]),
    decreases s.len() - i,
{
    if i < s.len() && !is_ws(s[i]) {
        lemma_token_end(s, i + 1);
    }
}

/// The white-space separated tokens of `s`.
pub fn split_whitespace(s: &[char]) -> (v: Vec<Vec<char>>)
    ensures
        v@.len() == tokens(s@).len(),
        forall|k: int| 0 <= k < v@.len() ==> #[trigger] v@[k]@ == tokens(s@)[k],
{
    let mut v: Vec<Vec<char>> = Vec::new();
    let mut i: usize = 0;
    while i < s.len()
        invariant
            i <= s@.len(),
            v@.len() + tokens_from(s@, i as int).len() == tokens(s@).len(),
            forall|k: int| 0 <= k < v@.len() ==> #[trigger] v@[k]@ == tokens(s@)[k],
            forall|k: int|
                0 <= k < tokens_from(s@, i as int).len() ==> #[trigger] tokens_from(s@, i as int)[k]
                    == tokens(s@)[v@.len() + k],
        decreases s@.len() - i,
    {
        if is_whitespace(s[i]) {
            i = i + 1;
        } else {
            let start = i;
            let mut tok: Vec<char> = Vec::new();
            proof {
                lemma_token_end(s@, start as int);
            }
            while i < s.len() && !is_whitespace(s[i])
                invariant
                    start <= i <= s@.len(),
                    i <= token_end(s@, start as int),
                    token_end(s@, start as int) <= s@.len(),
                    forall|j: int| start <= j < token_end(s@, start as int) ==> !is_ws(#[trigger] s@[j]),
                    token_end(s@, start as int) < s@.len() ==> is_ws(s@[token_end(s@, start as int)]),
                    tok@ == s@.subrange(start as int, i as int),
                decreases s@.len() - i,
            {
                tok.push(s[i]);
                i = i + 1;
            }
            assert(i == token_end(s@, start as int));
            let ghost rest = tokens_from(s@, start as int);
            assert(rest == seq![s@.subrange(start as int, i as int)] + tokens_from(s@, i as int));
            assert(rest[0] == tok@);
            assert forall|k: int| 0 <= k < tokens_from(s@, i as int).len() implies #[trigger] tokens_from(
                s@,
                i as int,
            )[k] == tokens(s@)[v@.len() + 1 + k] by {
                assert(tokens_from(s@, i as int)[k] == rest[k + 1]);
            }
            v.push(tok);
        }
    }
    v
}

/// Whether two character sequences are equal.
pub fn chars_eq(a: &[char], b: &[char]) -> (r: bool)
    ensures
        r == (a@ == b@),
{
    if a.len() != b.len() {
        return false;
    }
    let mut i: usize = 0;
    while i < a.len()
        invariant
            a@.len() == b@.len(),
            i <= a@.len(),
            forall|j: int| 0 <= j < i ==> a@[j] == b@[j],
        decreases a@.len() - i,
    {
        if a[i] != b[i] {
            return false;
        }
        i = i + 1;
    }
    assert(a@ =~= b@);
    true
}

/// Whether `t` spells exactly `lit`.
pub fn chars_eq_str(t: &[char], lit: &str) -> (b: bool)
    ensures
        b == (t@ == lit@),
{
    let l = chars_of(lit);
    if t.len() != l.len() {
        return false;
    }
    let mut i: usize = 0;
    while i < t.len()
        invariant
            t@.len() == l@.len(),
            l@ == lit@,
            i <= t@.len(),
            forall|j: int| 0 <= j < i ==> t@[j] == l@[j],
        decreases t@.len() - i,
    {
        if t[i] != l[i] {
            return false;
        }
        i = i + 1;
    }
    assert(t@ =~= l@);
    true
}

/// Whether `s` begins with `prefix`.
pub open spec fn has_prefix(s: Seq<char>, prefix: Seq<char>) -> bool {
    prefix.len() <= s.len() && s.subrange(0, prefix.len() as int) == prefix
}

/// Whether `s` begins with the characters of `prefix`.
pub fn starts_with_str(s: &[char], prefix: &str) -> (b: bool)
    ensures
        b == has_prefix(s@, prefix@),
{
    let l = chars_of(prefix);
    if l.len() > s.len() {
        return false;
    }
    let mut i: usize = 0;
    while i < l.len()
        invariant
            l@ == prefix@,
            l@.len() <= s@.len(),
            i <= l@.len(),
            forall|j: int| 0 <= j < i ==> s@[j] == l@[j],
        decreases l@.len() - i,
    {
        if s[i] != l[i] {
            return false;
        }
        i = i + 1;
    }
    assert(s@.subrange(0, l@.len() as int) =~= l@);
    true
}

/// The characters of `s` from `from` on.
pub fn chars_from(s: &[char], from: usize) -> (v: Vec<char>)
    requires
        from <= s@.len(),
    ensures
        v@ == s@.skip(from as int),
{
    let mut v: Vec<char> = Vec::new();
    let mut i = from;
    while i < s.len()
        invariant
            from <= i <= s@.len(),
            v@ == s@.subrange(from as int, i as int),
        decreases s@.len() - i,
    {
        v.push(s[i]);
        i = i + 1;
    }
    assert(v@ =~= s@.skip(from as int));
    v
}

/// Whether `needle` occurs somewhere in `s`.
pub open spec fn contains_seq(s: Seq<char>, needle: Seq<char>) -> bool {
    exists|i: int| 0 <= i && i + needle.len() <= s.len() && #[trigger] s.subrange(i, i + needle.len()) == needle
}

/// Whether the characters of `needle` occur in `s`.
pub fn contains_str(s: &[char], needle: &str) -> (b: bool)
    ensures
        b == contains_seq(s@, needle@),
{
    let l = chars_of(needle);
    let n = l.len();
    if n > s.len() {
        assert forall|i: int| 0 <= i && i + needle@.len() <= s@.len() implies #[trigger] s@.subrange(
            i,
            i + needle@.len(),
        ) != needle@ by {}
        return false;
    }
    let sl = s.len();
    if n == 0 {
        assert(s@.subrange(0int, 0int + needle@.len()) =~= needle@);
        return true;
    }
    let last = sl - n;
    let mut i: usize = 0;
    while i <= last
        invariant
            l@ == needle@,
            n == l@.len(),
            1 <= n <= s@.len(),
            sl == s@.len(),
            last == s@.len() - n,
            i <= last + 1,
            forall|k: int| 0 <= k < i ==> #[trigger] s@.subrange(k, k + n) != l@,
        decreases last + 1 - i,
    {
        let mut j: usize = 0;
        let mut ok = true;
        while j < n
            invariant
                l@ == needle@,
                n == l@.len(),
                sl == s@.len(),
                i + n <= s@.len(),
                j <= n,
                ok ==> forall|q: int| 0 <= q < j ==> s@[i + q] == l@[q],
                !ok ==> s@.subrange(i as int, i + n) != l@,
            decreases n - j,
        {
            if s[i + j] != l[j] {
                ok = false;
                assert(s@.subrange(i as int, i + n)[j as int] != l@[j as int]);
            }
            j = j + 1;
        }
        if ok {
            assert(s@.subrange(i as int, i + n) =~= l@);
            return true;
        }
        i = i + 1;
    }
    false
}

/// First index `>= i` holding `sep`, or the length.
pub open spec fn next_sep(s: Seq<char>, i: int, sep: char) -> int
    decreases s.len() - i,
{
    if i >= s.len() {
        s.len() as int
    } else if s[i] == sep {
        i
    } else {
        next_sep(s, i + 1, sep)
    }
}

/// The pieces of `s` from `i` on between the separators (`str::split`).
pub open spec fn split_from(s: Seq<char>, i: int, sep: char) -> Seq<Seq<char>>
    decreases s.len() - i,
{
    let j = next_sep(s, i, sep);
    if i < 0 || j >= s.len() || j < i {
        seq![s.subrange(i, s.len() as int)]
    } else {
        seq![s.subrange(i, j)] + split_from(s, j + 1, sep)
    }
}

proof fn lemma_next_sep(s: Seq<char>, i: int, sep: char)
    requires
        0 <= i <= s.len(),
    ensures
        i <= next_sep(s, i, sep) <= s.len(),
        next_sep(s, i, sep) < s.len() ==> s[next_sep(s, i, sep)] == sep,
        forall|k: int| i <= k < next_sep(s, i, sep) ==> s[k] != sep,
    decreases s.len() - i,
{
    if i < s.len() && s[i] != sep {
        lemma_next_sep(s, i + 1, sep);
    }
}

/// The pieces of `s` between the separators.
pub fn split_on(s: &[char], sep: char) -> (parts: Vec<Vec<char>>)
    ensures
        parts@.len() == split_from(s@, 0, sep).len(),
        forall|k: int| 0 <= k < parts@.len() ==> #[trigger] parts@[k]@ == split_from(s@, 0, sep)[k],
{
    let mut parts: Vec<Vec<char>> = Vec::new();
    let mut i: usize = 0;
    let mut done = false;
    while !done
        invariant
            i <= s@.len(),
            !done ==> parts@.len() + split_from(s@, i as int, sep).len() == split_from(s@, 0, sep).len(),
            !done ==> forall|k: int| 0 <= k < split_from(s@, i as int, sep).len() ==> #[trigger] split_from(s@, i as int, sep)[k]
                == split_from(s@, 0, sep)[parts@.len() + k],
            done ==> parts@.len() == split_from(s@, 0, sep).len(),
            forall|k: int| 0 <= k < parts@.len() ==> #[trigger] parts@[k]@ == split_from(s@, 0, sep)[k],
        decreases s@.len() - i + (if done { 0int } else { 1 }),
    {
        proof {
            lemma_next_sep(s@, i as int, sep);
        }
        let mut piece: Vec<char> = Vec::new();
        let mut j: usize = i;
        while j < s.len() && s[j] != sep
            invariant
                i <= j <= s@.len(),
                j <= next_sep(s@, i as int, sep),
                next_sep(s@, i as int, sep) <= s@.len(),
                next_sep(s@, i as int, sep) < s@.len() ==> s@[next_sep(s@, i as int, sep)] == sep,
                forall|k: int| i <= k < next_sep(s@, i as int, sep) ==> s@[k] != sep,
                piece@ == s@.subrange(i as int, j as int),
            decreases s@.len() - j,
        {
            piece.push(s[j]);
            j = j + 1;
        }
        assert(j == next_sep(s@, i as int, sep));
        let ghost rest = split_from(s@, i as int, sep);
        assert(rest[0] == piece@);
        parts.push(piece);
        if j >= s.len() {
            assert(rest.len() == 1);
            done = true;
        } else {
            assert(rest == seq![s@.subrange(i as int, j as int)] + split_from(s@, j + 1, sep));
            assert forall|k: int| 0 <= k < split_from(s@, j + 1, sep).len() implies #[trigger] split_from(
                s@,
                j + 1,
                sep,
            )[k] == split_from(s@, 0, sep)[parts@.len() + k] by {
                assert(split_from(s@, j + 1, sep)[k] == rest[k + 1]);
            }
            i = j + 1;
        }
    }
    parts
}

} // verus!
