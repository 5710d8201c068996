//! Characters and numbers in text: splitting at a separator, reading an unsigned
//! decimal number the way `str::parse::<u64>` does, and writing numbers in decimal
//! and in lower-case hexadecimal.
use vstd::prelude::*;
use vstd::string::*;

verus! {

broadcast use vstd::string::group_string_axioms;

// ---------------------------------------------------------------------------
// Splitting
// ---------------------------------------------------------------------------

/// The pieces of `s` between occurrences of `sep`, as `str::split` yields them:
/// there is always at least one piece, and `k` separators give `k + 1` pieces.
pub open spec fn split_on(s: Seq<char>, sep: char) -> Seq<Seq<char>>
    decreases s.len(),
{
    if s.len() == 0 {
        seq![Seq::<char>::empty()]
    } else {
        let prev = split_on(s.drop_last(), sep);
        if s.last() == sep {
            prev.push(Seq::<char>::empty())
        } else {
            prev.update(prev.len() - 1, prev.last().push(s.last()))
        }
    }
}

/// `split_on` always gives at least one piece.
pub proof fn lemma_split_nonempty(s: Seq<char>, sep: char)
    ensures
        split_on(s, sep).len() >= 1,
    decreases s.len(),
{
    if s.len() > 0 {
        lemma_split_nonempty(s.drop_last(), sep);
    }
}

/// A text without the separator is a single piece.
pub proof fn lemma_split_without_separator(s: Seq<char>, sep: char)
    requires
        !s.contains(sep),
    ensures
        split_on(s, sep) == seq![s],
    decreases s.len(),
{
    if s.len() > 0 {
        assert(!s.drop_last().contains(sep)) by {
            if s.drop_last().contains(sep) {
                let i = choose|i: int| 0 <= i < s.drop_last().len() && s.drop_last()[i] == sep;
                assert(s[i] == sep);
            }
        }
        lemma_split_without_separator(s.drop_last(), sep);
        assert(s.last() != sep) by {
            assert(s[s.len() - 1] == s.last());
        }
        assert(s.drop_last().push(s.last()) =~= s);
        assert(split_on(s, sep) =~= seq![s]);
    } else {
        assert(s =~= Seq::<char>::empty());
    }
}

/// Splitting `s`, a separator and `t` gives the pieces of `s` followed by those of `t`.
pub proof fn lemma_split_concat(s: Seq<char>, sep: char, t: Seq<char>)
    ensures
        split_on(s.push(sep) + t, sep) == split_on(s, sep) + split_on(t, sep),
    decreases t.len(),
{
    lemma_split_nonempty(s, sep);
    if t.len() == 0 {
        assert(s.push(sep) + t =~= s.push(sep));
        assert(s.push(sep).drop_last() =~= s);
        assert(split_on(s, sep).push(Seq::<char>::empty()) =~= split_on(s, sep) + split_on(t, sep));
    } else {
        let whole = s.push(sep) + t;
        lemma_split_concat(s, sep, t.drop_last());
        lemma_split_nonempty(t.drop_last(), sep);
        assert(whole.drop_last() =~= s.push(sep) + t.drop_last());
        assert(whole.last() == t.last());
        let a = split_on(s, sep);
        let b = split_on(t.drop_last(), sep);
        if t.last() == sep {
            assert((a + b).push(Seq::<char>::empty()) =~= a + b.push(Seq::<char>::empty()));
        } else {
            assert((a + b).update((a + b).len() - 1, (a + b).last().push(t.last())) =~= a + b.update(
                b.len() - 1,
                b.last().push(t.last()),
            ));
        }
    }
}

/// Five separator-free pieces joined by the separator split back into those pieces.
pub proof fn lemma_split_five(p: Seq<char>, a: Seq<char>, b: Seq<char>, c: Seq<char>, d: Seq<char>, sep: char)
    requires
        !p.contains(sep),
        !a.contains(sep),
        !b.contains(sep),
        !c.contains(sep),
        !d.contains(sep),
    ensures
        split_on(p.push(sep) + (a.push(sep) + (b.push(sep) + (c.push(sep) + d))), sep) == seq![p, a, b, c, d],
{
    lemma_split_without_separator(p, sep);
    lemma_split_without_separator(a, sep);
    lemma_split_without_separator(b, sep);
    lemma_split_without_separator(c, sep);
    lemma_split_without_separator(d, sep);
    let cd = c.push(sep) + d;
    lemma_split_concat(c, sep, d);
    let bcd = b.push(sep) + cd;
    lemma_split_concat(b, sep, cd);
    let abcd = a.push(sep) + bcd;
    lemma_split_concat(a, sep, bcd);
    lemma_split_concat(p, sep, abcd);
    assert(split_on(p.push(sep) + abcd, sep) =~= seq![p, a, b, c, d]);
}

/// The characters of `s`, in order.
pub fn chars_of(s: &str) -> (v: Vec<char>)
    ensures
        v@ == s@,
{
    let n = s.unicode_len();
    let mut v: Vec<char> = Vec::new();
    let mut i: usize = 0;
    while i < n
        invariant
            n == s@.len(),
            i <= n,
            v@ == s@.take(i as int),
        decreases n - i,
    {
        v.push(s.get_char(i));
        assert(s@.take(i + 1) =~= v@);
        i = i + 1;
    }
    assert(s@.take(n as int) =~= s@);
    v
}

/// The views of a sequence of character vectors.
pub open spec fn views(pieces: Seq<Vec<char>>) -> Seq<Seq<char>> {
    pieces.map_values(|p: Vec<char>| p@)
}

/// Splits `s` at every `sep`, as `str::split` does.
pub fn split(s: &str, sep: char) -> (pieces: Vec<Vec<char>>)
    ensures
        views(pieces@) == split_on(s@, sep),
{
    let chars = chars_of(s);
    let n = chars.len();
    let mut done: Vec<Vec<char>> = Vec::new();
    let mut current: Vec<char> = Vec::new();
    let mut i: usize = 0;
    assert(s@.take(0) =~= Seq::<char>::empty());
    while i < n
        invariant
            n == chars@.len(),
            chars@ == s@,
            i <= n,
            views(done@).push(current@) == split_on(s@.take(i as int), sep),
        decreases n - i,
    {
        let c = chars[i];
        let ghost before = s@.take(i as int);
        assert(s@.take(i + 1).drop_last() =~= before);
        assert(s@.take(i + 1).last() == c);
        proof { lemma_split_nonempty(before, sep); }
        if c == sep {
            let piece = current;
            done.push(piece);
            current = Vec::new();
            assert(views(done@).push(current@) =~= views(done@.drop_last()).push(piece@).push(
                Seq::<char>::empty(),
            ));
            assert(views(done@.drop_last()) =~= views(done@).drop_last());
        } else {
            let ghost old_current = current@;
            current.push(c);
            assert(views(done@).push(current@) =~= views(done@).push(old_current).update(
                views(done@).len() as int,
                old_current.push(c),
            ));
        }
        i = i + 1;
    }
    assert(s@.take(n as int) =~= s@);
    done.push(current);
    assert(views(done@) =~= split_on(s@, sep));
    done
}

/// Whether `a` and `b` hold the same characters.
pub fn same_text(a: &str, b: &str) -> (same: bool)
    ensures
        same == (a@ == b@),
{
    let x = chars_of(a);
    let y = chars_of(b);
    if x.len() != y.len() {
        return false;
    }
    let n = x.len();
    let mut i: usize = 0;
    while i < n
        invariant
            n == x@.len(),
            n == y@.len(),
            x@ == a@,
            y@ == b@,
            i <= n,
            forall|j: int| 0 <= j < i ==> x@[j] == y@[j],
        decreases n - i,
    {
        if x[i] != y[i] {
            return false;
        }
        i = i + 1;
    }
    assert(x@ =~= y@);
    true
}

// ---------------------------------------------------------------------------
// Decimal numbers
// ---------------------------------------------------------------------------

pub open spec fn is_decimal_digit(c: char) -> bool {
    '0' <= c && c <= '9'
}

pub open spec fn all_decimal_digits(s: Seq<char>) -> bool {
    forall|i: int| 0 <= i < s.len() ==> is_decimal_digit(#[trigger] s[i])
}

/// The number that a string of decimal digits denotes.
pub open spec fn decimal_value(s: Seq<char>) -> nat
    decreases s.len(),
{
    if s.len() == 0 {
        0
    } else {
        decimal_value(s.drop_last()) * 10 + (s.last() as nat - '0' as nat) as nat
    }
}

/// The digits that `str::parse::<u64>` reads: a leading `+` is dropped.
pub open spec fn unsigned_digits(s: Seq<char>) -> Seq<char> {
    if s.len() > 0 && s[0] == '+' {
        s.drop_first()
    } else {
        s
    }
}

/// What `str::parse::<u64>` gives: an optional `+` and at least one decimal digit,
/// denoting a number that fits in a `u64`; anything else is refused.
pub open spec fn parse_u64_text(s: Seq<char>) -> Option<u64> {
    let d = unsigned_digits(s);
    if d.len() > 0 && all_decimal_digits(d) && decimal_value(d) <= u64::MAX {
        Some(decimal_value(d) as u64)
    } else {
        None
    }
}

/// A longer string of digits never denotes a smaller number.
pub proof fn lemma_decimal_value_grows(s: Seq<char>, k: int)
    requires
        0 <= k <= s.len(),
        all_decimal_digits(s),
    ensures
        decimal_value(s.take(k)) <= decimal_value(s),
    decreases s.len(),
{
    if k < s.len() {
        let p = s.drop_last();
        assert(all_decimal_digits(p)) by {
            assert forall|i: int| 0 <= i < p.len() implies is_decimal_digit(#[trigger] p[i]) by {
                assert(p[i] == s[i]);
            }
        }
        lemma_decimal_value_grows(p, k);
        assert(p.take(k) =~= s.take(k));
    } else {
        assert(s.take(k) =~= s);
    }
}

/// Why `str::parse::<u64>` refuses a text (the kinds of std's `ParseIntError` that
/// an unsigned type can give).
#[derive(Clone, Copy, Debug, PartialEq, Eq)]
pub enum ParseIntKind {
    /// The text is empty.
    Empty,
    /// The text holds a character that is not a digit (or is a lone sign).
    InvalidDigit,
    /// The number is larger than `u64::MAX`.
    PosOverflow,
}

/// The number of decimal digits at the start of `d`.
pub open spec fn first_non_digit(d: Seq<char>) -> nat
    decreases d.len(),
{
    if d.len() == 0 {
        0
    } else if !is_decimal_digit(d[0]) {
        0
    } else {
        1 + first_non_digit(d.drop_first())
    }
}

/// Why `str::parse::<u64>` refuses `s`, where it does: an empty text is empty; else
/// the digits are read in order, and the number growing past `u64::MAX` before the
/// first non-digit is an overflow, while meeting a non-digit first (or a lone sign)
/// is an invalid digit.
pub open spec fn parse_u64_failure(s: Seq<char>) -> ParseIntKind {
    if s.len() == 0 {
        ParseIntKind::Empty
    } else {
        let d = unsigned_digits(s);
        if decimal_value(d.take(first_non_digit(d) as int)) > u64::MAX {
            ParseIntKind::PosOverflow
        } else {
            ParseIntKind::InvalidDigit
        }
    }
}

/// What `str::parse::<u64>` gives, with the kind of its error.
pub open spec fn parse_u64_result(s: Seq<char>) -> Result<u64, ParseIntKind> {
    match parse_u64_text(s) {
        Some(v) => Ok(v),
        None => Err(parse_u64_failure(s)),
    }
}

/// The digits at the start of `d` end where the first non-digit stands.
pub proof fn lemma_first_non_digit(d: Seq<char>, i: int)
    requires
        0 <= i <= d.len(),
        forall|j: int| 0 <= j < i ==> is_decimal_digit(#[trigger] d[j]),
        i == d.len() || !is_decimal_digit(d[i]),
    ensures
        first_non_digit(d) == i,
    decreases i,
{
    if i > 0 {
        let r = d.drop_first();
        assert forall|j: int| 0 <= j < i - 1 implies is_decimal_digit(#[trigger] r[j]) by {
            assert(r[j] == d[j + 1]);
        }
        if i < d.len() {
            assert(r[i - 1] == d[i]);
        }
        assert(is_decimal_digit(d[0]));
        lemma_first_non_digit(r, i - 1);
    }
}

/// The run of digits at the start of `d` is at least as long as any run of digits
/// that `d` starts with, and is made of digits.
pub proof fn lemma_first_non_digit_at_least(d: Seq<char>, m: int)
    requires
        0 <= m <= d.len(),
        forall|j: int| 0 <= j < m ==> is_decimal_digit(#[trigger] d[j]),
    ensures
        m <= first_non_digit(d) <= d.len(),
        all_decimal_digits(d.take(first_non_digit(d) as int)),
    decreases d.len(),
{
    if d.len() > 0 && is_decimal_digit(d[0]) {
        let r = d.drop_first();
        let m2 = if m > 0 {
            m - 1
        } else {
            0
        };
        assert forall|j: int| 0 <= j < m2 implies is_decimal_digit(#[trigger] r[j]) by {
            assert(r[j] == d[j + 1]);
        }
        lemma_first_non_digit_at_least(r, m2);
        let k = first_non_digit(d) as int;
        assert forall|j: int| 0 <= j < k implies is_decimal_digit(#[trigger] d.take(k)[j]) by {
            if j > 0 {
                assert(d.take(k)[j] == r.take(k - 1)[j - 1]);
            }
        }
    } else {
        assert(m == 0) by {
            if m > 0 {
                assert(is_decimal_digit(d[0]));
            }
        }
        assert(d.take(0) =~= Seq::<char>::empty());
    }
}

/// Reads an unsigned decimal number as `str::parse::<u64>` does, with the kind of
/// error it gives.
pub fn parse_u64_detailed(s: &[char]) -> (r: Result<u64, ParseIntKind>)
    ensures
        r == parse_u64_result(s@),
{
    let n = s.len();
    if n == 0 {
        return Err(ParseIntKind::Empty);
    }
    let mut start: usize = 0;
    if s[0] == '+' {
        start = 1;
    }
    let ghost d = unsigned_digits(s@);
    assert(d =~= s@.subrange(start as int, n as int));
    if start >= n {
        proof {
            assert(d.len() == 0);
            assert(d.take(0) =~= Seq::<char>::empty());
            lemma_first_non_digit(d, 0);
        }
        return Err(ParseIntKind::InvalidDigit);
    }
    let mut i: usize = start;
    let mut acc: u64 = 0;
    assert(s@.subrange(start as int, start as int) =~= Seq::<char>::empty());
    while i < n
        invariant
            n == s@.len(),
            n > 0,
            start < n,
            start <= i <= n,
            d == s@.subrange(start as int, n as int),
            d == unsigned_digits(s@),
            all_decimal_digits(s@.subrange(start as int, i as int)),
            acc as nat == decimal_value(s@.subrange(start as int, i as int)),
        decreases n - i,
    {
        let c = s[i];
        let ghost prefix = s@.subrange(start as int, i as int);
        let ghost next = s@.subrange(start as int, i + 1);
        assert(next.drop_last() =~= prefix);
        assert(next.last() == c);
        if !('0' <= c && c <= '9') {
            proof {
                assert(d[i - start] == c);
                assert(!is_decimal_digit(d[i - start]));
                assert forall|j: int| 0 <= j < i - start implies is_decimal_digit(#[trigger] d[j]) by {
                    assert(d[j] == prefix[j]);
                }
                lemma_first_non_digit(d, i - start);
                assert(d.take(i - start) =~= prefix);
            }
            return Err(ParseIntKind::InvalidDigit);
        }
        let digit = (c as u32 - '0' as u32) as u64;
        assert(digit < 10);
        assert(all_decimal_digits(next)) by {
            assert forall|j: int| 0 <= j < next.len() implies is_decimal_digit(#[trigger] next[j]) by {
                if j < prefix.len() {
                    assert(next[j] == prefix[j]);
                }
            }
        }
        assert(decimal_value(next) == acc * 10 + digit);
        if acc > (u64::MAX - digit) / 10 {
            assert(acc * 10 + digit > u64::MAX) by (nonlinear_arith)
                requires
                    acc > (u64::MAX - digit) / 10,
                    digit < 10,
            ;
            proof {
                let m = (i + 1 - start) as int;
                assert forall|j: int| 0 <= j < m implies is_decimal_digit(#[trigger] d[j]) by {
                    assert(d[j] == next[j]);
                }
                lemma_first_non_digit_at_least(d, m);
                let k = first_non_digit(d) as int;
                assert(d.take(k).take(m) =~= next);
                lemma_decimal_value_grows(d.take(k), m);
                if all_decimal_digits(d) {
                    assert(d.take(m) =~= next);
                    lemma_decimal_value_grows(d, m);
                }
            }
            return Err(ParseIntKind::PosOverflow);
        }
        assert(acc * 10 + digit <= u64::MAX) by (nonlinear_arith)
            requires
                acc <= (u64::MAX - digit) / 10,
                digit < 10,
        ;
        acc = acc * 10 + digit;
        i = i + 1;
    }
    Ok(acc)
}

/// Reads an unsigned decimal number as `str::parse::<u64>` does.
pub fn parse_u64(s: &[char]) -> (r: Option<u64>)
    ensures
        r == parse_u64_text(s@),
{
    match parse_u64_detailed(s) {
        Ok(v) => Some(v),
        Err(_) => None,
    }
}

/// The digit character of `d`, for `d` below sixteen: `0`-`9`, then `a`-`f`.
pub open spec fn digit_char(d: nat) -> char {
    if d < 10 {
        ('0' as nat + d) as char
    } else {
        ('a' as nat + (d - 10)) as char
    }
}

/// `n` in decimal, without leading zeros (`0` is written `0`).
pub open spec fn decimal_text(n: nat) -> Seq<char>
    decreases n,
{
    if n < 10 {
        seq![digit_char(n)]
    } else {
        decimal_text(n / 10).push(digit_char(n % 10))
    }
}

/// `n` in lower-case hexadecimal, without leading zeros, as `format!("{:x}", n)`.
pub open spec fn hex_text(n: nat) -> Seq<char>
    decreases n,
{
    if n < 16 {
        seq![digit_char(n)]
    } else {
        hex_text(n / 16).push(digit_char(n % 16))
    }
}

/// Appends `c` to `s` with `String::push`.
#[verifier::external_body]
pub(crate) fn push_char(s: &mut String, c: char)
    ensures
        final(s)@ == old(s)@.push(c),
{
    s.push(c)
}

/// Appends `t` to `s`.
pub fn push_str(s: &mut String, t: &str)
    ensures
        final(s)@ == old(s)@ + t@,
{
    let chars = chars_of(t);
    let n = chars.len();
    let ghost start = s@;
    let mut i: usize = 0;
    while i < n
        invariant
            n == chars@.len(),
            chars@ == t@,
            i <= n,
            s@ == start + t@.take(i as int),
        decreases n - i,
    {
        push_char(s, chars[i]);
        assert(t@.take(i + 1) =~= t@.take(i as int).push(chars@[i as int]));
        assert(start + t@.take(i + 1) =~= (start + t@.take(i as int)).push(chars@[i as int]));
        i = i + 1;
    }
    assert(t@.take(n as int) =~= t@);
}

fn digit_to_char(d: u64) -> (c: char)
    requires
        d < 16,
    ensures
        c == digit_char(d as nat),
{
    if d < 10 {
        ((d as u8) + 48u8) as char
    } else {
        ((d as u8) + 87u8) as char
    }
}

/// Appends `n` in decimal to `s`.
pub fn push_decimal(s: &mut String, n: u64)
    ensures
        final(s)@ == old(s)@ + decimal_text(n as nat),
    decreases n,
{
    let ghost start = s@;
    if n >= 10 {
        push_decimal(s, n / 10);
    }
    push_char(s, digit_to_char(n % 10));
    if n >= 10 {
        assert(start + decimal_text(n as nat) =~= (start + decimal_text((n / 10) as nat)).push(
            digit_char((n % 10) as nat),
        ));
    } else {
        assert(start + decimal_text(n as nat) =~= start.push(digit_char(n as nat)));
    }
}

/// Appends `n` in lower-case hexadecimal to `s`.
pub fn push_hex(s: &mut String, n: u64)
    ensures
        final(s)@ == old(s)@ + hex_text(n as nat),
    decreases n,
{
    let ghost start = s@;
    if n >= 16 {
        push_hex(s, n / 16);
    }
    push_char(s, digit_to_char(n % 16));
    if n >= 16 {
        assert(start + hex_text(n as nat) =~= (start + hex_text((n / 16) as nat)).push(
            digit_char((n % 16) as nat),
        ));
    } else {
        assert(start + hex_text(n as nat) =~= start.push(digit_char(n as nat)));
    }
}

/// `n` in decimal, as `n.to_string()` gives it.
pub fn decimal_string(n: u64) -> (s: String)
    ensures
        s@ == decimal_text(n as nat),
{
    let mut s = String::new();
    push_decimal(&mut s, n);
    assert(Seq::<char>::empty() + decimal_text(n as nat) =~= decimal_text(n as nat));
    s
}

/// Decimal text is made of digits, is never empty and never starts with `+`,
/// and denotes the number it was written from.
pub proof fn lemma_decimal_text(n: nat)
    ensures
        decimal_text(n).len() > 0,
        all_decimal_digits(decimal_text(n)),
        decimal_value(decimal_text(n)) == n,
        decimal_text(n)[0] != '+',
        !decimal_text(n).contains('&'),
    decreases n,
{
    let t = decimal_text(n);
    if n < 10 {
        assert(t.drop_last() =~= Seq::<char>::empty());
        lemma_digit_char_value(n);
        assert(decimal_value(Seq::<char>::empty()) == 0);
        assert(t.last() == digit_char(n));
        assert(decimal_value(t) == n);
    } else {
        lemma_decimal_text(n / 10);
        let p = decimal_text(n / 10);
        assert(t.drop_last() =~= p);
        lemma_digit_char_value((n % 10) as nat);
        assert(decimal_value(t) == n);
        assert(all_decimal_digits(t)) by {
            assert forall|i: int| 0 <= i < t.len() implies is_decimal_digit(#[trigger] t[i]) by {
                if i < p.len() {
                    assert(t[i] == p[i]);
                }
            }
        }
        assert(t[0] == p[0]);
    }
    assert(!t.contains('&')) by {
        if t.contains('&') {
            let i = choose|i: int| 0 <= i < t.len() && t[i] == '&';
            assert(is_decimal_digit(t[i]));
        }
    }
}

proof fn lemma_digit_char_value(d: nat)
    requires
        d < 10,
    ensures
        digit_char(d) as nat == '0' as nat + d,
        is_decimal_digit(digit_char(d)),
{
}

/// Reading back the decimal text of a `u64` gives the number.
pub proof fn lemma_parse_decimal_text(n: u64)
    ensures
        parse_u64_text(decimal_text(n as nat)) == Some(n),
{
    lemma_decimal_text(n as nat);
}

/// Hexadecimal text is never empty and is made of `0`-`9` and `a`-`f`.
pub open spec fn is_lower_hex_digit(c: char) -> bool {
    ('0' <= c && c <= '9') || ('a' <= c && c <= 'f')
}

pub proof fn lemma_hex_text(n: nat)
    ensures
        hex_text(n).len() > 0,
        forall|i: int| 0 <= i < hex_text(n).len() ==> is_lower_hex_digit(#[trigger] hex_text(n)[i]),
    decreases n,
{
    if n >= 16 {
        lemma_hex_text(n / 16);
        let p = hex_text(n / 16);
        let t = hex_text(n);
        assert forall|i: int| 0 <= i < t.len() implies is_lower_hex_digit(#[trigger] t[i]) by {
            if i < p.len() {
                assert(t[i] == p[i]);
            }
        }
    }
}

} // verus!
