//! Character-level text utilities with exact specifications.

use vstd::prelude::*;

verus! {

/// The characters of `s`, in order.
pub fn chars_of(s: &str) -> (r: Vec<char>)
    ensures
        r@ == s@,
{
    let mut r: Vec<char> = Vec::new();
    for c in it: s.chars()
        invariant
            r@ == it.seq().take(it.index() as int),
    {
        r.push(c);
    }
    r
}

/// Appends one character; calls `String::push`.
#[verifier::external_body]
pub fn push_char(s: &mut String, c: char)
    ensures
        final(s)@ == old(s)@.push(c),
{
    s.push(c);
}

/// A `String` holding exactly the given characters.
pub fn string_from_chars(chars: &Vec<char>) -> (r: String)
    ensures
        r@ == chars@,
{
    let mut r = String::new();
    let n = chars.len();
    for i in 0..n
        invariant
            n == chars@.len(),
            r@ == chars@.take(i as int),
    {
        push_char(&mut r, chars[i]);
        assert(chars@.take(i + 1) == chars@.take(i as int).push(chars@[i as int]));
    }
    assert(chars@.take(n as int) == chars@);
    r
}

/// Appends every character of `suffix`.
pub fn push_str(s: &mut String, suffix: &str)
    ensures
        final(s)@ == old(s)@ + suffix@,
{
    let cs = chars_of(suffix);
    let n = cs.len();
    let ghost start = s@;
    for i in 0..n
        invariant
            n == cs@.len(),
            cs@ == suffix@,
            s@ == start + cs@.take(i as int),
    {
        push_char(s, cs[i]);
        assert(cs@.take(i + 1) == cs@.take(i as int).push(cs@[i as int]));
    }
    assert(cs@.take(n as int) == cs@);
}

/// The decimal digit character for `d`.
pub open spec fn digit_char(d: nat) -> char {
    (d + 48) as char
}

/// The decimal representation of `n`, without sign or leading zeros.
pub open spec fn decimal(n: nat) -> Seq<char>
    decreases n,
{
    if n < 10 {
        seq![digit_char(n)]
    } else {
        decimal(n / 10).push(digit_char(n % 10))
    }
}

fn digit(d: u8) -> (c: char)
    requires
        d < 10,
    ensures
        c == digit_char(d as nat),
{
    (d + 48) as char
}

/// Appends the decimal representation of `n`.
pub fn push_decimal(s: &mut String, n: u128)
    ensures
        final(s)@ == old(s)@ + decimal(n as nat),
    decreases n,
{
    if n >= 10 {
        push_decimal(s, n / 10);
    }
    let d = (n % 10) as u8;
    push_char(s, digit(d));
}


/// Why a decimal number could not be read; the kinds that `u32::from_str` reports.
#[derive(Clone, Copy, Debug, PartialEq, Eq, Structural)]
pub enum IntErrorKind {
    Empty,
    InvalidDigit,
    PosOverflow,
}

/// `c` is one of `0` to `9`.
pub open spec fn is_ascii_digit(c: char) -> bool {
    '0' <= c <= '9'
}

/// The value of the decimal digit `c`.
pub open spec fn digit_value(c: char) -> nat {
    (c as nat - 48) as nat
}

/// Reads the digits of `s` from left to right, stopping at the first
/// character that is not a digit or at the first digit that takes the
/// value past `u32::MAX`, whichever comes first.
pub open spec fn scan_digits(s: Seq<char>) -> Result<nat, IntErrorKind>
    decreases s.len(),
{
    if s.len() == 0 {
        Ok(0)
    } else {
        match scan_digits(s.drop_last()) {
            Err(k) => Err(k),
            Ok(v) => if !is_ascii_digit(s.last()) {
                Err(IntErrorKind::InvalidDigit)
            } else if v * 10 + digit_value(s.last()) > u32::MAX {
                Err(IntErrorKind::PosOverflow)
            } else {
                Ok(v * 10 + digit_value(s.last()))
            },
        }
    }
}

/// What `s.parse::<u32>()` gives: an optional leading `+`, then at least one
/// decimal digit, with the value at most `u32::MAX`.
pub open spec fn parse_u32_spec(s: Seq<char>) -> Result<u32, IntErrorKind> {
    if s.len() == 0 {
        Err(IntErrorKind::Empty)
    } else if s.len() == 1 && (s[0] == '+' || s[0] == '-') {
        Err(IntErrorKind::InvalidDigit)
    } else {
        let body = if s[0] == '+' { s.drop_first() } else { s };
        match scan_digits(body) {
            Ok(v) => Ok(v as u32),
            Err(k) => Err(k),
        }
    }
}

/// Parses an unsigned 32-bit decimal number as `str::parse::<u32>` does.
pub fn parse_u32(s: &str) -> (r: Result<u32, IntErrorKind>)
    ensures
        r == parse_u32_spec(s@),
{
    parse_u32_chars(&chars_of(s))
}

/// Parses the characters `cs` as `str::parse::<u32>` parses them.
pub fn parse_u32_chars(cs: &Vec<char>) -> (r: Result<u32, IntErrorKind>)
    ensures
        r == parse_u32_spec(cs@),
{
    let ghost s = cs@;
    let n = cs.len();
    if n == 0 {
        return Err(IntErrorKind::Empty);
    }
    if n == 1 && (cs[0] == '+' || cs[0] == '-') {
        return Err(IntErrorKind::InvalidDigit);
    }
    let start: usize = if cs[0] == '+' { 1 } else { 0 };
    let ghost body = if cs@[0] == '+' { cs@.drop_first() } else { cs@ };
    assert(body == cs@.subrange(start as int, n as int));
    let ghost expected = match scan_digits(body) {
        Ok(v) => Ok::<u32, IntErrorKind>(v as u32),
        Err(k) => Err::<u32, IntErrorKind>(k),
    };
    assert(parse_u32_spec(s) == expected);
    let mut acc: u32 = 0;
    let mut i: usize = start;
    while i < n
        invariant
            n == cs@.len(),
            s == cs@,
            start <= i <= n,
            body == cs@.subrange(start as int, n as int),
            parse_u32_spec(s) == expected,
            expected == match scan_digits(body) {
                Ok(v) => Ok::<u32, IntErrorKind>(v as u32),
                Err(k) => Err::<u32, IntErrorKind>(k),
            },
            scan_digits(cs@.subrange(start as int, i as int)) == Ok::<nat, IntErrorKind>(acc as nat),
        decreases n - i,
    {
        let c = cs[i];
        let ghost pre = cs@.subrange(start as int, i as int);
        assert(cs@.subrange(start as int, i + 1).drop_last() == pre);
        assert(body.take(i - start + 1) == cs@.subrange(start as int, i + 1));
        if !('0' <= c && c <= '9') {
            assert(scan_digits(cs@.subrange(start as int, i + 1)) == Err::<nat, IntErrorKind>(IntErrorKind::InvalidDigit));
            proof { lemma_scan_prefix_error(body, (i - start) as nat + 1); }
            return Err(IntErrorKind::InvalidDigit);
        }
        let d: u32 = ((c as u32) - 48) as u32;
        if acc > 429496729 || (acc == 429496729 && d > 5) {
            assert(acc * 10 + d > u32::MAX) by (nonlinear_arith)
                requires acc > 429496729 || (acc == 429496729 && d > 5);
            assert(scan_digits(cs@.subrange(start as int, i + 1)) == Err::<nat, IntErrorKind>(IntErrorKind::PosOverflow));
            proof { lemma_scan_prefix_error(body, (i - start) as nat + 1); }
            return Err(IntErrorKind::PosOverflow);
        }
        assert(acc * 10 + d <= u32::MAX) by (nonlinear_arith)
            requires !(acc > 429496729 || (acc == 429496729 && d > 5)), d < 10;
        acc = acc * 10 + d;
        i = i + 1;
    }
    assert(cs@.subrange(start as int, n as int) == body);
    Ok(acc)
}

/// Once a prefix of `s` fails to scan, the whole of `s` fails the same way.
proof fn lemma_scan_prefix_error(s: Seq<char>, k: nat)
    requires
        k <= s.len(),
        scan_digits(s.take(k as int)) is Err,
    ensures
        scan_digits(s) == scan_digits(s.take(k as int)),
    decreases s.len() - k,
{
    if k < s.len() {
        assert(s.take(k as int + 1).drop_last() == s.take(k as int));
        lemma_scan_prefix_error(s, k + 1);
    } else {
        assert(s.take(k as int) == s);
    }
}


/// Whether `a` and `b` hold the same characters.
pub fn chars_equal(a: &Vec<char>, b: &Vec<char>) -> (r: bool)
    ensures
        r == (a@ == b@),
{
    if a.len() != b.len() {
        return false;
    }
    let n = a.len();
    for i in 0..n
        invariant
            n == a@.len(),
            n == b@.len(),
            forall|j: int| 0 <= j < i ==> a@[j] == b@[j],
    {
        if a[i] != b[i] {
            return false;
        }
    }
    assert(a@ =~= b@);
    true
}

/// Whether the two strings hold the same characters.
pub fn str_equal(a: &str, b: &str) -> (r: bool)
    ensures
        r == (a@ == b@),
{
    chars_equal(&chars_of(a), &chars_of(b))
}

/// `prefix` is an initial part of `s`.
pub open spec fn has_prefix(s: Seq<char>, prefix: Seq<char>) -> bool {
    prefix.len() <= s.len() && s.take(prefix.len() as int) == prefix
}

/// Whether `s` starts with `prefix`, as `str::starts_with` with a string pattern.
pub fn starts_with(s: &str, prefix: &str) -> (r: bool)
    ensures
        r == has_prefix(s@, prefix@),
{
    let a = chars_of(s);
    let b = chars_of(prefix);
    if b.len() > a.len() {
        return false;
    }
    let n = b.len();
    for i in 0..n
        invariant
            n == b@.len(),
            n <= a@.len(),
            a@ == s@,
            b@ == prefix@,
            forall|j: int| 0 <= j < i ==> a@[j] == b@[j],
    {
        if a[i] != b[i] {
            assert(a@.take(n as int)[i as int] != b@[i as int]);
            return false;
        }
    }
    assert(a@.take(n as int) =~= b@);
    true
}

/// ASCII lower case of one character; other characters are kept.
pub open spec fn ascii_lower(c: char) -> char {
    if 'A' <= c <= 'Z' {
        ((c as u32) + 32) as char
    } else {
        c
    }
}

/// Equality up to ASCII letter case.
pub open spec fn eq_ignore_ascii_case(a: Seq<char>, b: Seq<char>) -> bool {
    a.len() == b.len() && forall|i: int| 0 <= i < a.len() ==> ascii_lower(a[i]) == ascii_lower(b[i])
}

fn lower(c: char) -> (r: char)
    ensures
        r == ascii_lower(c),
{
    if 'A' <= c && c <= 'Z' {
        ((c as u8) + 32) as char
    } else {
        c
    }
}

/// Whether the two strings are equal when ASCII letters are compared without case.
pub fn equals_ignore_ascii_case(a: &str, b: &str) -> (r: bool)
    ensures
        r == eq_ignore_ascii_case(a@, b@),
{
    let x = chars_of(a);
    let y = chars_of(b);
    if x.len() != y.len() {
        return false;
    }
    let n = x.len();
    for i in 0..n
        invariant
            n == x@.len(),
            n == y@.len(),
            x@ == a@,
            y@ == b@,
            forall|j: int| 0 <= j < i ==> ascii_lower(x@[j]) == ascii_lower(y@[j]),
    {
        if lower(x[i]) != lower(y[i]) {
            return false;
        }
    }
    true
}

/// The White_Space characters of Unicode, the set that `char::is_whitespace` tests.
pub open spec fn is_whitespace(c: char) -> bool {
    ||| '\t' <= c <= '\r'
    ||| c == ' '
    ||| c == '\u{85}'
    ||| c == '\u{a0}'
    ||| c == '\u{1680}'
    ||| '\u{2000}' <= c <= '\u{200a}'
    ||| c == '\u{2028}'
    ||| c == '\u{2029}'
    ||| c == '\u{202f}'
    ||| c == '\u{205f}'
    ||| c == '\u{3000}'
}

fn whitespace(c: char) -> (r: bool)
    ensures
        r == is_whitespace(c),
{
    ('\t' <= c && c <= '\r') || c == ' ' || c == '\u{85}' || c == '\u{a0}' || c == '\u{1680}'
        || ('\u{2000}' <= c && c <= '\u{200a}') || c == '\u{2028}' || c == '\u{2029}'
        || c == '\u{202f}' || c == '\u{205f}' || c == '\u{3000}'
}

/// `s` without its leading white space.
pub open spec fn trim_start(s: Seq<char>) -> Seq<char>
    decreases s.len(),
{
    if s.len() > 0 && is_whitespace(s[0]) {
        trim_start(s.drop_first())
    } else {
        s
    }
}

/// `s` without its trailing white space.
pub open spec fn trim_end(s: Seq<char>) -> Seq<char>
    decreases s.len(),
{
    if s.len() > 0 && is_whitespace(s.last()) {
        trim_end(s.drop_last())
    } else {
        s
    }
}

/// `s` without leading and trailing white space, as `str::trim` gives it.
pub open spec fn trim(s: Seq<char>) -> Seq<char> {
    trim_end(trim_start(s))
}

/// The characters of `s` with leading and trailing white space removed.
pub fn trimmed_chars(s: &str) -> (r: Vec<char>)
    ensures
        r@ == trim(s@),
{
    let cs = chars_of(s);
    let n = cs.len();
    let mut i: usize = 0;
    assert(cs@.subrange(0, n as int) == cs@);
    while i < n && whitespace(cs[i])
        invariant
            n == cs@.len(),
            cs@ == s@,
            i <= n,
            trim_start(s@) == trim_start(cs@.subrange(i as int, n as int)),
        decreases n - i,
    {
        assert(cs@.subrange(i + 1, n as int) == cs@.subrange(i as int, n as int).drop_first());
        i = i + 1;
    }
    assert(trim_start(cs@.subrange(i as int, n as int)) == cs@.subrange(i as int, n as int));
    let mut j: usize = n;
    while j > i && whitespace(cs[j - 1])
        invariant
            n == cs@.len(),
            i <= j <= n,
            trim(s@) == trim_end(cs@.subrange(i as int, j as int)),
        decreases j,
    {
        assert(cs@.subrange(i as int, j - 1) == cs@.subrange(i as int, j as int).drop_last());
        j = j - 1;
    }
    let mut r: Vec<char> = Vec::new();
    let mut k: usize = i;
    while k < j
        invariant
            n == cs@.len(),
            i <= k <= j <= n,
            r@ == cs@.subrange(i as int, k as int),
        decreases j - k,
    {
        r.push(cs[k]);
        k = k + 1;
    }
    r
}

/// `i` is the first position of `c` in `s`.
pub open spec fn is_first_index(s: Seq<char>, c: char, i: int) -> bool {
    &&& 0 <= i < s.len()
    &&& s[i] == c
    &&& forall|j: int| 0 <= j < i ==> s[j] != c
}

/// `i` is the last position of `c` in `s`.
pub open spec fn is_last_index(s: Seq<char>, c: char, i: int) -> bool {
    &&& 0 <= i < s.len()
    &&& s[i] == c
    &&& forall|j: int| i < j < s.len() ==> s[j] != c
}

/// The parts before and after the first `c`, as `str::split_once` with a
/// character gives them; `None` where `c` does not occur.
pub open spec fn split_once_spec(s: Seq<char>, c: char) -> Option<(Seq<char>, Seq<char>)> {
    if exists|i: int| is_first_index(s, c, i) {
        let i = choose|i: int| is_first_index(s, c, i);
        Some((s.take(i), s.skip(i + 1)))
    } else {
        None
    }
}

/// The part before the first `c`, or all of `s` where `c` does not occur:
/// the first piece of `str::split(c)`.
pub open spec fn before_first(s: Seq<char>, c: char) -> Seq<char> {
    match split_once_spec(s, c) {
        Some(parts) => parts.0,
        None => s,
    }
}

/// The part after the last `c`, or all of `s` where `c` does not occur:
/// the last piece of `str::split(c)`.
pub open spec fn after_last(s: Seq<char>, c: char) -> Seq<char> {
    if exists|i: int| is_last_index(s, c, i) {
        let i = choose|i: int| is_last_index(s, c, i);
        s.skip(i + 1)
    } else {
        s
    }
}

fn subrange_of(cs: &Vec<char>, from: usize, to: usize) -> (r: Vec<char>)
    requires
        from <= to <= cs@.len(),
    ensures
        r@ == cs@.subrange(from as int, to as int),
{
    let mut r: Vec<char> = Vec::new();
    let mut k = from;
    while k < to
        invariant
            from <= k <= to <= cs@.len(),
            r@ == cs@.subrange(from as int, k as int),
        decreases to - k,
    {
        r.push(cs[k]);
        k = k + 1;
    }
    r
}

/// Splits at the first `c`.
pub fn split_once_chars(cs: &Vec<char>, c: char) -> (r: Option<(Vec<char>, Vec<char>)>)
    ensures
        match split_once_spec(cs@, c) {
            Some(parts) => r matches Some(p) && p.0@ == parts.0 && p.1@ == parts.1,
            None => r is None,
        },
{
    let n = cs.len();
    for i in 0..n
        invariant
            n == cs@.len(),
            forall|j: int| 0 <= j < i ==> cs@[j] != c,
    {
        if cs[i] == c {
            assert(is_first_index(cs@, c, i as int));
            let ghost k = choose|k: int| is_first_index(cs@, c, k);
            assert(k == i);
            return Some((subrange_of(cs, 0, i), subrange_of(cs, i + 1, n)));
        }
    }
    None
}

/// The characters after the last `c` in `cs`, or all of them.
pub fn after_last_chars(cs: &Vec<char>, c: char) -> (r: Vec<char>)
    ensures
        r@ == after_last(cs@, c),
{
    let n = cs.len();
    let mut i: usize = n;
    while i > 0
        invariant
            n == cs@.len(),
            i <= n,
            forall|j: int| i <= j < n ==> cs@[j] != c,
        decreases i,
    {
        if cs[i - 1] == c {
            assert(is_last_index(cs@, c, i - 1));
            let ghost k = choose|k: int| is_last_index(cs@, c, k);
            assert(k == i - 1);
            return subrange_of(cs, i, n);
        }
        i = i - 1;
    }
    assert(cs@.subrange(0, n as int) == cs@);
    subrange_of(cs, 0, n)
}

/// The characters before the first `c` in `cs`, or all of them.
pub fn before_first_chars(cs: &Vec<char>, c: char) -> (r: Vec<char>)
    ensures
        r@ == before_first(cs@, c),
{
    match split_once_chars(cs, c) {
        Some(parts) => parts.0,
        None => {
            assert(cs@.subrange(0, cs@.len() as int) == cs@);
            subrange_of(cs, 0, cs.len())
        },
    }
}


/// The pieces of `s` between occurrences of `sep`, as `str::split(sep)`
/// yields them: neighbouring separators give empty pieces, and the empty
/// string gives one empty piece.
pub open spec fn split_on(s: Seq<char>, sep: char) -> Seq<Seq<char>>
    decreases s.len(),
{
    if s.len() == 0 {
        seq![Seq::<char>::empty()]
    } else {
        let rest = split_on(s.drop_last(), sep);
        if s.last() == sep {
            rest.push(Seq::<char>::empty())
        } else {
            rest.update(rest.len() - 1, rest.last().push(s.last()))
        }
    }
}

/// The pieces of `s` between single spaces, as `str::split(" ")` yields them.
pub open spec fn split_spaces(s: Seq<char>) -> Seq<Seq<char>> {
    split_on(s, ' ')
}

/// The pieces put back together with `sep` between neighbours.
pub open spec fn join_on(parts: Seq<Seq<char>>, sep: char) -> Seq<char>
    decreases parts.len(),
{
    if parts.len() == 0 {
        Seq::<char>::empty()
    } else if parts.len() == 1 {
        parts[0]
    } else {
        join_on(parts.drop_last(), sep) + seq![sep] + parts.last()
    }
}

/// The pieces put back together with one space between neighbours.
pub open spec fn join_spaces(parts: Seq<Seq<char>>) -> Seq<char> {
    join_on(parts, ' ')
}

proof fn lemma_split_on_len(s: Seq<char>, sep: char)
    ensures
        split_on(s, sep).len() >= 1,
    decreases s.len(),
{
    if s.len() > 0 {
        lemma_split_on_len(s.drop_last(), sep);
    }
}

proof fn lemma_join_extend_last(parts: Seq<Seq<char>>, sep: char, c: char)
    requires
        parts.len() >= 1,
    ensures
        join_on(parts.update(parts.len() - 1, parts.last().push(c)), sep) == join_on(parts, sep).push(c),
{
    let q = parts.update(parts.len() - 1, parts.last().push(c));
    if parts.len() > 1 {
        assert(q.drop_last() == parts.drop_last());
    }
}

/// Splitting at a separator loses nothing: joining the pieces with the
/// separator gives back the text that was split.
pub proof fn lemma_split_join(s: Seq<char>, sep: char)
    ensures
        join_on(split_on(s, sep), sep) == s,
    decreases s.len(),
{
    if s.len() > 0 {
        let rest = split_on(s.drop_last(), sep);
        lemma_split_join(s.drop_last(), sep);
        lemma_split_on_len(s.drop_last(), sep);
        if s.last() == sep {
            assert(rest.push(Seq::<char>::empty()).drop_last() == rest);
            assert(s.drop_last() + seq![sep] + Seq::<char>::empty() == s);
        } else {
            lemma_join_extend_last(rest, sep, s.last());
            assert(s.drop_last().push(s.last()) == s);
        }
    }
}

/// Splitting the tags given on the command line at single spaces loses
/// nothing: joining the pieces with single spaces gives back the text.
pub proof fn lemma_split_join_spaces(s: Seq<char>)
    ensures
        join_spaces(split_spaces(s)) == s,
{
    lemma_split_join(s, ' ');
}

/// No piece of a split holds the separator.
pub proof fn lemma_split_pieces_have_no_separator(s: Seq<char>, sep: char)
    ensures
        forall|k: int, j: int|
            0 <= k < split_on(s, sep).len() && 0 <= j < split_on(s, sep)[k].len()
                ==> split_on(s, sep)[k][j] != sep,
    decreases s.len(),
{
    if s.len() > 0 {
        lemma_split_pieces_have_no_separator(s.drop_last(), sep);
        lemma_split_on_len(s.drop_last(), sep);
    }
}

/// Splits `s` at every `sep`, as `s.split(sep)` does.
pub fn split_on_char(s: &str, sep: char) -> (r: Vec<String>)
    ensures
        r.deep_view() == split_on(s@, sep),
{
    let cs = chars_of(s);
    let n = cs.len();
    let mut parts: Vec<String> = Vec::new();
    let mut cur: Vec<char> = Vec::new();
    assert(cs@.take(0) == Seq::<char>::empty());
    for i in 0..n
        invariant
            n == cs@.len(),
            cs@ == s@,
            parts.deep_view().push(cur@) == split_on(cs@.take(i as int), sep),
    {
        let ghost before = cs@.take(i as int);
        assert(cs@.take(i + 1).drop_last() == before);
        assert(cs@.take(i + 1).last() == cs@[i as int]);
        proof { lemma_split_on_len(before, sep); }
        if cs[i] == sep {
            let piece = string_from_chars(&cur);
            let ghost old_parts = parts.deep_view();
            parts.push(piece);
            assert(parts.deep_view() == old_parts.push(cur@));
            cur = Vec::new();
        } else {
            let ghost old_cur = cur@;
            cur.push(cs[i]);
            assert(parts.deep_view().push(cur@) == parts.deep_view().push(old_cur).update(
                parts.deep_view().len() as int,
                old_cur.push(cs@[i as int]),
            ));
        }
    }
    assert(cs@.take(n as int) == cs@);
    let last = string_from_chars(&cur);
    parts.push(last);
    parts
}

/// Splits `s` at every single space, as `s.split(" ")` does.
pub fn split_on_spaces(s: &str) -> (r: Vec<String>)
    ensures
        r.deep_view() == split_spaces(s@),
{
    split_on_char(s, ' ')
}

/// A decimal representation is non-empty and holds only digits; read back
/// within `u32`, it gives the number.
pub proof fn lemma_decimal_digits(n: nat)
    ensures
        decimal(n).len() >= 1,
        forall|i: int| 0 <= i < decimal(n).len() ==> is_ascii_digit(#[trigger] decimal(n)[i]),
        n <= u32::MAX ==> scan_digits(decimal(n)) == Ok::<nat, IntErrorKind>(n),
    decreases n,
{
    if n >= 10 {
        lemma_decimal_digits(n / 10);
        assert(decimal(n).drop_last() == decimal(n / 10));
        assert(decimal(n).last() == digit_char(n % 10));
        assert((n / 10) * 10 + n % 10 == n);
        assert(is_ascii_digit(digit_char(n % 10)));
        if n <= u32::MAX {
            assert(scan_digits(decimal(n).drop_last()) == Ok::<nat, IntErrorKind>(n / 10));
            assert(scan_digits(decimal(n)) == Ok::<nat, IntErrorKind>(n));
        }
    } else {
        assert(decimal(n).drop_last() =~= Seq::<char>::empty());
    }
    assert(digit_value(digit_char(n % 10)) == n % 10);
}

/// Reading back a number written in decimal gives the number.
pub proof fn lemma_parse_decimal(n: u32)
    ensures
        parse_u32_spec(decimal(n as nat)) == Ok::<u32, IntErrorKind>(n),
{
    lemma_decimal_digits(n as nat);
    assert(is_ascii_digit(decimal(n as nat)[0]));
}


proof fn lemma_digit_char_injective(a: nat, b: nat)
    requires
        a < 10,
        b < 10,
        digit_char(a) == digit_char(b),
    ensures
        a == b,
{
    assert(digit_value(digit_char(a)) == a);
    assert(digit_value(digit_char(b)) == b);
}

/// Different numbers have different decimal representations.
pub proof fn lemma_decimal_injective(a: nat, b: nat)
    requires
        decimal(a) == decimal(b),
    ensures
        a == b,
    decreases a,
{
    if a < 10 && b < 10 {
        assert(decimal(a)[0] == digit_char(a));
        assert(decimal(b)[0] == digit_char(b));
        lemma_digit_char_injective(a, b);
    } else if a < 10 {
        lemma_decimal_digits(b / 10);
        assert(decimal(b).len() >= 2);
    } else if b < 10 {
        lemma_decimal_digits(a / 10);
        assert(decimal(a).len() >= 2);
    } else {
        assert(decimal(a).drop_last() == decimal(a / 10));
        assert(decimal(b).drop_last() == decimal(b / 10));
        lemma_decimal_injective(a / 10, b / 10);
        assert(decimal(a).last() == digit_char(a % 10));
        assert(decimal(b).last() == digit_char(b % 10));
        lemma_digit_char_injective(a % 10, b % 10);
    }
}

/// Where neither right part holds the separator `c`, a text made of a left
/// part, `c` and a right part is split at its last `c` into the same two
/// parts.
pub proof fn lemma_split_at_last_separator(x: Seq<char>, r: Seq<char>, y: Seq<char>, s: Seq<char>, c: char)
    requires
        forall|i: int| 0 <= i < r.len() ==> r[i] != c,
        forall|i: int| 0 <= i < s.len() ==> s[i] != c,
        x + seq![c] + r == y + seq![c] + s,
    ensures
        x == y,
        r == s,
{
    let u = x + seq![c] + r;
    let v = y + seq![c] + s;
    let n = u.len();
    if r.len() < s.len() {
        assert(u[n - 1 - r.len()] == c);
        assert(v[n - 1 - r.len()] == s[s.len() - 1 - r.len()]);
    } else if s.len() < r.len() {
        assert(v[n - 1 - s.len()] == c);
        assert(u[n - 1 - s.len()] == r[r.len() - 1 - s.len()]);
    } else {
        assert(x =~= u.take(x.len() as int));
        assert(y =~= v.take(y.len() as int));
        assert(r =~= u.skip(x.len() as int + 1));
        assert(s =~= v.skip(y.len() as int + 1));
    }
}

} // verus!
