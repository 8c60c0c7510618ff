//! Text primitives for the wire codec: decimal numbers and escaped string
//! bodies, with print/parse round-trip lemmas.
//!
//! Printers append to a `String`; parsers work on a `&str` by character
//! index.  The specification-level parsers consume from the front of a
//! `Seq<char>` and return the value together with the unconsumed rest, so
//! that print-then-parse laws compose one field at a time.

use vstd::prelude::*;
use vstd::string::*;

verus! {

/// Relies on `String::push`: appends exactly one character.
#[verifier::external_body]
pub fn push_char(out: &mut String, c: char)
    ensures
        final(out)@ == old(out)@.push(c),
{
    out.push(c)
}

// ---------------------------------------------------------------------
// Decimal numbers
// ---------------------------------------------------------------------

/// Whether `c` is a decimal digit.
pub open spec fn is_digit(c: char) -> bool {
    '0' <= c && c <= '9'
}

/// Numeric value of a digit character.
pub open spec fn digit_val(c: char) -> int {
    c as int - '0' as int
}

/// Digit character for a value below ten.
pub open spec fn char_of_digit(d: int) -> char {
    if d == 0 {
        '0'
    } else if d == 1 {
        '1'
    } else if d == 2 {
        '2'
    } else if d == 3 {
        '3'
    } else if d == 4 {
        '4'
    } else if d == 5 {
        '5'
    } else if d == 6 {
        '6'
    } else if d == 7 {
        '7'
    } else if d == 8 {
        '8'
    } else {
        '9'
    }
}

/// Decimal representation of `n`, most significant digit first.
pub open spec fn spec_u64_dec(n: nat) -> Seq<char>
    decreases n,
{
    if n < 10 {
        seq![char_of_digit(n as int)]
    } else {
        spec_u64_dec(n / 10).push(char_of_digit((n % 10) as int))
    }
}

/// Decimal representation of a signed value: a minus sign before the
/// magnitude when negative.
pub open spec fn spec_i64_dec(n: int) -> Seq<char> {
    if n >= 0 {
        spec_u64_dec(n as nat)
    } else {
        seq!['-'] + spec_u64_dec((-n) as nat)
    }
}

/// Value of a digit string, most significant digit first.
pub open spec fn dec_val(s: Seq<char>) -> int
    decreases s.len(),
{
    if s.len() == 0 {
        0
    } else {
        dec_val(s.drop_last()) * 10 + digit_val(s.last())
    }
}

/// Every character of `spec_u64_dec(n)` is a digit, there is at least one,
/// and the string evaluates back to `n`.
pub proof fn lemma_u64_dec_digits(n: nat)
    ensures
        spec_u64_dec(n).len() >= 1,
        forall|i: int|
            0 <= i < spec_u64_dec(n).len() ==> is_digit(#[trigger] spec_u64_dec(n)[i]),
        dec_val(spec_u64_dec(n)) == n,
    decreases n,
{
    if n < 10 {
        let s = spec_u64_dec(n);
        assert(s == seq![char_of_digit(n as int)]);
        assert(s.len() == 1);
        assert(s.last() == char_of_digit(n as int));
        assert(s.drop_last() =~= Seq::<char>::empty());
        assert(dec_val(s.drop_last()) == 0);
        assert(digit_val(char_of_digit(n as int)) == n);
        assert(dec_val(s) == dec_val(s.drop_last()) * 10 + digit_val(s.last()));
    } else {
        lemma_u64_dec_digits(n / 10);
        let s = spec_u64_dec(n);
        assert(s.drop_last() =~= spec_u64_dec(n / 10));
        assert(s.last() == char_of_digit((n % 10) as int));
        assert(forall|i: int|
            0 <= i < s.len() ==> is_digit(#[trigger] s[i])) by {
            assert(forall|i: int|
                0 <= i < s.len() - 1 ==> #[trigger] s[i] == spec_u64_dec(n / 10)[i]);
        }
    }
}

/// A nonempty digit string evaluates to a nonnegative value.
pub proof fn lemma_dec_val_nonneg(s: Seq<char>)
    requires
        forall|i: int| 0 <= i < s.len() ==> is_digit(#[trigger] s[i]),
    ensures
        dec_val(s) >= 0,
    decreases s.len(),
{
    if s.len() > 0 {
        lemma_dec_val_nonneg(s.drop_last());
    }
}

/// Length of the maximal digit prefix of `s`.
pub open spec fn spec_dec_run(s: Seq<char>) -> int
    decreases s.len(),
{
    if s.len() > 0 && is_digit(s[0]) {
        1 + spec_dec_run(s.skip(1))
    } else {
        0
    }
}

/// The digit run is a well-formed prefix of digits, and stops at the first
/// non-digit.
pub proof fn lemma_dec_run(s: Seq<char>)
    ensures
        0 <= spec_dec_run(s) <= s.len(),
        forall|i: int| 0 <= i < spec_dec_run(s) ==> is_digit(#[trigger] s[i]),
        spec_dec_run(s) < s.len() ==> !is_digit(s[spec_dec_run(s)]),
    decreases s.len(),
{
    if s.len() > 0 && is_digit(s[0]) {
        lemma_dec_run(s.skip(1));
        assert(forall|i: int| 1 <= i < spec_dec_run(s) ==> #[trigger] s[i] == s.skip(1)[i - 1]);
        if spec_dec_run(s) < s.len() {
            assert(s[spec_dec_run(s)] == s.skip(1)[spec_dec_run(s.skip(1))]);
        }
    }
}

/// The digit run of a digit string followed by a non-digit (or nothing) is
/// exactly the digit string.
pub proof fn lemma_dec_run_exact(d: Seq<char>, rest: Seq<char>)
    requires
        forall|i: int| 0 <= i < d.len() ==> is_digit(#[trigger] d[i]),
        rest.len() == 0 || !is_digit(rest[0]),
    ensures
        spec_dec_run(d + rest) == d.len(),
    decreases d.len(),
{
    let s = d + rest;
    if d.len() == 0 {
        if rest.len() > 0 {
            assert(s[0] == rest[0]);
        }
        assert(spec_dec_run(s) == 0);
    } else {
        assert(s[0] == d[0]);
        assert(s.skip(1) =~= d.skip(1) + rest);
        lemma_dec_run_exact(d.skip(1), rest);
    }
}

/// Parse an unsigned decimal number from the front of `s`: the maximal
/// digit prefix is the number; absent digits or a value beyond `u64` fail.
pub open spec fn spec_parse_u64(s: Seq<char>) -> Option<(u64, Seq<char>)> {
    let k = spec_dec_run(s);
    if k == 0 {
        Option::None
    } else if dec_val(s.take(k)) <= u64::MAX {
        Option::Some((dec_val(s.take(k)) as u64, s.skip(k)))
    } else {
        Option::None
    }
}

/// Printing a `u64` and parsing it back yields the same value, provided
/// what follows does not begin with a digit.
pub proof fn lemma_parse_print_u64(n: u64, rest: Seq<char>)
    requires
        rest.len() == 0 || !is_digit(rest[0]),
    ensures
        spec_parse_u64(spec_u64_dec(n as nat) + rest) == Option::Some((n, rest)),
{
    let d = spec_u64_dec(n as nat);
    lemma_u64_dec_digits(n as nat);
    lemma_dec_run_exact(d, rest);
    let s = d + rest;
    assert(s.take(d.len() as int) =~= d);
    assert(s.skip(d.len() as int) =~= rest);
}

/// Parse a possibly negative decimal number from the front of `s`.  A
/// minus sign must be followed by digits; the value must fit in `i64`.
pub open spec fn spec_parse_i64(s: Seq<char>) -> Option<(i64, Seq<char>)> {
    if s.len() > 0 && s[0] == '-' {
        let k = spec_dec_run(s.skip(1));
        if k == 0 {
            Option::None
        } else if dec_val(s.skip(1).take(k)) <= 0x8000_0000_0000_0000 {
            Option::Some(((-dec_val(s.skip(1).take(k))) as i64, s.skip(1 + k)))
        } else {
            Option::None
        }
    } else {
        let k = spec_dec_run(s);
        if k == 0 {
            Option::None
        } else if dec_val(s.take(k)) <= i64::MAX {
            Option::Some((dec_val(s.take(k)) as i64, s.skip(k)))
        } else {
            Option::None
        }
    }
}

/// Printing an `i64` and parsing it back yields the same value, provided
/// what follows does not begin with a digit.
pub proof fn lemma_parse_print_i64(n: i64, rest: Seq<char>)
    requires
        rest.len() == 0 || !is_digit(rest[0]),
    ensures
        spec_parse_i64(spec_i64_dec(n as int) + rest) == Option::Some((n, rest)),
{
    if n >= 0 {
        let d = spec_u64_dec(n as nat);
        lemma_u64_dec_digits(n as nat);
        lemma_dec_run_exact(d, rest);
        let s = d + rest;
        assert(s.take(d.len() as int) =~= d);
        assert(s.skip(d.len() as int) =~= rest);
        assert(s[0] == d[0]);
        assert(is_digit(d[0]));
        assert(s[0] != '-');
    } else {
        let m = (-(n as int)) as nat;
        let d = spec_u64_dec(m);
        lemma_u64_dec_digits(m);
        let s = spec_i64_dec(n as int) + rest;
        assert(s[0] == '-');
        assert(s.skip(1) =~= d + rest);
        lemma_dec_run_exact(d, rest);
        assert(s.skip(1).take(d.len() as int) =~= d);
        assert(s.skip(1 + d.len() as int) =~= rest);
    }
}

/// Digit character for a numeric digit value.
pub fn digit_char(d: u8) -> (c: char)
    requires
        d < 10,
    ensures
        c == char_of_digit(d as int),
{
    match d {
        0 => '0',
        1 => '1',
        2 => '2',
        3 => '3',
        4 => '4',
        5 => '5',
        6 => '6',
        7 => '7',
        8 => '8',
        _ => '9',
    }
}

/// Append the decimal representation of `n`.
pub fn push_u64(out: &mut String, n: u64)
    ensures
        final(out)@ == old(out)@ + spec_u64_dec(n as nat),
    decreases n,
{
    if n < 10 {
        push_char(out, digit_char(n as u8));
        proof {
            assert(final(out)@ =~= old(out)@ + spec_u64_dec(n as nat));
        }
    } else {
        push_u64(out, n / 10);
        push_char(out, digit_char((n % 10) as u8));
        proof {
            assert(final(out)@ =~= old(out)@ + spec_u64_dec(n as nat));
        }
    }
}

/// Append the decimal representation of `n`, with a minus sign when
/// negative.
pub fn push_i64(out: &mut String, n: i64)
    ensures
        final(out)@ == old(out)@ + spec_i64_dec(n as int),
{
    if n >= 0 {
        push_u64(out, n as u64);
    } else {
        push_char(out, '-');
        let m: u64 = if n == i64::MIN {
            0x8000_0000_0000_0000u64
        } else {
            (-n) as u64
        };
        push_u64(out, m);
        proof {
            assert(final(out)@ =~= old(out)@ + spec_i64_dec(n as int));
        }
    }
}

/// Parse an unsigned decimal number at character index `i`, following
/// [`spec_parse_u64`] on the rest of the input.
pub fn parse_u64_at(s: &str, i: usize) -> (r: Option<(u64, usize)>)
    requires
        i <= s@.len(),
    ensures
        match spec_parse_u64(s@.skip(i as int)) {
            Option::Some(p) => r matches Some(q) && q.0 == p.0 && i <= q.1 <= s@.len() && s@.skip(
                q.1 as int,
            ) == p.1,
            Option::None => r is None,
        },
{
    let ghost rem = s@.skip(i as int);
    let len = s.unicode_len();
    proof {
        lemma_dec_run(rem);
    }
    let ghost k = spec_dec_run(rem);
    let mut j: usize = i;
    let mut value: u64 = 0;
    let mut overflow: bool = false;
    loop
        invariant_except_break
            i <= j <= len,
            len == s@.len(),
            rem == s@.skip(i as int),
            k == spec_dec_run(rem),
            forall|t: int| 0 <= t < j - i ==> is_digit(#[trigger] rem[t]),
            j - i <= k,
            !overflow ==> value == dec_val(rem.take(j - i)),
            overflow ==> dec_val(rem.take(j - i)) > u64::MAX,
        ensures
            i <= j <= len,
            j - i == k,
            !overflow ==> value == dec_val(rem.take(k)),
            overflow ==> dec_val(rem.take(k)) > u64::MAX,
        decreases len - j,
    {
        if j >= len {
            proof {
                assert(j - i == rem.len());
                lemma_dec_run(rem);
            }
            break;
        }
        let c = s.get_char(j);
        proof {
            assert(rem[j - i] == s@[j as int]);
        }
        if !('0' <= c && c <= '9') {
            proof {
                assert(!is_digit(rem[j - i]));
                if j - i < k {
                    lemma_dec_run(rem);
                    assert(false);
                }
            }
            break;
        }
        proof {
            assert(is_digit(rem[j - i]));
            assert(rem.take(j - i + 1).drop_last() =~= rem.take(j - i));
            if j - i + 1 > k {
                lemma_dec_run(rem);
                assert(false);
            }
            lemma_dec_val_nonneg(rem.take(j - i));
        }
        let d: u64 = (c as u32 - 0x30) as u64;
        if !overflow {
            match value.checked_mul(10) {
                Option::Some(v10) => {
                    match v10.checked_add(d) {
                        Option::Some(v) => {
                            value = v;
                        },
                        Option::None => {
                            overflow = true;
                        },
                    }
                },
                Option::None => {
                    overflow = true;
                },
            }
        }
        j = j + 1;
    }
    if j == i {
        return Option::None;
    }
    if overflow {
        proof {
            assert(rem.take(k) =~= rem.take(j - i));
        }
        return Option::None;
    }
    proof {
        assert(rem.take(k) =~= rem.take(j - i));
        assert(s@.skip(j as int) =~= rem.skip(k));
    }
    Option::Some((value, j))
}

/// Parse a possibly negative decimal number at character index `i`,
/// following [`spec_parse_i64`] on the rest of the input.
pub fn parse_i64_at(s: &str, i: usize) -> (r: Option<(i64, usize)>)
    requires
        i <= s@.len(),
    ensures
        match spec_parse_i64(s@.skip(i as int)) {
            Option::Some(p) => r matches Some(q) && q.0 == p.0 && i <= q.1 <= s@.len() && s@.skip(
                q.1 as int,
            ) == p.1,
            Option::None => r is None,
        },
{
    let len = s.unicode_len();
    if i < len && s.get_char(i) == '-' {
        proof {
            assert(s@.skip(i as int)[0] == s@[i as int]);
            assert(s@.skip(i as int).skip(1) =~= s@.skip(i + 1));
        }
        match parse_u64_at(s, i + 1) {
            Option::Some((m, e)) => {
                proof {
                    let rem = s@.skip(i as int);
                    let k = spec_dec_run(rem.skip(1));
                    assert(rem.skip(1) == s@.skip(i + 1));
                    lemma_dec_run(rem.skip(1));
                    assert(rem.skip(1).take(k) == s@.skip(i + 1).take(k));
                    assert(rem.skip(1 + k) =~= s@.skip(i + 1).skip(k));
                    assert(forall|t: int|
                        0 <= t < k ==> is_digit(#[trigger] rem.skip(1).take(k)[t]));
                    lemma_dec_val_nonneg(rem.skip(1).take(k));
                }
                if m <= 0x8000_0000_0000_0000u64 {
                    let v: i64 = if m == 0x8000_0000_0000_0000u64 {
                        i64::MIN
                    } else {
                        -(m as i64)
                    };
                    Option::Some((v, e))
                } else {
                    Option::None
                }
            },
            Option::None => Option::None,
        }
    } else {
        proof {
            let rem = s@.skip(i as int);
            if rem.len() > 0 {
                assert(rem[0] == s@[i as int]);
            }
        }
        match parse_u64_at(s, i) {
            Option::Some((m, e)) => {
                proof {
                    let rem = s@.skip(i as int);
                    let k = spec_dec_run(rem);
                    lemma_dec_run(rem);
                    assert(forall|t: int| 0 <= t < k ==> is_digit(#[trigger] rem.take(k)[t]));
                    lemma_dec_val_nonneg(rem.take(k));
                }
                if m <= i64::MAX as u64 {
                    Option::Some((m as i64, e))
                } else {
                    Option::None
                }
            },
            Option::None => Option::None,
        }
    }
}

// ---------------------------------------------------------------------
// Literals
// ---------------------------------------------------------------------

/// Whether `p` is a prefix of `s`.
pub open spec fn starts_with(s: Seq<char>, p: Seq<char>) -> bool {
    p.len() <= s.len() && s.take(p.len() as int) == p
}

/// Check that the fixed text `lit` stands at character index `i`, and
/// return the index just past it.
pub fn expect_lit(s: &str, i: usize, lit: &str) -> (r: Option<usize>)
    requires
        i <= s@.len(),
    ensures
        starts_with(s@.skip(i as int), lit@) ==> (r matches Some(e) && e == i + lit@.len()
            && s@.skip(e as int) == s@.skip(i as int).skip(lit@.len() as int)),
        !starts_with(s@.skip(i as int), lit@) ==> r is None,
{
    let len = s.unicode_len();
    let lit_len = lit.unicode_len();
    if lit_len > len - i {
        proof {
            assert(!starts_with(s@.skip(i as int), lit@));
        }
        return Option::None;
    }
    let ghost rem = s@.skip(i as int);
    let mut j: usize = 0;
    while j < lit_len
        invariant
            0 <= j <= lit_len,
            i + lit_len <= len,
            len == s@.len(),
            lit_len == lit@.len(),
            rem == s@.skip(i as int),
            forall|t: int| 0 <= t < j ==> #[trigger] rem[t] == lit@[t],
        decreases lit_len - j,
    {
        let a = s.get_char(i + j);
        let b = lit.get_char(j);
        proof {
            assert(rem[j as int] == s@[i + j]);
        }
        if a != b {
            proof {
                assert(rem.take(lit@.len() as int)[j as int] == rem[j as int]);
                assert(!starts_with(rem, lit@));
            }
            return Option::None;
        }
        j = j + 1;
    }
    proof {
        assert(rem.take(lit@.len() as int) =~= lit@);
        assert(s@.skip((i + lit_len) as int) =~= rem.skip(lit@.len() as int));
    }
    Option::Some(i + lit_len)
}

// ---------------------------------------------------------------------
// Escaped strings
// ---------------------------------------------------------------------

/// Escape of one character inside a quoted string: quotes and backslashes
/// are preceded by a backslash, everything else is verbatim.
pub open spec fn esc_char(c: char) -> Seq<char> {
    if c == '"' {
        seq!['\\', '"']
    } else if c == '\\' {
        seq!['\\', '\\']
    } else {
        seq![c]
    }
}

/// Escaped body of a quoted string.
pub open spec fn spec_escaped(s: Seq<char>) -> Seq<char>
    decreases s.len(),
{
    if s.len() == 0 {
        Seq::<char>::empty()
    } else {
        esc_char(s[0]) + spec_escaped(s.skip(1))
    }
}

/// Escaping distributes over appending one character.
pub proof fn lemma_escaped_push(s: Seq<char>, c: char)
    ensures
        spec_escaped(s.push(c)) == spec_escaped(s) + esc_char(c),
    decreases s.len(),
{
    if s.len() == 0 {
        assert(s.push(c)[0] == c);
        assert(s.push(c).skip(1) =~= Seq::<char>::empty());
        assert(spec_escaped(s.push(c)) == esc_char(c) + spec_escaped(s.push(c).skip(1)));
        assert(spec_escaped(s.push(c).skip(1)) == Seq::<char>::empty());
        assert(esc_char(c) + Seq::<char>::empty() =~= esc_char(c));
        assert(spec_escaped(s) + esc_char(c) =~= esc_char(c));
    } else {
        lemma_escaped_push(s.skip(1), c);
        assert(s.push(c).skip(1) =~= s.skip(1).push(c));
        assert(s.push(c)[0] == s[0]);
        assert(spec_escaped(s.push(c)) == esc_char(s[0]) + spec_escaped(s.skip(1).push(c)));
        assert(esc_char(s[0]) + (spec_escaped(s.skip(1)) + esc_char(c)) =~= (esc_char(s[0])
            + spec_escaped(s.skip(1))) + esc_char(c));
    }
}

/// Parse the body of a quoted string up to and including the closing
/// quote: a backslash takes the next character (which must be a quote or a
/// backslash) verbatim, an unescaped quote ends the string.
pub open spec fn spec_parse_str(s: Seq<char>) -> Option<(Seq<char>, Seq<char>)>
    decreases s.len(),
{
    if s.len() == 0 {
        Option::None
    } else if s[0] == '"' {
        Option::Some((Seq::<char>::empty(), s.skip(1)))
    } else if s[0] == '\\' {
        if s.len() >= 2 && (s[1] == '"' || s[1] == '\\') {
            match spec_parse_str(s.skip(2)) {
                Option::Some(p) => Option::Some((seq![s[1]] + p.0, p.1)),
                Option::None => Option::None,
            }
        } else {
            Option::None
        }
    } else {
        match spec_parse_str(s.skip(1)) {
            Option::Some(p) => Option::Some((seq![s[0]] + p.0, p.1)),
            Option::None => Option::None,
        }
    }
}

/// Printing an escaped string body (with its closing quote) and parsing it
/// back yields the original string, whatever characters it holds.
pub proof fn lemma_parse_print_str(v: Seq<char>, rest: Seq<char>)
    ensures
        spec_parse_str(spec_escaped(v) + seq!['"'] + rest) == Option::Some((v, rest)),
    decreases v.len(),
{
    let s = spec_escaped(v) + seq!['"'] + rest;
    if v.len() == 0 {
        assert(s[0] == '"');
        assert(s.skip(1) =~= rest);
        assert(v =~= Seq::<char>::empty());
    } else {
        let c = v[0];
        lemma_parse_print_str(v.skip(1), rest);
        let s2 = spec_escaped(v.skip(1)) + seq!['"'] + rest;
        if c == '"' || c == '\\' {
            assert(s =~= seq!['\\', c] + s2);
            assert(s[0] == '\\');
            assert(s[1] == c);
            assert(s.skip(2) =~= s2);
            assert(seq![c] + v.skip(1) =~= v);
        } else {
            assert(s =~= seq![c] + s2);
            assert(s[0] == c);
            assert(s.skip(1) =~= s2);
            assert(seq![c] + v.skip(1) =~= v);
        }
    }
}

/// Append the escaped body of `s` (without surrounding quotes).
pub fn push_escaped(out: &mut String, s: &str)
    ensures
        final(out)@ == old(out)@ + spec_escaped(s@),
{
    let len = s.unicode_len();
    let mut i: usize = 0;
    while i < len
        invariant
            0 <= i <= len,
            len == s@.len(),
            out@ == old(out)@ + spec_escaped(s@.take(i as int)),
        decreases len - i,
    {
        let c = s.get_char(i);
        proof {
            lemma_escaped_push(s@.take(i as int), s@[i as int]);
            assert(s@.take(i as int).push(s@[i as int]) =~= s@.take(i + 1));
        }
        if c == '"' {
            push_char(out, '\\');
            push_char(out, '"');
        } else if c == '\\' {
            push_char(out, '\\');
            push_char(out, '\\');
        } else {
            push_char(out, c);
        }
        proof {
            assert(out@ =~= old(out)@ + spec_escaped(s@.take(i + 1)));
        }
        i = i + 1;
    }
    proof {
        assert(s@.take(len as int) =~= s@);
    }
}

/// Parse a quoted string body starting at character index `i` (just past
/// the opening quote), following [`spec_parse_str`] on the rest of the
/// input.
pub fn parse_string_at(s: &str, i: usize) -> (r: Option<(String, usize)>)
    requires
        i <= s@.len(),
    ensures
        match spec_parse_str(s@.skip(i as int)) {
            Option::Some(p) => r matches Some(q) && q.0@ == p.0 && i <= q.1 <= s@.len()
                && s@.skip(q.1 as int) == p.1,
            Option::None => r is None,
        },
{
    let len = s.unicode_len();
    let mut out = String::new();
    let mut j: usize = i;
    loop
        invariant_except_break
            i <= j <= len,
            len == s@.len(),
            spec_parse_str(s@.skip(i as int)) == (match spec_parse_str(s@.skip(j as int)) {
                Option::Some(p) => Option::Some((out@ + p.0, p.1)),
                Option::None => Option::<(Seq<char>, Seq<char>)>::None,
            }),
        ensures
            i <= j < len,
            len == s@.len(),
            spec_parse_str(s@.skip(i as int)) matches Some(p) && p.0 == out@ && p.1 == s@.skip(
                j + 1,
            ),
        decreases len - j,
    {
        if j >= len {
            proof {
                assert(s@.skip(j as int).len() == 0);
            }
            return Option::None;
        }
        let c = s.get_char(j);
        proof {
            assert(s@.skip(j as int)[0] == s@[j as int]);
        }
        if c == '"' {
            proof {
                assert(spec_parse_str(s@.skip(j as int)) == Option::Some((
                    Seq::<char>::empty(),
                    s@.skip(j as int).skip(1),
                )));
                assert(out@ + Seq::<char>::empty() =~= out@);
                assert(s@.skip(j as int).skip(1) =~= s@.skip(j + 1));
            }
            break;
        } else if c == '\\' {
            if j + 1 >= len {
                proof {
                    assert(spec_parse_str(s@.skip(j as int)) is None);
                }
                return Option::None;
            }
            let c2 = s.get_char(j + 1);
            proof {
                assert(s@.skip(j as int)[1] == s@[j + 1]);
            }
            if c2 == '"' || c2 == '\\' {
                let ghost out0 = out@;
                push_char(&mut out, c2);
                proof {
                    assert(s@.skip(j as int).skip(2) =~= s@.skip(j + 2));
                    match spec_parse_str(s@.skip(j + 2)) {
                        Option::Some(p) => {
                            assert(out@ + p.0 =~= out0 + (seq![s@[j + 1]] + p.0));
                        },
                        Option::None => {},
                    }
                }
                j = j + 2;
            } else {
                proof {
                    assert(spec_parse_str(s@.skip(j as int)) is None);
                }
                return Option::None;
            }
        } else {
            let ghost out0 = out@;
            push_char(&mut out, c);
            proof {
                assert(s@.skip(j as int).skip(1) =~= s@.skip(j + 1));
                match spec_parse_str(s@.skip(j + 1)) {
                    Option::Some(p) => {
                        assert(out@ + p.0 =~= out0 + (seq![s@[j as int]] + p.0));
                    },
                    Option::None => {},
                }
            }
            j = j + 1;
        }
    }
    Option::Some((out, j + 1))
}

// ---------------------------------------------------------------------
// Booleans
// ---------------------------------------------------------------------

/// Wire text of a boolean.
pub open spec fn spec_bool_text(b: bool) -> Seq<char> {
    if b {
        "true"@
    } else {
        "false"@
    }
}

/// Parse a boolean literal from the front of `s`.
pub open spec fn spec_parse_bool(s: Seq<char>) -> Option<(bool, Seq<char>)> {
    if starts_with(s, "true"@) {
        Option::Some((true, s.skip("true"@.len() as int)))
    } else if starts_with(s, "false"@) {
        Option::Some((false, s.skip("false"@.len() as int)))
    } else {
        Option::None
    }
}

/// Printing a boolean and parsing it back yields the same value.
pub proof fn lemma_parse_print_bool(b: bool, rest: Seq<char>)
    ensures
        spec_parse_bool(spec_bool_text(b) + rest) == Option::Some((b, rest)),
{
    reveal_strlit("true");
    reveal_strlit("false");
    let s = spec_bool_text(b) + rest;
    if b {
        assert(s.take("true"@.len() as int) =~= "true"@);
        assert(s.skip("true"@.len() as int) =~= rest);
    } else {
        assert(s.take("false"@.len() as int) =~= "false"@);
        assert(s.skip("false"@.len() as int) =~= rest);
        assert(!starts_with(s, "true"@)) by {
            if starts_with(s, "true"@) {
                assert(s.take("true"@.len() as int)[0] == 't');
                assert(s[0] == 'f');
            }
        }
    }
}

/// Append the wire text of a boolean.
pub fn push_bool(out: &mut String, b: bool)
    ensures
        final(out)@ == old(out)@ + spec_bool_text(b),
{
    if b {
        out.append("true");
    } else {
        out.append("false");
    }
}

/// Parse a boolean literal at character index `i`, following
/// [`spec_parse_bool`] on the rest of the input.
pub fn parse_bool_at(s: &str, i: usize) -> (r: Option<(bool, usize)>)
    requires
        i <= s@.len(),
    ensures
        match spec_parse_bool(s@.skip(i as int)) {
            Option::Some(p) => r matches Some(q) && q.0 == p.0 && i <= q.1 <= s@.len()
                && s@.skip(q.1 as int) == p.1,
            Option::None => r is None,
        },
{
    proof {
        reveal_strlit("true");
        reveal_strlit("false");
    }
    match expect_lit(s, i, "true") {
        Option::Some(e) => Option::Some((true, e)),
        Option::None => {
            match expect_lit(s, i, "false") {
                Option::Some(e) => Option::Some((false, e)),
                Option::None => Option::None,
            }
        },
    }
}

} // verus!
