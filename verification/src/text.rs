//! Character-level helpers for identifiers and deterministic text rendering.

use vstd::prelude::*;

verus! {

/// Whether `c` is an ASCII lower-case letter.
pub open spec fn is_ascii_lower(c: char) -> bool {
    'a' <= c && c <= 'z'
}

/// Whether `c` is an ASCII decimal digit.
pub open spec fn is_ascii_digit(c: char) -> bool {
    '0' <= c && c <= '9'
}

/// Whether `c` may continue a lower snake-case identifier.
pub open spec fn is_identifier_tail(c: char) -> bool {
    is_ascii_lower(c) || is_ascii_digit(c) || c == '_'
}

/// A non-empty lower snake-case identifier: `[a-z][a-z0-9_]*`.
pub open spec fn is_identifier(s: Seq<char>) -> bool {
    &&& s.len() > 0
    &&& is_ascii_lower(s[0])
    &&& forall|i: int| 1 <= i < s.len() ==> #[trigger] is_identifier_tail(s[i])
}

/// ASCII upper-casing of one character; every other character is unchanged.
pub open spec fn ascii_upper(c: char) -> char {
    if is_ascii_lower(c) {
        ((c as u32) - 32) as char
    } else {
        c
    }
}

/// ASCII upper-casing of a whole string.
pub open spec fn upper_snake_spec(s: Seq<char>) -> Seq<char> {
    Seq::new(s.len(), |i: int| ascii_upper(s[i]))
}

/// `snake_case` to `UpperCamel`: underscores are dropped and the first
/// character of every component is upper-cased.
pub open spec fn upper_camel_spec(s: Seq<char>) -> Seq<char>
    decreases s.len(),
{
    if s.len() == 0 {
        Seq::empty()
    } else {
        let prefix = s.drop_last();
        let c = s.last();
        let starts_component = s.len() == 1 || prefix.last() == '_';
        if c == '_' {
            upper_camel_spec(prefix)
        } else if starts_component {
            upper_camel_spec(prefix).push(ascii_upper(c))
        } else {
            upper_camel_spec(prefix).push(c)
        }
    }
}

/// The character of one digit below sixteen (lower-case hexadecimal).
pub open spec fn digit_char(d: nat) -> char {
    if d < 10 {
        (('0' as u32) + d) as char
    } else {
        (('a' as u32) + (d - 10)) as char
    }
}

/// Positional rendering of `n` in `base` without leading zeros.
pub open spec fn digits(n: nat, base: nat) -> Seq<char>
    recommends
        2 <= base <= 16,
    decreases n,
{
    if base < 2 || n < base {
        seq![digit_char(n % 16)]
    } else {
        proof {
            assert(n / base < n) by (nonlinear_arith)
                requires
                    base >= 2,
                    n >= base,
            ;
        }
        digits(n / base, base).push(digit_char(n % base))
    }
}

/// Decimal rendering of an unsigned integer.
pub open spec fn dec(n: nat) -> Seq<char> {
    digits(n, 10)
}

/// Lower-case hexadecimal rendering without prefix.
pub open spec fn hex(n: nat) -> Seq<char> {
    digits(n, 16)
}

/// Decimal rendering of a signed integer.
pub open spec fn dec_signed(v: int) -> Seq<char> {
    if v < 0 {
        seq!['-'] + dec((-v) as nat)
    } else {
        dec(v as nat)
    }
}

/// Whether `c` is one of the ASCII digits `0` to `9`.
pub open spec fn is_decimal_digit(c: char) -> bool {
    '0' <= c && c <= '9'
}

/// The number a string of decimal digits denotes, most significant first.
pub open spec fn decimal_value(s: Seq<char>) -> int
    decreases s.len(),
{
    if s.len() == 0 {
        0
    } else {
        decimal_value(s.drop_last()) * 10 + ((s.last() as u32) - ('0' as u32))
    }
}

/// The number a signed decimal text denotes: an optional leading minus sign
/// followed by decimal digits.
pub open spec fn signed_decimal_value(s: Seq<char>) -> int {
    if s.len() > 0 && s[0] == '-' {
        -decimal_value(s.subrange(1, s.len() as int))
    } else {
        decimal_value(s)
    }
}

proof fn lemma_digit_char_value(d: nat)
    requires
        d < 10,
    ensures
        (digit_char(d) as u32) - ('0' as u32) == d,
        is_decimal_digit(digit_char(d)),
{
    assert(('0' as u32) == 48);
    assert(((48 + d) as char) as u32 == 48 + d);
}

/// Decimal rendering is faithful: the text of `n` is a nonempty run of
/// decimal digits that denotes `n`.
pub proof fn decimal_text_denotes_its_number(n: nat)
    ensures
        dec(n).len() > 0,
        forall|i: int| 0 <= i < dec(n).len() ==> #[trigger] is_decimal_digit(dec(n)[i]),
        decimal_value(dec(n)) == n,
    decreases n,
{
    if n >= 10 {
        decimal_text_denotes_its_number(n / 10);
        let s = dec(n);
        let rest = dec(n / 10);
        assert(s == rest.push(digit_char(n % 10)));
        assert(s.drop_last() == rest);
        assert(decimal_value(s) == decimal_value(rest) * 10 + (n % 10)) by {
            assert(s.last() == digit_char(n % 10));
            lemma_digit_char_value(n % 10);
        }
        assert((n / 10) * 10 + n % 10 == n) by (nonlinear_arith);
        assert(decimal_value(s) == n);
        assert forall|i: int| 0 <= i < s.len() implies #[trigger] is_decimal_digit(s[i]) by {
            if i < rest.len() {
                assert(s[i] == rest[i]);
            }
        }
    } else {
        let s = dec(n);
        assert(s == seq![digit_char(n % 16)]);
        assert(s.drop_last() =~= Seq::<char>::empty());
        lemma_digit_char_value(n);
        assert(n % 16 == n);
        assert(s.last() == digit_char(n));
        assert(decimal_value(s) == decimal_value(s.drop_last()) * 10 + ((s.last() as u32) - ('0' as u32)));
        assert(decimal_value(s.drop_last()) == 0);
        assert(decimal_value(s) == n);
    }
}

/// The value of one lower-case hexadecimal digit.
pub open spec fn hex_digit_value(c: char) -> int {
    if '0' <= c && c <= '9' {
        (c as u32) - ('0' as u32)
    } else {
        (c as u32) - ('a' as u32) + 10
    }
}

/// The number a string of lower-case hexadecimal digits denotes.
pub open spec fn hexadecimal_value(s: Seq<char>) -> int
    decreases s.len(),
{
    if s.len() == 0 {
        0
    } else {
        hexadecimal_value(s.drop_last()) * 16 + hex_digit_value(s.last())
    }
}

proof fn lemma_hex_digit_char_value(d: nat)
    requires
        d < 16,
    ensures
        hex_digit_value(digit_char(d)) == d,
{
    assert(('0' as u32) == 48);
    assert(('a' as u32) == 97);
    assert(('9' as u32) == 57);
    if d < 10 {
        assert(((48 + d) as char) as u32 == 48 + d);
    } else {
        assert(((97 + (d - 10)) as char) as u32 == 97 + (d - 10));
    }
}

/// Hexadecimal rendering is faithful: the text of `n` denotes `n`.
pub proof fn hexadecimal_text_denotes_its_number(n: nat)
    ensures
        hex(n).len() > 0,
        hexadecimal_value(hex(n)) == n,
    decreases n,
{
    if n >= 16 {
        hexadecimal_text_denotes_its_number(n / 16);
        let s = hex(n);
        let rest = hex(n / 16);
        assert(s == rest.push(digit_char(n % 16)));
        assert(s.drop_last() == rest);
        lemma_hex_digit_char_value(n % 16);
        assert((n / 16) * 16 + n % 16 == n) by (nonlinear_arith);
        assert(hexadecimal_value(s) == n);
    } else {
        let s = hex(n);
        assert(s == seq![digit_char(n % 16)]);
        assert(s.drop_last() =~= Seq::<char>::empty());
        lemma_hex_digit_char_value(n);
        assert(n % 16 == n);
        assert(hexadecimal_value(s.drop_last()) == 0);
        assert(hexadecimal_value(s) == n);
    }
}

/// The middle of a text made of a head, a payload and a tail is the payload.
pub proof fn lemma_payload(head: Seq<char>, payload: Seq<char>, tail: Seq<char>)
    ensures
        (head + payload + tail).subrange(
            head.len() as int,
            (head + payload + tail).len() - tail.len(),
        ) == payload,
        (head + payload + tail).subrange(0, head.len() as int) == head,
{
    assert((head + payload + tail).subrange(
        head.len() as int,
        (head + payload + tail).len() - tail.len(),
    ) =~= payload);
    assert((head + payload + tail).subrange(0, head.len() as int) =~= head);
}

/// Signed decimal rendering is faithful: the text of `v` denotes `v`.
pub proof fn signed_decimal_text_denotes_its_number(v: int)
    ensures
        signed_decimal_value(dec_signed(v)) == v,
{
    if v < 0 {
        decimal_text_denotes_its_number((-v) as nat);
        let s = dec_signed(v);
        assert(s.subrange(1, s.len() as int) =~= dec((-v) as nat));
    } else {
        decimal_text_denotes_its_number(v as nat);
        assert(dec(v as nat)[0] != '-') by {
            assert(is_decimal_digit(dec(v as nat)[0]));
        }
    }
}

/// Compares two strings for equality (`<str as PartialEq>::eq`).
#[verifier::external_body]
pub(crate) fn str_eq(a: &str, b: &str) -> (r: bool)
    ensures
        r == (a@ == b@),
{
    a == b
}

/// Appends one character (`String::push`).
#[verifier::external_body]
pub(crate) fn push_char(s: &mut String, c: char)
    ensures
        final(s)@ == old(s)@.push(c),
{
    s.push(c);
}

/// Appends a string slice.
pub fn push_str(s: &mut String, t: &str)
    ensures
        final(s)@ == old(s)@ + t@,
{
    s.append(t);
}

/// The Unicode `White_Space` property of one character: tab through
/// carriage return, space, next line, no-break space, ogham space mark, the
/// spaces from en quad to hair space, line and paragraph separators, narrow
/// no-break space, medium mathematical space, and ideographic space.
pub open spec fn is_unicode_whitespace(c: char) -> bool {
    let v = c as u32;
    ||| 0x09 <= v <= 0x0D
    ||| v == 0x20
    ||| v == 0x85
    ||| v == 0xA0
    ||| v == 0x1680
    ||| 0x2000 <= v <= 0x200A
    ||| v == 0x2028
    ||| v == 0x2029
    ||| v == 0x202F
    ||| v == 0x205F
    ||| v == 0x3000
}

/// Whether `c` has the Unicode `White_Space` property, as
/// `char::is_whitespace` reports it.
pub(crate) fn char_is_whitespace(c: char) -> (r: bool)
    ensures
        r == is_unicode_whitespace(c),
{
    let v = c as u32;
    (0x09 <= v && v <= 0x0D) || v == 0x20 || v == 0x85 || v == 0xA0 || v == 0x1680 || (0x2000
        <= v && v <= 0x200A) || v == 0x2028 || v == 0x2029 || v == 0x202F || v == 0x205F || v
        == 0x3000
}

/// The `Debug` rendering of a string, as `format!("{:?}", s)` produces it.
pub uninterp spec fn debug_quoted(s: Seq<char>) -> Seq<char>;

/// Renders `s` with `Debug` quoting and escaping (`<str as Debug>::fmt`).
#[verifier::external_body]
pub(crate) fn debug_str(s: &str) -> (r: String)
    ensures
        r@ == debug_quoted(s@),
{
    format!("{s:?}")
}

/// Whether every character of `s` is whitespace (so `s.trim()` is empty).
pub fn is_blank(s: &str) -> (r: bool)
    ensures
        r == (forall|i: int| 0 <= i < s@.len() ==> #[trigger] is_unicode_whitespace(s@[i])),
{
    let n = s.unicode_len();
    let mut i: usize = 0;
    while i < n
        invariant
            n == s@.len(),
            i <= n,
            forall|k: int| 0 <= k < i ==> #[trigger] is_unicode_whitespace(s@[k]),
        decreases n - i,
    {
        let c = s.get_char(i);
        if !char_is_whitespace(c) {
            return false;
        }
        i = i + 1;
    }
    true
}

/// Checks that `s` is a lower snake-case identifier.
pub fn check_identifier(s: &str) -> (r: bool)
    ensures
        r == is_identifier(s@),
{
    let n = s.unicode_len();
    if n == 0 {
        return false;
    }
    let first = s.get_char(0);
    if !('a' <= first && first <= 'z') {
        return false;
    }
    let mut i: usize = 1;
    while i < n
        invariant
            n == s@.len(),
            1 <= i <= n,
            forall|k: int| 1 <= k < i ==> #[trigger] is_identifier_tail(s@[k]),
        decreases n - i,
    {
        let c = s.get_char(i);
        if !(('a' <= c && c <= 'z') || ('0' <= c && c <= '9') || c == '_') {
            assert(!is_identifier_tail(s@[i as int]));
            return false;
        }
        i = i + 1;
    }
    true
}

fn upper_char(c: char) -> (r: char)
    ensures
        r == ascii_upper(c),
{
    if 'a' <= c && c <= 'z' {
        ((c as u8) - 32) as char
    } else {
        c
    }
}

/// Appends the ASCII upper-case form of `s`.
pub fn push_upper_snake(out: &mut String, s: &str)
    ensures
        final(out)@ == old(out)@ + upper_snake_spec(s@),
{
    let n = s.unicode_len();
    let ghost start = out@;
    let mut i: usize = 0;
    while i < n
        invariant
            n == s@.len(),
            i <= n,
            out@ == start + upper_snake_spec(s@).take(i as int),
        decreases n - i,
    {
        let c = s.get_char(i);
        push_char(out, upper_char(c));
        assert(upper_snake_spec(s@).take(i + 1) == upper_snake_spec(s@).take(i as int).push(
            ascii_upper(s@[i as int]),
        ));
        i = i + 1;
    }
    assert(upper_snake_spec(s@).take(n as int) == upper_snake_spec(s@));
}

/// Returns the ASCII upper-case form of `s`.
pub fn upper_snake(s: &str) -> (r: String)
    ensures
        r@ == upper_snake_spec(s@),
{
    let mut out = String::new();
    push_upper_snake(&mut out, s);
    out
}

/// Returns the `UpperCamel` form of a `snake_case` identifier.
pub fn upper_camel(s: &str) -> (r: String)
    ensures
        r@ == upper_camel_spec(s@),
{
    let n = s.unicode_len();
    let mut out = String::new();
    let mut i: usize = 0;
    let mut at_start = true;
    while i < n
        invariant
            n == s@.len(),
            i <= n,
            out@ == upper_camel_spec(s@.take(i as int)),
            at_start == (i == 0 || s@[i - 1] == '_'),
        decreases n - i,
    {
        let c = s.get_char(i);
        assert(s@.take(i + 1).drop_last() == s@.take(i as int));
        if c == '_' {
        } else if at_start {
            push_char(&mut out, upper_char(c));
        } else {
            push_char(&mut out, c);
        }
        at_start = c == '_';
        i = i + 1;
    }
    assert(s@.take(n as int) == s@);
    out
}

fn digit(d: u64) -> (r: char)
    requires
        d < 16,
    ensures
        r == digit_char(d as nat),
{
    if d < 10 {
        ((d as u8) + 48) as char
    } else {
        ((d as u8) + 87) as char
    }
}

fn push_digits(out: &mut String, n: u64, base: u64)
    requires
        2 <= base <= 16,
    ensures
        final(out)@ == old(out)@ + digits(n as nat, base as nat),
    decreases n,
{
    if n < base {
        push_char(out, digit(n));
    } else {
        assert(n / base < n) by (nonlinear_arith)
            requires
                base >= 2,
                n >= base,
        ;
        push_digits(out, n / base, base);
        push_char(out, digit(n % base));
    }
}

/// Appends the decimal rendering of `n`.
pub fn push_dec(out: &mut String, n: u64)
    ensures
        final(out)@ == old(out)@ + dec(n as nat),
{
    push_digits(out, n, 10);
}

/// Appends the lower-case hexadecimal rendering of `n`, without prefix.
pub fn push_hex(out: &mut String, n: u64)
    ensures
        final(out)@ == old(out)@ + hex(n as nat),
{
    push_digits(out, n, 16);
}

/// Appends the decimal rendering of a signed integer.
pub fn push_dec_signed(out: &mut String, v: i64)
    ensures
        final(out)@ == old(out)@ + dec_signed(v as int),
{
    if v < 0 {
        push_char(out, '-');
        let magnitude: u64 = if v == i64::MIN {
            9223372036854775808u64
        } else {
            (-v) as u64
        };
        push_dec(out, magnitude);
    } else {
        push_dec(out, v as u64);
    }
}

} // verus!
