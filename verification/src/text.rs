//! Text helpers shared by the validators: blank detection, literal
//! comparison, and decimal / hexadecimal rendering of integers.
use vstd::prelude::*;

verus! {

/// Unicode `White_Space` property, the set of characters that `str::trim`
/// removes from both ends of a string.
pub open spec fn is_white_space(c: char) -> bool {
    let v = c as u32;
    ||| 0x09 <= v <= 0x0d
    ||| v == 0x20
    ||| v == 0x85
    ||| v == 0xa0
    ||| v == 0x1680
    ||| 0x2000 <= v <= 0x200a
    ||| v == 0x2028
    ||| v == 0x2029
    ||| v == 0x202f
    ||| v == 0x205f
    ||| v == 0x3000
}

/// A text is blank when trimming it leaves nothing: every character is white space.
pub open spec fn is_blank_text(s: Seq<char>) -> bool {
    forall|i: int| 0 <= i < s.len() ==> is_white_space(#[trigger] s[i])
}

/// The character for a digit below sixteen, lower-case for ten and above.
pub open spec fn digit_char(d: nat) -> char {
    if d < 10 {
        (48 + d) as char
    } else {
        (87 + d) as char
    }
}

/// Decimal rendering of `v` with no leading zeros ("0" for zero).
pub open spec fn decimal_digits(v: nat) -> Seq<char>
    decreases v,
{
    if v < 10 {
        seq![digit_char(v)]
    } else {
        decimal_digits(v / 10).push(digit_char(v % 10))
    }
}

/// The `width` lowest hexadecimal digits of `v`, most significant first.
pub open spec fn hex_text(v: nat, width: nat) -> Seq<char>
    decreases width,
{
    if width == 0 {
        Seq::empty()
    } else {
        hex_text(v / 16, (width - 1) as nat).push(digit_char(v % 16))
    }
}

fn is_white_space_char(c: char) -> (b: bool)
    ensures
        b == is_white_space(c),
{
    let v = c as u32;
    (0x09 <= v && v <= 0x0d) || v == 0x20 || v == 0x85 || v == 0xa0 || v == 0x1680 || (0x2000
        <= v && v <= 0x200a) || v == 0x2028 || v == 0x2029 || v == 0x202f || v == 0x205f || v
        == 0x3000
}

/// Whether `s.trim()` would be empty.
pub fn is_blank(s: &str) -> (b: bool)
    ensures
        b == is_blank_text(s@),
{
    let n = s.unicode_len();
    let mut i: usize = 0;
    while i < n
        invariant
            n == s@.len(),
            i <= n,
            forall|k: int| 0 <= k < i ==> is_white_space(#[trigger] s@[k]),
        decreases n - i,
    {
        let c = s.get_char(i);
        if !is_white_space_char(c) {
            return false;
        }
        i = i + 1;
    }
    true
}

/// Whether the string holds exactly the characters of `literal`.
pub fn text_is(s: &String, literal: &str) -> (b: bool)
    ensures
        b == (s@ == literal@),
{
    let expected = String::from_str(literal);
    *s == expected
}

/// Whether the slice holds exactly the characters of `literal`.
pub fn str_is(s: &str, literal: &str) -> (b: bool)
    ensures
        b == (s@ == literal@),
{
    let actual = String::from_str(s);
    let expected = String::from_str(literal);
    actual == expected
}

/// Whether `needle` occurs as a contiguous run of characters in `haystack`.
pub open spec fn contains_fragment(haystack: Seq<char>, needle: Seq<char>) -> bool {
    exists|i: int|
        0 <= i && i + needle.len() <= haystack.len() && #[trigger] haystack.subrange(
            i,
            i + needle.len(),
        ) == needle
}

fn occurs_at(haystack: &str, needle: &str, at: usize, n: usize, m: usize) -> (b: bool)
    requires
        n == haystack@.len(),
        m == needle@.len(),
        at + m <= n,
    ensures
        b == (haystack@.subrange(at as int, at + m) == needle@),
{
    let mut k: usize = 0;
    while k < m
        invariant
            n == haystack@.len(),
            m == needle@.len(),
            at + m <= n,
            k <= m,
            forall|j: int| 0 <= j < k ==> haystack@[at + j] == needle@[j],
        decreases m - k,
    {
        if haystack.get_char(at + k) != needle.get_char(k) {
            assert(haystack@.subrange(at as int, at + m)[k as int] != needle@[k as int]);
            return false;
        }
        k = k + 1;
    }
    assert(haystack@.subrange(at as int, at + m) =~= needle@);
    true
}

/// Whether `needle` occurs in `haystack`.
pub fn has_fragment(haystack: &str, needle: &str) -> (found: bool)
    ensures
        found == contains_fragment(haystack@, needle@),
{
    let n = haystack.unicode_len();
    let m = needle.unicode_len();
    if m > n {
        return false;
    }
    let last = n - m;
    let mut at: usize = 0;
    while at <= last
        invariant
            last == n - m,
            n == haystack@.len(),
            m == needle@.len(),
            m <= n,
            at <= last + 1,
            forall|i: int| 0 <= i < at ==> #[trigger] haystack@.subrange(i, i + m) != needle@,
        decreases last + 1 - at,
    {
        if occurs_at(haystack, needle, at, n, m) {
            return true;
        }
        if at == last {
            return false;
        }
        at = at + 1;
    }
    false
}

/// Appends one character to a string.
///
/// Trusted: `String::push` appends `c` to the end of the string; the
/// contract states exactly that of the character sequence.
#[verifier::external_body]
pub(crate) fn push_char(s: &mut String, c: char)
    ensures
        final(s)@ == old(s)@.push(c),
{
    s.push(c)
}

proof fn lemma_take_reverse_step(s: Seq<char>, i: int)
    requires
        0 <= i < s.len(),
    ensures
        s.take(i + 1).reverse() == seq![s[i]] + s.take(i).reverse(),
        forall|p: Seq<char>|
            #![trigger p.push(s[i]) + s.take(i).reverse()]
            p.push(s[i]) + s.take(i).reverse() == p + s.take(i + 1).reverse(),
{
    assert(s.take(i + 1).reverse() =~= seq![s[i]] + s.take(i).reverse());
    assert forall|p: Seq<char>|
        #![trigger p.push(s[i]) + s.take(i).reverse()]
        p.push(s[i]) + s.take(i).reverse() == p + s.take(i + 1).reverse() by {
        assert(p.push(s[i]) + s.take(i).reverse() =~= p + (seq![s[i]] + s.take(i).reverse()));
    }
}

fn digit(d: u64) -> (c: char)
    requires
        d < 16,
    ensures
        c == digit_char(d as nat),
{
    if d < 10 {
        ((48 + d) as u8) as char
    } else {
        ((87 + d) as u8) as char
    }
}

/// Decimal rendering of an unsigned integer, as `{}` formats it.
pub fn decimal_text(v: u64) -> (s: String)
    ensures
        s@ == decimal_digits(v as nat),
{
    let mut digits: Vec<char> = Vec::new();
    let mut rest = v;
    while rest >= 10
        invariant
            decimal_digits(v as nat) == decimal_digits(rest as nat) + digits@.reverse(),
        decreases rest,
    {
        let d = digit(rest % 10);
        let ghost old_digits = digits@;
        digits.push(d);
        assert(digits@.reverse() == seq![d] + old_digits.reverse());
        rest = rest / 10;
    }
    let mut s = String::new();
    push_char(&mut s, digit(rest));
    let mut i = digits.len();
    while i > 0
        invariant
            i <= digits@.len(),
            decimal_digits(v as nat) == s@ + digits@.take(i as int).reverse(),
        decreases i,
    {
        i = i - 1;
        proof {
            lemma_take_reverse_step(digits@, i as int);
        }
        push_char(&mut s, digits[i]);
    }
    assert(digits@.take(0).reverse() == Seq::<char>::empty());
    s
}

/// Fixed-width lower-case hexadecimal rendering, as `{:016x}` formats a `u64`.
pub fn hex_text_16(v: u64) -> (s: String)
    ensures
        s@ == hex_text(v as nat, 16),
        s@.len() == 16,
{
    let mut digits: Vec<char> = Vec::new();
    let mut rest = v;
    let mut n: usize = 0;
    while n < 16
        invariant
            n <= 16,
            digits@.len() == n,
            hex_text(v as nat, 16) == hex_text(rest as nat, (16 - n) as nat) + digits@.reverse(),
        decreases 16 - n,
    {
        let d = digit(rest % 16);
        let ghost old_digits = digits@;
        digits.push(d);
        assert(digits@.reverse() == seq![d] + old_digits.reverse());
        rest = rest / 16;
        n = n + 1;
    }
    let mut s = String::new();
    let mut i = digits.len();
    while i > 0
        invariant
            i <= digits@.len(),
            hex_text(v as nat, 16) == s@ + digits@.take(i as int).reverse(),
        decreases i,
    {
        i = i - 1;
        proof {
            lemma_take_reverse_step(digits@, i as int);
        }
        push_char(&mut s, digits[i]);
    }
    assert(digits@.take(0).reverse() == Seq::<char>::empty());
    s
}

/// The value a digit character stands for: '0'..'9' are 0..9 and 'a'..'f' are 10..15.
pub open spec fn digit_value(c: char) -> int {
    if '0' <= c <= '9' {
        c as int - '0' as int
    } else {
        c as int - 'a' as int + 10
    }
}

/// The number a string of digits denotes in base `base`, most significant first.
pub open spec fn digits_value(s: Seq<char>, base: int) -> int
    decreases s.len(),
{
    if s.len() == 0 {
        0
    } else {
        digits_value(s.drop_last(), base) * base + digit_value(s.last())
    }
}

/// Reading the decimal rendering back gives the number, and it has no
/// leading zero unless the number is zero.
pub proof fn lemma_decimal_digits_read_back(v: nat)
    ensures
        digits_value(decimal_digits(v), 10) == v,
        decimal_digits(v).len() >= 1,
        decimal_digits(v).len() > 1 <==> v >= 10,
        forall|i: int|
            0 <= i < decimal_digits(v).len() ==> '0' <= #[trigger] decimal_digits(v)[i] <= '9',
        decimal_digits(v).len() > 1 ==> decimal_digits(v)[0] != '0',
    decreases v,
{
    if v >= 10 {
        lemma_decimal_digits_read_back(v / 10);
        let s = decimal_digits(v);
        let d = (v % 10) as nat;
        assert(s.drop_last() =~= decimal_digits(v / 10));
        assert(s.last() == digit_char(d));
        assert(digit_value(digit_char(d)) == d);
        assert(digits_value(s, 10) == digits_value(decimal_digits(v / 10), 10) * 10 + d);
        assert(s[0] == decimal_digits(v / 10)[0]);
        assert(v == (v / 10) * 10 + v % 10);
        if v / 10 < 10 {
            assert(digit_value(digit_char(v / 10)) == v / 10);
            assert(digit_value('0') == 0);
        }
    } else {
        assert(digit_value(digit_char(v)) == v);
        assert(decimal_digits(v) =~= seq![digit_char(v)]);
        assert(seq![digit_char(v)].drop_last() =~= Seq::<char>::empty());
        assert(digits_value(Seq::<char>::empty(), 10) == 0);
        assert(digits_value(decimal_digits(v), 10) == v);
    }
}

/// Reading the fixed-width hexadecimal rendering back gives the number
/// modulo 16^width: every digit is in place, lower-case, none is dropped.
pub proof fn lemma_hex_text_reads_back(v: nat, width: nat)
    ensures
        digits_value(hex_text(v, width), 16) == (v as int) % vstd::arithmetic::power::pow(16, width),
        forall|i: int|
            0 <= i < hex_text(v, width).len() ==> ('0' <= #[trigger] hex_text(v, width)[i] <= '9'
                || 'a' <= hex_text(v, width)[i] <= 'f'),
    decreases width,
{
    reveal(vstd::arithmetic::power::pow);
    if width > 0 {
        lemma_hex_text_reads_back(v / 16, (width - 1) as nat);
        let s = hex_text(v, width);
        assert(s.drop_last() =~= hex_text(v / 16, (width - 1) as nat));
        let p = vstd::arithmetic::power::pow(16, (width - 1) as nat);
        vstd::arithmetic::power::lemma_pow_positive(16, (width - 1) as nat);
        assert(vstd::arithmetic::power::pow(16, width) == 16 * p);
        let vi = v as int;
        vstd::arithmetic::div_mod::lemma_breakdown(vi, 16, p);
        assert(((vi / 16) % p) * 16 + vi % 16 == vi % (16 * p)) by (nonlinear_arith)
            requires
                p > 0,
                vi % (16 * p) == 16 * ((vi / 16) % p) + vi % 16,
        ;
    }
}

} // verus!
