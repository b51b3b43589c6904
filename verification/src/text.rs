//! Text helpers: white space, trimming, decimal and hexadecimal numerals.
//!
//! A text is modelled by the sequence of its characters.

use vstd::prelude::*;

verus! {

/// The characters with the Unicode `White_Space` property.
pub open spec fn is_white_space(c: char) -> bool {
    ||| '\u{9}' <= c <= '\u{d}'
    ||| c == '\u{20}' || c == '\u{85}' || c == '\u{a0}' || c == '\u{1680}'
    ||| '\u{2000}' <= c <= '\u{200a}'
    ||| c == '\u{2028}' || c == '\u{2029}' || c == '\u{202f}' || c == '\u{205f}' || c == '\u{3000}'
}

/// `s` without the white space at its two ends.
pub open spec fn trimmed(s: Seq<char>) -> Seq<char>
    decreases s.len(),
{
    if s.len() == 0 {
        s
    } else if is_white_space(s.first()) {
        trimmed(s.drop_first())
    } else if is_white_space(s.last()) {
        trimmed(s.drop_last())
    } else {
        s
    }
}

/// The decimal digit of a number below ten.
pub open spec fn decimal_digit(n: nat) -> char {
    ('0' as nat + n) as char
}

/// The decimal numeral of `n`, without leading zeros.
pub open spec fn decimal(n: nat) -> Seq<char>
    decreases n,
{
    if n < 10 {
        seq![decimal_digit(n)]
    } else {
        decimal(n / 10).push(decimal_digit(n % 10))
    }
}

/// The decimal numeral of `i`, with a minus sign where `i` is negative.
pub open spec fn signed_decimal(i: int) -> Seq<char> {
    if i < 0 {
        seq!['-'] + decimal((-i) as nat)
    } else {
        decimal(i as nat)
    }
}

/// The lower-case hexadecimal digit of a number below sixteen.
pub open spec fn hex_digit(n: nat) -> char {
    if n < 10 {
        ('0' as nat + n) as char
    } else {
        ('a' as nat + (n - 10)) as char
    }
}

/// Two lower-case hexadecimal digits for each byte.
pub open spec fn hex(bytes: Seq<u8>) -> Seq<char> {
    Seq::new(
        2 * bytes.len(),
        |i: int|
            if i % 2 == 0 {
                hex_digit(bytes[i / 2] as nat / 16)
            } else {
                hex_digit(bytes[i / 2] as nat % 16)
            },
    )
}

/// Trimming takes nothing more off a trimmed text.
pub proof fn law_trimming_is_idempotent(s: Seq<char>)
    ensures
        trimmed(trimmed(s)) == trimmed(s),
    decreases s.len(),
{
    if s.len() > 0 {
        if is_white_space(s.first()) {
            law_trimming_is_idempotent(s.drop_first());
        } else if is_white_space(s.last()) {
            law_trimming_is_idempotent(s.drop_last());
        }
    }
}

/// A trimmed text neither starts nor ends with white space.
pub proof fn law_trimmed_ends_are_not_space(s: Seq<char>)
    ensures
        trimmed(s).len() > 0 ==> !is_white_space(trimmed(s).first()) && !is_white_space(
            trimmed(s).last(),
        ),
    decreases s.len(),
{
    if s.len() > 0 {
        if is_white_space(s.first()) {
            law_trimmed_ends_are_not_space(s.drop_first());
        } else if is_white_space(s.last()) {
            law_trimmed_ends_are_not_space(s.drop_last());
        }
    }
}

/// Nothing is left of a text exactly where it is white space throughout.
pub proof fn law_trimmed_is_empty_iff_blank(s: Seq<char>)
    ensures
        trimmed(s).len() == 0 <==> forall|i: int| 0 <= i < s.len() ==> is_white_space(s[i]),
    decreases s.len(),
{
    if s.len() > 0 {
        if is_white_space(s.first()) {
            let rest = s.drop_first();
            law_trimmed_is_empty_iff_blank(rest);
            if trimmed(s).len() == 0 {
                assert forall|i: int| 0 <= i < s.len() implies is_white_space(s[i]) by {
                    assert(i > 0 ==> s[i] == rest[i - 1]);
                }
            } else {
                let i = choose|i: int| 0 <= i < rest.len() && !is_white_space(rest[i]);
                assert(!is_white_space(s[i + 1]));
            }
        } else {
            assert(!is_white_space(s[0]));
            if is_white_space(s.last()) {
                law_trimmed_is_empty_iff_blank(s.drop_last());
                assert(s.drop_last()[0] == s[0]);
            }
        }
    }
}

/// The white space characters are these twenty-five and no others.
pub proof fn law_white_space_characters(c: char)
    ensures
        is_white_space(c) <==> "\u{9}\u{a}\u{b}\u{c}\u{d}\u{20}\u{85}\u{a0}\u{1680}\u{2000}\u{2001}\u{2002}\u{2003}\u{2004}\u{2005}\u{2006}\u{2007}\u{2008}\u{2009}\u{200a}\u{2028}\u{2029}\u{202f}\u{205f}\u{3000}"@.contains(
            c,
        ),
{
    let all =
        "\u{9}\u{a}\u{b}\u{c}\u{d}\u{20}\u{85}\u{a0}\u{1680}\u{2000}\u{2001}\u{2002}\u{2003}\u{2004}\u{2005}\u{2006}\u{2007}\u{2008}\u{2009}\u{200a}\u{2028}\u{2029}\u{202f}\u{205f}\u{3000}"@;
    reveal_strlit(
        "\u{9}\u{a}\u{b}\u{c}\u{d}\u{20}\u{85}\u{a0}\u{1680}\u{2000}\u{2001}\u{2002}\u{2003}\u{2004}\u{2005}\u{2006}\u{2007}\u{2008}\u{2009}\u{200a}\u{2028}\u{2029}\u{202f}\u{205f}\u{3000}",
    );
    let n = c as u32;
    if '\u{9}' <= c <= '\u{d}' {
        assert(all[n - 9] == c);
    } else if '\u{2000}' <= c <= '\u{200a}' {
        assert(all[9 + (n - 0x2000)] == c);
    }
    assert(all[5] == '\u{20}' && all[6] == '\u{85}' && all[7] == '\u{a0}' && all[8] == '\u{1680}');
    assert(all[20] == '\u{2028}' && all[21] == '\u{2029}' && all[22] == '\u{202f}' && all[23]
        == '\u{205f}' && all[24] == '\u{3000}');
}

/// Trimming keeps everything between the white space at the two ends: of white space, a text that
/// neither starts nor ends with white space, and white space again, the text in the middle is left,
/// whole.
pub proof fn law_trimming_keeps_the_middle(a: Seq<char>, d: Seq<char>, b: Seq<char>)
    requires
        forall|i: int| 0 <= i < a.len() ==> is_white_space(a[i]),
        forall|i: int| 0 <= i < b.len() ==> is_white_space(b[i]),
        d.len() > 0,
        !is_white_space(d.first()),
        !is_white_space(d.last()),
    ensures
        trimmed(a + d + b) == d,
    decreases a.len() + b.len(),
{
    let s = a + d + b;
    if a.len() > 0 {
        assert(s.first() == a[0]);
        assert(s.drop_first() =~= a.drop_first() + d + b);
        law_trimming_keeps_the_middle(a.drop_first(), d, b);
    } else if b.len() > 0 {
        assert(s.first() == d.first());
        assert(s.last() == b.last());
        assert(s.drop_last() =~= a + d + b.drop_last());
        law_trimming_keeps_the_middle(a, d, b.drop_last());
    } else {
        assert(s =~= d);
    }
}

/// Every text that is not blank is white space, what trimming leaves, and white space again.
pub proof fn law_trimming_takes_white_space_only(s: Seq<char>) -> (r: (Seq<char>, Seq<char>))
    ensures
        trimmed(s).len() > 0 ==> {
            &&& s == r.0 + trimmed(s) + r.1
            &&& forall|i: int| 0 <= i < r.0.len() ==> is_white_space(#[trigger] r.0[i])
            &&& forall|i: int| 0 <= i < r.1.len() ==> is_white_space(#[trigger] r.1[i])
        },
    decreases s.len(),
{
    if s.len() == 0 {
        (Seq::empty(), Seq::empty())
    } else if is_white_space(s.first()) {
        let (a, b) = law_trimming_takes_white_space_only(s.drop_first());
        let before = seq![s.first()] + a;
        if trimmed(s).len() > 0 {
            assert(s =~= seq![s.first()] + s.drop_first());
            assert(s =~= before + trimmed(s) + b);
        }
        (before, b)
    } else if is_white_space(s.last()) {
        let (a, b) = law_trimming_takes_white_space_only(s.drop_last());
        let behind = b.push(s.last());
        if trimmed(s).len() > 0 {
            assert(s =~= s.drop_last().push(s.last()));
            assert(s =~= a + trimmed(s) + behind);
        }
        (a, behind)
    } else {
        assert(s =~= Seq::<char>::empty() + s + Seq::<char>::empty());
        (Seq::empty(), Seq::empty())
    }
}

/// A numeral of one digit is that digit, and one more digit at the end makes ten times the number
/// and the digit.
pub proof fn law_numerals_are_positional(n: nat, digit: nat)
    requires
        digit < 10,
    ensures
        decimal(digit) == seq!["0123456789"@[digit as int]],
        n > 0 ==> decimal(10 * n + digit) == decimal(n) + seq!["0123456789"@[digit as int]],
{
    reveal_strlit("0123456789");
    if n > 0 {
        let m = 10 * n + digit;
        assert(m / 10 == n && m % 10 == digit);
        assert(decimal(m) =~= decimal(n) + seq!["0123456789"@[digit as int]]);
    }
}

/// A minus sign stands in front of negative numbers, and of no others.
pub proof fn law_minus_sign_marks_negative_numbers(n: nat)
    ensures
        signed_decimal(n as int) == decimal(n),
        n > 0 ==> signed_decimal(-(n as int)) == "-"@ + decimal(n),
{
    reveal_strlit("-");
    assert("-"@ =~= seq!['-']);
}

/// Each byte is shown by two hexadecimal digits in lower case, its upper half first.
pub proof fn law_hex_shows_every_byte(bytes: Seq<u8>)
    ensures
        hex(bytes).len() == 2 * bytes.len(),
        forall|i: int|
            0 <= i < bytes.len() ==> hex(bytes)[2 * i] == "0123456789abcdef"@[#[trigger] bytes[i] as int
                / 16] && hex(bytes)[2 * i + 1] == "0123456789abcdef"@[bytes[i] as int % 16],
{
    reveal_strlit("0123456789abcdef");
    assert forall|i: int| 0 <= i < bytes.len() implies hex(bytes)[2 * i]
        == "0123456789abcdef"@[#[trigger] bytes[i] as int / 16] && hex(bytes)[2 * i + 1]
        == "0123456789abcdef"@[bytes[i] as int % 16] by {
        assert((2 * i) / 2 == i && (2 * i) % 2 == 0);
        assert((2 * i + 1) / 2 == i && (2 * i + 1) % 2 == 1);
    }
}

/// Different byte strings have different hexadecimal forms.
pub proof fn law_hex_is_injective(a: Seq<u8>, b: Seq<u8>)
    ensures
        hex(a) == hex(b) <==> a == b,
{
    if hex(a) == hex(b) {
        assert(hex(a).len() == hex(b).len());
        assert forall|i: int| 0 <= i < a.len() implies a[i] == b[i] by {
            assert(hex(a)[2 * i] == hex(b)[2 * i]);
            assert(hex(a)[2 * i + 1] == hex(b)[2 * i + 1]);
            assert((2 * i) / 2 == i && (2 * i) % 2 == 0);
            assert((2 * i + 1) / 2 == i && (2 * i + 1) % 2 == 1);
        }
        assert(a =~= b);
    }
}

/// Tells whether `c` has the Unicode `White_Space` property.
pub(crate) fn is_space(c: char) -> (r: bool)
    ensures
        r == is_white_space(c),
{
    ('\u{9}' <= c && c <= '\u{d}') || c == '\u{20}' || c == '\u{85}' || c == '\u{a0}' || c
        == '\u{1680}' || ('\u{2000}' <= c && c <= '\u{200a}') || c == '\u{2028}' || c == '\u{2029}'
        || c == '\u{202f}' || c == '\u{205f}' || c == '\u{3000}'
}

/// The characters of `s`, in order.
pub(crate) fn to_chars(s: &str) -> (r: Vec<char>)
    ensures
        r@ == s@,
{
    let mut out: Vec<char> = Vec::new();
    for c in it: s.chars()
        invariant
            it.seq() == s@,
            out@ == s@.take(it.index() as int),
    {
        out.push(c);
    }
    out
}

/// `s` without the white space at its two ends.
pub fn trim(s: &str) -> (r: &str)
    ensures
        r@ == trimmed(s@),
{
    let chars = to_chars(s);
    let n: usize = chars.len();
    let mut start: usize = 0;
    assert(s@.subrange(0, n as int) =~= s@);
    while start < n && is_space(chars[start])
        invariant
            start <= n,
            n == chars@.len(),
            chars@ == s@,
            trimmed(s@) == trimmed(s@.subrange(start as int, n as int)),
        decreases n - start,
    {
        assert(s@.subrange(start as int, n as int).drop_first() =~= s@.subrange(
            start + 1,
            n as int,
        ));
        start = start + 1;
    }
    let mut end: usize = n;
    while start < end && is_space(chars[end - 1])
        invariant
            start <= end <= n,
            n == chars@.len(),
            chars@ == s@,
            start < n ==> !is_white_space(s@[start as int]),
            trimmed(s@) == trimmed(s@.subrange(start as int, end as int)),
        decreases end,
    {
        assert(s@.subrange(start as int, end as int).drop_last() =~= s@.subrange(
            start as int,
            end - 1,
        ));
        end = end - 1;
    }
    s.substring_char(start, end)
}

/// Appends the decimal numeral of `n` to `out`.
fn push_decimal(out: &mut String, n: u128)
    ensures
        final(out)@ == old(out)@ + decimal(n as nat),
    decreases n,
{
    if n >= 10 {
        push_decimal(out, n / 10);
    }
    let digit: &str = match n % 10 {
        0 => "0",
        1 => "1",
        2 => "2",
        3 => "3",
        4 => "4",
        5 => "5",
        6 => "6",
        7 => "7",
        8 => "8",
        _ => "9",
    };
    proof {
        reveal_strlit("0");
        reveal_strlit("1");
        reveal_strlit("2");
        reveal_strlit("3");
        reveal_strlit("4");
        reveal_strlit("5");
        reveal_strlit("6");
        reveal_strlit("7");
        reveal_strlit("8");
        reveal_strlit("9");
        assert(digit@ =~= seq![decimal_digit(n as nat % 10)]);
        if n >= 10 {
            assert(decimal(n as nat) =~= decimal(n as nat / 10) + digit@);
        }
    }
    out.append(digit);
}

/// The decimal numeral of `i`.
pub fn decimal_text(i: i64) -> (r: String)
    ensures
        r@ == signed_decimal(i as int),
{
    let mut out = String::new();
    if i < 0 {
        out.append("-");
        proof {
            reveal_strlit("-");
            assert("-"@ =~= seq!['-']);
        }
        push_decimal(&mut out, (-(i as i128)) as u128);
    } else {
        push_decimal(&mut out, i as u128);
    }
    out
}

/// The lower-case hexadecimal digit of a number below sixteen, as a text.
fn hex_digit_text(n: u8) -> (r: &'static str)
    requires
        n < 16,
    ensures
        r@ == seq![hex_digit(n as nat)],
{
    proof {
        reveal_strlit("0");
        reveal_strlit("1");
        reveal_strlit("2");
        reveal_strlit("3");
        reveal_strlit("4");
        reveal_strlit("5");
        reveal_strlit("6");
        reveal_strlit("7");
        reveal_strlit("8");
        reveal_strlit("9");
        reveal_strlit("a");
        reveal_strlit("b");
        reveal_strlit("c");
        reveal_strlit("d");
        reveal_strlit("e");
        reveal_strlit("f");
    }
    match n {
        0 => "0",
        1 => "1",
        2 => "2",
        3 => "3",
        4 => "4",
        5 => "5",
        6 => "6",
        7 => "7",
        8 => "8",
        9 => "9",
        10 => "a",
        11 => "b",
        12 => "c",
        13 => "d",
        14 => "e",
        _ => "f",
    }
}

/// Two lower-case hexadecimal digits for each byte.
pub fn hex_text(bytes: &[u8]) -> (r: String)
    ensures
        r@ == hex(bytes@),
{
    let mut out = String::new();
    let mut i: usize = 0;
    assert(out@ =~= hex(bytes@.take(0)));
    while i < bytes.len()
        invariant
            i <= bytes@.len(),
            out@ == hex(bytes@.take(i as int)),
        decreases bytes@.len() - i,
    {
        let ghost before = out@;
        out.append(hex_digit_text(bytes[i] / 16));
        out.append(hex_digit_text(bytes[i] % 16));
        proof {
            let longer = hex(bytes@.take(i + 1));
            assert forall|k: int| 0 <= k < longer.len() implies out@[k] == longer[k] by {
                if k < before.len() {
                    assert(before[k] == hex(bytes@.take(i as int))[k]);
                }
            }
            assert(out@ =~= longer);
        }
        i = i + 1;
    }
    assert(bytes@.take(bytes@.len() as int) =~= bytes@);
    out
}

} // verus!
