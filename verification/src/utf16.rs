//! UTF-16, as the wide-character interfaces of Windows take it.

use vstd::prelude::*;

verus! {

/// The UTF-16 code units of a character: one, or a surrogate pair beyond the basic plane.
pub open spec fn utf16_units(c: char) -> Seq<u16> {
    let n = c as u32;
    if n < 0x1_0000 {
        seq![n as u16]
    } else {
        seq![
            (0xd800 + (n - 0x1_0000) / 0x400) as u16,
            (0xdc00 + (n - 0x1_0000) % 0x400) as u16,
        ]
    }
}

/// The UTF-16 code units of a text.
pub open spec fn utf16(s: Seq<char>) -> Seq<u16>
    decreases s.len(),
{
    if s.len() == 0 {
        Seq::empty()
    } else {
        utf16_units(s.first()) + utf16(s.drop_first())
    }
}

/// The text that UTF-16 code units stand for. A high surrogate takes the unit behind it along.
pub open spec fn from_utf16(units: Seq<u16>) -> Seq<char>
    decreases units.len(),
{
    if units.len() == 0 {
        Seq::empty()
    } else if 0xd800 <= units[0] < 0xdc00 && units.len() > 1 {
        seq![(0x1_0000 + (units[0] - 0xd800) * 0x400 + (units[1] - 0xdc00)) as char] + from_utf16(
            units.skip(2),
        )
    } else {
        seq![units[0] as char] + from_utf16(units.skip(1))
    }
}

/// The wide form of a text says exactly what the text says.
pub proof fn law_wide_text_reads_back(s: Seq<char>)
    ensures
        from_utf16(utf16(s)) == s,
    decreases s.len(),
{
    if s.len() > 0 {
        let c = s.first();
        let n = c as u32;
        vstd::utf8::char_is_scalar(c);
        vstd::utf8::char_u32_cast(c, n);
        let tail = utf16(s.drop_first());
        let units = utf16_units(c) + tail;
        law_wide_text_reads_back(s.drop_first());
        if n < 0x1_0000 {
            assert(units.skip(1) =~= tail);
            assert(units[0] == n);
        } else {
            assert(units.skip(2) =~= tail);
            let high = (n - 0x1_0000) / 0x400;
            let low = (n - 0x1_0000) % 0x400;
            assert(0 <= high < 0x400);
            assert(units[0] == 0xd800 + high);
            assert(units[1] == 0xdc00 + low);
        }
        assert(from_utf16(units) =~= seq![c] + s.drop_first());
        assert(s =~= seq![c] + s.drop_first());
    } else {
        assert(from_utf16(utf16(s)) =~= s);
    }
}

/// One more character adds its units at the end.
proof fn lemma_utf16_push(s: Seq<char>, c: char)
    ensures
        utf16(s.push(c)) == utf16(s) + utf16_units(c),
    decreases s.len(),
{
    if s.len() == 0 {
        assert(s.push(c).drop_first() =~= s);
        assert(utf16(s.push(c)) =~= utf16(s) + utf16_units(c));
    } else {
        assert(s.push(c).drop_first() =~= s.drop_first().push(c));
        lemma_utf16_push(s.drop_first(), c);
        assert(utf16(s.push(c)) =~= utf16(s) + utf16_units(c));
    }
}

/// A character of the basic plane is its own code unit. Any other is a high and a low surrogate,
/// which hold ten bits each of what it is beyond the basic plane.
pub proof fn law_units_of_a_character(c: char)
    ensures
        c as u32 <= 0xffff ==> utf16(seq![c]) == seq![c as u16],
        c as u32 > 0xffff ==> {
            let units = utf16(seq![c]);
            &&& units.len() == 2
            &&& 0xd800 <= units[0] <= 0xdbff
            &&& 0xdc00 <= units[1] <= 0xdfff
            &&& 0x1_0000 + (units[0] - 0xd800) * 0x400 + (units[1] - 0xdc00) == c as u32
        },
{
    vstd::utf8::char_is_scalar(c);
    lemma_utf16_push(Seq::empty(), c);
    assert(Seq::<char>::empty().push(c) =~= seq![c]);
    assert(utf16(seq![c]) =~= utf16_units(c));
}

/// The wide form of two texts in a row is the two wide forms in a row.
pub proof fn law_wide_texts_concatenate(a: Seq<char>, b: Seq<char>)
    ensures
        utf16(Seq::<char>::empty()).len() == 0,
        utf16(a + b) == utf16(a) + utf16(b),
    decreases b.len(),
{
    if b.len() == 0 {
        assert(a + b =~= a);
        assert(utf16(a + b) =~= utf16(a) + utf16(b));
    } else {
        let c = b.last();
        let rest = b.drop_last();
        law_wide_texts_concatenate(a, rest);
        lemma_utf16_push(a + rest, c);
        lemma_utf16_push(rest, c);
        assert(a + b =~= (a + rest).push(c));
        assert(b =~= rest.push(c));
        assert(utf16(a + b) =~= utf16(a) + utf16(b));
    }
}

/// The code units of `s`, ended by a zero.
pub fn wide(s: &str) -> (r: Vec<u16>)
    ensures
        r@ == utf16(s@).push(0),
{
    let mut out: Vec<u16> = Vec::new();
    for c in it: s.chars()
        invariant
            it.seq() == s@,
            out@ == utf16(s@.take(it.index() as int)),
    {
        let ghost before = out@;
        let ghost k = it.index() as int;
        proof {
            vstd::utf8::char_is_scalar(c);
        }
        let n: u32 = c as u32;
        if n < 0x1_0000 {
            out.push(n as u16);
        } else {
            let m: u32 = n - 0x1_0000;
            out.push((0xd800 + m / 0x400) as u16);
            out.push((0xdc00 + m % 0x400) as u16);
        }
        proof {
            lemma_utf16_push(s@.take(k), c);
            assert(s@.take(k + 1) =~= s@.take(k).push(c));
            assert(out@ =~= before + utf16_units(c));
        }
    }
    assert(s@.take(s@.len() as int) =~= s@);
    out.push(0);
    out
}

} // verus!
