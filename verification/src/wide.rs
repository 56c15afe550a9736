//! UTF-16 text with a terminating NUL, as the Windows API takes it.
use vstd::prelude::*;
use crate::decimal::chars_of;

verus! {

/// The UTF-16 code units of one character: the character itself below
/// U+10000, else a surrogate pair.
pub open spec fn utf16_units(c: char) -> Seq<u16> {
    let u = c as int;
    if u < 0x10000 {
        seq![u as u16]
    } else {
        let v = u - 0x10000;
        seq![(0xd800 + v / 0x400) as u16, (0xdc00 + v % 0x400) as u16]
    }
}

/// The UTF-16 encoding of a character sequence.
pub open spec fn utf16_of(s: Seq<char>) -> Seq<u16>
    decreases s.len(),
{
    if s.len() == 0 {
        seq![]
    } else {
        utf16_of(s.drop_last()) + utf16_units(s.last())
    }
}

/// The UTF-16 code units of `c`, appended to `out`.
fn push_utf16(out: &mut Vec<u16>, c: char)
    ensures
        final(out)@ == old(out)@ + utf16_units(c),
{
    let u = c as u32;
    if u < 0x10000 {
        out.push(u as u16);
    } else {
        let v = u - 0x10000;
        out.push((0xd800 + v / 0x400) as u16);
        out.push((0xdc00 + v % 0x400) as u16);
    }
    proof {
        assert(final(out)@ =~= old(out)@ + utf16_units(c));
    }
}

/// `s` in UTF-16, followed by a NUL unit.
pub fn to_wstring(s: &str) -> (w: Vec<u16>)
    ensures
        w@ == utf16_of(s@).push(0),
{
    let chars = chars_of(s);
    let mut w: Vec<u16> = Vec::new();
    let mut i: usize = 0;
    assert(chars@.take(0) =~= Seq::<char>::empty());
    while i < chars.len()
        invariant
            i <= chars.len(),
            w@ == utf16_of(chars@.take(i as int)),
        decreases chars.len() - i,
    {
        push_utf16(&mut w, chars[i]);
        assert(chars@.take(i + 1).drop_last() =~= chars@.take(i as int));
        i = i + 1;
    }
    assert(chars@.take(i as int) =~= s@);
    w.push(0);
    w
}

proof fn lemma_utf16_units_nonzero(c: char)
    requires
        c != '\0',
    ensures
        forall|k: int| 0 <= k < utf16_units(c).len() ==> #[trigger] utf16_units(c)[k] != 0,
        1 <= utf16_units(c).len() <= 2,
{
    let u = c as int;
    if u >= 0x10000 {
        let v = u - 0x10000;
        assert(v / 0x400 < 0x400);
        assert(((0xd800 + v / 0x400) as u16) != 0);
    } else {
        assert(u != 0);
    }
}

/// A text without NUL characters encodes to UTF-16 without NUL units, so
/// the one NUL that ends the wide string is where Windows sees it end.
pub proof fn lemma_utf16_has_no_nul(s: Seq<char>)
    requires
        forall|k: int| 0 <= k < s.len() ==> s[k] != '\0',
    ensures
        forall|k: int| 0 <= k < utf16_of(s).len() ==> #[trigger] utf16_of(s)[k] != 0,
        s.len() <= utf16_of(s).len() <= 2 * s.len(),
    decreases s.len(),
{
    if s.len() > 0 {
        let init = s.drop_last();
        lemma_utf16_has_no_nul(init);
        lemma_utf16_units_nonzero(s.last());
        let a = utf16_of(init);
        let b = utf16_units(s.last());
        assert forall|k: int| 0 <= k < utf16_of(s).len() implies #[trigger] utf16_of(s)[k] != 0 by {
            if k < a.len() {
                assert(utf16_of(s)[k] == a[k]);
            } else {
                assert(utf16_of(s)[k] == b[k - a.len()]);
            }
        }
    }
}

/// An ASCII text encodes unit for unit: each character becomes its code.
pub proof fn lemma_utf16_of_ascii(s: Seq<char>)
    requires
        forall|k: int| 0 <= k < s.len() ==> 0 <= (#[trigger] s[k] as int) < 0x80,
    ensures
        utf16_of(s).len() == s.len(),
        forall|k: int| 0 <= k < s.len() ==> utf16_of(s)[k] as int == #[trigger] s[k] as int,
    decreases s.len(),
{
    if s.len() > 0 {
        let init = s.drop_last();
        lemma_utf16_of_ascii(init);
        let u = s.last() as int;
        assert(0 <= (s[s.len() - 1] as int) < 0x80);
        assert((u as u16) as int == u);
        assert forall|k: int| 0 <= k < s.len() implies utf16_of(s)[k] as int == #[trigger] s[k]
            as int by {
            if k < init.len() {
                assert(init[k] == s[k]);
                assert(utf16_of(s)[k] == utf16_of(init)[k]);
            } else {
                assert(utf16_of(s)[k] == utf16_units(s.last())[0]);
            }
        }
    }
}

} // verus!
