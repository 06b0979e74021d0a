//! What trimming, joining, counting and writing numbers come to.

use crate::text;
use vstd::prelude::*;

verus! {

/// `part` stands in `whole` from position `at` on, with nothing but white space
/// around it, and neither begins nor ends with any.
pub open spec fn is_core(part: Seq<char>, whole: Seq<char>, at: int) -> bool {
    &&& 0 <= at <= whole.len() - part.len()
    &&& part == whole.subrange(at, at + part.len())
    &&& forall|i: int| 0 <= i < at ==> text::is_space(#[trigger] whole[i])
    &&& forall|i: int| at + part.len() <= i < whole.len() ==> text::is_space(#[trigger] whole[i])
    &&& part.len() > 0 ==> !text::is_space(part[0]) && !text::is_space(part.last())
}

/// Trimming takes off the white space at both ends, all of it and nothing else.
pub proof fn law_trimming_leaves_the_core(s: Seq<char>)
    ensures
        exists|at: int| #[trigger] is_core(text::trimmed(s), s, at),
{
    let p = |c: char| text::is_space(c);
    let at = lemma_leading(s, p);
    let lead = text::drop_leading(s, p);
    let n = lemma_trailing(lead, p);
    let t = text::trimmed(s);
    assert(t == lead.take(n));
    assert(t == s.subrange(at, at + t.len()));
    assert forall|i: int| 0 <= i < at implies text::is_space(#[trigger] s[i]) by {
        assert(p(s[i]));
    }
    assert forall|i: int| at + t.len() <= i < s.len() implies text::is_space(#[trigger] s[i]) by {
        assert(p(lead[i - at]));
    }
    if t.len() > 0 {
        assert(t[0] == lead[0]);
        assert(!p(lead[0]));
        assert(!p(t.last()));
    }
    assert(is_core(t, s, at));
}

/// A text without white space at its ends is left alone by trimming.
pub proof fn law_trimming_twice_is_trimming_once(s: Seq<char>)
    ensures
        text::trimmed(text::trimmed(s)) == text::trimmed(s),
{
    let p = |c: char| text::is_space(c);
    law_trimming_leaves_the_core(s);
    let t = text::trimmed(s);
    if t.len() > 0 {
        assert(!p(t[0]));
        assert(text::drop_leading(t, p) == t);
        assert(!p(t.last()));
    }
}

/// What `drop_leading` leaves out is at the front, and is all of it.
pub(crate) proof fn lemma_leading(s: Seq<char>, p: spec_fn(char) -> bool) -> (at: int)
    ensures
        0 <= at <= s.len(),
        text::drop_leading(s, p) == s.skip(at),
        forall|i: int| 0 <= i < at ==> p(#[trigger] s[i]),
        at < s.len() ==> !p(s[at]),
    decreases s.len(),
{
    if s.len() > 0 && p(s[0]) {
        let rest = s.skip(1);
        let n = lemma_leading(rest, p);
        assert(rest.skip(n) =~= s.skip(n + 1));
        assert forall|i: int| 0 <= i < n + 1 implies p(#[trigger] s[i]) by {
            if i > 0 {
                assert(p(rest[i - 1]));
            }
        }
        if n + 1 < s.len() {
            assert(rest[n] == s[n + 1]);
        }
        n + 1
    } else {
        assert(s.skip(0) =~= s);
        0
    }
}

/// What `drop_trailing` leaves out is at the back, and is all of it.
pub(crate) proof fn lemma_trailing(s: Seq<char>, p: spec_fn(char) -> bool) -> (n: int)
    ensures
        0 <= n <= s.len(),
        text::drop_trailing(s, p) == s.take(n),
        forall|i: int| n <= i < s.len() ==> p(#[trigger] s[i]),
        n > 0 ==> !p(s[n - 1]),
    decreases s.len(),
{
    if s.len() > 0 && p(s.last()) {
        let init = s.drop_last();
        let n = lemma_trailing(init, p);
        assert(init.take(n) =~= s.take(n));
        assert forall|i: int| n <= i < s.len() implies p(#[trigger] s[i]) by {
            if i < init.len() {
                assert(p(init[i]));
            }
        }
        if n > 0 {
            assert(init[n - 1] == s[n - 1]);
        }
        n
    } else {
        assert(s.take(s.len() as int) =~= s);
        s.len() as int
    }
}

/// White space is the blank, what moves on a line or to the next, and what Unicode
/// has besides; no letter, digit or other visible ASCII character.
pub proof fn law_white_space(c: char)
    ensures
        text::is_space(' ') && text::is_space('\t') && text::is_space('\n') && text::is_space('\r'),
        (c as u32) < 128 ==> (text::is_space(c) <==> c == ' ' || 9 <= c as u32 <= 13),
        (c as u32) >= 128 ==> (text::is_space(c) <==> c == '\u{85}' || c == '\u{a0}' || c
            == '\u{1680}' || '\u{2000}' <= c <= '\u{200a}' || c == '\u{2028}' || c == '\u{2029}' || c
            == '\u{202f}' || c == '\u{205f}' || c == '\u{3000}'),
{
}

/// Joined texts stand one behind the other, with the separator between every two
/// of them and nowhere else.
pub proof fn law_joined_texts_stand_in_order(parts: Seq<Seq<char>>, sep: Seq<char>)
    ensures
        parts.len() == 0 ==> text::joined(parts, sep).len() == 0,
        parts.len() > 0 ==> text::joined(parts, sep) == parts[0] + Seq::new(
            (parts.len() - 1) as nat,
            |i: int| sep + parts[i + 1],
        ).flatten(),
    decreases parts.len(),
{
    if parts.len() > 0 {
        let more = Seq::new((parts.len() - 1) as nat, |i: int| sep + parts[i + 1]);
        if parts.len() == 1 {
            assert(parts[0] + more.flatten() =~= parts[0]);
        } else {
            let init = parts.drop_last();
            law_joined_texts_stand_in_order(init, sep);
            let fewer = Seq::new((init.len() - 1) as nat, |i: int| sep + init[i + 1]);
            assert(more.drop_last() =~= fewer);
            more.lemma_flatten_and_flatten_alt_are_equivalent();
            fewer.lemma_flatten_and_flatten_alt_are_equivalent();
            assert(more.flatten() == fewer.flatten() + more.last());
            assert(text::joined(parts, sep) =~= parts[0] + more.flatten());
        }
    }
}

/// The texts of a list, one for one.
pub proof fn law_views_are_the_texts(list: Seq<String>)
    ensures
        text::views(list).len() == list.len(),
        forall|i: int| 0 <= i < list.len() ==> text::views(list)[i] == (#[trigger] list[i])@,
{
}

/// Upper case changes each of the twenty-six small letters into its capital, and
/// nothing else; the text stays as long as it was.
pub proof fn law_upper_case(s: Seq<char>, i: int)
    requires
        0 <= i < s.len(),
    ensures
        text::ascii_uppercase(s).len() == s.len(),
        'a' <= s[i] <= 'z' ==> 'A' <= text::ascii_uppercase(s)[i] <= 'Z' && text::ascii_uppercase(
            s,
        )[i] as u32 - 'A' as u32 == s[i] as u32 - 'a' as u32,
        !('a' <= s[i] <= 'z') ==> text::ascii_uppercase(s)[i] == s[i],
{
    let c = s[i];
    if 'a' <= c <= 'z' {
        let n = (c as u32 - 32) as u32;
        assert(n as char as u32 == n);
    }
}

/// A number is written with digits alone, and without a leading zero unless it is
/// zero; the digits stand for the number.
pub proof fn law_numbers_are_written_plainly(n: nat)
    ensures
        text::decimal(n).len() > 0,
        forall|i: int| 0 <= i < text::decimal(n).len() ==> '0' <= #[trigger] text::decimal(n)[i] <= '9',
        text::digits_value(text::decimal(n)) == n,
        n > 0 ==> text::decimal(n)[0] != '0',
    decreases n,
{
    let s = text::decimal(n);
    if n < 10 {
        assert(s.drop_last() =~= Seq::empty());
        assert(text::digits_value(s.drop_last()) == 0);
    } else {
        law_numbers_are_written_plainly(n / 10);
        assert(s.drop_last() =~= text::decimal(n / 10));
        assert(s[0] == text::decimal(n / 10)[0]);
    }
}

/// A digit counts ten times as much as the one behind it.
pub proof fn law_digits_count_in_tens(s: Seq<char>, c: char)
    requires
        '0' <= c <= '9',
    ensures
        text::digits_value(Seq::empty()) == 0,
        text::digits_value(s.push(c)) == 10 * text::digits_value(s) + (c as u32 - '0' as u32),
{
    assert(s.push(c).drop_last() =~= s);
}

/// A negative number is written as its opposite behind a minus sign.
pub proof fn law_negative_numbers_have_a_sign(n: int)
    ensures
        n < 0 ==> text::signed_decimal(n).len() > 0 && text::signed_decimal(n)[0] == '-'
            && text::digits_value(text::signed_decimal(n).skip(1)) == -n,
        n >= 0 ==> text::digits_value(text::signed_decimal(n)) == n && text::signed_decimal(n)[0]
            != '-',
{
    if n < 0 {
        law_numbers_are_written_plainly((-n) as nat);
        assert(text::signed_decimal(n).skip(1) =~= text::decimal((-n) as nat));
    } else {
        law_numbers_are_written_plainly(n as nat);
        assert('0' <= text::decimal(n as nat)[0] <= '9');
    }
}

/// A text of digits alone is read as the number that it writes, with or without a
/// plus sign, as long as that fits into 32 bits.
pub proof fn law_digits_are_read(s: Seq<char>)
    requires
        s.len() > 0,
        forall|i: int| 0 <= i < s.len() ==> '0' <= #[trigger] s[i] <= '9',
    ensures
        text::digits_value(s) < 0x1_0000_0000 ==> text::u32_value(s) == Some(
            text::digits_value(s) as u32,
        ) && text::u32_value(seq!['+'] + s) == Some(text::digits_value(s) as u32),
        text::digits_value(s) >= 0x1_0000_0000 ==> text::u32_value(s) is None && text::u32_value(
            seq!['+'] + s,
        ) is None,
{
    assert('0' <= s[0] <= '9');
    assert(text::unsigned_part(s) == s);
    assert((seq!['+'] + s).skip(1) =~= s);
    assert(text::unsigned_part(seq!['+'] + s) == s);
    assert forall|i: int| 0 <= i < s.len() implies (|c: char| text::is_digit(c))(
        #[trigger] s[i],
    ) by {
        assert('0' <= s[i] <= '9');
    }
    assert(s.all(|c: char| text::is_digit(c)));
}

/// A prefix is taken off as often as it stands there, and then no more.
pub proof fn law_prefixes_are_taken_off(s: Seq<char>, prefix: Seq<char>)
    requires
        prefix.len() > 0,
    ensures
        text::drop_prefixes(prefix + s, prefix) == text::drop_prefixes(s, prefix),
        !prefix.is_prefix_of(s) ==> text::drop_prefixes(s, prefix) == s,
{
    let all = prefix + s;
    assert(all.take(prefix.len() as int) =~= prefix);
    assert(prefix.is_prefix_of(all));
    assert(all.skip(prefix.len() as int) =~= s);
}

} // verus!
