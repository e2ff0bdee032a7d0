//! Modified UTF-7 the other way round: how a text is written as a folder name, and
//! that decoding gives the text back.
use vstd::prelude::*;
use vstd::string::*;

use crate::boot::mutf7;
use crate::boot::mutf7::BitsV;

verus! {

/// The sixty-four digits of the base64, by their values.
pub open spec fn alphabet() -> Seq<char> {
    "ABCDEFGHIJKLMNOPQRSTUVWXYZabcdefghijklmnopqrstuvwxyz0123456789+,"@
}

/// Each of the digits has its place in the alphabet as its value.
#[verifier::rlimit(40)]
#[verifier::spinoff_prover]
pub proof fn law_digit_has_its_place_as_value(i: int)
    requires
        0 <= i < 64,
    ensures
        alphabet().len() == 64,
        mutf7::base64_value(alphabet()[i]) == Some(i as u32),
{
    reveal_strlit("ABCDEFGHIJKLMNOPQRSTUVWXYZabcdefghijklmnopqrstuvwxyz0123456789+,");
    assert(i == 0 || i == 1 || i == 2 || i == 3 || i == 4 || i == 5 || i == 6 || i == 7 || i == 8
        || i == 9 || i == 10 || i == 11 || i == 12 || i == 13 || i == 14 || i == 15 || i == 16 || i
        == 17 || i == 18 || i == 19 || i == 20 || i == 21 || i == 22 || i == 23 || i == 24 || i
        == 25 || i == 26 || i == 27 || i == 28 || i == 29 || i == 30 || i == 31 || i == 32 || i
        == 33 || i == 34 || i == 35 || i == 36 || i == 37 || i == 38 || i == 39 || i == 40 || i
        == 41 || i == 42 || i == 43 || i == 44 || i == 45 || i == 46 || i == 47 || i == 48 || i
        == 49 || i == 50 || i == 51 || i == 52 || i == 53 || i == 54 || i == 55 || i == 56 || i
        == 57 || i == 58 || i == 59 || i == 60 || i == 61 || i == 62 || i == 63);
}

/// Nothing but the sixty-four digits has a value.
pub proof fn law_only_digits_have_values(c: char)
    ensures
        mutf7::base64_value(c) is Some <==> alphabet().contains(c),
        mutf7::base64_value(c) matches Some(v) ==> v < 64 && alphabet()[v as int] == c,
{
    reveal_strlit("ABCDEFGHIJKLMNOPQRSTUVWXYZabcdefghijklmnopqrstuvwxyz0123456789+,");
    if let Some(v) = mutf7::base64_value(c) {
        law_digit_has_its_place_as_value(v as int);
        let d = alphabet()[v as int];
        assert(mutf7::base64_value(d) == Some(v));
        assert(c as u32 == d as u32);
        assert(c == d);
    }
    if alphabet().contains(c) {
        let i = choose|i: int| 0 <= i < alphabet().len() && alphabet()[i] == c;
        law_digit_has_its_place_as_value(i);
    }
}

/// The digit of a value.
pub open spec fn digit(value: int) -> char {
    alphabet()[value]
}

/// The UTF-16 of a character: one unit, or a pair of surrogates.
pub open spec fn char_units(c: char) -> Seq<u16> {
    let code = c as u32 as int;
    if code < 0x10000 {
        seq![code as u16]
    } else {
        seq![
            (0xd800 + (code - 0x10000) / 0x400) as u16,
            (0xdc00 + (code - 0x10000) % 0x400) as u16,
        ]
    }
}

/// The UTF-16 of a text.
pub open spec fn text_units(text: Seq<char>) -> Seq<u16>
    decreases text.len(),
{
    if text.len() == 0 {
        Seq::empty()
    } else {
        char_units(text[0]) + text_units(text.skip(1))
    }
}

/// Forty-eight bits as eight digits of six.
pub open spec fn three_units(a: int, b: int, c: int) -> Seq<char> {
    seq![
        digit(a / 1024),
        digit(a / 16 % 64),
        digit(a % 16 * 4 + b / 16384),
        digit(b / 256 % 64),
        digit(b / 4 % 64),
        digit(b % 4 * 16 + c / 4096),
        digit(c / 64 % 64),
        digit(c % 64),
    ]
}

/// UTF-16 units as base64: three units fill eight digits, and zeros fill up the last
/// digit.
pub open spec fn packed(units: Seq<u16>) -> Seq<char>
    decreases units.len(),
{
    if units.len() == 0 {
        Seq::empty()
    } else if units.len() == 1 {
        three_units(units[0] as int, 0, 0).take(3)
    } else if units.len() == 2 {
        three_units(units[0] as int, units[1] as int, 0).take(6)
    } else {
        three_units(units[0] as int, units[1] as int, units[2] as int) + packed(units.skip(3))
    }
}

/// A character that is printed in ASCII.
pub open spec fn printable(c: char) -> bool {
    ' ' <= c <= '~'
}

/// How many characters at the front of a text are none that is printed in ASCII.
pub open spec fn shifted_run(text: Seq<char>) -> nat
    decreases text.len(),
{
    if text.len() == 0 || printable(text[0]) {
        0
    } else {
        1 + shifted_run(text.skip(1))
    }
}

/// A text as a folder name in modified UTF-7. What is printed in ASCII stands for
/// itself, but `&`, which is written `&-`. Each run of other characters stands
/// between `&` and `-` as base64.
pub open spec fn encoded(text: Seq<char>) -> Seq<char>
    decreases text.len(),
{
    if text.len() == 0 {
        Seq::empty()
    } else if text[0] == '&' {
        seq!['&', '-'] + encoded(text.skip(1))
    } else if printable(text[0]) {
        seq![text[0]] + encoded(text.skip(1))
    } else {
        let n = shifted_run(text);
        if 0 < n <= text.len() {
            seq!['&'] + packed(text_units(text.take(n as int))) + seq!['-'] + encoded(
                text.skip(n as int),
            )
        } else {
            Seq::empty()
        }
    }
}

proof fn lemma_one_digit(s: Seq<char>, bits: BitsV, value: int)
    requires
        mutf7::bits_of(s) == Some(bits),
        0 <= value < 64,
    ensures
        mutf7::bits_of(s.push(digit(value))) == Some(mutf7::push_digit(bits, value as u32)),
        digit(value) != '-',
{
    law_digit_has_its_place_as_value(value);
    assert(s.push(digit(value)).drop_last() =~= s);
}

/// Three units come back whole from their eight digits, the first from the first
/// three and the second from the first six, with nothing but the bits of the next
/// left over.
#[verifier::rlimit(40)]
#[verifier::spinoff_prover]
proof fn lemma_three_units(s: Seq<char>, read: Seq<u16>, a: u16, b: u16, c: u16)
    requires
        mutf7::bits_of(s) == Some((BitsV { pending: 0, count: 0, units: read })),
    ensures
        mutf7::bits_of(s + three_units(a as int, b as int, c as int).take(3)) == Some(
            (BitsV { pending: (b / 16384) as nat, count: 2, units: read.push(a) }),
        ),
        mutf7::bits_of(s + three_units(a as int, b as int, c as int).take(6)) == Some(
            (BitsV { pending: (c / 4096) as nat, count: 4, units: read.push(a).push(b) }),
        ),
        mutf7::bits_of(s + three_units(a as int, b as int, c as int)) == Some(
            (BitsV { pending: 0, count: 0, units: read.push(a).push(b).push(c) }),
        ),
        forall|j: int|
            0 <= j < 8 ==> #[trigger] three_units(a as int, b as int, c as int)[j] != '-',
{
    reveal_with_fuel(mutf7::two_to, 6);
    let (x, y, z) = (a as int, b as int, c as int);
    let all = three_units(x, y, z);
    let d = seq![
        x / 1024,
        x / 16 % 64,
        x % 16 * 4 + y / 16384,
        y / 256 % 64,
        y / 4 % 64,
        y % 4 * 16 + z / 4096,
        z / 64 % 64,
        z % 64,
    ];
    let b0 = BitsV { pending: 0, count: 0, units: read };
    let b1 = BitsV { pending: (x / 1024) as nat, count: 6, units: read };
    let b2 = BitsV { pending: (x / 16) as nat, count: 12, units: read };
    let b3 = BitsV { pending: (y / 16384) as nat, count: 2, units: read.push(a) };
    let b4 = BitsV { pending: (y / 256) as nat, count: 8, units: read.push(a) };
    let b5 = BitsV { pending: (y / 4) as nat, count: 14, units: read.push(a) };
    let b6 = BitsV { pending: (z / 4096) as nat, count: 4, units: read.push(a).push(b) };
    let b7 = BitsV { pending: (z / 64) as nat, count: 10, units: read.push(a).push(b) };
    let b8 = BitsV { pending: 0, count: 0, units: read.push(a).push(b).push(c) };
    assert(mutf7::push_digit(b0, d[0] as u32) == b1);
    assert(mutf7::push_digit(b1, d[1] as u32) == b2);
    assert((x / 16 * 64 + d[2]) / 4 == x);
    assert((x / 16 * 64 + d[2]) % 4 == y / 16384);
    assert(mutf7::push_digit(b2, d[2] as u32) == b3);
    assert(mutf7::push_digit(b3, d[3] as u32) == b4);
    assert(mutf7::push_digit(b4, d[4] as u32) == b5);
    assert((y / 4 * 64 + d[5]) / 16 == y);
    assert((y / 4 * 64 + d[5]) % 16 == z / 4096);
    assert(mutf7::push_digit(b5, d[5] as u32) == b6);
    assert(mutf7::push_digit(b6, d[6] as u32) == b7);
    assert(b7.pending * 64 + d[7] == z);
    assert(mutf7::two_to(0) == 1);
    assert(z / 1 == z && z % 1 == 0);
    assert(mutf7::push_digit(b7, d[7] as u32) == b8);
    assert(s + all.take(0) =~= s);
    lemma_one_digit(s, b0, d[0]);
    assert(s.push(all[0]) =~= s + all.take(1));
    lemma_one_digit(s + all.take(1), b1, d[1]);
    assert((s + all.take(1)).push(all[1]) =~= s + all.take(2));
    lemma_one_digit(s + all.take(2), b2, d[2]);
    assert((s + all.take(2)).push(all[2]) =~= s + all.take(3));
    lemma_one_digit(s + all.take(3), b3, d[3]);
    assert((s + all.take(3)).push(all[3]) =~= s + all.take(4));
    lemma_one_digit(s + all.take(4), b4, d[4]);
    assert((s + all.take(4)).push(all[4]) =~= s + all.take(5));
    lemma_one_digit(s + all.take(5), b5, d[5]);
    assert((s + all.take(5)).push(all[5]) =~= s + all.take(6));
    lemma_one_digit(s + all.take(6), b6, d[6]);
    assert((s + all.take(6)).push(all[6]) =~= s + all.take(7));
    lemma_one_digit(s + all.take(7), b7, d[7]);
    assert((s + all.take(7)).push(all[7]) =~= s + all);
}

proof fn lemma_packed_after(s: Seq<char>, read: Seq<u16>, units: Seq<u16>)
    requires
        mutf7::bits_of(s) == Some((BitsV { pending: 0, count: 0, units: read })),
    ensures
        mutf7::units_of(s + packed(units)) == Some(read + units),
        !packed(units).contains('-'),
        units.len() > 0 ==> packed(units).len() > 0,
    decreases units.len(),
{
    if units.len() == 0 {
        assert(s + packed(units) =~= s);
        assert(read + units =~= read);
    } else if units.len() == 1 {
        lemma_three_units(s, read, units[0], 0, 0);
        assert(read.push(units[0]) =~= read + units);
    } else if units.len() == 2 {
        lemma_three_units(s, read, units[0], units[1], 0);
        assert(read.push(units[0]).push(units[1]) =~= read + units);
    } else {
        let (a, b, c) = (units[0], units[1], units[2]);
        let all = three_units(a as int, b as int, c as int);
        lemma_three_units(s, read, a, b, c);
        lemma_packed_after(s + all, read.push(a).push(b).push(c), units.skip(3));
        assert(s + all + packed(units.skip(3)) =~= s + packed(units));
        assert(read.push(a).push(b).push(c) + units.skip(3) =~= read + units);
        assert forall|j: int| 0 <= j < packed(units).len() implies packed(units)[j] != '-' by {
            if j >= 8 {
                assert(packed(units)[j] == packed(units.skip(3))[j - 8]);
                assert(packed(units.skip(3)).contains(packed(units.skip(3))[j - 8]));
            }
        }
    }
}

/// Base64 gives back the units that it was made from, however many they are.
pub proof fn law_packed_units_come_back(units: Seq<u16>)
    ensures
        mutf7::units_of(packed(units)) == Some(units),
{
    let none = Seq::<char>::empty();
    lemma_packed_after(none, Seq::empty(), units);
    assert(none + packed(units) =~= packed(units));
    assert(Seq::<u16>::empty() + units =~= units);
}

/// A character is one unit that is no surrogate, or a high and a low surrogate.
proof fn lemma_char_units(c: char)
    ensures
        ({
            let units = char_units(c);
            if units.len() == 1 {
                !(0xd800 <= units[0] <= 0xdfff) && units[0] as u32 as char == c
            } else {
                units.len() == 2 && 0xd800 <= units[0] <= 0xdbff && 0xdc00 <= units[1] <= 0xdfff
                    && mutf7::pair_char(units[0], units[1]) == c
            }
        }),
{
    vstd::utf8::char_is_scalar(c);
    let code = c as u32;
    vstd::utf8::char_u32_cast(c, code);
    let units = char_units(c);
    if code < 0x10000 {
        assert(units[0] as u32 == code);
    } else {
        assert((code - 0x10000) / 0x400 < 0x400);
        assert(units[0] == 0xd800 + (code - 0x10000) / 0x400);
        assert(units[1] == 0xdc00 + (code - 0x10000) % 0x400);
        assert((0x10000 + (units[0] - 0xd800) * 0x400 + (units[1] - 0xdc00)) as u32 == code);
    }
}

proof fn lemma_text_after(before: Seq<u16>, text: Seq<char>)
    ensures
        mutf7::utf16_text(before + text_units(text), before.len()) == Some(text),
        text_units(text).len() >= text.len(),
    decreases text.len(),
{
    let all = before + text_units(text);
    if text.len() == 0 {
        assert(text =~= Seq::empty());
    } else {
        let c = text[0];
        let units = char_units(c);
        let rest = text.skip(1);
        lemma_text_after(before + units, rest);
        assert(before + units + text_units(rest) =~= all);
        assert(all[before.len() as int] == units[0]);
        assert(seq![c] + rest =~= text);
        lemma_char_units(c);
        if units.len() == 2 {
            assert(all[before.len() as int + 1] == units[1]);
        }
    }
}

/// UTF-16 gives back the text that it was made from.
pub proof fn law_text_comes_back_from_units(text: Seq<char>)
    ensures
        mutf7::utf16_text(text_units(text), 0) == Some(text),
{
    lemma_text_after(Seq::empty(), text);
    assert(Seq::<u16>::empty() + text_units(text) =~= text_units(text));
}

proof fn lemma_hyphen(s: Seq<char>, from: nat, end: nat)
    requires
        from <= end < s.len(),
        forall|j: int| from <= j < end ==> s[j] != '-',
        s[end as int] == '-',
    ensures
        mutf7::hyphen_from(s, from) == end,
    decreases end - from,
{
    if from < end {
        lemma_hyphen(s, from + 1, end);
    }
}

proof fn lemma_run(text: Seq<char>)
    ensures
        shifted_run(text) <= text.len(),
        text.len() > 0 && !printable(text[0]) ==> shifted_run(text) > 0,
    decreases text.len(),
{
    if text.len() > 0 && !printable(text[0]) {
        lemma_run(text.skip(1));
    }
}

proof fn lemma_decoded_after(before: Seq<char>, text: Seq<char>, so_far: Seq<char>)
    ensures
        mutf7::decoded_from(before + encoded(text), before.len(), so_far) == Some(so_far + text),
    decreases text.len(),
{
    let s = before + encoded(text);
    let from = before.len() as int;
    if text.len() == 0 {
        assert(s =~= before);
        assert(so_far + text =~= so_far);
    } else if text[0] == '&' {
        let rest = text.skip(1);
        lemma_decoded_after(before + seq!['&', '-'], rest, so_far + seq!['&']);
        assert(before + seq!['&', '-'] + encoded(rest) =~= s);
        assert(so_far + seq!['&'] + rest =~= so_far + text);
        assert(s[from] == '&' && s[from + 1] == '-');
        lemma_hyphen(s, (from + 1) as nat, (from + 1) as nat);
    } else if printable(text[0]) {
        let rest = text.skip(1);
        lemma_decoded_after(before + seq![text[0]], rest, so_far.push(text[0]));
        assert(before + seq![text[0]] + encoded(rest) =~= s);
        assert(so_far.push(text[0]) + rest =~= so_far + text);
        assert(s[from] == text[0]);
    } else {
        lemma_run(text);
        let n = shifted_run(text) as int;
        let run = text.take(n);
        let rest = text.skip(n);
        let digits = packed(text_units(run));
        let shifted = seq!['&'] + digits + seq!['-'];
        let end = from + 1 + digits.len();
        lemma_text_after(Seq::empty(), run);
        lemma_packed_after(Seq::empty(), Seq::empty(), text_units(run));
        law_text_comes_back_from_units(run);
        law_packed_units_come_back(text_units(run));
        assert(before + shifted + encoded(rest) =~= s);
        assert(s[from] == '&');
        assert(s[end] == '-');
        assert(s.subrange(from + 1, end) =~= digits);
        assert forall|j: int| from + 1 <= j < end implies s[j] != '-' by {
            assert(s[j] == digits[j - from - 1]);
            assert(digits.contains(digits[j - from - 1]));
        }
        lemma_hyphen(s, (from + 1) as nat, end as nat);
        lemma_decoded_after(before + shifted, rest, so_far + run);
        assert((before + shifted).len() == end + 1);
        assert(so_far + run + rest =~= so_far + text);
    }
}

/// Decoding gives back the text that a folder name was made from, whatever the text.
pub proof fn law_decoding_inverts_encoding(text: Seq<char>)
    ensures
        mutf7::decoded(encoded(text)) == Some(text),
{
    lemma_decoded_after(Seq::empty(), text, Seq::empty());
    assert(Seq::<char>::empty() + encoded(text) =~= encoded(text));
    assert(Seq::<char>::empty() + text =~= text);
}

/// A folder is the same under its text and under the name that a server writes for
/// it, where the text is no encoded name itself.
pub proof fn law_encoded_name_is_the_same_folder(list: Seq<Seq<char>>, i: int)
    requires
        0 <= i < list.len(),
        !list[i].contains('&'),
    ensures
        mutf7::normal_form(encoded(list[i])) == mutf7::lower_case(list[i]),
        mutf7::holds(list, encoded(list[i])),
{
    law_decoding_inverts_encoding(list[i]);
    mutf7::law_plain_name_decodes_to_itself(list[i]);
}

#[verifier::rlimit(40)]
#[verifier::spinoff_prover]
proof fn lemma_units_back(units: Seq<u16>, from: nat)
    requires
        from <= units.len(),
        mutf7::utf16_text(units, from) is Some,
    ensures
        text_units(mutf7::utf16_text(units, from)->0) == units.skip(from as int),
    decreases units.len() - from,
{
    let text = mutf7::utf16_text(units, from)->0;
    if from < units.len() {
        let u = units[from as int];
        let n: nat = if 0xd800 <= u <= 0xdbff {
            2
        } else {
            1
        };
        lemma_units_back(units, from + n);
        let rest = mutf7::utf16_text(units, from + n)->0;
        let c = text[0];
        assert(text.skip(1) =~= rest);
        if n == 2 {
            let low = units[from as int + 1];
            let code = (0x10000 + (u - 0xd800) * 0x400 + (low - 0xdc00)) as u32;
            assert(code == 0x10000 + (u - 0xd800) * 0x400 + (low - 0xdc00));
            assert(c as u32 == code);
            assert((code - 0x10000) / 0x400 == u - 0xd800);
            assert((code - 0x10000) % 0x400 == low - 0xdc00);
            assert(char_units(c) =~= seq![u, low]);
        } else {
            assert(c as u32 == u as u32);
            assert(char_units(c) =~= seq![u]);
        }
        assert(text_units(text) =~= char_units(c) + text_units(rest));
        assert(text_units(text) =~= units.skip(from as int));
    } else {
        assert(units.skip(from as int) =~= Seq::empty());
    }
}

/// Units that are read as a text are the UTF-16 of that text. So no other units are read
/// as the same text, and a surrogate that stands alone is never read.
pub proof fn law_units_are_those_of_their_text(units: Seq<u16>, text: Seq<char>)
    requires
        mutf7::utf16_text(units, 0) == Some(text),
    ensures
        text_units(text) == units,
{
    lemma_units_back(units, 0);
    assert(units.skip(0) =~= units);
}

proof fn lemma_prefix_has_bits(s: Seq<char>, k: int)
    requires
        0 <= k <= s.len(),
        mutf7::bits_of(s) is Some,
    ensures
        mutf7::bits_of(s.take(k)) is Some,
        k < s.len() ==> (mutf7::base64_value(s[k]) matches Some(v) && v < 64 && s[k] == digit(
            v as int,
        )),
    decreases s.len() - k,
{
    if k < s.len() {
        lemma_prefix_has_bits(s, k + 1);
        assert(s.take(k + 1).drop_last() =~= s.take(k));
        assert(s.take(k + 1).last() == s[k]);
        law_only_digits_have_values(s[k]);
    } else {
        assert(s.take(k) =~= s);
    }
}

/// The bits after the `k`th character of `d`, behind `s`.
proof fn lemma_next_digit(s: Seq<char>, d: Seq<char>, k: int, bits: BitsV) -> (v: int)
    requires
        0 <= k < d.len(),
        mutf7::bits_of(s + d) is Some,
        mutf7::bits_of(s + d.take(k)) == Some(bits),
    ensures
        0 <= v < 64,
        d[k] == digit(v),
        mutf7::bits_of(s + d.take(k + 1)) == Some(mutf7::push_digit(bits, v as u32)),
{
    lemma_prefix_has_bits(s + d, s.len() + k);
    assert((s + d)[s.len() + k] == d[k]);
    let v = mutf7::base64_value(d[k])->0 as int;
    lemma_one_digit(s + d.take(k), bits, v);
    assert((s + d.take(k)).push(d[k]) =~= s + d.take(k + 1));
    v
}

/// Three digits from where nothing waits: the first unit, and two bits of the next.
proof fn lemma_first_unit(read: Seq<u16>, v0: int, v1: int, v2: int)
    requires
        0 <= v0 < 64,
        0 <= v1 < 64,
        0 <= v2 < 64,
    ensures
        ({
            let b0 = BitsV { pending: 0, count: 0, units: read };
            let b1 = BitsV { pending: v0 as nat, count: 6, units: read };
            let b2 = BitsV { pending: (v0 * 64 + v1) as nat, count: 12, units: read };
            let x = v0 * 1024 + v1 * 16 + v2 / 4;
            let b3 = BitsV { pending: (v2 % 4) as nat, count: 2, units: read.push(x as u16) };
            &&& mutf7::push_digit(b0, v0 as u32) == b1
            &&& mutf7::push_digit(b1, v1 as u32) == b2
            &&& mutf7::push_digit(b2, v2 as u32) == b3
            &&& 0 <= x < 65536
            &&& x / 1024 == v0
            &&& x / 16 % 64 == v1
            &&& x % 16 == v2 / 4
        }),
{
    reveal_with_fuel(mutf7::two_to, 3);
    assert(((v0 * 64 + v1) * 64 + v2) / 4 == v0 * 1024 + v1 * 16 + v2 / 4);
    assert(((v0 * 64 + v1) * 64 + v2) % 4 == v2 % 4);
}

/// Three digits more, from where two bits wait: the second unit, and four bits of the
/// next.
proof fn lemma_second_unit(read: Seq<u16>, p: int, v3: int, v4: int, v5: int)
    requires
        0 <= p < 4,
        0 <= v3 < 64,
        0 <= v4 < 64,
        0 <= v5 < 64,
    ensures
        ({
            let b3 = BitsV { pending: p as nat, count: 2, units: read };
            let b4 = BitsV { pending: (p * 64 + v3) as nat, count: 8, units: read };
            let b5 = BitsV { pending: ((p * 64 + v3) * 64 + v4) as nat, count: 14, units: read };
            let y = p * 16384 + v3 * 256 + v4 * 4 + v5 / 16;
            let b6 = BitsV { pending: (v5 % 16) as nat, count: 4, units: read.push(y as u16) };
            &&& mutf7::push_digit(b3, v3 as u32) == b4
            &&& mutf7::push_digit(b4, v4 as u32) == b5
            &&& mutf7::push_digit(b5, v5 as u32) == b6
            &&& 0 <= y < 65536
            &&& y / 16384 == p
            &&& y / 256 % 64 == v3
            &&& y / 4 % 64 == v4
            &&& y % 4 == v5 / 16
        }),
{
    reveal_with_fuel(mutf7::two_to, 5);
    assert((((p * 64 + v3) * 64 + v4) * 64 + v5) / 16 == p * 16384 + v3 * 256 + v4 * 4 + v5 / 16);
    assert((((p * 64 + v3) * 64 + v4) * 64 + v5) % 16 == v5 % 16);
}

/// Two digits more, from where four bits wait: the third unit, and nothing left.
proof fn lemma_third_unit(read: Seq<u16>, p: int, v6: int, v7: int)
    requires
        0 <= p < 16,
        0 <= v6 < 64,
        0 <= v7 < 64,
    ensures
        ({
            let b6 = BitsV { pending: p as nat, count: 4, units: read };
            let b7 = BitsV { pending: (p * 64 + v6) as nat, count: 10, units: read };
            let z = p * 4096 + v6 * 64 + v7;
            let b8 = BitsV { pending: 0, count: 0, units: read.push(z as u16) };
            &&& mutf7::push_digit(b6, v6 as u32) == b7
            &&& mutf7::push_digit(b7, v7 as u32) == b8
            &&& 0 <= z < 65536
            &&& z / 4096 == p
            &&& z / 64 % 64 == v6
            &&& z % 64 == v7
        }),
{
    reveal_with_fuel(mutf7::two_to, 1);
    let z = p * 4096 + v6 * 64 + v7;
    assert((p * 64 + v6) * 64 + v7 == z);
    assert(mutf7::two_to(0) == 1);
    assert(z / 1 == z) by (nonlinear_arith);
    assert(z % 1 == 0) by (nonlinear_arith);
}

proof fn lemma_packed_group(a: u16, b: u16, c: u16, more: Seq<u16>)
    ensures
        packed(seq![a, b, c] + more) == three_units(a as int, b as int, c as int) + packed(more),
{
    let units = seq![a, b, c] + more;
    assert(units.skip(3) =~= more);
}

#[verifier::rlimit(60)]
#[verifier::spinoff_prover]
proof fn lemma_unpacked_after(s: Seq<char>, read: Seq<u16>, d: Seq<char>) -> (units: Seq<u16>)
    requires
        mutf7::bits_of(s) == Some((BitsV { pending: 0, count: 0, units: read })),
        mutf7::units_of(s + d) is Some,
    ensures
        mutf7::units_of(s + d) == Some(read + units),
        packed(units) == d,
    decreases d.len(),
{
    let b0 = BitsV { pending: 0, count: 0, units: read };
    assert(s + d.take(0) =~= s);
    assert(d.take(d.len() as int) =~= d);
    if d.len() == 0 {
        assert(s + d =~= s);
        assert(read + Seq::<u16>::empty() =~= read);
        assert(packed(Seq::empty()) =~= d);
        Seq::empty()
    } else {
        let v0 = lemma_next_digit(s, d, 0, b0);
        lemma_first_unit(read, v0, 0, 0);
        let b1 = BitsV { pending: v0 as nat, count: 6, units: read };
        assert(d.len() > 1);
        let v1 = lemma_next_digit(s, d, 1, b1);
        lemma_first_unit(read, v0, v1, 0);
        let b2 = BitsV { pending: (v0 * 64 + v1) as nat, count: 12, units: read };
        assert(d.len() > 2);
        let v2 = lemma_next_digit(s, d, 2, b2);
        lemma_first_unit(read, v0, v1, v2);
        let x = v0 * 1024 + v1 * 16 + v2 / 4;
        let a = x as u16;
        let one = read.push(a);
        let b3 = BitsV { pending: (v2 % 4) as nat, count: 2, units: one };
        if d.len() == 3 {
            let units = seq![a];
            assert(packed(units) =~= d);
            assert(one =~= read + units);
            units
        } else {
            let p = v2 % 4;
            let v3 = lemma_next_digit(s, d, 3, b3);
            lemma_second_unit(one, p, v3, 0, 0);
            let b4 = BitsV { pending: (p * 64 + v3) as nat, count: 8, units: one };
            assert(d.len() > 4);
            let v4 = lemma_next_digit(s, d, 4, b4);
            lemma_second_unit(one, p, v3, v4, 0);
            let b5 = BitsV { pending: ((p * 64 + v3) * 64 + v4) as nat, count: 14, units: one };
            assert(d.len() > 5);
            let v5 = lemma_next_digit(s, d, 5, b5);
            lemma_second_unit(one, p, v3, v4, v5);
            let y = p * 16384 + v3 * 256 + v4 * 4 + v5 / 16;
            let b = y as u16;
            let two = one.push(b);
            let b6 = BitsV { pending: (v5 % 16) as nat, count: 4, units: two };
            if d.len() == 6 {
                let units = seq![a, b];
                assert(packed(units) =~= d);
                assert(two =~= read + units);
                units
            } else {
                let q = v5 % 16;
                let v6 = lemma_next_digit(s, d, 6, b6);
                lemma_third_unit(two, q, v6, 0);
                let b7 = BitsV { pending: (q * 64 + v6) as nat, count: 10, units: two };
                assert(d.len() > 7);
                let v7 = lemma_next_digit(s, d, 7, b7);
                lemma_third_unit(two, q, v6, v7);
                let z = q * 4096 + v6 * 64 + v7;
                let c = z as u16;
                let three = two.push(c);
                let group = d.take(8);
                assert(three_units(x, y, z) =~= group);
                let rest = d.skip(8);
                assert(s + group + rest =~= s + d);
                let more = lemma_unpacked_after(s + group, three, rest);
                let units = seq![a, b, c] + more;
                lemma_packed_group(a, b, c, more);
                assert(group + rest =~= d);
                assert(three + more =~= read + units);
                units
            }
        }
    }
}

/// A row of digits that is read as units is the base64 of those units. So no other row is
/// read as the same units: one with bits left over that are not zeros, or with a digit too
/// many, is never read.
pub proof fn law_digits_are_those_of_their_units(digits: Seq<char>, units: Seq<u16>)
    requires
        mutf7::units_of(digits) == Some(units),
    ensures
        packed(units) == digits,
{
    let none = Seq::<char>::empty();
    assert(none + digits =~= digits);
    let found = lemma_unpacked_after(none, Seq::empty(), digits);
    assert(Seq::<u16>::empty() + found =~= found);
}

/// What stands between `&` and `-` is read in one way alone: as a text whose base64 it is,
/// or, where nothing stands there, as `&`.
pub proof fn law_shifted_part_is_that_of_its_text(part: Seq<char>, text: Seq<char>)
    requires
        mutf7::shifted_text(part) == Some(text),
    ensures
        part.len() > 0 ==> part == packed(text_units(text)),
        part.len() == 0 ==> text == seq!['&'],
{
    if part.len() > 0 {
        let units = mutf7::units_of(part)->0;
        law_digits_are_those_of_their_units(part, units);
        law_units_are_those_of_their_text(units, text);
    }
}

proof fn lemma_plain_front(front: Seq<char>, back: Seq<char>, k: int)
    requires
        0 <= k <= front.len(),
        !front.contains('&'),
    ensures
        mutf7::decoded_from(front + back, k as nat, front.take(k)) == mutf7::decoded_from(
            front + back,
            front.len(),
            front,
        ),
    decreases front.len() - k,
{
    if k < front.len() {
        assert((front + back)[k] == front[k]);
        assert(front.contains(front[k]));
        assert(front.take(k).push(front[k]) =~= front.take(k + 1));
        lemma_plain_front(front, back, k + 1);
    } else {
        assert(front.take(k) =~= front);
    }
}

proof fn lemma_no_hyphen(s: Seq<char>, from: nat)
    requires
        from <= s.len(),
        forall|j: int| from <= j < s.len() ==> s[j] != '-',
    ensures
        mutf7::hyphen_from(s, from) == s.len(),
    decreases s.len() - from,
{
    if from < s.len() {
        lemma_no_hyphen(s, from + 1);
    }
}

/// A name with an `&` that no `-` follows is malformed.
pub proof fn law_unclosed_part_is_malformed(front: Seq<char>, back: Seq<char>)
    requires
        !front.contains('&'),
        !back.contains('-'),
    ensures
        mutf7::decoded(front.push('&') + back) is None,
{
    let s = front.push('&') + back;
    assert(s =~= front + (seq!['&'] + back));
    lemma_plain_front(front, seq!['&'] + back, 0);
    assert(front.take(0) =~= Seq::empty());
    assert(s[front.len() as int] == '&');
    assert forall|j: int| front.len() + 1 <= j < s.len() implies s[j] != '-' by {
        assert(s[j] == back[j - front.len() - 1]);
        assert(back.contains(back[j - front.len() - 1]));
    }
    lemma_no_hyphen(s, front.len() + 1);
}

/// A name is malformed where something other than a digit stands between `&` and `-`.
pub proof fn law_foreign_character_is_malformed(
    front: Seq<char>,
    part: Seq<char>,
    k: int,
    back: Seq<char>,
)
    requires
        !front.contains('&'),
        !part.contains('-'),
        0 <= k < part.len(),
        !alphabet().contains(part[k]),
    ensures
        mutf7::decoded(front.push('&') + part.push('-') + back) is None,
{
    let s = front.push('&') + part.push('-') + back;
    let rest = seq!['&'] + part.push('-') + back;
    let from = front.len() as int;
    let end = from + 1 + part.len();
    assert(s =~= front + rest);
    lemma_plain_front(front, rest, 0);
    assert(front.take(0) =~= Seq::empty());
    assert(s[from] == '&');
    assert(s[end] == '-');
    assert forall|j: int| from + 1 <= j < end implies s[j] != '-' by {
        assert(s[j] == part[j - from - 1]);
        assert(part.contains(part[j - from - 1]));
    }
    lemma_hyphen(s, (from + 1) as nat, end as nat);
    assert(s.subrange(from + 1, end) =~= part);
    if mutf7::bits_of(part) is Some {
        lemma_prefix_has_bits(part, k);
        law_only_digits_have_values(part[k]);
    }
}

/// A malformed name is compared as it is written, and any other as what it decodes to,
/// both without regard to case.
pub proof fn law_malformed_name_is_compared_as_written(name: Seq<char>)
    ensures
        mutf7::decoded(name) is None ==> mutf7::normal_form(name) == mutf7::lower_case(name),
        mutf7::decoded(name) matches Some(text) ==> mutf7::normal_form(name) == mutf7::lower_case(
            text,
        ),
{
}

} // verus!
