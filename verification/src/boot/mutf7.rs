//! Folder names as servers write them, and the form in which they are compared.
//!
//! A server writes a folder name in modified UTF-7: what is not plain text stands
//! between `&` and `-` as UTF-16 in a base64 of its own alphabet, and `&-` stands
//! for `&`. Two names are the same folder if they are the same once decoded and
//! put into lower case.
use vstd::prelude::*;
use vstd::string::*;

use crate::text;
use crate::text::same_text;

verus! {

/// `char::from_u32` gives the character of a code point, if there is one.
pub assume_specification[ std::char::from_u32 ](i: u32) -> (r: Option<char>)
    ensures
        match r {
            Some(c) => c as u32 == i,
            None => !(i <= 0xd7ff || (0xe000 <= i && i <= 0x10ffff)),
        },
;

/// What `str::to_lowercase` makes of a text.
pub uninterp spec fn lower_case(s: Seq<char>) -> Seq<char>;

/// Calls `str::to_lowercase`. What comes out depends on the text alone.
#[verifier::external_body]
fn to_lower_case(s: &str) -> (r: String)
    ensures
        r@ == lower_case(s@),
{
    s.to_lowercase()
}

/// The value of a character of the base64 alphabet: `None` where it is none.
pub open spec fn base64_value(c: char) -> Option<u32> {
    if 'A' <= c <= 'Z' {
        Some((c as u32 - 'A' as u32) as u32)
    } else if 'a' <= c <= 'z' {
        Some((c as u32 - 'a' as u32 + 26) as u32)
    } else if '0' <= c <= '9' {
        Some((c as u32 - '0' as u32 + 52) as u32)
    } else if c == '+' {
        Some(62)
    } else if c == ',' {
        Some(63)
    } else {
        None
    }
}

fn base64_digit(c: char) -> (r: Option<u32>)
    ensures
        r == base64_value(c),
        r matches Some(v) ==> v < 64,
{
    if 'A' <= c && c <= 'Z' {
        Some(c as u32 - 'A' as u32)
    } else if 'a' <= c && c <= 'z' {
        Some(c as u32 - 'a' as u32 + 26)
    } else if '0' <= c && c <= '9' {
        Some(c as u32 - '0' as u32 + 52)
    } else if c == '+' {
        Some(62)
    } else if c == ',' {
        Some(63)
    } else {
        None
    }
}

/// Two to the power of `n`.
pub open spec fn two_to(n: nat) -> nat
    decreases n,
{
    if n == 0 {
        1
    } else {
        2 * two_to((n - 1) as nat)
    }
}

/// Bits that are read but make no whole unit yet, and the units read so far.
#[verifier::ext_equal]
pub struct BitsV {
    pub pending: nat,
    pub count: nat,
    pub units: Seq<u16>,
}

/// The bits after one more base64 digit.
pub open spec fn push_digit(bits: BitsV, digit: u32) -> BitsV {
    let pending = bits.pending * 64 + digit as nat;
    let count = bits.count + 6;
    if count >= 16 {
        let spare = two_to((count - 16) as nat);
        BitsV {
            pending: pending % spare,
            count: (count - 16) as nat,
            units: bits.units.push((pending / spare) as u16),
        }
    } else {
        BitsV { pending, count, units: bits.units }
    }
}

/// The bits of a row of base64 digits: `None` where a character is no digit.
pub open spec fn bits_of(s: Seq<char>) -> Option<BitsV>
    decreases s.len(),
{
    if s.len() == 0 {
        Some(BitsV { pending: 0, count: 0, units: Seq::empty() })
    } else {
        match (bits_of(s.drop_last()), base64_value(s.last())) {
            (Some(bits), Some(digit)) => Some(push_digit(bits, digit)),
            _ => None,
        }
    }
}

/// The UTF-16 units of a row of base64 digits. Fewer than six bits may be left
/// over, and only zeros.
pub open spec fn units_of(s: Seq<char>) -> Option<Seq<u16>> {
    match bits_of(s) {
        Some(bits) => if bits.count < 6 && bits.pending == 0 {
            Some(bits.units)
        } else {
            None
        },
        None => None,
    }
}

/// The character of a pair of surrogates.
pub open spec fn pair_char(high: u16, low: u16) -> char {
    (0x10000 + (high - 0xd800) * 0x400 + (low - 0xdc00)) as u32 as char
}

/// The text of UTF-16 units from the `from`th on: `None` where a surrogate stands
/// alone.
pub open spec fn utf16_text(units: Seq<u16>, from: nat) -> Option<Seq<char>>
    decreases units.len() - from,
{
    if from >= units.len() {
        Some(Seq::empty())
    } else {
        let u = units[from as int];
        if 0xd800 <= u <= 0xdbff {
            if from + 1 < units.len() && 0xdc00 <= units[from as int + 1] <= 0xdfff {
                match utf16_text(units, from + 2) {
                    Some(rest) => Some(seq![pair_char(u, units[from as int + 1])] + rest),
                    None => None,
                }
            } else {
                None
            }
        } else if 0xdc00 <= u <= 0xdfff {
            None
        } else {
            match utf16_text(units, from + 1) {
                Some(rest) => Some(seq![u as u32 as char] + rest),
                None => None,
            }
        }
    }
}

/// What stands between `&` and `-`, decoded: a `&` where it is empty.
pub open spec fn shifted_text(s: Seq<char>) -> Option<Seq<char>> {
    if s.len() == 0 {
        Some(seq!['&'])
    } else {
        match units_of(s) {
            Some(units) => utf16_text(units, 0),
            None => None,
        }
    }
}

/// The position of the first `-` from `from` on; the end where there is none.
pub open spec fn hyphen_from(s: Seq<char>, from: nat) -> nat
    decreases s.len() - from,
{
    if from < s.len() && s[from as int] != '-' {
        hyphen_from(s, from + 1)
    } else {
        from
    }
}

/// A folder name decoded from `from` on, after what is decoded already: `None`
/// where it is malformed.
pub open spec fn decoded_from(s: Seq<char>, from: nat, so_far: Seq<char>) -> Option<Seq<char>>
    decreases s.len() - from,
{
    if from >= s.len() {
        Some(so_far)
    } else if s[from as int] != '&' {
        decoded_from(s, from + 1, so_far.push(s[from as int]))
    } else {
        let end = hyphen_from(s, from + 1);
        if from < end < s.len() {
            match shifted_text(s.subrange(from as int + 1, end as int)) {
                Some(text) => decoded_from(s, end + 1, so_far + text),
                None => None,
            }
        } else {
            None
        }
    }
}

/// A folder name decoded: `None` where it is malformed.
pub open spec fn decoded(s: Seq<char>) -> Option<Seq<char>> {
    decoded_from(s, 0, Seq::empty())
}

/// The form in which folder names are compared: decoded, unless it is malformed,
/// and in lower case.
pub open spec fn normal_form(name: Seq<char>) -> Seq<char> {
    match decoded(name) {
        Some(text) => lower_case(text),
        None => lower_case(name),
    }
}

/// Whether a list holds a folder, under whatever name.
pub open spec fn holds(list: Seq<Seq<char>>, folder: Seq<char>) -> bool {
    exists|i: int|
        0 <= i < list.len() && normal_form(#[trigger] list[i]) == normal_form(folder)
}

/// A name without `&` is what it decodes to.
pub proof fn law_plain_name_decodes_to_itself(name: Seq<char>)
    requires
        !name.contains('&'),
    ensures
        decoded(name) == Some(name),
{
    lemma_plain_from(name, 0);
    assert(name.take(0) =~= Seq::empty());
}

proof fn lemma_plain_from(name: Seq<char>, from: int)
    requires
        !name.contains('&'),
        0 <= from <= name.len(),
    ensures
        decoded_from(name, from as nat, name.take(from)) == Some(name),
    decreases name.len() - from,
{
    if from < name.len() {
        assert(name.contains(name[from]));
        assert(name.take(from).push(name[from]) =~= name.take(from + 1));
        lemma_plain_from(name, from + 1);
    } else {
        assert(name.take(from) =~= name);
    }
}

fn spare_factor(spare: u32) -> (r: u32)
    requires
        spare < 6,
    ensures
        r == two_to(spare as nat),
        r > 0,
{
    proof {
        reveal_with_fuel(two_to, 7);
    }
    match spare {
        0 => 1,
        1 => 2,
        2 => 4,
        3 => 8,
        4 => 16,
        _ => 32,
    }
}

/// The bits that wait are a number of so many bits.
spec fn bounded(pending: u32, count: u32) -> bool {
    count < 16 && pending < two_to(count as nat)
}

proof fn lemma_two_to_small()
    ensures
        two_to(0) == 1,
        two_to(1) == 2,
        two_to(2) == 4,
        two_to(3) == 8,
        two_to(4) == 16,
        two_to(5) == 32,
        two_to(6) == 64,
        two_to(7) == 128,
        two_to(8) == 256,
        two_to(9) == 512,
        two_to(10) == 1024,
        two_to(11) == 2048,
        two_to(12) == 4096,
        two_to(13) == 8192,
        two_to(14) == 16384,
        two_to(15) == 32768,
{
    reveal_with_fuel(two_to, 17);
}

/// The characters of a text, one by one.
fn characters(s: &str) -> (r: Vec<char>)
    ensures
        r@ == s@,
{
    let mut chars: Vec<char> = Vec::new();
    for c in it: s.chars()
        invariant
            it.seq() == s@,
            chars@ == s@.take(it.index()),
    {
        proof {
            assert(s@.take(it.index() + 1) =~= s@.take(it.index()).push(c));
        }
        chars.push(c);
    }
    proof {
        assert(s@.take(s@.len() as int) =~= s@);
    }
    chars
}

/// The UTF-16 units of the base64 digits from `from` up to `end`.
fn read_units(chars: &Vec<char>, from: usize, end: usize) -> (r: Option<Vec<u16>>)
    requires
        from <= end <= chars@.len(),
    ensures
        match r {
            Some(units) => units_of(chars@.subrange(from as int, end as int)) == Some(units@),
            None => units_of(chars@.subrange(from as int, end as int)) is None,
        },
{
    let ghost digits = chars@.subrange(from as int, end as int);
    let mut units: Vec<u16> = Vec::new();
    let mut pending: u32 = 0;
    let mut count: u32 = 0;
    let mut i: usize = from;
    assert(digits.take(0) =~= Seq::empty());
    proof {
        lemma_two_to_small();
    }
    while i < end
        invariant
            from <= i <= end <= chars@.len(),
            digits == chars@.subrange(from as int, end as int),
            bounded(pending, count),
            bits_of(digits.take(i - from)) == Some(
                (BitsV { pending: pending as nat, count: count as nat, units: units@ }),
            ),
        decreases end - i,
    {
        let ghost k = i - from;
        assert(digits.take(k + 1).drop_last() =~= digits.take(k));
        assert(digits.take(k + 1).last() == chars@[i as int]);
        let digit: u32 = match base64_digit(chars[i]) {
            Some(digit) => digit,
            None => {
                proof {
                    lemma_no_bits(digits, k + 1);
                }
                return None;
            },
        };
        proof {
            lemma_two_to_small();
        }
        let all: u32 = pending * 64 + digit;
        let total: u32 = count + 6;
        if total >= 16 {
            let spare: u32 = spare_factor(total - 16);
            proof {
                lemma_unit_fits(pending as nat, count as nat, digit as nat);
            }
            units.push((all / spare) as u16);
            pending = all % spare;
            count = total - 16;
        } else {
            pending = all;
            count = total;
        }
        i = i + 1;
    }
    assert(digits.take(end - from) =~= digits);
    if count < 6 && pending == 0 {
        Some(units)
    } else {
        None
    }
}

/// What is no digit at one place leaves the whole row without bits.
proof fn lemma_no_bits(digits: Seq<char>, k: int)
    requires
        0 <= k <= digits.len(),
        bits_of(digits.take(k)) is None,
    ensures
        bits_of(digits) is None,
    decreases digits.len() - k,
{
    if k < digits.len() {
        assert(digits.take(k + 1).drop_last() =~= digits.take(k));
        lemma_no_bits(digits, k + 1);
    } else {
        assert(digits.take(k) =~= digits);
    }
}

/// A whole unit has sixteen bits, and what is left over fits the bits left over.
proof fn lemma_unit_fits(pending: nat, count: nat, digit: nat)
    requires
        10 <= count < 16,
        pending < two_to(count),
        digit < 64,
    ensures
        (pending * 64 + digit) / two_to((count - 10) as nat) <= u16::MAX,
        (pending * 64 + digit) % two_to((count - 10) as nat) < two_to((count - 10) as nat),
{
    lemma_two_to_small();
    let all = pending * 64 + digit;
    let spare = two_to((count - 10) as nat);
    assert(two_to(count) == 1024 * spare);
    assert(all < 65536 * spare);
    assert(all / spare < 65536) by (nonlinear_arith)
        requires
            all < 65536 * spare,
            spare > 0,
    ;
    assert(all % spare < spare) by (nonlinear_arith)
        requires
            spare > 0,
    ;
}

/// The text of UTF-16 units: `None` where a surrogate stands alone.
fn read_utf16(units: &Vec<u16>) -> (r: Option<Vec<char>>)
    ensures
        match r {
            Some(text) => utf16_text(units@, 0) == Some(text@),
            None => utf16_text(units@, 0) is None,
        },
{
    let mut text: Vec<char> = Vec::new();
    let mut i: usize = 0;
    while i < units.len()
        invariant
            i <= units@.len(),
            match utf16_text(units@, i as nat) {
                Some(rest) => utf16_text(units@, 0) == Some(text@ + rest),
                None => utf16_text(units@, 0) is None,
            },
        decreases units@.len() - i,
    {
        let u: u16 = units[i];
        let ghost before = text@;
        if 0xd800 <= u && u <= 0xdbff {
            if i + 1 < units.len() && 0xdc00 <= units[i + 1] && units[i + 1] <= 0xdfff {
                let low: u16 = units[i + 1];
                let code: u32 = 0x10000 + (u as u32 - 0xd800) * 0x400 + (low as u32 - 0xdc00);
                match std::char::from_u32(code) {
                    Some(c) => {
                        proof {
                            vstd::utf8::char_u32_cast(c, code);
                        }
                        text.push(c);
                    },
                    None => {
                        return None;
                    },
                }
                proof {
                    if let Some(rest) = utf16_text(units@, (i + 2) as nat) {
                        assert(before + (seq![pair_char(u, low)] + rest) =~= text@ + rest);
                    }
                }
                i = i + 2;
            } else {
                return None;
            }
        } else if 0xdc00 <= u && u <= 0xdfff {
            return None;
        } else {
            match std::char::from_u32(u as u32) {
                Some(c) => {
                    proof {
                        vstd::utf8::char_u32_cast(c, u as u32);
                    }
                    text.push(c);
                },
                None => {
                    return None;
                },
            }
            proof {
                if let Some(rest) = utf16_text(units@, (i + 1) as nat) {
                    assert(before + (seq![u as u32 as char] + rest) =~= text@ + rest);
                }
            }
            i = i + 1;
        }
    }
    assert(text@ + Seq::<char>::empty() =~= text@);
    Some(text)
}

/// What stands between `&` and `-`, decoded.
fn read_shifted(chars: &Vec<char>, from: usize, end: usize) -> (r: Option<Vec<char>>)
    requires
        from <= end <= chars@.len(),
    ensures
        match r {
            Some(text) => shifted_text(chars@.subrange(from as int, end as int)) == Some(text@),
            None => shifted_text(chars@.subrange(from as int, end as int)) is None,
        },
{
    if from == end {
        let mut text: Vec<char> = Vec::new();
        text.push('&');
        assert(text@ =~= seq!['&']);
        return Some(text);
    }
    match read_units(chars, from, end) {
        Some(units) => read_utf16(&units),
        None => None,
    }
}

/// A folder name decoded: `None` where it is malformed.
pub fn decode_folder_name(name: &str) -> (r: Option<String>)
    ensures
        match r {
            Some(text) => decoded(name@) == Some(text@),
            None => decoded(name@) is None,
        },
{
    let chars = characters(name);
    let mut text = String::new();
    let mut i: usize = 0;
    while i < chars.len()
        invariant
            chars@ == name@,
            i <= chars@.len(),
            decoded(name@) == decoded_from(name@, i as nat, text@),
        decreases chars@.len() - i,
    {
        let c: char = chars[i];
        if c != '&' {
            text.push(c);
            i = i + 1;
        } else {
            let mut end: usize = i + 1;
            while end < chars.len() && chars[end] != '-'
                invariant
                    chars@ == name@,
                    i < end <= chars@.len(),
                    hyphen_from(name@, (i + 1) as nat) == hyphen_from(name@, end as nat),
                decreases chars@.len() - end,
            {
                end = end + 1;
            }
            if end >= chars.len() {
                return None;
            }
            let piece: Vec<char> = match read_shifted(&chars, i + 1, end) {
                Some(piece) => piece,
                None => {
                    return None;
                },
            };
            let ghost before = text@;
            for j in 0..piece.len()
                invariant
                    text@ == before + piece@.take(j as int),
            {
                text.push(piece[j]);
                assert(piece@.take(j + 1) =~= piece@.take(j as int).push(piece@[j as int]));
            }
            assert(piece@.take(piece@.len() as int) =~= piece@);
            i = end + 1;
        }
    }
    Some(text)
}

/// The form in which folder names are compared.
pub fn normalize_folder_name(name: &str) -> (r: String)
    ensures
        r@ == normal_form(name@),
{
    match decode_folder_name(name) {
        Some(text) => to_lower_case(text.as_str()),
        None => to_lower_case(name),
    }
}

/// Whether a list holds a folder, whatever the case or encoding of its name.
pub fn holds_folder(list: &Vec<String>, folder: &str) -> (r: bool)
    ensures
        r == holds(text::texts(list@), folder@),
{
    let ghost all = text::texts(list@);
    let wanted = normalize_folder_name(folder);
    for i in 0..list.len()
        invariant
            all == text::texts(list@),
            wanted@ == normal_form(folder@),
            forall|j: int|
                0 <= j < i ==> normal_form(#[trigger] all[j]) != normal_form(
                    folder@,
                ),
    {
        assert(all[i as int] == list@[i as int]@);
        let form = normalize_folder_name(list[i].as_str());
        if same_text(form.as_str(), wanted.as_str()) {
            return true;
        }
    }
    false
}

} // verus!
