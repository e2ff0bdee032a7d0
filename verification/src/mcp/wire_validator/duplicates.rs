//! Repeated keys in a JSON-RPC message.
//!
//! The protocol stack reads the message object, and the object under `error`,
//! field by field and drops a message that names a field twice. A parsed value
//! no longer shows that, so the keys are read off the text. Strings and values
//! are `serde_json`'s to read: this file only steps from member to member.
use vstd::hash_set::StringHashSet;
use vstd::prelude::*;
use vstd::slice::slice_subrange;
use vstd::string::*;

use crate::json;
use crate::json::parse_json;
use crate::text::same_text;

verus! {

/// The JSON string that the bytes begin with, as `serde_json` reads it, and the
/// number of bytes up to its end. `None` where they begin with none.
pub uninterp spec fn string_prefix(bytes: Seq<u8>) -> Option<(Seq<char>, nat)>;

/// The number of bytes up to the end of the JSON value that the bytes begin
/// with, where `serde_json` skips it without looking inside. `None` where they
/// begin with none.
pub uninterp spec fn skipped_prefix(bytes: Seq<u8>) -> Option<nat>;

/// The number of bytes up to the end of the JSON value that the bytes begin
/// with, where `serde_json` reads it in full. `None` where it cannot.
pub uninterp spec fn value_prefix(bytes: Seq<u8>) -> Option<nat>;

/// Reads the first item of a `serde_json::StreamDeserializer` for `String`, and
/// its `byte_offset`. Both depend on the bytes alone; the offset is past the
/// string and within the bytes.
#[verifier::external_body]
fn read_string(bytes: &[u8]) -> (r: Option<(String, usize)>)
    ensures
        match r {
            Some((text, n)) => string_prefix(bytes@) == Some((text@, n as nat)) && 0 < n
                <= bytes@.len(),
            None => string_prefix(bytes@) is None,
        },
{
    let mut stream = serde_json::Deserializer::from_slice(bytes).into_iter::<String>();
    match stream.next() {
        Some(Ok(text)) => Some((text, stream.byte_offset())),
        _ => None,
    }
}

/// Reads the first item of a `serde_json::StreamDeserializer` for
/// `serde::de::IgnoredAny`, and its `byte_offset`. The offset depends on the
/// bytes alone, is past the value and within the bytes.
#[verifier::external_body]
fn skip_value(bytes: &[u8]) -> (r: Option<usize>)
    ensures
        match r {
            Some(n) => skipped_prefix(bytes@) == Some(n as nat) && 0 < n <= bytes@.len(),
            None => skipped_prefix(bytes@) is None,
        },
{
    let mut stream = serde_json::Deserializer::from_slice(bytes).into_iter::<serde::de::IgnoredAny>();
    match stream.next() {
        Some(Ok(_)) => Some(stream.byte_offset()),
        _ => None,
    }
}

/// Reads the first item of a `serde_json::StreamDeserializer` for
/// `serde_json::Value`, and its `byte_offset`. The offset depends on the bytes
/// alone, is past the value and within the bytes.
#[verifier::external_body]
fn read_value_extent(bytes: &[u8]) -> (r: Option<usize>)
    ensures
        match r {
            Some(n) => value_prefix(bytes@) == Some(n as nat) && 0 < n <= bytes@.len(),
            None => value_prefix(bytes@) is None,
        },
{
    let mut stream = serde_json::Deserializer::from_slice(bytes).into_iter::<serde_json::Value>();
    match stream.next() {
        Some(Ok(_)) => Some(stream.byte_offset()),
        _ => None,
    }
}

/// White space between JSON tokens.
pub open spec fn json_space(b: u8) -> bool {
    b == 0x20 || b == 0x09 || b == 0x0a || b == 0x0d
}

/// The first position from `pos` on that holds no white space.
pub open spec fn after_space(bytes: Seq<u8>, pos: nat) -> nat
    decreases bytes.len() - pos,
{
    if pos < bytes.len() && json_space(bytes[pos as int]) {
        after_space(bytes, pos + 1)
    } else {
        pos
    }
}

/// Whether the first byte from `pos` on that is no white space is `b`.
pub open spec fn next_is(bytes: Seq<u8>, pos: nat, b: u8) -> bool {
    let p = after_space(bytes, pos);
    p < bytes.len() && bytes[p as int] == b
}

/// What stands next in an object.
pub enum StepV {
    /// The closing brace; the position behind it.
    End(nat),
    /// A member: its key, and the position behind the colon.
    Member(Seq<char>, nat),
    /// Neither.
    Malformed,
}

/// The key and the colon of a member that begins at `pos`.
pub open spec fn key_at(bytes: Seq<u8>, pos: nat) -> StepV {
    let start = after_space(bytes, pos);
    if !next_is(bytes, pos, 0x22) {
        StepV::Malformed
    } else {
        match string_prefix(bytes.skip(start as int)) {
            None => StepV::Malformed,
            Some((key, n)) => if next_is(bytes, start + n, 0x3a) {
                StepV::Member(key, after_space(bytes, start + n) + 1)
            } else {
                StepV::Malformed
            },
        }
    }
}

/// What stands next in an object of which `first` tells whether no member was
/// read yet: only the first member goes without a comma before it.
pub open spec fn step(bytes: Seq<u8>, pos: nat, first: bool) -> StepV {
    if next_is(bytes, pos, 0x7d) {
        StepV::End(after_space(bytes, pos) + 1)
    } else if first {
        key_at(bytes, pos)
    } else if next_is(bytes, pos, 0x2c) {
        key_at(bytes, after_space(bytes, pos) + 1)
    } else {
        StepV::Malformed
    }
}

/// The keys of an object whose members up to `pos` have the keys `seen`, and the
/// position behind the object. `None` where the text is malformed.
pub open spec fn keys_from(bytes: Seq<u8>, pos: nat, seen: Seq<Seq<char>>) -> Option<
    (Seq<Seq<char>>, nat),
>
    decreases bytes.len() - pos,
{
    match step(bytes, pos, seen.len() == 0) {
        StepV::Malformed => None,
        StepV::End(end) => Some((seen, end)),
        StepV::Member(key, p) => match skipped_prefix(bytes.skip(p as int)) {
            None => None,
            Some(n) => if pos < p + n <= bytes.len() {
                keys_from(bytes, p + n, seen.push(key))
            } else {
                None
            },
        },
    }
}

/// Some item occurs twice.
pub open spec fn repeats(s: Seq<Seq<char>>) -> bool {
    exists|i: int, j: int| 0 <= i < j < s.len() && #[trigger] s[i] == #[trigger] s[j]
}

/// A value under `error`: whether it is an object with a repeated key, and the
/// position behind it. An object is read key by key, an array skipped, anything
/// else read in full.
pub open spec fn error_value(bytes: Seq<u8>, pos: nat) -> Option<(bool, nat)> {
    let start = after_space(bytes, pos);
    if next_is(bytes, pos, 0x7b) {
        match keys_from(bytes, start + 1, Seq::empty()) {
            None => None,
            Some((keys, end)) => Some((repeats(keys), end)),
        }
    } else if next_is(bytes, pos, 0x5b) {
        match skipped_prefix(bytes.skip(start as int)) {
            None => None,
            Some(n) => Some((false, start + n)),
        }
    } else {
        match value_prefix(bytes.skip(start as int)) {
            None => None,
            Some(n) => Some((false, start + n)),
        }
    }
}

/// The value of a message's member: whether it repeats a key that counts, and
/// the position behind it.
pub open spec fn member_value(bytes: Seq<u8>, key: Seq<char>, pos: nat) -> Option<(bool, nat)> {
    if key == "error"@ {
        error_value(bytes, pos)
    } else {
        match skipped_prefix(bytes.skip(pos as int)) {
            None => None,
            Some(n) => Some((false, pos + n)),
        }
    }
}

/// The keys of a message whose members up to `pos` have the keys `seen`, and
/// whether an `error` among them or among the rest repeats a key. `None` where
/// the text is malformed.
pub open spec fn message_from(bytes: Seq<u8>, pos: nat, seen: Seq<Seq<char>>, inner: bool) -> Option<
    (Seq<Seq<char>>, bool),
>
    decreases bytes.len() - pos,
{
    match step(bytes, pos, seen.len() == 0) {
        StepV::Malformed => None,
        StepV::End(_) => Some((seen, inner)),
        StepV::Member(key, p) => match member_value(bytes, key, p) {
            None => None,
            Some((repeated, end)) => if pos < end <= bytes.len() {
                message_from(bytes, end, seen.push(key), inner || repeated)
            } else {
                None
            },
        },
    }
}

/// The text begins with an object that names a key twice, or whose `error` is an
/// object that names a key twice.
pub open spec fn repeats_a_field(text: Seq<char>) -> bool {
    let bytes = vstd::utf8::encode_utf8(text);
    next_is(bytes, 0, 0x7b) && match message_from(
        bytes,
        after_space(bytes, 0) + 1,
        Seq::empty(),
        false,
    ) {
        None => false,
        Some((keys, inner)) => repeats(keys) || inner,
    }
}

/// The keys of the object under `wanted`, where the members from `pos` on hold
/// one. `None` where they hold none.
pub open spec fn keys_under(bytes: Seq<u8>, pos: nat, first: bool, wanted: Seq<char>) -> Option<
    Seq<Seq<char>>,
>
    decreases bytes.len() - pos,
{
    match step(bytes, pos, first) {
        StepV::Malformed => None,
        StepV::End(_) => None,
        StepV::Member(key, p) => if key == wanted {
            if next_is(bytes, p, 0x7b) {
                match keys_from(bytes, after_space(bytes, p) + 1, Seq::empty()) {
                    None => None,
                    Some((keys, _)) => Some(keys),
                }
            } else {
                None
            }
        } else {
            match skipped_prefix(bytes.skip(p as int)) {
                None => None,
                Some(n) => if pos < p + n <= bytes.len() {
                    keys_under(bytes, p + n, false, wanted)
                } else {
                    None
                },
            }
        },
    }
}

/// The text begins with an object whose `params` is an object that names `key`
/// once.
pub open spec fn params_name_once(text: Seq<char>, key: Seq<char>) -> bool {
    let bytes = vstd::utf8::encode_utf8(text);
    &&& next_is(bytes, 0, 0x7b)
    &&& keys_under(bytes, after_space(bytes, 0) + 1, true, "params"@) matches Some(keys)
    &&& exists|i: int|
        0 <= i < keys.len() && #[trigger] keys[i] == key && forall|j: int|
            0 <= j < keys.len() && #[trigger] keys[j] == key ==> j == i
}

/// What stands next in an object.
enum Step {
    End(usize),
    Member(String, usize),
    Malformed,
}

spec fn step_view(s: Step) -> StepV {
    match s {
        Step::End(end) => StepV::End(end as nat),
        Step::Member(key, p) => StepV::Member(key@, p as nat),
        Step::Malformed => StepV::Malformed,
    }
}

/// A step leads on from `pos`, and no further than the end.
spec fn advances(s: Step, pos: nat, len: nat) -> bool {
    match s {
        Step::End(end) => pos < end <= len,
        Step::Member(_, p) => pos < p <= len,
        Step::Malformed => true,
    }
}

fn skip_space(bytes: &[u8], pos: usize) -> (r: usize)
    requires
        pos <= bytes@.len(),
    ensures
        r == after_space(bytes@, pos as nat),
        pos <= r <= bytes@.len(),
{
    let mut p: usize = pos;
    while p < bytes.len() && (bytes[p] == 0x20 || bytes[p] == 0x09 || bytes[p] == 0x0a || bytes[p]
        == 0x0d)
        invariant
            pos <= p <= bytes@.len(),
            after_space(bytes@, p as nat) == after_space(bytes@, pos as nat),
        decreases bytes@.len() - p,
    {
        p = p + 1;
    }
    p
}

fn read_key(bytes: &[u8], pos: usize) -> (r: Step)
    requires
        pos <= bytes@.len(),
    ensures
        step_view(r) == key_at(bytes@, pos as nat),
        advances(r, pos as nat, bytes@.len()),
{
    let start = skip_space(bytes, pos);
    if start >= bytes.len() || bytes[start] != 0x22 {
        return Step::Malformed;
    }
    let rest = slice_subrange(bytes, start, bytes.len());
    assert(rest@ == bytes@.skip(start as int));
    match read_string(rest) {
        None => Step::Malformed,
        Some((key, n)) => {
            let colon = skip_space(bytes, start + n);
            if colon < bytes.len() && bytes[colon] == 0x3a {
                Step::Member(key, colon + 1)
            } else {
                Step::Malformed
            }
        },
    }
}

fn read_step(bytes: &[u8], pos: usize, first: bool) -> (r: Step)
    requires
        pos <= bytes@.len(),
    ensures
        step_view(r) == step(bytes@, pos as nat, first),
        advances(r, pos as nat, bytes@.len()),
{
    let p = skip_space(bytes, pos);
    if p < bytes.len() && bytes[p] == 0x7d {
        Step::End(p + 1)
    } else if first {
        read_key(bytes, pos)
    } else if p < bytes.len() && bytes[p] == 0x2c {
        read_key(bytes, p + 1)
    } else {
        Step::Malformed
    }
}

/// The keys read so far: as a set, and whether one came twice.
struct Keys {
    seen: StringHashSet,
    any: bool,
    repeated: bool,
}

impl Keys {
    spec fn stand_for(self, keys: Seq<Seq<char>>) -> bool {
        &&& self.seen@ == keys.to_set()
        &&& self.any == (keys.len() > 0)
        &&& self.repeated == repeats(keys)
    }

    fn new() -> (r: Keys)
        ensures
            r.stand_for(Seq::empty()),
    {
        let r = Keys { seen: StringHashSet::new(), any: false, repeated: false };
        assert(r.seen@ =~= Seq::<Seq<char>>::empty().to_set());
        r
    }

    fn note(&mut self, key: String, Ghost(keys): Ghost<Seq<Seq<char>>>)
        requires
            old(self).stand_for(keys),
        ensures
            final(self).stand_for(keys.push(key@)),
    {
        let ghost k = key@;
        let ghost more = keys.push(k);
        let fresh = self.seen.insert(key);
        self.any = true;
        if !fresh {
            self.repeated = true;
        }
        proof {
            assert(self.seen@ =~= more.to_set()) by {
                assert forall|x: Seq<char>| more.to_set().contains(x) <==> self.seen@.contains(
                    x,
                ) by {
                    if more.contains(x) {
                        let i = choose|i: int| 0 <= i < more.len() && more[i] == x;
                        if i < keys.len() {
                            assert(keys[i] == x);
                        }
                    }
                    if keys.contains(x) {
                        let i = choose|i: int| 0 <= i < keys.len() && keys[i] == x;
                        assert(more[i] == x);
                    }
                    assert(more[keys.len() as int] == k);
                }
            }
            if repeats(keys) {
                let (i, j) = choose|i: int, j: int|
                    0 <= i < j < keys.len() && #[trigger] keys[i] == #[trigger] keys[j];
                assert(more[i] == more[j]);
            }
            if keys.contains(k) {
                let i = choose|i: int| 0 <= i < keys.len() && keys[i] == k;
                assert(more[i] == more[keys.len() as int]);
            }
            if repeats(more) {
                let (i, j) = choose|i: int, j: int|
                    0 <= i < j < more.len() && #[trigger] more[i] == #[trigger] more[j];
                if j < keys.len() {
                    assert(keys[i] == keys[j]);
                } else {
                    assert(keys[i] == k);
                }
            }
        }
    }
}

/// Reads the members of an object from behind its opening brace: whether a key
/// comes twice, and the position behind the object.
fn scan_object(bytes: &[u8], start: usize) -> (r: Option<(bool, usize)>)
    requires
        start <= bytes@.len(),
    ensures
        match r {
            Some((repeated, end)) => keys_from(bytes@, start as nat, Seq::empty()) matches Some(
                (keys, e),
            ) && repeated == repeats(keys) && end == e && start < end <= bytes@.len(),
            None => keys_from(bytes@, start as nat, Seq::empty()) is None,
        },
{
    let mut keys = Keys::new();
    let ghost mut seen: Seq<Seq<char>> = Seq::empty();
    let mut pos: usize = start;
    loop
        invariant
            start <= pos <= bytes@.len(),
            keys.stand_for(seen),
            keys_from(bytes@, start as nat, Seq::empty()) == keys_from(bytes@, pos as nat, seen),
        decreases bytes@.len() - pos,
    {
        match read_step(bytes, pos, !keys.any) {
            Step::Malformed => {
                return None;
            },
            Step::End(end) => {
                return Some((keys.repeated, end));
            },
            Step::Member(key, p) => {
                let rest = slice_subrange(bytes, p, bytes.len());
                assert(rest@ == bytes@.skip(p as int));
                match skip_value(rest) {
                    None => {
                        return None;
                    },
                    Some(n) => {
                        let ghost k = key@;
                        keys.note(key, Ghost(seen));
                        proof {
                            seen = seen.push(k);
                        }
                        pos = p + n;
                    },
                }
            },
        }
    }
}

fn scan_error(bytes: &[u8], pos: usize) -> (r: Option<(bool, usize)>)
    requires
        pos <= bytes@.len(),
    ensures
        match r {
            Some((repeated, end)) => error_value(bytes@, pos as nat) == Some((repeated, end as nat))
                && pos < end <= bytes@.len(),
            None => error_value(bytes@, pos as nat) is None,
        },
{
    let start = skip_space(bytes, pos);
    if start < bytes.len() && bytes[start] == 0x7b {
        return scan_object(bytes, start + 1);
    }
    let rest = slice_subrange(bytes, start, bytes.len());
    assert(rest@ == bytes@.skip(start as int));
    let extent = if start < bytes.len() && bytes[start] == 0x5b {
        skip_value(rest)
    } else {
        read_value_extent(rest)
    };
    match extent {
        None => None,
        Some(n) => Some((false, start + n)),
    }
}

fn scan_member(bytes: &[u8], key: &str, pos: usize) -> (r: Option<(bool, usize)>)
    requires
        pos <= bytes@.len(),
    ensures
        match r {
            Some((repeated, end)) => member_value(bytes@, key@, pos as nat) == Some(
                (repeated, end as nat),
            ) && pos < end <= bytes@.len(),
            None => member_value(bytes@, key@, pos as nat) is None,
        },
{
    if same_text(key, "error") {
        return scan_error(bytes, pos);
    }
    let rest = slice_subrange(bytes, pos, bytes.len());
    assert(rest@ == bytes@.skip(pos as int));
    match skip_value(rest) {
        None => None,
        Some(n) => Some((false, pos + n)),
    }
}

/// Whether a line is an object that names a key twice, at its top or in an object
/// under `error`. `params`, `result`, `error.data` and whatever lies deeper may
/// repeat keys; a text that is no object, or that is no JSON at all, repeats none.
pub fn has_duplicate_keys_in_rmcp_strict_positions(line: &str) -> (r: bool)
    ensures
        r == (json::json_read(line@) is Some && repeats_a_field(line@)),
{
    parse_json(line).is_some() && scan_message(line)
}

fn scan_message(line: &str) -> (r: bool)
    ensures
        r == repeats_a_field(line@),
{
    let bytes = line.as_bytes();
    let open = skip_space(bytes, 0);
    if open >= bytes.len() || bytes[open] != 0x7b {
        return false;
    }
    let ghost whole = message_from(bytes@, (open + 1) as nat, Seq::empty(), false);
    let mut keys = Keys::new();
    let mut inner = false;
    let ghost mut seen: Seq<Seq<char>> = Seq::empty();
    let mut pos: usize = open + 1;
    loop
        invariant
            bytes@ == vstd::utf8::encode_utf8(line@),
            next_is(bytes@, 0, 0x7b),
            open == after_space(bytes@, 0),
            pos <= bytes@.len(),
            keys.stand_for(seen),
            whole == message_from(bytes@, (open + 1) as nat, Seq::empty(), false),
            whole == message_from(bytes@, pos as nat, seen, inner),
        decreases bytes@.len() - pos,
    {
        match read_step(bytes, pos, !keys.any) {
            Step::Malformed => {
                return false;
            },
            Step::End(_) => {
                return keys.repeated || inner;
            },
            Step::Member(key, p) => {
                match scan_member(bytes, key.as_str(), p) {
                    None => {
                        return false;
                    },
                    Some((repeated, end)) => {
                        let ghost k = key@;
                        keys.note(key, Ghost(seen));
                        proof {
                            seen = seen.push(k);
                        }
                        inner = inner || repeated;
                        pos = end;
                    },
                }
            },
        }
    }
}

/// Nothing but blanks, tabs and line breaks from `from` up to `to`.
pub open spec fn blanks(bytes: Seq<u8>, from: nat, to: nat) -> bool {
    &&& from <= to <= bytes.len()
    &&& forall|i: int|
        from <= i < to ==> #[trigger] bytes[i] == 32 || bytes[i] == 9 || bytes[i] == 10 || bytes[i]
            == 13
}

/// A member of an object as it stands in a text: its key, where the comma before it,
/// the key, the end of the key and the colon stand, where its value ends, and whether
/// the value is one whose repeated keys count and repeats one.
pub struct MemberV {
    pub key: Seq<char>,
    pub comma: nat,
    pub start: nat,
    pub key_end: nat,
    pub colon: nat,
    pub end: nat,
    pub repeated: bool,
}

/// The key and the colon of a member stand in the text, with nothing but space around
/// them.
pub open spec fn key_stands(bytes: Seq<u8>, from: nat, first: bool, m: MemberV) -> bool {
    &&& if first {
        blanks(bytes, from, m.start)
    } else {
        blanks(bytes, from, m.comma) && m.comma < bytes.len() && bytes[m.comma as int] == ','
            as u8 && blanks(bytes, m.comma + 1, m.start)
    }
    &&& m.start < bytes.len()
    &&& bytes[m.start as int] == '"' as u8
    &&& m.start < m.key_end
    &&& string_prefix(bytes.skip(m.start as int)) == Some((m.key, (m.key_end - m.start) as nat))
    &&& blanks(bytes, m.key_end, m.colon)
    &&& m.colon < bytes.len()
    &&& bytes[m.colon as int] == ':' as u8
    &&& m.colon < m.end <= bytes.len()
}

/// The members of an object stand in the text from `from` on, a comma between each two,
/// and its closing brace stands at `close`. In a message the value of an `error` is
/// looked into.
pub open spec fn members_stand(
    bytes: Seq<u8>,
    from: nat,
    first: bool,
    members: Seq<MemberV>,
    close: nat,
    in_message: bool,
) -> bool
    decreases members.len(),
{
    if members.len() == 0 {
        blanks(bytes, from, close) && close < bytes.len() && bytes[close as int] == '}' as u8
    } else {
        let m = members[0];
        &&& key_stands(bytes, from, first, m)
        &&& if in_message && m.key == "error"@ {
            error_value(bytes, m.colon + 1) == Some((m.repeated, m.end))
        } else {
            !m.repeated && skipped_prefix(bytes.skip(m.colon as int + 1)) == Some(
                (m.end - m.colon - 1) as nat,
            )
        }
        &&& members_stand(bytes, m.end, false, members.skip(1), close, in_message)
    }
}

/// The keys of members.
pub open spec fn member_keys(members: Seq<MemberV>) -> Seq<Seq<char>> {
    Seq::new(members.len(), |i: int| members[i].key)
}

proof fn lemma_blanks(bytes: Seq<u8>, from: nat, to: nat)
    requires
        blanks(bytes, from, to),
        to < bytes.len(),
        bytes[to as int] != 32 && bytes[to as int] != 9 && bytes[to as int] != 10 && bytes[to as int]
            != 13,
    ensures
        after_space(bytes, from) == to,
    decreases to - from,
{
    if from < to {
        lemma_blanks(bytes, from + 1, to);
    }
}

proof fn lemma_step(bytes: Seq<u8>, from: nat, first: bool, m: MemberV)
    requires
        key_stands(bytes, from, first, m),
    ensures
        step(bytes, from, first) == StepV::Member(m.key, m.colon + 1),
{
    if first {
        lemma_blanks(bytes, from, m.start);
    } else {
        lemma_blanks(bytes, from, m.comma);
        lemma_blanks(bytes, m.comma + 1, m.start);
    }
    lemma_blanks(bytes, m.key_end, m.colon);
}

proof fn lemma_message(
    bytes: Seq<u8>,
    from: nat,
    members: Seq<MemberV>,
    close: nat,
    seen: Seq<Seq<char>>,
    inner: bool,
)
    requires
        members_stand(bytes, from, seen.len() == 0, members, close, true),
    ensures
        message_from(bytes, from, seen, inner) == Some(
            (
                seen + member_keys(members),
                inner || exists|i: int| 0 <= i < members.len() && (#[trigger] members[i]).repeated,
            ),
        ),
    decreases members.len(),
{
    if members.len() == 0 {
        lemma_blanks(bytes, from, close);
        assert(seen + member_keys(members) =~= seen);
    } else {
        let m = members[0];
        let rest = members.skip(1);
        lemma_step(bytes, from, seen.len() == 0, m);
        lemma_message(bytes, m.end, rest, close, seen.push(m.key), inner || m.repeated);
        assert(seen.push(m.key) + member_keys(rest) =~= seen + member_keys(members));
        if exists|i: int| 0 <= i < rest.len() && (#[trigger] rest[i]).repeated {
            let i = choose|i: int| 0 <= i < rest.len() && (#[trigger] rest[i]).repeated;
            assert(members[i + 1].repeated);
        }
        if exists|i: int| 0 <= i < members.len() && (#[trigger] members[i]).repeated {
            let i = choose|i: int| 0 <= i < members.len() && (#[trigger] members[i]).repeated;
            if i > 0 {
                assert(rest[i - 1].repeated);
            }
        }
    }
}

/// A message as it stands in a text is refused for a repeated field if and only if two
/// of its members have the same key, wherever they stand, or the value of an `error` is
/// an object that repeats one. Space before, between and behind the members makes no
/// difference.
pub proof fn law_repeated_keys_are_found(
    text: Seq<char>,
    open: nat,
    members: Seq<MemberV>,
    close: nat,
)
    requires
        ({
            let bytes = vstd::utf8::encode_utf8(text);
            &&& blanks(bytes, 0, open)
            &&& open < bytes.len()
            &&& bytes[open as int] == '{' as u8
            &&& members_stand(bytes, open + 1, true, members, close, true)
        }),
    ensures
        repeats_a_field(text) <==> {
            ||| exists|i: int, j: int|
                0 <= i < j < members.len() && (#[trigger] members[i]).key == (
                #[trigger] members[j]).key
            ||| exists|i: int| 0 <= i < members.len() && (#[trigger] members[i]).repeated
        },
{
    let bytes = vstd::utf8::encode_utf8(text);
    let keys = member_keys(members);
    lemma_blanks(bytes, 0, open);
    lemma_message(bytes, open + 1, members, close, Seq::empty(), false);
    assert(Seq::<Seq<char>>::empty() + keys =~= keys);
    if repeats(keys) {
        let (i, j) = choose|i: int, j: int|
            0 <= i < j < keys.len() && #[trigger] keys[i] == #[trigger] keys[j];
        assert(members[i].key == members[j].key);
    }
    if exists|i: int, j: int|
        0 <= i < j < members.len() && (#[trigger] members[i]).key == (#[trigger] members[j]).key {
        let (i, j) = choose|i: int, j: int|
            0 <= i < j < members.len() && (#[trigger] members[i]).key == (
            #[trigger] members[j]).key;
        assert(keys[i] == keys[j]);
    }
}

proof fn lemma_keys(
    bytes: Seq<u8>,
    from: nat,
    members: Seq<MemberV>,
    close: nat,
    seen: Seq<Seq<char>>,
)
    requires
        members_stand(bytes, from, seen.len() == 0, members, close, false),
    ensures
        keys_from(bytes, from, seen) == Some((seen + member_keys(members), close + 1)),
    decreases members.len(),
{
    if members.len() == 0 {
        lemma_blanks(bytes, from, close);
        assert(seen + member_keys(members) =~= seen);
    } else {
        let m = members[0];
        let rest = members.skip(1);
        lemma_step(bytes, from, seen.len() == 0, m);
        lemma_keys(bytes, m.end, rest, close, seen.push(m.key));
        assert(seen.push(m.key) + member_keys(rest) =~= seen + member_keys(members));
    }
}

/// An `error` that is an object repeats a field if and only if two of its members have
/// the same key, wherever they stand, and its value ends with its closing brace.
pub proof fn law_repeated_keys_of_an_error_are_found(
    bytes: Seq<u8>,
    from: nat,
    open: nat,
    members: Seq<MemberV>,
    close: nat,
)
    requires
        blanks(bytes, from, open),
        open < bytes.len(),
        bytes[open as int] == '{' as u8,
        members_stand(bytes, open + 1, true, members, close, false),
    ensures
        error_value(bytes, from) matches Some((repeated, end)) && end == close + 1 && (
        repeated <==> exists|i: int, j: int|
            0 <= i < j < members.len() && (#[trigger] members[i]).key == (
            #[trigger] members[j]).key),
{
    let keys = member_keys(members);
    lemma_blanks(bytes, from, open);
    lemma_keys(bytes, open + 1, members, close, Seq::empty());
    assert(Seq::<Seq<char>>::empty() + keys =~= keys);
    if repeats(keys) {
        let (i, j) = choose|i: int, j: int|
            0 <= i < j < keys.len() && #[trigger] keys[i] == #[trigger] keys[j];
        assert(members[i].key == members[j].key);
    }
    if exists|i: int, j: int|
        0 <= i < j < members.len() && (#[trigger] members[i]).key == (#[trigger] members[j]).key {
        let (i, j) = choose|i: int, j: int|
            0 <= i < j < members.len() && (#[trigger] members[i]).key == (
            #[trigger] members[j]).key;
        assert(keys[i] == keys[j]);
    }
}

/// Nothing but an object under `error` can repeat a field there: a list or anything else
/// never does, whatever it holds.
pub proof fn law_only_an_error_object_repeats(bytes: Seq<u8>, from: nat, start: nat)
    requires
        blanks(bytes, from, start),
        start < bytes.len(),
        bytes[start as int] != 32 && bytes[start as int] != 9 && bytes[start as int] != 10
            && bytes[start as int] != 13,
        bytes[start as int] != '{' as u8,
    ensures
        error_value(bytes, from) matches Some((repeated, end)) ==> !repeated && end == start
            + if bytes[start as int] == '[' as u8 {
            skipped_prefix(bytes.skip(start as int))->0
        } else {
            value_prefix(bytes.skip(start as int))->0
        },
{
    lemma_blanks(bytes, from, start);
}

/// A text that begins with anything but an object repeats no field.
pub proof fn law_only_an_object_repeats(text: Seq<char>, start: nat)
    requires
        ({
            let bytes = vstd::utf8::encode_utf8(text);
            &&& blanks(bytes, 0, start)
            &&& start < bytes.len()
            &&& bytes[start as int] != 32 && bytes[start as int] != 9 && bytes[start as int] != 10
                && bytes[start as int] != 13
            &&& bytes[start as int] != '{' as u8
        }),
    ensures
        !repeats_a_field(text),
{
    lemma_blanks(vstd::utf8::encode_utf8(text), 0, start);
}

} // verus!
