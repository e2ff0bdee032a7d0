//! JSON values as the server reads and writes them.
//!
//! [`Json`] is a plain tree. Its view is a [`JsonV`], in which an object is a
//! map from key to value. Reading and writing text is `serde_json`'s work: the
//! functions in this file walk the values that it hands out and takes back.
use vstd::prelude::*;
use vstd::string::*;

use crate::text;
use crate::text::same_text;

verus! {

/// What `str::parse` and `serde_json::Number::from_f64` make of a text: the decimal
/// text of the number that they read. `None` where they read none.
pub uninterp spec fn fraction_reading(text: Seq<char>) -> Option<Seq<char>>;

/// A number that is neither a `u64` nor an `i64`, by its decimal text. The text is
/// the one that `serde_json` writes, so that the number is read back from it.
pub struct Fraction {
    text: String,
}

impl Fraction {
    #[verifier::type_invariant]
    spec fn well_formed(self) -> bool {
        fraction_reading(self.text@) == Some(self.text@)
    }

    /// The decimal text.
    pub fn as_str(&self) -> (r: &str)
        ensures
            r@ == self@,
    {
        self.text.as_str()
    }
}

impl View for Fraction {
    type V = Seq<char>;

    closed spec fn view(&self) -> Seq<char> {
        self.text@
    }
}

/// A JSON value. An object lists its members in order; where a key is listed
/// twice the later member counts.
pub enum Json {
    Null,
    Bool(bool),
    UInt(u64),
    Int(i64),
    Float(Fraction),
    Str(String),
    Array(Vec<Json>),
    Object(Vec<(String, Json)>),
}

/// What a [`Json`] value stands for.
#[verifier::ext_equal]
pub enum JsonV {
    Null,
    Bool(bool),
    Int(int),
    Float(Seq<char>),
    Str(Seq<char>),
    Array(Seq<JsonV>),
    Object(Map<Seq<char>, JsonV>),
}

/// The value that a JSON value stands for.
pub open spec fn json_view(j: Json) -> JsonV
    decreases j,
{
    match j {
        Json::Null => JsonV::Null,
        Json::Bool(b) => JsonV::Bool(b),
        Json::UInt(n) => JsonV::Int(n as int),
        Json::Int(n) => JsonV::Int(n as int),
        Json::Float(t) => JsonV::Float(t@),
        Json::Str(t) => JsonV::Str(t@),
        Json::Array(v) => JsonV::Array(array_view(v@)),
        Json::Object(v) => JsonV::Object(object_view(v@)),
    }
}

/// The elements of an array, each by its view.
pub open spec fn array_view(s: Seq<Json>) -> Seq<JsonV>
    decreases s,
{
    if s.len() == 0 {
        Seq::empty()
    } else {
        array_view(s.drop_last()).push(json_view(s.last()))
    }
}

/// The members of an object, a later member replacing an earlier one of the
/// same key.
pub open spec fn object_view(s: Seq<(String, Json)>) -> Map<Seq<char>, JsonV>
    decreases s,
{
    if s.len() == 0 {
        Map::empty()
    } else {
        object_view(s.drop_last()).insert(s.last().0@, json_view(s.last().1))
    }
}

impl View for Json {
    type V = JsonV;

    open spec fn view(&self) -> JsonV {
        json_view(*self)
    }
}

/// The member of key `key`: `None` where `v` is no object or has none.
pub open spec fn field(v: JsonV, key: Seq<char>) -> Option<JsonV> {
    match v {
        JsonV::Object(members) => if members.contains_key(key) {
            Some(members[key])
        } else {
            None
        },
        _ => None,
    }
}

/// The member of key `key` among an object's members, the later where there are
/// two.
pub fn lookup<'a>(members: &'a Vec<(String, Json)>, key: &str) -> (r: Option<&'a Json>)
    ensures
        match r {
            Some(j) => field(JsonV::Object(object_view(members@)), key@) == Some(j@),
            None => field(JsonV::Object(object_view(members@)), key@) is None,
        },
{
    let mut i: usize = members.len();
    assert(members@.take(i as int) =~= members@);
    while i > 0
        invariant
            i <= members@.len(),
            field(JsonV::Object(object_view(members@)), key@) == field(
                JsonV::Object(object_view(members@.take(i as int))),
                key@,
            ),
        decreases i,
    {
        i = i - 1;
        assert(members@.take(i + 1).drop_last() =~= members@.take(i as int));
        if same_text(members[i].0.as_str(), key) {
            return Some(&members[i].1);
        }
    }
    assert(members@.take(0) =~= Seq::empty());
    None
}

/// The member of key `key` of a value: `None` where it is no object or has none.
pub fn get<'a>(j: &'a Json, key: &str) -> (r: Option<&'a Json>)
    ensures
        match r {
            Some(member) => field(j@, key@) == Some(member@),
            None => field(j@, key@) is None,
        },
{
    match j {
        Json::Object(members) => lookup(members, key),
        _ => None,
    }
}

/// An array's view has the views of its items, in their places.
pub proof fn lemma_array_view(s: Seq<Json>)
    ensures
        array_view(s).len() == s.len(),
        forall|i: int| 0 <= i < s.len() ==> #[trigger] array_view(s)[i] == json_view(s[i]),
    decreases s.len(),
{
    if s.len() > 0 {
        lemma_array_view(s.drop_last());
        assert forall|i: int| 0 <= i < s.len() implies #[trigger] array_view(s)[i] == json_view(
            s[i],
        ) by {
            if i < s.len() - 1 {
                assert(array_view(s.drop_last())[i] == json_view(s.drop_last()[i]));
            }
        }
    }
}

/// Adds a member; one of the same key no longer counts.
pub fn set_member(members: &mut Vec<(String, Json)>, key: &str, value: Json)
    ensures
        object_view(final(members)@) == object_view(old(members)@).insert(key@, value@),
{
    let ghost before = members@;
    members.push((key.to_owned(), value));
    assert(members@.drop_last() =~= before);
}

/// The JSON strings of a list of texts.
pub open spec fn text_items(items: Seq<Seq<char>>) -> Seq<JsonV> {
    Seq::new(items.len(), |i: int| JsonV::Str(items[i]))
}

/// The JSON array of a list of texts.
pub fn text_array(items: &Vec<String>) -> (r: Json)
    ensures
        r@ == JsonV::Array(text_items(text::texts(items@))),
{
    let mut out: Vec<Json> = Vec::new();
    let ghost all = text_items(text::texts(items@));
    for i in 0..items.len()
        invariant
            all == text_items(text::texts(items@)),
            array_view(out@) == all.take(i as int),
    {
        let ghost before = out@;
        out.push(Json::Str(items[i].clone()));
        assert(out@.drop_last() =~= before);
        assert(json_view(out@.last()) == all[i as int]);
        assert(all.take(i + 1) =~= all.take(i as int).push(all[i as int]));
    }
    assert(all.take(items@.len() as int) =~= all);
    Json::Array(out)
}

/// `serde_json`'s value tree.
#[verifier::external_type_specification]
#[verifier::external_body]
pub struct ExValue(serde_json::Value);

/// `serde_json`'s error.
#[verifier::external_type_specification]
#[verifier::external_body]
pub struct ExError(serde_json::Error);

/// What a `serde_json` value holds.
pub uninterp spec fn value_model(value: serde_json::Value) -> JsonV;

/// What `serde_json::from_str` makes of a text: the value it reads, or the text
/// of the error that it reports.
pub uninterp spec fn json_reading(text: Seq<char>) -> Result<JsonV, Seq<char>>;

/// The value that a text stands for: `None` where it is no JSON.
pub open spec fn json_read(text: Seq<char>) -> Option<JsonV> {
    match json_reading(text) {
        Ok(v) => Some(v),
        Err(_) => None,
    }
}

/// One layer of a `serde_json` value: its kind, with what it holds left as
/// `serde_json` values.
pub enum Layer {
    Null,
    Bool(bool),
    UInt(u64),
    Int(i64),
    Float(String),
    Str(String),
    Array(Vec<serde_json::Value>),
    Object(Vec<(String, serde_json::Value)>),
}

/// The members of an object, by key.
pub open spec fn members_model(s: Seq<(String, serde_json::Value)>) -> Map<Seq<char>, JsonV>
    decreases s.len(),
{
    if s.len() == 0 {
        Map::empty()
    } else {
        members_model(s.drop_last()).insert(s.last().0@, value_model(s.last().1))
    }
}

/// The value that a layer stands for.
pub open spec fn layer_model(layer: Layer) -> JsonV {
    match layer {
        Layer::Null => JsonV::Null,
        Layer::Bool(b) => JsonV::Bool(b),
        Layer::UInt(n) => JsonV::Int(n as int),
        Layer::Int(n) => JsonV::Int(n as int),
        Layer::Float(t) => JsonV::Float(t@),
        Layer::Str(t) => JsonV::Str(t@),
        Layer::Array(v) => JsonV::Array(Seq::new(v@.len(), |i: int| value_model(v@[i]))),
        Layer::Object(v) => JsonV::Object(members_model(v@)),
    }
}

/// No key occurs twice.
pub open spec fn keys_distinct(s: Seq<(String, serde_json::Value)>) -> bool {
    forall|i: int, j: int| 0 <= i < j < s.len() ==> s[i].0@ != s[j].0@
}

/// Calls `serde_json::from_str` for a `serde_json::Value`. The value that it
/// reads, or the text of the error that it reports, depends on the text alone.
#[verifier::external_body]
pub(crate) fn read_value(text: &str) -> (r: Result<serde_json::Value, String>)
    ensures
        match r {
            Ok(value) => json_reading(text@) == Ok::<JsonV, Seq<char>>(value_model(value)),
            Err(e) => json_reading(text@) == Err::<JsonV, Seq<char>>(e@),
        },
{
    serde_json::from_str(text).map_err(|e: serde_json::Error| e.to_string())
}

/// Takes a `serde_json::Value` apart by one layer: the variants of the outside
/// enum, one for one. A number is given by `Number::as_u64`, else by
/// `Number::as_i64`, else by its text, which is the shortest that the number is
/// read back from. A `serde_json::Map` holds a key once.
#[verifier::external_body]
fn take_layer(value: serde_json::Value) -> (layer: Layer)
    ensures
        layer_model(layer) == value_model(value),
        layer matches Layer::Object(v) ==> keys_distinct(v@),
        layer matches Layer::Float(t) ==> fraction_reading(t@) == Some(t@),
{
    match value {
        serde_json::Value::Null => Layer::Null,
        serde_json::Value::Bool(b) => Layer::Bool(b),
        serde_json::Value::Number(n) => match (n.as_u64(), n.as_i64()) {
            (Some(u), _) => Layer::UInt(u),
            (None, Some(i)) => Layer::Int(i),
            (None, None) => Layer::Float(n.to_string()),
        },
        serde_json::Value::String(s) => Layer::Str(s),
        serde_json::Value::Array(v) => Layer::Array(v),
        serde_json::Value::Object(m) => Layer::Object(m.into_iter().collect()),
    }
}

proof fn lemma_members_finite(s: Seq<(String, serde_json::Value)>)
    ensures
        members_model(s).dom().finite(),
    decreases s.len(),
{
    if s.len() > 0 {
        lemma_members_finite(s.drop_last());
        assert(members_model(s).dom() =~= members_model(s.drop_last()).dom().insert(s.last().0@));
    } else {
        assert(members_model(s).dom() =~= Set::empty());
    }
}

proof fn lemma_members_at(s: Seq<(String, serde_json::Value)>, i: int)
    requires
        0 <= i < s.len(),
        keys_distinct(s),
    ensures
        members_model(s).contains_key(s[i].0@),
        members_model(s)[s[i].0@] == value_model(s[i].1),
    decreases s.len(),
{
    let t = s.drop_last();
    assert(keys_distinct(t));
    if i < s.len() - 1 {
        lemma_members_at(t, i);
        assert(t[i] == s[i]);
        assert(s[i].0@ != s[s.len() - 1].0@);
    }
}

/// A value of `serde_json` as a plain tree.
pub fn from_value(value: serde_json::Value) -> (j: Json)
    ensures
        j@ == value_model(value),
    decreases value_model(value),
{
    let ghost whole = value_model(value);
    match take_layer(value) {
        Layer::Null => Json::Null,
        Layer::Bool(b) => Json::Bool(b),
        Layer::UInt(n) => Json::UInt(n),
        Layer::Int(n) => Json::Int(n),
        Layer::Float(t) => Json::Float(Fraction { text: t }),
        Layer::Str(t) => Json::Str(t),
        Layer::Array(v) => {
            let ghost items = v@;
            let ghost model = Seq::new(items.len(), |i: int| value_model(items[i]));
            let mut out: Vec<Json> = Vec::new();
            for item in it: v
                invariant
                    whole == value_model(value),
                    whole == JsonV::Array(model),
                    it.seq() == items,
                    model == Seq::new(items.len(), |i: int| value_model(items[i])),
                    array_view(out@) == model.take(it.index() as int),
            {
                let ghost k = it.index() as int;
                let ghost before = out@;
                assert(decreases_to!(whole => value_model(item))) by {
                    assert(whole->Array_0 == model);
                    assert(model[k] == value_model(item));
                }
                out.push(from_value(item));
                assert(out@.drop_last() == before);
                assert(model.take(k + 1) =~= model.take(k).push(model[k]));
            }
            assert(model.take(items.len() as int) =~= model);
            Json::Array(out)
        },
        Layer::Object(v) => {
            let ghost items = v@;
            let mut out: Vec<(String, Json)> = Vec::new();
            for item in it: v
                invariant
                    whole == value_model(value),
                    whole == JsonV::Object(members_model(items)),
                    it.seq() == items,
                    keys_distinct(items),
                    object_view(out@) == members_model(items.take(it.index() as int)),
            {
                let ghost k = it.index() as int;
                let ghost before = out@;
                proof {
                    lemma_members_at(items, k);
                    lemma_members_finite(items);
                }
                assert(decreases_to!(whole => value_model(item.1))) by {
                    let m = whole->Object_0;
                    assert(decreases_to!(m => m[items[k].0@]));
                }
                let (key, member) = item;
                out.push((key, from_value(member)));
                assert(out@.drop_last() == before);
                assert(items.take(k + 1).drop_last() =~= items.take(k));
            }
            assert(items.take(items.len() as int) =~= items);
            Json::Object(out)
        },
    }
}

/// Reads a JSON text: `None` where `serde_json` reports an error.
pub fn parse_json(text: &str) -> (r: Option<Json>)
    ensures
        match r {
            Some(j) => json_read(text@) == Some(j@),
            None => json_read(text@) is None,
        },
{
    match read_value(text) {
        Ok(value) => Some(from_value(value)),
        Err(_) => None,
    }
}

/// The compact text that `serde_json` writes for a value.
pub uninterp spec fn json_text(value: JsonV) -> Seq<char>;

/// The indented text that `serde_json` writes for a value.
pub uninterp spec fn json_pretty_text(value: JsonV) -> Seq<char>;

/// A value that holds no other and is no fraction.
pub open spec fn scalar(v: JsonV) -> bool {
    !(v is Float) && !(v is Array) && !(v is Object)
}

/// A scalar, or an array or object of scalars.
pub open spec fn flat(v: JsonV) -> bool {
    match v {
        JsonV::Array(items) => forall|i: int|
            0 <= i < items.len() ==> scalar(#[trigger] items[i]),
        JsonV::Object(members) => forall|k: Seq<char>|
            #[trigger] members.contains_key(k) ==> scalar(members[k]),
        _ => scalar(v),
    }
}

/// A flat value, or an array or object of flat values.
pub open spec fn shallow(v: JsonV) -> bool {
    match v {
        JsonV::Array(items) => forall|i: int| 0 <= i < items.len() ==> flat(#[trigger] items[i]),
        JsonV::Object(members) => forall|k: Seq<char>|
            #[trigger] members.contains_key(k) ==> flat(members[k]),
        _ => scalar(v),
    }
}

/// The value that a layer is put together to. A fraction is read from its text;
/// where that is none, the value is null.
pub open spec fn made_model(layer: Layer) -> JsonV {
    match layer {
        Layer::Float(t) => match fraction_reading(t@) {
            Some(text) => JsonV::Float(text),
            None => JsonV::Null,
        },
        _ => layer_model(layer),
    }
}

/// Puts a `serde_json::Value` together from one layer: the variants of the
/// outside enum, one for one. A fraction is read from its text by `str::parse`,
/// and taken by `Number::from_f64` where it is finite. `serde_json::Map` keeps the
/// later of two members of one key.
#[verifier::external_body]
fn make_value(layer: Layer) -> (value: serde_json::Value)
    ensures
        value_model(value) == made_model(layer),
{
    match layer {
        Layer::Null => serde_json::Value::Null,
        Layer::Float(t) => t
            .parse()
            .ok()
            .and_then(serde_json::Number::from_f64)
            .map_or(serde_json::Value::Null, serde_json::Value::Number),
        Layer::Bool(b) => serde_json::Value::Bool(b),
        Layer::UInt(n) => serde_json::Value::from(n),
        Layer::Int(n) => serde_json::Value::from(n),
        Layer::Str(t) => serde_json::Value::String(t),
        Layer::Array(v) => serde_json::Value::Array(v),
        Layer::Object(v) => serde_json::Value::Object(v.into_iter().collect()),
    }
}

/// Calls `to_string` on a `serde_json::Value`: the compact text, which depends
/// on the value alone. It holds no line feed and no carriage return, since the
/// compact form puts none between tokens and a string's own are escaped.
/// `serde_json` reads a shallow value back from it unchanged.
#[verifier::external_body]
fn write_value(value: &serde_json::Value) -> (text: String)
    ensures
        text@ == json_text(value_model(*value)),
        !text@.contains('\n'),
        !text@.contains('\r'),
        shallow(value_model(*value)) ==> json_read(text@) == Some(value_model(*value)),
{
    value.to_string()
}

/// Calls `serde_json::to_string_pretty` on a `serde_json::Value`: the indented
/// text, which depends on the value alone. It reports no error for a value tree,
/// whose keys are strings.
#[verifier::external_body]
fn write_value_pretty(value: &serde_json::Value) -> (r: Result<String, serde_json::Error>)
    ensures
        r is Ok,
        r->Ok_0@ == json_pretty_text(value_model(*value)),
{
    serde_json::to_string_pretty(value)
}

/// A plain tree as a value of `serde_json`.
pub fn to_value(j: &Json) -> (value: serde_json::Value)
    ensures
        value_model(value) == j@,
    decreases j,
{
    match j {
        Json::Null => make_value(Layer::Null),
        Json::Float(f) => {
            proof {
                use_type_invariant(f);
            }
            make_value(Layer::Float(f.text.clone()))
        },
        Json::Bool(b) => make_value(Layer::Bool(*b)),
        Json::UInt(n) => make_value(Layer::UInt(*n)),
        Json::Int(n) => make_value(Layer::Int(*n)),
        Json::Str(t) => make_value(Layer::Str(t.clone())),
        Json::Array(items) => {
            let mut out: Vec<serde_json::Value> = Vec::new();
            let ghost n = items@.len();
            for i in 0..items.len()
                invariant
                    n == items@.len(),
                    j == Json::Array(*items),
                    out@.len() == i,
                    Seq::new(out@.len(), |k: int| value_model(out@[k])) == array_view(
                        items@.take(i as int),
                    ),
            {
                let ghost before = out@;
                assert(decreases_to!(*j => items@[i as int])) by {
                    assert(j->Array_0@ == items@);
                }
                out.push(to_value(&items[i]));
                assert(items@.take(i + 1).drop_last() =~= items@.take(i as int));
                assert(Seq::new(out@.len(), |k: int| value_model(out@[k])) =~= Seq::new(
                    before.len(),
                    |k: int| value_model(before[k]),
                ).push(json_view(items@[i as int])));
            }
            assert(items@.take(n as int) =~= items@);
            make_value(Layer::Array(out))
        },
        Json::Object(members) => {
            let mut out: Vec<(String, serde_json::Value)> = Vec::new();
            let ghost n = members@.len();
            for i in 0..members.len()
                invariant
                    n == members@.len(),
                    j == Json::Object(*members),
                    members_model(out@) == object_view(members@.take(i as int)),
            {
                let ghost before = out@;
                assert(decreases_to!(*j => members@[i as int].1)) by {
                    assert(j->Object_0@ == members@);
                    assert(decreases_to!(members@ => members@[i as int]));
                }
                out.push((members[i].0.clone(), to_value(&members[i].1)));
                assert(out@.drop_last() =~= before);
                assert(members@.take(i + 1).drop_last() =~= members@.take(i as int));
            }
            assert(members@.take(n as int) =~= members@);
            make_value(Layer::Object(out))
        },
    }
}

/// A copy of a value.
pub fn copy_json(j: &Json) -> (r: Json)
    ensures
        r@ == j@,
{
    from_value(to_value(j))
}

/// Writes a value as compact JSON text.
pub fn render_json(j: &Json) -> (text: String)
    ensures
        text@ == json_text(j@),
        !text@.contains('\n'),
        !text@.contains('\r'),
        shallow(j@) ==> json_read(text@) == Some(j@),
{
    let value = to_value(j);
    write_value(&value)
}

/// Writes a value as indented JSON text.
pub fn render_json_pretty(j: &Json) -> (text: String)
    ensures
        text@ == json_pretty_text(j@),
{
    let value = to_value(j);
    match write_value_pretty(&value) {
        Ok(text) => text,
        Err(_) => String::new(),
    }
}

/// A member that is added counts, in place of one of the same key, and changes nothing
/// of another key. What is no object has no members.
pub proof fn law_later_member_counts(
    members: Seq<(String, Json)>,
    key: String,
    value: Json,
    other: Seq<char>,
    v: JsonV,
)
    ensures
        field(JsonV::Object(object_view(members.push((key, value)))), key@) == Some(value@),
        other != key@ ==> field(JsonV::Object(object_view(members.push((key, value)))), other)
            == field(JsonV::Object(object_view(members)), other),
        field(JsonV::Object(object_view(Seq::empty())), other) is None,
        !(v is Object) ==> field(v, other) is None,
{
    assert(members.push((key, value)).drop_last() =~= members);
}

/// A value stands for what it holds: a number for the same number whichever way it is
/// held, a text for its characters, and a list for its items in their places.
pub proof fn law_value_stands_for_what_it_holds(
    b: bool,
    n: u64,
    i: i64,
    t: String,
    items: Vec<Json>,
    k: int,
)
    ensures
        Json::Null@ is Null,
        Json::Bool(b)@ == JsonV::Bool(b),
        Json::UInt(n)@ == JsonV::Int(n as int),
        Json::Int(i)@ == JsonV::Int(i as int),
        n == i ==> Json::UInt(n)@ == Json::Int(i)@,
        Json::Str(t)@ == JsonV::Str(t@),
        Json::Array(items)@ matches JsonV::Array(held) && held.len() == items@.len() && (0 <= k
            < items@.len() ==> held[k] == items@[k]@),
{
    lemma_array_view(items@);
}

/// The texts of a list are strings, each in its place.
pub proof fn law_texts_are_strings(items: Seq<Seq<char>>, i: int)
    requires
        0 <= i < items.len(),
    ensures
        text_items(items).len() == items.len(),
        text_items(items)[i] == JsonV::Str(items[i]),
{
}

} // verus!
