//! JSON values as the API exchanges them, their compact text, and field access.
use vstd::prelude::*;
use crate::text::{
    chars_of, decimal, hex_char, hex_digits, i64_to_text, push_char, signed_decimal, write_decimal,
};

verus! {

/// A JSON number as it was received or built: a non-negative integer, a
/// negative integer, or any other number kept as its JSON text.
#[derive(Clone, Debug, PartialEq)]
pub enum JsonNumber {
    PosInt(u64),
    NegInt(i64),
    Float(String),
}

/// A JSON value. Object fields keep their order.
#[derive(Debug)]
pub enum Json {
    Null,
    Bool(bool),
    Number(JsonNumber),
    String(String),
    Array(Vec<Json>),
    Object(Vec<(String, Json)>),
}

/// The mathematical view of a [`JsonNumber`].
pub enum NumberValue {
    PosInt(u64),
    NegInt(i64),
    Float(Seq<char>),
}

/// The mathematical view of a [`Json`] value.
pub enum JsonValue {
    Null,
    Bool(bool),
    Number(NumberValue),
    String(Seq<char>),
    Array(Seq<JsonValue>),
    Object(Seq<(Seq<char>, JsonValue)>),
}

impl View for JsonNumber {
    type V = NumberValue;

    open spec fn view(&self) -> NumberValue {
        match self {
            JsonNumber::PosInt(n) => NumberValue::PosInt(*n),
            JsonNumber::NegInt(n) => NumberValue::NegInt(*n),
            JsonNumber::Float(t) => NumberValue::Float(t@),
        }
    }
}

/// The view of a JSON value.
pub open spec fn json_view(j: Json) -> JsonValue
    decreases j,
{
    match j {
        Json::Null => JsonValue::Null,
        Json::Bool(b) => JsonValue::Bool(b),
        Json::Number(n) => JsonValue::Number(n@),
        Json::String(s) => JsonValue::String(s@),
        Json::Array(items) => JsonValue::Array(
            Seq::new(
                items@.len(),
                |i: int|
                    if 0 <= i < items@.len() {
                        json_view(items@[i])
                    } else {
                        JsonValue::Null
                    },
            ),
        ),
        Json::Object(fields) => JsonValue::Object(
            Seq::new(
                fields@.len(),
                |i: int|
                    if 0 <= i < fields@.len() {
                        (fields@[i].0@, json_view(fields@[i].1))
                    } else {
                        (Seq::empty(), JsonValue::Null)
                    },
            ),
        ),
    }
}

impl View for Json {
    type V = JsonValue;

    open spec fn view(&self) -> JsonValue {
        json_view(*self)
    }
}

/// The views of a sequence of JSON values.
pub open spec fn items_view(items: Seq<Json>) -> Seq<JsonValue> {
    Seq::new(items.len(), |i: int| items[i]@)
}

/// The views of a sequence of object fields.
pub open spec fn fields_view(fields: Seq<(String, Json)>) -> Seq<(Seq<char>, JsonValue)> {
    Seq::new(fields.len(), |i: int| (fields[i].0@, fields[i].1@))
}

/// The view of a JSON array is the views of its items.
pub proof fn lemma_array_view(items: Vec<Json>)
    ensures
        Json::Array(items)@ == JsonValue::Array(items_view(items@)),
{
    assert(items_view(items@) =~= Json::Array(items)@->Array_0);
}

/// The view of a JSON object is the views of its fields.
pub proof fn lemma_object_view(fields: Vec<(String, Json)>)
    ensures
        Json::Object(fields)@ == JsonValue::Object(fields_view(fields@)),
{
    assert(fields_view(fields@) =~= Json::Object(fields)@->Object_0);
}

// ---------------------------------------------------------------------------
// Compact JSON text
// ---------------------------------------------------------------------------

/// How one character of a string is written inside JSON quotes: `"` and `\`
/// and control characters are escaped, everything else stands as itself.
pub open spec fn escape_char(c: char) -> Seq<char> {
    if c == '"' {
        seq!['\\', '"']
    } else if c == '\\' {
        seq!['\\', '\\']
    } else if c == '\u{08}' {
        seq!['\\', 'b']
    } else if c == '\u{0C}' {
        seq!['\\', 'f']
    } else if c == '\n' {
        seq!['\\', 'n']
    } else if c == '\r' {
        seq!['\\', 'r']
    } else if c == '\t' {
        seq!['\\', 't']
    } else if (c as u32) < 0x20 {
        seq![
            '\\',
            'u',
            '0',
            '0',
            hex_digits()[((c as u32) / 16) as int],
            hex_digits()[((c as u32) % 16) as int],
        ]
    } else {
        seq![c]
    }
}

/// A string with each of its characters escaped.
pub open spec fn escaped(s: Seq<char>) -> Seq<char>
    decreases s.len(),
{
    if s.len() == 0 {
        Seq::empty()
    } else {
        escaped(s.drop_last()) + escape_char(s.last())
    }
}

/// A string as a JSON string literal.
pub open spec fn quoted(s: Seq<char>) -> Seq<char> {
    seq!['"'] + escaped(s) + seq!['"']
}

/// The JSON text of a number.
pub open spec fn number_text(n: NumberValue) -> Seq<char> {
    match n {
        NumberValue::PosInt(v) => decimal(v as nat),
        NumberValue::NegInt(v) => signed_decimal(v as int),
        NumberValue::Float(t) => t,
    }
}

/// The compact JSON text of a value: no white space between tokens, items
/// and fields separated by `,`, a field's name and value by `:`.
pub open spec fn json_text(v: JsonValue) -> Seq<char>
    decreases v,
{
    match v {
        JsonValue::Null => seq!['n', 'u', 'l', 'l'],
        JsonValue::Bool(b) => if b {
            seq!['t', 'r', 'u', 'e']
        } else {
            seq!['f', 'a', 'l', 's', 'e']
        },
        JsonValue::Number(n) => number_text(n),
        JsonValue::String(s) => quoted(s),
        JsonValue::Array(items) => seq!['['] + items_text(items) + seq![']'],
        JsonValue::Object(fields) => seq!['{'] + fields_text(fields) + seq!['}'],
    }
}

/// The texts of the items, separated by commas.
pub open spec fn items_text(items: Seq<JsonValue>) -> Seq<char>
    decreases items,
{
    if items.len() == 0 {
        Seq::empty()
    } else if items.len() == 1 {
        json_text(items[0])
    } else {
        items_text(items.drop_last()) + seq![','] + json_text(items.last())
    }
}

/// The texts of the fields, `"name":value`, separated by commas.
pub open spec fn fields_text(fields: Seq<(Seq<char>, JsonValue)>) -> Seq<char>
    decreases fields,
{
    if fields.len() == 0 {
        Seq::empty()
    } else if fields.len() == 1 {
        quoted(fields[0].0) + seq![':'] + json_text(fields[0].1)
    } else {
        fields_text(fields.drop_last()) + seq![','] + quoted(fields.last().0) + seq![':']
            + json_text(fields.last().1)
    }
}

/// Appends the escaped form of one character.
fn write_escaped_char(c: char, out: &mut String)
    ensures
        final(out)@ == old(out)@ + escape_char(c),
{
    if c == '"' {
        push_char(out, '\\');
        push_char(out, '"');
    } else if c == '\\' {
        push_char(out, '\\');
        push_char(out, '\\');
    } else if c == '\u{08}' {
        push_char(out, '\\');
        push_char(out, 'b');
    } else if c == '\u{0C}' {
        push_char(out, '\\');
        push_char(out, 'f');
    } else if c == '\n' {
        push_char(out, '\\');
        push_char(out, 'n');
    } else if c == '\r' {
        push_char(out, '\\');
        push_char(out, 'r');
    } else if c == '\t' {
        push_char(out, '\\');
        push_char(out, 't');
    } else if (c as u32) < 0x20 {
        let code = c as u32;
        push_char(out, '\\');
        push_char(out, 'u');
        push_char(out, '0');
        push_char(out, '0');
        push_char(out, hex_char(code / 16));
        push_char(out, hex_char(code % 16));
    } else {
        push_char(out, c);
    }
    assert(final(out)@ =~= old(out)@ + escape_char(c));
}

/// Appends a string as a JSON string literal.
pub fn write_quoted(s: &str, out: &mut String)
    ensures
        final(out)@ == old(out)@ + quoted(s@),
{
    let v = chars_of(s);
    push_char(out, '"');
    let mut i: usize = 0;
    while i < v.len()
        invariant
            i <= v@.len(),
            v@ == s@,
            out@ == old(out)@ + seq!['"'] + escaped(v@.take(i as int)),
        decreases v@.len() - i,
    {
        assert(v@.take(i + 1).drop_last() =~= v@.take(i as int));
        write_escaped_char(v[i], out);
        i = i + 1;
        assert(out@ =~= old(out)@ + seq!['"'] + escaped(v@.take(i as int)));
    }
    assert(v@.take(i as int) =~= s@);
    push_char(out, '"');
    assert(final(out)@ =~= old(out)@ + quoted(s@));
}

/// Appends the JSON text of a number.
fn write_number(n: &JsonNumber, out: &mut String)
    ensures
        final(out)@ == old(out)@ + number_text(n@),
{
    match n {
        JsonNumber::PosInt(v) => {
            write_decimal(*v, out);
        },
        JsonNumber::NegInt(v) => {
            let t = i64_to_text(*v);
            out.append(t.as_str());
        },
        JsonNumber::Float(t) => {
            out.append(t.as_str());
        },
    }
}

/// Appends the compact JSON text of a value.
#[verifier::loop_isolation(false)]
#[verifier::rlimit(60)]
pub fn write_json(j: &Json, out: &mut String)
    ensures
        final(out)@ == old(out)@ + json_text(j@),
    decreases j,
{
    match j {
        Json::Null => {
            push_char(out, 'n');
            push_char(out, 'u');
            push_char(out, 'l');
            push_char(out, 'l');
            assert(final(out)@ =~= old(out)@ + json_text(j@));
        },
        Json::Bool(b) => {
            if *b {
                push_char(out, 't');
                push_char(out, 'r');
                push_char(out, 'u');
                push_char(out, 'e');
            } else {
                push_char(out, 'f');
                push_char(out, 'a');
                push_char(out, 'l');
                push_char(out, 's');
                push_char(out, 'e');
            }
            assert(final(out)@ =~= old(out)@ + json_text(j@));
        },
        Json::Number(n) => {
            write_number(n, out);
        },
        Json::String(s) => {
            write_quoted(s.as_str(), out);
        },
        Json::Array(items) => {
            let ghost vs = j@->Array_0;
            push_char(out, '[');
            let mut i: usize = 0;
            while i < items.len()
                invariant
                    0 <= i <= items@.len(),
                    vs.len() == items@.len(),
                    out@ == old(out)@ + seq!['['] + items_text(vs.take(i as int)),
                decreases items@.len() - i,
            {
                assert(vs.take(i + 1).drop_last() =~= vs.take(i as int));
                if i > 0 {
                    push_char(out, ',');
                }
                proof {
                    assert(decreases_to!(*j => items@[i as int]));
                }
                write_json(&items[i], out);
                i = i + 1;
                assert(out@ =~= old(out)@ + seq!['['] + items_text(vs.take(i as int)));
            }
            assert(vs.take(i as int) =~= vs);
            push_char(out, ']');
            assert(final(out)@ =~= old(out)@ + json_text(j@));
        },
        Json::Object(fields) => {
            let ghost fs = j@->Object_0;
            push_char(out, '{');
            let mut i: usize = 0;
            while i < fields.len()
                invariant
                    0 <= i <= fields@.len(),
                    fs.len() == fields@.len(),
                    out@ == old(out)@ + seq!['{'] + fields_text(fs.take(i as int)),
                decreases fields@.len() - i,
            {
                assert(fs.take(i + 1).drop_last() =~= fs.take(i as int));
                if i > 0 {
                    push_char(out, ',');
                }
                write_quoted(fields[i].0.as_str(), out);
                push_char(out, ':');
                proof {
                    assert(decreases_to!(*j => fields@[i as int].1));
                }
                write_json(&fields[i].1, out);
                i = i + 1;
                assert(out@ =~= old(out)@ + seq!['{'] + fields_text(fs.take(i as int)));
            }
            assert(fs.take(i as int) =~= fs);
            push_char(out, '}');
            assert(final(out)@ =~= old(out)@ + json_text(j@));
        },
    }
}

/// The compact JSON text of a value (`Value::to_string`).
pub fn to_text(j: &Json) -> (s: String)
    ensures
        s@ == json_text(j@),
{
    let mut s = String::new();
    write_json(j, &mut s);
    assert(s@ =~= json_text(j@));
    s
}

// ---------------------------------------------------------------------------
// Object fields
// ---------------------------------------------------------------------------

/// `i` is the first position of a field named `key`.
pub open spec fn is_first_key(fields: Seq<(Seq<char>, JsonValue)>, key: Seq<char>, i: int) -> bool {
    &&& 0 <= i < fields.len()
    &&& fields[i].0 == key
    &&& forall|j: int| 0 <= j < i ==> fields[j].0 != key
}

/// The position of the first field named `key`, or -1 when there is none.
pub open spec fn key_index(fields: Seq<(Seq<char>, JsonValue)>, key: Seq<char>) -> int {
    if exists|i: int| is_first_key(fields, key, i) {
        choose|i: int| is_first_key(fields, key, i)
    } else {
        -1
    }
}

/// The value of the field named `key` (the first one, should names repeat).
pub open spec fn field_get(fields: Seq<(Seq<char>, JsonValue)>, key: Seq<char>) -> Option<
    JsonValue,
> {
    let i = key_index(fields, key);
    if i >= 0 {
        Some(fields[i].1)
    } else {
        None
    }
}

/// The fields with `key` set to `value`: the field named `key` gets the new
/// value in place, or a new field is added at the end.
pub open spec fn field_set(fields: Seq<(Seq<char>, JsonValue)>, key: Seq<char>, value: JsonValue) -> Seq<
    (Seq<char>, JsonValue),
> {
    let i = key_index(fields, key);
    if i >= 0 {
        fields.update(i, (key, value))
    } else {
        fields.push((key, value))
    }
}

/// A field named `key` at position `i` means that there is a first one.
pub proof fn lemma_first_key_exists(fields: Seq<(Seq<char>, JsonValue)>, key: Seq<char>, i: int)
    requires
        0 <= i < fields.len(),
        fields[i].0 == key,
    ensures
        exists|k: int| is_first_key(fields, key, k),
    decreases i,
{
    if forall|j: int| 0 <= j < i ==> fields[j].0 != key {
        assert(is_first_key(fields, key, i));
    } else {
        let j = choose|j: int| 0 <= j < i && fields[j].0 == key;
        lemma_first_key_exists(fields, key, j);
    }
}

/// `key_index` finds the first field named `key`, and finds nothing only
/// when no field has that name.
pub proof fn lemma_key_index(fields: Seq<(Seq<char>, JsonValue)>, key: Seq<char>)
    ensures
        key_index(fields, key) == -1 || is_first_key(fields, key, key_index(fields, key)),
        key_index(fields, key) == -1 <==> forall|j: int|
            0 <= j < fields.len() ==> #[trigger] fields[j].0 != key,
{
    if exists|j: int| 0 <= j < fields.len() && #[trigger] fields[j].0 == key {
        let j = choose|j: int| 0 <= j < fields.len() && #[trigger] fields[j].0 == key;
        lemma_first_key_exists(fields, key, j);
    }
}

/// The first field named `key` is at position `i`.
pub proof fn lemma_key_index_is(fields: Seq<(Seq<char>, JsonValue)>, key: Seq<char>, i: int)
    requires
        is_first_key(fields, key, i),
    ensures
        key_index(fields, key) == i,
{
    let k = choose|k: int| is_first_key(fields, key, k);
    assert(is_first_key(fields, key, k));
    if k < i {
        assert(fields[k].0 != key);
    }
    if i < k {
        assert(fields[i].0 != key);
    }
}

/// The value of a field is that of the first field with its name.
pub proof fn lemma_field_get_at(fields: Seq<(Seq<char>, JsonValue)>, key: Seq<char>, i: int)
    requires
        0 <= i < fields.len(),
        fields[i].0 == key,
        forall|j: int| 0 <= j < i ==> #[trigger] fields[j].0 != key,
    ensures
        field_get(fields, key) == Some(fields[i].1),
{
    lemma_key_index_is(fields, key, i);
}

/// A name that no field has has no value.
pub proof fn lemma_field_get_none(fields: Seq<(Seq<char>, JsonValue)>, key: Seq<char>)
    requires
        forall|j: int| 0 <= j < fields.len() ==> #[trigger] fields[j].0 != key,
    ensures
        field_get(fields, key) is None,
{
    lemma_key_index(fields, key);
}

/// Setting a field that no field has yet adds it at the end.
pub proof fn lemma_set_new_field(fields: Seq<(Seq<char>, JsonValue)>, key: Seq<char>, value: JsonValue)
    requires
        forall|j: int| 0 <= j < fields.len() ==> #[trigger] fields[j].0 != key,
    ensures
        field_set(fields, key, value) == fields.push((key, value)),
{
    lemma_key_index(fields, key);
}

/// Reading a field right after setting it gives the value that was set.
pub proof fn lemma_get_after_set(fields: Seq<(Seq<char>, JsonValue)>, key: Seq<char>, value: JsonValue)
    ensures
        field_get(field_set(fields, key, value), key) == Some(value),
{
    lemma_key_index(fields, key);
    let i = key_index(fields, key);
    let after = field_set(fields, key, value);
    if i >= 0 {
        assert(is_first_key(after, key, i));
        lemma_key_index_is(after, key, i);
    } else {
        assert(is_first_key(after, key, fields.len() as int));
        lemma_key_index_is(after, key, fields.len() as int);
    }
}

/// Setting a field leaves every field of another name as it was.
pub proof fn lemma_get_other_after_set(
    fields: Seq<(Seq<char>, JsonValue)>,
    key: Seq<char>,
    other: Seq<char>,
    value: JsonValue,
)
    requires
        other != key,
    ensures
        field_get(field_set(fields, key, value), other) == field_get(fields, other),
{
    lemma_key_index(fields, key);
    lemma_key_index(fields, other);
    let after = field_set(fields, key, value);
    lemma_key_index(after, other);
    let o = key_index(fields, other);
    if o >= 0 {
        assert(is_first_key(after, other, o));
        lemma_key_index_is(after, other, o);
    } else {
        assert forall|j: int| 0 <= j < after.len() implies #[trigger] after[j].0 != other by {
            if j < fields.len() {
                assert(fields[j].0 != other);
            }
        }
    }
}

/// Setting a field twice is the same as setting it once to the second
/// value: the later write wins and leaves no trace of the earlier one.
pub proof fn lemma_set_twice(
    fields: Seq<(Seq<char>, JsonValue)>,
    key: Seq<char>,
    first: JsonValue,
    second: JsonValue,
)
    ensures
        field_set(field_set(fields, key, first), key, second) == field_set(fields, key, second),
{
    lemma_key_index(fields, key);
    let i = key_index(fields, key);
    let once = field_set(fields, key, first);
    if i >= 0 {
        assert(is_first_key(once, key, i));
        lemma_key_index_is(once, key, i);
        assert(field_set(once, key, second) =~= field_set(fields, key, second));
    } else {
        assert forall|j: int| 0 <= j < fields.len() implies #[trigger] once[j].0 != key by {
            assert(fields[j].0 != key);
        }
        assert(is_first_key(once, key, fields.len() as int));
        lemma_key_index_is(once, key, fields.len() as int);
        assert(field_set(once, key, second) =~= field_set(fields, key, second));
    }
}

impl JsonValue {
    /// The value of a field of an object; nothing for other values.
    pub open spec fn get(self, key: Seq<char>) -> Option<JsonValue> {
        match self {
            JsonValue::Object(fields) => field_get(fields, key),
            _ => None,
        }
    }

    /// The value as a non-negative integer, if it is one.
    pub open spec fn as_u64(self) -> Option<u64> {
        match self {
            JsonValue::Number(NumberValue::PosInt(n)) => Some(n),
            JsonValue::Number(NumberValue::NegInt(n)) => if n >= 0 {
                Some(n as u64)
            } else {
                None
            },
            _ => None,
        }
    }
}

/// The view of an optional reference to a JSON value.
pub open spec fn opt_view(o: Option<&Json>) -> Option<JsonValue> {
    match o {
        Some(j) => Some(j@),
        None => None,
    }
}

impl Json {
    /// A JSON string holding `s`.
    pub fn str(s: &str) -> (j: Json)
        ensures
            j@ == JsonValue::String(s@),
    {
        Json::String(s.to_owned())
    }

    /// A JSON number holding `n`.
    pub fn uint(n: u64) -> (j: Json)
        ensures
            j@ == JsonValue::Number(NumberValue::PosInt(n)),
    {
        Json::Number(JsonNumber::PosInt(n))
    }

    /// An object without fields.
    pub fn empty_object() -> (j: Json)
        ensures
            j@ == JsonValue::Object(Seq::empty()),
    {
        let j = Json::Object(Vec::new());
        assert(j@->Object_0 =~= Seq::empty());
        j
    }

    /// The value of the field named `key` (`Value::get` with a `&str` index):
    /// nothing when the value is not an object or has no such field.
    pub fn get(&self, key: &str) -> (r: Option<&Json>)
        ensures
            opt_view(r) == self@.get(key@),
    {
        match self {
            Json::Object(fields) => {
                let ghost fs = self@->Object_0;
                let k = key.to_owned();
                let mut i: usize = 0;
                while i < fields.len()
                    invariant
                        i <= fields@.len(),
                        fs.len() == fields@.len(),
                        *self == Json::Object(*fields),
                        fs == self@->Object_0,
                        k@ == key@,
                        forall|j: int| 0 <= j < i ==> fs[j].0 != key@,
                    decreases fields@.len() - i,
                {
                    if fields[i].0 == k {
                        assert(is_first_key(fs, key@, i as int));
                        proof {
                            lemma_key_index_is(fs, key@, i as int);
                        }
                        return Some(&fields[i].1);
                    }
                    i = i + 1;
                }
                proof {
                    lemma_key_index(fs, key@);
                }
                None
            },
            _ => None,
        }
    }

    /// The text of a JSON string; nothing for other values.
    pub fn as_str(&self) -> (r: Option<&String>)
        ensures
            match self@ {
                JsonValue::String(s) => r matches Some(t) && t@ == s,
                _ => r is None,
            },
    {
        match self {
            Json::String(s) => Some(s),
            _ => None,
        }
    }

    /// The items of a JSON array; nothing for other values.
    pub fn as_array(&self) -> (r: Option<&Vec<Json>>)
        ensures
            match self@ {
                JsonValue::Array(items) => r matches Some(v) && items_view(v@) == items,
                _ => r is None,
            },
    {
        match self {
            Json::Array(items) => {
                proof {
                    lemma_array_view(*items);
                }
                Some(items)
            },
            _ => None,
        }
    }

    /// The fields of a JSON object; nothing for other values.
    pub fn as_object(&self) -> (r: Option<&Vec<(String, Json)>>)
        ensures
            match self@ {
                JsonValue::Object(fields) => r matches Some(v) && fields_view(v@) == fields,
                _ => r is None,
            },
    {
        match self {
            Json::Object(fields) => {
                proof {
                    lemma_object_view(*fields);
                }
                Some(fields)
            },
            _ => None,
        }
    }

    /// The value as a non-negative integer, if it is one (`Value::as_u64`).
    pub fn as_u64(&self) -> (r: Option<u64>)
        ensures
            r == self@.as_u64(),
    {
        match self {
            Json::Number(JsonNumber::PosInt(n)) => Some(*n),
            Json::Number(JsonNumber::NegInt(n)) => {
                if *n >= 0 {
                    Some(*n as u64)
                } else {
                    None
                }
            },
            _ => None,
        }
    }

    /// Sets the field `key` of an object to `value` (`map.insert`): an
    /// existing field of that name gets the new value in place, otherwise
    /// the field is added at the end.
    pub fn insert(&mut self, key: String, value: Json)
        requires
            *old(self) is Object,
        ensures
            final(self)@ == JsonValue::Object(
                field_set(old(self)@->Object_0, key@, value@),
            ),
    {
        let ghost key_view = key@;
        let ghost value_view = value@;
        let ghost before = old(self)@->Object_0;
        match self {
            Json::Object(fields) => {
                proof {
                    lemma_object_view(*fields);
                    lemma_key_index(before, key_view);
                }
                let mut i: usize = 0;
                while i < fields.len() && !(fields[i].0 == key)
                    invariant
                        i <= fields@.len(),
                        before == fields_view(fields@),
                        forall|j: int| 0 <= j < i ==> before[j].0 != key_view,
                        key@ == key_view,
                    decreases fields@.len() - i,
                {
                    i = i + 1;
                }
                if i < fields.len() {
                    assert(before[i as int].0 == key_view);
                    assert(is_first_key(before, key_view, i as int));
                    proof {
                        lemma_key_index_is(before, key_view, i as int);
                    }
                    fields.set(i, (key, value));
                    assert(fields_view(fields@) =~= field_set(before, key_view, value_view));
                } else {
                    fields.push((key, value));
                    assert(fields_view(fields@) =~= field_set(before, key_view, value_view));
                }
                proof {
                    lemma_object_view(*fields);
                }
            },
            _ => {},
        }
    }
}

} // verus!
