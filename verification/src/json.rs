//! A plain value tree for the JSON bodies the daemon and the settings
//! file carry.
//!
//! The shell that performs I/O turns raw bytes into this tree and back;
//! the library reads and builds configuration, settings and proxy data
//! through it with exact contracts. Numbers are modelled as the unsigned
//! integers the control data actually holds; anything else a peer might
//! send is mapped to `Null` by the shell and then rejected by the typed
//! lookups below.

use vstd::prelude::*;

use crate::text::spec_dec_digits;
use crate::text::string_push;
use crate::text::u64_to_string;

verus! {

/// A JSON value over plain data.
///
/// An object keeps its fields in order; lookups take the first binding
/// of a key, so a duplicate key behaves as it would in a map built
/// front to back.
pub enum JsonValue {
    Null,
    Bool(bool),
    Num(u64),
    Str(String),
    Arr(Vec<JsonValue>),
    Obj(Vec<(String, JsonValue)>),
}

/// The first value bound to `key`, if any.
pub open spec fn spec_get(fields: Seq<(String, JsonValue)>, key: Seq<char>) -> Option<JsonValue>
    decreases fields.len(),
{
    if fields.len() == 0 {
        None
    } else if fields[0].0@ == key {
        Some(fields[0].1)
    } else {
        spec_get(fields.drop_first(), key)
    }
}

proof fn lemma_get_step(fields: Seq<(String, JsonValue)>, key: Seq<char>, i: int)
    requires
        0 <= i < fields.len(),
        fields[i].0@ != key,
    ensures
        spec_get(fields.subrange(i, fields.len() as int), key) == spec_get(
            fields.subrange(i + 1, fields.len() as int),
            key,
        ),
{
    let tail = fields.subrange(i, fields.len() as int);
    assert(tail.drop_first() =~= fields.subrange(i + 1, fields.len() as int));
}

/// Whether two strings hold the same characters.
pub fn str_eq(a: &String, b: &str) -> (r: bool)
    ensures
        r == (a@ == b@),
{
    let bs: String = String::from_str(b);
    *a == bs
}

/// Look a key up in an object's fields: the first binding wins.
pub fn obj_get<'a>(fields: &'a Vec<(String, JsonValue)>, key: &str) -> (r: Option<&'a JsonValue>)
    ensures
        match r {
            Some(v) => spec_get(fields@, key@) == Some(*v),
            None => spec_get(fields@, key@) is None,
        },
{
    let n = fields.len();
    assert(fields@.subrange(0, n as int) =~= fields@);
    for i in 0..n
        invariant
            n == fields@.len(),
            spec_get(fields@, key@) == spec_get(fields@.subrange(i as int, n as int), key@),
    {
        assert(fields@.subrange(i as int, n as int)[0] == fields@[i as int]);
        if str_eq(&fields[i].0, key) {
            return Some(&fields[i].1);
        }
        proof {
            lemma_get_step(fields@, key@, i as int);
        }
    }
    assert(fields@.subrange(n as int, n as int).len() == 0);
    None
}

/// The string held by `v`, if `v` is a string.
pub open spec fn spec_as_str(v: JsonValue) -> Option<String> {
    match v {
        JsonValue::Str(s) => Some(s),
        _ => None,
    }
}

/// The number held by `v`, if `v` is a number.
pub open spec fn spec_as_num(v: JsonValue) -> Option<u64> {
    match v {
        JsonValue::Num(n) => Some(n),
        _ => None,
    }
}

/// The boolean held by `v`, if `v` is a boolean.
pub open spec fn spec_as_bool(v: JsonValue) -> Option<bool> {
    match v {
        JsonValue::Bool(b) => Some(b),
        _ => None,
    }
}

/// The string value bound to `key`, if the field exists and is a string.
pub open spec fn spec_str_field(fields: Seq<(String, JsonValue)>, key: Seq<char>) -> Option<
    String,
> {
    match spec_get(fields, key) {
        Some(v) => spec_as_str(v),
        None => None,
    }
}

/// The numeric value bound to `key`, if the field exists and is a number.
pub open spec fn spec_num_field(fields: Seq<(String, JsonValue)>, key: Seq<char>) -> Option<u64> {
    match spec_get(fields, key) {
        Some(v) => spec_as_num(v),
        None => None,
    }
}

/// The boolean value bound to `key`, if the field exists and is a boolean.
pub open spec fn spec_bool_field(fields: Seq<(String, JsonValue)>, key: Seq<char>) -> Option<
    bool,
> {
    match spec_get(fields, key) {
        Some(v) => spec_as_bool(v),
        None => None,
    }
}

/// Fetch a string field.
pub fn str_field(fields: &Vec<(String, JsonValue)>, key: &str) -> (r: Option<String>)
    ensures
        r == spec_str_field(fields@, key@),
{
    match obj_get(fields, key) {
        Some(JsonValue::Str(s)) => Some(s.clone()),
        _ => None,
    }
}

/// Fetch a numeric field.
pub fn num_field(fields: &Vec<(String, JsonValue)>, key: &str) -> (r: Option<u64>)
    ensures
        r == spec_num_field(fields@, key@),
{
    match obj_get(fields, key) {
        Some(JsonValue::Num(n)) => Some(*n),
        _ => None,
    }
}

/// Fetch a boolean field.
pub fn bool_field(fields: &Vec<(String, JsonValue)>, key: &str) -> (r: Option<bool>)
    ensures
        r == spec_bool_field(fields@, key@),
{
    match obj_get(fields, key) {
        Some(JsonValue::Bool(b)) => Some(*b),
        _ => None,
    }
}

/// The lower-case hexadecimal digit for `d`.
pub open spec fn spec_hex_digit(d: int) -> char {
    if d == 0 {
        '0'
    } else if d == 1 {
        '1'
    } else if d == 2 {
        '2'
    } else if d == 3 {
        '3'
    } else if d == 4 {
        '4'
    } else if d == 5 {
        '5'
    } else if d == 6 {
        '6'
    } else if d == 7 {
        '7'
    } else if d == 8 {
        '8'
    } else if d == 9 {
        '9'
    } else if d == 10 {
        'a'
    } else if d == 11 {
        'b'
    } else if d == 12 {
        'c'
    } else if d == 13 {
        'd'
    } else if d == 14 {
        'e'
    } else {
        'f'
    }
}

/// How one character appears inside a JSON string literal: quote,
/// backslash and the common control characters get their two-character
/// escapes, other control characters a `\u00..` escape, everything
/// else stands as it is.
pub open spec fn spec_escaped_char(c: char) -> Seq<char> {
    if c == '"' {
        "\\\""@
    } else if c == '\\' {
        "\\\\"@
    } else if c == '\n' {
        "\\n"@
    } else if c == '\r' {
        "\\r"@
    } else if c == '\t' {
        "\\t"@
    } else if (c as u32) < 0x20 {
        "\\u00"@ + seq![
            spec_hex_digit(((c as u32) / 16) as int),
            spec_hex_digit(((c as u32) % 16) as int),
        ]
    } else {
        seq![c]
    }
}

/// A whole string, escaped.
pub open spec fn spec_escaped(s: Seq<char>) -> Seq<char>
    decreases s.len(),
{
    if s.len() == 0 {
        Seq::empty()
    } else {
        spec_escaped_char(s[0]) + spec_escaped(s.drop_first())
    }
}

/// The JSON text of a value: no whitespace, object fields in order,
/// numbers in plain decimal.
pub open spec fn spec_json_text(v: JsonValue) -> Seq<char>
    decreases v,
{
    match v {
        JsonValue::Null => "null"@,
        JsonValue::Bool(b) => if b {
            "true"@
        } else {
            "false"@
        },
        JsonValue::Num(n) => spec_dec_digits(n as int),
        JsonValue::Str(s) => seq!['"'] + spec_escaped(s@) + seq!['"'],
        JsonValue::Arr(items) => seq!['['] + spec_json_items(items@) + seq![']'],
        JsonValue::Obj(fields) => seq!['{'] + spec_json_fields(fields@) + seq!['}'],
    }
}

/// The comma-separated texts of an array's elements.
pub open spec fn spec_json_items(items: Seq<JsonValue>) -> Seq<char>
    decreases items,
{
    if items.len() == 0 {
        Seq::empty()
    } else if items.len() == 1 {
        spec_json_text(items[0])
    } else {
        spec_json_text(items[0]) + seq![','] + spec_json_items(items.drop_first())
    }
}

/// The comma-separated texts of an object's fields.
pub open spec fn spec_json_fields(fields: Seq<(String, JsonValue)>) -> Seq<char>
    decreases fields,
{
    if fields.len() == 0 {
        Seq::empty()
    } else {
        let head = seq!['"'] + spec_escaped(fields[0].0@) + seq!['"', ':'] + spec_json_text(
            fields[0].1,
        );
        if fields.len() == 1 {
            head
        } else {
            head + seq![','] + spec_json_fields(fields.drop_first())
        }
    }
}

proof fn lemma_escaped_snoc(s: Seq<char>, c: char)
    ensures
        spec_escaped(s.push(c)) == spec_escaped(s) + spec_escaped_char(c),
    decreases s.len(),
{
    if s.len() == 0 {
        assert(s.push(c)[0] == c);
        assert(s.push(c).drop_first() =~= Seq::<char>::empty());
        assert(spec_escaped(s.push(c)) =~= spec_escaped_char(c) + spec_escaped(
            Seq::<char>::empty(),
        ));
        assert(spec_escaped(s.push(c)) =~= spec_escaped_char(c));
        assert(spec_escaped(s) + spec_escaped_char(c) =~= spec_escaped_char(c));
    } else {
        assert(s.push(c).drop_first() =~= s.drop_first().push(c));
        lemma_escaped_snoc(s.drop_first(), c);
        assert(spec_escaped(s.push(c)) =~= spec_escaped(s) + spec_escaped_char(c));
    }
}

proof fn lemma_json_items_snoc(items: Seq<JsonValue>, x: JsonValue)
    ensures
        items.len() == 0 ==> spec_json_items(items.push(x)) == spec_json_text(x),
        items.len() > 0 ==> spec_json_items(items.push(x)) == spec_json_items(items) + seq![',']
            + spec_json_text(x),
    decreases items.len(),
{
    if items.len() == 0 {
        assert(items.push(x)[0] == x);
    } else {
        assert(items.push(x).drop_first() =~= items.drop_first().push(x));
        lemma_json_items_snoc(items.drop_first(), x);
        if items.len() == 1 {
            assert(spec_json_items(items.push(x)) =~= spec_json_items(items) + seq![',']
                + spec_json_text(x));
        } else {
            assert(spec_json_items(items.push(x)) =~= spec_json_items(items) + seq![',']
                + spec_json_text(x));
        }
    }
}

proof fn lemma_json_fields_snoc(fields: Seq<(String, JsonValue)>, x: (String, JsonValue))
    ensures
        fields.len() == 0 ==> spec_json_fields(fields.push(x)) == seq!['"'] + spec_escaped(x.0@)
            + seq!['"', ':'] + spec_json_text(x.1),
        fields.len() > 0 ==> spec_json_fields(fields.push(x)) == spec_json_fields(fields)
            + seq![','] + seq!['"'] + spec_escaped(x.0@) + seq!['"', ':'] + spec_json_text(x.1),
    decreases fields.len(),
{
    if fields.len() == 0 {
        assert(fields.push(x)[0] == x);
        assert(spec_json_fields(fields.push(x)) =~= seq!['"'] + spec_escaped(x.0@) + seq![
            '"',
            ':',
        ] + spec_json_text(x.1));
    } else {
        assert(fields.push(x).drop_first() =~= fields.drop_first().push(x));
        lemma_json_fields_snoc(fields.drop_first(), x);
        assert(spec_json_fields(fields.push(x)) =~= spec_json_fields(fields) + seq![','] + seq![
            '"',
        ] + spec_escaped(x.0@) + seq!['"', ':'] + spec_json_text(x.1));
    }
}

fn hex_digit(d: u32) -> (r: char)
    requires
        d < 16,
    ensures
        r == spec_hex_digit(d as int),
{
    match d {
        0 => '0',
        1 => '1',
        2 => '2',
        3 => '3',
        4 => '4',
        5 => '5',
        6 => '6',
        7 => '7',
        8 => '8',
        9 => '9',
        10 => 'a',
        11 => 'b',
        12 => 'c',
        13 => 'd',
        14 => 'e',
        _ => 'f',
    }
}

/// Append one character of a JSON string literal, escaped.
fn write_escaped_char(out: &mut String, c: char)
    ensures
        final(out)@ == old(out)@ + spec_escaped_char(c),
{
    if c == '"' {
        out.append("\\\"");
    } else if c == '\\' {
        out.append("\\\\");
    } else if c == '\n' {
        out.append("\\n");
    } else if c == '\r' {
        out.append("\\r");
    } else if c == '\t' {
        out.append("\\t");
    } else if (c as u32) < 0x20 {
        out.append("\\u00");
        string_push(out, hex_digit((c as u32) / 16));
        string_push(out, hex_digit((c as u32) % 16));
        proof {
            assert(out@ =~= old(out)@ + spec_escaped_char(c));
        }
    } else {
        string_push(out, c);
        proof {
            assert(out@ =~= old(out)@ + spec_escaped_char(c));
        }
    }
}

/// Append a whole string, escaped.
fn write_escaped(out: &mut String, s: &str)
    ensures
        final(out)@ == old(out)@ + spec_escaped(s@),
{
    let ghost base = out@;
    let n = s.unicode_len();
    let mut i: usize = 0;
    while i < n
        invariant
            i <= n,
            n == s@.len(),
            out@ == base + spec_escaped(s@.take(i as int)),
        decreases n - i,
    {
        let c = s.get_char(i);
        write_escaped_char(out, c);
        proof {
            assert(s@.take(i + 1) =~= s@.take(i as int).push(c));
            lemma_escaped_snoc(s@.take(i as int), c);
            assert(out@ =~= base + spec_escaped(s@.take(i + 1)));
        }
        i = i + 1;
    }
    proof {
        assert(s@.take(n as int) =~= s@);
    }
}

/// Append the JSON text of a value.
fn write_json(out: &mut String, v: &JsonValue)
    ensures
        final(out)@ == old(out)@ + spec_json_text(*v),
    decreases *v,
{
    match v {
        JsonValue::Null => {
            out.append("null");
        },
        JsonValue::Bool(b) => {
            if *b {
                out.append("true");
            } else {
                out.append("false");
            }
        },
        JsonValue::Num(n) => {
            let digits = u64_to_string(*n);
            out.append(digits.as_str());
        },
        JsonValue::Str(s) => {
            string_push(out, '"');
            write_escaped(out, s.as_str());
            string_push(out, '"');
            proof {
                assert(out@ =~= old(out)@ + (seq!['"'] + spec_escaped(s@) + seq!['"']));
            }
        },
        JsonValue::Arr(items) => {
            string_push(out, '[');
            let ghost base = out@;
            let n = items.len();
            let mut i: usize = 0;
            while i < n
                invariant
                    *v == JsonValue::Arr(*items),
                    i <= n,
                    n == items@.len(),
                    out@ == base + spec_json_items(items@.take(i as int)),
                decreases n - i,
            {
                if i > 0 {
                    string_push(out, ',');
                }
                proof {
                    assert(decreases_to!(*v => v->Arr_0));
                    assert(decreases_to!(v->Arr_0 => v->Arr_0@));
                    assert(decreases_to!(v->Arr_0@ => v->Arr_0@[i as int]));
                    assert(v->Arr_0@ == items@);
                }
                write_json(out, &items[i]);
                proof {
                    assert(items@.take(i + 1) =~= items@.take(i as int).push(items@[i as int]));
                    lemma_json_items_snoc(items@.take(i as int), items@[i as int]);
                    if i == 0 {
                        assert(out@ =~= base + spec_json_items(items@.take(i + 1)));
                    } else {
                        assert(out@ =~= base + spec_json_items(items@.take(i + 1)));
                    }
                }
                i = i + 1;
            }
            string_push(out, ']');
            proof {
                assert(items@.take(n as int) =~= items@);
                assert(out@ =~= old(out)@ + (seq!['['] + spec_json_items(items@) + seq![']']));
            }
        },
        JsonValue::Obj(fields) => {
            string_push(out, '{');
            let ghost base = out@;
            let n = fields.len();
            let mut i: usize = 0;
            while i < n
                invariant
                    *v == JsonValue::Obj(*fields),
                    i <= n,
                    n == fields@.len(),
                    out@ == base + spec_json_fields(fields@.take(i as int)),
                decreases n - i,
            {
                if i > 0 {
                    string_push(out, ',');
                }
                string_push(out, '"');
                let entry = &fields[i];
                write_escaped(out, entry.0.as_str());
                string_push(out, '"');
                string_push(out, ':');
                proof {
                    assert(decreases_to!(*v => v->Obj_0));
                    assert(decreases_to!(v->Obj_0 => v->Obj_0@));
                    assert(decreases_to!(v->Obj_0@ => v->Obj_0@[i as int]));
                    assert(decreases_to!(v->Obj_0@[i as int] => v->Obj_0@[i as int].1));
                    assert(v->Obj_0@ == fields@);
                }
                write_json(out, &entry.1);
                proof {
                    assert(fields@.take(i + 1) =~= fields@.take(i as int).push(
                        fields@[i as int],
                    ));
                    lemma_json_fields_snoc(fields@.take(i as int), fields@[i as int]);
                    assert(out@ =~= base + spec_json_fields(fields@.take(i + 1)));
                }
                i = i + 1;
            }
            string_push(out, '}');
            proof {
                assert(fields@.take(n as int) =~= fields@);
                assert(out@ =~= old(out)@ + (seq!['{'] + spec_json_fields(fields@) + seq![
                    '}',
                ]));
            }
        },
    }
}

/// Render a value as compact JSON text: the bytes the client sends or
/// writes are exactly this rendering.
pub fn json_to_string(v: &JsonValue) -> (r: String)
    ensures
        r@ == spec_json_text(*v),
{
    let mut out = String::new();
    write_json(&mut out, v);
    out
}

} // verus!
