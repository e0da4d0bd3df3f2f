//! The serialization layer: renders span and event payloads as the portable
//! JSON text handed to the foreign callback object.
//!
//! Every encoder is a pure function whose output is pinned, character for
//! character, by a spec function over the payload's mathematical view:
//!
//! - event: `{"message": m, "metadata": {...}, "field": value, ...}`
//! - span attributes: `{"metadata": {...}, "field": value, ...}`
//! - metadata: `{"level": l, "name": n, "fields": ["f", ...]}`
//! - record values: `{"field": value, ...}`
//! - span id: the span's numeric identifier in decimal

use vstd::prelude::*;

use crate::data::EventData;
use crate::data::EventDataV;
use crate::data::FieldValue;
use crate::data::FieldValueV;
use crate::data::Level;
use crate::data::Metadata;
use crate::data::MetadataV;
use crate::data::RecordValues;
use crate::data::RecordValuesV;
use crate::data::SpanAttributes;
use crate::data::SpanAttributesV;
use crate::data::spec_pairs;

verus! {

/// Decimal digit character for a value below ten.
pub open spec fn spec_digit_char(d: nat) -> char
    recommends
        d < 10,
{
    ((d + 48) as u32) as char
}

/// Lower-case hexadecimal digit character for a value below sixteen.
pub open spec fn spec_hex_char(d: nat) -> char
    recommends
        d < 16,
{
    if d < 10 {
        spec_digit_char(d)
    } else {
        ((d + 87) as u32) as char
    }
}

/// Decimal encoding of an unsigned integer, most significant digit first.
pub open spec fn spec_u64_decimal(n: nat) -> Seq<char>
    decreases n,
{
    if n < 10 {
        seq![spec_digit_char(n)]
    } else {
        spec_u64_decimal(n / 10).push(spec_digit_char(n % 10))
    }
}

/// Decimal encoding of a signed integer: a minus sign before the magnitude.
pub open spec fn spec_i64_decimal(n: int) -> Seq<char> {
    if n < 0 {
        seq!['-'] + spec_u64_decimal((-n) as nat)
    } else {
        spec_u64_decimal(n as nat)
    }
}

/// JSON escape of a single character inside a quoted string: quote and
/// backslash get a backslash, the named control characters their short
/// escape, all other control characters a `\u00..` escape.
pub open spec fn spec_escape_char(c: char) -> Seq<char> {
    if c == '"' {
        seq!['\\', '"']
    } else if c == '\\' {
        seq!['\\', '\\']
    } else if c == '\u{8}' {
        seq!['\\', 'b']
    } else if c == '\u{c}' {
        seq!['\\', 'f']
    } else if c == '\n' {
        seq!['\\', 'n']
    } else if c == '\r' {
        seq!['\\', 'r']
    } else if c == '\t' {
        seq!['\\', 't']
    } else if (c as u32) < 32 {
        seq!['\\', 'u', '0', '0', spec_hex_char((c as u32 / 16) as nat), spec_hex_char(
            (c as u32 % 16) as nat,
        )]
    } else {
        seq![c]
    }
}

/// JSON escape of a whole character sequence.
pub open spec fn spec_escape(s: Seq<char>) -> Seq<char>
    decreases s.len(),
{
    if s.len() == 0 {
        Seq::empty()
    } else {
        spec_escape(s.drop_last()) + spec_escape_char(s.last())
    }
}

/// A JSON string literal: the escaped characters between double quotes.
pub open spec fn spec_json_string(s: Seq<char>) -> Seq<char> {
    seq!['"'] + spec_escape(s) + seq!['"']
}

/// The JSON text of one field value.
pub open spec fn spec_value_json(v: FieldValueV) -> Seq<char> {
    match v {
        FieldValueV::U64(n) => spec_u64_decimal(n as nat),
        FieldValueV::I64(n) => spec_i64_decimal(n as int),
        FieldValueV::Bool(b) => if b {
            seq!['t', 'r', 'u', 'e']
        } else {
            seq!['f', 'a', 'l', 's', 'e']
        },
        FieldValueV::Str(s) => spec_json_string(s),
    }
}

/// A comma-separated list of JSON strings, without brackets.
pub open spec fn spec_string_list(names: Seq<Seq<char>>) -> Seq<char>
    decreases names.len(),
{
    if names.len() == 0 {
        Seq::empty()
    } else if names.len() == 1 {
        spec_json_string(names[0])
    } else {
        spec_string_list(names.drop_last()) + seq![','] + spec_json_string(names.last())
    }
}

/// One `"key":value` member.
pub open spec fn spec_kv(k: Seq<char>, v: FieldValueV) -> Seq<char> {
    spec_json_string(k) + seq![':'] + spec_value_json(v)
}

/// Members each preceded by a comma, as appended after an object's first
/// member.
pub open spec fn spec_kv_tail(items: Seq<(Seq<char>, FieldValueV)>) -> Seq<char>
    decreases items.len(),
{
    if items.len() == 0 {
        Seq::empty()
    } else {
        spec_kv_tail(items.drop_last()) + seq![','] + spec_kv(items.last().0, items.last().1)
    }
}

/// Members separated by commas, as the sole contents of an object.
pub open spec fn spec_kv_join(items: Seq<(Seq<char>, FieldValueV)>) -> Seq<char>
    decreases items.len(),
{
    if items.len() == 0 {
        Seq::empty()
    } else if items.len() == 1 {
        spec_kv(items[0].0, items[0].1)
    } else {
        spec_kv_join(items.drop_last()) + seq![','] + spec_kv(items.last().0, items.last().1)
    }
}

/// The level names used in payload text.
pub open spec fn spec_level_chars(l: Level) -> Seq<char> {
    match l {
        Level::Trace => "TRACE"@,
        Level::Debug => "DEBUG"@,
        Level::Info => "INFO"@,
        Level::Warn => "WARN"@,
        Level::Error => "ERROR"@,
    }
}

/// The JSON text of a metadata record.
pub open spec fn spec_metadata_json(m: MetadataV) -> Seq<char> {
    "{\"level\":\""@ + spec_level_chars(m.level) + "\",\"name\":"@ + spec_json_string(m.name)
        + ",\"fields\":["@ + spec_string_list(m.field_names) + "]}"@
}

/// The JSON text of an event payload.
pub open spec fn spec_event_json(e: EventDataV) -> Seq<char> {
    "{\"message\":"@ + spec_json_string(e.message) + ",\"metadata\":"@ + spec_metadata_json(
        e.metadata,
    ) + spec_kv_tail(e.values) + "}"@
}

/// The JSON text of a span-attributes payload.
pub open spec fn spec_span_attributes_json(a: SpanAttributesV) -> Seq<char> {
    "{\"metadata\":"@ + spec_metadata_json(a.metadata) + spec_kv_tail(a.values) + "}"@
}

/// The JSON text of a record-values payload.
pub open spec fn spec_record_values_json(v: RecordValuesV) -> Seq<char> {
    "{"@ + spec_kv_join(v.values) + "}"@
}

/// The text of a span identifier.
pub open spec fn spec_span_id_text(id: u64) -> Seq<char> {
    spec_u64_decimal(id as nat)
}

/// Relies on `str::chars` (collected into a `Vec`): yields exactly the
/// string's characters in order.
#[verifier::external_body]
fn str_chars(s: &str) -> (r: Vec<char>)
    ensures
        r@ == s@,
{
    s.chars().collect()
}

/// Relies on `String`'s `FromIterator` over the characters of a slice: the
/// collected string holds exactly those characters in order.
#[verifier::external_body]
fn chars_string(v: &Vec<char>) -> (r: String)
    ensures
        r@ == v@,
{
    v.iter().collect()
}

/// Append every character of `s` to `out`.
fn push_chars(out: &mut Vec<char>, s: &Vec<char>)
    ensures
        final(out)@ == old(out)@ + s@,
{
    let mut i: usize = 0;
    while i < s.len()
        invariant
            i <= s.len(),
            out@ == old(out)@ + s@.take(i as int),
        decreases s.len() - i,
    {
        out.push(s[i]);
        proof {
            assert(s@.take(i as int + 1) =~= s@.take(i as int).push(s@[i as int]));
        }
        i += 1;
    }
    proof {
        assert(s@.take(s@.len() as int) =~= s@);
    }
}

/// Append the characters of a string slice to `out`.
fn push_lit(out: &mut Vec<char>, s: &str)
    ensures
        final(out)@ == old(out)@ + s@,
{
    let v = str_chars(s);
    push_chars(out, &v);
}

/// Render an unsigned integer as its decimal digits.
pub fn u64_decimal_chars(n: u64) -> (r: Vec<char>)
    ensures
        r@ == spec_u64_decimal(n as nat),
    decreases n,
{
    let d: u8 = (n % 10) as u8;
    let c: char = (d + 48) as char;
    if n < 10 {
        let mut out: Vec<char> = Vec::new();
        out.push(c);
        proof {
            assert(out@ =~= seq![spec_digit_char(n as nat)]);
        }
        out
    } else {
        let mut out = u64_decimal_chars(n / 10);
        out.push(c);
        out
    }
}

/// Append an unsigned integer in decimal.
fn push_u64(out: &mut Vec<char>, n: u64)
    ensures
        final(out)@ == old(out)@ + spec_u64_decimal(n as nat),
{
    let v = u64_decimal_chars(n);
    push_chars(out, &v);
}

/// Append a signed integer in decimal.
fn push_i64(out: &mut Vec<char>, n: i64)
    ensures
        final(out)@ == old(out)@ + spec_i64_decimal(n as int),
{
    if n >= 0 {
        push_u64(out, n as u64);
    } else {
        let m: u64 = if n == i64::MIN {
            9223372036854775808
        } else {
            (-n) as u64
        };
        assert(m as nat == (-(n as int)) as nat);
        out.push('-');
        let v = u64_decimal_chars(m);
        push_chars(out, &v);
        proof {
            assert(old(out)@ + (seq!['-'] + spec_u64_decimal(m as nat)) =~= old(out)@.push('-')
                + spec_u64_decimal(m as nat));
        }
    }
}

/// Lower-case hexadecimal digit.
fn hex_char(d: u8) -> (c: char)
    requires
        d < 16,
    ensures
        c == spec_hex_char(d as nat),
{
    if d < 10 {
        (d + 48) as char
    } else {
        (d + 87) as char
    }
}

/// Append the escape of one character.
fn push_escape_char(out: &mut Vec<char>, c: char)
    ensures
        final(out)@ == old(out)@ + spec_escape_char(c),
{
    if c == '"' {
        out.push('\\');
        out.push('"');
        proof {
            assert(out@ =~= old(out)@ + spec_escape_char(c));
        }
    } else if c == '\\' {
        out.push('\\');
        out.push('\\');
        proof {
            assert(out@ =~= old(out)@ + spec_escape_char(c));
        }
    } else if c == '\u{8}' {
        out.push('\\');
        out.push('b');
        proof {
            assert(out@ =~= old(out)@ + spec_escape_char(c));
        }
    } else if c == '\u{c}' {
        out.push('\\');
        out.push('f');
        proof {
            assert(out@ =~= old(out)@ + spec_escape_char(c));
        }
    } else if c == '\n' {
        out.push('\\');
        out.push('n');
        proof {
            assert(out@ =~= old(out)@ + spec_escape_char(c));
        }
    } else if c == '\r' {
        out.push('\\');
        out.push('r');
        proof {
            assert(out@ =~= old(out)@ + spec_escape_char(c));
        }
    } else if c == '\t' {
        out.push('\\');
        out.push('t');
        proof {
            assert(out@ =~= old(out)@ + spec_escape_char(c));
        }
    } else if (c as u32) < 32 {
        let u: u32 = c as u32;
        out.push('\\');
        out.push('u');
        out.push('0');
        out.push('0');
        out.push(hex_char((u / 16) as u8));
        out.push(hex_char((u % 16) as u8));
        proof {
            assert(out@ =~= old(out)@ + spec_escape_char(c));
        }
    } else {
        out.push(c);
        proof {
            assert(out@ =~= old(out)@ + spec_escape_char(c));
        }
    }
}

/// Append the escaped form of a whole string.
fn push_escaped(out: &mut Vec<char>, s: &Vec<char>)
    ensures
        final(out)@ == old(out)@ + spec_escape(s@),
{
    let mut i: usize = 0;
    while i < s.len()
        invariant
            i <= s.len(),
            out@ == old(out)@ + spec_escape(s@.take(i as int)),
        decreases s.len() - i,
    {
        push_escape_char(out, s[i]);
        proof {
            assert(s@.take(i as int + 1).drop_last() =~= s@.take(i as int));
            assert(s@.take(i as int + 1).last() == s@[i as int]);
            assert(old(out)@ + spec_escape(s@.take(i as int + 1)) =~= (old(out)@ + spec_escape(
                s@.take(i as int),
            )) + spec_escape_char(s@[i as int]));
        }
        i += 1;
    }
    proof {
        assert(s@.take(s@.len() as int) =~= s@);
    }
}

/// Append a JSON string literal.
fn push_json_string(out: &mut Vec<char>, s: &str)
    ensures
        final(out)@ == old(out)@ + spec_json_string(s@),
{
    out.push('"');
    let v = str_chars(s);
    push_escaped(out, &v);
    out.push('"');
    proof {
        assert(out@ =~= old(out)@ + spec_json_string(s@));
    }
}

/// Append the JSON text of one field value.
fn push_value(out: &mut Vec<char>, v: &FieldValue)
    ensures
        final(out)@ == old(out)@ + spec_value_json(v@),
{
    match v {
        FieldValue::U64(n) => {
            push_u64(out, *n);
        },
        FieldValue::I64(n) => {
            push_i64(out, *n);
        },
        FieldValue::Bool(b) => {
            if *b {
                push_lit(out, "true");
                proof {
                    reveal_strlit("true");
                    assert(out@ =~= old(out)@ + spec_value_json(v@));
                }
            } else {
                push_lit(out, "false");
                proof {
                    reveal_strlit("false");
                    assert(out@ =~= old(out)@ + spec_value_json(v@));
                }
            }
        },
        FieldValue::Str(s) => {
            push_json_string(out, s.as_str());
        },
    }
}

/// The level name as text.
pub fn level_str(l: Level) -> (r: &'static str)
    ensures
        r@ == spec_level_chars(l),
{
    match l {
        Level::Trace => "TRACE",
        Level::Debug => "DEBUG",
        Level::Info => "INFO",
        Level::Warn => "WARN",
        Level::Error => "ERROR",
    }
}

/// Append a bracketless comma-separated list of JSON strings.
fn push_string_list(out: &mut Vec<char>, names: &Vec<String>)
    ensures
        final(out)@ == old(out)@ + spec_string_list(names@.map_values(|s: String| s@)),
{
    let ghost gnames: Seq<Seq<char>> = names@.map_values(|s: String| s@);
    let mut i: usize = 0;
    while i < names.len()
        invariant
            i <= names.len(),
            gnames == names@.map_values(|s: String| s@),
            out@ == old(out)@ + spec_string_list(gnames.take(i as int)),
        decreases names.len() - i,
    {
        if i > 0 {
            out.push(',');
        }
        push_json_string(out, names[i].as_str());
        proof {
            assert(gnames[i as int] == names@[i as int]@);
            assert(gnames.take(i as int + 1).drop_last() =~= gnames.take(i as int));
            assert(gnames.take(i as int + 1).last() == gnames[i as int]);
            if i == 0 {
                assert(out@ =~= old(out)@ + spec_string_list(gnames.take(1)));
            } else {
                assert(out@ =~= old(out)@ + spec_string_list(gnames.take(i as int + 1)));
            }
        }
        i += 1;
    }
    proof {
        assert(gnames.take(gnames.len() as int) =~= gnames);
    }
}

/// Append `,"key":value` for every member, in order.
fn push_kv_tail(out: &mut Vec<char>, values: &Vec<(String, FieldValue)>)
    ensures
        final(out)@ == old(out)@ + spec_kv_tail(spec_pairs(values@)),
{
    let ghost gpairs = spec_pairs(values@);
    let mut i: usize = 0;
    while i < values.len()
        invariant
            i <= values.len(),
            gpairs == spec_pairs(values@),
            out@ == old(out)@ + spec_kv_tail(gpairs.take(i as int)),
        decreases values.len() - i,
    {
        out.push(',');
        push_json_string(out, values[i].0.as_str());
        out.push(':');
        push_value(out, &values[i].1);
        proof {
            assert(gpairs[i as int] == (values@[i as int].0@, values@[i as int].1@));
            assert(gpairs.take(i as int + 1).drop_last() =~= gpairs.take(i as int));
            assert(gpairs.take(i as int + 1).last() == gpairs[i as int]);
            assert(out@ =~= old(out)@ + spec_kv_tail(gpairs.take(i as int + 1)));
        }
        i += 1;
    }
    proof {
        assert(gpairs.take(gpairs.len() as int) =~= gpairs);
    }
}

/// Append `"key":value` members separated by commas.
fn push_kv_join(out: &mut Vec<char>, values: &Vec<(String, FieldValue)>)
    ensures
        final(out)@ == old(out)@ + spec_kv_join(spec_pairs(values@)),
{
    let ghost gpairs = spec_pairs(values@);
    let mut i: usize = 0;
    while i < values.len()
        invariant
            i <= values.len(),
            gpairs == spec_pairs(values@),
            out@ == old(out)@ + spec_kv_join(gpairs.take(i as int)),
        decreases values.len() - i,
    {
        if i > 0 {
            out.push(',');
        }
        push_json_string(out, values[i].0.as_str());
        out.push(':');
        push_value(out, &values[i].1);
        proof {
            assert(gpairs[i as int] == (values@[i as int].0@, values@[i as int].1@));
            assert(gpairs.take(i as int + 1).drop_last() =~= gpairs.take(i as int));
            assert(gpairs.take(i as int + 1).last() == gpairs[i as int]);
            if i == 0 {
                assert(out@ =~= old(out)@ + spec_kv_join(gpairs.take(1)));
            } else {
                assert(out@ =~= old(out)@ + spec_kv_join(gpairs.take(i as int + 1)));
            }
        }
        i += 1;
    }
    proof {
        assert(gpairs.take(gpairs.len() as int) =~= gpairs);
    }
}

/// Append the JSON text of a metadata record.
fn push_metadata(out: &mut Vec<char>, m: &Metadata)
    ensures
        final(out)@ == old(out)@ + spec_metadata_json(m@),
{
    push_lit(out, "{\"level\":\"");
    push_lit(out, level_str(m.level));
    push_lit(out, "\",\"name\":");
    push_json_string(out, m.name.as_str());
    push_lit(out, ",\"fields\":[");
    push_string_list(out, &m.field_names);
    push_lit(out, "]}");
    proof {
        assert(out@ =~= old(out)@ + spec_metadata_json(m@));
    }
}

/// Encode an event payload.
pub fn encode_event(e: &EventData) -> (r: String)
    ensures
        r@ == spec_event_json(e@),
{
    let mut out: Vec<char> = Vec::new();
    push_lit(&mut out, "{\"message\":");
    push_json_string(&mut out, e.message.as_str());
    push_lit(&mut out, ",\"metadata\":");
    push_metadata(&mut out, &e.metadata);
    push_kv_tail(&mut out, &e.values);
    push_lit(&mut out, "}");
    proof {
        assert(out@ =~= spec_event_json(e@));
    }
    chars_string(&out)
}

/// Encode a span-attributes payload.
pub fn encode_span_attributes(a: &SpanAttributes) -> (r: String)
    ensures
        r@ == spec_span_attributes_json(a@),
{
    let mut out: Vec<char> = Vec::new();
    push_lit(&mut out, "{\"metadata\":");
    push_metadata(&mut out, &a.metadata);
    push_kv_tail(&mut out, &a.values);
    push_lit(&mut out, "}");
    proof {
        assert(out@ =~= spec_span_attributes_json(a@));
    }
    chars_string(&out)
}

/// Encode a record-values payload.
pub fn encode_record_values(v: &RecordValues) -> (r: String)
    ensures
        r@ == spec_record_values_json(v@),
{
    let mut out: Vec<char> = Vec::new();
    push_lit(&mut out, "{");
    push_kv_join(&mut out, &v.values);
    push_lit(&mut out, "}");
    proof {
        assert(out@ =~= spec_record_values_json(v@));
    }
    chars_string(&out)
}

/// Encode a span identifier.
pub fn encode_span_id(id: u64) -> (r: String)
    ensures
        r@ == spec_span_id_text(id),
{
    let v = u64_decimal_chars(id);
    chars_string(&v)
}

} // verus!
