//! The JSON shape of the outgoing request body.
//!
//! The Telegram send-message payload is an object whose fields are scalars or
//! flat objects of scalars, so the model here is exactly that deep and no
//! deeper. [`render_object`] turns a value into its JSON text, and the
//! `*_chars` spec functions state that text character by character.

use vstd::prelude::*;
use vstd::string::{StrSliceExecFns, StringExecFns};

verus! {

broadcast use vstd::string::group_string_axioms;

/// Mathematical shape of a scalar JSON value.
pub enum ScalarModel {
    /// JSON `null`.
    Null,
    /// A JSON boolean.
    Bool(bool),
    /// A JSON integer.
    Int(int),
    /// A JSON string.
    Str(Seq<char>),
}

/// Mathematical shape of a field value: a scalar or a flat object.
pub enum FieldModel {
    /// A scalar field.
    Scalar(ScalarModel),
    /// An object field whose members are all scalars.
    Object(Seq<(Seq<char>, ScalarModel)>),
}

/// A scalar JSON value.
#[derive(Debug)]
pub enum JsonScalar {
    /// JSON `null`.
    Null,
    /// A JSON boolean.
    Bool(bool),
    /// A JSON integer from a signed quantity.
    Int(i64),
    /// A JSON integer from an unsigned quantity.
    UInt(u64),
    /// A JSON string.
    Str(String),
}

/// A field value of the request object: a scalar or a flat object.
#[derive(Debug)]
pub enum JsonField {
    /// A scalar field.
    Scalar(JsonScalar),
    /// An object field whose members are all scalars.
    Object(Vec<(String, JsonScalar)>),
}

/// A JSON object: fields in order, each a name with a value.
#[derive(Debug)]
pub struct JsonObject {
    /// The fields, in the order they are rendered.
    pub entries: Vec<(String, JsonField)>,
}

impl View for JsonScalar {
    type V = ScalarModel;

    open spec fn view(&self) -> ScalarModel {
        match self {
            JsonScalar::Null => ScalarModel::Null,
            JsonScalar::Bool(b) => ScalarModel::Bool(*b),
            JsonScalar::Int(i) => ScalarModel::Int(*i as int),
            JsonScalar::UInt(u) => ScalarModel::Int(*u as int),
            JsonScalar::Str(s) => ScalarModel::Str(s@),
        }
    }
}

/// The models of a sequence of scalar members.
pub open spec fn scalar_entries_model(es: Seq<(String, JsonScalar)>) -> Seq<
    (Seq<char>, ScalarModel),
> {
    Seq::new(es.len(), |i: int| (es[i].0@, es[i].1@))
}

impl View for JsonField {
    type V = FieldModel;

    open spec fn view(&self) -> FieldModel {
        match self {
            JsonField::Scalar(v) => FieldModel::Scalar(v@),
            JsonField::Object(es) => FieldModel::Object(scalar_entries_model(es@)),
        }
    }
}

/// The models of a sequence of object fields.
pub open spec fn field_entries_model(es: Seq<(String, JsonField)>) -> Seq<
    (Seq<char>, FieldModel),
> {
    Seq::new(es.len(), |i: int| (es[i].0@, es[i].1@))
}

impl View for JsonObject {
    type V = Seq<(Seq<char>, FieldModel)>;

    open spec fn view(&self) -> Seq<(Seq<char>, FieldModel)> {
        field_entries_model(self.entries@)
    }
}

/// The decimal digit character for `d`.
pub open spec fn spec_digit(d: int) -> char {
    if d == 0 {
        '0'
    } else if d == 1 {
        '1'
    } else if d == 2 {
        '2'
    } else if d == 3 {
        '3'
    } else if d == 4 {
        '4'
    } else if d == 5 {
        '5'
    } else if d == 6 {
        '6'
    } else if d == 7 {
        '7'
    } else if d == 8 {
        '8'
    } else {
        '9'
    }
}

/// The lower-case hexadecimal digit character for `d`.
pub open spec fn spec_hex_digit(d: int) -> char {
    if d < 10 {
        spec_digit(d)
    } else if d == 10 {
        'a'
    } else if d == 11 {
        'b'
    } else if d == 12 {
        'c'
    } else if d == 13 {
        'd'
    } else if d == 14 {
        'e'
    } else {
        'f'
    }
}

/// The decimal digits of `n`, most significant first.
pub open spec fn uint_chars(n: nat) -> Seq<char>
    decreases n,
{
    if n < 10 {
        seq![spec_digit(n as int)]
    } else {
        uint_chars(n / 10).push(spec_digit((n % 10) as int))
    }
}

/// The decimal rendering of `i`, with a leading minus sign when negative.
pub open spec fn int_chars(i: int) -> Seq<char> {
    if i < 0 {
        seq!['-'] + uint_chars((-i) as nat)
    } else {
        uint_chars(i as nat)
    }
}

/// How one character appears inside a JSON string literal.
///
/// Quotes and backslashes take a backslash escape, the common control
/// characters their short escapes, other control characters the `\u00..`
/// form; everything else stands for itself.
pub open spec fn escaped_char(c: char) -> Seq<char> {
    if c == '"' {
        seq!['\\', '"']
    } else if c == '\\' {
        seq!['\\', '\\']
    } else if c == '\n' {
        seq!['\\', 'n']
    } else if c == '\r' {
        seq!['\\', 'r']
    } else if c == '\t' {
        seq!['\\', 't']
    } else if (c as u32) < 32 {
        seq!['\\', 'u', '0', '0', spec_hex_digit((c as u32) as int / 16), spec_hex_digit(
            (c as u32) as int % 16,
        )]
    } else {
        seq![c]
    }
}

/// The body of a JSON string literal holding the text `s`.
pub open spec fn escaped_text(s: Seq<char>) -> Seq<char>
    decreases s.len(),
{
    if s.len() == 0 {
        Seq::empty()
    } else {
        escaped_text(s.drop_last()) + escaped_char(s.last())
    }
}

/// A JSON string literal holding the text `s`.
pub open spec fn quoted(s: Seq<char>) -> Seq<char> {
    seq!['"'] + escaped_text(s) + seq!['"']
}

/// The JSON text of a scalar.
pub open spec fn scalar_chars(v: ScalarModel) -> Seq<char> {
    match v {
        ScalarModel::Null => seq!['n', 'u', 'l', 'l'],
        ScalarModel::Bool(b) => if b {
            seq!['t', 'r', 'u', 'e']
        } else {
            seq!['f', 'a', 'l', 's', 'e']
        },
        ScalarModel::Int(i) => int_chars(i),
        ScalarModel::Str(s) => quoted(s),
    }
}

/// The JSON text of one scalar member, name and value.
pub open spec fn scalar_entry_chars(e: (Seq<char>, ScalarModel)) -> Seq<char> {
    quoted(e.0) + seq![':'] + scalar_chars(e.1)
}

/// The comma-separated JSON text of scalar members.
pub open spec fn scalar_entries_chars(es: Seq<(Seq<char>, ScalarModel)>) -> Seq<char>
    decreases es.len(),
{
    if es.len() == 0 {
        Seq::empty()
    } else if es.len() == 1 {
        scalar_entry_chars(es[0])
    } else {
        scalar_entries_chars(es.drop_last()) + seq![','] + scalar_entry_chars(es.last())
    }
}

/// The JSON text of a field value.
pub open spec fn field_chars(f: FieldModel) -> Seq<char> {
    match f {
        FieldModel::Scalar(v) => scalar_chars(v),
        FieldModel::Object(es) => seq!['{'] + scalar_entries_chars(es) + seq!['}'],
    }
}

/// The JSON text of one object field, name and value.
pub open spec fn field_entry_chars(e: (Seq<char>, FieldModel)) -> Seq<char> {
    quoted(e.0) + seq![':'] + field_chars(e.1)
}

/// The comma-separated JSON text of object fields.
pub open spec fn field_entries_chars(es: Seq<(Seq<char>, FieldModel)>) -> Seq<char>
    decreases es.len(),
{
    if es.len() == 0 {
        Seq::empty()
    } else if es.len() == 1 {
        field_entry_chars(es[0])
    } else {
        field_entries_chars(es.drop_last()) + seq![','] + field_entry_chars(es.last())
    }
}

/// The JSON text of a whole object.
pub open spec fn object_text(es: Seq<(Seq<char>, FieldModel)>) -> Seq<char> {
    seq!['{'] + field_entries_chars(es) + seq!['}']
}

/// The decimal digit as a one-character string.
fn digit_str(d: u64) -> (r: &'static str)
    requires
        d < 10,
    ensures
        r@ == seq![spec_digit(d as int)],
{
    let r: &'static str = if d == 0 {
        "0"
    } else if d == 1 {
        "1"
    } else if d == 2 {
        "2"
    } else if d == 3 {
        "3"
    } else if d == 4 {
        "4"
    } else if d == 5 {
        "5"
    } else if d == 6 {
        "6"
    } else if d == 7 {
        "7"
    } else if d == 8 {
        "8"
    } else {
        "9"
    };
    proof {
        reveal_strlit("0");
        reveal_strlit("1");
        reveal_strlit("2");
        reveal_strlit("3");
        reveal_strlit("4");
        reveal_strlit("5");
        reveal_strlit("6");
        reveal_strlit("7");
        reveal_strlit("8");
        reveal_strlit("9");
        assert(r@ =~= seq![spec_digit(d as int)]);
    }
    r
}

/// The lower-case hexadecimal digit as a one-character string.
fn hex_str(d: u32) -> (r: &'static str)
    requires
        d < 16,
    ensures
        r@ == seq![spec_hex_digit(d as int)],
{
    let r: &'static str = if d < 10 {
        digit_str(d as u64)
    } else if d == 10 {
        "a"
    } else if d == 11 {
        "b"
    } else if d == 12 {
        "c"
    } else if d == 13 {
        "d"
    } else if d == 14 {
        "e"
    } else {
        "f"
    };
    proof {
        reveal_strlit("a");
        reveal_strlit("b");
        reveal_strlit("c");
        reveal_strlit("d");
        reveal_strlit("e");
        reveal_strlit("f");
        assert(r@ =~= seq![spec_hex_digit(d as int)]);
    }
    r
}

/// Appends the decimal digits of `n`.
fn write_uint(out: &mut String, n: u64)
    ensures
        final(out)@ == old(out)@ + uint_chars(n as nat),
    decreases n,
{
    if n < 10 {
        out.append(digit_str(n));
        proof {
            assert(out@ =~= old(out)@ + uint_chars(n as nat));
        }
    } else {
        write_uint(out, n / 10);
        out.append(digit_str(n % 10));
        proof {
            assert(out@ =~= old(out)@ + uint_chars(n as nat));
        }
    }
}

/// Appends the decimal rendering of `i`.
fn write_int(out: &mut String, i: i64)
    ensures
        final(out)@ == old(out)@ + int_chars(i as int),
{
    if i >= 0 {
        write_uint(out, i as u64);
    } else {
        proof {
            reveal_strlit("-");
        }
        out.append("-");
        let m: u64 = (-(i as i128)) as u64;
        proof {
            assert(m as int == -(i as int));
        }
        write_uint(out, m);
        proof {
            assert(out@ =~= old(out)@ + int_chars(i as int));
        }
    }
}

/// Appends the body of a JSON string literal holding `s`.
fn write_escaped(out: &mut String, s: &str)
    ensures
        final(out)@ == old(out)@ + escaped_text(s@),
{
    let len = s.unicode_len();
    let mut i: usize = 0;
    while i < len
        invariant
            i <= len,
            len == s@.len(),
            out@ == old(out)@ + escaped_text(s@.subrange(0, i as int)),
        decreases len - i,
    {
        let c = s.get_char(i);
        if c == '"' {
            proof {
                reveal_strlit("\\\"");
            }
            out.append("\\\"");
        } else if c == '\\' {
            proof {
                reveal_strlit("\\\\");
            }
            out.append("\\\\");
        } else if c == '\n' {
            proof {
                reveal_strlit("\\n");
            }
            out.append("\\n");
        } else if c == '\r' {
            proof {
                reveal_strlit("\\r");
            }
            out.append("\\r");
        } else if c == '\t' {
            proof {
                reveal_strlit("\\t");
            }
            out.append("\\t");
        } else if (c as u32) < 32 {
            proof {
                reveal_strlit("\\u00");
            }
            out.append("\\u00");
            out.append(hex_str((c as u32) / 16));
            out.append(hex_str((c as u32) % 16));
        } else {
            out.append(s.substring_char(i, i + 1));
        }
        proof {
            assert(s@.subrange(0, i + 1 as int).drop_last() =~= s@.subrange(0, i as int));
            assert(s@.subrange(0, i + 1 as int).last() == s@[i as int]);
            assert(out@ =~= old(out)@ + escaped_text(s@.subrange(0, i + 1 as int)));
        }
        i = i + 1;
    }
    proof {
        assert(s@.subrange(0, len as int) =~= s@);
    }
}

/// Appends a JSON string literal holding `s`.
fn write_quoted(out: &mut String, s: &str)
    ensures
        final(out)@ == old(out)@ + quoted(s@),
{
    proof {
        reveal_strlit("\"");
    }
    out.append("\"");
    write_escaped(out, s);
    out.append("\"");
    proof {
        assert(out@ =~= old(out)@ + quoted(s@));
    }
}

/// Appends the JSON text of a scalar.
fn write_scalar(out: &mut String, v: &JsonScalar)
    ensures
        final(out)@ == old(out)@ + scalar_chars(v@),
{
    match v {
        JsonScalar::Null => {
            proof {
                reveal_strlit("null");
            }
            out.append("null");
            proof {
                assert(out@ =~= old(out)@ + scalar_chars(v@));
            }
        },
        JsonScalar::Bool(b) => {
            if *b {
                proof {
                    reveal_strlit("true");
                }
                out.append("true");
            } else {
                proof {
                    reveal_strlit("false");
                }
                out.append("false");
            }
            proof {
                assert(out@ =~= old(out)@ + scalar_chars(v@));
            }
        },
        JsonScalar::Int(i) => {
            write_int(out, *i);
        },
        JsonScalar::UInt(u) => {
            write_uint(out, *u);
            proof {
                assert(int_chars(*u as int) == uint_chars(*u as nat));
            }
        },
        JsonScalar::Str(s) => {
            write_quoted(out, s.as_str());
        },
    }
}

/// Appends the comma-separated JSON text of scalar members.
fn write_scalar_entries(out: &mut String, es: &Vec<(String, JsonScalar)>)
    ensures
        final(out)@ == old(out)@ + scalar_entries_chars(scalar_entries_model(es@)),
{
    let ghost m = scalar_entries_model(es@);
    let mut i: usize = 0;
    while i < es.len()
        invariant
            i <= es.len(),
            m == scalar_entries_model(es@),
            m.len() == es.len(),
            out@ == old(out)@ + scalar_entries_chars(m.subrange(0, i as int)),
        decreases es.len() - i,
    {
        if i > 0 {
            proof {
                reveal_strlit(",");
            }
            out.append(",");
        }
        let e = &es[i];
        write_quoted(out, e.0.as_str());
        proof {
            reveal_strlit(":");
        }
        out.append(":");
        write_scalar(out, &e.1);
        proof {
            assert(m.subrange(0, i + 1 as int).drop_last() =~= m.subrange(0, i as int));
            assert(m.subrange(0, i + 1 as int).last() == m[i as int]);
            assert(out@ =~= old(out)@ + scalar_entries_chars(m.subrange(0, i + 1 as int)));
        }
        i = i + 1;
    }
    proof {
        assert(m.subrange(0, es.len() as int) =~= m);
    }
}

/// Appends the JSON text of a field value.
fn write_field(out: &mut String, f: &JsonField)
    ensures
        final(out)@ == old(out)@ + field_chars(f@),
{
    match f {
        JsonField::Scalar(v) => {
            write_scalar(out, v);
        },
        JsonField::Object(es) => {
            proof {
                reveal_strlit("{");
                reveal_strlit("}");
            }
            out.append("{");
            write_scalar_entries(out, es);
            out.append("}");
            proof {
                assert(out@ =~= old(out)@ + field_chars(f@));
            }
        },
    }
}

/// Appends the comma-separated JSON text of object fields.
fn write_field_entries(out: &mut String, es: &Vec<(String, JsonField)>)
    ensures
        final(out)@ == old(out)@ + field_entries_chars(field_entries_model(es@)),
{
    let ghost m = field_entries_model(es@);
    let mut i: usize = 0;
    while i < es.len()
        invariant
            i <= es.len(),
            m == field_entries_model(es@),
            m.len() == es.len(),
            out@ == old(out)@ + field_entries_chars(m.subrange(0, i as int)),
        decreases es.len() - i,
    {
        if i > 0 {
            proof {
                reveal_strlit(",");
            }
            out.append(",");
        }
        let e = &es[i];
        write_quoted(out, e.0.as_str());
        proof {
            reveal_strlit(":");
        }
        out.append(":");
        write_field(out, &e.1);
        proof {
            assert(m.subrange(0, i + 1 as int).drop_last() =~= m.subrange(0, i as int));
            assert(m.subrange(0, i + 1 as int).last() == m[i as int]);
            assert(out@ =~= old(out)@ + field_entries_chars(m.subrange(0, i + 1 as int)));
        }
        i = i + 1;
    }
    proof {
        assert(m.subrange(0, es.len() as int) =~= m);
    }
}

/// Renders a JSON object as its text.
pub fn render_object(o: &JsonObject) -> (r: String)
    ensures
        r@ == object_text(o@),
{
    let mut out = String::new();
    proof {
        reveal_strlit("{");
        reveal_strlit("}");
    }
    out.append("{");
    write_field_entries(&mut out, &o.entries);
    out.append("}");
    proof {
        assert(out@ =~= object_text(o@));
    }
    out
}

} // verus!
