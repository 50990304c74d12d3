//! Rendering of JSON values to text.
//!
//! The wire protocol emits one compact JSON value per line, and tool results
//! are embedded in responses as pretty-printed JSON text, so both renderings
//! are part of the protocol logic.  `text_of` and `pretty_of` define the
//! output exactly; the executable functions are proved to produce it.

use vstd::prelude::*;

use crate::json::{Json, Val, vals_of, field_vals_of, lemma_vals_of_index, lemma_field_vals_of_index};

verus! {

/// The decimal digit character for `d`.
pub open spec fn digit_char(d: nat) -> char {
    if d == 0 {
        '0'
    } else if d == 1 {
        '1'
    } else if d == 2 {
        '2'
    } else if d == 3 {
        '3'
    } else if d == 4 {
        '4'
    } else if d == 5 {
        '5'
    } else if d == 6 {
        '6'
    } else if d == 7 {
        '7'
    } else if d == 8 {
        '8'
    } else {
        '9'
    }
}

/// The lower-case hexadecimal digit character for `d`.
pub open spec fn hex_char(d: nat) -> char {
    if d < 10 {
        digit_char(d)
    } else if d == 10 {
        'a'
    } else if d == 11 {
        'b'
    } else if d == 12 {
        'c'
    } else if d == 13 {
        'd'
    } else if d == 14 {
        'e'
    } else {
        'f'
    }
}

/// The decimal digits of `n`, most significant first.
pub open spec fn dec_digits(n: nat) -> Seq<char>
    decreases n,
{
    if n < 10 {
        seq![digit_char(n)]
    } else {
        dec_digits(n / 10).push(digit_char(n % 10))
    }
}

/// The decimal rendering of an integer, with a leading minus when negative.
pub open spec fn dec_int(i: int) -> Seq<char> {
    if i < 0 {
        "-"@ + dec_digits((-i) as nat)
    } else {
        dec_digits(i as nat)
    }
}

/// How one character appears inside a JSON string literal.
pub open spec fn esc_char(c: char) -> Seq<char> {
    if c == '"' {
        "\\\""@
    } else if c == '\\' {
        "\\\\"@
    } else if c == '\n' {
        "\\n"@
    } else if c == '\r' {
        "\\r"@
    } else if c == '\t' {
        "\\t"@
    } else if (c as u32) == 8 {
        "\\b"@
    } else if (c as u32) == 12 {
        "\\f"@
    } else if (c as u32) < 32 {
        "\\u00"@ + seq![hex_char(((c as u32) / 16) as nat), hex_char(((c as u32) % 16) as nat)]
    } else {
        seq![c]
    }
}

/// The body of a JSON string literal for `s` (without the quotes).
pub open spec fn escaped(s: Seq<char>) -> Seq<char>
    decreases s,
{
    if s.len() == 0 {
        Seq::empty()
    } else {
        escaped(s.drop_last()) + esc_char(s.last())
    }
}

proof fn lemma_escaped_snoc(s: Seq<char>, i: int)
    requires
        0 <= i < s.len(),
    ensures
        escaped(s.take(i + 1)) == escaped(s.take(i)) + esc_char(s[i]),
{
    assert(s.take(i + 1).drop_last() =~= s.take(i));
    assert(s.take(i + 1).last() == s[i]);
}

/// No newline anywhere in the text.
pub open spec fn newline_free(s: Seq<char>) -> bool {
    forall|i: int| 0 <= i < s.len() ==> s[i] != '\n'
}

/// Every number token in the value is free of newlines.  Parsed numbers
/// are single tokens and the library's own number literals are plain
/// digits, so this holds of every value the engine handles; strings need
/// no such condition because rendering escapes them.
pub open spec fn nums_newline_free(v: Val) -> bool
    decreases v,
{
    match v {
        Val::Num(s) => newline_free(s),
        Val::Arr(items) => forall|i: int|
            0 <= i < items.len() ==> nums_newline_free(#[trigger] items[i]),
        Val::Obj(fields) => forall|i: int|
            0 <= i < fields.len() ==> nums_newline_free(#[trigger] fields[i].1),
        _ => true,
    }
}

/// The compact (single-line) rendering of a JSON value.
pub open spec fn text_of(v: Val) -> Seq<char>
    decreases v,
{
    match v {
        Val::Null => "null"@,
        Val::Bool(b) => if b {
            "true"@
        } else {
            "false"@
        },
        Val::Num(s) => s,
        Val::Str(s) => "\""@ + escaped(s) + "\""@,
        Val::Arr(items) => "["@ + text_of_items(items) + "]"@,
        Val::Obj(fields) => "{"@ + text_of_fields(fields) + "}"@,
    }
}

pub open spec fn text_of_items(items: Seq<Val>) -> Seq<char>
    decreases items,
{
    if items.len() == 0 {
        Seq::empty()
    } else if items.len() == 1 {
        text_of(items.last())
    } else {
        text_of_items(items.drop_last()) + ","@ + text_of(items.last())
    }
}

pub open spec fn text_of_field(f: (Seq<char>, Val)) -> Seq<char>
    decreases f,
{
    "\""@ + escaped(f.0) + "\""@ + ":"@ + text_of(f.1)
}

pub open spec fn text_of_fields(fields: Seq<(Seq<char>, Val)>) -> Seq<char>
    decreases fields,
{
    if fields.len() == 0 {
        Seq::empty()
    } else if fields.len() == 1 {
        text_of_field(fields.last())
    } else {
        text_of_fields(fields.drop_last()) + ","@ + text_of_field(fields.last())
    }
}

/// The pretty rendering of a JSON value placed at indentation `ind`
/// (two more spaces per nesting level, as the content blocks carry it).
pub open spec fn pretty_of(v: Val, ind: Seq<char>) -> Seq<char>
    decreases v,
{
    match v {
        Val::Arr(items) => if items.len() == 0 {
            "[]"@
        } else {
            "["@ + pretty_items(items, ind + "  "@) + "\n"@ + ind + "]"@
        },
        Val::Obj(fields) => if fields.len() == 0 {
            "{}"@
        } else {
            "{"@ + pretty_fields(fields, ind + "  "@) + "\n"@ + ind + "}"@
        },
        _ => text_of(v),
    }
}

pub open spec fn pretty_items(items: Seq<Val>, ind: Seq<char>) -> Seq<char>
    decreases items,
{
    if items.len() == 0 {
        Seq::empty()
    } else if items.len() == 1 {
        "\n"@ + ind + pretty_of(items.last(), ind)
    } else {
        pretty_items(items.drop_last(), ind) + ","@ + "\n"@ + ind + pretty_of(items.last(), ind)
    }
}

pub open spec fn pretty_field(f: (Seq<char>, Val), ind: Seq<char>) -> Seq<char>
    decreases f,
{
    "\""@ + escaped(f.0) + "\""@ + ": "@ + pretty_of(f.1, ind)
}

pub open spec fn pretty_fields(fields: Seq<(Seq<char>, Val)>, ind: Seq<char>) -> Seq<char>
    decreases fields,
{
    if fields.len() == 0 {
        Seq::empty()
    } else if fields.len() == 1 {
        "\n"@ + ind + pretty_field(fields.last(), ind)
    } else {
        pretty_fields(fields.drop_last(), ind) + ","@ + "\n"@ + ind + pretty_field(
            fields.last(),
            ind,
        )
    }
}

proof fn lemma_hex_char_not_newline(d: nat)
    ensures
        hex_char(d) != '\n',
        digit_char(d) != '\n',
{
}

proof fn lemma_dec_digits_newline_free(n: nat)
    ensures
        newline_free(dec_digits(n)),
    decreases n,
{
    if n < 10 {
        lemma_hex_char_not_newline(n);
    } else {
        lemma_dec_digits_newline_free(n / 10);
        lemma_hex_char_not_newline(n % 10);
    }
}

/// Rendered decimal integers (the error codes of the wire protocol)
/// never span lines.
pub proof fn lemma_dec_int_newline_free(i: int)
    ensures
        newline_free(dec_int(i)),
{
    reveal_strlit("-");
    if i < 0 {
        lemma_dec_digits_newline_free((-i) as nat);
    } else {
        lemma_dec_digits_newline_free(i as nat);
    }
}

proof fn lemma_esc_char_newline_free(c: char)
    ensures
        newline_free(esc_char(c)),
{
    reveal_strlit("\\\"");
    reveal_strlit("\\\\");
    reveal_strlit("\\n");
    reveal_strlit("\\r");
    reveal_strlit("\\t");
    reveal_strlit("\\b");
    reveal_strlit("\\f");
    reveal_strlit("\\u00");
    lemma_hex_char_not_newline(((c as u32) / 16) as nat);
    lemma_hex_char_not_newline(((c as u32) % 16) as nat);
    assert(newline_free(esc_char(c)));
}

proof fn lemma_escaped_newline_free(s: Seq<char>)
    ensures
        newline_free(escaped(s)),
    decreases s,
{
    if s.len() > 0 {
        lemma_escaped_newline_free(s.drop_last());
        lemma_esc_char_newline_free(s.last());
    }
}

/// The wire protocol writes one JSON value per line, so the compact
/// rendering must never span lines: for any value whose number tokens
/// are newline-free, it does not.
pub proof fn lemma_text_of_single_line(v: Val)
    requires
        nums_newline_free(v),
    ensures
        newline_free(text_of(v)),
    decreases v,
{
    reveal_strlit("null");
    reveal_strlit("true");
    reveal_strlit("false");
    reveal_strlit("\"");
    reveal_strlit("[");
    reveal_strlit("]");
    reveal_strlit("{");
    reveal_strlit("}");
    match v {
        Val::Str(s) => {
            lemma_escaped_newline_free(s);
        },
        Val::Arr(items) => {
            lemma_text_of_items_single_line(items);
        },
        Val::Obj(fields) => {
            lemma_text_of_fields_single_line(fields);
        },
        _ => {},
    }
}

proof fn lemma_text_of_items_single_line(items: Seq<Val>)
    requires
        forall|i: int| 0 <= i < items.len() ==> nums_newline_free(#[trigger] items[i]),
    ensures
        newline_free(text_of_items(items)),
    decreases items,
{
    reveal_strlit(",");
    if items.len() == 1 {
        lemma_text_of_single_line(items.last());
    } else if items.len() > 1 {
        lemma_text_of_items_single_line(items.drop_last());
        lemma_text_of_single_line(items.last());
    }
}

proof fn lemma_text_of_fields_single_line(fields: Seq<(Seq<char>, Val)>)
    requires
        forall|i: int| 0 <= i < fields.len() ==> nums_newline_free(#[trigger] fields[i].1),
    ensures
        newline_free(text_of_fields(fields)),
    decreases fields,
{
    reveal_strlit(",");
    reveal_strlit(":");
    reveal_strlit("\"");
    if fields.len() == 1 {
        lemma_escaped_newline_free(fields.last().0);
        lemma_text_of_single_line(fields.last().1);
        assert(newline_free(text_of_field(fields.last())));
    } else if fields.len() > 1 {
        lemma_text_of_fields_single_line(fields.drop_last());
        lemma_escaped_newline_free(fields.last().0);
        lemma_text_of_single_line(fields.last().1);
        assert(newline_free(text_of_field(fields.last())));
    }
}

/// Appends the decimal digit `d`.
fn push_digit(out: &mut String, d: u64)
    requires
        d < 10,
    ensures
        final(out)@ == old(out)@ + seq![digit_char(d as nat)],
{
    proof {
        reveal_strlit("0");
        reveal_strlit("1");
        reveal_strlit("2");
        reveal_strlit("3");
        reveal_strlit("4");
        reveal_strlit("5");
        reveal_strlit("6");
        reveal_strlit("7");
        reveal_strlit("8");
        reveal_strlit("9");
    }
    if d == 0 {
        out.append("0");
    } else if d == 1 {
        out.append("1");
    } else if d == 2 {
        out.append("2");
    } else if d == 3 {
        out.append("3");
    } else if d == 4 {
        out.append("4");
    } else if d == 5 {
        out.append("5");
    } else if d == 6 {
        out.append("6");
    } else if d == 7 {
        out.append("7");
    } else if d == 8 {
        out.append("8");
    } else {
        out.append("9");
    }
    proof {
        assert(out@ =~= old(out)@ + seq![digit_char(d as nat)]);
    }
}

/// Appends the lower-case hexadecimal digit `d`.
fn push_hex(out: &mut String, d: u32)
    requires
        d < 16,
    ensures
        final(out)@ == old(out)@ + seq![hex_char(d as nat)],
{
    if d < 10 {
        push_digit(out, d as u64);
    } else {
        proof {
            reveal_strlit("a");
            reveal_strlit("b");
            reveal_strlit("c");
            reveal_strlit("d");
            reveal_strlit("e");
            reveal_strlit("f");
        }
        if d == 10 {
            out.append("a");
        } else if d == 11 {
            out.append("b");
        } else if d == 12 {
            out.append("c");
        } else if d == 13 {
            out.append("d");
        } else if d == 14 {
            out.append("e");
        } else {
            out.append("f");
        }
        proof {
            assert(out@ =~= old(out)@ + seq![hex_char(d as nat)]);
        }
    }
}

/// Appends the decimal digits of `n`.
fn push_u64(out: &mut String, n: u64)
    ensures
        final(out)@ == old(out)@ + dec_digits(n as nat),
    decreases n,
{
    if n < 10 {
        push_digit(out, n);
    } else {
        push_u64(out, n / 10);
        push_digit(out, n % 10);
        proof {
            assert(out@ =~= old(out)@ + dec_digits(n as nat));
        }
    }
}

/// The decimal rendering of an integer.
pub fn int_to_string(i: i64) -> (r: String)
    ensures
        r@ == dec_int(i as int),
{
    let mut out = String::new();
    if i >= 0 {
        push_u64(&mut out, i as u64);
    } else {
        out.append("-");
        let m: u64 = (-(i as i128)) as u64;
        push_u64(&mut out, m);
    }
    proof {
        assert(out@ =~= dec_int(i as int));
    }
    out
}

/// Appends the escaped body of a JSON string literal for `s`.
fn push_escaped(out: &mut String, s: &str)
    ensures
        final(out)@ == old(out)@ + escaped(s@),
{
    let n = s.unicode_len();
    let mut i: usize = 0;
    proof {
        assert(s@.take(0) =~= Seq::<char>::empty());
    }
    while i < n
        invariant
            i <= n,
            n == s@.len(),
            out@ == old(out)@ + escaped(s@.take(i as int)),
        decreases n - i,
    {
        let c = s.get_char(i);
        if c == '"' {
            out.append("\\\"");
        } else if c == '\\' {
            out.append("\\\\");
        } else if c == '\n' {
            out.append("\\n");
        } else if c == '\r' {
            out.append("\\r");
        } else if c == '\t' {
            out.append("\\t");
        } else {
            let code = c as u32;
            if code == 8 {
                out.append("\\b");
            } else if code == 12 {
                out.append("\\f");
            } else if code < 32 {
                out.append("\\u00");
                push_hex(out, code / 16);
                push_hex(out, code % 16);
            } else {
                let piece = s.substring_char(i, i + 1);
                proof {
                    assert(piece@ =~= seq![c]);
                }
                out.append(piece);
            }
        }
        proof {
            lemma_escaped_snoc(s@, i as int);
            assert(out@ =~= old(out)@ + escaped(s@.take(i as int + 1)));
        }
        i += 1;
    }
    proof {
        assert(s@.take(n as int) =~= s@);
    }
}

impl Json {
    /// The compact single-line rendering, suitable for the wire.
    pub fn to_text(&self) -> (r: String)
        ensures
            r@ == text_of(self@),
    {
        let mut out = String::new();
        self.write_text(&mut out);
        out
    }

    /// The pretty rendering, as it is embedded in tool-result content.
    pub fn to_pretty(&self) -> (r: String)
        ensures
            r@ == pretty_of(self@, Seq::empty()),
    {
        let mut out = String::new();
        let ind = String::new();
        self.write_pretty(&mut out, &ind);
        out
    }

    #[verifier::loop_isolation(false)]
    fn write_text(&self, out: &mut String)
        ensures
            final(out)@ == old(out)@ + text_of(self@),
        decreases *self,
    {
        match self {
            Json::Null => {
                out.append("null");
            },
            Json::Bool(b) => {
                if *b {
                    out.append("true");
                } else {
                    out.append("false");
                }
            },
            Json::Num(s) => {
                out.append(s.as_str());
            },
            Json::Str(s) => {
                out.append("\"");
                push_escaped(out, s.as_str());
                out.append("\"");
                proof {
                    assert(out@ =~= old(out)@ + text_of(self@));
                }
            },
            Json::Arr(items) => {
                proof {
                    assert(self->Arr_0 == *items);
                    assert(decreases_to!(*self => self->Arr_0));
                }
                write_text_items(items, out);
                proof {
                    assert(out@ =~= old(out)@ + text_of(self@));
                }
            },
            Json::Obj(fields) => {
                proof {
                    assert(self->Obj_0 == *fields);
                    assert(decreases_to!(*self => self->Obj_0));
                }
                write_text_fields(fields, out);
                proof {
                    assert(out@ =~= old(out)@ + text_of(self@));
                }
            },
        }
    }

    #[verifier::loop_isolation(false)]
    fn write_pretty(&self, out: &mut String, ind: &String)
        ensures
            final(out)@ == old(out)@ + pretty_of(self@, ind@),
        decreases *self,
    {
        match self {
            Json::Arr(items) => {
                if items.len() == 0 {
                    out.append("[]");
                    proof {
                        assert(vals_of(items@).len() == 0) by {
                            lemma_vals_of_index(items@);
                        }
                        assert(out@ =~= old(out)@ + pretty_of(self@, ind@));
                    }
                } else {
                    proof {
                        assert(self->Arr_0 == *items);
                        assert(decreases_to!(*self => self->Arr_0));
                        assert(vals_of(items@).len() > 0) by {
                            lemma_vals_of_index(items@);
                        }
                    }
                    write_pretty_items(items, out, ind);
                    proof {
                        assert(out@ =~= old(out)@ + pretty_of(self@, ind@));
                    }
                }
            },
            Json::Obj(fields) => {
                if fields.len() == 0 {
                    out.append("{}");
                    proof {
                        assert(field_vals_of(fields@).len() == 0) by {
                            lemma_field_vals_of_index(fields@);
                        }
                        assert(out@ =~= old(out)@ + pretty_of(self@, ind@));
                    }
                } else {
                    proof {
                        assert(self->Obj_0 == *fields);
                        assert(decreases_to!(*self => self->Obj_0));
                        assert(field_vals_of(fields@).len() > 0) by {
                            lemma_field_vals_of_index(fields@);
                        }
                    }
                    write_pretty_fields(fields, out, ind);
                    proof {
                        assert(out@ =~= old(out)@ + pretty_of(self@, ind@));
                    }
                }
            },
            _ => {
                self.write_text(out);
                proof {
                    assert(pretty_of(self@, ind@) == text_of(self@));
                }
            },
        }
    }
}

#[verifier::loop_isolation(false)]
fn write_text_items(items: &Vec<Json>, out: &mut String)
    ensures
        final(out)@ == old(out)@ + "["@ + text_of_items(vals_of(items@)) + "]"@,
    decreases *items,
{
    let ghost vs = vals_of(items@);
    proof {
        lemma_vals_of_index(items@);
    }
    out.append("[");
    let mut i: usize = 0;
    proof {
        assert(text_of_items(vs.take(0)) =~= Seq::<char>::empty());
        assert(out@ =~= old(out)@ + "["@ + text_of_items(vs.take(0)));
    }
    while i < items.len()
        invariant
            i <= items@.len(),
            out@ == old(out)@ + "["@ + text_of_items(vs.take(i as int)),
        decreases items@.len() - i,
    {
        if i > 0 {
            out.append(",");
        }
        proof {
            assert(decreases_to!(*items => items@));
            assert(decreases_to!(items@ => items@[i as int]));
        }
        items[i].write_text(out);
        proof {
            assert(vs.take(i as int + 1).drop_last() =~= vs.take(i as int));
            assert(vs.take(i as int + 1).last() == vs[i as int]);
            assert(out@ =~= old(out)@ + "["@ + text_of_items(vs.take(i as int + 1)));
        }
        i += 1;
    }
    out.append("]");
    proof {
        assert(vs.take(items@.len() as int) =~= vs);
        assert(out@ =~= old(out)@ + "["@ + text_of_items(vs) + "]"@);
    }
}

#[verifier::loop_isolation(false)]
fn write_text_fields(fields: &Vec<(String, Json)>, out: &mut String)
    ensures
        final(out)@ == old(out)@ + "{"@ + text_of_fields(field_vals_of(fields@)) + "}"@,
    decreases *fields,
{
    let ghost fv = field_vals_of(fields@);
    proof {
        lemma_field_vals_of_index(fields@);
    }
    out.append("{");
    let mut i: usize = 0;
    proof {
        assert(text_of_fields(fv.take(0)) =~= Seq::<char>::empty());
        assert(out@ =~= old(out)@ + "{"@ + text_of_fields(fv.take(0)));
    }
    while i < fields.len()
        invariant
            i <= fields@.len(),
            out@ == old(out)@ + "{"@ + text_of_fields(fv.take(i as int)),
        decreases fields@.len() - i,
    {
        if i > 0 {
            out.append(",");
        }
        out.append("\"");
        push_escaped(out, fields[i].0.as_str());
        out.append("\"");
        out.append(":");
        proof {
            assert(decreases_to!(*fields => fields@));
            assert(decreases_to!(fields@ => fields@[i as int]));
            assert(decreases_to!(fields@[i as int] => fields@[i as int].1));
        }
        fields[i].1.write_text(out);
        proof {
            assert(fv.take(i as int + 1).drop_last() =~= fv.take(i as int));
            assert(fv.take(i as int + 1).last() == fv[i as int]);
            assert(fv[i as int] == (fields@[i as int].0@, fields@[i as int].1@));
            assert(text_of_field(fv[i as int]) == "\""@ + escaped(fields@[i as int].0@) + "\""@
                + ":"@ + text_of(fields@[i as int].1@));
            assert(out@ =~= old(out)@ + "{"@ + text_of_fields(fv.take(i as int + 1)));
        }
        i += 1;
    }
    out.append("}");
    proof {
        assert(fv.take(fields@.len() as int) =~= fv);
        assert(out@ =~= old(out)@ + "{"@ + text_of_fields(fv) + "}"@);
    }
}

#[verifier::loop_isolation(false)]
fn write_pretty_items(items: &Vec<Json>, out: &mut String, ind: &String)
    requires
        items@.len() > 0,
    ensures
        final(out)@ == old(out)@ + "["@ + pretty_items(vals_of(items@), ind@ + "  "@) + "\n"@
            + ind@ + "]"@,
    decreases *items,
{
    let ghost vs = vals_of(items@);
    proof {
        lemma_vals_of_index(items@);
    }
    let mut deeper = ind.clone();
    deeper.append("  ");
    out.append("[");
    let mut i: usize = 0;
    proof {
        assert(pretty_items(vs.take(0), deeper@) =~= Seq::<char>::empty());
        assert(out@ =~= old(out)@ + "["@ + pretty_items(vs.take(0), deeper@));
    }
    while i < items.len()
        invariant
            i <= items@.len(),
            deeper@ == ind@ + "  "@,
            out@ == old(out)@ + "["@ + pretty_items(vs.take(i as int), deeper@),
        decreases items@.len() - i,
    {
        if i > 0 {
            out.append(",");
        }
        out.append("\n");
        out.append(deeper.as_str());
        proof {
            assert(decreases_to!(*items => items@));
            assert(decreases_to!(items@ => items@[i as int]));
        }
        items[i].write_pretty(out, &deeper);
        proof {
            assert(vs.take(i as int + 1).drop_last() =~= vs.take(i as int));
            assert(vs.take(i as int + 1).last() == vs[i as int]);
            assert(out@ =~= old(out)@ + "["@ + pretty_items(vs.take(i as int + 1), deeper@));
        }
        i += 1;
    }
    out.append("\n");
    out.append(ind.as_str());
    out.append("]");
    proof {
        assert(vs.take(items@.len() as int) =~= vs);
        assert(out@ =~= old(out)@ + "["@ + pretty_items(vs, deeper@) + "\n"@ + ind@ + "]"@);
    }
}

#[verifier::loop_isolation(false)]
fn write_pretty_fields(fields: &Vec<(String, Json)>, out: &mut String, ind: &String)
    requires
        fields@.len() > 0,
    ensures
        final(out)@ == old(out)@ + "{"@ + pretty_fields(field_vals_of(fields@), ind@ + "  "@)
            + "\n"@ + ind@ + "}"@,
    decreases *fields,
{
    let ghost fv = field_vals_of(fields@);
    proof {
        lemma_field_vals_of_index(fields@);
    }
    let mut deeper = ind.clone();
    deeper.append("  ");
    out.append("{");
    let mut i: usize = 0;
    proof {
        assert(pretty_fields(fv.take(0), deeper@) =~= Seq::<char>::empty());
        assert(out@ =~= old(out)@ + "{"@ + pretty_fields(fv.take(0), deeper@));
    }
    while i < fields.len()
        invariant
            i <= fields@.len(),
            deeper@ == ind@ + "  "@,
            out@ == old(out)@ + "{"@ + pretty_fields(fv.take(i as int), deeper@),
        decreases fields@.len() - i,
    {
        if i > 0 {
            out.append(",");
        }
        out.append("\n");
        out.append(deeper.as_str());
        out.append("\"");
        push_escaped(out, fields[i].0.as_str());
        out.append("\"");
        out.append(": ");
        proof {
            assert(decreases_to!(*fields => fields@));
            assert(decreases_to!(fields@ => fields@[i as int]));
            assert(decreases_to!(fields@[i as int] => fields@[i as int].1));
        }
        fields[i].1.write_pretty(out, &deeper);
        proof {
            assert(fv.take(i as int + 1).drop_last() =~= fv.take(i as int));
            assert(fv.take(i as int + 1).last() == fv[i as int]);
            assert(fv[i as int] == (fields@[i as int].0@, fields@[i as int].1@));
            assert(pretty_field(fv[i as int], deeper@) == "\""@ + escaped(
                fields@[i as int].0@,
            ) + "\""@ + ": "@ + pretty_of(fields@[i as int].1@, deeper@));
            assert(out@ =~= old(out)@ + "{"@ + pretty_fields(fv.take(i as int + 1), deeper@));
        }
        i += 1;
    }
    out.append("\n");
    out.append(ind.as_str());
    out.append("}");
    proof {
        assert(fv.take(fields@.len() as int) =~= fv);
        assert(out@ =~= old(out)@ + "{"@ + pretty_fields(fv, deeper@) + "\n"@ + ind@ + "}"@);
    }
}

} // verus!
