//! The JSON wire format used by the API.
//!
//! Request content and every response body travel as JSON text. This module
//! gives the crate its own JSON value model, a canonical printer, and a
//! parser, all specified over sequences of characters. The grammar is the
//! subset the API traffic uses: integer numbers (no fraction or exponent) and
//! the single-character string escapes; a body outside the subset is rejected
//! rather than misread. The parser is lenient only where nothing is at
//! stake: it accepts a trailing comma and redundant leading zeros.
//!
//! The printer and parser are tied together by [`lemma_parse_print_round_trip`]:
//! parsing a printed value yields that value back.

use vstd::prelude::*;

verus! {

broadcast use vstd::seq::group_seq_axioms, vstd::std_specs::vec::group_vec_axioms;

/// Mathematical model of a JSON value.
pub enum JsonV {
    /// `null`
    Null,
    /// `true` or `false`
    Bool(bool),
    /// An integer number.
    Int(int),
    /// A string.
    Str(Seq<char>),
    /// An array of values.
    Arr(Seq<JsonV>),
    /// An object: ordered key/value members.
    Obj(Seq<(Seq<char>, JsonV)>),
}

/// Executable JSON value; its view is a [`JsonV`].
#[derive(Debug, PartialEq)]
pub enum JsonValue {
    /// `null`
    Null,
    /// `true` or `false`
    Bool(bool),
    /// An integer number.
    Int(i64),
    /// A string.
    Str(Vec<char>),
    /// An array of values.
    Arr(Vec<JsonValue>),
    /// An object: ordered key/value members.
    Obj(Vec<(Vec<char>, JsonValue)>),
}

/// Model of an executable JSON value.
pub open spec fn jsonv_of(j: JsonValue) -> JsonV
    decreases j,
{
    match j {
        JsonValue::Null => JsonV::Null,
        JsonValue::Bool(b) => JsonV::Bool(b),
        JsonValue::Int(i) => JsonV::Int(i as int),
        JsonValue::Str(s) => JsonV::Str(s@),
        JsonValue::Arr(vs) => JsonV::Arr(jsonv_of_seq(vs@)),
        JsonValue::Obj(ms) => JsonV::Obj(jsonv_of_members(ms@)),
    }
}

/// Models of a sequence of executable JSON values.
pub open spec fn jsonv_of_seq(s: Seq<JsonValue>) -> Seq<JsonV>
    decreases s,
{
    if s.len() == 0 {
        Seq::empty()
    } else {
        seq![jsonv_of(s[0])] + jsonv_of_seq(s.drop_first())
    }
}

/// Models of a sequence of executable object members.
pub open spec fn jsonv_of_members(s: Seq<(Vec<char>, JsonValue)>) -> Seq<(Seq<char>, JsonV)>
    decreases s,
{
    if s.len() == 0 {
        Seq::empty()
    } else {
        seq![(s[0].0@, jsonv_of(s[0].1))] + jsonv_of_members(s.drop_first())
    }
}

impl View for JsonValue {
    type V = JsonV;

    open spec fn view(&self) -> JsonV {
        jsonv_of(*self)
    }
}

/// The character for one decimal digit value.
pub open spec fn digit_char(d: int) -> char {
    if d == 0 {
        '0'
    } else if d == 1 {
        '1'
    } else if d == 2 {
        '2'
    } else if d == 3 {
        '3'
    } else if d == 4 {
        '4'
    } else if d == 5 {
        '5'
    } else if d == 6 {
        '6'
    } else if d == 7 {
        '7'
    } else if d == 8 {
        '8'
    } else {
        '9'
    }
}

/// Decimal digits of a natural number, most significant first.
pub open spec fn dec_digits(n: nat) -> Seq<char>
    decreases n,
{
    if n < 10 {
        seq![digit_char(n as int)]
    } else {
        dec_digits(n / 10).push(digit_char((n % 10) as int))
    }
}

/// Canonical text of an integer.
pub open spec fn print_int(i: int) -> Seq<char> {
    if i < 0 {
        seq!['-'] + dec_digits((-i) as nat)
    } else {
        dec_digits(i as nat)
    }
}

/// How one character appears inside a printed JSON string.
pub open spec fn esc_char(c: char) -> Seq<char> {
    if c == '"' {
        seq!['\\', '"']
    } else if c == '\\' {
        seq!['\\', '\\']
    } else {
        seq![c]
    }
}

/// A string's characters with quote and backslash escaped.
pub open spec fn escape_str(t: Seq<char>) -> Seq<char>
    decreases t.len(),
{
    if t.len() == 0 {
        Seq::empty()
    } else {
        esc_char(t[0]) + escape_str(t.drop_first())
    }
}

/// Canonical text of a JSON value: no whitespace, strings minimally escaped.
pub open spec fn print_jsonv(v: JsonV) -> Seq<char>
    decreases v,
{
    match v {
        JsonV::Null => seq!['n', 'u', 'l', 'l'],
        JsonV::Bool(b) => if b {
            seq!['t', 'r', 'u', 'e']
        } else {
            seq!['f', 'a', 'l', 's', 'e']
        },
        JsonV::Int(i) => print_int(i),
        JsonV::Str(t) => seq!['"'] + escape_str(t) + seq!['"'],
        JsonV::Arr(vs) => seq!['['] + print_elems(vs) + seq![']'],
        JsonV::Obj(ms) => seq!['{'] + print_members(ms) + seq!['}'],
    }
}

/// Canonical text of array elements, comma separated.
pub open spec fn print_elems(vs: Seq<JsonV>) -> Seq<char>
    decreases vs,
{
    if vs.len() == 0 {
        Seq::empty()
    } else if vs.len() == 1 {
        print_jsonv(vs[0])
    } else {
        print_jsonv(vs[0]) + seq![','] + print_elems(vs.drop_first())
    }
}

/// Canonical text of one object member.
pub open spec fn print_member(m: (Seq<char>, JsonV)) -> Seq<char>
    decreases m,
{
    seq!['"'] + escape_str(m.0) + seq!['"', ':'] + print_jsonv(m.1)
}

/// Canonical text of object members, comma separated.
pub open spec fn print_members(ms: Seq<(Seq<char>, JsonV)>) -> Seq<char>
    decreases ms,
{
    if ms.len() == 0 {
        Seq::empty()
    } else if ms.len() == 1 {
        print_member(ms[0])
    } else {
        print_member(ms[0]) + seq![','] + print_members(ms.drop_first())
    }
}

/// JSON insignificant whitespace.
pub open spec fn is_ws(c: char) -> bool {
    c == ' ' || c == '\n' || c == '\t' || c == '\r'
}

/// First index at or after `i` holding a non-whitespace character.
pub open spec fn skip_ws(s: Seq<char>, i: int) -> int
    decreases s.len() - i,
{
    if 0 <= i < s.len() && is_ws(s[i]) {
        skip_ws(s, i + 1)
    } else {
        i
    }
}

/// Whether a character is a decimal digit.
pub open spec fn is_digit(c: char) -> bool {
    48 <= c as int && c as int <= 57
}

/// Numeric value of a digit character.
pub open spec fn digit_val(c: char) -> int {
    c as int - 48
}

/// The character an escape `\c` stands for, if `c` is a recognized escape.
pub open spec fn unescape_char(c: char) -> Option<char> {
    if c == '"' {
        Some('"')
    } else if c == '\\' {
        Some('\\')
    } else if c == '/' {
        Some('/')
    } else if c == 'n' {
        Some('\n')
    } else if c == 't' {
        Some('\t')
    } else if c == 'r' {
        Some('\r')
    } else if c == 'b' {
        Some('\u{8}')
    } else if c == 'f' {
        Some('\u{c}')
    } else {
        None
    }
}

/// Parses a string body starting inside the quotes at `i`; on success returns
/// the unescaped contents and the index just past the closing quote.
pub open spec fn parse_string_body(s: Seq<char>, i: int) -> Option<(Seq<char>, int)>
    decreases s.len() - i,
{
    if i < 0 || i >= s.len() {
        None
    } else if s[i] == '"' {
        Some((Seq::empty(), i + 1))
    } else if s[i] == '\\' {
        if i + 1 < s.len() {
            match unescape_char(s[i + 1]) {
                Some(c) => match parse_string_body(s, i + 2) {
                    Some((t, j)) => Some((seq![c] + t, j)),
                    None => None,
                },
                None => None,
            }
        } else {
            None
        }
    } else {
        match parse_string_body(s, i + 1) {
            Some((t, j)) => Some((seq![s[i]] + t, j)),
            None => None,
        }
    }
}

/// First index at or after `i` holding a non-digit character.
pub open spec fn digits_end(s: Seq<char>, i: int) -> int
    decreases s.len() - i,
{
    if 0 <= i < s.len() && is_digit(s[i]) {
        digits_end(s, i + 1)
    } else {
        i
    }
}

/// First index at or after `i` whose character is not the digit zero.
pub open spec fn skip_zeros(s: Seq<char>, i: int) -> int
    decreases s.len() - i,
{
    if 0 <= i < s.len() && s[i] == '0' {
        skip_zeros(s, i + 1)
    } else {
        i
    }
}

/// Value of the digit run `s[i..e)`.
pub open spec fn digits_val(s: Seq<char>, i: int, e: int) -> int
    decreases e - i,
{
    if i >= e {
        0
    } else {
        digits_val(s, i, e - 1) * 10 + digit_val(s[e - 1])
    }
}

/// The number of significant digits the integer grammar admits; every such
/// run's value fits in a `u64`.
pub open spec fn max_int_digits() -> int {
    19
}

/// Parses an integer number starting at `j` (which holds `-` or a digit).
pub open spec fn parse_number(s: Seq<char>, j: int) -> Option<(JsonV, int)> {
    let neg = s[j] == '-';
    let d0 = if neg {
        j + 1
    } else {
        j
    };
    if d0 < s.len() && is_digit(s[d0]) {
        let z = skip_zeros(s, d0);
        let e = digits_end(s, z);
        if e - z > max_int_digits() {
            None
        } else {
            let m = digits_val(s, z, e);
            let v = if neg {
                -m
            } else {
                m
            };
            if -0x8000_0000_0000_0000 <= v < 0x8000_0000_0000_0000 {
                Some((JsonV::Int(v), e))
            } else {
                None
            }
        }
    } else {
        None
    }
}

/// Parses one JSON value starting at or after `i` (leading whitespace is
/// skipped); on success returns the value and the index just past its text.
/// The fuel bounds recursion depth; `parse_json` supplies enough for any
/// input of its length.
pub open spec fn parse_value(s: Seq<char>, i: int, fuel: nat) -> Option<(JsonV, int)>
    decreases fuel, 0int,
{
    if fuel == 0 {
        None
    } else {
        let j = skip_ws(s, i);
        if j >= s.len() {
            None
        } else if s[j] == 'n' {
            if j + 4 <= s.len() && s[j + 1] == 'u' && s[j + 2] == 'l' && s[j + 3] == 'l' {
                Some((JsonV::Null, j + 4))
            } else {
                None
            }
        } else if s[j] == 't' {
            if j + 4 <= s.len() && s[j + 1] == 'r' && s[j + 2] == 'u' && s[j + 3] == 'e' {
                Some((JsonV::Bool(true), j + 4))
            } else {
                None
            }
        } else if s[j] == 'f' {
            if j + 5 <= s.len() && s[j + 1] == 'a' && s[j + 2] == 'l' && s[j + 3] == 's' && s[j + 4]
                == 'e' {
                Some((JsonV::Bool(false), j + 5))
            } else {
                None
            }
        } else if s[j] == '"' {
            match parse_string_body(s, j + 1) {
                Some((t, k)) => Some((JsonV::Str(t), k)),
                None => None,
            }
        } else if s[j] == '[' {
            match parse_elems(s, j + 1, (fuel - 1) as nat) {
                Some((vs, k)) => Some((JsonV::Arr(vs), k)),
                None => None,
            }
        } else if s[j] == '{' {
            match parse_members(s, j + 1, (fuel - 1) as nat) {
                Some((ms, k)) => Some((JsonV::Obj(ms), k)),
                None => None,
            }
        } else if s[j] == '-' || is_digit(s[j]) {
            parse_number(s, j)
        } else {
            None
        }
    }
}

/// Parses the elements of an array, starting just after `[` or `,`; on
/// success returns the elements and the index just past the closing `]`.
pub open spec fn parse_elems(s: Seq<char>, i: int, fuel: nat) -> Option<(Seq<JsonV>, int)>
    decreases fuel, 1int,
{
    if fuel == 0 {
        None
    } else {
        let j = skip_ws(s, i);
        if j < s.len() && s[j] == ']' {
            Some((Seq::empty(), j + 1))
        } else {
            match parse_value(s, i, fuel) {
                Some((v, k)) => {
                    let m = skip_ws(s, k);
                    if m < s.len() && s[m] == ',' {
                        match parse_elems(s, m + 1, (fuel - 1) as nat) {
                            Some((vs, e)) => Some((seq![v] + vs, e)),
                            None => None,
                        }
                    } else if m < s.len() && s[m] == ']' {
                        Some((seq![v], m + 1))
                    } else {
                        None
                    }
                },
                None => None,
            }
        }
    }
}

/// Parses the members of an object, starting just after `{` or `,`; on
/// success returns the members and the index just past the closing `}`.
pub open spec fn parse_members(s: Seq<char>, i: int, fuel: nat) -> Option<
    (Seq<(Seq<char>, JsonV)>, int),
>
    decreases fuel, 1int,
{
    if fuel == 0 {
        None
    } else {
        let j = skip_ws(s, i);
        if j >= s.len() {
            None
        } else if s[j] == '}' {
            Some((Seq::empty(), j + 1))
        } else if s[j] == '"' {
            match parse_string_body(s, j + 1) {
                Some((key, k)) => {
                    let c = skip_ws(s, k);
                    if c < s.len() && s[c] == ':' {
                        match parse_value(s, c + 1, fuel) {
                            Some((v, k2)) => {
                                let m = skip_ws(s, k2);
                                if m < s.len() && s[m] == ',' {
                                    match parse_members(s, m + 1, (fuel - 1) as nat) {
                                        Some((ms, e)) => Some((seq![(key, v)] + ms, e)),
                                        None => None,
                                    }
                                } else if m < s.len() && s[m] == '}' {
                                    Some((seq![(key, v)], m + 1))
                                } else {
                                    None
                                }
                            },
                            None => None,
                        }
                    } else {
                        None
                    }
                },
                None => None,
            }
        } else {
            None
        }
    }
}

/// Parses a complete JSON document: one value, with nothing but whitespace
/// around it.
pub open spec fn parse_json(s: Seq<char>) -> Option<JsonV> {
    match parse_value(s, 0, (s.len() + 1) as nat) {
        Some((v, e)) => if skip_ws(s, e) == s.len() {
            Some(v)
        } else {
            None
        },
        None => None,
    }
}

/// Escaping distributes over appending one character.
pub proof fn lemma_escape_snoc(t: Seq<char>, c: char)
    ensures
        escape_str(t.push(c)) == escape_str(t) + esc_char(c),
    decreases t.len(),
{
    if t.len() == 0 {
        assert(t.push(c)[0] == c);
        assert(t.push(c).drop_first() =~= Seq::<char>::empty());
        assert(escape_str(t.push(c)) == esc_char(c) + escape_str(Seq::<char>::empty()));
        assert(esc_char(c) + Seq::<char>::empty() =~= esc_char(c));
        assert(Seq::<char>::empty() + esc_char(c) =~= esc_char(c));
    } else {
        assert(t.push(c)[0] == t[0]);
        assert(t.push(c).drop_first() =~= t.drop_first().push(c));
        lemma_escape_snoc(t.drop_first(), c);
        assert(escape_str(t.push(c)) == esc_char(t[0]) + (escape_str(t.drop_first()) + esc_char(
            c,
        )));
        assert(esc_char(t[0]) + (escape_str(t.drop_first()) + esc_char(c)) =~= (esc_char(t[0])
            + escape_str(t.drop_first())) + esc_char(c));
    }
}

/// Element printing distributes over appending one element.
pub proof fn lemma_print_elems_snoc(vs: Seq<JsonV>, v: JsonV)
    ensures
        print_elems(vs.push(v)) == if vs.len() == 0 {
            print_jsonv(v)
        } else {
            print_elems(vs) + seq![','] + print_jsonv(v)
        },
    decreases vs.len(),
{
    if vs.len() == 0 {
        assert(vs.push(v)[0] == v);
        assert(print_elems(vs.push(v)) == print_jsonv(v));
    } else {
        assert(vs.push(v)[0] == vs[0]);
        assert(vs.push(v).drop_first() =~= vs.drop_first().push(v));
        lemma_print_elems_snoc(vs.drop_first(), v);
        if vs.len() == 1 {
            assert(print_elems(vs.push(v)) == print_jsonv(vs[0]) + seq![','] + print_jsonv(v));
        } else {
            assert(print_elems(vs.push(v)) == print_jsonv(vs[0]) + seq![','] + (print_elems(
                vs.drop_first(),
            ) + seq![','] + print_jsonv(v)));
            assert(print_jsonv(vs[0]) + seq![','] + (print_elems(vs.drop_first()) + seq![',']
                + print_jsonv(v)) =~= ((print_jsonv(vs[0]) + seq![','] + print_elems(
                vs.drop_first(),
            )) + seq![',']) + print_jsonv(v));
        }
    }
}

/// Member printing distributes over appending one member.
pub proof fn lemma_print_members_snoc(ms: Seq<(Seq<char>, JsonV)>, m: (Seq<char>, JsonV))
    ensures
        print_members(ms.push(m)) == if ms.len() == 0 {
            print_member(m)
        } else {
            print_members(ms) + seq![','] + print_member(m)
        },
    decreases ms.len(),
{
    if ms.len() == 0 {
        assert(ms.push(m)[0] == m);
        assert(print_members(ms.push(m)) == print_member(m));
    } else {
        assert(ms.push(m)[0] == ms[0]);
        assert(ms.push(m).drop_first() =~= ms.drop_first().push(m));
        lemma_print_members_snoc(ms.drop_first(), m);
        if ms.len() == 1 {
            assert(print_members(ms.push(m)) == print_member(ms[0]) + seq![','] + print_member(m));
        } else {
            assert(print_members(ms.push(m)) == print_member(ms[0]) + seq![','] + (print_members(
                ms.drop_first(),
            ) + seq![','] + print_member(m)));
            assert(print_member(ms[0]) + seq![','] + (print_members(ms.drop_first()) + seq![',']
                + print_member(m)) =~= ((print_member(ms[0]) + seq![','] + print_members(
                ms.drop_first(),
            )) + seq![',']) + print_member(m));
        }
    }
}

/// Modelling a sequence of values distributes over appending one value.
pub proof fn lemma_jsonv_of_seq_snoc(s: Seq<JsonValue>, x: JsonValue)
    ensures
        jsonv_of_seq(s.push(x)) == jsonv_of_seq(s).push(jsonv_of(x)),
    decreases s.len(),
{
    if s.len() == 0 {
        assert(s.push(x)[0] == x);
        assert(s.push(x).drop_first() =~= Seq::<JsonValue>::empty());
        assert(jsonv_of_seq(s.push(x)) == seq![jsonv_of(x)] + jsonv_of_seq(
            Seq::<JsonValue>::empty(),
        ));
        assert(seq![jsonv_of(x)] + Seq::<JsonV>::empty() =~= Seq::<JsonV>::empty().push(
            jsonv_of(x),
        ));
    } else {
        assert(s.push(x)[0] == s[0]);
        assert(s.push(x).len() == s.len() + 1);
        assert(s.push(x).drop_first() =~= s.drop_first().push(x));
        assert(jsonv_of_seq(s.push(x)) == seq![jsonv_of(s[0])] + jsonv_of_seq(
            s.drop_first().push(x),
        ));
        lemma_jsonv_of_seq_snoc(s.drop_first(), x);
        lemma_jsonv_of_seq_len(s.drop_first());
        assert(jsonv_of_seq(s.push(x)) == seq![jsonv_of(s[0])] + jsonv_of_seq(
            s.drop_first(),
        ).push(jsonv_of(x)));
        assert(seq![jsonv_of(s[0])] + jsonv_of_seq(s.drop_first()).push(jsonv_of(x)) =~= (seq![
            jsonv_of(s[0]),
        ] + jsonv_of_seq(s.drop_first())).push(jsonv_of(x)));
        assert(jsonv_of_seq(s) == seq![jsonv_of(s[0])] + jsonv_of_seq(s.drop_first()));
    }
}

/// Modelling a sequence of members distributes over appending one member.
pub proof fn lemma_jsonv_of_members_snoc(s: Seq<(Vec<char>, JsonValue)>, x: (Vec<char>, JsonValue))
    ensures
        jsonv_of_members(s.push(x)) == jsonv_of_members(s).push((x.0@, jsonv_of(x.1))),
    decreases s.len(),
{
    if s.len() == 0 {
        assert(s.push(x)[0] == x);
        assert(s.push(x).drop_first() =~= Seq::<(Vec<char>, JsonValue)>::empty());
        assert(jsonv_of_members(s.push(x)) == seq![(x.0@, jsonv_of(x.1))] + jsonv_of_members(
            Seq::<(Vec<char>, JsonValue)>::empty(),
        ));
        assert(seq![(x.0@, jsonv_of(x.1))] + Seq::<(Seq<char>, JsonV)>::empty() =~= Seq::<
            (Seq<char>, JsonV),
        >::empty().push((x.0@, jsonv_of(x.1))));
    } else {
        assert(s.push(x)[0] == s[0]);
        assert(s.push(x).len() == s.len() + 1);
        assert(s.push(x).drop_first() =~= s.drop_first().push(x));
        assert(jsonv_of_members(s.push(x)) == seq![(s[0].0@, jsonv_of(s[0].1))]
            + jsonv_of_members(s.drop_first().push(x)));
        lemma_jsonv_of_members_snoc(s.drop_first(), x);
        lemma_jsonv_of_members_len(s.drop_first());
        assert(jsonv_of_members(s.push(x)) == seq![(s[0].0@, jsonv_of(s[0].1))]
            + jsonv_of_members(s.drop_first()).push((x.0@, jsonv_of(x.1))));
        assert(seq![(s[0].0@, jsonv_of(s[0].1))] + jsonv_of_members(s.drop_first()).push(
            (x.0@, jsonv_of(x.1)),
        ) =~= (seq![(s[0].0@, jsonv_of(s[0].1))] + jsonv_of_members(s.drop_first())).push(
            (x.0@, jsonv_of(x.1)),
        ));
        assert(jsonv_of_members(s) == seq![(s[0].0@, jsonv_of(s[0].1))] + jsonv_of_members(
            s.drop_first(),
        ));
    }
}

/// Modelling a sequence of values keeps its length.
pub proof fn lemma_jsonv_of_seq_len(s: Seq<JsonValue>)
    ensures
        jsonv_of_seq(s).len() == s.len(),
    decreases s.len(),
{
    if s.len() > 0 {
        lemma_jsonv_of_seq_len(s.drop_first());
    }
}

/// Modelling a sequence of members keeps its length.
pub proof fn lemma_jsonv_of_members_len(s: Seq<(Vec<char>, JsonValue)>)
    ensures
        jsonv_of_members(s).len() == s.len(),
    decreases s.len(),
{
    if s.len() > 0 {
        lemma_jsonv_of_members_len(s.drop_first());
    }
}

/// Modelling a sequence of values is pointwise.
pub proof fn lemma_jsonv_of_seq_index(s: Seq<JsonValue>, i: int)
    requires
        0 <= i < s.len(),
    ensures
        jsonv_of_seq(s)[i] == jsonv_of(s[i]),
    decreases i,
{
    lemma_jsonv_of_seq_len(s.drop_first());
    if i == 0 {
        assert((seq![jsonv_of(s[0])] + jsonv_of_seq(s.drop_first()))[0] == jsonv_of(s[0]));
    } else {
        lemma_jsonv_of_seq_index(s.drop_first(), i - 1);
        assert((seq![jsonv_of(s[0])] + jsonv_of_seq(s.drop_first()))[i] == jsonv_of_seq(
            s.drop_first(),
        )[i - 1]);
    }
}

/// Modelling a sequence of members is pointwise.
pub proof fn lemma_jsonv_of_members_index(s: Seq<(Vec<char>, JsonValue)>, i: int)
    requires
        0 <= i < s.len(),
    ensures
        jsonv_of_members(s)[i] == (s[i].0@, jsonv_of(s[i].1)),
    decreases i,
{
    lemma_jsonv_of_members_len(s.drop_first());
    if i == 0 {
        assert((seq![(s[0].0@, jsonv_of(s[0].1))] + jsonv_of_members(s.drop_first()))[0] == (
            s[0].0@,
            jsonv_of(s[0].1),
        ));
    } else {
        lemma_jsonv_of_members_index(s.drop_first(), i - 1);
        assert((seq![(s[0].0@, jsonv_of(s[0].1))] + jsonv_of_members(s.drop_first()))[i]
            == jsonv_of_members(s.drop_first())[i - 1]);
    }
}

/// The digit character for one decimal digit value.
fn digit_char_exec(d: u64) -> (c: char)
    requires
        d < 10,
    ensures
        c == digit_char(d as int),
{
    if d == 0 {
        '0'
    } else if d == 1 {
        '1'
    } else if d == 2 {
        '2'
    } else if d == 3 {
        '3'
    } else if d == 4 {
        '4'
    } else if d == 5 {
        '5'
    } else if d == 6 {
        '6'
    } else if d == 7 {
        '7'
    } else if d == 8 {
        '8'
    } else {
        '9'
    }
}

/// Appends the decimal digits of `m`.
fn write_digits(m: u64, out: &mut Vec<char>)
    ensures
        final(out)@ == old(out)@ + dec_digits(m as nat),
    decreases m,
{
    if m < 10 {
        out.push(digit_char_exec(m));
        assert(out@ =~= old(out)@ + dec_digits(m as nat));
    } else {
        write_digits(m / 10, out);
        out.push(digit_char_exec(m % 10));
        assert(out@ =~= old(out)@ + dec_digits(m as nat));
    }
}

/// Appends the decimal text of `i`, with a leading minus when negative.
pub fn write_int(i: i64, out: &mut Vec<char>)
    ensures
        final(out)@ == old(out)@ + print_int(i as int),
{
    if i >= 0 {
        write_digits(i as u64, out);
    } else {
        out.push('-');
        let m: u64 = (-(i as i128)) as u64;
        assert(m as nat == (-(i as int)) as nat);
        write_digits(m, out);
        assert(out@ =~= old(out)@ + print_int(i as int));
    }
}

/// Appends the characters of `t`, escaped for a JSON string body.
fn write_escaped(t: &Vec<char>, out: &mut Vec<char>)
    ensures
        final(out)@ == old(out)@ + escape_str(t@),
{
    let n = t.len();
    let mut k: usize = 0;
    while k < n
        invariant
            n == t@.len(),
            k <= n,
            out@ == old(out)@ + escape_str(t@.take(k as int)),
        decreases n - k,
    {
        let c = t[k];
        if c == '"' {
            out.push('\\');
            out.push('"');
        } else if c == '\\' {
            out.push('\\');
            out.push('\\');
        } else {
            out.push(c);
        }
        proof {
            assert(t@.take(k + 1 as int) =~= t@.take(k as int).push(t@[k as int]));
            lemma_escape_snoc(t@.take(k as int), t@[k as int]);
            assert(out@ =~= old(out)@ + escape_str(t@.take(k + 1 as int)));
        }
        k = k + 1;
    }
    proof {
        assert(t@.take(n as int) =~= t@);
    }
}

/// Appends the canonical text of `j`.
pub fn write_json(j: &JsonValue, out: &mut Vec<char>)
    ensures
        final(out)@ == old(out)@ + print_jsonv(j@),
    decreases j@,
{
    match j {
        JsonValue::Null => {
            out.push('n');
            out.push('u');
            out.push('l');
            out.push('l');
            assert(out@ =~= old(out)@ + print_jsonv(j@));
        },
        JsonValue::Bool(b) => {
            if *b {
                out.push('t');
                out.push('r');
                out.push('u');
                out.push('e');
            } else {
                out.push('f');
                out.push('a');
                out.push('l');
                out.push('s');
                out.push('e');
            }
            assert(out@ =~= old(out)@ + print_jsonv(j@));
        },
        JsonValue::Int(i) => {
            write_int(*i, out);
        },
        JsonValue::Str(t) => {
            out.push('"');
            write_escaped(t, out);
            out.push('"');
            assert(out@ =~= old(out)@ + print_jsonv(j@));
        },
        JsonValue::Arr(vs) => {
            out.push('[');
            let n = vs.len();
            let mut k: usize = 0;
            while k < n
                invariant
                    j@ == JsonV::Arr(jsonv_of_seq(vs@)),
                    n == vs@.len(),
                    k <= n,
                    out@ == old(out)@ + seq!['['] + print_elems(jsonv_of_seq(vs@.take(k as int))),
                decreases n - k,
            {
                if k > 0 {
                    out.push(',');
                }
                proof {
                    lemma_jsonv_of_seq_len(vs@);
                    lemma_jsonv_of_seq_index(vs@, k as int);
                    assert(decreases_to!(j@ => j@->Arr_0));
                    assert(decreases_to!(j@->Arr_0 => j@->Arr_0[k as int]));
                }
                write_json(&vs[k], out);
                proof {
                    assert(vs@.take(k + 1 as int) =~= vs@.take(k as int).push(vs@[k as int]));
                    lemma_jsonv_of_seq_snoc(vs@.take(k as int), vs@[k as int]);
                    lemma_print_elems_snoc(
                        jsonv_of_seq(vs@.take(k as int)),
                        jsonv_of(vs@[k as int]),
                    );
                    lemma_jsonv_of_seq_len(vs@.take(k as int));
                    assert(out@ =~= old(out)@ + seq!['['] + print_elems(
                        jsonv_of_seq(vs@.take(k + 1 as int)),
                    ));
                }
                k = k + 1;
            }
            out.push(']');
            proof {
                assert(vs@.take(n as int) =~= vs@);
                assert(out@ =~= old(out)@ + print_jsonv(j@));
            }
        },
        JsonValue::Obj(ms) => {
            out.push('{');
            let n = ms.len();
            let mut k: usize = 0;
            while k < n
                invariant
                    j@ == JsonV::Obj(jsonv_of_members(ms@)),
                    n == ms@.len(),
                    k <= n,
                    out@ == old(out)@ + seq!['{'] + print_members(
                        jsonv_of_members(ms@.take(k as int)),
                    ),
                decreases n - k,
            {
                if k > 0 {
                    out.push(',');
                }
                out.push('"');
                write_escaped(&ms[k].0, out);
                out.push('"');
                out.push(':');
                proof {
                    lemma_jsonv_of_members_len(ms@);
                    lemma_jsonv_of_members_index(ms@, k as int);
                    assert(decreases_to!(j@ => j@->Obj_0));
                    assert(decreases_to!(j@->Obj_0 => j@->Obj_0[k as int]));
                    assert(decreases_to!(j@->Obj_0[k as int] => j@->Obj_0[k as int].1));
                }
                write_json(&ms[k].1, out);
                proof {
                    assert(ms@.take(k + 1 as int) =~= ms@.take(k as int).push(ms@[k as int]));
                    lemma_jsonv_of_members_snoc(ms@.take(k as int), ms@[k as int]);
                    lemma_print_members_snoc(
                        jsonv_of_members(ms@.take(k as int)),
                        (ms@[k as int].0@, jsonv_of(ms@[k as int].1)),
                    );
                    lemma_jsonv_of_members_len(ms@.take(k as int));
                    assert(out@ =~= old(out)@ + seq!['{'] + print_members(
                        jsonv_of_members(ms@.take(k + 1 as int)),
                    ));
                }
                k = k + 1;
            }
            out.push('}');
            proof {
                assert(ms@.take(n as int) =~= ms@);
                assert(out@ =~= old(out)@ + print_jsonv(j@));
            }
        },
    }
}

/// The canonical text of `j` as a character vector.
pub fn json_to_chars(j: &JsonValue) -> (out: Vec<char>)
    ensures
        out@ == print_jsonv(j@),
{
    let mut out: Vec<char> = Vec::new();
    write_json(j, &mut out);
    out
}

/// Powers of ten.
pub open spec fn pow10(k: nat) -> int
    decreases k,
{
    if k == 0 {
        1
    } else {
        10 * pow10((k - 1) as nat)
    }
}

/// A digit run's value is below the power of ten for its width.
pub proof fn lemma_digits_val_bound(s: Seq<char>, i: int, e: int)
    requires
        i <= e,
        forall|k: int| i <= k < e ==> 0 <= #[trigger] digit_val(s[k]) <= 9,
    ensures
        0 <= digits_val(s, i, e) < pow10((e - i) as nat),
    decreases e - i,
{
    if i < e {
        lemma_digits_val_bound(s, i, e - 1);
    }
}

/// Powers of ten do not decrease.
pub proof fn lemma_pow10_mono(a: nat, b: nat)
    requires
        a <= b,
    ensures
        pow10(a) <= pow10(b),
    decreases b - a,
{
    if a < b {
        lemma_pow10_mono(a, (b - 1) as nat);
        lemma_pow10_pos((b - 1) as nat);
    }
}

/// Powers of ten are positive.
pub proof fn lemma_pow10_pos(k: nat)
    ensures
        pow10(k) >= 1,
    decreases k,
{
    if k > 0 {
        lemma_pow10_pos((k - 1) as nat);
    }
}

/// Whether a character is JSON whitespace.
fn is_ws_exec(c: char) -> (b: bool)
    ensures
        b == is_ws(c),
{
    c == ' ' || c == '\n' || c == '\t' || c == '\r'
}

/// Whether a character is a decimal digit.
fn is_digit_exec(c: char) -> (b: bool)
    ensures
        b == is_digit(c),
{
    let u = c as u32;
    48 <= u && u <= 57
}

/// The index of the first non-whitespace character at or after `i`.
fn skip_ws_at(s: &Vec<char>, i: usize) -> (r: usize)
    requires
        i <= s@.len(),
    ensures
        r as int == skip_ws(s@, i as int),
        i <= r <= s@.len(),
{
    let n = s.len();
    let mut k = i;
    while k < n && is_ws_exec(s[k])
        invariant
            i <= k <= n,
            n == s@.len(),
            skip_ws(s@, i as int) == skip_ws(s@, k as int),
        decreases n - k,
    {
        k = k + 1;
    }
    k
}

/// The index of the first non-digit character at or after `i`.
fn digits_end_at(s: &Vec<char>, i: usize) -> (r: usize)
    requires
        i <= s@.len(),
    ensures
        r as int == digits_end(s@, i as int),
        i <= r <= s@.len(),
{
    let n = s.len();
    let mut k = i;
    while k < n && is_digit_exec(s[k])
        invariant
            i <= k <= n,
            n == s@.len(),
            digits_end(s@, i as int) == digits_end(s@, k as int),
        decreases n - k,
    {
        k = k + 1;
    }
    k
}

/// The index of the first character at or after `i` that is not a zero digit.
fn skip_zeros_at(s: &Vec<char>, i: usize) -> (r: usize)
    requires
        i <= s@.len(),
    ensures
        r as int == skip_zeros(s@, i as int),
        i <= r <= s@.len(),
{
    let n = s.len();
    let mut k = i;
    while k < n && s[k] == '0'
        invariant
            i <= k <= n,
            n == s@.len(),
            skip_zeros(s@, i as int) == skip_zeros(s@, k as int),
        decreases n - k,
    {
        k = k + 1;
    }
    k
}

/// The character an escape stands for, if recognized.
fn unescape_exec(c: char) -> (r: Option<char>)
    ensures
        r == unescape_char(c),
{
    if c == '"' {
        Some('"')
    } else if c == '\\' {
        Some('\\')
    } else if c == '/' {
        Some('/')
    } else if c == 'n' {
        Some('\n')
    } else if c == 't' {
        Some('\t')
    } else if c == 'r' {
        Some('\r')
    } else if c == 'b' {
        Some('\u{8}')
    } else if c == 'f' {
        Some('\u{c}')
    } else {
        None
    }
}

/// Parses a string body starting inside the quotes at `i`.
fn parse_string_at(s: &Vec<char>, i: usize) -> (r: Option<(Vec<char>, usize)>)
    requires
        i <= s@.len(),
    ensures
        match r {
            Some(p) => parse_string_body(s@, i as int) == Some((p.0@, p.1 as int)) && i < p.1
                <= s@.len(),
            None => parse_string_body(s@, i as int) is None,
        },
    decreases s@.len() - i,
{
    if i >= s.len() {
        None
    } else {
        let c = s[i];
        if c == '"' {
            let t: Vec<char> = Vec::new();
            Some((t, i + 1))
        } else if c == '\\' {
            if i + 1 < s.len() {
                match unescape_exec(s[i + 1]) {
                    Some(uc) => {
                        match parse_string_at(s, i + 2) {
                            Some(p) => {
                                let (mut t, j) = p;
                                let ghost t0 = t@;
                                t.insert(0, uc);
                                proof {
                                    assert(t@ =~= seq![uc] + t0);
                                }
                                Some((t, j))
                            },
                            None => None,
                        }
                    },
                    None => None,
                }
            } else {
                None
            }
        } else {
            match parse_string_at(s, i + 1) {
                Some(p) => {
                    let (mut t, j) = p;
                    let ghost t0 = t@;
                    t.insert(0, c);
                    proof {
                        assert(t@ =~= seq![c] + t0);
                    }
                    Some((t, j))
                },
                None => None,
            }
        }
    }
}

/// Parses an integer number starting at `j`.
fn parse_number_at(s: &Vec<char>, j: usize) -> (r: Option<(JsonValue, usize)>)
    requires
        j < s@.len(),
    ensures
        match r {
            Some(p) => parse_number(s@, j as int) == Some((p.0@, p.1 as int)) && j < p.1
                <= s@.len(),
            None => parse_number(s@, j as int) is None,
        },
{
    let n = s.len();
    let neg = s[j] == '-';
    let d0 = if neg {
        j + 1
    } else {
        j
    };
    if d0 < n && is_digit_exec(s[d0]) {
        let z = skip_zeros_at(s, d0);
        let e = digits_end_at(s, z);
        proof {
            if z == d0 {
                lemma_digits_end_digits(s@, d0 as int + 1);
                assert(digits_end(s@, z as int) == digits_end(s@, z as int + 1));
            }
            assert(e > j);
        }
        if e - z > 19 {
            None
        } else {
            proof {
                lemma_skip_zeros_le_digits_end(s@, d0 as int);
            }
            let mut val: u64 = 0;
            let mut k = z;
            while k < e
                invariant
                    z <= k <= e <= s@.len(),
                    e - z <= 19,
                    e as int == digits_end(s@, z as int),
                    forall|q: int| z <= q < e ==> is_digit(#[trigger] s@[q]),
                    val as int == digits_val(s@, z as int, k as int),
                decreases e - k,
            {
                proof {
                    lemma_digits_val_bound(s@, z as int, k as int);
                    lemma_pow10_mono((k - z) as nat, 18);
                    lemma_pow10_values();
                }
                let d = (s[k] as u32 as u64) - 48;
                val = val * 10 + d;
                k = k + 1;
            }
            proof {
                lemma_digits_val_bound(s@, z as int, e as int);
                lemma_pow10_mono((e - z) as nat, 19);
                lemma_pow10_values();
            }
            if neg {
                if val <= 9223372036854775808 {
                    proof {
                        assert(-0x8000_0000_0000_0000 <= -(val as int) < 0x8000_0000_0000_0000);
                    }
                    let iv: i64 = (-(val as i128)) as i64;
                    proof {
                        assert(iv as int == -(val as int));
                    }
                    Some((JsonValue::Int(iv), e))
                } else {
                    None
                }
            } else {
                if val <= 9223372036854775807 {
                    Some((JsonValue::Int(val as i64), e))
                } else {
                    None
                }
            }
        }
    } else {
        None
    }
}

/// The digit run examined by the number grammar is well formed.
proof fn lemma_skip_zeros_le_digits_end(s: Seq<char>, i: int)
    requires
        0 <= i <= s.len(),
    ensures
        i <= skip_zeros(s, i) <= digits_end(s, skip_zeros(s, i)) <= s.len(),
        forall|q: int|
            skip_zeros(s, i) <= q < digits_end(s, skip_zeros(s, i)) ==> is_digit(#[trigger] s[q]),
    decreases s.len() - i,
{
    if i < s.len() && s[i] == '0' {
        lemma_skip_zeros_le_digits_end(s, i + 1);
    } else {
        lemma_digits_end_digits(s, i);
    }
}

/// Everything before a digit run's end is a digit.
proof fn lemma_digits_end_digits(s: Seq<char>, i: int)
    requires
        0 <= i <= s.len(),
    ensures
        i <= digits_end(s, i) <= s.len(),
        forall|q: int| i <= q < digits_end(s, i) ==> is_digit(#[trigger] s[q]),
    decreases s.len() - i,
{
    if i < s.len() && is_digit(s[i]) {
        lemma_digits_end_digits(s, i + 1);
    }
}

/// Concrete powers of ten used by the number bounds.
proof fn lemma_pow10_values()
    ensures
        pow10(18) == 0x0DE0_B6B3_A764_0000,
        pow10(19) == 0x8AC7_2304_89E8_0000,
{
    reveal_with_fuel(pow10, 21);
}

/// Parses one JSON value starting at or after `i`, skipping leading
/// whitespace.
fn parse_value_at(s: &Vec<char>, i: usize, Ghost(fuel): Ghost<nat>) -> (r: Option<
    (JsonValue, usize),
>)
    requires
        i <= s@.len(),
        fuel >= s@.len() - i + 1,
    ensures
        match r {
            Some(p) => parse_value(s@, i as int, fuel) == Some((p.0@, p.1 as int)) && i < p.1
                <= s@.len(),
            None => parse_value(s@, i as int, fuel) is None,
        },
    decreases s@.len() - i, 0int,
{
    let n = s.len();
    let j = skip_ws_at(s, i);
    if j >= n {
        None
    } else {
        let c = s[j];
        if c == 'n' {
            if n - j >= 4 && s[j + 1] == 'u' && s[j + 2] == 'l' && s[j + 3] == 'l' {
                Some((JsonValue::Null, j + 4))
            } else {
                None
            }
        } else if c == 't' {
            if n - j >= 4 && s[j + 1] == 'r' && s[j + 2] == 'u' && s[j + 3] == 'e' {
                Some((JsonValue::Bool(true), j + 4))
            } else {
                None
            }
        } else if c == 'f' {
            if n - j >= 5 && s[j + 1] == 'a' && s[j + 2] == 'l' && s[j + 3] == 's' && s[j + 4]
                == 'e' {
                Some((JsonValue::Bool(false), j + 5))
            } else {
                None
            }
        } else if c == '"' {
            match parse_string_at(s, j + 1) {
                Some(p) => {
                    let (t, k) = p;
                    Some((JsonValue::Str(t), k))
                },
                None => None,
            }
        } else if c == '[' {
            match parse_elems_at(s, j + 1, Ghost((fuel - 1) as nat)) {
                Some(p) => {
                    let (vs, k) = p;
                    Some((JsonValue::Arr(vs), k))
                },
                None => None,
            }
        } else if c == '{' {
            match parse_members_at(s, j + 1, Ghost((fuel - 1) as nat)) {
                Some(p) => {
                    let (ms, k) = p;
                    Some((JsonValue::Obj(ms), k))
                },
                None => None,
            }
        } else if c == '-' || is_digit_exec(c) {
            parse_number_at(s, j)
        } else {
            None
        }
    }
}

/// Parses array elements, starting just after `[` or `,`.
fn parse_elems_at(s: &Vec<char>, i: usize, Ghost(fuel): Ghost<nat>) -> (r: Option<
    (Vec<JsonValue>, usize),
>)
    requires
        i <= s@.len(),
        fuel >= s@.len() - i + 1,
    ensures
        match r {
            Some(p) => parse_elems(s@, i as int, fuel) == Some((jsonv_of_seq(p.0@), p.1 as int))
                && i < p.1 <= s@.len(),
            None => parse_elems(s@, i as int, fuel) is None,
        },
    decreases s@.len() - i, 1int,
{
    let n = s.len();
    let j = skip_ws_at(s, i);
    if j < n && s[j] == ']' {
        let vs: Vec<JsonValue> = Vec::new();
        proof {
            assert(jsonv_of_seq(vs@) =~= Seq::<JsonV>::empty());
        }
        Some((vs, j + 1))
    } else {
        match parse_value_at(s, i, Ghost(fuel)) {
            Some(p) => {
                let (v, k) = p;
                let m = skip_ws_at(s, k);
                if m < n && s[m] == ',' {
                    match parse_elems_at(s, m + 1, Ghost((fuel - 1) as nat)) {
                        Some(q) => {
                            let (mut vs, e) = q;
                            let ghost vs0 = vs@;
                            let ghost velem = v;
                            vs.insert(0, v);
                            proof {
                                assert(vs@ =~= seq![velem] + vs0);
                                assert(vs@[0] == velem);
                                assert(vs@.drop_first() =~= vs0);
                                assert(jsonv_of_seq(vs@) == seq![jsonv_of(vs@[0])] + jsonv_of_seq(
                                    vs@.drop_first(),
                                ));
                                assert(jsonv_of_seq(vs@) == seq![jsonv_of(velem)] + jsonv_of_seq(
                                    vs0,
                                ));
                            }
                            Some((vs, e))
                        },
                        None => None,
                    }
                } else if m < n && s[m] == ']' {
                    let ghost velem = v;
                    let mut vs: Vec<JsonValue> = Vec::new();
                    vs.push(v);
                    proof {
                        assert(vs@ =~= seq![velem]);
                        assert(vs@[0] == velem);
                        assert(vs@.drop_first() =~= Seq::<JsonValue>::empty());
                        assert(jsonv_of_seq(Seq::<JsonValue>::empty()) == Seq::<JsonV>::empty());
                        assert(jsonv_of_seq(vs@) == seq![jsonv_of(vs@[0])] + jsonv_of_seq(
                            vs@.drop_first(),
                        ));
                        assert(seq![jsonv_of(velem)] + Seq::<JsonV>::empty() =~= seq![
                            jsonv_of(velem),
                        ]);
                    }
                    Some((vs, m + 1))
                } else {
                    None
                }
            },
            None => None,
        }
    }
}

/// Parses object members, starting just after `{` or `,`.
fn parse_members_at(s: &Vec<char>, i: usize, Ghost(fuel): Ghost<nat>) -> (r: Option<
    (Vec<(Vec<char>, JsonValue)>, usize),
>)
    requires
        i <= s@.len(),
        fuel >= s@.len() - i + 1,
    ensures
        match r {
            Some(p) => parse_members(s@, i as int, fuel) == Some(
                (jsonv_of_members(p.0@), p.1 as int),
            ) && i < p.1 <= s@.len(),
            None => parse_members(s@, i as int, fuel) is None,
        },
    decreases s@.len() - i, 1int,
{
    let n = s.len();
    let j = skip_ws_at(s, i);
    if j >= n {
        None
    } else if s[j] == '}' {
        let ms: Vec<(Vec<char>, JsonValue)> = Vec::new();
        proof {
            assert(jsonv_of_members(ms@) =~= Seq::<(Seq<char>, JsonV)>::empty());
        }
        Some((ms, j + 1))
    } else if s[j] == '"' {
        match parse_string_at(s, j + 1) {
            Some(p) => {
                let (key, k) = p;
                let c = skip_ws_at(s, k);
                if c < n && s[c] == ':' {
                    match parse_value_at(s, c + 1, Ghost(fuel)) {
                        Some(q) => {
                            let (v, k2) = q;
                            let m = skip_ws_at(s, k2);
                            if m < n && s[m] == ',' {
                                match parse_members_at(s, m + 1, Ghost((fuel - 1) as nat)) {
                                    Some(w) => {
                                        let (mut ms, e) = w;
                                        let ghost ms0 = ms@;
                                        let ghost kelem = key;
                                        let ghost velem = v;
                                        ms.insert(0, (key, v));
                                        proof {
                                            assert(ms@ =~= seq![(kelem, velem)] + ms0);
                                            assert(ms@[0] == (kelem, velem));
                                            assert(ms@.drop_first() =~= ms0);
                                            assert(jsonv_of_members(ms@) == seq![
                                                (ms@[0].0@, jsonv_of(ms@[0].1)),
                                            ] + jsonv_of_members(ms@.drop_first()));
                                            assert(jsonv_of_members(ms@) == seq![
                                                (kelem@, jsonv_of(velem)),
                                            ] + jsonv_of_members(ms0));
                                        }
                                        Some((ms, e))
                                    },
                                    None => None,
                                }
                            } else if m < n && s[m] == '}' {
                                let ghost kelem = key;
                                let ghost velem = v;
                                let mut ms: Vec<(Vec<char>, JsonValue)> = Vec::new();
                                ms.push((key, v));
                                proof {
                                    assert(ms@ =~= seq![(kelem, velem)]);
                                    assert(ms@[0] == (kelem, velem));
                                    assert(ms@.drop_first() =~= Seq::<
                                        (Vec<char>, JsonValue),
                                    >::empty());
                                    assert(jsonv_of_members(
                                        Seq::<(Vec<char>, JsonValue)>::empty(),
                                    ) == Seq::<(Seq<char>, JsonV)>::empty());
                                    assert(jsonv_of_members(ms@) == seq![
                                        (ms@[0].0@, jsonv_of(ms@[0].1)),
                                    ] + jsonv_of_members(ms@.drop_first()));
                                    assert(seq![(kelem@, jsonv_of(velem))] + Seq::<
                                        (Seq<char>, JsonV),
                                    >::empty() =~= seq![(kelem@, jsonv_of(velem))]);
                                }
                                Some((ms, m + 1))
                            } else {
                                None
                            }
                        },
                        None => None,
                    }
                } else {
                    None
                }
            },
            None => None,
        }
    } else {
        None
    }
}

/// Parses a complete JSON document held in a character vector.
pub fn parse_json_chars(s: &Vec<char>) -> (r: Option<JsonValue>)
    ensures
        match r {
            Some(j) => parse_json(s@) == Some(j@),
            None => parse_json(s@) is None,
        },
{
    match parse_value_at(s, 0, Ghost((s@.len() + 1) as nat)) {
        Some(p) => {
            let (v, e) = p;
            let t = skip_ws_at(s, e);
            if t == s.len() {
                Some(v)
            } else {
                None
            }
        },
        None => None,
    }
}

/// Whether every integer a value holds fits the wire grammar's 64-bit
/// range; the round-trip law is stated for such values, and every value the
/// crate prints — a content tree, a field list, a decoded payload — is one.
pub open spec fn printable(v: JsonV) -> bool
    decreases v,
{
    match v {
        JsonV::Null => true,
        JsonV::Bool(_) => true,
        JsonV::Int(i) => -0x8000_0000_0000_0000 <= i < 0x8000_0000_0000_0000,
        JsonV::Str(_) => true,
        JsonV::Arr(vs) => printable_seq(vs),
        JsonV::Obj(ms) => printable_members(ms),
    }
}

/// Whether every value of a sequence is printable.
pub open spec fn printable_seq(vs: Seq<JsonV>) -> bool
    decreases vs,
{
    if vs.len() == 0 {
        true
    } else {
        printable(vs[0]) && printable_seq(vs.drop_first())
    }
}

/// Whether every member value of a sequence is printable.
pub open spec fn printable_members(ms: Seq<(Seq<char>, JsonV)>) -> bool
    decreases ms,
{
    if ms.len() == 0 {
        true
    } else {
        printable(ms[0].1) && printable_members(ms.drop_first())
    }
}

/// A printed value is at least one character long and starts with its
/// kind's opening character.
proof fn lemma_print_first(v: JsonV)
    ensures
        print_jsonv(v).len() >= 1,
        print_jsonv(v)[0] == 'n' || print_jsonv(v)[0] == 't' || print_jsonv(v)[0] == 'f'
            || print_jsonv(v)[0] == '"' || print_jsonv(v)[0] == '[' || print_jsonv(v)[0] == '{'
            || print_jsonv(v)[0] == '-' || is_digit(print_jsonv(v)[0]),
{
    match v {
        JsonV::Null => {
            assert(print_jsonv(v)[0] == 'n');
        },
        JsonV::Bool(b) => {
            if b {
                assert(print_jsonv(v)[0] == 't');
            } else {
                assert(print_jsonv(v)[0] == 'f');
            }
        },
        JsonV::Int(i) => {
            let n: nat = if i < 0 {
                (-i) as nat
            } else {
                i as nat
            };
            lemma_dec_digits_are_digits(n);
            assert(is_digit(dec_digits(n)[0]));
            if i < 0 {
                assert(print_jsonv(v)[0] == (seq!['-'] + dec_digits(n))[0]);
            } else {
                assert(print_jsonv(v)[0] == dec_digits(n)[0]);
            }
        },
        JsonV::Str(t) => {
            assert(print_jsonv(v) == seq!['"'] + escape_str(t) + seq!['"']);
            assert((seq!['"'] + escape_str(t) + seq!['"'])[0] == '"');
        },
        JsonV::Arr(vs) => {
            assert(print_jsonv(v) == seq!['['] + print_elems(vs) + seq![']']);
            assert((seq!['['] + print_elems(vs) + seq![']'])[0] == '[');
        },
        JsonV::Obj(ms) => {
            assert(print_jsonv(v) == seq!['{'] + print_members(ms) + seq!['}']);
            assert((seq!['{'] + print_members(ms) + seq!['}'])[0] == '{');
        },
    }
}

/// Parsing a string body over printed, escaped text recovers the original
/// characters and stops just past the closing quote.
proof fn lemma_parse_print_string(t: Seq<char>, s: Seq<char>, i: int)
    requires
        0 <= i,
        i + escape_str(t).len() + 1 <= s.len(),
        forall|k: int| 0 <= k < escape_str(t).len() ==> s[i + k] == #[trigger] escape_str(t)[k],
        s[i + escape_str(t).len() as int] == '"',
    ensures
        parse_string_body(s, i) == Some((t, i + escape_str(t).len() + 1)),
    decreases t.len(),
{
    if t.len() == 0 {
        assert(s[i] == '"');
    } else {
        let c = t[0];
        let rest = t.drop_first();
        assert(escape_str(t) == esc_char(c) + escape_str(rest));
        let w = esc_char(c).len();
        assert forall|k: int| 0 <= k < escape_str(rest).len() implies s[i + w + k] == #[trigger]
        escape_str(rest)[k] by {
            assert(escape_str(t)[w + k] == (esc_char(c) + escape_str(rest))[w + k]);
            assert((esc_char(c) + escape_str(rest))[w + k] == escape_str(rest)[k]);
        };
        assert(s[i + w + escape_str(rest).len() as int] == '"');
        lemma_parse_print_string(rest, s, i + w);
        if c == '"' {
            assert(escape_str(t)[0] == (esc_char(c) + escape_str(rest))[0]);
            assert(escape_str(t)[1] == (esc_char(c) + escape_str(rest))[1]);
            assert(s[i] == '\\' && s[i + 1] == '"');
            assert(unescape_char(s[i + 1]) == Some('"'));
            assert(seq![c] + rest =~= t);
        } else if c == '\\' {
            assert(escape_str(t)[0] == (esc_char(c) + escape_str(rest))[0]);
            assert(escape_str(t)[1] == (esc_char(c) + escape_str(rest))[1]);
            assert(s[i] == '\\' && s[i + 1] == '\\');
            assert(unescape_char(s[i + 1]) == Some('\\'));
            assert(seq![c] + rest =~= t);
        } else {
            assert(escape_str(t)[0] == (esc_char(c) + escape_str(rest))[0]);
            assert(s[i] == c);
            assert(seq![c] + rest =~= t);
        }
    }
}

/// Parsing printed text of an integer-free value recovers the value and
/// stops just past its text.
proof fn lemma_parse_print_value(v: JsonV, s: Seq<char>, i: int, fuel: nat)
    requires
        printable(v),
        0 <= i,
        i + print_jsonv(v).len() <= s.len(),
        forall|k: int| 0 <= k < print_jsonv(v).len() ==> s[i + k] == #[trigger] print_jsonv(v)[k],
        i + print_jsonv(v).len() == s.len() || !is_digit(s[i + print_jsonv(v).len() as int]),
        fuel >= s.len() - i + 1,
    ensures
        parse_value(s, i, fuel) == Some((v, i + print_jsonv(v).len())),
    decreases v,
{
    lemma_print_first(v);
    assert(s[i] == print_jsonv(v)[0]);
    assert(!is_ws(s[i]));
    assert(skip_ws(s, i) == i);
    match v {
        JsonV::Null => {
            assert(print_jsonv(v)[1] == 'u' && print_jsonv(v)[2] == 'l' && print_jsonv(v)[3]
                == 'l');
            assert(s[i + 1] == 'u' && s[i + 2] == 'l' && s[i + 3] == 'l');
        },
        JsonV::Bool(b) => {
            if b {
                assert(print_jsonv(v)[1] == 'r' && print_jsonv(v)[2] == 'u' && print_jsonv(v)[3]
                    == 'e');
                assert(s[i + 1] == 'r' && s[i + 2] == 'u' && s[i + 3] == 'e');
            } else {
                assert(print_jsonv(v)[1] == 'a' && print_jsonv(v)[2] == 'l' && print_jsonv(v)[3]
                    == 's' && print_jsonv(v)[4] == 'e');
                assert(s[i + 1] == 'a' && s[i + 2] == 'l' && s[i + 3] == 's' && s[i + 4] == 'e');
            }
        },
        JsonV::Int(iv) => {
            assert forall|k: int| 0 <= k < print_int(iv).len() implies s[i + k] == #[trigger]
            print_int(iv)[k] by {
                assert(s[i + k] == print_jsonv(v)[k]);
            };
            lemma_parse_print_number(iv, s, i);
        },
        JsonV::Str(t) => {
            assert(print_jsonv(v) == seq!['"'] + escape_str(t) + seq!['"']);
            assert forall|k: int| 0 <= k < escape_str(t).len() implies s[i + 1 + k] == #[trigger]
            escape_str(t)[k] by {
                assert(print_jsonv(v)[1 + k] == (seq!['"'] + escape_str(t) + seq!['"'])[1 + k]);
                assert((seq!['"'] + escape_str(t) + seq!['"'])[1 + k] == escape_str(t)[k]);
            };
            assert(s[i + 1 + escape_str(t).len() as int] == '"') by {
                assert(print_jsonv(v)[1 + escape_str(t).len() as int] == (seq!['"'] + escape_str(t)
                    + seq!['"'])[1 + escape_str(t).len() as int]);
            };
            lemma_parse_print_string(t, s, i + 1);
        },
        JsonV::Arr(vs) => {
            assert(print_jsonv(v) == seq!['['] + print_elems(vs) + seq![']']);
            assert forall|k: int| 0 <= k < print_elems(vs).len() implies s[i + 1 + k] == #[trigger]
            print_elems(vs)[k] by {
                assert(print_jsonv(v)[1 + k] == (seq!['['] + print_elems(vs) + seq![']'])[1 + k]);
                assert((seq!['['] + print_elems(vs) + seq![']'])[1 + k] == print_elems(vs)[k]);
            };
            assert(s[i + 1 + print_elems(vs).len() as int] == ']') by {
                assert(print_jsonv(v)[1 + print_elems(vs).len() as int] == (seq!['['] + print_elems(vs)
                    + seq![']'])[1 + print_elems(vs).len() as int]);
            };
            lemma_parse_print_elems(vs, s, i + 1, (fuel - 1) as nat);
        },
        JsonV::Obj(ms) => {
            assert(print_jsonv(v) == seq!['{'] + print_members(ms) + seq!['}']);
            assert forall|k: int| 0 <= k < print_members(ms).len() implies s[i + 1 + k]
                == #[trigger] print_members(ms)[k] by {
                assert(print_jsonv(v)[1 + k] == (seq!['{'] + print_members(ms) + seq!['}'])[1
                    + k]);
                assert((seq!['{'] + print_members(ms) + seq!['}'])[1 + k] == print_members(ms)[k]);
            };
            assert(s[i + 1 + print_members(ms).len() as int] == '}') by {
                assert(print_jsonv(v)[1 + print_members(ms).len() as int] == (seq!['{'] + print_members(
                    ms,
                ) + seq!['}'])[1 + print_members(ms).len() as int]);
            };
            lemma_parse_print_members(ms, s, i + 1, (fuel - 1) as nat);
        },
    }
}

/// Parsing printed element text followed by `]` recovers the elements.
proof fn lemma_parse_print_elems(vs: Seq<JsonV>, s: Seq<char>, i: int, fuel: nat)
    requires
        printable_seq(vs),
        0 <= i,
        i + print_elems(vs).len() + 1 <= s.len(),
        forall|k: int| 0 <= k < print_elems(vs).len() ==> s[i + k] == #[trigger] print_elems(
            vs,
        )[k],
        s[i + print_elems(vs).len() as int] == ']',
        fuel >= s.len() - i + 1,
    ensures
        parse_elems(s, i, fuel) == Some((vs, i + print_elems(vs).len() + 1)),
    decreases vs,
{
    if vs.len() == 0 {
        assert(s[i] == ']');
        assert(skip_ws(s, i) == i);
        assert(vs =~= Seq::<JsonV>::empty());
    } else {
        assert(printable(vs[0]) && printable_seq(vs.drop_first()));
        lemma_print_first(vs[0]);
        if vs.len() == 1 {
            assert(print_elems(vs) == print_jsonv(vs[0]));
            assert forall|k: int| 0 <= k < print_jsonv(vs[0]).len() implies s[i + k] == #[trigger]
            print_jsonv(vs[0])[k] by {
                assert(print_elems(vs)[k] == print_jsonv(vs[0])[k]);
            };
            assert(s[i] == print_jsonv(vs[0])[0]);
            assert(!is_ws(s[i]) && s[i] != ']');
            assert(skip_ws(s, i) == i);
            lemma_parse_print_value(vs[0], s, i, fuel);
            assert(s[i + print_jsonv(vs[0]).len() as int] == ']');
            assert(skip_ws(s, i + print_jsonv(vs[0]).len()) == i + print_jsonv(vs[0]).len());
            assert(seq![vs[0]] =~= vs);
        } else {
            assert(print_elems(vs) == print_jsonv(vs[0]) + seq![','] + print_elems(
                vs.drop_first(),
            ));
            assert forall|k: int| 0 <= k < print_jsonv(vs[0]).len() implies s[i + k] == #[trigger]
            print_jsonv(vs[0])[k] by {
                assert(print_elems(vs)[k] == (print_jsonv(vs[0]) + seq![','] + print_elems(
                    vs.drop_first(),
                ))[k]);
                assert((print_jsonv(vs[0]) + seq![','] + print_elems(vs.drop_first()))[k]
                    == print_jsonv(vs[0])[k]);
            };
            assert(s[i] == print_jsonv(vs[0])[0]);
            assert(!is_ws(s[i]) && s[i] != ']');
            assert(skip_ws(s, i) == i);
            assert(s[i + print_jsonv(vs[0]).len() as int] == ',') by {
                assert(print_elems(vs)[print_jsonv(vs[0]).len() as int] == (print_jsonv(vs[0])
                    + seq![','] + print_elems(vs.drop_first()))[print_jsonv(vs[0]).len() as int]);
            };
            assert(!is_digit(','));
            lemma_parse_print_value(vs[0], s, i, fuel);
            assert(s[i + print_jsonv(vs[0]).len() as int] == ',') by {
                assert(print_elems(vs)[print_jsonv(vs[0]).len() as int] == (print_jsonv(vs[0])
                    + seq![','] + print_elems(vs.drop_first()))[print_jsonv(vs[0]).len() as int]);
            };
            assert(skip_ws(s, i + print_jsonv(vs[0]).len()) == i + print_jsonv(vs[0]).len());
            assert forall|k: int| 0 <= k < print_elems(vs.drop_first()).len() implies s[i
                + print_jsonv(vs[0]).len() + 1 + k] == #[trigger] print_elems(
                vs.drop_first(),
            )[k] by {
                assert(print_elems(vs)[print_jsonv(vs[0]).len() + 1 + k] == (print_jsonv(vs[0])
                    + seq![','] + print_elems(vs.drop_first()))[print_jsonv(vs[0]).len() + 1 + k]);
                assert((print_jsonv(vs[0]) + seq![','] + print_elems(vs.drop_first()))[
                    print_jsonv(vs[0]).len() + 1 + k] == print_elems(vs.drop_first())[k]);
            };
            assert(s[i + print_jsonv(vs[0]).len() + 1 + print_elems(vs.drop_first()).len() as int]
                == ']');
            lemma_print_first(vs[0]);
            lemma_parse_print_elems(
                vs.drop_first(),
                s,
                i + print_jsonv(vs[0]).len() + 1,
                (fuel - 1) as nat,
            );
            assert(seq![vs[0]] + vs.drop_first() =~= vs);
        }
    }
}

/// Parsing printed member text followed by `}` recovers the members.
proof fn lemma_parse_print_members(ms: Seq<(Seq<char>, JsonV)>, s: Seq<char>, i: int, fuel: nat)
    requires
        printable_members(ms),
        0 <= i,
        i + print_members(ms).len() + 1 <= s.len(),
        forall|k: int| 0 <= k < print_members(ms).len() ==> s[i + k] == #[trigger] print_members(
            ms,
        )[k],
        s[i + print_members(ms).len() as int] == '}',
        fuel >= s.len() - i + 1,
    ensures
        parse_members(s, i, fuel) == Some((ms, i + print_members(ms).len() + 1)),
    decreases ms,
{
    if ms.len() == 0 {
        assert(s[i] == '}');
        assert(skip_ws(s, i) == i);
        assert(ms =~= Seq::<(Seq<char>, JsonV)>::empty());
    } else {
        assert(printable(ms[0].1) && printable_members(ms.drop_first()));
        if ms.len() == 1 {
            assert(print_members(ms) == print_member(ms[0]));
            assert forall|k: int| 0 <= k < print_member(ms[0]).len() implies s[i + k] == #[trigger]
            print_member(ms[0])[k] by {
                assert(print_members(ms)[k] == print_member(ms[0])[k]);
            };
            lemma_parse_print_member(ms[0], s, i, fuel);
            assert(s[i + print_member(ms[0]).len() as int] == '}');
            assert(skip_ws(s, i + print_member(ms[0]).len()) == i + print_member(ms[0]).len());
            assert(seq![ms[0]] =~= ms);
        } else {
            assert(print_members(ms) == print_member(ms[0]) + seq![','] + print_members(
                ms.drop_first(),
            ));
            assert forall|k: int| 0 <= k < print_member(ms[0]).len() implies s[i + k] == #[trigger]
            print_member(ms[0])[k] by {
                assert(print_members(ms)[k] == (print_member(ms[0]) + seq![','] + print_members(
                    ms.drop_first(),
                ))[k]);
                assert((print_member(ms[0]) + seq![','] + print_members(ms.drop_first()))[k]
                    == print_member(ms[0])[k]);
            };
            assert(s[i + print_member(ms[0]).len() as int] == ',') by {
                assert(print_members(ms)[print_member(ms[0]).len() as int] == (print_member(
                    ms[0],
                ) + seq![','] + print_members(ms.drop_first()))[print_member(ms[0]).len() as int]);
            };
            assert(!is_digit(','));
            lemma_parse_print_member(ms[0], s, i, fuel);
            assert(s[i + print_member(ms[0]).len() as int] == ',') by {
                assert(print_members(ms)[print_member(ms[0]).len() as int] == (print_member(ms[0])
                    + seq![','] + print_members(ms.drop_first()))[print_member(ms[0]).len() as int]);
            };
            assert(skip_ws(s, i + print_member(ms[0]).len()) == i + print_member(ms[0]).len());
            assert forall|k: int| 0 <= k < print_members(ms.drop_first()).len() implies s[i
                + print_member(ms[0]).len() + 1 + k] == #[trigger] print_members(
                ms.drop_first(),
            )[k] by {
                assert(print_members(ms)[print_member(ms[0]).len() + 1 + k] == (print_member(
                    ms[0],
                ) + seq![','] + print_members(ms.drop_first()))[print_member(ms[0]).len() + 1
                    + k]);
                assert((print_member(ms[0]) + seq![','] + print_members(ms.drop_first()))[
                    print_member(ms[0]).len() + 1 + k] == print_members(ms.drop_first())[k]);
            };
            assert(s[i + print_member(ms[0]).len() + 1 + print_members(ms.drop_first()).len() as int]
                == '}');
            lemma_parse_print_members(
                ms.drop_first(),
                s,
                i + print_member(ms[0]).len() + 1,
                (fuel - 1) as nat,
            );
            assert(seq![ms[0]] + ms.drop_first() =~= ms);
        }
    }
}

/// One printed member parses as its key and value; the parse stops just past
/// the value's text, with the member list continuation left to the caller.
proof fn lemma_parse_print_member(m: (Seq<char>, JsonV), s: Seq<char>, i: int, fuel: nat)
    requires
        printable(m.1),
        0 <= i,
        i + print_member(m).len() + 1 <= s.len(),
        forall|k: int| 0 <= k < print_member(m).len() ==> s[i + k] == #[trigger] print_member(
            m,
        )[k],
        i + print_member(m).len() == s.len() || !is_digit(s[i + print_member(m).len() as int]),
        fuel >= s.len() - i + 1,
    ensures
        s[i] == '"',
        parse_string_body(s, i + 1) == Some((m.0, i + 1 + escape_str(m.0).len() + 1)),
        skip_ws(s, i + 1 + escape_str(m.0).len() + 1) == i + 1 + escape_str(m.0).len() + 1,
        s[i + 1 + escape_str(m.0).len() + 1] == ':',
        parse_value(s, i + 2 + escape_str(m.0).len() + 1, fuel) == Some(
            (m.1, i + print_member(m).len()),
        ),
        print_member(m).len() == escape_str(m.0).len() + 3 + print_jsonv(m.1).len(),
    decreases m,
{
    assert(print_member(m) == seq!['"'] + escape_str(m.0) + seq!['"', ':'] + print_jsonv(m.1));
    assert(s[i] == '"') by {
        assert(print_member(m)[0] == (seq!['"'] + escape_str(m.0) + seq!['"', ':'] + print_jsonv(
            m.1,
        ))[0]);
    };
    assert forall|k: int| 0 <= k < escape_str(m.0).len() implies s[i + 1 + k] == #[trigger]
    escape_str(m.0)[k] by {
        assert(print_member(m)[1 + k] == (seq!['"'] + escape_str(m.0) + seq!['"', ':']
            + print_jsonv(m.1))[1 + k]);
        assert((seq!['"'] + escape_str(m.0) + seq!['"', ':'] + print_jsonv(m.1))[1 + k]
            == escape_str(m.0)[k]);
    };
    assert(s[i + 1 + escape_str(m.0).len() as int] == '"') by {
        assert(print_member(m)[1 + escape_str(m.0).len() as int] == (seq!['"'] + escape_str(m.0) + seq![
            '"',
            ':',
        ] + print_jsonv(m.1))[1 + escape_str(m.0).len() as int]);
    };
    lemma_parse_print_string(m.0, s, i + 1);
    assert(s[i + 1 + escape_str(m.0).len() + 1] == ':') by {
        assert(print_member(m)[2 + escape_str(m.0).len() as int] == (seq!['"'] + escape_str(m.0) + seq![
            '"',
            ':',
        ] + print_jsonv(m.1))[2 + escape_str(m.0).len() as int]);
    };
    assert(skip_ws(s, i + 1 + escape_str(m.0).len() + 1) == i + 1 + escape_str(m.0).len() + 1);
    assert forall|k: int| 0 <= k < print_jsonv(m.1).len() implies s[i + 3 + escape_str(
        m.0,
    ).len() + k] == #[trigger] print_jsonv(m.1)[k] by {
        assert(print_member(m)[3 + escape_str(m.0).len() + k] == (seq!['"'] + escape_str(m.0)
            + seq!['"', ':'] + print_jsonv(m.1))[3 + escape_str(m.0).len() + k]);
        assert((seq!['"'] + escape_str(m.0) + seq!['"', ':'] + print_jsonv(m.1))[3 + escape_str(
            m.0,
        ).len() + k] == print_jsonv(m.1)[k]);
    };
    lemma_parse_print_value(m.1, s, i + 3 + escape_str(m.0).len(), fuel);
}

/// The round-trip law: parsing the canonical text of a printable value
/// yields that value.
pub proof fn lemma_parse_print_round_trip(v: JsonV)
    requires
        printable(v),
    ensures
        parse_json(print_jsonv(v)) == Some(v),
{
    lemma_parse_print_value(v, print_jsonv(v), 0, (print_jsonv(v).len() + 1) as nat);
    assert(skip_ws(print_jsonv(v), print_jsonv(v).len() as int) == print_jsonv(v).len() as int);
}

/// The value of the first member with the given key, if any.
pub open spec fn obj_lookup(ms: Seq<(Seq<char>, JsonV)>, key: Seq<char>) -> Option<JsonV>
    decreases ms,
{
    if ms.len() == 0 {
        None
    } else if ms[0].0 == key {
        Some(ms[0].1)
    } else {
        obj_lookup(ms.drop_first(), key)
    }
}

/// Whether a character vector holds the same characters as a string slice.
pub fn chars_eq_str(v: &Vec<char>, s: &str) -> (r: bool)
    ensures
        r == (v@ == s@),
{
    let n = s.unicode_len();
    if v.len() != n {
        proof {
            assert(v@ != s@);
        }
        return false;
    }
    let mut i: usize = 0;
    while i < n
        invariant
            n == s@.len(),
            v@.len() == n,
            i <= n,
            forall|k: int| 0 <= k < i ==> v@[k] == s@[k],
        decreases n - i,
    {
        if v[i] != s.get_char(i) {
            proof {
                assert(v@[i as int] != s@[i as int]);
            }
            return false;
        }
        i = i + 1;
    }
    proof {
        assert(v@ =~= s@);
    }
    true
}

/// The member with the given key at or after position `k`.
fn obj_get_from<'a>(ms: &'a Vec<(Vec<char>, JsonValue)>, key: &str, k: usize) -> (r: Option<
    &'a JsonValue,
>)
    requires
        k <= ms@.len(),
    ensures
        match r {
            Some(v) => obj_lookup(jsonv_of_members(ms@.skip(k as int)), key@) == Some(v@),
            None => obj_lookup(jsonv_of_members(ms@.skip(k as int)), key@) is None,
        },
    decreases ms@.len() - k,
{
    if k >= ms.len() {
        proof {
            assert(ms@.skip(k as int) =~= Seq::<(Vec<char>, JsonValue)>::empty());
        }
        None
    } else {
        proof {
            assert(ms@.skip(k as int)[0] == ms@[k as int]);
            assert(ms@.skip(k as int).drop_first() =~= ms@.skip(k as int + 1));
            lemma_jsonv_of_members_len(ms@.skip(k as int));
            assert(jsonv_of_members(ms@.skip(k as int)) == seq![
                (ms@.skip(k as int)[0].0@, jsonv_of(ms@.skip(k as int)[0].1)),
            ] + jsonv_of_members(ms@.skip(k as int).drop_first()));
            assert((seq![(ms@[k as int].0@, jsonv_of(ms@[k as int].1))] + jsonv_of_members(
                ms@.skip(k as int + 1),
            ))[0] == (ms@[k as int].0@, jsonv_of(ms@[k as int].1)));
            assert((seq![(ms@[k as int].0@, jsonv_of(ms@[k as int].1))] + jsonv_of_members(
                ms@.skip(k as int + 1),
            )).drop_first() =~= jsonv_of_members(ms@.skip(k as int + 1)));
        }
        if chars_eq_str(&ms[k].0, key) {
            Some(&ms[k].1)
        } else {
            obj_get_from(ms, key, k + 1)
        }
    }
}

/// The value of the first member with the given key, if any.
pub fn json_obj_get<'a>(ms: &'a Vec<(Vec<char>, JsonValue)>, key: &str) -> (r: Option<
    &'a JsonValue,
>)
    ensures
        match r {
            Some(v) => obj_lookup(jsonv_of_members(ms@), key@) == Some(v@),
            None => obj_lookup(jsonv_of_members(ms@), key@) is None,
        },
{
    proof {
        assert(ms@.skip(0) =~= ms@);
    }
    obj_get_from(ms, key, 0)
}

/// Every character a natural number prints to is a digit.
proof fn lemma_dec_digits_are_digits(n: nat)
    ensures
        dec_digits(n).len() >= 1,
        forall|k: int| 0 <= k < dec_digits(n).len() ==> is_digit(#[trigger] dec_digits(n)[k]),
    decreases n,
{
    if n < 10 {
        assert(dec_digits(n)[0] == digit_char(n as int));
    } else {
        lemma_dec_digits_are_digits(n / 10);
        assert(forall|k: int|
            0 <= k < dec_digits((n / 10) as nat).len() ==> #[trigger] dec_digits(n)[k]
                == dec_digits((n / 10) as nat)[k]);
        assert(dec_digits(n)[dec_digits(n).len() - 1] == digit_char((n % 10) as int));
    }
}

/// A number at least one prints with no leading zero.
proof fn lemma_dec_digits_first_nonzero(n: nat)
    requires
        n >= 1,
    ensures
        dec_digits(n)[0] != '0',
    decreases n,
{
    if n < 10 {
    } else {
        lemma_dec_digits_first_nonzero(n / 10);
        assert(dec_digits(n)[0] == dec_digits((n / 10) as nat)[0]);
    }
}

/// A number below a power of ten prints to at most that many digits.
proof fn lemma_dec_digits_len_bound(n: nat, k: nat)
    requires
        k >= 1,
        n < pow10(k),
    ensures
        dec_digits(n).len() <= k,
    decreases n,
{
    if n < 10 {
    } else {
        assert(pow10(k) == 10 * pow10((k - 1) as nat));
        lemma_dec_digits_len_bound(n / 10, (k - 1) as nat);
    }
}

/// A digit run bounded on the right scans to exactly its end.
proof fn lemma_digits_end_exact(s: Seq<char>, z: int, l: int)
    requires
        0 <= z,
        z + l <= s.len(),
        0 <= l,
        forall|k: int| 0 <= k < l ==> is_digit(#[trigger] s[z + k]),
        z + l == s.len() || !is_digit(s[z + l]),
    ensures
        digits_end(s, z) == z + l,
    decreases l,
{
    if l == 0 {
    } else {
        assert(is_digit(s[z + 0]));
        assert forall|k: int| 0 <= k < l - 1 implies is_digit(#[trigger] s[z + 1 + k]) by {
            assert(is_digit(s[z + (k + 1)]));
        };
        lemma_digits_end_exact(s, z + 1, l - 1);
    }
}

/// The value of a printed number's digit run is the number itself.
proof fn lemma_digits_val_of_print(n: nat, s: Seq<char>, z: int)
    requires
        0 <= z,
        z + dec_digits(n).len() <= s.len(),
        forall|k: int| 0 <= k < dec_digits(n).len() ==> s[z + k] == #[trigger] dec_digits(n)[k],
    ensures
        digits_val(s, z, z + dec_digits(n).len()) == n,
    decreases n,
{
    lemma_dec_digits_are_digits(n);
    if n < 10 {
        assert(s[z + 0] == dec_digits(n)[0]);
        assert(dec_digits(n)[0] == digit_char(n as int));
        assert(digits_val(s, z, z + 1) == digits_val(s, z, z) * 10 + digit_val(s[z + 0]));
        assert(digit_val(digit_char(n as int)) == n);
    } else {
        assert forall|k: int|
            0 <= k < dec_digits((n / 10) as nat).len() implies s[z + k] == #[trigger] dec_digits(
            (n / 10) as nat,
        )[k] by {
            assert(dec_digits(n)[k] == dec_digits((n / 10) as nat)[k]);
            assert(s[z + k] == dec_digits(n)[k]);
        };
        lemma_digits_val_of_print(n / 10, s, z);
        let l: int = dec_digits(n).len() as int;
        assert(s[z + (l - 1)] == dec_digits(n)[l - 1]);
        assert(dec_digits(n)[l - 1] == digit_char((n % 10) as int));
        assert(digits_val(s, z, z + l) == digits_val(s, z, z + l - 1) * 10 + digit_val(
            s[z + (l - 1)],
        ));
        assert(digit_val(digit_char((n % 10) as int)) == n % 10);
    }
}

/// Parsing printed integer text, bounded on the right by a non-digit or the
/// text's end, recovers the integer.
proof fn lemma_parse_print_number(i: int, s: Seq<char>, j: int)
    requires
        -0x8000_0000_0000_0000 <= i < 0x8000_0000_0000_0000,
        0 <= j,
        j + print_int(i).len() <= s.len(),
        forall|k: int| 0 <= k < print_int(i).len() ==> s[j + k] == #[trigger] print_int(i)[k],
        j + print_int(i).len() == s.len() || !is_digit(s[j + print_int(i).len() as int]),
    ensures
        parse_number(s, j) == Some((JsonV::Int(i), j + print_int(i).len())),
{
    let n: nat = if i < 0 {
        (-i) as nat
    } else {
        i as nat
    };
    let d0: int = if i < 0 {
        j + 1
    } else {
        j
    };
    lemma_dec_digits_are_digits(n);
    assert forall|k: int| 0 <= k < dec_digits(n).len() implies s[d0 + k] == #[trigger] dec_digits(
        n,
    )[k] by {
        if i < 0 {
            assert(print_int(i)[1 + k] == (seq!['-'] + dec_digits(n))[1 + k]);
            assert(s[j + (1 + k)] == print_int(i)[1 + k]);
        } else {
            assert(s[j + k] == print_int(i)[k]);
        }
    };
    if i < 0 {
        assert(s[j + 0] == print_int(i)[0]);
        assert(print_int(i)[0] == (seq!['-'] + dec_digits(n))[0]);
        assert(s[j] == '-');
    } else {
        assert(s[j + 0] == dec_digits(n)[0]);
        assert(s[j] != '-');
    }
    assert(s[d0 + 0] == dec_digits(n)[0]);
    assert(is_digit(s[d0]));
    let l: int = dec_digits(n).len() as int;
    assert forall|k: int| 0 <= k < l implies is_digit(#[trigger] s[d0 + k]) by {
        assert(s[d0 + k] == dec_digits(n)[k]);
    };
    if n == 0 {
        assert(dec_digits(n) =~= seq!['0']);
        assert(s[d0 + 0] == dec_digits(n)[0]);
        assert(s[d0] == '0');
        assert(d0 + 1 == s.len() || !is_digit(s[d0 + 1]));
        assert(skip_zeros(s, d0) == skip_zeros(s, d0 + 1));
        assert(skip_zeros(s, d0 + 1) == d0 + 1);
        lemma_digits_end_exact(s, d0 + 1, 0);
        assert(digits_val(s, d0 + 1, d0 + 1) == 0);
    } else {
        lemma_dec_digits_first_nonzero(n);
        assert(s[d0 + 0] == dec_digits(n)[0]);
        assert(s[d0] != '0');
        assert(skip_zeros(s, d0) == d0);
        lemma_digits_end_exact(s, d0, l);
        lemma_digits_val_of_print(n, s, d0);
        reveal_with_fuel(pow10, 21);
        lemma_dec_digits_len_bound(n, 19);
    }
}

} // verus!
