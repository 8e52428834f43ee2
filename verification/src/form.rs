//! `application/x-www-form-urlencoded` encoding of request bodies.
//!
//! Every request travels as a form-encoded body: unreserved characters pass
//! through, a space becomes `+`, and every other character's UTF-8 bytes are
//! percent-encoded with uppercase hex digits.

use vstd::prelude::*;
use vstd::utf8::encode_scalar;

verus! {

broadcast use vstd::seq::group_seq_axioms, vstd::utf8::char_is_scalar;

/// Whether a character passes through form encoding unchanged.
pub open spec fn is_unreserved(c: char) -> bool {
    ||| 48 <= c as int <= 57
    ||| 65 <= c as int <= 90
    ||| 97 <= c as int <= 122
    ||| c == '*'
    ||| c == '-'
    ||| c == '.'
    ||| c == '_'
}

/// The uppercase hex digit for a value below sixteen.
pub open spec fn hex_digit(h: int) -> char {
    if h == 0 {
        '0'
    } else if h == 1 {
        '1'
    } else if h == 2 {
        '2'
    } else if h == 3 {
        '3'
    } else if h == 4 {
        '4'
    } else if h == 5 {
        '5'
    } else if h == 6 {
        '6'
    } else if h == 7 {
        '7'
    } else if h == 8 {
        '8'
    } else if h == 9 {
        '9'
    } else if h == 10 {
        'A'
    } else if h == 11 {
        'B'
    } else if h == 12 {
        'C'
    } else if h == 13 {
        'D'
    } else if h == 14 {
        'E'
    } else {
        'F'
    }
}

/// The percent escape of one byte.
pub open spec fn pct(b: u8) -> Seq<char> {
    seq!['%', hex_digit(b as int / 16), hex_digit(b as int % 16)]
}

/// The percent escapes of a byte sequence.
pub open spec fn pct_bytes(bs: Seq<u8>) -> Seq<char>
    decreases bs.len(),
{
    if bs.len() == 0 {
        Seq::empty()
    } else {
        pct(bs[0]) + pct_bytes(bs.drop_first())
    }
}

/// How one character appears in a form-encoded value.
pub open spec fn urlenc_char(c: char) -> Seq<char> {
    if is_unreserved(c) {
        seq![c]
    } else if c == ' ' {
        seq!['+']
    } else {
        pct_bytes(encode_scalar(c as u32))
    }
}

/// The form encoding of a character sequence.
pub open spec fn urlenc(s: Seq<char>) -> Seq<char>
    decreases s.len(),
{
    if s.len() == 0 {
        Seq::empty()
    } else {
        urlenc_char(s[0]) + urlenc(s.drop_first())
    }
}

/// Form encoding distributes over appending one character.
pub proof fn lemma_urlenc_snoc(s: Seq<char>, c: char)
    ensures
        urlenc(s.push(c)) == urlenc(s) + urlenc_char(c),
    decreases s.len(),
{
    if s.len() == 0 {
        assert(s.push(c)[0] == c);
        assert(s.push(c).drop_first() =~= Seq::<char>::empty());
        assert(urlenc(s.push(c)) == urlenc_char(c) + urlenc(Seq::<char>::empty()));
        assert(urlenc_char(c) + Seq::<char>::empty() =~= urlenc_char(c));
        assert(Seq::<char>::empty() + urlenc_char(c) =~= urlenc_char(c));
    } else {
        assert(s.push(c)[0] == s[0]);
        assert(s.push(c).drop_first() =~= s.drop_first().push(c));
        lemma_urlenc_snoc(s.drop_first(), c);
        assert(urlenc(s.push(c)) == urlenc_char(s[0]) + (urlenc(s.drop_first()) + urlenc_char(c)));
        assert(urlenc_char(s[0]) + (urlenc(s.drop_first()) + urlenc_char(c)) =~= (urlenc_char(
            s[0],
        ) + urlenc(s.drop_first())) + urlenc_char(c));
    }
}


/// Percent escapes of one byte.
proof fn lemma_pct_bytes1(b0: u8)
    ensures
        pct_bytes(seq![b0]) == pct(b0),
{
    assert(seq![b0][0] == b0);
    assert(seq![b0].drop_first() =~= Seq::<u8>::empty());
    assert(pct_bytes(seq![b0]) == pct(b0) + pct_bytes(Seq::<u8>::empty()));
    assert(pct(b0) + Seq::<char>::empty() =~= pct(b0));
}

/// Percent escapes of two bytes.
proof fn lemma_pct_bytes2(b0: u8, b1: u8)
    ensures
        pct_bytes(seq![b0, b1]) == pct(b0) + pct(b1),
{
    assert(seq![b0, b1][0] == b0);
    assert(seq![b0, b1].drop_first() =~= seq![b1]);
    lemma_pct_bytes1(b1);
    assert(pct_bytes(seq![b0, b1]) == pct(b0) + pct_bytes(seq![b1]));
}

/// Percent escapes of three bytes.
proof fn lemma_pct_bytes3(b0: u8, b1: u8, b2: u8)
    ensures
        pct_bytes(seq![b0, b1, b2]) == pct(b0) + pct(b1) + pct(b2),
{
    assert(seq![b0, b1, b2][0] == b0);
    assert(seq![b0, b1, b2].drop_first() =~= seq![b1, b2]);
    lemma_pct_bytes2(b1, b2);
    assert(pct_bytes(seq![b0, b1, b2]) == pct(b0) + (pct(b1) + pct(b2)));
    assert(pct(b0) + (pct(b1) + pct(b2)) =~= pct(b0) + pct(b1) + pct(b2));
}

/// Percent escapes of four bytes.
proof fn lemma_pct_bytes4(b0: u8, b1: u8, b2: u8, b3: u8)
    ensures
        pct_bytes(seq![b0, b1, b2, b3]) == pct(b0) + pct(b1) + pct(b2) + pct(b3),
{
    assert(seq![b0, b1, b2, b3][0] == b0);
    assert(seq![b0, b1, b2, b3].drop_first() =~= seq![b1, b2, b3]);
    lemma_pct_bytes3(b1, b2, b3);
    assert(pct_bytes(seq![b0, b1, b2, b3]) == pct(b0) + (pct(b1) + pct(b2) + pct(b3)));
    assert(pct(b0) + (pct(b1) + pct(b2) + pct(b3)) =~= pct(b0) + pct(b1) + pct(b2) + pct(b3));
}

/// The uppercase hex digit for a value below sixteen.
fn hex_digit_exec(h: u8) -> (c: char)
    requires
        h < 16,
    ensures
        c == hex_digit(h as int),
{
    if h == 0 {
        '0'
    } else if h == 1 {
        '1'
    } else if h == 2 {
        '2'
    } else if h == 3 {
        '3'
    } else if h == 4 {
        '4'
    } else if h == 5 {
        '5'
    } else if h == 6 {
        '6'
    } else if h == 7 {
        '7'
    } else if h == 8 {
        '8'
    } else if h == 9 {
        '9'
    } else if h == 10 {
        'A'
    } else if h == 11 {
        'B'
    } else if h == 12 {
        'C'
    } else if h == 13 {
        'D'
    } else if h == 14 {
        'E'
    } else {
        'F'
    }
}

/// Appends the percent escape of one byte.
fn push_pct(b: u8, out: &mut Vec<char>)
    ensures
        final(out)@ == old(out)@ + pct(b),
{
    out.push('%');
    out.push(hex_digit_exec(b / 16));
    out.push(hex_digit_exec(b % 16));
    proof {
        assert(out@ =~= old(out)@ + pct(b));
    }
}

/// Appends the form encoding of one character.
fn push_urlenc_char(c: char, out: &mut Vec<char>)
    ensures
        final(out)@ == old(out)@ + urlenc_char(c),
{
    let u = c as u32;
    let unreserved = (48 <= u && u <= 57) || (65 <= u && u <= 90) || (97 <= u && u <= 122) || c
        == '*' || c == '-' || c == '.' || c == '_';
    if unreserved {
        out.push(c);
        proof {
            assert(out@ =~= old(out)@ + urlenc_char(c));
        }
    } else if c == ' ' {
        out.push('+');
        proof {
            assert(out@ =~= old(out)@ + urlenc_char(c));
        }
    } else {
        proof {
            assert(vstd::utf8::is_scalar(c as u32));
        }
        if u <= 0x7F {
            let b0: u8 = (u & 0x7F) as u8;
            push_pct(b0, out);
            proof {
                assert(vstd::utf8::leading_byte_width_1(c as u32) == b0);
                assert(encode_scalar(c as u32) =~= seq![b0]);
                lemma_pct_bytes1(b0);
            }
        } else if u <= 0x7FF {
            let b0: u8 = 0xC0 | ((u >> 6) & 0x1F) as u8;
            let b1: u8 = 0x80 | (u & 0x3F) as u8;
            push_pct(b0, out);
            push_pct(b1, out);
            proof {
                assert(vstd::utf8::leading_byte_width_2(c as u32) == b0);
                assert(vstd::utf8::last_continuation_byte(c as u32) == b1);
                assert(encode_scalar(c as u32) =~= seq![b0, b1]);
                lemma_pct_bytes2(b0, b1);
                assert(out@ =~= old(out)@ + urlenc_char(c));
            }
        } else if u <= 0xFFFF {
            let b0: u8 = 0xE0 | ((u >> 12) & 0x0F) as u8;
            let b1: u8 = 0x80 | ((u >> 6) & 0x3F) as u8;
            let b2: u8 = 0x80 | (u & 0x3F) as u8;
            push_pct(b0, out);
            push_pct(b1, out);
            push_pct(b2, out);
            proof {
                assert(vstd::utf8::leading_byte_width_3(c as u32) == b0);
                assert(vstd::utf8::second_last_continuation_byte(c as u32) == b1);
                assert(vstd::utf8::last_continuation_byte(c as u32) == b2);
                assert(encode_scalar(c as u32) =~= seq![b0, b1, b2]);
                lemma_pct_bytes3(b0, b1, b2);
                assert(out@ =~= old(out)@ + urlenc_char(c));
            }
        } else {
            let b0: u8 = 0xF0 | ((u >> 18) & 0x7) as u8;
            let b1: u8 = 0x80 | ((u >> 12) & 0x3F) as u8;
            let b2: u8 = 0x80 | ((u >> 6) & 0x3F) as u8;
            let b3: u8 = 0x80 | (u & 0x3F) as u8;
            push_pct(b0, out);
            push_pct(b1, out);
            push_pct(b2, out);
            push_pct(b3, out);
            proof {
                assert(vstd::utf8::leading_byte_width_4(c as u32) == b0);
                assert(vstd::utf8::third_last_continuation_byte(c as u32) == b1);
                assert(vstd::utf8::second_last_continuation_byte(c as u32) == b2);
                assert(vstd::utf8::last_continuation_byte(c as u32) == b3);
                assert(encode_scalar(c as u32) =~= seq![b0, b1, b2, b3]);
                lemma_pct_bytes4(b0, b1, b2, b3);
                assert(out@ =~= old(out)@ + urlenc_char(c));
            }
        }
    }
}

/// Appends the form encoding of a string.
pub fn append_urlenc(s: &str, out: &mut Vec<char>)
    ensures
        final(out)@ == old(out)@ + urlenc(s@),
{
    let cs = crate::chars::str_to_chars(s);
    let n = cs.len();
    let mut k: usize = 0;
    while k < n
        invariant
            n == cs@.len(),
            cs@ == s@,
            k <= n,
            out@ == old(out)@ + urlenc(s@.take(k as int)),
        decreases n - k,
    {
        push_urlenc_char(cs[k], out);
        proof {
            assert(s@.take(k + 1 as int) =~= s@.take(k as int).push(s@[k as int]));
            lemma_urlenc_snoc(s@.take(k as int), s@[k as int]);
        }
        k = k + 1;
    }
    proof {
        assert(s@.take(n as int) =~= s@);
    }
}

/// Appends a string's characters unchanged.
pub fn append_str(s: &str, out: &mut Vec<char>)
    ensures
        final(out)@ == old(out)@ + s@,
{
    let cs = crate::chars::str_to_chars(s);
    let n = cs.len();
    let mut k: usize = 0;
    while k < n
        invariant
            n == cs@.len(),
            cs@ == s@,
            k <= n,
            out@ == old(out)@ + s@.take(k as int),
        decreases n - k,
    {
        out.push(cs[k]);
        proof {
            assert(s@.take(k + 1 as int) =~= s@.take(k as int).push(s@[k as int]));
            assert(out@ =~= old(out)@ + s@.take(k + 1 as int));
        }
        k = k + 1;
    }
    proof {
        assert(s@.take(n as int) =~= s@);
    }
}

} // verus!
