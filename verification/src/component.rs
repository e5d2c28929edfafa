//! Percent-encoding of one query-string component.

use crate::foreign;
use vstd::prelude::*;
use vstd::utf8;

verus! {

broadcast use vstd::string::group_string_axioms;

/// The bytes that stand for themselves in a query string.
pub open spec fn unreserved(b: u8) -> bool {
    ||| 0x41 <= b <= 0x5a
    ||| 0x61 <= b <= 0x7a
    ||| 0x30 <= b <= 0x39
    ||| b == 0x2d
    ||| b == 0x5f
    ||| b == 0x2e
    ||| b == 0x7e
}

/// The upper-case hexadecimal digit for a number below sixteen.
pub open spec fn hex_digit(d: int) -> char {
    if d < 10 {
        (0x30 + d) as char
    } else {
        (0x41 + d - 10) as char
    }
}

/// How one byte is written.
pub open spec fn escaped_byte(b: u8) -> Seq<char> {
    if unreserved(b) {
        seq![b as char]
    } else {
        seq!['%', hex_digit(b as int / 16), hex_digit(b as int % 16)]
    }
}

/// How a row of bytes is written.
pub open spec fn escaped(bytes: Seq<u8>) -> Seq<char>
    decreases bytes.len(),
{
    if bytes.len() == 0 {
        Seq::empty()
    } else {
        escaped_byte(bytes[0]) + escaped(bytes.drop_first())
    }
}

/// How a text is written as a query-string component.
pub open spec fn encoded(s: Seq<char>) -> Seq<char> {
    escaped(utf8::encode_utf8(s))
}

/// The value of a hexadecimal digit of either case.
pub open spec fn hex_value(b: u8) -> Option<int> {
    if 0x30 <= b <= 0x39 {
        Some(b - 0x30)
    } else if 0x41 <= b <= 0x46 {
        Some(b - 0x41 + 10)
    } else if 0x61 <= b <= 0x66 {
        Some(b - 0x61 + 10)
    } else {
        None
    }
}

/// The byte that the two bytes behind a percent sign denote, where both are
/// hexadecimal digits.
pub open spec fn escape_value(hi: u8, lo: u8) -> Option<u8> {
    match (hex_value(hi), hex_value(lo)) {
        (Some(h), Some(l)) => Some((h * 16 + l) as u8),
        _ => None,
    }
}

/// Whether a row of bytes starts with a well-formed escape.
pub open spec fn starts_with_escape(bytes: Seq<u8>) -> bool {
    bytes.len() > 2 && bytes[0] == 0x25 && escape_value(bytes[1], bytes[2]) is Some
}

/// The bytes that a written component denotes. An escape that is not well formed
/// is kept as it stands, and a plus sign is a space.
pub open spec fn unescaped(bytes: Seq<u8>) -> Seq<u8>
    decreases bytes.len(),
{
    if bytes.len() == 0 {
        Seq::empty()
    } else if starts_with_escape(bytes) {
        seq![escape_value(bytes[1], bytes[2])->0] + unescaped(bytes.skip(3))
    } else if bytes[0] == 0x2b {
        seq![0x20u8] + unescaped(bytes.skip(1))
    } else {
        seq![bytes[0]] + unescaped(bytes.skip(1))
    }
}

/// The text that a written component denotes.
pub open spec fn decoded(s: Seq<char>) -> Seq<char> {
    foreign::text_of(unescaped(utf8::encode_utf8(s)))
}

fn hex_char(d: u8) -> (c: char)
    requires
        d < 16,
    ensures
        c == hex_digit(d as int),
{
    match d {
        0 => '0',
        1 => '1',
        2 => '2',
        3 => '3',
        4 => '4',
        5 => '5',
        6 => '6',
        7 => '7',
        8 => '8',
        9 => '9',
        10 => 'A',
        11 => 'B',
        12 => 'C',
        13 => 'D',
        14 => 'E',
        _ => 'F',
    }
}

/// Percent-encodes everything that the query grammar reserves.
pub fn encode_component(value: &str) -> (r: String)
    ensures
        r@ == encoded(value@),
{
    let bytes = value.as_bytes();
    let mut out = String::new();
    let mut i: usize = 0;
    assert(bytes@.skip(0) == bytes@);
    while i < bytes.len()
        invariant
            i <= bytes.len(),
            escaped(bytes@) == out@ + escaped(bytes@.skip(i as int)),
        decreases bytes.len() - i,
    {
        let b = bytes[i];
        let ghost before = out@;
        assert(bytes@.skip(i as int).drop_first() == bytes@.skip(i + 1));
        if (0x41 <= b && b <= 0x5a) || (0x61 <= b && b <= 0x7a) || (0x30 <= b && b <= 0x39) || b
            == 0x2d || b == 0x5f || b == 0x2e || b == 0x7e {
            out.push(b as char);
            assert(out@ == before + escaped_byte(b));
        } else {
            out.push('%');
            out.push(hex_char(b / 16));
            out.push(hex_char(b % 16));
            assert(out@ == before + escaped_byte(b));
        }
        assert(escaped(bytes@) == out@ + escaped(bytes@.skip(i + 1)));
        i = i + 1;
    }
    assert(out@ + escaped(bytes@.skip(i as int)) == out@);
    out
}

fn hex_of(b: u8) -> (r: Option<u8>)
    ensures
        match hex_value(b) {
            Some(v) => r == Some(v as u8) && v < 16,
            None => r is None,
        },
{
    if 0x30 <= b && b <= 0x39 {
        Some(b - 0x30)
    } else if 0x41 <= b && b <= 0x46 {
        Some(b - 0x41 + 10)
    } else if 0x61 <= b && b <= 0x66 {
        Some(b - 0x61 + 10)
    } else {
        None
    }
}

fn escape_of(hi: u8, lo: u8) -> (r: Option<u8>)
    ensures
        r == escape_value(hi, lo),
{
    match (hex_of(hi), hex_of(lo)) {
        (Some(h), Some(l)) => Some(h * 16 + l),
        _ => None,
    }
}

/// The inverse of [`encode_component`]. A malformed escape is kept verbatim rather
/// than dropped: a hand-typed `100%` in a filter box searches for `100%`.
pub fn decode_component(value: &str) -> (r: String)
    ensures
        r@ == decoded(value@),
{
    let bytes = value.as_bytes();
    let mut out: Vec<u8> = Vec::new();
    let mut i: usize = 0;
    assert(bytes@.skip(0) == bytes@);
    while i < bytes.len()
        invariant
            i <= bytes.len(),
            unescaped(bytes@) == out@ + unescaped(bytes@.skip(i as int)),
        decreases bytes.len() - i,
    {
        let ghost before = out@;
        let ghost rest = bytes@.skip(i as int);
        assert(rest.skip(1) == bytes@.skip(i + 1));
        if bytes[i] == 0x25 && bytes.len() - i > 2 {
            if let Some(b) = escape_of(bytes[i + 1], bytes[i + 2]) {
                assert(rest.skip(3) == bytes@.skip(i + 3));
                assert(starts_with_escape(rest));
                out.push(b);
                assert(unescaped(bytes@) == out@ + unescaped(bytes@.skip(i + 3)));
                i = i + 3;
                continue ;
            }
        }
        assert(!starts_with_escape(rest));
        out.push(
            if bytes[i] == 0x2b {
                0x20
            } else {
                bytes[i]
            },
        );
        assert(unescaped(bytes@) == out@ + unescaped(bytes@.skip(i + 1)));
        i = i + 1;
    }
    assert(out@ + unescaped(bytes@.skip(i as int)) == out@);
    foreign::read_utf8(out.as_slice())
}

/// A percent sign that two hexadecimal digits do not follow is kept, and what follows it
/// is read on its own.
pub proof fn malformed_escape_is_kept(bytes: Seq<u8>)
    requires
        bytes.len() > 0,
        bytes[0] == 0x25,
        bytes.len() < 3 || hex_value(bytes[1]) is None || hex_value(bytes[2]) is None,
    ensures
        unescaped(bytes) == seq![0x25u8] + unescaped(bytes.skip(1)),
{
}

/// An escaped row of bytes holds only ASCII, and neither separator of the query
/// grammar.
pub proof fn lemma_escaped_chars(bytes: Seq<u8>)
    ensures
        utf8::is_ascii_chars(escaped(bytes)),
        forall|i: int|
            0 <= i < escaped(bytes).len() ==> #[trigger] escaped(bytes)[i] != '&' && escaped(
                bytes,
            )[i] != '=',
    decreases bytes.len(),
{
    if bytes.len() > 0 {
        let head = escaped_byte(bytes[0]);
        let tail = escaped(bytes.drop_first());
        lemma_escaped_chars(bytes.drop_first());
        assert forall|i: int| 0 <= i < escaped(bytes).len() implies (0 <= #[trigger] escaped(
            bytes,
        )[i] as nat && (escaped(bytes)[i] as nat) < 128) && escaped(bytes)[i] != '&' && escaped(
            bytes,
        )[i] != '=' by {
            if i < head.len() {
                assert(escaped(bytes)[i] == head[i]);
            } else {
                assert(escaped(bytes)[i] == tail[i - head.len()]);
            }
        }
    }
}

/// The bytes of an ASCII text, one for each character.
pub open spec fn ascii_bytes(s: Seq<char>) -> Seq<u8> {
    Seq::new(s.len(), |i: int| s[i] as u8)
}

proof fn lemma_unescaped_escaped(bytes: Seq<u8>)
    ensures
        unescaped(ascii_bytes(escaped(bytes))) == bytes,
    decreases bytes.len(),
{
    if bytes.len() == 0 {
        assert(ascii_bytes(escaped(bytes)) == Seq::<u8>::empty());
    } else {
        let b = bytes[0];
        let rest = bytes.drop_first();
        let whole = ascii_bytes(escaped(bytes));
        lemma_unescaped_escaped(rest);
        if unreserved(b) {
            assert(whole[0] == b);
            assert(whole.skip(1) == ascii_bytes(escaped(rest)));
            assert(!starts_with_escape(whole));
        } else {
            let h = hex_digit(b as int / 16);
            let l = hex_digit(b as int % 16);
            assert(whole[0] == 0x25);
            assert(whole[1] == h as u8);
            assert(whole[2] == l as u8);
            assert(hex_value(h as u8) == Some((b / 16) as int));
            assert(hex_value(l as u8) == Some((b % 16) as int));
            assert(whole.skip(3) == ascii_bytes(escaped(rest)));
            assert(escape_value(whole[1], whole[2]) == Some(b));
            assert(starts_with_escape(whole));
        }
        assert(seq![b] + rest == bytes);
    }
}

/// Every text survives being written as a component and read back.
pub proof fn component_reads_back(s: Seq<char>)
    ensures
        decoded(encoded(s)) == s,
{
    let bytes = utf8::encode_utf8(s);
    lemma_escaped_chars(bytes);
    utf8::is_ascii_chars_encode_utf8(encoded(s));
    assert(utf8::encode_utf8(encoded(s)) == ascii_bytes(encoded(s)));
    lemma_unescaped_escaped(bytes);
    utf8::encode_utf8_valid_utf8(s);
    utf8::encode_utf8_decode_utf8(s);
}

/// A plus stands for a blank, and an escape for the byte that its two digits write, in
/// either case of the letters; what follows is read on from there.
pub proof fn an_escape_stands_for_its_byte(bytes: Seq<u8>, hi: u8, lo: u8)
    requires
        bytes.len() > 2,
    ensures
        bytes[0] == 0x2b ==> unescaped(bytes) == seq![0x20u8] + unescaped(bytes.skip(1)),
        bytes[0] != 0x2b && bytes[0] != 0x25 ==> unescaped(bytes) == seq![bytes[0]] + unescaped(
            bytes.skip(1),
        ),
        bytes[0] == 0x25 && 0x30 <= bytes[1] <= 0x39 && 0x30 <= bytes[2] <= 0x39 ==> unescaped(bytes)
            == seq![(16 * (bytes[1] - 0x30) + (bytes[2] - 0x30)) as u8] + unescaped(bytes.skip(3)),
        0x61 <= hi <= 0x66 ==> hex_value(hi) == hex_value((hi - 0x20) as u8),
        0x61 <= hi <= 0x66 ==> hex_value(hi) == Some(hi - 0x57),
        0x30 <= hi <= 0x39 ==> hex_value(hi) == Some(hi - 0x30),
        hex_value(hi) is Some && hex_value(lo) is Some ==> escape_value(hi, lo) == Some(
            (16 * hex_value(hi)->0 + hex_value(lo)->0) as u8,
        ),
{
}

/// Letters, digits and the four plain marks stand for themselves; every other byte is
/// written as a percent sign and two digits.
pub proof fn plain_bytes_stand_for_themselves(b: u8)
    ensures
        escaped_byte(b).len() == 1 <==> (0x41 <= b <= 0x5a || 0x61 <= b <= 0x7a || 0x30 <= b <= 0x39
            || b == 0x2d || b == 0x5f || b == 0x2e || b == 0x7e),
        escaped_byte(b).len() == 1 ==> escaped_byte(b)[0] == b as char,
        escaped_byte(b).len() == 1 || (escaped_byte(b).len() == 3 && escaped_byte(b)[0] == '%'),
{
}

} // verus!
