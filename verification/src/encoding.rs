//! Base64: the standard alphabet, with padding.
use vstd::prelude::*;

verus! {

/// The character of six bits.
pub open spec fn b64_symbol(v: int) -> char {
    if v < 26 {
        ('A' as int + v) as char
    } else if v < 52 {
        ('a' as int + v - 26) as char
    } else if v < 62 {
        ('0' as int + v - 52) as char
    } else if v == 62 {
        '+'
    } else {
        '/'
    }
}

/// The text of some bytes: four characters for every three bytes, six bits each, most
/// significant first. An incomplete last group is filled up with zero bits, and with
/// `=` where a character would hold nothing else.
pub open spec fn b64_encoding(bytes: Seq<u8>) -> Seq<char>
    decreases bytes.len(),
{
    if bytes.len() == 0 {
        Seq::empty()
    } else if bytes.len() == 1 {
        let a = bytes[0] as int;
        seq![b64_symbol(a / 4), b64_symbol(a % 4 * 16), '=', '=']
    } else if bytes.len() == 2 {
        let (a, b) = (bytes[0] as int, bytes[1] as int);
        seq![
            b64_symbol(a / 4),
            b64_symbol(a % 4 * 16 + b / 16),
            b64_symbol(b % 16 * 4),
            '=',
        ]
    } else {
        let (a, b, c) = (bytes[0] as int, bytes[1] as int, bytes[2] as int);
        seq![
            b64_symbol(a / 4),
            b64_symbol(a % 4 * 16 + b / 16),
            b64_symbol(b % 16 * 4 + c / 64),
            b64_symbol(c % 64),
        ] + b64_encoding(bytes.skip(3))
    }
}

/// The bytes whose text this is, or `None` where it is the text of none.
pub open spec fn b64_decoding(text: Seq<char>) -> Option<Seq<u8>> {
    if exists|bytes: Seq<u8>| #[trigger] b64_encoding(bytes) == text {
        Some(choose|bytes: Seq<u8>| #[trigger] b64_encoding(bytes) == text)
    } else {
        None
    }
}

/// Different six bits have different characters, and none has `=`.
proof fn b64_symbol_is_injective(v: int, w: int)
    requires
        0 <= v < 64,
        0 <= w < 64,
    ensures
        b64_symbol(v) == b64_symbol(w) ==> v == w,
        b64_symbol(v) != '=',
{
}

/// A text has four characters for every three bytes begun.
pub proof fn b64_length(bytes: Seq<u8>)
    ensures
        b64_encoding(bytes).len() == 4 * ((bytes.len() + 2) / 3),
    decreases bytes.len(),
{
    if bytes.len() >= 3 {
        b64_length(bytes.skip(3));
    }
}

/// The first group of a text, against that of another.
proof fn b64_first_group(x: Seq<u8>, y: Seq<u8>)
    requires
        b64_encoding(x) == b64_encoding(y),
        x.len() > 0,
        y.len() > 0,
    ensures
        x[0] == y[0],
        x.len() >= 2 <==> y.len() >= 2,
        x.len() >= 2 ==> x[1] == y[1],
        x.len() >= 3 <==> y.len() >= 3,
        x.len() >= 3 ==> x[2] == y[2],
{
    let t = b64_encoding(x);
    let u = b64_encoding(y);
    assert(t[0] == u[0] && t[1] == u[1] && t[2] == u[2] && t[3] == u[3]);
    let (a, d) = (x[0] as int, y[0] as int);
    let (b, e) = (
        if x.len() >= 2 {
            x[1] as int
        } else {
            0
        },
        if y.len() >= 2 {
            y[1] as int
        } else {
            0
        },
    );
    let (c, f) = (
        if x.len() >= 3 {
            x[2] as int
        } else {
            0
        },
        if y.len() >= 3 {
            y[2] as int
        } else {
            0
        },
    );
    assert(t[0] == b64_symbol(a / 4) && u[0] == b64_symbol(d / 4));
    assert(t[1] == b64_symbol(a % 4 * 16 + b / 16) && u[1] == b64_symbol(d % 4 * 16 + e / 16));
    b64_symbol_is_injective(a / 4, d / 4);
    b64_symbol_is_injective(a % 4 * 16 + b / 16, d % 4 * 16 + e / 16);
    b64_symbol_is_injective(b % 16 * 4 + c / 64, e % 16 * 4 + f / 64);
    b64_symbol_is_injective(e % 16 * 4 + f / 64, b % 16 * 4 + c / 64);
    b64_symbol_is_injective(c % 64, f % 64);
    b64_symbol_is_injective(f % 64, c % 64);
}

/// Different bytes have different texts.
pub proof fn b64_is_injective(x: Seq<u8>, y: Seq<u8>)
    requires
        b64_encoding(x) == b64_encoding(y),
    ensures
        x == y,
    decreases x.len(),
{
    b64_length(x);
    b64_length(y);
    if x.len() > 0 && y.len() > 0 {
        b64_first_group(x, y);
        if x.len() >= 3 {
            let t = b64_encoding(x);
            assert(t.skip(4) =~= b64_encoding(x.skip(3)));
            assert(t.skip(4) =~= b64_encoding(y.skip(3)));
            b64_is_injective(x.skip(3), y.skip(3));
            assert forall|i: int| 0 <= i < x.len() implies x[i] == y[i] by {
                if i >= 3 {
                    assert(x[i] == x.skip(3)[i - 3] && y[i] == y.skip(3)[i - 3]);
                }
            }
        }
    }
    assert(x =~= y);
}

/// What was encoded is read back, and what can be read is what would be written.
pub proof fn b64_round_trip(bytes: Seq<u8>, text: Seq<char>)
    ensures
        b64_decoding(b64_encoding(bytes)) == Some(bytes),
        b64_decoding(text) matches Some(read) ==> b64_encoding(read) == text,
{
    let read = b64_decoding(b64_encoding(bytes))->0;
    b64_is_injective(read, bytes);
}

} // verus!
