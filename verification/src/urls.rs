//! Percent-encoding.

use vstd::prelude::*;
use vstd::string::*;
use vstd::utf8::*;

verus! {

/// Whether a byte stands for itself in a URL.
pub open spec fn unreserved(byte: u8) -> bool {
    ||| 0x41 <= byte <= 0x5a
    ||| 0x61 <= byte <= 0x7a
    ||| 0x30 <= byte <= 0x39
    ||| byte == 0x2d
    ||| byte == 0x5f
    ||| byte == 0x2e
    ||| byte == 0x7e
}

/// The upper-case hexadecimal digit of a number below sixteen.
pub open spec fn hex_digit(n: int) -> char {
    if n < 10 {
        (48 + n) as char
    } else {
        (55 + n) as char
    }
}

/// The number that an upper-case hexadecimal digit stands for.
pub open spec fn hex_value(c: char) -> int {
    if c as int >= 65 {
        c as int - 55
    } else {
        c as int - 48
    }
}

/// How one byte is written in a URL.
pub open spec fn encoded_byte(byte: u8) -> Seq<char> {
    if unreserved(byte) {
        seq![byte as char]
    } else {
        seq!['%', hex_digit(byte as int / 16), hex_digit(byte as int % 16)]
    }
}

/// How bytes are written in a URL.
pub open spec fn percent_encoded(bytes: Seq<u8>) -> Seq<char>
    decreases bytes.len(),
{
    if bytes.len() == 0 {
        Seq::empty()
    } else {
        encoded_byte(bytes[0]) + percent_encoded(bytes.drop_first())
    }
}

/// How a text is written in a URL.
pub open spec fn url_encoded(text: Seq<char>) -> Seq<char> {
    percent_encoded(encode_utf8(text))
}

/// The bytes that a percent-encoded text stands for.
pub open spec fn percent_decoded(text: Seq<char>) -> Seq<u8>
    decreases text.len(),
{
    if text.len() == 0 {
        Seq::empty()
    } else if text[0] == '%' && text.len() >= 3 {
        seq![(16 * hex_value(text[1]) + hex_value(text[2])) as u8] + percent_decoded(text.skip(3))
    } else {
        seq![text[0] as u8] + percent_decoded(text.skip(1))
    }
}

/// The upper-case hexadecimal digit of `n`.
fn hex_char(n: u8) -> (c: char)
    requires
        n < 16,
    ensures
        c == hex_digit(n as int),
{
    if n < 10 {
        (48 + n) as char
    } else {
        (55 + n) as char
    }
}

/// Writes `text` so that it can stand as a query parameter of a URL.
pub fn urlencoding(text: &str) -> (encoded: String)
    ensures
        encoded@ == url_encoded(text@),
        percent_decoded(encoded@) == encode_utf8(text@),
{
    proof {
        law_decoding_undoes_encoding(encode_utf8(text@));
    }
    let bytes = text.as_bytes();
    let mut out = String::new();
    let mut i: usize = 0;
    assert(bytes@.skip(0) =~= bytes@);
    assert(out@ + percent_encoded(bytes@) =~= percent_encoded(bytes@));
    while i < bytes.len()
        invariant
            i <= bytes.len(),
            out@ + percent_encoded(bytes@.skip(i as int)) == percent_encoded(bytes@),
        decreases bytes.len() - i,
    {
        let b: u8 = bytes[i];
        let ghost before = out@;
        match b {
            0x41..=0x5a | 0x61..=0x7a | 0x30..=0x39 | 0x2d | 0x5f | 0x2e | 0x7e => {
                out.push(b as char);
            },
            _ => {
                out.push('%');
                out.push(hex_char(b / 16));
                out.push(hex_char(b % 16));
            },
        }
        assert(out@ =~= before + encoded_byte(b));
        let ghost left = bytes@.skip(i as int);
        assert(left[0] == b);
        assert(left.drop_first() =~= bytes@.skip(i + 1));
        assert(out@ + percent_encoded(bytes@.skip(i + 1)) =~= before + percent_encoded(left));
        i += 1;
    }
    assert(out@ + percent_encoded(bytes@.skip(i as int)) =~= out@);
    out
}

/// Decoding gives back the bytes that were encoded.
pub proof fn law_decoding_undoes_encoding(bytes: Seq<u8>)
    ensures
        percent_decoded(percent_encoded(bytes)) == bytes,
    decreases bytes.len(),
{
    if bytes.len() > 0 {
        let rest = bytes.drop_first();
        law_decoding_undoes_encoding(rest);
        let whole = percent_encoded(bytes);
        let first = encoded_byte(bytes[0]);
        assert(whole.skip(first.len() as int) =~= percent_encoded(rest));
        let b = bytes[0];
        assert(percent_decoded(whole) =~= seq![b] + rest);
        assert(seq![b] + rest =~= bytes);
    } else {
        assert(percent_decoded(percent_encoded(bytes)) =~= bytes);
    }
}

/// Different texts are written differently in a URL.
pub proof fn law_encoding_is_injective(a: Seq<char>, b: Seq<char>)
    requires
        url_encoded(a) == url_encoded(b),
    ensures
        a == b,
{
    law_decoding_undoes_encoding(encode_utf8(a));
    law_decoding_undoes_encoding(encode_utf8(b));
    encode_utf8_decode_utf8(a);
    encode_utf8_decode_utf8(b);
}

/// An encoded text is made of unreserved characters and percent signs alone, so nothing in it
/// can end the query parameter that it stands in.
pub proof fn law_encoding_is_url_safe(bytes: Seq<u8>)
    ensures
        forall|i: int|
            0 <= i < percent_encoded(bytes).len() ==> {
                let c = #[trigger] percent_encoded(bytes)[i];
                c == '%' || ((c as int) < 128 && unreserved(c as u8))
            },
    decreases bytes.len(),
{
    if bytes.len() > 0 {
        let rest = percent_encoded(bytes.drop_first());
        let first = encoded_byte(bytes[0]);
        law_encoding_is_url_safe(bytes.drop_first());
        assert forall|i: int| 0 <= i < percent_encoded(bytes).len() implies {
            let c = #[trigger] percent_encoded(bytes)[i];
            c == '%' || ((c as int) < 128 && unreserved(c as u8))
        } by {
            if i < first.len() {
                assert(percent_encoded(bytes)[i] == first[i]);
            } else {
                assert(percent_encoded(bytes)[i] == rest[i - first.len()]);
            }
        }
    }
}

} // verus!
