//! What holds of the work on texts.

use crate::laws::law_head_is_longest_fit;
use crate::text::{
    decimal, head_view, last_stop, opt_view, snippet, truncated,
    without_trailing_slashes,
};
use crate::urls::{
    encoded_byte, law_decoding_undoes_encoding, percent_decoded, percent_encoded, url_encoded,
};
use vstd::prelude::*;
use vstd::utf8::*;

verus! {

/// The head of a text is a prefix of it that takes at most `max` bytes, and every longer prefix
/// takes more.
pub proof fn law_head(text: Seq<char>, max: nat)
    ensures
        head_view(text, max).is_prefix_of(text),
        encode_utf8(head_view(text, max)).len() <= max,
        forall|k: int|
            head_view(text, max).len() < k <= text.len() ==> encode_utf8(
                #[trigger] text.take(k),
            ).len() > max,
{
    law_head_is_longest_fit(text, max);
}

/// A text of at most `max` bytes is not truncated. Of a longer one a prefix of at most `max`
/// bytes is kept with an ellipsis behind it, and every longer prefix takes more bytes.
pub proof fn law_truncated(text: Seq<char>, max: nat)
    ensures
        encode_utf8(text).len() <= max ==> truncated(text, max) == text,
        encode_utf8(text).len() > max ==> {
            let cut = truncated(text, max);
            &&& cut.len() > 0
            &&& cut.last() == '…'
            &&& cut.drop_last().is_prefix_of(text)
            &&& encode_utf8(cut.drop_last()).len() <= max
            &&& forall|k: int|
                cut.len() <= k <= text.len() ==> encode_utf8(#[trigger] text.take(k)).len() > max
        },
{
    law_head(text, max);
    reveal_strlit("…");
    if encode_utf8(text).len() > max {
        let cut = truncated(text, max);
        assert("…"@.len() == 1);
        assert(cut.drop_last() =~= head_view(text, max));
    }
}

/// The last stop that fulfils the description is the one that is found.
proof fn lemma_last_stop_is(text: Seq<char>, stop: int)
    requires
        0 <= stop < text.len() - 1,
        text[stop] == '.',
        text[stop + 1] == ' ',
        forall|i: int|
            stop < i < text.len() - 1 ==> !(#[trigger] text[i] == '.' && text[i + 1] == ' '),
    ensures
        last_stop(text) == Some(stop),
    decreases text.len(),
{
    if stop < text.len() - 2 {
        let shorter = text.drop_last();
        assert(!(text[text.len() - 2] == '.' && text[text.len() - 2 + 1] == ' '));
        assert forall|i: int| stop < i < shorter.len() - 1 implies !(#[trigger] shorter[i] == '.'
            && shorter[i + 1] == ' ') by {
            assert(shorter[i] == text[i] && shorter[i + 1] == text[i + 1]);
        }
        lemma_last_stop_is(shorter, stop);
    }
}

/// Where no stop fulfils the description none is found.
proof fn lemma_no_stop(text: Seq<char>)
    requires
        forall|i: int|
            0 <= i < text.len() - 1 ==> !(#[trigger] text[i] == '.' && text[i + 1] == ' '),
    ensures
        last_stop(text) is None,
    decreases text.len(),
{
    if text.len() >= 2 {
        let shorter = text.drop_last();
        assert(!(text[text.len() - 2] == '.' && text[text.len() - 2 + 1] == ' '));
        assert forall|i: int| 0 <= i < shorter.len() - 1 implies !(#[trigger] shorter[i] == '.'
            && shorter[i + 1] == ' ') by {
            assert(shorter[i] == text[i] && shorter[i + 1] == text[i + 1]);
        }
        lemma_no_stop(shorter);
    }
}

/// A text is first truncated to 280 bytes. Where a full stop with a space behind it is the last
/// one in what is left, and more than 40 bytes stand before it, the snippet ends with that stop;
/// where no more stand before it, the snippet is all that is left.
pub proof fn law_snippet_ends_at_the_last_stop(text: Seq<char>, stop: int)
    requires
        0 <= stop < truncated(text, 280).len() - 1,
        truncated(text, 280)[stop] == '.',
        truncated(text, 280)[stop + 1] == ' ',
        forall|i: int|
            stop < i < truncated(text, 280).len() - 1 ==> !(#[trigger] truncated(text, 280)[i]
                == '.' && truncated(text, 280)[i + 1] == ' '),
    ensures
        encode_utf8(truncated(text, 280).take(stop)).len() > 40 ==> {
            &&& snippet(text) == truncated(text, 280).take(stop + 1)
            &&& snippet(text) != truncated(text, 280)
        },
        encode_utf8(truncated(text, 280).take(stop)).len() <= 40 ==> snippet(text) == truncated(
            text,
            280,
        ),
{
    lemma_last_stop_is(truncated(text, 280), stop);
    assert(truncated(text, 280).take(stop + 1).len() == stop + 1);
}

/// Without a full stop that a space follows, the snippet is the text truncated to 280 bytes.
pub proof fn law_snippet_without_a_stop(text: Seq<char>)
    requires
        forall|i: int|
            0 <= i < truncated(text, 280).len() - 1 ==> !(#[trigger] truncated(text, 280)[i] == '.'
                && truncated(text, 280)[i + 1] == ' '),
    ensures
        snippet(text) == truncated(text, 280),
{
    lemma_no_stop(truncated(text, 280));
}

/// Only slashes are removed from the end of a text, and none is left there.
pub proof fn law_trailing_slashes_alone_are_removed(text: Seq<char>)
    ensures
        without_trailing_slashes(text).is_prefix_of(text),
        forall|i: int|
            without_trailing_slashes(text).len() <= i < text.len() ==> #[trigger] text[i] == '/',
        without_trailing_slashes(text).len() > 0 ==> without_trailing_slashes(text).last() != '/',
    decreases text.len(),
{
    if text.len() > 0 && text.last() == '/' {
        let shorter = text.drop_last();
        law_trailing_slashes_alone_are_removed(shorter);
        assert forall|i: int|
            without_trailing_slashes(text).len() <= i < text.len() implies #[trigger] text[i]
            == '/' by {
            if i < shorter.len() {
                assert(shorter[i] == text[i]);
            }
        }
    }
}

/// The number that a row of decimal digits stands for.
pub open spec fn digits_value(digits: Seq<char>) -> int
    decreases digits.len(),
{
    if digits.len() == 0 {
        0
    } else {
        10 * digits_value(digits.drop_last()) + (digits.last() as int - '0' as int)
    }
}

/// A number is written in decimal digits that stand for it, without a zero in front.
pub proof fn law_decimal(n: nat)
    ensures
        decimal(n).len() > 0,
        forall|i: int| 0 <= i < decimal(n).len() ==> '0' <= #[trigger] decimal(n)[i] <= '9',
        digits_value(decimal(n)) == n,
        n > 0 ==> decimal(n)[0] != '0',
        n == 0 ==> decimal(n) == seq!['0'],
    decreases n,
{
    reveal_with_fuel(digits_value, 2);
    if n < 10 {
        assert(decimal(n).drop_last() =~= Seq::empty());
        assert(n == 0 ==> decimal(n) =~= seq!['0']);
    } else {
        law_decimal(n / 10);
        assert(decimal(n).drop_last() =~= decimal(n / 10));
    }
}

/// Different numbers are written differently.
pub proof fn law_decimal_is_injective(a: nat, b: nat)
    requires
        decimal(a) == decimal(b),
    ensures
        a == b,
{
    law_decimal(a);
    law_decimal(b);
}

/// Bytes are encoded one by one.
pub proof fn law_bytes_are_encoded_one_by_one(a: Seq<u8>, b: Seq<u8>)
    ensures
        percent_encoded(a + b) == percent_encoded(a) + percent_encoded(b),
        percent_encoded(Seq::empty()) == Seq::<char>::empty(),
    decreases a.len(),
{
    if a.len() == 0 {
        assert(a + b =~= b);
        assert(percent_encoded(a) + percent_encoded(b) =~= percent_encoded(b));
    } else {
        law_bytes_are_encoded_one_by_one(a.drop_first(), b);
        assert((a + b).drop_first() =~= a.drop_first() + b);
        assert(percent_encoded(a + b) =~= percent_encoded(a) + percent_encoded(b));
    }
}

/// A letter, a digit and the four marks stand for themselves; any other byte is written as a
/// percent sign and the two upper-case hexadecimal digits of its value.
pub proof fn law_encoding_of_a_byte(byte: u8)
    ensures
        ('A' as u8 <= byte <= 'Z' as u8 || 'a' as u8 <= byte <= 'z' as u8 || '0' as u8 <= byte
            <= '9' as u8 || byte == '-' as u8 || byte == '_' as u8 || byte == '.' as u8 || byte
            == '~' as u8) ==> percent_encoded(seq![byte]) == seq![byte as char],
        !('A' as u8 <= byte <= 'Z' as u8 || 'a' as u8 <= byte <= 'z' as u8 || '0' as u8 <= byte
            <= '9' as u8 || byte == '-' as u8 || byte == '_' as u8 || byte == '.' as u8 || byte
            == '~' as u8) ==> {
            let written = percent_encoded(seq![byte]);
            let high = written[1] as int;
            let low = written[2] as int;
            &&& written.len() == 3
            &&& written[0] == '%'
            &&& 48 <= high <= 57 || 65 <= high <= 70
            &&& 48 <= low <= 57 || 65 <= low <= 70
            &&& byte == 16 * (if high <= 57 { high - 48 } else { high - 55 }) + (if low <= 57 {
                low - 48
            } else {
                low - 55
            })
        },
{
    reveal_with_fuel(percent_encoded, 2);
    assert(seq![byte].drop_first() =~= Seq::empty());
    assert(percent_encoded(seq![byte]) =~= encoded_byte(byte));
}

/// A text is encoded as its UTF-8 bytes, which can be read back from what is written.
pub proof fn law_encoded_text_reads_back(text: Seq<char>)
    ensures
        url_encoded(text) == percent_encoded(encode_utf8(text)),
        percent_decoded(url_encoded(text)) == encode_utf8(text),
        decode_utf8(percent_decoded(url_encoded(text))) == text,
{
    law_decoding_undoes_encoding(encode_utf8(text));
    encode_utf8_decode_utf8(text);
}

/// Nothing stands in an encoded text but letters, digits, the four marks and percent signs.
pub proof fn law_encoded_bytes_are_url_safe(bytes: Seq<u8>)
    ensures
        forall|i: int|
            0 <= i < percent_encoded(bytes).len() ==> {
                let c = #[trigger] percent_encoded(bytes)[i];
                'A' <= c <= 'Z' || 'a' <= c <= 'z' || '0' <= c <= '9' || c == '-' || c == '_' || c
                    == '.' || c == '~' || c == '%'
            },
    decreases bytes.len(),
{
    if bytes.len() > 0 {
        let first = encoded_byte(bytes[0]);
        let rest = percent_encoded(bytes.drop_first());
        law_encoded_bytes_are_url_safe(bytes.drop_first());
        assert forall|i: int| 0 <= i < percent_encoded(bytes).len() implies {
            let c = #[trigger] percent_encoded(bytes)[i];
            'A' <= c <= 'Z' || 'a' <= c <= 'z' || '0' <= c <= '9' || c == '-' || c == '_' || c
                == '.' || c == '~' || c == '%'
        } by {
            if i < first.len() {
                assert(percent_encoded(bytes)[i] == first[i]);
            } else {
                assert(percent_encoded(bytes)[i] == rest[i - first.len()]);
            }
        }
    }
}

/// An optional text is viewed as the text, where there is one.
pub proof fn law_optional_text(text: Option<String>)
    ensures
        text matches Some(given) ==> opt_view(text) == Some(given@),
        text is None ==> opt_view(text) is None,
{
}

} // verus!
