//! Cutting, comparing and writing texts.

use crate::text_laws::{
    digits_value, law_decimal, law_head, law_snippet_ends_at_the_last_stop,
    law_snippet_without_a_stop, law_trailing_slashes_alone_are_removed, law_truncated,
};
use vstd::prelude::*;
use vstd::string::*;
use vstd::utf8::*;

verus! {

/// How many bytes `text` takes in UTF-8.
pub open spec fn utf8_len(text: Seq<char>) -> nat {
    encode_utf8(text).len()
}

/// How many leading characters of `text` fit into `max` bytes of UTF-8.
pub open spec fn fitting(text: Seq<char>, max: nat) -> nat
    decreases text.len(),
{
    if text.len() == 0 || encode_scalar(text[0] as u32).len() > max {
        0
    } else {
        1 + fitting(text.drop_first(), (max - encode_scalar(text[0] as u32).len()) as nat)
    }
}

/// The longest prefix of `text` that fits into `max` bytes of UTF-8.
pub open spec fn head_view(text: Seq<char>, max: nat) -> Seq<char> {
    text.take(fitting(text, max) as int)
}

/// `text` itself where it fits into `max` bytes, else its longest fitting prefix and an ellipsis.
pub open spec fn truncated(text: Seq<char>, max: nat) -> Seq<char> {
    if utf8_len(text) <= max {
        text
    } else {
        head_view(text, max) + "…"@
    }
}

/// Splitting off the first character of a text splits off its encoding.
proof fn lemma_encode_first(text: Seq<char>)
    requires
        text.len() > 0,
    ensures
        valid_utf8(encode_utf8(text)),
        length_of_first_scalar(encode_utf8(text)) == encode_scalar(text[0] as u32).len(),
        pop_first_scalar(encode_utf8(text)) == encode_utf8(text.drop_first()),
        encode_scalar(text[0] as u32).len() >= 1,
        utf8_len(text) == encode_scalar(text[0] as u32).len() + utf8_len(text.drop_first()),
{
    encode_utf8_valid_utf8(text);
    encode_utf8_first_scalar(text);
    assert(pop_first_scalar(encode_utf8(text)) =~= encode_utf8(text.drop_first()));
}

/// The last character boundary that is not beyond `max` is where the longest fitting prefix ends.
proof fn lemma_last_boundary(text: Seq<char>, max: nat, cut: int)
    requires
        0 <= cut <= max,
        is_char_boundary(encode_utf8(text), cut),
        forall|j: int| cut < j <= max ==> !#[trigger] is_char_boundary(encode_utf8(text), j),
    ensures
        fitting(text, max) <= text.len(),
        encode_utf8(text).subrange(0, cut) == encode_utf8(head_view(text, max)),
    decreases text.len(),
{
    encode_utf8_valid_utf8(text);
    let bytes = encode_utf8(text);
    let kept = head_view(text, max);
    if text.len() == 0 {
        assert(kept =~= Seq::empty());
        assert(bytes.subrange(0, cut) =~= encode_utf8(kept));
    } else {
        lemma_encode_first(text);
        let rest = text.drop_first();
        let width = encode_scalar(text[0] as u32).len();
        encode_utf8_valid_utf8(rest);
        reveal_with_fuel(is_char_boundary, 2);
        if width > max {
            assert(cut == 0);
            assert(kept =~= Seq::empty());
            assert(bytes.subrange(0, cut) =~= encode_utf8(kept));
        } else {
            assert(is_char_boundary(bytes, width as int));
            assert(width <= cut);
            let rest_max = (max - width) as nat;
            assert forall|j: int| cut - width < j <= rest_max implies !#[trigger] is_char_boundary(
                encode_utf8(rest),
                j,
            ) by {
                assert(!is_char_boundary(bytes, j + width));
            }
            lemma_last_boundary(rest, rest_max, cut - width);
            let rest_kept = head_view(rest, rest_max);
            assert(kept.drop_first() =~= rest_kept);
            assert(kept[0] == text[0]);
            assert(bytes.subrange(0, cut) =~= encode_scalar(text[0] as u32) + encode_utf8(
                rest,
            ).subrange(0, cut - width));
        }
    }
}

/// Texts with the same encoding are the same.
proof fn lemma_encode_injective(a: Seq<char>, b: Seq<char>)
    requires
        encode_utf8(a) == encode_utf8(b),
    ensures
        a == b,
{
    encode_utf8_decode_utf8(a);
    encode_utf8_decode_utf8(b);
}

/// The longest prefix of `text` that fits into `max` bytes.
pub fn head<'a>(text: &'a str, max: usize) -> (kept: &'a str)
    ensures
        kept@ == head_view(text@, max as nat),
        kept@.is_prefix_of(text@),
        encode_utf8(kept@).len() <= max,
        forall|k: int|
            kept@.len() < k <= text@.len() ==> encode_utf8(#[trigger] text@.take(k)).len() > max,
{
    let len: usize = text.as_bytes().len();
    let mut cut: usize = if len < max {
        len
    } else {
        max
    };
    proof {
        encode_utf8_valid_utf8(text@);
    }
    while cut > 0 && !text.is_char_boundary(cut)
        invariant
            cut <= max,
            forall|j: int| cut < j <= max ==> !#[trigger] is_char_boundary(encode_utf8(text@), j),
        decreases cut,
    {
        cut -= 1;
    }
    proof {
        lemma_last_boundary(text@, max as nat, cut as int);
    }
    let (kept, _) = text.split_at(cut);
    proof {
        lemma_encode_injective(kept@, head_view(text@, max as nat));
        law_head(text@, max as nat);
    }
    kept
}

/// `text`, cut to at most `max` bytes and marked with an ellipsis where it is longer.
pub fn truncate(text: &str, max: usize) -> (cut: String)
    ensures
        cut@ == truncated(text@, max as nat),
        encode_utf8(text@).len() <= max ==> cut@ == text@,
        encode_utf8(text@).len() > max ==> {
            &&& cut@.len() > 0
            &&& cut@.last() == '…'
            &&& cut@.drop_last().is_prefix_of(text@)
            &&& encode_utf8(cut@.drop_last()).len() <= max
            &&& forall|k: int|
                cut@.len() <= k <= text@.len() ==> encode_utf8(#[trigger] text@.take(k)).len()
                    > max
        },
{
    proof {
        law_truncated(text@, max as nat);
    }
    if text.as_bytes().len() <= max {
        text.to_string()
    } else {
        let mut cut = head(text, max).to_string();
        cut.append("…");
        cut
    }
}

/// Where the last full stop that a space follows stands in `text`.
pub open spec fn last_stop(text: Seq<char>) -> Option<int>
    decreases text.len(),
{
    if text.len() < 2 {
        None
    } else if text[text.len() - 2] == '.' && text[text.len() - 1] == ' ' {
        Some(text.len() - 2)
    } else {
        last_stop(text.drop_last())
    }
}

/// The most bytes of a text that its snippet is taken from.
pub const SNIPPET_MAX_BYTES: usize = 280;

/// A snippet ends at a full stop only where more bytes than this stand before it.
pub const SNIPPET_MIN_BYTES: usize = 40;

/// What `extract_snippet` keeps of a text.
pub open spec fn snippet(text: Seq<char>) -> Seq<char> {
    let preview = truncated(text, SNIPPET_MAX_BYTES as nat);
    match last_stop(preview) {
        Some(stop) => if utf8_len(preview.take(stop)) > SNIPPET_MIN_BYTES {
            preview.take(stop + 1)
        } else {
            preview
        },
        None => preview,
    }
}

/// Finds the last full stop that a space follows, counted in characters.
fn find_last_stop(text: &str) -> (found: Option<usize>)
    ensures
        match found {
            Some(stop) => {
                &&& last_stop(text@) == Some(stop as int)
                &&& stop + 1 < text@.len()
                &&& stop < usize::MAX
            },
            None => last_stop(text@) is None,
        },
{
    let total: usize = text.unicode_len();
    let mut found: Option<usize> = None;
    let mut count: usize = 0;
    let mut after_dot = false;
    for c in it: text.chars()
        invariant
            it.seq() == text@,
            count == it.index(),
            total == text@.len(),
            after_dot == (count > 0 && text@[count - 1] == '.'),
            match found {
                Some(stop) => last_stop(text@.take(count as int)) == Some(stop as int) && stop + 1
                    < count,
                None => last_stop(text@.take(count as int)) is None,
            },
    {
        let ghost seen = text@.take(count as int);
        let ghost next = text@.take(count + 1);
        assert(next.drop_last() =~= seen);
        if after_dot && c == ' ' {
            found = Some(count - 1);
        }
        after_dot = c == '.';
        count += 1;
    }
    assert(text@.take(count as int) =~= text@);
    found
}

/// A snippet ends at the last stop that has enough text before it, or not at a stop.
proof fn lemma_snippet(text: Seq<char>)
    ensures
        ({
            let p = truncated(text, 280);
            forall|stop: int|
                0 <= stop < p.len() - 1 && #[trigger] p[stop] == '.' && p[stop + 1] == ' ' && (
                forall|i: int|
                    stop < i < p.len() - 1 ==> !(#[trigger] p[i] == '.' && p[i + 1] == ' ')) ==> {
                    &&& encode_utf8(p.take(stop)).len() > 40 ==> snippet(text) == p.take(stop + 1)
                    &&& encode_utf8(p.take(stop)).len() <= 40 ==> snippet(text) == p
                }
        }),
        ({
            let p = truncated(text, 280);
            (forall|i: int|
                0 <= i < p.len() - 1 ==> !(#[trigger] p[i] == '.' && p[i + 1] == ' '))
                ==> snippet(text) == p
        }),
{
    let p = truncated(text, 280);
    assert forall|stop: int|
        0 <= stop < p.len() - 1 && #[trigger] p[stop] == '.' && p[stop + 1] == ' ' && (forall|
            i: int,
        |
            stop < i < p.len() - 1 ==> !(#[trigger] p[i] == '.' && p[i + 1] == ' ')) implies {
        &&& encode_utf8(p.take(stop)).len() > 40 ==> snippet(text) == p.take(stop + 1)
        &&& encode_utf8(p.take(stop)).len() <= 40 ==> snippet(text) == p
    } by {
        law_snippet_ends_at_the_last_stop(text, stop);
    }
    if forall|i: int| 0 <= i < p.len() - 1 ==> !(#[trigger] p[i] == '.' && p[i + 1] == ' ') {
        law_snippet_without_a_stop(text);
    }
}

/// The first sentence-worth of text from a longer field.
pub fn extract_snippet(text: &str) -> (cut: String)
    ensures
        cut@ == snippet(text@),
        ({
            let p = truncated(text@, 280);
            forall|stop: int|
                0 <= stop < p.len() - 1 && #[trigger] p[stop] == '.' && p[stop + 1] == ' ' && (
                forall|i: int|
                    stop < i < p.len() - 1 ==> !(#[trigger] p[i] == '.' && p[i + 1] == ' ')) ==> {
                    &&& encode_utf8(p.take(stop)).len() > 40 ==> cut@ == p.take(stop + 1)
                    &&& encode_utf8(p.take(stop)).len() <= 40 ==> cut@ == p
                }
        }),
        ({
            let p = truncated(text@, 280);
            (forall|i: int|
                0 <= i < p.len() - 1 ==> !(#[trigger] p[i] == '.' && p[i + 1] == ' '))
                ==> cut@ == p
        }),
{
    proof {
        lemma_snippet(text@);
    }
    let preview = truncate(text, SNIPPET_MAX_BYTES);
    if let Some(stop) = find_last_stop(preview.as_str()) {
        let before = preview.as_str().substring_char(0, stop);
        assert(before@ == preview@.take(stop as int));
        if before.as_bytes().len() > SNIPPET_MIN_BYTES {
            let sentence = preview.as_str().substring_char(0, stop + 1);
            assert(sentence@ == preview@.take(stop + 1));
            return sentence.to_string();
        }
    }
    preview
}

/// What an optional text holds.
pub open spec fn opt_view(text: Option<String>) -> Option<Seq<char>> {
    match text {
        Some(text) => Some(text@),
        None => None,
    }
}

/// Whether two texts are the same.
pub fn same_text(a: &str, b: &str) -> (same: bool)
    ensures
        same == (a@ == b@),
{
    a.to_string() == b.to_string()
}

/// Whether `text` starts with `prefix`.
pub fn has_prefix(text: &str, prefix: &str) -> (yes: bool)
    ensures
        yes == prefix@.is_prefix_of(text@),
{
    let n: usize = prefix.unicode_len();
    if text.unicode_len() < n {
        return false;
    }
    let start = text.substring_char(0, n);
    assert(start@ == text@.take(n as int));
    same_text(start, prefix)
}

/// `text` without the slashes at its end.
pub open spec fn without_trailing_slashes(text: Seq<char>) -> Seq<char>
    decreases text.len(),
{
    if text.len() > 0 && text.last() == '/' {
        without_trailing_slashes(text.drop_last())
    } else {
        text
    }
}

/// Removes the slashes at the end of `text`.
pub fn trim_trailing_slashes(text: &str) -> (trimmed: String)
    ensures
        trimmed@ == without_trailing_slashes(text@),
        trimmed@.is_prefix_of(text@),
        forall|i: int| trimmed@.len() <= i < text@.len() ==> #[trigger] text@[i] == '/',
        trimmed@.len() > 0 ==> trimmed@.last() != '/',
{
    proof {
        law_trailing_slashes_alone_are_removed(text@);
    }
    let mut end: usize = text.unicode_len();
    assert(text@.take(end as int) =~= text@);
    while end > 0 && text.get_char(end - 1) == '/'
        invariant
            end <= text@.len(),
            without_trailing_slashes(text@) == without_trailing_slashes(text@.take(end as int)),
        decreases end,
    {
        assert(text@.take(end as int).drop_last() =~= text@.take(end - 1));
        end -= 1;
    }
    let kept = text.substring_char(0, end);
    assert(kept@ == text@.take(end as int));
    kept.to_string()
}

/// The digits of `n` in base ten.
pub open spec fn decimal(n: nat) -> Seq<char>
    decreases n,
{
    if n < 10 {
        seq![(48 + n) as char]
    } else {
        decimal(n / 10).push((48 + n % 10) as char)
    }
}

/// Writes `n` in base ten.
pub fn decimal_text(n: u32) -> (text: String)
    ensures
        text@ == decimal(n as nat),
        digits_value(text@) == n,
    decreases n,
{
    proof {
        law_decimal(n as nat);
    }
    let digit: u8 = (n % 10) as u8;
    let mut text = if n < 10 {
        String::new()
    } else {
        decimal_text(n / 10)
    };
    text.push((48 + digit) as char);
    assert(n < 10 ==> text@ =~= decimal(n as nat));
    text
}

/// The text that the `Debug` of a `str` writes.
pub uninterp spec fn debug_text(text: Seq<char>) -> Seq<char>;

/// The `Debug` of a `str` writes it between quotation marks with the characters escaped that do
/// not print. What is written depends on the text alone, and has the name `debug_text`.
#[verifier::external_body]
pub(crate) fn debug_quoted(text: &str) -> (quoted: String)
    ensures
        quoted@ == debug_text(text@),
{
    format!("{:?}", text)
}

/// `String::push` appends the given character to the end of the text.
pub assume_specification[ String::push ](text: &mut String, c: char)
    ensures
        final(text)@ == old(text)@.push(c),
;

} // verus!
