//! Text: comparing strings, and the conversions from raw bytes that std offers.

use vstd::prelude::*;
use vstd::utf8::{
    decode_utf8, encode_utf8, encode_utf8_decode_utf8, encode_utf8_valid_utf8, valid_utf8,
};

verus! {

/// Whether two strings hold the same characters.
pub fn str_eq(a: &str, b: &str) -> (r: bool)
    ensures
        r == (a@ == b@),
{
    let x = a.as_bytes();
    let y = b.as_bytes();
    proof {
        encode_utf8_decode_utf8(a@);
        encode_utf8_decode_utf8(b@);
    }
    if x.len() != y.len() {
        return false;
    }
    let mut i: usize = 0;
    while i < x.len()
        invariant
            i <= x@.len(),
            x@.len() == y@.len(),
            x@ == encode_utf8(a@),
            y@ == encode_utf8(b@),
            forall|k: int| 0 <= k < i ==> x@[k] == y@[k],
        decreases x@.len() - i,
    {
        if x[i] != y[i] {
            return false;
        }
        i += 1;
    }
    assert(x@ =~= y@);
    true
}

/// The text that `String::from_utf8_lossy` makes of bytes that are not valid UTF-8.
pub uninterp spec fn repaired(bytes: Seq<u8>) -> Seq<char>;

/// The text in `bytes`: what they encode if they are valid UTF-8, and else what is left of it once
/// the invalid parts are replaced.
pub open spec fn lossy(bytes: Seq<u8>) -> Seq<char> {
    if valid_utf8(bytes) {
        decode_utf8(bytes)
    } else {
        repaired(bytes)
    }
}

/// `String::from_utf8_lossy`. Of valid UTF-8 it makes the text that the bytes encode; of anything
/// else it makes a text in which U+FFFD, the replacement character, stands for what is not valid.
#[verifier::external_body]
pub(crate) fn from_utf8_lossy(bytes: &[u8]) -> (r: String)
    ensures
        valid_utf8(bytes@) ==> r@ == decode_utf8(bytes@),
        !valid_utf8(bytes@) ==> r@ == repaired(bytes@) && r@.contains('\u{FFFD}'),
{
    String::from_utf8_lossy(bytes).into_owned()
}

/// A text comes back from its own UTF-8 as it was.
pub proof fn lossy_keeps_text(text: Seq<char>)
    ensures
        lossy(encode_utf8(text)) == text,
{
    encode_utf8_valid_utf8(text);
    encode_utf8_decode_utf8(text);
}

/// `text` without the newlines at its end.
pub open spec fn without_trailing_newlines(text: Seq<char>) -> Seq<char>
    decreases text.len(),
{
    if text.len() > 0 && text.last() == '\n' {
        without_trailing_newlines(text.drop_last())
    } else {
        text
    }
}

/// What is cut off is nothing but newlines, and no newline is left at the end.
pub proof fn only_newlines_are_cut(text: Seq<char>)
    ensures
        ({
            let kept = without_trailing_newlines(text);
            &&& kept.len() <= text.len()
            &&& kept == text.take(kept.len() as int)
            &&& forall|i: int| kept.len() <= i < text.len() ==> text[i] == '\n'
            &&& kept.len() > 0 ==> kept.last() != '\n'
        }),
    decreases text.len(),
{
    if text.len() > 0 && text.last() == '\n' {
        let shorter = text.drop_last();
        only_newlines_are_cut(shorter);
        let kept = without_trailing_newlines(text);
        assert(kept =~= text.take(kept.len() as int));
        assert forall|i: int| kept.len() <= i < text.len() implies text[i] == '\n' by {
            if i < shorter.len() {
                assert(shorter[i] == text[i]);
            }
        }
    } else {
        assert(text =~= text.take(text.len() as int));
    }
}

/// Cuts off every newline at the end of `text`, and nothing else.
pub(crate) fn trim_newlines(text: &str) -> (r: &str)
    ensures
        r@ == without_trailing_newlines(text@),
{
    let mut kept: usize = text.unicode_len();
    assert(text@.take(kept as int) =~= text@);
    while kept > 0 && text.get_char(kept - 1) == '\n'
        invariant
            kept <= text@.len(),
            without_trailing_newlines(text@.take(kept as int)) == without_trailing_newlines(text@),
        ensures
            kept == 0 || text@[kept - 1] != '\n',
        decreases kept,
    {
        assert(text@.take(kept as int).drop_last() =~= text@.take(kept - 1));
        kept -= 1;
    }
    assert(text@.subrange(0, kept as int) =~= text@.take(kept as int));
    text.substring_char(0, kept)
}

/// The decimal digit for `n`, which is below ten.
pub open spec fn digit(n: nat) -> char {
    ('0' as nat + n) as char
}

/// `n` in decimal digits.
pub open spec fn decimal(n: nat) -> Seq<char>
    decreases n,
{
    if n < 10 {
        seq![digit(n)]
    } else {
        decimal(n / 10).push(digit(n % 10))
    }
}

/// `bytes` in decimal digits, with a comma and a space between each two.
pub open spec fn decimals(bytes: Seq<u8>) -> Seq<char>
    decreases bytes.len(),
{
    if bytes.len() == 0 {
        Seq::empty()
    } else if bytes.len() == 1 {
        decimal(bytes[0] as nat)
    } else {
        decimals(bytes.drop_last()) + ", "@ + decimal(bytes.last() as nat)
    }
}

/// `bytes` as a list in square brackets.
pub open spec fn debug_text(bytes: Seq<u8>) -> Seq<char> {
    "["@ + decimals(bytes) + "]"@
}

/// The decimal digit for `n`.
fn digit_text(n: u8) -> (r: &'static str)
    requires
        n < 10,
    ensures
        r@ == seq![digit(n as nat)],
{
    proof {
        reveal_strlit("0");
        reveal_strlit("1");
        reveal_strlit("2");
        reveal_strlit("3");
        reveal_strlit("4");
        reveal_strlit("5");
        reveal_strlit("6");
        reveal_strlit("7");
        reveal_strlit("8");
        reveal_strlit("9");
    }
    match n {
        0 => "0",
        1 => "1",
        2 => "2",
        3 => "3",
        4 => "4",
        5 => "5",
        6 => "6",
        7 => "7",
        8 => "8",
        _ => "9",
    }
}

/// Writes `n` in decimal digits behind `text`.
fn append_decimal(text: &mut String, n: u8)
    ensures
        final(text)@ == old(text)@ + decimal(n as nat),
{
    proof {
        reveal_with_fuel(decimal, 3);
    }
    let ghost before = text@;
    if n >= 100 {
        text.append(digit_text(n / 100));
    }
    if n >= 10 {
        text.append(digit_text(n / 10 % 10));
    }
    text.append(digit_text(n % 10));
    assert(text@ =~= before + decimal(n as nat));
}

/// `bytes` as a list in square brackets, which is how `{:?}` shows them.
pub(crate) fn debug_bytes(bytes: &Vec<u8>) -> (r: String)
    ensures
        r@ == debug_text(bytes@),
{
    let mut text: String = "[".to_owned();
    let ghost open = "["@;
    let mut i: usize = 0;
    assert(text@ =~= open + decimals(bytes@.take(0)));
    while i < bytes.len()
        invariant
            i <= bytes@.len(),
            text@ == open + decimals(bytes@.take(i as int)),
        decreases bytes@.len() - i,
    {
        proof {
            assert(bytes@.take(i + 1).drop_last() =~= bytes@.take(i as int));
        }
        if i > 0 {
            text.append(", ");
        }
        append_decimal(&mut text, bytes[i]);
        assert(text@ =~= open + decimals(bytes@.take(i + 1)));
        i += 1;
    }
    assert(bytes@.take(i as int) =~= bytes@);
    text.append("]");
    text
}

} // verus!
