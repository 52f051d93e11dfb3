//! Text helpers: decoding of diagnostic bytes, case folding, comparison and
//! concatenation of strings.

use vstd::prelude::*;
use vstd::utf8::*;

verus! {

/// The lower-case form of a text, as the standard library computes it.
pub uninterp spec fn lowercase(text: Seq<char>) -> Seq<char>;

/// Calls `String::from_utf8`. The standard library accepts exactly the byte
/// sequences that are well-formed UTF-8 and then yields the text that they
/// encode; on any other sequence it fails, and this function gives `None`.
#[verifier::external_body]
pub(crate) fn decode_text(bytes: Vec<u8>) -> (r: Option<String>)
    ensures
        r is Some <==> valid_utf8(bytes@),
        r is Some ==> r->Some_0@ == decode_utf8(bytes@),
{
    String::from_utf8(bytes).ok()
}

/// Calls `str::to_lowercase`. The result depends on the characters of the
/// text alone (the Unicode lower-case mapping), so it is given a name rather
/// than a definition.
#[verifier::external_body]
pub(crate) fn to_lowercase(text: &str) -> (r: String)
    ensures
        r@ == lowercase(text@),
{
    text.to_lowercase()
}

/// Whether two texts hold the same characters.
pub fn same_text(a: &str, b: &str) -> (r: bool)
    ensures
        r == (a@ == b@),
{
    let left = a.to_owned();
    let right = b.to_owned();
    left == right
}

/// The texts that a sequence of strings holds.
pub open spec fn texts(strings: Seq<String>) -> Seq<Seq<char>> {
    Seq::new(strings.len(), |i: int| strings[i]@)
}

/// Appends a copy of `text` to the list.
pub fn push_text(list: &mut Vec<String>, text: &str)
    ensures
        texts(final(list)@) == texts(old(list)@).push(text@),
{
    list.push(text.to_owned());
    assert(texts(list@) =~= texts(old(list)@).push(text@));
}

/// Appends the text `head` followed by `tail`, as one string, to the list.
pub fn push_joined(list: &mut Vec<String>, head: &str, tail: &str)
    ensures
        texts(final(list)@) == texts(old(list)@).push(head@ + tail@),
{
    let mut joined = head.to_owned();
    joined.append(tail);
    list.push(joined);
    assert(texts(list@) =~= texts(old(list)@).push(head@ + tail@));
}

/// The decimal digit that stands for a number below ten.
pub open spec fn digit(value: nat) -> char
    recommends
        value < 10,
{
    (48 + value) as u8 as char
}

/// A number in decimal notation, without leading zeros.
pub open spec fn decimal(value: nat) -> Seq<char>
    decreases value,
{
    if value < 10 {
        seq![digit(value)]
    } else {
        decimal(value / 10).push(digit(value % 10))
    }
}

/// Appends the decimal notation of `value` to the text.
pub fn append_decimal(text: &mut String, value: u8)
    ensures
        final(text)@ == old(text)@ + decimal(value as nat),
{
    let ghost start = text@;
    if value >= 100 {
        append_digit(text, value / 100);
    }
    if value >= 10 {
        append_digit(text, (value / 10) % 10);
    }
    append_digit(text, value % 10);
    proof {
        let n = value as nat;
        reveal_with_fuel(decimal, 3);
        if n >= 100 {
            assert(n / 10 / 10 == n / 100);
            assert(decimal(n) =~= seq![digit(n / 100), digit((n / 10) % 10), digit(n % 10)]);
        } else if n >= 10 {
            assert(decimal(n) =~= seq![digit(n / 10), digit(n % 10)]);
            assert((n / 10) % 10 == n / 10);
        }
        assert(text@ =~= start + decimal(n));
    }
}

/// Appends one decimal digit to the text.
fn append_digit(text: &mut String, value: u8)
    requires
        value < 10,
    ensures
        final(text)@ == old(text)@ + seq![digit(value as nat)],
{
    let digits = "0123456789";
    proof {
        reveal_strlit("0123456789");
        assert(digits@ =~= seq!['0', '1', '2', '3', '4', '5', '6', '7', '8', '9']);
        assert(digits.is_ascii()) by {
            assert forall|i: int| 0 <= i < digits@.len() implies (digits@[i] as u32) < 128 by {}
        }
    }
    let one = digits.substring_ascii(value as usize, value as usize + 1);
    proof {
        assert(one@ =~= seq![digits@[value as int]]);
        assert(digits@[value as int] == digit(value as nat));
    }
    text.append(one);
}

} // verus!
