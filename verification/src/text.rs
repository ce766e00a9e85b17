//! Texts as sequences of characters.

use vstd::prelude::*;
use vstd::std_specs::iter::IteratorSpec;

verus! {

/// The characters of `text`, in order.
pub fn chars_of(text: &str) -> (chars: Vec<char>)
    ensures
        chars@ == text@,
{
    broadcast use vstd::string::group_string_axioms;

    let mut chars: Vec<char> = Vec::new();
    for c in it: text.chars()
        invariant
            it.seq() == text@,
            chars@ == it.seq().take(it.index()),
    {
        chars.push(c);
        assert(it.seq().take(it.index() + 1) =~= it.seq().take(it.index()).push(c));
    }
    assert(text@.take(text@.len() as int) =~= text@);
    chars
}

/// The text that the characters of `chars` from `from` up to `to` spell.
pub(crate) fn text_between(chars: &Vec<char>, from: usize, to: usize) -> (text: String)
    requires
        from <= to <= chars.len(),
    ensures
        text@ == chars@.subrange(from as int, to as int),
{
    let mut part: Vec<char> = Vec::new();
    let mut i: usize = from;
    while i < to
        invariant
            from <= i <= to <= chars.len(),
            part@ == chars@.subrange(from as int, i as int),
        decreases to - i,
    {
        part.push(chars[i]);
        assert(chars@.subrange(from as int, i + 1) =~= chars@.subrange(from as int, i as int).push(
            chars@[i as int],
        ));
        i += 1;
    }
    string_of(&part)
}

/// `first` with `second` behind it.
pub fn joined(first: &str, second: &str) -> (text: String)
    ensures
        text@ == first@ + second@,
{
    first.to_owned().concat(second)
}

/// `String::from_iter` over characters: the text that `chars` spell.
#[verifier::external_body]
pub(crate) fn string_of(chars: &Vec<char>) -> (text: String)
    ensures
        text@ == chars@,
{
    String::from_iter(chars)
}

/// `String::from_utf8`: the text that `bytes` encode, or `None` where they are
/// not UTF-8.
#[verifier::external_body]
pub(crate) fn string_from_utf8(bytes: Vec<u8>) -> (text: Option<String>)
    ensures
        text is Some == vstd::utf8::valid_utf8(bytes@),
        text matches Some(text) ==> text@ == vstd::utf8::decode_utf8(bytes@),
{
    String::from_utf8(bytes).ok()
}

/// The lowercase form of a text, as `str::to_lowercase` gives it.
pub uninterp spec fn lowercase(text: Seq<char>) -> Seq<char>;

/// `str::to_lowercase`: the lowercase equivalent of `text`, by the Unicode
/// rules for lowercase.
#[verifier::external_body]
pub(crate) fn to_lowercase(text: &str) -> (res: String)
    ensures
        res@ == lowercase(text@),
{
    text.to_lowercase()
}

/// The character of the digit `d`.
pub open spec fn digit(d: nat) -> char
    recommends
        d < 10,
{
    (48 + d) as u8 as char
}

/// The decimal numeral of `n`, without leading zeros.
pub open spec fn decimal(n: nat) -> Seq<char>
    decreases n,
{
    if n < 10 {
        seq![digit(n)]
    } else {
        decimal(n / 10).push(digit(n % 10))
    }
}

/// Writes `n` as a decimal numeral.
pub fn to_decimal(n: u32) -> (text: String)
    ensures
        text@ == decimal(n as nat),
{
    let mut reversed: Vec<char> = Vec::new();
    let mut rest: u32 = n;
    while rest >= 10
        invariant
            decimal(n as nat) == decimal(rest as nat) + reversed@.reverse(),
        decreases rest,
    {
        let last = ((48 + rest % 10) as u8) as char;
        proof {
            assert(last == digit((rest % 10) as nat));
            assert(decimal(rest as nat) == decimal((rest / 10) as nat).push(last));
            assert(reversed@.push(last).reverse() =~= seq![last] + reversed@.reverse());
            assert(decimal((rest / 10) as nat).push(last) + reversed@.reverse() =~= decimal(
                (rest / 10) as nat,
            ) + (seq![last] + reversed@.reverse()));
        }
        reversed.push(last);
        rest = rest / 10;
    }
    let first = ((48 + rest) as u8) as char;
    let mut digits: Vec<char> = Vec::new();
    digits.push(first);
    let mut i: usize = reversed.len();
    while i > 0
        invariant
            i <= reversed.len(),
            digits@ == seq![first] + reversed@.reverse().take(reversed.len() - i),
        decreases i,
    {
        i -= 1;
        digits.push(reversed[i]);
        assert(reversed@.reverse().take(reversed.len() - i) =~= reversed@.reverse().take(
            reversed.len() - i - 1,
        ).push(reversed@[i as int]));
        assert(digits@ =~= seq![first] + reversed@.reverse().take(reversed.len() - i));
    }
    assert(reversed@.reverse().take(reversed.len() as int) =~= reversed@.reverse());
    assert(decimal(rest as nat) == seq![first]);
    string_of(&digits)
}

/// The decimal numeral of `n`, with a minus sign where it is negative.
pub open spec fn signed_decimal(n: int) -> Seq<char> {
    if n < 0 {
        seq!['-'] + decimal((-n) as nat)
    } else {
        decimal(n as nat)
    }
}

/// Writes `n` as a decimal numeral, with a minus sign where it is negative.
pub fn to_signed_decimal(n: i32) -> (text: String)
    ensures
        text@ == signed_decimal(n as int),
{
    if n >= 0 {
        to_decimal(n as u32)
    } else {
        let magnitude: u32 = (-(n + 1)) as u32 + 1;
        let mut sign: Vec<char> = Vec::new();
        sign.push('-');
        let text = string_of(&sign).concat(to_decimal(magnitude).as_str());
        assert(text@ == seq!['-'] + decimal((-n) as nat));
        text
    }
}

} // verus!
