//! Left-padding of a string to a width in bytes.
use vstd::arithmetic::div_mod::lemma_fundamental_div_mod_converse;
use vstd::prelude::*;
use vstd::string::*;
use vstd::utf8::{encode_scalar, encode_utf8};

verus! {

/// The number of bytes a character takes in UTF-8.
pub open spec fn utf8_width(c: char) -> nat {
    encode_scalar(c as u32).len()
}

/// The number of bytes a text takes in UTF-8: what `len` reports of a string.
pub open spec fn utf8_len(text: Seq<char>) -> nat {
    encode_utf8(text).len()
}

/// The character `c`, `count` times.
pub open spec fn repeated(c: char, count: nat) -> Seq<char> {
    Seq::new(count, |i: int| c)
}

/// How many pad characters of `unit` bytes a text of `len` bytes needs to reach
/// `width` bytes: none if it is wide enough, else the fewest that reach or pass
/// the width.
pub open spec fn pad_count(len: nat, width: nat, unit: nat) -> nat {
    if len >= width || unit == 0 {
        0
    } else {
        ((width - len + unit - 1) / (unit as int)) as nat
    }
}

/// The text with as many copies of `pad_char` in front of it as it needs to
/// reach `width` bytes.
pub open spec fn padded_text(text: Seq<char>, width: nat, pad_char: char) -> Seq<char> {
    repeated(pad_char, pad_count(utf8_len(text), width, utf8_width(pad_char))) + text
}

/// A character takes between one and four bytes.
pub proof fn lemma_utf8_width_bounds(c: char)
    ensures
        1 <= utf8_width(c) <= 4,
{
}

/// A character put in front of a text adds its own width to the text's length.
pub proof fn lemma_utf8_len_prepend(c: char, text: Seq<char>)
    ensures
        utf8_len(seq![c] + text) == utf8_width(c) + utf8_len(text),
{
    let whole = seq![c] + text;
    assert(whole.drop_first() =~= text);
    assert(whole[0] == c);
}

/// The number of bytes in a string.
pub fn byte_len(s: &String) -> (len: usize)
    ensures
        len == utf8_len(s@),
{
    s.as_str().as_bytes().len()
}

/// Puts one character in front of a string, by `String::insert` at byte
/// position zero. Trusted: the string afterwards is the character followed by
/// what the string held before.
#[verifier::external_body]
pub(crate) fn prepend_char(s: &mut String, c: char)
    ensures
        final(s)@ == seq![c] + old(s)@,
{
    s.insert(0, c);
}

/// Padding a string on the left.
pub trait PadToWidth {
    /// A copy of the string with `pad_char` put in front of it until it is at
    /// least `width` bytes long.
    fn pad_to_width(&self, width: usize, pad_char: char) -> String;
}

impl PadToWidth for String {
    fn pad_to_width(&self, width: usize, pad_char: char) -> (padded: String)
        ensures
            padded@ == padded_text(self@, width as nat, pad_char),
    {
        let mut string = self.clone();
        let ghost mut count: nat = 0;
        let ghost unit = utf8_width(pad_char);
        proof {
            lemma_utf8_width_bounds(pad_char);
            assert(string@ =~= repeated(pad_char, 0) + self@);
        }
        while byte_len(&string) < width
            invariant
                1 <= unit <= 4,
                unit == utf8_width(pad_char),
                string@ == repeated(pad_char, count) + self@,
                utf8_len(string@) == utf8_len(self@) + count * unit,
                count > 0 ==> utf8_len(self@) + (count - 1) * unit < width,
            decreases width + 4 - utf8_len(string@),
        {
            let ghost before = string@;
            prepend_char(&mut string, pad_char);
            proof {
                lemma_utf8_len_prepend(pad_char, before);
                assert(string@ =~= repeated(pad_char, count + 1) + self@);
                assert((count + 1) * unit == count * unit + unit) by (nonlinear_arith);
                count = count + 1;
            }
        }
        proof {
            let len = utf8_len(self@);
            if count > 0 {
                let short = width - len;
                assert((count - 1) * unit == count * unit - unit) by (nonlinear_arith);
                lemma_fundamental_div_mod_converse(
                    short + unit - 1,
                    unit as int,
                    count as int,
                    short + unit - 1 - count * unit,
                );
            }
        }
        string
    }
}

} // verus!
