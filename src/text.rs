//! Character-sequence models shared by the renderers, and the std calls
//! they rest on.

use vstd::prelude::*;

verus! {

/// The ASCII digit for a value below ten.
pub open spec fn digit_char(d: nat) -> char {
    if d == 0 { '0' }
    else if d == 1 { '1' }
    else if d == 2 { '2' }
    else if d == 3 { '3' }
    else if d == 4 { '4' }
    else if d == 5 { '5' }
    else if d == 6 { '6' }
    else if d == 7 { '7' }
    else if d == 8 { '8' }
    else { '9' }
}

/// Base-ten digits of a natural number, most significant first, no leading zeros.
pub open spec fn digits_of(n: nat) -> Seq<char>
    decreases n,
{
    if n < 10 {
        seq![digit_char(n)]
    } else {
        digits_of(n / 10).push(digit_char(n % 10))
    }
}

/// Decimal text of an integer: a leading `-` for negative values.
pub open spec fn decimal_text(v: int) -> Seq<char> {
    if v < 0 {
        seq!['-'] + digits_of((-v) as nat)
    } else {
        digits_of(v as nat)
    }
}

/// `count` copies of `c`.
pub open spec fn repeated(c: char, count: nat) -> Seq<char> {
    Seq::new(count, |_i: int| c)
}

/// Relies on `<i64 as ToString>::to_string`, which writes the value in base
/// ten with a leading `-` when negative.
#[verifier::external_body]
pub(crate) fn int_text(v: i64) -> (r: String)
    ensures
        r@ == decimal_text(v as int),
{
    v.to_string()
}

/// Relies on `String::push`, which appends one character.
#[verifier::external_body]
pub(crate) fn push_char(s: &mut String, c: char)
    ensures
        final(s)@ == old(s)@.push(c),
{
    s.push(c)
}

/// `text` right-aligned in a field of `width` characters, padded on the left
/// with `fill`; text at least as long as the field is left as it is.
pub open spec fn right_aligned(text: Seq<char>, width: nat, fill: char) -> Seq<char> {
    if text.len() < width {
        repeated(fill, (width - text.len()) as nat) + text
    } else {
        text
    }
}

/// Right-aligns `text` in a field of `width` characters, filling with `fill`.
pub fn align_right(text: &str, width: usize, fill: char) -> (r: String)
    ensures
        r@ == right_aligned(text@, width as nat, fill),
{
    let len = text.unicode_len();
    let mut out = String::new();
    if len < width {
        let pad: usize = width - len;
        let mut i: usize = 0;
        while i < pad
            invariant
                i <= pad,
                out@ == repeated(fill, i as nat),
            decreases pad - i,
        {
            push_char(&mut out, fill);
            i = i + 1;
            assert(out@ =~= repeated(fill, i as nat));
        }
    }
    out.append(text);
    assert(out@ =~= right_aligned(text@, width as nat, fill));
    out
}

} // verus!
