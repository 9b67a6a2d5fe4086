//! Text that the library writes: decimal numbers, and byte strings shown
//! as text the way `bstr` shows them.

use vstd::prelude::*;

verus! {

/// The character of a decimal digit.
pub open spec fn digit_char(d: int) -> char {
    if d == 0 {
        '0'
    } else if d == 1 {
        '1'
    } else if d == 2 {
        '2'
    } else if d == 3 {
        '3'
    } else if d == 4 {
        '4'
    } else if d == 5 {
        '5'
    } else if d == 6 {
        '6'
    } else if d == 7 {
        '7'
    } else if d == 8 {
        '8'
    } else {
        '9'
    }
}

/// The decimal digits of a natural number, most significant first, with no
/// leading zero (zero itself is `0`).
pub open spec fn decimal_digits(n: nat) -> Seq<char>
    decreases n,
{
    if n < 10 {
        seq![digit_char(n as int)]
    } else {
        decimal_digits(n / 10).push(digit_char((n % 10) as int))
    }
}

/// An integer in decimal, with a leading `-` when it is negative: the text
/// that Rust's `Display` gives for an integer.
pub open spec fn decimal_text(v: int) -> Seq<char> {
    if v < 0 {
        seq!['-'] + decimal_digits((-v) as nat)
    } else {
        decimal_digits(v as nat)
    }
}

/// Law: the digit characters are `0` to `9` in order, and the decimal text
/// of a number of two or more digits is the text of its tenth (rounded
/// down) followed by its last digit; a negative number is `-` and the text
/// of its magnitude.
pub proof fn lemma_decimal_text(d: int, n: nat, v: int)
    ensures
        0 <= d <= 9 ==> digit_char(d) as u32 == 48 + d,
        n < 10 ==> decimal_digits(n) == seq![digit_char(n as int)],
        n >= 10 ==> decimal_digits(n) == decimal_digits(n / 10) + seq![digit_char((n % 10) as int)],
        v < 0 ==> decimal_text(v) == seq!['-'] + decimal_digits((-v) as nat),
        v >= 0 ==> decimal_text(v) == decimal_digits(v as nat),
{
    if n >= 10 {
        assert(decimal_digits(n) =~= decimal_digits(n / 10) + seq![digit_char((n % 10) as int)]);
    }
}

/// The one-character string of a decimal digit.
fn digit_str(d: u64) -> (r: &'static str)
    requires
        d < 10,
    ensures
        r@ == seq![digit_char(d as int)],
{
    if d == 0 {
        proof { reveal_strlit("0"); }
        "0"
    } else if d == 1 {
        proof { reveal_strlit("1"); }
        "1"
    } else if d == 2 {
        proof { reveal_strlit("2"); }
        "2"
    } else if d == 3 {
        proof { reveal_strlit("3"); }
        "3"
    } else if d == 4 {
        proof { reveal_strlit("4"); }
        "4"
    } else if d == 5 {
        proof { reveal_strlit("5"); }
        "5"
    } else if d == 6 {
        proof { reveal_strlit("6"); }
        "6"
    } else if d == 7 {
        proof { reveal_strlit("7"); }
        "7"
    } else if d == 8 {
        proof { reveal_strlit("8"); }
        "8"
    } else {
        proof { reveal_strlit("9"); }
        "9"
    }
}

/// Appends the decimal digits of `n`.
fn push_digits(s: &mut String, n: u64)
    ensures
        final(s)@ == old(s)@ + decimal_digits(n as nat),
    decreases n,
{
    if n >= 10 {
        push_digits(s, n / 10);
    }
    s.append(digit_str(n % 10));
    proof {
        if n >= 10 {
            assert(decimal_digits(n as nat) == decimal_digits((n / 10) as nat).push(
                digit_char((n % 10) as int),
            ));
        }
    }
}

/// Appends a C `int` in decimal, as `Display` writes it.
pub fn push_decimal(s: &mut String, v: i32)
    ensures
        final(s)@ == old(s)@ + decimal_text(v as int),
{
    if v < 0 {
        proof { reveal_strlit("-"); }
        s.append("-");
        let wide: i64 = v as i64;
        let magnitude: u64 = (-wide) as u64;
        push_digits(s, magnitude);
    } else {
        push_digits(s, v as u64);
    }
}

/// The text of an integer in decimal.
pub fn decimal_string(v: i32) -> (r: String)
    ensures
        r@ == decimal_text(v as int),
{
    let mut s = String::new();
    push_decimal(&mut s, v);
    s
}

/// The bytes are all ASCII.
pub open spec fn is_ascii_bytes(bytes: Seq<u8>) -> bool {
    forall|i: int| 0 <= i < bytes.len() ==> #[trigger] bytes[i] < 128
}

/// ASCII bytes read as characters.
pub open spec fn ascii_chars(bytes: Seq<u8>) -> Seq<char> {
    bytes.map_values(|b: u8| b as char)
}

/// What `bstr` shows for a byte string: its UTF-8 text, each invalid
/// stretch replaced by U+FFFD.
pub uninterp spec fn bstr_lossy_text(bytes: Seq<u8>) -> Seq<char>;

/// Shows a byte string as text through `bstr::BStr`'s `Display`.
///
/// Trusted: the result is `bstr_lossy_text` of the bytes, and for ASCII
/// bytes (valid UTF-8, one character each) it is those bytes as characters;
/// what the lossy decoding gives for other bytes is not stated.
#[verifier::external_body]
fn bstr_text(bytes: &[u8]) -> (r: String)
    ensures
        r@ == bstr_lossy_text(bytes@),
        is_ascii_bytes(bytes@) ==> r@ == ascii_chars(bytes@),
{
    format!("{}", bstr::BStr::new(bytes))
}

/// Appends a byte string as `bstr` shows it.
pub fn push_bytes_text(s: &mut String, bytes: &[u8])
    ensures
        final(s)@ == old(s)@ + bstr_lossy_text(bytes@),
        is_ascii_bytes(bytes@) ==> final(s)@ == old(s)@ + ascii_chars(bytes@),
{
    let t = bstr_text(bytes);
    s.append(t.as_str());
}

} // verus!
