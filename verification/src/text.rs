//! Text as the amplifier sends it and as the user interface shows it: UTF-8 bytes, trimmed
//! text, and the decimal digits of a byte.

use vstd::prelude::*;
use vstd::string::StrSliceExecFns;

verus! {

/// The characters with the Unicode White_Space property, those that `char::is_whitespace`
/// accepts and `str::trim` removes.
pub open spec fn is_white_space(c: char) -> bool {
    let n = c as u32;
    ||| 0x09 <= n <= 0x0d
    ||| n == 0x20
    ||| n == 0x85
    ||| n == 0xa0
    ||| n == 0x1680
    ||| 0x2000 <= n <= 0x200a
    ||| n == 0x2028
    ||| n == 0x2029
    ||| n == 0x202f
    ||| n == 0x205f
    ||| n == 0x3000
}

/// The number of white space characters that a text starts with.
pub open spec fn leading_white_space(text: Seq<char>) -> nat
    decreases text.len(),
{
    if text.len() > 0 && is_white_space(text[0]) {
        1 + leading_white_space(text.drop_first())
    } else {
        0
    }
}

/// The number of white space characters that a text ends with.
pub open spec fn trailing_white_space(text: Seq<char>) -> nat
    decreases text.len(),
{
    if text.len() > 0 && is_white_space(text.last()) {
        1 + trailing_white_space(text.drop_last())
    } else {
        0
    }
}

/// A text without its leading and trailing white space, as `str::trim` gives it.
pub open spec fn trimmed(text: Seq<char>) -> Seq<char> {
    if leading_white_space(text) == text.len() {
        Seq::empty()
    } else {
        text.subrange(
            leading_white_space(text) as int,
            text.len() - trailing_white_space(text),
        )
    }
}

/// A text that starts with `k` white space characters followed by the end or by another
/// character starts with `k` of them.
proof fn lemma_leading_white_space(text: Seq<char>, k: int)
    requires
        0 <= k <= text.len(),
        forall|j: int| 0 <= j < k ==> is_white_space(#[trigger] text[j]),
        k == text.len() || !is_white_space(text[k]),
    ensures
        leading_white_space(text) == k,
    decreases k,
{
    if k > 0 {
        assert forall|j: int| 0 <= j < k - 1 implies is_white_space(#[trigger] text.drop_first()[j]) by {
            assert(text.drop_first()[j] == text[j + 1]);
        }
        lemma_leading_white_space(text.drop_first(), k - 1);
    }
}

/// A text that ends with `k` white space characters preceded by the start or by another
/// character ends with `k` of them.
proof fn lemma_trailing_white_space(text: Seq<char>, k: int)
    requires
        0 <= k <= text.len(),
        forall|j: int| text.len() - k <= j < text.len() ==> is_white_space(#[trigger] text[j]),
        k == text.len() || !is_white_space(text[text.len() - k - 1]),
    ensures
        trailing_white_space(text) == k,
    decreases k,
{
    if k > 0 {
        let shorter = text.drop_last();
        assert forall|j: int| shorter.len() - (k - 1) <= j < shorter.len() implies is_white_space(
            #[trigger] shorter[j],
        ) by {
            assert(shorter[j] == text[j]);
        }
        lemma_trailing_white_space(shorter, k - 1);
    }
}

/// Whether a character has the Unicode White_Space property.
fn white_space(c: char) -> (r: bool)
    ensures
        r == is_white_space(c),
{
    let n = c as u32;
    (0x09 <= n && n <= 0x0d) || n == 0x20 || n == 0x85 || n == 0xa0 || n == 0x1680 || (0x2000 <= n
        && n <= 0x200a) || n == 0x2028 || n == 0x2029 || n == 0x202f || n == 0x205f || n == 0x3000
}

/// The text without its leading and trailing white space.
pub fn trim(text: &str) -> (r: &str)
    ensures
        r@ == trimmed(text@),
{
    let n = text.unicode_len();
    let mut start: usize = 0;
    while start < n && white_space(text.get_char(start))
        invariant
            n == text@.len(),
            start <= n,
            forall|j: int| 0 <= j < start ==> is_white_space(#[trigger] text@[j]),
        decreases n - start,
    {
        start = start + 1;
    }
    proof {
        lemma_leading_white_space(text@, start as int);
    }
    if start == n {
        let r = text.substring_char(n, n);
        assert(r@ =~= Seq::<char>::empty());
        return r;
    }
    let mut end: usize = n;
    while end > start + 1 && white_space(text.get_char(end - 1))
        invariant
            n == text@.len(),
            start < end <= n,
            forall|j: int| end <= j < n ==> is_white_space(#[trigger] text@[j]),
        decreases end,
    {
        end = end - 1;
    }
    proof {
        lemma_trailing_white_space(text@, (n - end) as int);
    }
    text.substring_char(start, end)
}

/// `String::from_utf8`: a string exactly when the bytes are valid UTF-8, holding the characters
/// that they encode.
#[verifier::external_body]
pub(crate) fn utf8_string(bytes: &[u8]) -> (r: Option<String>)
    ensures
        r is Some <==> vstd::utf8::valid_utf8(bytes@),
        r matches Some(s) ==> s@ == vstd::utf8::decode_utf8(bytes@),
{
    String::from_utf8(bytes.to_vec()).ok()
}

/// The text that bytes of text from the amplifier stand for, trimmed of white space; empty
/// where the bytes are not valid UTF-8.
pub open spec fn display_text(bytes: Seq<u8>) -> Seq<char> {
    if vstd::utf8::valid_utf8(bytes) {
        trimmed(vstd::utf8::decode_utf8(bytes))
    } else {
        Seq::empty()
    }
}

/// The text that bytes of text from the amplifier stand for, trimmed of white space; empty
/// where the bytes are not valid UTF-8.
pub fn text_for_display(bytes: &[u8]) -> (r: String)
    ensures
        r@ == display_text(bytes@),
{
    match utf8_string(bytes) {
        Some(s) => trim(s.as_str()).to_owned(),
        None => String::new(),
    }
}

/// The character of a decimal digit.
pub open spec fn digit_char(d: int) -> char {
    if d == 0 {
        '0'
    } else if d == 1 {
        '1'
    } else if d == 2 {
        '2'
    } else if d == 3 {
        '3'
    } else if d == 4 {
        '4'
    } else if d == 5 {
        '5'
    } else if d == 6 {
        '6'
    } else if d == 7 {
        '7'
    } else if d == 8 {
        '8'
    } else {
        '9'
    }
}

/// The decimal digits of a number, with no leading zeros.
pub open spec fn decimal(n: nat) -> Seq<char>
    decreases n,
{
    if n < 10 {
        seq![digit_char(n as int)]
    } else {
        decimal(n / 10) + seq![digit_char((n % 10) as int)]
    }
}

/// The text of a decimal digit.
fn digit_str(d: u8) -> (r: &'static str)
    requires
        d < 10,
    ensures
        r@ == seq![digit_char(d as int)],
{
    proof {
        reveal_strlit("0");
        reveal_strlit("1");
        reveal_strlit("2");
        reveal_strlit("3");
        reveal_strlit("4");
        reveal_strlit("5");
        reveal_strlit("6");
        reveal_strlit("7");
        reveal_strlit("8");
        reveal_strlit("9");
    }
    let r = if d == 0 {
        "0"
    } else if d == 1 {
        "1"
    } else if d == 2 {
        "2"
    } else if d == 3 {
        "3"
    } else if d == 4 {
        "4"
    } else if d == 5 {
        "5"
    } else if d == 6 {
        "6"
    } else if d == 7 {
        "7"
    } else if d == 8 {
        "8"
    } else {
        "9"
    };
    assert(r@ =~= seq![digit_char(d as int)]);
    r
}

/// The decimal digits of a byte, with no leading zeros, as `u8::to_string` writes them.
pub fn decimal_string(n: u8) -> (r: String)
    ensures
        r@ == decimal(n as nat),
{
    proof {
        reveal_with_fuel(decimal, 3);
    }
    let mut s = String::new();
    if n >= 100 {
        s.append(digit_str(n / 100));
    }
    if n >= 10 {
        s.append(digit_str((n / 10) % 10));
    }
    s.append(digit_str(n % 10));
    assert(s@ =~= decimal(n as nat));
    s
}

} // verus!
