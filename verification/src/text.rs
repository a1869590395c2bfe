//! Rendering of numbers as text.

use vstd::prelude::*;
use vstd::string::*;

verus! {

/// The digit `d` (below 16) in lower-case hexadecimal.
pub open spec fn digit_text(d: int) -> Seq<char> {
    if d == 0 {
        "0"@
    } else if d == 1 {
        "1"@
    } else if d == 2 {
        "2"@
    } else if d == 3 {
        "3"@
    } else if d == 4 {
        "4"@
    } else if d == 5 {
        "5"@
    } else if d == 6 {
        "6"@
    } else if d == 7 {
        "7"@
    } else if d == 8 {
        "8"@
    } else if d == 9 {
        "9"@
    } else if d == 10 {
        "a"@
    } else if d == 11 {
        "b"@
    } else if d == 12 {
        "c"@
    } else if d == 13 {
        "d"@
    } else if d == 14 {
        "e"@
    } else {
        "f"@
    }
}

/// `n` in decimal, without leading zeros.
pub open spec fn decimal_text(n: nat) -> Seq<char>
    decreases n,
{
    if n < 10 {
        digit_text(n as int)
    } else {
        decimal_text(n / 10) + digit_text((n % 10) as int)
    }
}

/// `v` in decimal, with a minus sign when negative.
pub open spec fn signed_text(v: int) -> Seq<char> {
    if v < 0 {
        "-"@ + decimal_text((-v) as nat)
    } else {
        decimal_text(v as nat)
    }
}

/// `n` in hexadecimal with at least `width` digits, padded with zeros.
pub open spec fn hex_text(n: nat, width: nat) -> Seq<char>
    decreases n, width,
{
    if n < 16 && width <= 1 {
        digit_text(n as int)
    } else {
        hex_text(n / 16, if width > 0 { (width - 1) as nat } else { 0 }) + digit_text((n % 16) as int)
    }
}

/// An address as it is shown to the user: `0x` and at least eight digits.
pub open spec fn addr_text(n: nat) -> Seq<char> {
    "0x"@ + hex_text(n, 8)
}

/// `count` spaces.
pub open spec fn spaces(count: nat) -> Seq<char>
    decreases count,
{
    if count == 0 {
        Seq::empty()
    } else {
        spaces((count - 1) as nat) + " "@
    }
}

/// `body` moved to the right edge of a field of `width` characters.
pub open spec fn right_aligned(body: Seq<char>, width: nat) -> Seq<char> {
    if body.len() >= width {
        body
    } else {
        spaces((width - body.len()) as nat) + body
    }
}

pub fn digit_str(d: u64) -> (s: &'static str)
    requires
        d < 16,
    ensures
        s@ == digit_text(d as int),
{
    if d == 0 {
        "0"
    } else if d == 1 {
        "1"
    } else if d == 2 {
        "2"
    } else if d == 3 {
        "3"
    } else if d == 4 {
        "4"
    } else if d == 5 {
        "5"
    } else if d == 6 {
        "6"
    } else if d == 7 {
        "7"
    } else if d == 8 {
        "8"
    } else if d == 9 {
        "9"
    } else if d == 10 {
        "a"
    } else if d == 11 {
        "b"
    } else if d == 12 {
        "c"
    } else if d == 13 {
        "d"
    } else if d == 14 {
        "e"
    } else {
        "f"
    }
}

/// Appends `n` in decimal.
pub fn push_decimal(s: &mut String, n: u64)
    ensures
        final(s)@ == old(s)@ + decimal_text(n as nat),
    decreases n,
{
    if n >= 10 {
        push_decimal(s, n / 10);
    }
    s.append(digit_str(n % 10));
}

/// Appends `v` in decimal, with a minus sign when negative.
pub fn push_signed(s: &mut String, v: i64)
    ensures
        final(s)@ == old(s)@ + signed_text(v as int),
{
    if v < 0 {
        s.append("-");
        let magnitude: u64 = if v == i64::MIN {
            0x8000_0000_0000_0000
        } else {
            (-v) as u64
        };
        push_decimal(s, magnitude);
    } else {
        push_decimal(s, v as u64);
    }
}

/// Appends `n` in hexadecimal with at least `width` digits.
pub fn push_hex(s: &mut String, n: u64, width: u32)
    ensures
        final(s)@ == old(s)@ + hex_text(n as nat, width as nat),
    decreases n, width,
{
    if !(n < 16 && width <= 1) {
        push_hex(s, n / 16, if width > 0 { width - 1 } else { 0 });
    }
    s.append(digit_str(n % 16));
}

/// Appends `n` as an address: `0x` and at least eight hexadecimal digits.
pub fn push_addr(s: &mut String, n: u64)
    ensures
        final(s)@ == old(s)@ + addr_text(n as nat),
{
    s.append("0x");
    push_hex(s, n, 8);
}

/// Appends `count` spaces.
pub fn push_spaces(s: &mut String, count: usize)
    ensures
        final(s)@ == old(s)@ + spaces(count as nat),
    decreases count,
{
    if count > 0 {
        push_spaces(s, count - 1);
        s.append(" ");
    }
}

/// Appends `body`, moved to the right edge of a field of `width` characters.
pub fn push_right_aligned(s: &mut String, body: &str, width: usize)
    ensures
        final(s)@ == old(s)@ + right_aligned(body@, width as nat),
{
    let len = body.unicode_len();
    if len < width {
        push_spaces(s, width - len);
    }
    s.append(body);
}

/// `count` zeros.
pub open spec fn zeros(count: nat) -> Seq<char>
    decreases count,
{
    if count == 0 {
        Seq::empty()
    } else {
        zeros((count - 1) as nat) + "0"@
    }
}

/// `body` behind as many zeros as fill a field of `width` characters.
pub open spec fn right_aligned_zero(body: Seq<char>, width: nat) -> Seq<char> {
    if body.len() >= width {
        body
    } else {
        zeros((width - body.len()) as nat) + body
    }
}

/// Appends `count` zeros.
pub fn push_zeros(s: &mut String, count: usize)
    ensures
        final(s)@ == old(s)@ + zeros(count as nat),
    decreases count,
{
    if count > 0 {
        push_zeros(s, count - 1);
        s.append("0");
    }
}

/// Appends `body` behind as many zeros as fill a field of `width` characters.
pub fn push_right_aligned_zero(s: &mut String, body: &str, width: usize)
    ensures
        final(s)@ == old(s)@ + right_aligned_zero(body@, width as nat),
{
    let len = body.unicode_len();
    if len < width {
        push_zeros(s, width - len);
    }
    s.append(body);
}

/// The first `upto` of `items` set in lines of `chunk` items each: a line
/// starts with two spaces, its items are parted by a comma and a space, and
/// it ends with `line_end` and a line feed.
pub open spec fn chunked_text(
    items: Seq<Seq<char>>,
    chunk: nat,
    line_end: Seq<char>,
    upto: nat,
) -> Seq<char>
    decreases upto,
{
    if upto == 0 {
        Seq::empty()
    } else {
        let i = (upto - 1) as nat;
        let lead = if i % chunk == 0 {
            "  "@
        } else {
            ", "@
        };
        let tail = if (i + 1) % chunk == 0 || i + 1 == items.len() {
            line_end + "\n"@
        } else {
            Seq::empty()
        };
        chunked_text(items, chunk, line_end, i) + lead + items[i as int] + tail
    }
}

/// The texts of `items`.
pub open spec fn texts(items: Seq<String>) -> Seq<Seq<char>> {
    Seq::new(items.len(), |i: int| items[i]@)
}

/// Appends `items` set in lines of `chunk` items each; see `chunked_text`.
pub fn push_chunked(s: &mut String, items: &Vec<String>, chunk: usize, line_end: &str)
    requires
        chunk > 0,
    ensures
        final(s)@ == old(s)@ + chunked_text(
            texts(items@),
            chunk as nat,
            line_end@,
            items@.len() as nat,
        ),
{
    let n = items.len();
    let mut i: usize = 0;
    while i < n
        invariant
            i <= n,
            n == items@.len(),
            chunk > 0,
            s@ == old(s)@ + chunked_text(texts(items@), chunk as nat, line_end@, i as nat),
        decreases n - i,
    {
        if i % chunk == 0 {
            s.append("  ");
        } else {
            s.append(", ");
        }
        s.append(items[i].as_str());
        if (i + 1) % chunk == 0 || i + 1 == n {
            s.append(line_end);
            s.append("\n");
        }
        assert(texts(items@)[i as int] == items@[i as int]@);
        assert(s@ =~= old(s)@ + chunked_text(texts(items@), chunk as nat, line_end@, (i + 1) as nat));
        i = i + 1;
    }
}

/// `n` in decimal at the right edge of a field of `width` characters.
pub open spec fn decimal_field(n: nat, width: nat) -> Seq<char> {
    right_aligned(decimal_text(n), width)
}

/// Appends `n` in decimal at the right edge of a field of `width` characters.
pub fn push_decimal_field(s: &mut String, n: u64, width: usize)
    ensures
        final(s)@ == old(s)@ + decimal_field(n as nat, width as nat),
{
    let mut digits = String::new();
    push_decimal(&mut digits, n);
    assert(digits@ =~= decimal_text(n as nat));
    push_right_aligned(s, digits.as_str(), width);
}

/// The texts of a row of items with one more item are the texts of the row
/// with the text of the item.
pub proof fn lemma_texts_push(items: Seq<String>, item: String)
    ensures
        texts(items.push(item)) == texts(items).push(item@),
{
    assert(texts(items.push(item)) =~= texts(items).push(item@));
}

/// There is a text for each item.
pub proof fn lemma_texts_len(items: Seq<String>)
    ensures
        texts(items).len() == items.len(),
{
}

} // verus!
