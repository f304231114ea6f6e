//! Reading numbers that the user typed and fitting text into columns.
use crate::io_utils::{DFT, RED};
use vstd::prelude::*;
use vstd::string::{StrSliceExecFns, StringExecFns};
use vstd::utf8::{
    decode_utf8, encode_scalar, encode_utf8, encode_utf8_decode_utf8, encode_utf8_valid_utf8,
    is_char_boundary, is_char_boundary_start_end_of_seq,
};

verus! {

/// Whether the character is a decimal digit.
pub open spec fn is_digit(c: char) -> bool {
    '0' <= c <= '9'
}

/// The number that a decimal digit stands for; 0 for any other character.
pub open spec fn digit_value(c: char) -> nat {
    if is_digit(c) {
        (c as u32 - '0' as u32) as nat
    } else {
        0
    }
}

/// Whether the text holds decimal digits only.
pub open spec fn all_digits(text: Seq<char>) -> bool {
    forall|i: int| 0 <= i < text.len() ==> is_digit(#[trigger] text[i])
}

/// The number that a text of decimal digits stands for.
pub open spec fn decimal_value(text: Seq<char>) -> nat
    decreases text.len(),
{
    if text.len() == 0 {
        0
    } else {
        decimal_value(text.drop_last()) * 10 + digit_value(text.last())
    }
}

/// The text without the plus sign that may stand before a number.
pub open spec fn unsigned(text: Seq<char>) -> Seq<char> {
    if text.len() > 0 && text[0] == '+' {
        text.skip(1)
    } else {
        text
    }
}

/// The id that a text stands for: decimal digits, at least one, that give a
/// number within `u32`, with or without a plus sign before them. Any other
/// text stands for none.
pub open spec fn id_of(text: Seq<char>) -> Option<u32> {
    let digits = unsigned(text);
    if digits.len() > 0 && all_digits(digits) && decimal_value(digits) <= u32::MAX {
        Some(decimal_value(digits) as u32)
    } else {
        None
    }
}

/// The value of a text is at least the value of each of its beginnings.
proof fn lemma_decimal_value_grows(text: Seq<char>, len: int)
    requires
        0 <= len <= text.len(),
    ensures
        decimal_value(text.take(len)) <= decimal_value(text),
    decreases text.len() - len,
{
    if len == text.len() {
        assert(text.take(len) =~= text);
    } else {
        lemma_decimal_value_grows(text, len + 1);
        assert(text.take(len + 1).drop_last() =~= text.take(len));
    }
}

/// Reads an id as the user typed it.
pub fn parse_id(input: &str) -> (id: Option<u32>)
    ensures
        id == id_of(input@),
{
    let len = input.unicode_len();
    let start: usize = if len > 0 && input.get_char(0) == '+' { 1 } else { 0 };
    if start == len {
        return None;
    }
    let ghost digits = unsigned(input@);
    let mut value: u64 = 0;
    let mut i: usize = start;
    proof {
        assert(digits.take(0) =~= Seq::<char>::empty());
    }
    while i < len
        invariant
            start <= i <= len,
            len == input@.len(),
            digits == input@.skip(start as int),
            digits == unsigned(input@),
            all_digits(digits.take(i - start)),
            value == decimal_value(digits.take(i - start)),
            value <= u32::MAX,
        decreases len - i,
    {
        let c = input.get_char(i);
        let ghost seen = digits.take(i - start);
        let ghost next = digits.take(i - start + 1);
        proof {
            assert(next.drop_last() =~= seen);
            assert(next.last() == c);
        }
        if c < '0' || c > '9' {
            proof {
                assert(!is_digit(digits[i - start]));
            }
            return None;
        }
        let digit: u64 = (c as u32 - '0' as u32) as u64;
        value = value * 10 + digit;
        if value > u32::MAX as u64 {
            proof {
                lemma_decimal_value_grows(digits, i - start + 1);
            }
            return None;
        }
        proof {
            assert forall|j: int| 0 <= j < next.len() implies is_digit(#[trigger] next[j]) by {
                if j < seen.len() {
                    assert(seen[j] == next[j]);
                }
            }
        }
        i += 1;
    }
    proof {
        assert(digits.take(i - start) =~= digits);
    }
    Some(value as u32)
}

/// A text of `count` times the same character.
pub open spec fn repeated(c: char, count: nat) -> Seq<char> {
    Seq::new(count, |i: int| c)
}

/// The last place at or before `index` where the bytes of a text can be cut
/// without cutting a character.
pub open spec fn cut_before(bytes: Seq<u8>, index: int) -> int
    decreases index,
{
    if index <= 0 || is_char_boundary(bytes, index) {
        index
    } else {
        cut_before(bytes, index - 1)
    }
}

/// The text of a column of the given width.
///
/// A column of up to three characters holds dots only. A text of exactly
/// `width` bytes stands as it is; a shorter one is filled up with spaces to
/// `width` characters. A longer one is cut after `width - 3` bytes, or before
/// the character that those bytes would cut, and filled up with dots to
/// `width` characters.
pub open spec fn column(text: Seq<char>, width: nat) -> Seq<char> {
    let bytes = encode_utf8(text);
    if width <= 3 {
        repeated('.', width)
    } else if width == bytes.len() {
        text
    } else if width > bytes.len() {
        text + repeated(' ', (width - text.len()) as nat)
    } else {
        let kept = decode_utf8(bytes.subrange(0, cut_before(bytes, width - 3)));
        kept + repeated('.', (width - kept.len()) as nat)
    }
}

/// A text has at most as many characters as its encoding has bytes.
pub proof fn lemma_chars_within_bytes(text: Seq<char>)
    ensures
        text.len() <= encode_utf8(text).len(),
    decreases text.len(),
{
    if text.len() > 0 {
        lemma_chars_within_bytes(text.drop_first());
        assert(encode_scalar(text[0] as u32).len() >= 1);
    }
}

/// Appends the one character of `piece` to the text `count` times.
pub fn fill(out: &mut String, piece: &str, count: usize)
    requires
        piece@.len() == 1,
    ensures
        final(out)@ == old(out)@ + repeated(piece@[0], count as nat),
{
    let mut i: usize = 0;
    proof {
        assert(out@ =~= out@ + repeated(piece@[0], 0));
    }
    while i < count
        invariant
            i <= count,
            piece@.len() == 1,
            out@ == old(out)@ + repeated(piece@[0], i as nat),
        decreases count - i,
    {
        out.append(piece);
        proof {
            assert(old(out)@ + repeated(piece@[0], i as nat) + piece@ =~= old(out)@ + repeated(
                piece@[0],
                (i + 1) as nat,
            ));
        }
        i += 1;
    }
}

/// Returns the text as it stands in a column of the given width.
pub fn get_column_string(text: &str, width: usize) -> (shown: String)
    ensures
        shown@ == column(text@, width as nat),
{
    let text_width = text.as_bytes().len();
    proof {
        reveal_strlit(".");
        reveal_strlit(" ");
        lemma_chars_within_bytes(text@);
    }
    if width <= 3 {
        let mut shown = String::new();
        fill(&mut shown, ".", width);
        proof {
            assert(Seq::<char>::empty() + repeated('.', width as nat) =~= repeated(
                '.',
                width as nat,
            ));
        }
        shown
    } else if width == text_width {
        text.to_owned()
    } else if width > text_width {
        let mut shown = text.to_owned();
        fill(&mut shown, " ", width - text.unicode_len());
        shown
    } else {
        let mut cut: usize = width - 3;
        while cut > 0 && !text.is_char_boundary(cut)
            invariant
                cut <= width - 3,
                cut_before(encode_utf8(text@), cut as int) == cut_before(
                    encode_utf8(text@),
                    width - 3,
                ),
            decreases cut,
        {
            cut -= 1;
        }
        proof {
            encode_utf8_valid_utf8(text@);
            is_char_boundary_start_end_of_seq(encode_utf8(text@));
        }
        let (kept, _) = text.split_at(cut);
        proof {
            encode_utf8_decode_utf8(kept@);
            lemma_chars_within_bytes(kept@);
        }
        let mut shown = kept.to_owned();
        fill(&mut shown, ".", width - kept.unicode_len());
        shown
    }
}

/// The number of characters that are missing for a text to be `width` wide.
pub open spec fn missing(text: Seq<char>, width: nat) -> nat {
    if text.len() < width {
        (width - text.len()) as nat
    } else {
        0
    }
}

/// The text at the left of a field of the given width, filled up with
/// spaces. A text that is wider than the field stands as it is.
pub open spec fn left_aligned(text: Seq<char>, width: nat) -> Seq<char> {
    text + repeated(' ', missing(text, width))
}

/// The text in the middle of a field of the given width. Of the characters
/// that fill the field up, the smaller half stands before the text. A text
/// that is wider than the field stands as it is.
pub open spec fn centered(text: Seq<char>, width: nat, filler: char) -> Seq<char> {
    let pad = missing(text, width);
    repeated(filler, pad / 2) + text + repeated(filler, (pad - pad / 2) as nat)
}

/// Returns the text at the left of a field of the given width.
pub fn align_left(text: &str, width: usize) -> (shown: String)
    ensures
        shown@ == left_aligned(text@, width as nat),
{
    let len = text.unicode_len();
    let mut shown = text.to_owned();
    proof {
        reveal_strlit(" ");
    }
    fill(&mut shown, " ", if len < width { width - len } else { 0 });
    shown
}

/// Returns the text in the middle of a field of the given width, with the
/// one character of `filler` around it.
pub fn center(text: &str, width: usize, filler: &str) -> (shown: String)
    requires
        filler@.len() == 1,
    ensures
        shown@ == centered(text@, width as nat, filler@[0]),
{
    let len = text.unicode_len();
    let pad: usize = if len < width { width - len } else { 0 };
    let mut shown = String::new();
    fill(&mut shown, filler, pad / 2);
    shown.append(text);
    fill(&mut shown, filler, pad - pad / 2);
    proof {
        assert(Seq::<char>::empty() + repeated(filler@[0], (pad / 2) as nat) =~= repeated(
            filler@[0],
            (pad / 2) as nat,
        ));
    }
    shown
}

/// The character that stands for a number below ten.
pub open spec fn digit_char(digit: nat) -> char {
    if digit == 0 {
        '0'
    } else if digit == 1 {
        '1'
    } else if digit == 2 {
        '2'
    } else if digit == 3 {
        '3'
    } else if digit == 4 {
        '4'
    } else if digit == 5 {
        '5'
    } else if digit == 6 {
        '6'
    } else if digit == 7 {
        '7'
    } else if digit == 8 {
        '8'
    } else {
        '9'
    }
}

/// The decimal digits of a number, without leading zeros.
pub open spec fn decimal_text(n: nat) -> Seq<char>
    decreases n,
{
    if n < 10 {
        seq![digit_char(n)]
    } else {
        decimal_text(n / 10).push(digit_char(n % 10))
    }
}

/// The digits of a number stand for that number.
pub proof fn lemma_decimal_text(n: nat)
    ensures
        all_digits(decimal_text(n)),
        decimal_text(n).len() > 0,
        decimal_value(decimal_text(n)) == n,
    decreases n,
{
    if n >= 10 {
        lemma_decimal_text(n / 10);
        let front = decimal_text(n / 10);
        assert(decimal_text(n).drop_last() =~= front);
        assert(decimal_text(n).last() == digit_char(n % 10));
        assert forall|i: int| 0 <= i < decimal_text(n).len() implies is_digit(
            #[trigger] decimal_text(n)[i],
        ) by {
            if i < front.len() {
                assert(decimal_text(n)[i] == front[i]);
            }
        }
    } else {
        assert(decimal_text(n).drop_last() =~= Seq::<char>::empty());
        assert(decimal_value(Seq::<char>::empty()) == 0);
    }
}

/// An id that a page shows, typed back as it is shown, is read as that id.
pub proof fn law_shown_id_reads_back(id: u32)
    ensures
        id_of(decimal_text(id as nat)) == Some(id),
{
    lemma_decimal_text(id as nat);
    assert(is_digit(decimal_text(id as nat)[0]));
}

/// Returns the text of a number below ten.
fn digit_text(digit: u32) -> (text: &'static str)
    requires
        digit < 10,
    ensures
        text@ == seq![digit_char(digit as nat)],
{
    proof {
        reveal_strlit("0");
        reveal_strlit("1");
        reveal_strlit("2");
        reveal_strlit("3");
        reveal_strlit("4");
        reveal_strlit("5");
        reveal_strlit("6");
        reveal_strlit("7");
        reveal_strlit("8");
        reveal_strlit("9");
    }
    let text = if digit == 0 {
        "0"
    } else if digit == 1 {
        "1"
    } else if digit == 2 {
        "2"
    } else if digit == 3 {
        "3"
    } else if digit == 4 {
        "4"
    } else if digit == 5 {
        "5"
    } else if digit == 6 {
        "6"
    } else if digit == 7 {
        "7"
    } else if digit == 8 {
        "8"
    } else {
        "9"
    };
    proof {
        assert(text@ =~= seq![digit_char(digit as nat)]);
    }
    text
}

/// Returns the decimal digits of an id.
pub fn decimal(n: u32) -> (text: String)
    ensures
        text@ == decimal_text(n as nat),
    decreases n,
{
    if n < 10 {
        digit_text(n).to_owned()
    } else {
        let mut text = decimal(n / 10);
        text.append(digit_text(n % 10));
        proof {
            assert(decimal_text((n / 10) as nat) + seq![digit_char((n % 10) as nat)]
                =~= decimal_text((n / 10) as nat).push(digit_char((n % 10) as nat)));
        }
        text
    }
}

/// What stands for one character of a line of keys: an opening bracket
/// switches to the colour of the keys behind it, a closing bracket switches
/// back before it, any other character stands for itself.
pub open spec fn highlighted_char(c: char) -> Seq<char> {
    if c == '[' {
        "["@ + RED@
    } else if c == ']' {
        DFT@ + "]"@
    } else {
        seq![c]
    }
}

/// A line of keys with what stands in brackets shown in colour.
pub open spec fn highlighted(text: Seq<char>) -> Seq<char>
    decreases text.len(),
{
    if text.len() == 0 {
        Seq::empty()
    } else {
        highlighted(text.drop_last()) + highlighted_char(text.last())
    }
}

/// Returns a line of keys with what stands in brackets shown in colour.
pub fn highlight(text: &str) -> (shown: String)
    ensures
        shown@ == highlighted(text@),
{
    let len = text.unicode_len();
    let mut shown = String::new();
    let mut i: usize = 0;
    proof {
        assert(text@.take(0) =~= Seq::<char>::empty());
    }
    while i < len
        invariant
            i <= len,
            len == text@.len(),
            shown@ == highlighted(text@.take(i as int)),
        decreases len - i,
    {
        let c = text.get_char(i);
        let ghost before = shown@;
        proof {
            assert(text@.take(i + 1).drop_last() =~= text@.take(i as int));
            assert(text@.take(i + 1).last() == c);
        }
        if c == '[' {
            shown.append("[");
            shown.append(RED);
            proof {
                assert(before + "["@ + RED@ =~= before + ("["@ + RED@));
            }
        } else if c == ']' {
            shown.append(DFT);
            shown.append("]");
            proof {
                assert(before + DFT@ + "]"@ =~= before + (DFT@ + "]"@));
            }
        } else {
            shown.append(text.substring_char(i, i + 1));
            proof {
                assert(text@.subrange(i as int, i + 1) =~= seq![c]);
            }
        }
        i += 1;
    }
    proof {
        assert(text@.take(i as int) =~= text@);
    }
    shown
}

} // verus!
