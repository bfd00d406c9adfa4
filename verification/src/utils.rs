//! Text helpers: decimal numbers and hex dumps.

use vstd::prelude::*;
use vstd::string::StrSliceExecFns;

verus! {

/// The character of the decimal digit `digit`.
pub open spec fn decimal_digit(digit: nat) -> char {
    ((48 + digit) as u8) as char
}

/// The decimal text of `value`, without sign or leading zeros.
pub open spec fn decimal_text(value: nat) -> Seq<char>
    decreases value,
{
    if value < 10 {
        seq![decimal_digit(value)]
    } else {
        decimal_text(value / 10).push(decimal_digit(value % 10))
    }
}

/// The decimal digits of `value`, last digit first.
fn decimal_digits_reversed(value: u64) -> (digits: Vec<char>)
    ensures
        digits@.reverse() == decimal_text(value as nat),
        digits@.len() >= 1,
{
    let mut digits: Vec<char> = Vec::new();
    let mut rest = value;
    digits.push((48u8 + (rest % 10) as u8) as char);
    rest = rest / 10;
    proof {
        assert(digits@.reverse() =~= seq![decimal_digit((value % 10) as nat)]);
    }
    while rest > 0
        invariant
            digits@.len() >= 1,
            decimal_text(value as nat) == if rest == 0 {
                digits@.reverse()
            } else {
                decimal_text(rest as nat) + digits@.reverse()
            },
        decreases rest,
    {
        let ghost before = digits@;
        let ghost rest_before = rest;
        digits.push((48u8 + (rest % 10) as u8) as char);
        rest = rest / 10;
        proof {
            let digit = decimal_digit((rest_before % 10) as nat);
            assert(digits@.reverse() =~= seq![digit] + before.reverse());
            if rest == 0 {
                assert(decimal_text(rest_before as nat) =~= seq![digit]);
            } else {
                assert(decimal_text(rest_before as nat) =~= decimal_text(rest as nat) + seq![
                    digit,
                ]);
                assert(decimal_text(rest as nat) + digits@.reverse() =~= (decimal_text(rest as nat)
                    + seq![digit]) + before.reverse());
            }
        }
    }
    digits
}

/// Whether `text` is the decimal text of `value`.
pub fn is_decimal_text(text: &str, value: u64) -> (same: bool)
    ensures
        same == (text@ == decimal_text(value as nat)),
{
    let digits = decimal_digits_reversed(value);
    let count = digits.len();
    assert(digits@.reverse().len() == count);
    if text.unicode_len() != count {
        return false;
    }
    let mut index: usize = 0;
    while index < count
        invariant
            index <= count,
            count == digits@.len(),
            text@.len() == count,
            digits@.reverse() == decimal_text(value as nat),
            forall|k: int| 0 <= k < index ==> text@[k] == digits@.reverse()[k],
        decreases count - index,
    {
        assert(digits@.reverse()[index as int] == digits@[count - 1 - index]);
        if text.get_char(index) != digits[count - 1 - index] {
            return false;
        }
        index = index + 1;
    }
    assert(text@ =~= digits@.reverse());
    true
}

/// The character of the hexadecimal digit `digit`, in upper case.
pub open spec fn hex_digit(digit: nat) -> char {
    if digit < 10 {
        ((48 + digit) as u8) as char
    } else {
        ((55 + digit) as u8) as char
    }
}

/// The two hexadecimal digits of `byte`.
pub open spec fn hex_byte_text(byte: u8) -> Seq<char> {
    seq![hex_digit((byte / 16) as nat), hex_digit((byte % 16) as nat)]
}

/// The four hexadecimal digits of `word`.
pub open spec fn hex_word_text(word: u16) -> Seq<char> {
    hex_byte_text((word / 256) as u8) + hex_byte_text((word % 256) as u8)
}

/// `count` spaces.
pub open spec fn spaces(count: nat) -> Seq<char> {
    Seq::new(count, |i: int| ' ')
}

/// `String::push`: the character is appended to the end of the string.
#[verifier::external_body]
pub(crate) fn push_char(text: &mut String, c: char)
    ensures
        final(text)@ == old(text)@.push(c),
{
    text.push(c)
}

/// `String::push_str`: the slice is appended to the end of the string.
#[verifier::external_body]
pub(crate) fn push_text(text: &mut String, more: &str)
    ensures
        final(text)@ == old(text)@ + more@,
{
    text.push_str(more)
}

pub fn hex_digit_char(digit: u8) -> (c: char)
    requires
        digit < 16,
    ensures
        c == hex_digit(digit as nat),
{
    if digit < 10 {
        (48u8 + digit) as char
    } else {
        (55u8 + digit) as char
    }
}

/// Appends the two hexadecimal digits of `byte`.
pub fn push_hex_byte(text: &mut String, byte: u8)
    ensures
        final(text)@ == old(text)@ + hex_byte_text(byte),
{
    push_char(text, hex_digit_char(byte / 16));
    push_char(text, hex_digit_char(byte % 16));
    assert(text@ =~= old(text)@ + hex_byte_text(byte));
}

/// Appends `count` spaces.
pub fn push_spaces(text: &mut String, count: usize)
    ensures
        final(text)@ == old(text)@ + spaces(count as nat),
{
    let mut done: usize = 0;
    while done < count
        invariant
            done <= count,
            text@ == old(text)@ + spaces(done as nat),
        decreases count - done,
    {
        push_char(text, ' ');
        done = done + 1;
        assert(text@ =~= old(text)@ + spaces(done as nat));
    }
}

/// The two hexadecimal digits of `byte` as a string.
pub fn hex_byte(byte: u8) -> (text: String)
    ensures
        text@ == hex_byte_text(byte),
{
    let mut text = String::new();
    push_hex_byte(&mut text, byte);
    assert(text@ =~= hex_byte_text(byte));
    text
}

/// Bytes in a line of a hex dump.
pub const DUMP_WIDTH: usize = 16;

/// The hexadecimal text of `value`, in upper case, with leading zeros up to
/// `width` digits, and with more digits where the value needs them.
pub open spec fn hex_text(value: nat, width: nat) -> Seq<char>
    decreases value + width,
{
    if value < 16 && width <= 1 {
        seq![hex_digit(value)]
    } else {
        hex_text(
            value / 16,
            if width == 0 {
                0
            } else {
                (width - 1) as nat
            },
        ).push(hex_digit(value % 16))
    }
}

/// The character that a hex dump shows for `byte`: the byte's own character
/// where it is a printable ASCII character other than the space, else a dot.
pub open spec fn dump_char(byte: u8) -> char {
    if 0x21 <= byte <= 0x7E {
        byte as char
    } else {
        '.'
    }
}

/// The hexadecimal column of a dump line: two digits and a space for each of
/// the first `count` bytes.
pub open spec fn dump_hex_column(chunk: Seq<u8>, count: nat) -> Seq<char>
    decreases count,
{
    if count == 0 {
        Seq::empty()
    } else {
        dump_hex_column(chunk, (count - 1) as nat) + hex_byte_text(chunk[count - 1]) + seq![' ']
    }
}

/// The character column of a dump line: the character and a space for each
/// of the first `count` bytes.
pub open spec fn dump_char_column(chunk: Seq<u8>, count: nat) -> Seq<char>
    decreases count,
{
    if count == 0 {
        Seq::empty()
    } else {
        dump_char_column(chunk, (count - 1) as nat) + seq![dump_char(chunk[count - 1]), ' ']
    }
}

/// One line of a hex dump, for the up to 16 bytes of `chunk` found at
/// `address`: the address in at least eight digits and three spaces; the
/// hexadecimal column, filled up with spaces to the width of 16 bytes; two
/// spaces; the character column; a line feed.
pub open spec fn dump_line(address: nat, chunk: Seq<u8>) -> Seq<char> {
    hex_text(address, 8) + spaces(3) + dump_hex_column(chunk, chunk.len()) + spaces(
        (3 * (16 - chunk.len())) as nat,
    ) + spaces(2) + dump_char_column(chunk, chunk.len()) + seq!['\n']
}

/// The chunk of `data` that the dump line at `address` shows.
pub open spec fn dump_chunk(data: Seq<u8>, address: nat) -> Seq<u8> {
    data.subrange(
        address as int,
        if address + 16 <= data.len() {
            (address + 16) as int
        } else {
            data.len() as int
        },
    )
}

/// The lines of a hex dump of `data` from `address` on, 16 bytes to a line.
pub open spec fn dump_text(data: Seq<u8>, address: nat) -> Seq<char>
    decreases
        (if address < data.len() {
            data.len() - address
        } else {
            0
        }),
{
    if address >= data.len() {
        Seq::empty()
    } else {
        dump_line(address, dump_chunk(data, address)) + dump_text(data, (address + 16) as nat)
    }
}

/// Appends the hexadecimal text of `value` with at least `width` digits.
pub fn push_hex(text: &mut String, value: usize, width: usize)
    ensures
        final(text)@ == old(text)@ + hex_text(value as nat, width as nat),
{
    let mut digits: Vec<char> = Vec::new();
    let mut rest = value;
    let mut left = width;
    loop
        invariant_except_break
            old(text)@ + hex_text(value as nat, width as nat) == old(text)@ + hex_text(
                rest as nat,
                left as nat,
            ) + digits@.reverse(),
            text@ == old(text)@,
        ensures
            old(text)@ + hex_text(value as nat, width as nat) == old(text)@ + digits@.reverse(),
            text@ == old(text)@,
        decreases rest + left,
    {
        let ghost before = digits@;
        let digit = hex_digit_char((rest % 16) as u8);
        digits.push(digit);
        assert(digits@.reverse() =~= seq![digit] + before.reverse());
        if rest < 16 && left <= 1 {
            assert(hex_text(rest as nat, left as nat) =~= seq![digit]);
            assert(old(text)@ + hex_text(rest as nat, left as nat) + before.reverse() =~= old(
                text,
            )@ + digits@.reverse());
            break ;
        }
        let ghost rest_before = rest;
        let ghost left_before = left;
        rest = rest / 16;
        if left > 0 {
            left = left - 1;
        }
        assert(hex_text(rest_before as nat, left_before as nat) =~= hex_text(
            rest as nat,
            left as nat,
        ).push(digit));
        assert(old(text)@ + hex_text(rest_before as nat, left_before as nat) + before.reverse()
            =~= old(text)@ + hex_text(rest as nat, left as nat) + digits@.reverse());
    }
    let count = digits.len();
    let mut index: usize = 0;
    while index < count
        invariant
            index <= count,
            count == digits@.len(),
            text@ == old(text)@ + digits@.reverse().subrange(0, index as int),
        decreases count - index,
    {
        push_char(text, digits[count - 1 - index]);
        index = index + 1;
        assert(text@ =~= old(text)@ + digits@.reverse().subrange(0, index as int));
    }
    assert(digits@.reverse().subrange(0, count as int) =~= digits@.reverse());
}

/// Appends the dump line for `chunk`, found at `address`.
fn push_dump_line(text: &mut String, address: usize, chunk: &[u8])
    requires
        1 <= chunk@.len() <= 16,
    ensures
        final(text)@ == old(text)@ + dump_line(address as nat, chunk@),
{
    push_hex(text, address, 8);
    push_spaces(text, 3);
    let ghost head = text@;
    let mut i: usize = 0;
    assert(text@ =~= head + dump_hex_column(chunk@, 0));
    while i < chunk.len()
        invariant
            i <= chunk@.len(),
            text@ == head + dump_hex_column(chunk@, i as nat),
        decreases chunk@.len() - i,
    {
        push_hex_byte(text, chunk[i]);
        push_char(text, ' ');
        i = i + 1;
        assert(text@ =~= head + dump_hex_column(chunk@, i as nat));
    }
    push_spaces(text, 3 * (DUMP_WIDTH - chunk.len()));
    push_spaces(text, 2);
    let ghost middle = text@;
    let mut i: usize = 0;
    assert(text@ =~= middle + dump_char_column(chunk@, 0));
    while i < chunk.len()
        invariant
            i <= chunk@.len(),
            text@ == middle + dump_char_column(chunk@, i as nat),
        decreases chunk@.len() - i,
    {
        let byte = chunk[i];
        if 0x21 <= byte && byte <= 0x7E {
            push_char(text, byte as char);
        } else {
            push_char(text, '.');
        }
        push_char(text, ' ');
        i = i + 1;
        assert(text@ =~= middle + dump_char_column(chunk@, i as nat));
    }
    push_char(text, '\n');
    assert(text@ =~= old(text)@ + dump_line(address as nat, chunk@));
}

/// A hex dump of `data`: for every 16 bytes a line with the address, the
/// bytes in hexadecimal and the bytes as characters.
pub fn hexdump(data: &[u8]) -> (output: String)
    ensures
        output@ == dump_text(data@, 0),
{
    let mut output = String::new();
    let mut address: usize = 0;
    assert(output@ + dump_text(data@, 0) =~= dump_text(data@, 0));
    while address < data.len()
        invariant
            output@ + dump_text(data@, address as nat) == dump_text(data@, 0),
        decreases data@.len() - address,
    {
        let end = if data.len() - address >= DUMP_WIDTH {
            address + DUMP_WIDTH
        } else {
            data.len()
        };
        let chunk = vstd::slice::slice_subrange(data, address, end);
        let ghost before = output@;
        push_dump_line(&mut output, address, chunk);
        assert(chunk@ == dump_chunk(data@, address as nat));
        assert(before + dump_text(data@, address as nat) =~= output@ + dump_text(
            data@,
            (address + 16) as nat,
        ));
        if data.len() - address >= DUMP_WIDTH {
            address = address + DUMP_WIDTH;
        } else {
            assert(dump_text(data@, (address + 16) as nat) =~= dump_text(data@, data@.len()));
            address = data.len();
        }
    }
    assert(dump_text(data@, address as nat) =~= Seq::<char>::empty());
    assert(output@ =~= dump_text(data@, 0));
    output
}

} // verus!
