//! A compact, human-readable rendering of binary payloads for log lines.
//!
//! Short payloads are shown whole, as a list of decimal numbers. Longer ones
//! are cut down to their first four and last four bytes, in hexadecimal.

use vstd::prelude::*;

verus! {

/// Payloads shorter than this are rendered whole.
pub const FULL_RENDER_LIMIT: usize = 8;

/// The lower-case character that stands for a digit below sixteen.
pub open spec fn digit_char(d: int) -> char {
    seq!['0', '1', '2', '3', '4', '5', '6', '7', '8', '9', 'a', 'b', 'c', 'd', 'e', 'f'][d]
}

/// A byte as two hexadecimal digits, the high one first.
pub open spec fn hex_pair(b: u8) -> Seq<char> {
    seq![digit_char(b as int / 16), digit_char(b as int % 16)]
}

/// A byte as a decimal number without leading zeros.
pub open spec fn decimal(b: u8) -> Seq<char> {
    if b < 10 {
        seq![digit_char(b as int)]
    } else if b < 100 {
        seq![digit_char(b as int / 10), digit_char(b as int % 10)]
    } else {
        seq![digit_char(b as int / 100), digit_char(b as int / 10 % 10), digit_char(b as int % 10)]
    }
}

/// The decimal numbers of `bytes`, each but the first preceded by a comma and
/// a space.
pub open spec fn comma_separated(bytes: Seq<u8>) -> Seq<char>
    decreases bytes.len(),
{
    if bytes.len() == 0 {
        Seq::empty()
    } else if bytes.len() == 1 {
        decimal(bytes[0])
    } else {
        comma_separated(bytes.drop_last()) + seq![',', ' '] + decimal(bytes.last())
    }
}

/// The rendering of a payload that is shown whole: its bytes as a bracketed,
/// comma-separated list of decimal numbers, inside the outer brackets.
pub open spec fn full_form(bytes: Seq<u8>) -> Seq<char> {
    seq!['[', ' ', '['] + comma_separated(bytes) + seq![']', ' ', ']']
}

/// Four bytes as hexadecimal pairs with a space between neighbours.
pub open spec fn hex_group(a: u8, b: u8, c: u8, d: u8) -> Seq<char> {
    hex_pair(a) + seq![' '] + hex_pair(b) + seq![' '] + hex_pair(c) + seq![' '] + hex_pair(d)
}

/// The rendering of a payload that is cut down: the first four bytes and the
/// last four, as hexadecimal pairs, with `..` where the middle was left out.
pub open spec fn abridged_form(bytes: Seq<u8>) -> Seq<char>
    recommends
        bytes.len() >= 4,
{
    let n = bytes.len() as int;
    seq!['[', ' '] + hex_group(bytes[0], bytes[1], bytes[2], bytes[3]) + seq!['.', '.']
        + hex_group(bytes[n - 4], bytes[n - 3], bytes[n - 2], bytes[n - 1]) + seq![' ', ']']
}

/// What `bin_data_format` returns for a payload.
pub open spec fn formatted(bytes: Seq<u8>) -> Seq<char> {
    if bytes.len() < FULL_RENDER_LIMIT {
        full_form(bytes)
    } else {
        abridged_form(bytes)
    }
}

/// The longest text that `bin_data_format` returns: seven bytes of three
/// decimal digits each, shown whole.
pub const MAX_RENDER_LEN: usize = 39;

/// The length of every abridged rendering.
pub const ABRIDGED_LEN: usize = 28;

/// A list of `n` bytes takes at most three digits for each byte and two
/// characters between neighbours.
pub proof fn lemma_comma_separated_len(bytes: Seq<u8>)
    ensures
        bytes.len() == 0 ==> comma_separated(bytes).len() == 0,
        bytes.len() > 0 ==> bytes.len() * 3 - 2 <= comma_separated(bytes).len() <= bytes.len() * 5
            - 2,
    decreases bytes.len(),
{
    if bytes.len() > 1 {
        lemma_comma_separated_len(bytes.drop_last());
    }
}

/// A rendering is never longer than `MAX_RENDER_LEN` characters, and an
/// abridged one always has `ABRIDGED_LEN` of them, whatever the payload's
/// size.
pub proof fn lemma_formatted_len(bytes: Seq<u8>)
    ensures
        formatted(bytes).len() <= MAX_RENDER_LEN,
        bytes.len() >= FULL_RENDER_LIMIT ==> formatted(bytes).len() == ABRIDGED_LEN,
{
    lemma_comma_separated_len(bytes);
}

/// Where the two forms meet. Seven bytes are still shown whole: each of the
/// seven as its decimal number, in order. Eight bytes are abridged: all eight
/// are shown, as two groups of four. An empty payload is shown as an empty
/// list.
pub proof fn lemma_formatted_boundary(bytes: Seq<u8>)
    ensures
        bytes.len() == 0 ==> formatted(bytes) == seq!['[', ' ', '[', ']', ' ', ']'],
        bytes.len() == 7 ==> formatted(bytes) == seq!['[', ' ', '['] + decimal(bytes[0]) + seq![
            ',',
            ' ',
        ] + decimal(bytes[1]) + seq![',', ' '] + decimal(bytes[2]) + seq![',', ' '] + decimal(
            bytes[3],
        ) + seq![',', ' '] + decimal(bytes[4]) + seq![',', ' '] + decimal(bytes[5]) + seq![
            ',',
            ' ',
        ] + decimal(bytes[6]) + seq![']', ' ', ']'],
        bytes.len() == 8 ==> formatted(bytes) == seq!['[', ' '] + hex_group(
            bytes[0],
            bytes[1],
            bytes[2],
            bytes[3],
        ) + seq!['.', '.'] + hex_group(bytes[4], bytes[5], bytes[6], bytes[7]) + seq![' ', ']'],
{
    if bytes.len() == 7 {
        let sep = seq![',', ' '];
        let b6 = bytes.drop_last();
        let b5 = b6.drop_last();
        let b4 = b5.drop_last();
        let b3 = b4.drop_last();
        let b2 = b3.drop_last();
        let b1 = b2.drop_last();
        let t1 = seq!['[', ' ', '['] + decimal(bytes[0]);
        let t2 = t1 + sep + decimal(bytes[1]);
        let t3 = t2 + sep + decimal(bytes[2]);
        let t4 = t3 + sep + decimal(bytes[3]);
        let t5 = t4 + sep + decimal(bytes[4]);
        let t6 = t5 + sep + decimal(bytes[5]);
        let t7 = t6 + sep + decimal(bytes[6]);
        assert(seq!['[', ' ', '['] + comma_separated(b1) == t1);
        assert(seq!['[', ' ', '['] + comma_separated(b2) == t2) by {
            assert(comma_separated(b2) == comma_separated(b1) + sep + decimal(bytes[1]));
        }
        assert(seq!['[', ' ', '['] + comma_separated(b3) == t3) by {
            assert(comma_separated(b3) == comma_separated(b2) + sep + decimal(bytes[2]));
        }
        assert(seq!['[', ' ', '['] + comma_separated(b4) == t4) by {
            assert(comma_separated(b4) == comma_separated(b3) + sep + decimal(bytes[3]));
        }
        assert(seq!['[', ' ', '['] + comma_separated(b5) == t5) by {
            assert(comma_separated(b5) == comma_separated(b4) + sep + decimal(bytes[4]));
        }
        assert(seq!['[', ' ', '['] + comma_separated(b6) == t6) by {
            assert(comma_separated(b6) == comma_separated(b5) + sep + decimal(bytes[5]));
        }
        assert(seq!['[', ' ', '['] + comma_separated(bytes) == t7) by {
            assert(comma_separated(bytes) == comma_separated(b6) + sep + decimal(bytes[6]));
        }
    }
}

/// An abridged rendering depends on the first four and the last four bytes
/// alone.
pub proof fn lemma_abridged_ignores_middle(a: Seq<u8>, b: Seq<u8>)
    requires
        a.len() >= FULL_RENDER_LIMIT,
        b.len() >= FULL_RENDER_LIMIT,
        a.take(4) == b.take(4),
        a.skip(a.len() - 4) == b.skip(b.len() - 4),
    ensures
        formatted(a) == formatted(b),
{
    let ta = a.skip(a.len() - 4);
    let tb = b.skip(b.len() - 4);
    assert(a.take(4)[0] == a[0] && b.take(4)[0] == b[0]);
    assert(a.take(4)[1] == a[1] && b.take(4)[1] == b[1]);
    assert(a.take(4)[2] == a[2] && b.take(4)[2] == b[2]);
    assert(a.take(4)[3] == a[3] && b.take(4)[3] == b[3]);
    assert(ta[0] == a[a.len() - 4] && tb[0] == b[b.len() - 4]);
    assert(ta[1] == a[a.len() - 3] && tb[1] == b[b.len() - 3]);
    assert(ta[2] == a[a.len() - 2] && tb[2] == b[b.len() - 2]);
    assert(ta[3] == a[a.len() - 1] && tb[3] == b[b.len() - 1]);
}

/// The one-character string for a digit below sixteen.
fn digit_str(d: u8) -> (s: &'static str)
    requires
        d < 16,
    ensures
        s@ == seq![digit_char(d as int)],
{
    proof {
        reveal_strlit("0");
        reveal_strlit("1");
        reveal_strlit("2");
        reveal_strlit("3");
        reveal_strlit("4");
        reveal_strlit("5");
        reveal_strlit("6");
        reveal_strlit("7");
        reveal_strlit("8");
        reveal_strlit("9");
        reveal_strlit("a");
        reveal_strlit("b");
        reveal_strlit("c");
        reveal_strlit("d");
        reveal_strlit("e");
        reveal_strlit("f");
    }
    match d {
        0 => "0",
        1 => "1",
        2 => "2",
        3 => "3",
        4 => "4",
        5 => "5",
        6 => "6",
        7 => "7",
        8 => "8",
        9 => "9",
        10 => "a",
        11 => "b",
        12 => "c",
        13 => "d",
        14 => "e",
        _ => "f",
    }
}

/// Appends a byte as two hexadecimal digits.
fn push_hex_pair(out: &mut String, b: u8)
    ensures
        final(out)@ == old(out)@ + hex_pair(b),
{
    out.append(digit_str(b / 16));
    out.append(digit_str(b % 16));
}

/// Appends four bytes as hexadecimal pairs with a space between neighbours.
fn push_hex_group(out: &mut String, a: u8, b: u8, c: u8, d: u8)
    ensures
        final(out)@ == old(out)@ + hex_group(a, b, c, d),
{
    proof {
        reveal_strlit(" ");
    }
    push_hex_pair(out, a);
    out.append(" ");
    push_hex_pair(out, b);
    out.append(" ");
    push_hex_pair(out, c);
    out.append(" ");
    push_hex_pair(out, d);
}

/// Appends a byte as a decimal number.
fn push_decimal(out: &mut String, b: u8)
    ensures
        final(out)@ == old(out)@ + decimal(b),
{
    if b >= 100 {
        out.append(digit_str(b / 100));
    }
    if b >= 10 {
        out.append(digit_str(b / 10 % 10));
    }
    out.append(digit_str(b % 10));
}

/// Renders a payload for a log line.
///
/// A payload of fewer than eight bytes is shown whole, as the list of its
/// bytes in decimal. Any other is shown as its first four and last four bytes
/// in two-digit hexadecimal, with `..` between the two groups.
pub fn bin_data_format(data: &[u8]) -> (text: String)
    ensures
        text@ == formatted(data@),
        text@.len() <= MAX_RENDER_LEN,
{
    proof {
        lemma_formatted_len(data@);
    }
    let len = data.len();
    let mut out = String::new();
    if len < FULL_RENDER_LIMIT {
        proof {
            reveal_strlit("[ [");
            reveal_strlit(", ");
            reveal_strlit("] ]");
        }
        out.append("[ [");
        let mut i: usize = 0;
        while i < len
            invariant
                i <= len,
                len == data@.len(),
                ", "@ == seq![',', ' '],
                out@ == seq!['[', ' ', '['] + comma_separated(data@.take(i as int)),
            decreases len - i,
        {
            let ghost before = data@.take(i as int);
            let ghost after = data@.take(i + 1);
            assert(after.drop_last() == before);
            assert(after.last() == data@[i as int]);
            if i > 0 {
                out.append(", ");
            }
            push_decimal(&mut out, data[i]);
            i += 1;
        }
        assert(data@.take(len as int) == data@);
        out.append("] ]");
        out
    } else {
        proof {
            reveal_strlit("[ ");
            reveal_strlit("..");
            reveal_strlit(" ]");
        }
        out.append("[ ");
        push_hex_group(&mut out, data[0], data[1], data[2], data[3]);
        out.append("..");
        push_hex_group(&mut out, data[len - 4], data[len - 3], data[len - 2], data[len - 1]);
        out.append(" ]");
        out
    }
}

} // verus!
