//! Text forms of numbers and addresses.

use vstd::prelude::*;
use vstd::string::StringExecFns;
use crate::bytes::{be16, read_be16};

verus! {

/// The character of one digit, for `digit` below sixteen; lower case.
pub open spec fn digit_char(digit: int) -> char {
    if digit == 0 {
        '0'
    } else if digit == 1 {
        '1'
    } else if digit == 2 {
        '2'
    } else if digit == 3 {
        '3'
    } else if digit == 4 {
        '4'
    } else if digit == 5 {
        '5'
    } else if digit == 6 {
        '6'
    } else if digit == 7 {
        '7'
    } else if digit == 8 {
        '8'
    } else if digit == 9 {
        '9'
    } else if digit == 10 {
        'a'
    } else if digit == 11 {
        'b'
    } else if digit == 12 {
        'c'
    } else if digit == 13 {
        'd'
    } else if digit == 14 {
        'e'
    } else {
        'f'
    }
}

/// `n` in decimal, without leading zeros.
pub open spec fn decimal_text(n: nat) -> Seq<char>
    decreases n,
{
    if n < 10 {
        seq![digit_char(n as int)]
    } else {
        decimal_text(n / 10).push(digit_char((n % 10) as int))
    }
}

/// `n` in lower-case hexadecimal, without leading zeros.
pub open spec fn hex_text(n: nat) -> Seq<char>
    decreases n,
{
    if n < 16 {
        seq![digit_char(n as int)]
    } else {
        hex_text(n / 16).push(digit_char((n % 16) as int))
    }
}

/// A 16-bit number as `0x` and four lower-case hexadecimal digits.
pub open spec fn hex4_text(n: int) -> Seq<char> {
    seq![
        '0',
        'x',
        digit_char(n / 4096 % 16),
        digit_char(n / 256 % 16),
        digit_char(n / 16 % 16),
        digit_char(n % 16),
    ]
}

/// `true` or `false`.
pub open spec fn bool_text(value: bool) -> Seq<char> {
    if value {
        "true"@
    } else {
        "false"@
    }
}

/// An IPv4 address of four bytes in dotted decimal.
pub open spec fn ipv4_text(address: Seq<u8>) -> Seq<char> {
    decimal_text(address[0] as nat) + seq!['.'] + decimal_text(address[1] as nat) + seq!['.']
        + decimal_text(address[2] as nat) + seq!['.'] + decimal_text(address[3] as nat)
}

/// The `index`-th 16-bit group of an IPv6 address of sixteen bytes.
pub open spec fn group(address: Seq<u8>, index: int) -> int {
    be16(address, 2 * index)
}

/// How many groups in a row are zero, counted from group `index` on.
pub open spec fn zero_run(address: Seq<u8>, index: int) -> int
    decreases 8 - index,
{
    if 0 <= index < 8 && group(address, index) == 0 {
        1 + zero_run(address, index + 1)
    } else {
        0
    }
}

/// Among the groups before `upto`, the one from which the longest run of
/// zero groups starts; on a tie the first.
pub open spec fn longest_zero_run(address: Seq<u8>, upto: int) -> int
    decreases upto,
{
    if upto <= 0 {
        0
    } else {
        let before = longest_zero_run(address, upto - 1);
        if zero_run(address, upto - 1) > zero_run(address, before) {
            upto - 1
        } else {
            before
        }
    }
}

/// The groups `from .. to` in hexadecimal, with a colon between neighbours.
pub open spec fn groups_text(address: Seq<u8>, from: int, to: int) -> Seq<char>
    decreases to - from,
{
    if from >= to {
        Seq::empty()
    } else if from + 1 == to {
        hex_text(group(address, from) as nat)
    } else {
        groups_text(address, from, to - 1) + seq![':'] + hex_text(group(address, to - 1) as nat)
    }
}

/// Whether the address carries an IPv4 address behind the prefix `::ffff:`.
pub open spec fn is_ipv4_mapped(address: Seq<u8>) -> bool {
    &&& group(address, 0) == 0
    &&& group(address, 1) == 0
    &&& group(address, 2) == 0
    &&& group(address, 3) == 0
    &&& group(address, 4) == 0
    &&& group(address, 5) == 0xffff
}

/// An IPv6 address of sixteen bytes in its canonical text form: groups in
/// lower-case hexadecimal without leading zeros, the longest run of two or
/// more zero groups (the first, on a tie) written as `::`, and an
/// IPv4-mapped address with its last four bytes in dotted decimal.
pub open spec fn ipv6_text(address: Seq<u8>) -> Seq<char> {
    if is_ipv4_mapped(address) {
        "::ffff:"@ + ipv4_text(address.subrange(12, 16))
    } else {
        let start = longest_zero_run(address, 8);
        let run = zero_run(address, start);
        if run > 1 {
            groups_text(address, 0, start) + "::"@ + groups_text(address, start + run, 8)
        } else {
            groups_text(address, 0, 8)
        }
    }
}

/// One digit as a string.
fn digit_str(digit: u8) -> (text: &'static str)
    requires
        digit < 16,
    ensures
        text@ == seq![digit_char(digit as int)],
{
    proof {
        reveal_strlit("0");
        reveal_strlit("1");
        reveal_strlit("2");
        reveal_strlit("3");
        reveal_strlit("4");
        reveal_strlit("5");
        reveal_strlit("6");
        reveal_strlit("7");
        reveal_strlit("8");
        reveal_strlit("9");
        reveal_strlit("a");
        reveal_strlit("b");
        reveal_strlit("c");
        reveal_strlit("d");
        reveal_strlit("e");
        reveal_strlit("f");
    }
    let text = match digit {
        0 => "0",
        1 => "1",
        2 => "2",
        3 => "3",
        4 => "4",
        5 => "5",
        6 => "6",
        7 => "7",
        8 => "8",
        9 => "9",
        10 => "a",
        11 => "b",
        12 => "c",
        13 => "d",
        14 => "e",
        _ => "f",
    };
    assert(text@ =~= seq![digit_char(digit as int)]);
    text
}

/// Appends `n` in decimal.
pub fn push_decimal(text: &mut String, n: u64)
    ensures
        final(text)@ == old(text)@ + decimal_text(n as nat),
    decreases n,
{
    let ghost before = text@;
    if n >= 10 {
        push_decimal(text, n / 10);
    }
    text.append(digit_str((n % 10) as u8));
    assert(text@ =~= before + decimal_text(n as nat));
}

/// `n` in decimal.
pub fn decimal_string(n: u64) -> (text: String)
    ensures
        text@ == decimal_text(n as nat),
{
    let mut text = String::new();
    push_decimal(&mut text, n);
    assert(text@ =~= decimal_text(n as nat));
    text
}

/// Appends `n` in lower-case hexadecimal, without leading zeros.
pub fn push_hex(text: &mut String, n: u16)
    ensures
        final(text)@ == old(text)@ + hex_text(n as nat),
    decreases n,
{
    let ghost before = text@;
    if n >= 16 {
        push_hex(text, n / 16);
    }
    text.append(digit_str((n % 16) as u8));
    assert(text@ =~= before + hex_text(n as nat));
}

/// `n` as `0x` and four lower-case hexadecimal digits.
pub fn hex4_string(n: u16) -> (text: String)
    ensures
        text@ == hex4_text(n as int),
{
    proof {
        reveal_strlit("0x");
    }
    let mut text = String::from_str("0x");
    text.append(digit_str((n / 4096 % 16) as u8));
    text.append(digit_str((n / 256 % 16) as u8));
    text.append(digit_str((n / 16 % 16) as u8));
    text.append(digit_str((n % 16) as u8));
    assert(text@ =~= hex4_text(n as int));
    text
}

/// `true` or `false`.
pub fn bool_str(value: bool) -> (text: &'static str)
    ensures
        text@ == bool_text(value),
{
    if value {
        "true"
    } else {
        "false"
    }
}

/// An IPv4 address in dotted decimal.
pub fn ipv4_string(address: &[u8]) -> (text: String)
    requires
        address@.len() == 4,
    ensures
        text@ == ipv4_text(address@),
{
    proof {
        reveal_strlit(".");
    }
    let mut text = String::new();
    push_decimal(&mut text, address[0] as u64);
    text.append(".");
    push_decimal(&mut text, address[1] as u64);
    text.append(".");
    push_decimal(&mut text, address[2] as u64);
    text.append(".");
    push_decimal(&mut text, address[3] as u64);
    assert("."@ =~= seq!['.']);
    assert(text@ =~= ipv4_text(address@));
    text
}

/// How many groups in a row are zero, counted from group `index` on.
fn zero_run_at(address: &[u8], index: usize) -> (run: usize)
    requires
        address@.len() == 16,
        index <= 8,
    ensures
        run as int == zero_run(address@, index as int),
        index + run <= 8,
{
    let mut next: usize = index;
    while next < 8 && read_be16(address, 2 * next) == 0
        invariant
            address@.len() == 16,
            index <= next <= 8,
            zero_run(address@, index as int) == (next - index) + zero_run(address@, next as int),
        decreases 8 - next,
    {
        next = next + 1;
    }
    next - index
}

/// Appends the groups `from .. to`, with a colon between neighbours.
fn push_groups(text: &mut String, address: &[u8], from: usize, to: usize)
    requires
        address@.len() == 16,
        from <= to <= 8,
    ensures
        final(text)@ == old(text)@ + groups_text(address@, from as int, to as int),
{
    let ghost before = text@;
    let mut next: usize = from;
    assert(text@ =~= before + groups_text(address@, from as int, next as int));
    while next < to
        invariant
            address@.len() == 16,
            from <= next <= to <= 8,
            text@ == before + groups_text(address@, from as int, next as int),
        decreases to - next,
    {
        if next > from {
            text.append(":");
        }
        push_hex(text, read_be16(address, 2 * next));
        next = next + 1;
        proof {
            reveal_strlit(":");
        }
        assert(":"@ =~= seq![':']);
        assert(text@ =~= before + groups_text(address@, from as int, next as int));
    }
}

/// An IPv6 address in its canonical text form.
pub fn ipv6_string(address: &[u8]) -> (text: String)
    requires
        address@.len() == 16,
    ensures
        text@ == ipv6_text(address@),
{
    let mapped = read_be16(address, 0) == 0 && read_be16(address, 2) == 0 && read_be16(address, 4)
        == 0 && read_be16(address, 6) == 0 && read_be16(address, 8) == 0 && read_be16(address, 10)
        == 0xffff;
    if mapped {
        let mut text = String::from_str("::ffff:");
        let low = crate::bytes::copy_range(address, 12, 16);
        let dotted = ipv4_string(low.as_slice());
        text.append(dotted.as_str());
        return text;
    }
    let mut start: usize = 0;
    let mut run: usize = zero_run_at(address, 0);
    let mut next: usize = 0;
    while next < 8
        invariant
            address@.len() == 16,
            next <= 8,
            start <= 8,
            start as int == longest_zero_run(address@, next as int),
            run as int == zero_run(address@, start as int),
            start + run <= 8,
        decreases 8 - next,
    {
        let here: usize = zero_run_at(address, next);
        if here > run {
            start = next;
            run = here;
        }
        next = next + 1;
    }
    let mut text = String::new();
    if run > 1 {
        push_groups(&mut text, address, 0, start);
        text.append("::");
        push_groups(&mut text, address, start + run, 8);
    } else {
        push_groups(&mut text, address, 0, 8);
    }
    assert(text@ =~= ipv6_text(address@));
    text
}

} // verus!
