//! The pid record: what the pid file holds and what that means.
//!
//! The record is the only sign that a background instance was started. It is
//! never compared with the process table: a record that outlived its process
//! still reads as present.

use crate::text::content_view;
use vstd::prelude::*;

verus! {

/// The largest process id that a record can hold.
pub const PID_MAX: i32 = 2147483647;

/// What reading the pid file gave.
#[derive(Clone, Copy, Debug, PartialEq, Eq, Structural)]
pub enum PidRecord {
    /// There is no pid file.
    Absent,
    /// The file holds this process id.
    Present(i32),
    /// The file exists and holds anything but one decimal integer in range.
    Corrupt,
}

/// ASCII white space: space, tab, line feed, form feed, carriage return.
pub open spec fn is_blank(b: u8) -> bool {
    b == 32 || b == 9 || b == 10 || b == 12 || b == 13
}

/// An ASCII decimal digit.
pub open spec fn is_digit(b: u8) -> bool {
    48 <= b <= 57
}

/// The number that a digit stands for; zero for any other byte.
pub open spec fn digit_value(b: u8) -> nat {
    if is_digit(b) {
        (b - 48) as nat
    } else {
        0
    }
}

/// The index of the first byte at or after `from` that is not blank, or the
/// length of `s` where all of them are.
pub open spec fn solid_start(s: Seq<u8>, from: int) -> int
    decreases s.len() - from,
{
    if 0 <= from < s.len() && is_blank(s[from]) {
        solid_start(s, from + 1)
    } else {
        from
    }
}

/// The index just behind the last byte of `s[from..to]` that is not blank, or
/// `from` where all of them are.
pub open spec fn solid_end(s: Seq<u8>, from: int, to: int) -> int
    decreases to - from,
{
    if from < to <= s.len() && is_blank(s[to - 1]) {
        solid_end(s, from, to - 1)
    } else {
        to
    }
}

/// `s` without the blanks at either end.
pub open spec fn trimmed(s: Seq<u8>) -> Seq<u8> {
    let from = solid_start(s, 0);
    s.subrange(from, solid_end(s, from, s.len() as int))
}

/// Every byte of `s` is a decimal digit.
pub open spec fn all_digits(s: Seq<u8>) -> bool {
    forall|i: int| 0 <= i < s.len() ==> is_digit(#[trigger] s[i])
}

/// The number that `s` denotes in base ten, most significant digit first.
pub open spec fn decimal_value(s: Seq<u8>) -> nat
    decreases s.len(),
{
    if s.len() == 0 {
        0
    } else {
        10 * decimal_value(s.drop_last()) + digit_value(s.last())
    }
}

/// `n` in base ten without leading zeros, as ASCII digits.
pub open spec fn decimal_text(n: nat) -> Seq<u8>
    decreases n,
{
    if n < 10 {
        seq![(48 + n) as u8]
    } else {
        decimal_text(n / 10).push((48 + n % 10) as u8)
    }
}

/// The meaning of the trimmed content of a pid file.
pub open spec fn record_of_text(t: Seq<u8>) -> PidRecord {
    if t.len() > 0 && all_digits(t) && decimal_value(t) <= PID_MAX {
        PidRecord::Present(decimal_value(t) as i32)
    } else {
        PidRecord::Corrupt
    }
}

/// The meaning of a pid file: `None` stands for a file that is not there.
///
/// Blanks around the number are not part of it. An empty or blank file holds
/// no number and is corrupt.
pub open spec fn record_of(content: Option<Seq<u8>>) -> PidRecord {
    match content {
        None => PidRecord::Absent,
        Some(c) => record_of_text(trimmed(c)),
    }
}

/// What a pid file holds after `pid` was recorded in it: the digits and a line
/// feed.
pub open spec fn recorded(pid: nat) -> Seq<u8> {
    decimal_text(pid).push(10u8)
}

/// A longer run of bytes never denotes less than one of its prefixes.
proof fn lemma_decimal_value_prefix(s: Seq<u8>, k: int)
    requires
        0 <= k <= s.len(),
    ensures
        decimal_value(s.take(k)) <= decimal_value(s),
    decreases s.len() - k,
{
    if k == s.len() {
        assert(s.take(k) =~= s);
    } else {
        lemma_decimal_value_prefix(s.drop_last(), k);
        assert(s.drop_last().take(k) =~= s.take(k));
    }
}

/// The digits of a number are digits, at least one, and denote the number.
pub proof fn lemma_decimal_text(n: nat)
    ensures
        decimal_text(n).len() > 0,
        all_digits(decimal_text(n)),
        decimal_value(decimal_text(n)) == n,
    decreases n,
{
    if n < 10 {
        let t = decimal_text(n);
        assert(t.len() == 1);
        assert(t.drop_last() =~= Seq::<u8>::empty());
        assert(decimal_value(t.drop_last()) == 0);
    } else {
        lemma_decimal_text(n / 10);
        let head = decimal_text(n / 10);
        let t = decimal_text(n);
        assert(t.drop_last() =~= head);
        assert(t.last() == (48 + n % 10) as u8);
        assert forall|i: int| 0 <= i < t.len() implies is_digit(#[trigger] t[i]) by {
            if i < head.len() {
                assert(t[i] == head[i]);
            }
        }
    }
}

/// Reading back what was recorded gives the process id that was recorded.
pub proof fn lemma_record_round_trip(pid: i32)
    requires
        pid >= 0,
    ensures
        record_of(Some(recorded(pid as nat))) == PidRecord::Present(pid),
{
    let digits = decimal_text(pid as nat);
    let c = recorded(pid as nat);
    lemma_decimal_text(pid as nat);
    assert(is_digit(digits[0]));
    assert(c[0] == digits[0]);
    assert(solid_start(c, 0) == 0);
    let n = c.len() as int;
    assert(c[n - 1] == 10u8);
    assert(is_digit(digits[n - 2]));
    assert(c[n - 2] == digits[n - 2]);
    assert(solid_end(c, 0, n - 1) == n - 1);
    assert(solid_end(c, 0, n) == n - 1);
    assert(trimmed(c) =~= digits);
}

/// Reads the content of a pid file.
pub fn parse_record(content: &[u8]) -> (record: PidRecord)
    ensures
        record == record_of(Some(content@)),
        record != PidRecord::Absent,
        record matches PidRecord::Present(pid) ==> pid >= 0,
{
    let len = content.len();
    let mut from: usize = 0;
    while from < len && blank(content[from])
        invariant
            from <= len == content@.len(),
            solid_start(content@, 0) == solid_start(content@, from as int),
        decreases len - from,
    {
        from += 1;
    }
    let mut to: usize = len;
    while from < to && blank(content[to - 1])
        invariant
            from <= to <= len == content@.len(),
            solid_end(content@, from as int, len as int) == solid_end(
                content@,
                from as int,
                to as int,
            ),
        decreases to - from,
    {
        to -= 1;
    }
    let ghost text = content@.subrange(from as int, to as int);
    assert(text == trimmed(content@));
    if from == to {
        return PidRecord::Corrupt;
    }
    let mut value: i32 = 0;
    let mut at: usize = from;
    while at < to
        invariant
            from <= at <= to <= len == content@.len(),
            text == content@.subrange(from as int, to as int),
            text == trimmed(content@),
            all_digits(text.take(at - from)),
            value == decimal_value(text.take(at - from)),
            0 <= value <= PID_MAX,
        decreases to - at,
    {
        let b = content[at];
        let ghost before = text.take(at - from);
        let ghost after = text.take(at - from + 1);
        proof {
            assert(after.drop_last() =~= before);
            assert(after.last() == b);
            lemma_decimal_value_prefix(text, at - from + 1);
        }
        if !(48 <= b && b <= 57) {
            assert(!is_digit(text[at - from]));
            return PidRecord::Corrupt;
        }
        let digit: i32 = (b - 48) as i32;
        if value > (PID_MAX - digit) / 10 {
            assert(decimal_value(after) == 10 * value + digit);
            assert(decimal_value(text) > PID_MAX);
            return PidRecord::Corrupt;
        }
        value = value * 10 + digit;
        assert forall|i: int| 0 <= i < after.len() implies is_digit(#[trigger] after[i]) by {
            if i < before.len() {
                assert(after[i] == before[i]);
            }
        }
        at += 1;
    }
    assert(text.take(to - from) =~= text);
    PidRecord::Present(value)
}

/// Reads a pid file that may not be there.
pub fn read_record(content: &Option<Vec<u8>>) -> (record: PidRecord)
    ensures
        record == record_of(content_view(*content)),
        record matches PidRecord::Present(pid) ==> pid >= 0,
{
    match content {
        None => PidRecord::Absent,
        Some(bytes) => parse_record(bytes.as_slice()),
    }
}

/// The content to persist so that the pid file records `pid`.
pub fn record_text(pid: i32) -> (text: Vec<u8>)
    requires
        pid >= 0,
    ensures
        text@ == recorded(pid as nat),
        record_of(Some(text@)) == PidRecord::Present(pid),
{
    let mut text: Vec<u8> = Vec::new();
    push_decimal(pid as u32, &mut text);
    text.push(10u8);
    proof {
        assert(text@ =~= recorded(pid as nat));
        lemma_record_round_trip(pid);
    }
    text
}

fn push_decimal(n: u32, out: &mut Vec<u8>)
    ensures
        final(out)@ == old(out)@ + decimal_text(n as nat),
    decreases n,
{
    if n >= 10 {
        push_decimal(n / 10, out);
    }
    let digit: u8 = (48 + n % 10) as u8;
    out.push(digit);
    assert(final(out)@ =~= old(out)@ + decimal_text(n as nat));
}

fn blank(b: u8) -> (r: bool)
    ensures
        r == is_blank(b),
{
    b == 32 || b == 9 || b == 10 || b == 12 || b == 13
}

} // verus!
