//! Small operations on text that the messages and commands are built from.

use vstd::prelude::*;
use vstd::string::*;

verus! {

/// The text of each line of a list, in order.
pub open spec fn lines_of(lines: Seq<String>) -> Seq<Seq<char>> {
    lines.map_values(|line: String| line@)
}

/// The character that stands for a decimal digit.
pub open spec fn digit(d: nat) -> char
    recommends
        d < 10,
{
    if d == 0 {
        '0'
    } else if d == 1 {
        '1'
    } else if d == 2 {
        '2'
    } else if d == 3 {
        '3'
    } else if d == 4 {
        '4'
    } else if d == 5 {
        '5'
    } else if d == 6 {
        '6'
    } else if d == 7 {
        '7'
    } else if d == 8 {
        '8'
    } else {
        '9'
    }
}

/// A number written in base ten, most significant digit first, without
/// leading zeros.
pub open spec fn decimal(n: nat) -> Seq<char>
    decreases n,
{
    if n < 10 {
        seq![digit(n)]
    } else {
        decimal(n / 10).push(digit(n % 10))
    }
}

fn digit_text(d: u64) -> (text: &'static str)
    requires
        d < 10,
    ensures
        text@ == seq![digit(d as nat)],
{
    proof {
        reveal_strlit("0");
        reveal_strlit("1");
        reveal_strlit("2");
        reveal_strlit("3");
        reveal_strlit("4");
        reveal_strlit("5");
        reveal_strlit("6");
        reveal_strlit("7");
        reveal_strlit("8");
        reveal_strlit("9");
    }
    let text = if d == 0 {
        "0"
    } else if d == 1 {
        "1"
    } else if d == 2 {
        "2"
    } else if d == 3 {
        "3"
    } else if d == 4 {
        "4"
    } else if d == 5 {
        "5"
    } else if d == 6 {
        "6"
    } else if d == 7 {
        "7"
    } else if d == 8 {
        "8"
    } else {
        "9"
    };
    assert(text@ =~= seq![digit(d as nat)]);
    text
}

/// Writes `n` in base ten.
pub fn decimal_text(n: u64) -> (text: String)
    ensures
        text@ == decimal(n as nat),
    decreases n,
{
    if n < 10 {
        String::from_str(digit_text(n))
    } else {
        let mut text = decimal_text(n / 10);
        text.append(digit_text(n % 10));
        assert(text@ =~= decimal(n as nat));
        text
    }
}

/// Two pieces of text, one after the other.
pub fn join2(a: &str, b: &str) -> (text: String)
    ensures
        text@ == a@ + b@,
{
    let mut text = String::from_str(a);
    text.append(b);
    text
}

/// Three pieces of text, one after the other.
pub fn join3(a: &str, b: &str, c: &str) -> (text: String)
    ensures
        text@ == a@ + b@ + c@,
{
    let mut text = join2(a, b);
    text.append(c);
    text
}

/// Four pieces of text, one after the other.
pub fn join4(a: &str, b: &str, c: &str, d: &str) -> (text: String)
    ensures
        text@ == a@ + b@ + c@ + d@,
{
    let mut text = join3(a, b, c);
    text.append(d);
    text
}

/// A list of one text.
pub(crate) fn list1(a: &str) -> (list: Vec<String>)
    ensures
        lines_of(list@) == seq![a@],
{
    let mut list: Vec<String> = Vec::new();
    list.push(String::from_str(a));
    assert(lines_of(list@) =~= seq![a@]);
    list
}

/// A list of two texts.
pub(crate) fn list2(a: &str, b: &str) -> (list: Vec<String>)
    ensures
        lines_of(list@) == seq![a@, b@],
{
    let mut list: Vec<String> = Vec::new();
    list.push(String::from_str(a));
    list.push(String::from_str(b));
    assert(lines_of(list@) =~= seq![a@, b@]);
    list
}

/// A list of three texts.
pub(crate) fn list3(a: &str, b: &str, c: &str) -> (list: Vec<String>)
    ensures
        lines_of(list@) == seq![a@, b@, c@],
{
    let mut list: Vec<String> = Vec::new();
    list.push(String::from_str(a));
    list.push(String::from_str(b));
    list.push(String::from_str(c));
    assert(lines_of(list@) =~= seq![a@, b@, c@]);
    list
}

/// A list with one more text at its end.
pub(crate) fn with_line(list: Vec<String>, line: String) -> (longer: Vec<String>)
    ensures
        lines_of(longer@) == lines_of(list@).push(line@),
{
    let mut longer = list;
    longer.push(line);
    assert(lines_of(longer@) =~= lines_of(list@).push(line@));
    longer
}

/// A list of no text.
pub(crate) fn no_lines() -> (list: Vec<String>)
    ensures
        lines_of(list@) == Seq::<Seq<char>>::empty(),
{
    let list: Vec<String> = Vec::new();
    assert(lines_of(list@) =~= Seq::<Seq<char>>::empty());
    list
}

/// The characters of a text.
pub(crate) fn chars_of(text: &str) -> (chars: Vec<char>)
    ensures
        chars@ == text@,
{
    let len = text.unicode_len();
    let mut chars: Vec<char> = Vec::new();
    let mut i: usize = 0;
    while i < len
        invariant
            len == text@.len(),
            i <= len,
            chars@ == text@.subrange(0, i as int),
        decreases len - i,
    {
        chars.push(text.get_char(i));
        assert(chars@ =~= text@.subrange(0, i + 1));
        i += 1;
    }
    assert(text@.subrange(0, len as int) =~= text@);
    chars
}

/// Whether the part of `list` from `from` up to `to` reads `dir`.
pub(crate) fn same_span(list: &Vec<char>, from: usize, to: usize, dir: &Vec<char>) -> (same: bool)
    requires
        from <= to <= list@.len(),
    ensures
        same == (list@.subrange(from as int, to as int) == dir@),
{
    if to - from != dir.len() {
        return false;
    }
    let mut i: usize = 0;
    while i < dir.len()
        invariant
            from <= to <= list@.len(),
            to - from == dir@.len(),
            i <= dir@.len(),
            forall|j: int| 0 <= j < i ==> list@[from + j] == dir@[j],
        decreases dir@.len() - i,
    {
        if list[from + i] != dir[i] {
            assert(list@.subrange(from as int, to as int)[i as int] != dir@[i as int]);
            return false;
        }
        i += 1;
    }
    assert(list@.subrange(from as int, to as int) =~= dir@);
    true
}

/// Whether two pieces of text hold the same characters.
pub fn same_text(a: &str, b: &str) -> (same: bool)
    ensures
        same == (a@ == b@),
{
    let left = String::from_str(a);
    let right = String::from_str(b);
    left == right
}

} // verus!
