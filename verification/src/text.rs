//! The small text vocabulary every screen shares: decimal digits, runs of one
//! character, and whether one piece of text occurs inside another.
//!
//! Every string the interface prints is built from these, so what a figure *is* on
//! screen can be stated once, as [`decimal`], and every caller proves against it.

use vstd::prelude::*;

verus! {

/// The character that writes the digit `d`.
pub open spec fn digit_char(d: nat) -> char {
    if d == 0 {
        '0'
    } else if d == 1 {
        '1'
    } else if d == 2 {
        '2'
    } else if d == 3 {
        '3'
    } else if d == 4 {
        '4'
    } else if d == 5 {
        '5'
    } else if d == 6 {
        '6'
    } else if d == 7 {
        '7'
    } else if d == 8 {
        '8'
    } else {
        '9'
    }
}

/// `n` written in base ten, most significant digit first, with no leading zero.
pub open spec fn decimal(n: nat) -> Seq<char>
    decreases n,
{
    if n < 10 {
        seq![digit_char(n)]
    } else {
        decimal(n / 10).push(digit_char(n % 10))
    }
}

/// `count` copies of `c`.
pub open spec fn repeated(c: char, count: nat) -> Seq<char> {
    Seq::new(count, |_i: int| c)
}

/// Whether `needle` occurs as a contiguous run somewhere inside `hay`.
pub open spec fn occurs_in(needle: Seq<char>, hay: Seq<char>) -> bool {
    exists|start: int|
        0 <= start && start + needle.len() <= hay.len() && #[trigger] hay.subrange(
            start,
            start + needle.len(),
        ) == needle
}

/// A decimal number is never empty, and it is only one character long below ten.
pub proof fn lemma_decimal_len(n: nat)
    ensures
        decimal(n).len() >= 1,
        n < 10 <==> decimal(n).len() == 1,
    decreases n,
{
    if n >= 10 {
        lemma_decimal_len(n / 10);
    }
}

/// The one-character string that writes the digit `d`.
pub(crate) fn digit(d: u64) -> (r: &'static str)
    requires
        d < 10,
    ensures
        r@ == seq![digit_char(d as nat)],
{
    proof {
        reveal_strlit("0");
        reveal_strlit("1");
        reveal_strlit("2");
        reveal_strlit("3");
        reveal_strlit("4");
        reveal_strlit("5");
        reveal_strlit("6");
        reveal_strlit("7");
        reveal_strlit("8");
        reveal_strlit("9");
    }
    if d == 0 {
        "0"
    } else if d == 1 {
        "1"
    } else if d == 2 {
        "2"
    } else if d == 3 {
        "3"
    } else if d == 4 {
        "4"
    } else if d == 5 {
        "5"
    } else if d == 6 {
        "6"
    } else if d == 7 {
        "7"
    } else if d == 8 {
        "8"
    } else {
        "9"
    }
}

/// `n` in base ten, as a [`String`].
pub fn decimal_string(n: u64) -> (s: String)
    ensures
        s@ == decimal(n as nat),
    decreases n,
{
    if n < 10 {
        digit(n).to_owned()
    } else {
        let mut s = decimal_string(n / 10);
        s.append(digit(n % 10));
        s
    }
}

/// Appends `count` spaces to `out`.
pub fn push_spaces(out: &mut String, count: usize)
    ensures
        final(out)@ == old(out)@ + repeated(' ', count as nat),
{
    proof {
        reveal_strlit(" ");
    }
    let ghost start = out@;
    let mut i: usize = 0;
    while i < count
        invariant
            i <= count,
            out@ == start + repeated(' ', i as nat),
        decreases count - i,
    {
        proof {
            reveal_strlit(" ");
        }
        out.append(" ");
        i = i + 1;
        assert(out@ =~= start + repeated(' ', i as nat));
    }
}

/// `count` copies of the one-character string `unit`, as a [`String`].
pub fn run_of(unit: &str, count: usize) -> (s: String)
    requires
        unit@.len() == 1,
    ensures
        s@ == repeated(unit@[0], count as nat),
{
    let mut s = String::new();
    let mut i: usize = 0;
    while i < count
        invariant
            i <= count,
            unit@.len() == 1,
            s@ == repeated(unit@[0], i as nat),
        decreases count - i,
    {
        s.append(unit);
        i = i + 1;
        assert(s@ =~= repeated(unit@[0], i as nat));
    }
    s
}

/// Whether `needle` occurs anywhere inside `hay`.
pub fn contains_text(hay: &str, needle: &str) -> (r: bool)
    ensures
        r == occurs_in(needle@, hay@),
{
    let h = hay.unicode_len();
    let n = needle.unicode_len();
    if n > h {
        proof {
            assert forall|start: int|
                0 <= start && start + needle@.len() <= hay@.len() implies #[trigger] hay@.subrange(
                start,
                start + needle@.len(),
            ) != needle@ by {}
        }
        return false;
    }
    let mut start: usize = 0;
    while start <= h - n
        invariant
            h == hay@.len(),
            n == needle@.len(),
            n <= h,
            start <= h - n + 1,
            forall|s: int|
                0 <= s < start ==> #[trigger] hay@.subrange(s, s + needle@.len()) != needle@,
        decreases h - n + 1 - start,
    {
        let mut k: usize = 0;
        let mut matched = true;
        while k < n
            invariant
                h == hay@.len(),
                n == needle@.len(),
                start + n <= h,
                k <= n,
                matched ==> forall|j: int| 0 <= j < k ==> hay@[start + j] == needle@[j],
                !matched ==> hay@.subrange(start as int, start + needle@.len()) != needle@,
            decreases n - k,
        {
            if hay.get_char(start + k) != needle.get_char(k) {
                matched = false;
                assert(hay@.subrange(start as int, start + needle@.len())[k as int] != needle@[k as int]);
            }
            k = k + 1;
        }
        if matched {
            assert(hay@.subrange(start as int, start + needle@.len()) =~= needle@);
            return true;
        }
        if start == h - n {
            return false;
        }
        start = start + 1;
    }
    false
}

/// Whether `a` and `b` are the same text, character for character.
pub fn same_text(a: &str, b: &str) -> (r: bool)
    ensures
        r == (a@ == b@),
{
    let n = a.unicode_len();
    if n != b.unicode_len() {
        return false;
    }
    let mut i: usize = 0;
    while i < n
        invariant
            n == a@.len(),
            n == b@.len(),
            i <= n,
            forall|j: int| 0 <= j < i ==> a@[j] == b@[j],
        decreases n - i,
    {
        if a.get_char(i) != b.get_char(i) {
            return false;
        }
        i = i + 1;
    }
    assert(a@ =~= b@);
    true
}

/// An owned copy of each of `lines`, in order.
pub fn owned_lines(lines: &[&str]) -> (out: Vec<String>)
    ensures
        out@.len() == lines@.len(),
        forall|i: int| 0 <= i < lines@.len() ==> #[trigger] out@[i]@ == lines@[i]@,
{
    let mut out: Vec<String> = Vec::new();
    let mut i: usize = 0;
    while i < lines.len()
        invariant
            i <= lines@.len(),
            out@.len() == i,
            forall|j: int| 0 <= j < i ==> #[trigger] out@[j]@ == lines@[j]@,
        decreases lines@.len() - i,
    {
        out.push(lines[i].to_owned());
        i = i + 1;
    }
    out
}

/// Appends an owned copy of each of `more` to `lines`.
pub fn extend_lines(lines: &mut Vec<String>, more: &[&str])
    ensures
        final(lines)@.len() == old(lines)@.len() + more@.len(),
        forall|i: int| 0 <= i < old(lines)@.len() ==> #[trigger] final(lines)@[i] == old(lines)@[i],
        forall|i: int|
            old(lines)@.len() <= i < final(lines)@.len() ==> #[trigger] final(lines)@[i]@ == more@[i
                - old(lines)@.len()]@,
{
    let ghost start = lines@;
    let mut i: usize = 0;
    while i < more.len()
        invariant
            i <= more@.len(),
            lines@.len() == start.len() + i,
            forall|j: int| 0 <= j < start.len() ==> #[trigger] lines@[j] == start[j],
            forall|j: int| start.len() <= j < lines@.len() ==> #[trigger] lines@[j]@ == more@[j - start.len()]@,
        decreases more@.len() - i,
    {
        lines.push(more[i].to_owned());
        i = i + 1;
    }
}

/// The text of each of `lines`, in order.
pub open spec fn views(lines: Seq<String>) -> Seq<Seq<char>> {
    lines.map_values(|line: String| line@)
}

/// Moves every one of `more` onto the end of `lines`, in order.
pub fn append_lines(lines: &mut Vec<String>, more: Vec<String>)
    ensures
        views(final(lines)@) == views(old(lines)@) + views(more@),
{
    let ghost start = lines@;
    let mut i: usize = 0;
    while i < more.len()
        invariant
            i <= more@.len(),
            views(lines@) == views(start) + views(more@.subrange(0, i as int)),
        decreases more@.len() - i,
    {
        let ghost before = lines@;
        lines.push(more[i].clone());
        proof {
            assert(more@.subrange(0, i + 1) =~= more@.subrange(0, i as int).push(more@[i as int]));
            assert(views(lines@) =~= views(before).push(more@[i as int]@));
            assert(views(more@.subrange(0, i + 1)) =~= views(more@.subrange(0, i as int)).push(
                more@[i as int]@,
            ));
            assert(views(lines@) =~= views(start) + views(more@.subrange(0, i + 1)));
        }
        i = i + 1;
    }
    assert(more@.subrange(0, more@.len() as int) =~= more@);
}

/// Appends one character to `s`: std's [`String::push`], which its documentation says
/// appends the given `char` to the end of the string — the contract claims exactly that
/// of the text, and nothing of the allocation.
#[verifier::external_body]
pub(crate) fn push_char(s: &mut String, c: char)
    ensures
        final(s)@ == old(s)@.push(c),
{
    s.push(c);
}

} // verus!
