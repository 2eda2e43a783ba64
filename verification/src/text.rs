//! Text building blocks shared by the rest of the crate: decimal rendering of
//! integers, joining of argument lists and copying of line lists, each with an
//! exact description of the characters produced.

use vstd::prelude::*;
use vstd::string::*;

verus! {

/// The character that stands for the decimal digit `d`.
pub open spec fn digit(d: nat) -> char {
    if d == 0 {
        '0'
    } else if d == 1 {
        '1'
    } else if d == 2 {
        '2'
    } else if d == 3 {
        '3'
    } else if d == 4 {
        '4'
    } else if d == 5 {
        '5'
    } else if d == 6 {
        '6'
    } else if d == 7 {
        '7'
    } else if d == 8 {
        '8'
    } else {
        '9'
    }
}

/// The decimal numeral of `n`, most significant digit first, without padding.
pub open spec fn decimal(n: nat) -> Seq<char>
    decreases n,
{
    if n < 10 {
        seq![digit(n)]
    } else {
        decimal(n / 10).push(digit(n % 10))
    }
}

/// The decimal numeral of `v`, with a leading minus sign when `v` is negative.
pub open spec fn signed_decimal(v: int) -> Seq<char> {
    if v < 0 {
        seq!['-'] + decimal((-v) as nat)
    } else {
        decimal(v as nat)
    }
}

/// The character contents of each text of a list.
pub open spec fn texts(parts: Seq<&str>) -> Seq<Seq<char>> {
    parts.map_values(|s: &str| s@)
}

/// The character contents of each line of a list.
pub open spec fn lines(parts: Seq<String>) -> Seq<Seq<char>> {
    parts.map_values(|s: String| s@)
}

/// The texts of `parts`, in order, with `sep` between neighbours.
pub open spec fn joined(parts: Seq<Seq<char>>, sep: Seq<char>) -> Seq<char>
    decreases parts.len(),
{
    if parts.len() == 0 {
        Seq::empty()
    } else if parts.len() == 1 {
        parts[0]
    } else {
        joined(parts.drop_last(), sep) + sep + parts.last()
    }
}

fn digit_text(d: u8) -> (t: &'static str)
    requires
        d < 10,
    ensures
        t@ == seq![digit(d as nat)],
{
    let t: &'static str = match d {
        0 => "0",
        1 => "1",
        2 => "2",
        3 => "3",
        4 => "4",
        5 => "5",
        6 => "6",
        7 => "7",
        8 => "8",
        _ => "9",
    };
    proof {
        reveal_strlit("0");
        reveal_strlit("1");
        reveal_strlit("2");
        reveal_strlit("3");
        reveal_strlit("4");
        reveal_strlit("5");
        reveal_strlit("6");
        reveal_strlit("7");
        reveal_strlit("8");
        reveal_strlit("9");
        assert(t@ =~= seq![digit(d as nat)]);
    }
    t
}

/// Appends the decimal numeral of `n` to `out`.
pub fn push_decimal(out: &mut String, n: u64)
    ensures
        final(out)@ == old(out)@ + decimal(n as nat),
    decreases n,
{
    if n >= 10 {
        push_decimal(out, n / 10);
    }
    let low: u8 = (n % 10) as u8;
    out.append(digit_text(low));
    proof {
        if n >= 10 {
            assert(final(out)@ =~= old(out)@ + decimal(n as nat));
        } else {
            assert(final(out)@ =~= old(out)@ + decimal(n as nat));
        }
    }
}

/// Appends the decimal numeral of `v`, with its sign, to `out`.
pub fn push_signed_decimal(out: &mut String, v: i32)
    ensures
        final(out)@ == old(out)@ + signed_decimal(v as int),
{
    let wide: i64 = v as i64;
    if wide < 0 {
        out.append("-");
        proof {
            reveal_strlit("-");
            assert("-"@ =~= seq!['-']);
        }
        let magnitude: u64 = (-wide) as u64;
        push_decimal(out, magnitude);
        assert(final(out)@ =~= old(out)@ + signed_decimal(v as int));
    } else {
        push_decimal(out, wide as u64);
    }
}

/// The texts of `parts` joined by single spaces.
pub fn join_with_spaces(parts: &[&str]) -> (out: String)
    ensures
        out@ == joined(texts(parts@), " "@),
{
    let mut out = String::new();
    let mut i: usize = 0;
    while i < parts.len()
        invariant
            i <= parts.len(),
            out@ == joined(texts(parts@).take(i as int), " "@),
        decreases parts.len() - i,
    {
        let ghost before = texts(parts@).take(i as int);
        let ghost after = texts(parts@).take(i + 1);
        proof {
            assert(after.drop_last() =~= before);
            assert(after.last() == parts@[i as int]@);
        }
        if i > 0 {
            out.append(" ");
        }
        out.append(parts[i]);
        proof {
            if i == 0 {
                assert(out@ =~= joined(after, " "@));
            } else {
                assert(out@ =~= joined(after, " "@));
            }
        }
        i = i + 1;
    }
    proof {
        assert(texts(parts@).take(parts.len() as int) =~= texts(parts@));
    }
    out
}

/// An owned copy of each text of `parts`, in order.
pub fn owned_texts(parts: &[&str]) -> (out: Vec<String>)
    ensures
        lines(out@) == texts(parts@),
{
    let mut out: Vec<String> = Vec::new();
    let mut i: usize = 0;
    while i < parts.len()
        invariant
            i <= parts.len(),
            out@.len() == i,
            forall|j: int| 0 <= j < i ==> (#[trigger] out@[j])@ == parts@[j]@,
        decreases parts.len() - i,
    {
        out.push(String::from_str(parts[i]));
        i = i + 1;
    }
    assert(lines(out@) =~= texts(parts@));
    out
}

/// A copy of each line of `source`, in order.
pub fn copy_lines(source: &Vec<String>) -> (out: Vec<String>)
    ensures
        lines(out@) == lines(source@),
{
    let mut out: Vec<String> = Vec::new();
    let mut i: usize = 0;
    while i < source.len()
        invariant
            i <= source.len(),
            out@.len() == i,
            forall|j: int| 0 <= j < i ==> (#[trigger] out@[j])@ == source@[j]@,
        decreases source.len() - i,
    {
        out.push(source[i].clone());
        i = i + 1;
    }
    assert(lines(out@) =~= lines(source@));
    out
}

} // verus!
