//! Text building blocks of the diagnostic messages: decimal numerals and
//! separator-joined lists, each as a spec function on sequences of characters
//! and as verified executable code that computes it.

use vstd::prelude::*;
use vstd::string::StringExecFns;

verus! {

/// The character that writes the digit `d` in base ten; meaningful for `d < 10`.
pub open spec fn digit_char(d: nat) -> char {
    seq!['0', '1', '2', '3', '4', '5', '6', '7', '8', '9'][d as int]
}

/// The decimal numeral of `n`, most significant digit first, without leading
/// zeros; zero is written as the single digit `0`.
pub open spec fn decimal(n: nat) -> Seq<char>
    decreases n,
{
    if n < 10 {
        seq![digit_char(n)]
    } else {
        decimal(n / 10).push(digit_char(n % 10))
    }
}

/// The number that the character `c` stands for where it is a digit: its
/// distance from the character `0`.
pub open spec fn digit_value(c: char) -> int {
    c as int - '0' as int
}

/// The number that a sequence of digits denotes in base ten, read with the
/// most significant digit first.
pub open spec fn numeral_value(digits: Seq<char>) -> int
    decreases digits.len(),
{
    if digits.len() == 0 {
        0
    } else {
        10 * numeral_value(digits.drop_last()) + digit_value(digits.last())
    }
}

/// The decimal numeral of `n` is a numeral of `n`: it is not empty, it
/// holds digits only, it does not begin with a zero unless it is the single
/// digit of zero, and the number that it denotes is `n`.
pub proof fn decimal_denotes(n: nat)
    ensures
        decimal(n).len() >= 1,
        forall|i: int|
            0 <= i < decimal(n).len() ==> 0 <= digit_value(#[trigger] decimal(n)[i]) <= 9,
        n > 0 ==> decimal(n)[0] != '0',
        numeral_value(decimal(n)) == n,
    decreases n,
{
    if n < 10 {
        assert(numeral_value(decimal(n)) == 10 * numeral_value(decimal(n).drop_last())
            + digit_value(decimal(n).last()));
    } else {
        decimal_denotes(n / 10);
        assert(decimal(n).drop_last() =~= decimal(n / 10));
    }
}

/// The one-character string that writes the digit `d`.
fn digit_str(d: u16) -> (s: &'static str)
    requires
        d < 10,
    ensures
        s@ == seq![digit_char(d as nat)],
{
    proof {
        reveal_strlit("0");
        reveal_strlit("1");
        reveal_strlit("2");
        reveal_strlit("3");
        reveal_strlit("4");
        reveal_strlit("5");
        reveal_strlit("6");
        reveal_strlit("7");
        reveal_strlit("8");
        reveal_strlit("9");
    }
    let s: &'static str = match d {
        0 => "0",
        1 => "1",
        2 => "2",
        3 => "3",
        4 => "4",
        5 => "5",
        6 => "6",
        7 => "7",
        8 => "8",
        _ => "9",
    };
    s
}

/// Writes `n` in decimal.
pub fn decimal_string(n: u16) -> (s: String)
    ensures
        s@ == decimal(n as nat),
    decreases n,
{
    if n < 10 {
        String::from_str(digit_str(n))
    } else {
        let mut s = decimal_string(n / 10);
        s.append(digit_str(n % 10));
        s
    }
}

/// The items of `parts` in their order, with `separator` between each two
/// neighbours: nothing before the first item, nothing after the last one, and
/// the empty text where there is no item.
pub open spec fn joined(parts: Seq<Seq<char>>, separator: Seq<char>) -> Seq<char>
    decreases parts.len(),
{
    if parts.len() == 0 {
        Seq::empty()
    } else if parts.len() == 1 {
        parts[0]
    } else {
        joined(parts.drop_last(), separator) + separator + parts.last()
    }
}

/// A join reads the same from the front as from the back: where there are
/// two items or more, it is the first item, the separator, and the join of
/// the items after the first.
pub proof fn joined_from_front(parts: Seq<Seq<char>>, separator: Seq<char>)
    requires
        parts.len() >= 2,
    ensures
        joined(parts, separator) == parts[0] + separator + joined(parts.skip(1), separator),
    decreases parts.len(),
{
    let front = parts.drop_last();
    let rest = parts.skip(1);
    if parts.len() == 2 {
        assert(joined(front, separator) == parts[0]);
    } else {
        joined_from_front(front, separator);
        assert(front.skip(1) =~= rest.drop_last());
    }
}

/// Joins `parts` with `separator`.
pub fn join(parts: &Vec<String>, separator: &str) -> (s: String)
    ensures
        s@ == joined(parts.deep_view(), separator@),
{
    let mut s = String::new();
    let mut i: usize = 0;
    while i < parts.len()
        invariant
            i <= parts.len(),
            s@ == joined(parts.deep_view().take(i as int), separator@),
        decreases parts.len() - i,
    {
        proof {
            let before = parts.deep_view().take(i as int);
            let after = parts.deep_view().take(i + 1);
            assert(after.drop_last() =~= before);
        }
        if i > 0 {
            s.append(separator);
        }
        s.append(parts[i].as_str());
        i += 1;
    }
    assert(parts.deep_view().take(i as int) =~= parts.deep_view());
    s
}

} // verus!
