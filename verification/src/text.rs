//! Decimal notation and the "N units, M units" phrases that the elapsed-time
//! descriptions are made of.

use vstd::prelude::*;

verus! {

/// The character that writes the decimal digit `d` (for `d < 10`).
pub open spec fn digit_char(d: nat) -> char {
    if d == 0 {
        '0'
    } else if d == 1 {
        '1'
    } else if d == 2 {
        '2'
    } else if d == 3 {
        '3'
    } else if d == 4 {
        '4'
    } else if d == 5 {
        '5'
    } else if d == 6 {
        '6'
    } else if d == 7 {
        '7'
    } else if d == 8 {
        '8'
    } else {
        '9'
    }
}

/// The decimal notation of `n`: most significant digit first, no leading zeros
/// (so `0` is written "0").
pub open spec fn decimal(n: nat) -> Seq<char>
    decreases n,
{
    if n < 10 {
        seq![digit_char(n)]
    } else {
        decimal(n / 10).push(digit_char(n % 10))
    }
}

/// "N unit" when `n` is 1, "N units" otherwise, with N in decimal.
pub open spec fn count_phrase(n: u32, unit: Seq<char>) -> Seq<char> {
    decimal(n as nat) + seq![' '] + unit + (if n == 1 {
        Seq::<char>::empty()
    } else {
        seq!['s']
    })
}

/// Appends the phrase for `n` units to a comma separated list: nothing for a
/// count of zero, the bare phrase on an empty list, else ", " and the phrase.
pub open spec fn with_count(list: Seq<char>, n: u32, unit: Seq<char>) -> Seq<char> {
    if n == 0 {
        list
    } else if list.len() == 0 {
        count_phrase(n, unit)
    } else {
        list + seq![',', ' '] + count_phrase(n, unit)
    }
}

/// Decimal notation is never empty.
pub proof fn lemma_decimal_nonempty(n: nat)
    ensures
        decimal(n).len() > 0,
    decreases n,
{
    if n >= 10 {
        lemma_decimal_nonempty(n / 10);
    }
}

/// Adding a non-zero count to a list leaves it non-empty, and a non-empty
/// list stays non-empty.
pub broadcast proof fn lemma_with_count_grows(list: Seq<char>, n: u32, unit: Seq<char>)
    ensures
        (n != 0 || list.len() > 0) ==> #[trigger] with_count(list, n, unit).len() > 0,
{
    lemma_decimal_nonempty(n as nat);
}

/// The value of a decimal digit character.
pub open spec fn digit_value(c: char) -> int {
    c as int - '0' as int
}

/// The number that a string of decimal digits writes, most significant
/// digit first.
pub open spec fn decimal_value(digits: Seq<char>) -> int
    decreases digits.len(),
{
    if digits.len() == 0 {
        0
    } else {
        decimal_value(digits.drop_last()) * 10 + digit_value(digits.last())
    }
}

proof fn lemma_digit_char(d: nat)
    requires
        d < 10,
    ensures
        digit_value(digit_char(d)) == d,
        '0' <= digit_char(d) <= '9',
{
    assert('0' as int == 48);
    assert('9' as int == 57);
    if d == 0 {
    } else if d == 1 {
        assert('1' as int == 49);
    } else if d == 2 {
        assert('2' as int == 50);
    } else if d == 3 {
        assert('3' as int == 51);
    } else if d == 4 {
        assert('4' as int == 52);
    } else if d == 5 {
        assert('5' as int == 53);
    } else if d == 6 {
        assert('6' as int == 54);
    } else if d == 7 {
        assert('7' as int == 55);
    } else if d == 8 {
        assert('8' as int == 56);
    }
}

/// Law: the decimal notation of `n` is a non-empty string of the digits '0'
/// to '9' that reads back as `n`, and it starts with '0' only for zero.
pub proof fn law_decimal_reads_back(n: nat)
    ensures
        decimal(n).len() > 0,
        forall|i: int| 0 <= i < decimal(n).len() ==> '0' <= #[trigger] decimal(n)[i] <= '9',
        decimal_value(decimal(n)) == n,
        decimal(n)[0] == '0' ==> n == 0,
    decreases n,
{
    lemma_digit_char(n % 10);
    let d = decimal(n);
    if n >= 10 {
        law_decimal_reads_back(n / 10);
        assert(d.drop_last() =~= decimal(n / 10));
        assert(d[0] == decimal(n / 10)[0]);
        vstd::arithmetic::div_mod::lemma_fundamental_div_mod(n as int, 10);
        assert(d.last() == digit_char(n % 10));
        assert(decimal_value(d) == decimal_value(decimal(n / 10)) * 10 + digit_value(d.last()));
    } else {
        assert(decimal_value(d) == decimal_value(d.drop_last()) * 10 + digit_value(d.last()));
        assert(d.drop_last() =~= Seq::<char>::empty());
        lemma_digit_char(n);
    }
}

/// Law: one unit is named in the singular ("1 day"), any other count in the
/// plural ("3 days"), the count written in decimal and followed by a space.
pub proof fn law_count_phrase(n: u32, unit: Seq<char>)
    ensures
        n == 1 ==> count_phrase(n, unit) =~= seq!['1', ' '] + unit,
        n != 1 ==> count_phrase(n, unit) =~= decimal(n as nat) + seq![' '] + unit + seq!['s'],
{
}

fn digit_str(d: u32) -> (s: &'static str)
    requires
        d < 10,
    ensures
        s@ == seq![digit_char(d as nat)],
{
    match d {
        0 => {
            proof {
                reveal_strlit("0");
            }
            "0"
        },
        1 => {
            proof {
                reveal_strlit("1");
            }
            "1"
        },
        2 => {
            proof {
                reveal_strlit("2");
            }
            "2"
        },
        3 => {
            proof {
                reveal_strlit("3");
            }
            "3"
        },
        4 => {
            proof {
                reveal_strlit("4");
            }
            "4"
        },
        5 => {
            proof {
                reveal_strlit("5");
            }
            "5"
        },
        6 => {
            proof {
                reveal_strlit("6");
            }
            "6"
        },
        7 => {
            proof {
                reveal_strlit("7");
            }
            "7"
        },
        8 => {
            proof {
                reveal_strlit("8");
            }
            "8"
        },
        _ => {
            proof {
                reveal_strlit("9");
            }
            "9"
        },
    }
}

/// Appends the decimal notation of `n` to `out`.
pub fn push_decimal(out: &mut String, n: u32)
    ensures
        final(out)@ == old(out)@ + decimal(n as nat),
    decreases n,
{
    if n >= 10 {
        push_decimal(out, n / 10);
        out.append(digit_str(n % 10));
        assert(out@ =~= old(out)@ + decimal(n as nat));
    } else {
        out.append(digit_str(n));
        assert(out@ =~= old(out)@ + decimal(n as nat));
    }
}

/// Appends to the comma separated list in `out` the phrase for `n` units of
/// `unit` (nothing when `n` is zero).
pub fn push_count(out: &mut String, n: u32, unit: &str)
    ensures
        final(out)@ == with_count(old(out)@, n, unit@),
{
    if n == 0 {
        return;
    }
    if !out.as_str().is_empty() {
        proof {
            reveal_strlit(", ");
        }
        out.append(", ");
    }
    push_decimal(out, n);
    proof {
        reveal_strlit(" ");
    }
    out.append(" ");
    out.append(unit);
    if n != 1 {
        proof {
            reveal_strlit("s");
        }
        out.append("s");
    }
    assert(out@ =~= with_count(old(out)@, n, unit@));
}

} // verus!
