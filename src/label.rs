//! Decimal text for the labels of the indicators.
use crate::fixed::{Fixed, SCALE};
use vstd::prelude::*;
use vstd::string::*;

verus! {

pub open spec fn digit_char(d: int) -> char {
    if d == 0 {
        '0'
    } else if d == 1 {
        '1'
    } else if d == 2 {
        '2'
    } else if d == 3 {
        '3'
    } else if d == 4 {
        '4'
    } else if d == 5 {
        '5'
    } else if d == 6 {
        '6'
    } else if d == 7 {
        '7'
    } else if d == 8 {
        '8'
    } else {
        '9'
    }
}

/// The decimal digits of `n`, without leading zeros.
pub open spec fn decimal(n: nat) -> Seq<char>
    decreases n,
{
    if n < 10 {
        seq![digit_char(n as int)]
    } else {
        decimal(n / 10).push(digit_char((n % 10) as int))
    }
}

/// The last `k` decimal digits of `n`, with leading zeros.
pub open spec fn padded(n: nat, k: nat) -> Seq<char>
    decreases k,
{
    if k == 0 {
        Seq::empty()
    } else {
        padded(n / 10, (k - 1) as nat).push(digit_char((n % 10) as int))
    }
}

/// `frac`, a fraction of `10^k`, with its trailing zeros dropped.
pub open spec fn fraction(frac: nat, k: nat) -> Seq<char>
    decreases k,
{
    if k == 0 || frac == 0 {
        Seq::empty()
    } else if frac % 10 == 0 {
        fraction(frac / 10, (k - 1) as nat)
    } else {
        padded(frac, k)
    }
}

/// A fixed-point number as the shortest decimal text: `-`, the whole part,
/// then `.` and the fraction when it is not zero.
pub open spec fn fixed_text(x: Fixed) -> Seq<char> {
    let a = if x.raw < 0 { -x.raw } else { x.raw as int };
    let sign = if x.raw < 0 { seq!['-'] } else { Seq::empty() };
    let frac = fraction((a % (SCALE as int)) as nat, 9);
    sign + decimal((a / (SCALE as int)) as nat) + if frac.len() == 0 { Seq::empty() } else { seq!['.'] + frac }
}

fn digit_str(d: u64) -> (r: &'static str)
    requires
        d < 10,
    ensures
        r@ == seq![digit_char(d as int)],
{
    proof {
        reveal_strlit("0");
        reveal_strlit("1");
        reveal_strlit("2");
        reveal_strlit("3");
        reveal_strlit("4");
        reveal_strlit("5");
        reveal_strlit("6");
        reveal_strlit("7");
        reveal_strlit("8");
        reveal_strlit("9");
    }
    if d == 0 {
        "0"
    } else if d == 1 {
        "1"
    } else if d == 2 {
        "2"
    } else if d == 3 {
        "3"
    } else if d == 4 {
        "4"
    } else if d == 5 {
        "5"
    } else if d == 6 {
        "6"
    } else if d == 7 {
        "7"
    } else if d == 8 {
        "8"
    } else {
        "9"
    }
}

/// Appends the decimal digits of `n`.
pub fn push_decimal(s: &mut String, n: u64)
    ensures
        final(s)@ == old(s)@ + decimal(n as nat),
    decreases n,
{
    if n >= 10 {
        push_decimal(s, n / 10);
    }
    s.append(digit_str(n % 10));
    proof {
        assert(final(s)@ =~= old(s)@ + decimal(n as nat));
    }
}

fn push_padded(s: &mut String, n: u64, k: u32)
    ensures
        final(s)@ == old(s)@ + padded(n as nat, k as nat),
    decreases k,
{
    if k > 0 {
        push_padded(s, n / 10, k - 1);
        s.append(digit_str(n % 10));
    }
    proof {
        assert(final(s)@ =~= old(s)@ + padded(n as nat, k as nat));
    }
}

/// Appends `x` as `fixed_text` gives it.
pub fn push_fixed(s: &mut String, x: Fixed)
    ensures
        final(s)@ == old(s)@ + fixed_text(x),
{
    proof {
        reveal_strlit("-");
        reveal_strlit(".");
    }
    let a: u64 = if x.raw < 0 { (-(x.raw as i128)) as u64 } else { x.raw as u64 };
    if x.raw < 0 {
        s.append("-");
    }
    push_decimal(s, a / SCALE as u64);
    let mut frac: u64 = a % SCALE as u64;
    let mut k: u32 = 9;
    while k > 0 && frac != 0 && frac % 10 == 0
        invariant
            k <= 9,
            fraction(frac as nat, k as nat) == fraction(((a as int) % (SCALE as int)) as nat, 9),
        decreases k,
    {
        frac = frac / 10;
        k = k - 1;
    }
    if k > 0 && frac != 0 {
        s.append(".");
        push_padded(s, frac, k);
    }
    proof {
        let f = fraction(((a as int) % (SCALE as int)) as nat, 9);
        if k > 0 && frac != 0 {
            assert(f == padded(frac as nat, k as nat));
            assert(f.len() == k) by {
                lemma_padded_len(frac as nat, k as nat);
            }
        } else {
            assert(f.len() == 0);
        }
        assert(final(s)@ =~= old(s)@ + fixed_text(x));
    }
}

proof fn lemma_padded_len(n: nat, k: nat)
    ensures
        padded(n, k).len() == k,
    decreases k,
{
    if k > 0 {
        lemma_padded_len(n / 10, (k - 1) as nat);
    }
}

/// `name(` followed by `n` and `)`.
pub fn label1(name: &str, n: u32) -> (r: String)
    ensures
        r@ == name@ + seq!['('] + decimal(n as nat) + seq![')'],
{
    proof {
        reveal_strlit("(");
        reveal_strlit(")");
    }
    let mut s = String::from_str(name);
    s.append("(");
    push_decimal(&mut s, n as u64);
    s.append(")");
    proof {
        assert(s@ =~= name@ + seq!['('] + decimal(n as nat) + seq![')']);
    }
    s
}

/// `name(` followed by `a`, `, `, `b` and `)`.
pub fn label2(name: &str, a: u32, b: u32) -> (r: String)
    ensures
        r@ == name@ + seq!['('] + decimal(a as nat) + seq![',', ' '] + decimal(b as nat) + seq![')'],
{
    proof {
        reveal_strlit("(");
        reveal_strlit(", ");
        reveal_strlit(")");
    }
    let mut s = String::from_str(name);
    s.append("(");
    push_decimal(&mut s, a as u64);
    s.append(", ");
    push_decimal(&mut s, b as u64);
    s.append(")");
    proof {
        assert(s@ =~= name@ + seq!['('] + decimal(a as nat) + seq![',', ' '] + decimal(b as nat) + seq![')']);
    }
    s
}

/// `name(` followed by `a`, `b` and `c` separated by `, `, and `)`.
pub fn label3(name: &str, a: u32, b: u32, c: u32) -> (r: String)
    ensures
        r@ == name@ + seq!['('] + decimal(a as nat) + seq![',', ' '] + decimal(b as nat) + seq![',', ' ']
            + decimal(c as nat) + seq![')'],
{
    proof {
        reveal_strlit("(");
        reveal_strlit(", ");
        reveal_strlit(")");
    }
    let mut s = String::from_str(name);
    s.append("(");
    push_decimal(&mut s, a as u64);
    s.append(", ");
    push_decimal(&mut s, b as u64);
    s.append(", ");
    push_decimal(&mut s, c as u64);
    s.append(")");
    proof {
        assert(s@ =~= name@ + seq!['('] + decimal(a as nat) + seq![',', ' '] + decimal(b as nat) + seq![
            ',',
            ' ',
        ] + decimal(c as nat) + seq![')']);
    }
    s
}

} // verus!
