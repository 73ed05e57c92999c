//! Decimal rendering of unsigned integers: the plain form and a form
//! zero-padded to nine digits, as used for subsecond nanoseconds.

use vstd::prelude::*;
use vstd::string::*;

verus! {

/// The character for a single decimal digit.
pub open spec fn dec_digit(d: nat) -> char {
    if d == 0 {
        '0'
    } else if d == 1 {
        '1'
    } else if d == 2 {
        '2'
    } else if d == 3 {
        '3'
    } else if d == 4 {
        '4'
    } else if d == 5 {
        '5'
    } else if d == 6 {
        '6'
    } else if d == 7 {
        '7'
    } else if d == 8 {
        '8'
    } else {
        '9'
    }
}

/// Decimal representation of a natural number, most significant digit
/// first, with no leading zeros (except for zero itself).
pub open spec fn dec_str(n: nat) -> Seq<char>
    decreases n,
{
    if n < 10 {
        seq![dec_digit(n)]
    } else {
        dec_str(n / 10).push(dec_digit(n % 10))
    }
}

pub open spec fn pow10(k: nat) -> nat
    decreases k,
{
    if k == 0 {
        1
    } else {
        10 * pow10((k - 1) as nat)
    }
}

pub proof fn lemma_pow10_9()
    ensures
        pow10(9) == 1_000_000_000,
{
    assert(pow10(0) == 1);
    assert(pow10(1) == 10);
    assert(pow10(2) == 100);
    assert(pow10(3) == 1000);
    assert(pow10(4) == 10000);
    assert(pow10(5) == 100000);
    assert(pow10(6) == 1000000);
    assert(pow10(7) == 10000000);
    assert(pow10(8) == 100000000);
    assert(pow10(9) == 1000000000);
}

/// A number below `pow10(k)` needs at most `k` decimal digits.
pub proof fn lemma_dec_str_len(n: nat, k: nat)
    requires
        1 <= k,
        n < pow10(k),
    ensures
        dec_str(n).len() <= k,
    decreases k,
{
    if n < 10 {
    } else {
        assert(pow10(0) == 1);
        assert(pow10(1) == 10);
        assert(k >= 2) by {
            if k == 1 {
                assert(n < 10);
            }
        }
        let p = pow10((k - 1) as nat);
        assert(pow10(k) == 10 * p);
        assert(p >= 1) by {
            lemma_pow10_pos((k - 1) as nat);
        }
        assert(n / 10 < p) by (nonlinear_arith)
            requires
                n < 10 * p,
                p >= 1,
        ;
        lemma_dec_str_len(n / 10, (k - 1) as nat);
    }
}

pub proof fn lemma_pow10_pos(k: nat)
    ensures
        pow10(k) >= 1,
    decreases k,
{
    if k > 0 {
        lemma_pow10_pos((k - 1) as nat);
    }
}

/// The decimal digits of `n`, zero-padded on the left to nine places.
pub open spec fn dec_str_pad9(n: nat) -> Seq<char> {
    Seq::new((9 - dec_str(n).len()) as nat, |j: int| '0') + dec_str(n)
}

fn dec_digit_str(d: u64) -> (r: &'static str)
    requires
        d < 10,
    ensures
        r@ == seq![dec_digit(d as nat)],
{
    if d == 0 {
        proof {
            reveal_strlit("0");
            assert("0"@ =~= seq![dec_digit(d as nat)]);
        }
        "0"
    } else if d == 1 {
        proof {
            reveal_strlit("1");
            assert("1"@ =~= seq![dec_digit(d as nat)]);
        }
        "1"
    } else if d == 2 {
        proof {
            reveal_strlit("2");
            assert("2"@ =~= seq![dec_digit(d as nat)]);
        }
        "2"
    } else if d == 3 {
        proof {
            reveal_strlit("3");
            assert("3"@ =~= seq![dec_digit(d as nat)]);
        }
        "3"
    } else if d == 4 {
        proof {
            reveal_strlit("4");
            assert("4"@ =~= seq![dec_digit(d as nat)]);
        }
        "4"
    } else if d == 5 {
        proof {
            reveal_strlit("5");
            assert("5"@ =~= seq![dec_digit(d as nat)]);
        }
        "5"
    } else if d == 6 {
        proof {
            reveal_strlit("6");
            assert("6"@ =~= seq![dec_digit(d as nat)]);
        }
        "6"
    } else if d == 7 {
        proof {
            reveal_strlit("7");
            assert("7"@ =~= seq![dec_digit(d as nat)]);
        }
        "7"
    } else if d == 8 {
        proof {
            reveal_strlit("8");
            assert("8"@ =~= seq![dec_digit(d as nat)]);
        }
        "8"
    } else {
        proof {
            reveal_strlit("9");
            assert("9"@ =~= seq![dec_digit(d as nat)]);
        }
        "9"
    }
}

/// Renders `n` in decimal.
pub fn u64_to_dec(n: u64) -> (r: String)
    ensures
        r@ == dec_str(n as nat),
    decreases n,
{
    if n < 10 {
        String::from_str(dec_digit_str(n))
    } else {
        proof {
            assert(n / 10 < n) by (nonlinear_arith)
                requires
                    n >= 10,
            ;
        }
        let prefix = u64_to_dec(n / 10);
        let digit = dec_digit_str(n % 10);
        let r = prefix.concat(digit);
        proof {
            assert((n / 10) as nat == (n as nat) / 10);
            assert((n % 10) as nat == (n as nat) % 10);
            assert(r@ =~= dec_str((n as nat) / 10).push(dec_digit((n as nat) % 10)));
        }
        r
    }
}

/// Renders `n` in decimal, zero-padded on the left to nine digits.
pub fn u64_to_dec_pad9(n: u64) -> (r: String)
    requires
        n < 1_000_000_000,
    ensures
        r@ == dec_str_pad9(n as nat),
{
    let digits = u64_to_dec(n);
    let len = digits.as_str().unicode_len();
    proof {
        lemma_pow10_9();
        lemma_dec_str_len(n as nat, 9);
    }
    let mut r = String::new();
    let mut i: usize = len;
    while i < 9
        invariant
            len == dec_str(n as nat).len(),
            len <= i <= 9,
            r@ =~= Seq::new((i - len) as nat, |j: int| '0'),
        decreases 9 - i,
    {
        r.append("0");
        proof {
            reveal_strlit("0");
            assert(r@ =~= Seq::new((i + 1 - len) as nat, |j: int| '0'));
        }
        i = i + 1;
    }
    let r = r.concat(digits.as_str());
    proof {
        assert(r@ =~= dec_str_pad9(n as nat));
    }
    r
}

} // verus!
