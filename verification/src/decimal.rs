//! Decimal numerals for synthesized field names.
//!
//! Positional fields get names of the form `field<index>`, so the index must
//! be rendered as its decimal numeral. The numeral is pinned down by a spec
//! function and the renderer is proved against it.

use vstd::prelude::*;
use vstd::string::StringExecFns;

verus! {

/// The one-character string for a single decimal digit.
pub open spec fn spec_digit(d: nat) -> Seq<char> {
    if d == 0 {
        "0"@
    } else if d == 1 {
        "1"@
    } else if d == 2 {
        "2"@
    } else if d == 3 {
        "3"@
    } else if d == 4 {
        "4"@
    } else if d == 5 {
        "5"@
    } else if d == 6 {
        "6"@
    } else if d == 7 {
        "7"@
    } else if d == 8 {
        "8"@
    } else {
        "9"@
    }
}

/// The decimal numeral of `n`, most significant digit first, no leading
/// zeros (except for `n == 0`, whose numeral is `0`).
pub open spec fn spec_decimal(n: nat) -> Seq<char>
    decreases n,
{
    if n < 10 {
        spec_digit(n)
    } else {
        spec_decimal(n / 10) + spec_digit(n % 10)
    }
}

proof fn lemma_digit_facts()
    ensures
        forall|d: nat| d < 10 ==> (#[trigger] spec_digit(d)).len() == 1,
        forall|d1: nat, d2: nat|
            d1 < 10 && d2 < 10 && d1 != d2 ==> spec_digit(d1)[0] != spec_digit(d2)[0],
{
    reveal_strlit("0");
    reveal_strlit("1");
    reveal_strlit("2");
    reveal_strlit("3");
    reveal_strlit("4");
    reveal_strlit("5");
    reveal_strlit("6");
    reveal_strlit("7");
    reveal_strlit("8");
    reveal_strlit("9");
}

proof fn lemma_decimal_len(n: nat)
    ensures
        spec_decimal(n).len() >= 1,
        n >= 10 ==> spec_decimal(n).len() >= 2,
    decreases n,
{
    lemma_digit_facts();
    if n >= 10 {
        lemma_decimal_len(n / 10);
    }
}

/// Distinct numbers have distinct numerals: the decimal rendering is
/// injective.
pub proof fn lemma_decimal_injective(m: nat, n: nat)
    requires
        spec_decimal(m) == spec_decimal(n),
    ensures
        m == n,
    decreases m,
{
    lemma_digit_facts();
    lemma_decimal_len(m);
    lemma_decimal_len(n);
    if m < 10 && n < 10 {
        if m != n {
            assert(spec_digit(m)[0] != spec_digit(n)[0]);
        }
    } else if m < 10 || n < 10 {
        // one numeral has one character, the other at least two
        assert(false);
    } else {
        let a = spec_decimal(m / 10);
        let b = spec_decimal(n / 10);
        let x = spec_digit(m % 10);
        let y = spec_digit(n % 10);
        assert(a.len() == b.len());
        assert((a + x)[a.len() as int] == x[0]);
        assert((b + y)[b.len() as int] == y[0]);
        if m % 10 != n % 10 {
            assert(spec_digit(m % 10)[0] != spec_digit(n % 10)[0]);
        }
        assert forall|i: int| 0 <= i < a.len() implies a[i] == b[i] by {
            assert((a + x)[i] == a[i]);
            assert((b + y)[i] == b[i]);
        }
        assert(a =~= b);
        lemma_decimal_injective(m / 10, n / 10);
    }
}

fn digit_str(d: usize) -> (r: &'static str)
    requires
        d < 10,
    ensures
        r@ == spec_digit(d as nat),
{
    match d {
        0 => "0",
        1 => "1",
        2 => "2",
        3 => "3",
        4 => "4",
        5 => "5",
        6 => "6",
        7 => "7",
        8 => "8",
        _ => "9",
    }
}

/// Renders `n` as its decimal numeral.
pub fn decimal_string(n: usize) -> (r: String)
    ensures
        r@ == spec_decimal(n as nat),
    decreases n,
{
    if n < 10 {
        String::from_str(digit_str(n))
    } else {
        let mut s = decimal_string(n / 10);
        s.append(digit_str(n % 10));
        s
    }
}

} // verus!
