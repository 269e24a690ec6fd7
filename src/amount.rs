use vstd::prelude::*;

verus! {

/// `10^n`.
pub open spec fn pow10(n: nat) -> nat
    decreases n,
{
    if n == 0 {
        1
    } else {
        10 * pow10((n - 1) as nat)
    }
}

/// A whole-unit amount expressed in the asset's smallest units.
pub open spec fn scaled(amount: u64, decimals: u8) -> int {
    amount as int * pow10(decimals as nat) as int
}

proof fn lemma_pow10_positive(n: nat)
    ensures
        pow10(n) >= 1,
    decreases n,
{
    if n > 0 {
        lemma_pow10_positive((n - 1) as nat);
    }
}

proof fn lemma_pow10_monotone(m: nat, n: nat)
    requires
        m <= n,
    ensures
        pow10(m) <= pow10(n),
    decreases n - m,
{
    if m < n {
        lemma_pow10_monotone(m, (n - 1) as nat);
        lemma_pow10_positive((n - 1) as nat);
    }
}

/// `amount * 10^decimals`, or `None` where that leaves the range of `u64`.
pub fn scale(amount: u64, decimals: u8) -> (r: Option<u64>)
    ensures
        r == (if scaled(amount, decimals) <= u64::MAX {
            Some(scaled(amount, decimals) as u64)
        } else {
            None::<u64>
        }),
{
    let mut acc: u64 = amount;
    let mut i: u8 = 0;
    proof {
        reveal_with_fuel(pow10, 1);
        assert(pow10(0) == 1);
    }
    while i < decimals
        invariant
            i <= decimals,
            acc as int == amount as int * pow10(i as nat) as int,
        decreases decimals - i,
    {
        match acc.checked_mul(10) {
            Some(next) => {
                proof {
                    let p = pow10(i as nat);
                    assert(pow10((i + 1) as nat) == 10 * p);
                    assert(next as int == amount as int * (10 * p) as int) by (nonlinear_arith)
                        requires
                            acc as int == amount as int * p as int,
                            next as int == acc as int * 10,
                    ;
                }
                acc = next;
                i = i + 1;
            },
            None => {
                proof {
                    let p = pow10((i + 1) as nat);
                    let q = pow10(decimals as nat);
                    lemma_pow10_monotone((i + 1) as nat, decimals as nat);
                    assert(amount as int * p as int == acc as int * 10) by (nonlinear_arith)
                        requires
                            acc as int == amount as int * pow10(i as nat) as int,
                            p == 10 * pow10(i as nat),
                    ;
                    assert(amount as int * p as int <= amount as int * q as int)
                        by (nonlinear_arith)
                        requires
                            p <= q,
                    ;
                }
                return None;
            },
        }
    }
    Some(acc)
}

} // verus!
