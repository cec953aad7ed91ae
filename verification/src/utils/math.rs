use vstd::prelude::*;

verus! {

/// `r` is the square root of `n`, rounded down.
pub open spec fn is_floor_sqrt(n: int, r: int) -> bool {
    0 <= r && r * r <= n < (r + 1) * (r + 1)
}

/// The square root of `n`, rounded down.
pub open spec fn floor_sqrt(n: nat) -> nat {
    choose|r: nat| is_floor_sqrt(n as int, r as int)
}

/// A number has at most one rounded-down square root.
pub proof fn lemma_floor_sqrt_unique(n: int, r1: int, r2: int)
    requires
        is_floor_sqrt(n, r1),
        is_floor_sqrt(n, r2),
    ensures
        r1 == r2,
{
    assert(r1 == r2) by (nonlinear_arith)
        requires
            0 <= r1,
            0 <= r2,
            r1 * r1 <= n < (r1 + 1) * (r1 + 1),
            r2 * r2 <= n < (r2 + 1) * (r2 + 1),
    ;
}

/// Whatever meets the definition of the rounded-down square root of `n` is
/// `floor_sqrt(n)`.
pub proof fn lemma_floor_sqrt_is(n: nat, r: nat)
    requires
        is_floor_sqrt(n as int, r as int),
    ensures
        floor_sqrt(n) == r,
{
    let chosen = floor_sqrt(n);
    assert(is_floor_sqrt(n as int, chosen as int));
    lemma_floor_sqrt_unique(n as int, chosen as int, r as int);
}

/// Every number has a rounded-down square root, and `floor_sqrt` is it.
pub proof fn lemma_floor_sqrt_is_root(n: nat)
    ensures
        is_floor_sqrt(n as int, floor_sqrt(n) as int),
    decreases n,
{
    if n == 0 {
        assert(is_floor_sqrt(0, 0));
    } else {
        lemma_floor_sqrt_is_root((n - 1) as nat);
        let below = floor_sqrt((n - 1) as nat) as int;
        if (below + 1) * (below + 1) <= n {
            assert(is_floor_sqrt(n as int, below + 1)) by (nonlinear_arith)
                requires
                    (below + 1) * (below + 1) <= n,
                    n - 1 < (below + 1) * (below + 1),
                    below >= 0,
            ;
        } else {
            assert(is_floor_sqrt(n as int, below)) by (nonlinear_arith)
                requires
                    !((below + 1) * (below + 1) <= n),
                    below * below <= n - 1,
                    below >= 0,
            ;
        }
    }
}

/// The rounded-down square root of a number is zero for zero only.
pub proof fn lemma_floor_sqrt_positive(n: nat)
    ensures
        floor_sqrt(n) > 0 <==> n > 0,
{
    lemma_floor_sqrt_is_root(n);
    let root = floor_sqrt(n);
    assert(root > 0 <==> n > 0) by (nonlinear_arith)
        requires
            root * root <= n < (root + 1) * (root + 1),
            root >= 0,
    ;
}

/// One step of Newton's iteration from a positive `x` never falls below the
/// rounded-down square root of `n`.
proof fn lemma_newton_step_stays_above(n: int, x: int)
    requires
        n >= 0,
        x >= 1,
    ensures
        ((x + n / x) / 2 + 1) * ((x + n / x) / 2 + 1) > n,
{
    let q = n / x;
    let y = (x + q) / 2;
    assert(q >= 0 && n < x * (q + 1)) by (nonlinear_arith)
        requires
            q == n / x,
            n >= 0,
            x >= 1,
    ;
    assert(2 * (y + 1) >= x + q + 1);
    assert((y + 1) * (y + 1) > n) by (nonlinear_arith)
        requires
            2 * (y + 1) >= x + q + 1,
            n < x * (q + 1),
            x >= 1,
            q >= 0,
            y >= 0,
    ;
}

/// Where Newton's iteration stops descending, the square of `x` is at most `n`.
proof fn lemma_newton_fixpoint_is_below(n: int, x: int)
    requires
        n >= 0,
        x >= 1,
        (x + n / x) / 2 >= x,
    ensures
        x * x <= n,
{
    let q = n / x;
    assert(q >= x);
    assert(x * x <= n) by (nonlinear_arith)
        requires
            q == n / x,
            q >= x,
            x >= 1,
            n >= 0,
    ;
}

/// The square root of `n`, rounded down, by Newton's iteration.
pub fn integer_sqrt(n: u128) -> (r: u128)
    ensures
        r == floor_sqrt(n as nat),
        is_floor_sqrt(n as int, r as int),
{
    if n < 2 {
        assert(is_floor_sqrt(n as int, n as int)) by (nonlinear_arith)
            requires
                0 <= n < 2,
        ;
        proof {
            lemma_floor_sqrt_is(n as nat, n as nat);
        }
        return n;
    }
    let mut x: u128 = n;
    let mut y: u128 = n / 2 + n % 2;
    assert((n + 1) * (n + 1) > n) by (nonlinear_arith)
        requires
            n >= 2,
    ;
    while y < x
        invariant
            n >= 2,
            x >= 1,
            (x + 1) * (x + 1) > n,
            y == (x + n / x) / 2,
        decreases x,
    {
        proof {
            lemma_newton_step_stays_above(n as int, x as int);
            assert(y >= 1) by (nonlinear_arith)
                requires
                    (y + 1) * (y + 1) > n,
                    n >= 2,
            ;
        }
        x = y;
        let q: u128 = n / x;
        y = x / 2 + q / 2 + (x % 2 + q % 2) / 2;
    }
    proof {
        lemma_newton_fixpoint_is_below(n as int, x as int);
        lemma_floor_sqrt_is(n as nat, x as nat);
    }
    x
}

/// `a` divided by `b` and rounded up.
pub open spec fn ceil_div(a: int, b: int) -> int {
    (a + b - 1) / b
}

/// A quotient rounded up is the least multiplier of `b` that reaches `a`.
pub proof fn lemma_ceil_div_bounds(a: int, b: int)
    requires
        a >= 0,
        b > 0,
    ensures
        a <= ceil_div(a, b) * b < a + b,
        ceil_div(a, b) >= 0,
{
    let q = (a + b - 1) / b;
    assert(a <= q * b < a + b && q >= 0) by (nonlinear_arith)
        requires
            q == (a + b - 1) / b,
            a >= 0,
            b > 0,
    ;
}

/// The least multiplier of `b` that reaches `a` is their quotient rounded up.
pub proof fn lemma_ceil_div_is(a: int, b: int, q: int)
    requires
        b > 0,
        a <= q * b < a + b,
    ensures
        ceil_div(a, b) == q,
{
    let c = (a + b - 1) / b;
    assert(c == q) by (nonlinear_arith)
        requires
            c == (a + b - 1) / b,
            b > 0,
            a <= q * b < a + b,
    ;
}

} // verus!
