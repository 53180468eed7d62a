use vstd::prelude::*;
use vstd::arithmetic::power::pow;

verus! {

/// The sum of the first `n` terms of the geometric sequence that starts at
/// `first` with common ratio `ratio`: `first + first*ratio + ... + first*ratio^(n-1)`.
pub open spec fn geometric_sum(first: int, ratio: int, n: nat) -> int
    decreases n,
{
    if n == 0 {
        0
    } else {
        geometric_sum(first, ratio, (n - 1) as nat) + first * pow(ratio, (n - 1) as nat)
    }
}

/// Integer division rounding toward zero, as Rust's `/` on integers.
pub open spec fn trunc_div(a: int, b: int) -> int {
    let q = (if a < 0 { -a } else { a }) / (if b < 0 { -b } else { b });
    if (a < 0) == (b < 0) { q } else { -q }
}

/// Whether `x` is a value of `i64`.
pub open spec fn fits_i64(x: int) -> bool {
    i64::MIN <= x <= i64::MAX
}

/// The closed form: `(ratio - 1) * geometric_sum(first, ratio, n) == first * (ratio^n - 1)`.
pub proof fn lemma_closed_form(first: int, ratio: int, n: nat)
    ensures
        (ratio - 1) * geometric_sum(first, ratio, n) == first * (pow(ratio, n) - 1),
    decreases n,
{
    reveal(pow);
    if n > 0 {
        let m = (n - 1) as nat;
        lemma_closed_form(first, ratio, m);
        let g = geometric_sum(first, ratio, m);
        let p = pow(ratio, m);
        assert(pow(ratio, n) == ratio * p) by {
            reveal(pow);
        }
        assert(geometric_sum(first, ratio, n) == g + first * p);
        assert((ratio - 1) * (g + first * p) == first * (ratio * p - 1)) by (nonlinear_arith)
            requires
                (ratio - 1) * g == first * (p - 1),
        ;
    } else {
        assert(pow(ratio, 0) == 1);
        assert((ratio - 1) * 0 == 0) by (nonlinear_arith);
    }
}

/// With ratio 1 every term is `first`, so the sum is `first * n`.
pub proof fn lemma_ratio_one(first: int, n: nat)
    ensures
        geometric_sum(first, 1, n) == first * n,
    decreases n,
{
    if n > 0 {
        let m = (n - 1) as nat;
        lemma_ratio_one(first, m);
        lemma_pow_of_one(m);
        assert(geometric_sum(first, 1, n) == geometric_sum(first, 1, m) + first * pow(1, m));
        assert(first * m + first * 1 == first * n) by (nonlinear_arith)
            requires
                n == m + 1,
        ;
    } else {
        assert(first * n == 0) by (nonlinear_arith) requires n == 0;
    }
}

proof fn lemma_pow_of_one(e: nat)
    ensures
        pow(1, e) == 1,
    decreases e,
{
    reveal(pow);
    if e > 0 {
        lemma_pow_of_one((e - 1) as nat);
    }
}

/// Dividing an exact multiple rounds nothing away.
pub proof fn lemma_trunc_div_exact(d: int, x: int)
    requires
        d != 0,
    ensures
        trunc_div(d * x, d) == x,
{
    let a = d * x;
    let ad = if d < 0 { -d } else { d };
    let ax = if x < 0 { -x } else { x };
    assert((if a < 0 { -a } else { a }) == ad * ax) by (nonlinear_arith)
        requires
            a == d * x,
            ad == (if d < 0 { -d } else { d }),
            ax == (if x < 0 { -x } else { x }),
    ;
    vstd::arithmetic::div_mod::lemma_div_multiples_vanish(ax, ad);
    assert(x != 0 ==> ((a < 0) == (d < 0) <==> x > 0)) by (nonlinear_arith)
        requires
            a == d * x,
            d != 0,
    ;
    assert(x == 0 ==> a == 0) by (nonlinear_arith)
        requires
            a == d * x,
    ;
}

/// Each term is `ratio` times the one before it, so the sum of `n + 1` terms
/// is the first term plus `ratio` times the sum of `n` terms.
pub proof fn lemma_one_more_term(first: int, ratio: int, n: nat)
    ensures
        geometric_sum(first, ratio, n + 1) == first + ratio * geometric_sum(first, ratio, n),
    decreases n,
{
    reveal(pow);
    if n == 0 {
        assert(geometric_sum(first, ratio, 1) == geometric_sum(first, ratio, 0) + first * pow(ratio, 0));
        assert(ratio * 0 == 0) by (nonlinear_arith);
    } else {
        let m = (n - 1) as nat;
        lemma_one_more_term(first, ratio, m);
        let g = geometric_sum(first, ratio, m);
        let q = pow(ratio, m);
        assert(pow(ratio, n) == ratio * q);
        assert(geometric_sum(first, ratio, n) == g + first * q);
        assert(geometric_sum(first, ratio, n + 1) == geometric_sum(first, ratio, n) + first * pow(ratio, n));
        assert(ratio * (g + first * q) == ratio * g + first * (ratio * q)) by (nonlinear_arith);
    }
}

/// When `ratio != 1` and the closed form's values are `i64`s, so is the sum.
pub proof fn lemma_sum_fits(first: int, ratio: int, n: nat)
    requires
        ratio != 1,
        fits_i64(first),
        fits_i64(ratio - 1),
        fits_i64(first * (pow(ratio, n) - 1)),
    ensures
        fits_i64(geometric_sum(first, ratio, n)),
{
    let d = ratio - 1;
    let x = geometric_sum(first, ratio, n);
    let p = first * (pow(ratio, n) - 1);
    lemma_closed_form(first, ratio, n);
    assert(d * x == p);
    if d == -1 {
        reveal(pow);
        if n == 0 {
            assert(pow(ratio, 0) == 1);
            assert(p == 0) by (nonlinear_arith) requires p == first * (1 - 1);
        } else {
            assert(pow(0, n) == 0 * pow(0, (n - 1) as nat));
            assert(p == -first) by (nonlinear_arith) requires p == first * (0 - 1);
        }
        assert(x == -p) by (nonlinear_arith) requires d * x == p, d == -1;
    } else if d >= 1 {
        if x >= 0 {
            assert(x <= p) by (nonlinear_arith) requires p == d * x, d >= 1, x >= 0;
        } else {
            assert(p <= x) by (nonlinear_arith) requires p == d * x, d >= 1, x < 0;
        }
    } else {
        if x >= 0 {
            assert(2 * x <= -p) by (nonlinear_arith) requires p == d * x, d <= -2, x >= 0;
        } else {
            assert(-2 * x <= p) by (nonlinear_arith) requires p == d * x, d <= -2, x < 0;
        }
    }
}

} // verus!
