//! Arithmetic on the rings' free-running 32-bit counters.
//!
//! Head and tail indices wrap freely; the distance between two of them is
//! their wrapping difference, and a slot index is the counter reduced modulo
//! the ring size (a power of two, so the kernel masks with `size - 1`).

use vstd::arithmetic::div_mod::lemma_mod_multiples_vanish;
use vstd::arithmetic::power2::lemma2_to64;
use vstd::arithmetic::power2::lemma_pow2_adds;
use vstd::arithmetic::power2::lemma_pow2_pos;
use vstd::arithmetic::power2::pow2;
use vstd::bits::lemma_u32_low_bits_mask_is_mod;
use vstd::bits::low_bits_mask;
use vstd::prelude::*;

verus! {

/// Wrapping 32-bit addition, as the ring counters advance.
pub open spec fn wadd(a: u32, b: u32) -> u32 {
    if a + b > u32::MAX {
        (a + b - 0x1_0000_0000) as u32
    } else {
        (a + b) as u32
    }
}

/// Wrapping 32-bit subtraction; `wsub(tail, head)` is the number of ring
/// slots between the two counters.
pub open spec fn wsub(a: u32, b: u32) -> u32 {
    if a - b < 0 {
        (a - b + 0x1_0000_0000) as u32
    } else {
        (a - b) as u32
    }
}

/// `x` is a power of two; ring sizes always are.
pub open spec fn is_pow2(x: u32) -> bool {
    exists|n: nat| n < 32 && x == pow2(n)
}

/// Advancing a counter twice moves it exactly as far as one combined
/// advance.
pub proof fn lemma_wadd_assoc(a: u32, n: u32, m: u32)
    requires
        n + m <= u32::MAX,
    ensures
        wadd(wadd(a, n), m) == wadd(a, (n + m) as u32),
{
}

/// `b` lies on the way from `a` to `c`, measuring forward with wrapping: the
/// distance from `a` to `c` decomposes at `b`.
pub open spec fn in_window(a: u32, b: u32, c: u32) -> bool {
    wsub(b, a) + wsub(c, b) == wsub(c, a)
}

/// Advancing the far end of a window by `n` lengthens it by `n`, as long as
/// the new length still fits a counter.
pub proof fn lemma_wsub_extend(t: u32, h: u32, n: u32)
    requires
        wsub(t, h) + n <= u32::MAX,
    ensures
        wsub(wadd(t, n), h) == wsub(t, h) + n,
{
}

/// When `b` lies between `a` and `c`, and `c` between `a` and `d`, then `c`
/// also lies between `b` and `d`: moving the near end of a window forward to
/// `b` shrinks it by the step from `a` to `b`.
pub proof fn lemma_window_shift(a: u32, b: u32, c: u32, d: u32)
    requires
        in_window(a, b, c),
        in_window(a, c, d),
    ensures
        in_window(b, c, d),
        wsub(d, b) + wsub(b, a) == wsub(d, a),
{
}

/// Bitwise-or facts the flag computations rely on: zero is its identity
/// and the order of the operands does not matter.
pub proof fn lemma_or_basics(x: u32, y: u32)
    ensures
        0u32 | x == x,
        x | 0u32 == x,
        x | y == y | x,
{
    assert(0u32 | x == x && x | 0u32 == x && (x | y) == (y | x)) by (bit_vector);
}

/// Reducing a wrapping 32-bit sum modulo a power-of-two ring size names the
/// same slot as reducing the exact sum.
pub proof fn lemma_wadd_mod(a: u32, b: u32, e: u32)
    requires
        is_pow2(e),
    ensures
        wadd(a, b) % e == (a + b) % (e as int),
{
    let n = choose|n: nat| n < 32 && e == pow2(n);
    lemma_pow2_pos(n);
    if a + b > u32::MAX {
        lemma_pow2_adds(n, (32 - n) as nat);
        lemma2_to64();
        let k = pow2((32 - n) as nat) as int;
        assert(e * k == 0x1_0000_0000);
        assert(e * (-k) == -(e * k)) by (nonlinear_arith);
        lemma_mod_multiples_vanish(-k, a + b, e as int);
        assert(e * (-k) + (a + b) == a + b - 0x1_0000_0000);
    }
}

/// Reducing a wrapping 32-bit difference modulo a power-of-two ring size
/// names the same slot as reducing the exact difference.
pub proof fn lemma_wsub_mod(a: u32, b: u32, e: u32)
    requires
        is_pow2(e),
    ensures
        wsub(a, b) % e == (a - b) % (e as int),
{
    let n = choose|n: nat| n < 32 && e == pow2(n);
    lemma_pow2_pos(n);
    if a - b < 0 {
        lemma_pow2_adds(n, (32 - n) as nat);
        lemma2_to64();
        let k = pow2((32 - n) as nat) as int;
        assert(e * k == 0x1_0000_0000);
        lemma_mod_multiples_vanish(k, a - b, e as int);
    }
}

/// For a power-of-two ring, masking with `size - 1` is reduction modulo the
/// size: the kernel's `counter & ring_mask` names the same slot as the
/// modular arithmetic the queue contracts use.
pub proof fn lemma_mask_is_mod(x: u32, e: u32, m: u32)
    requires
        is_pow2(e),
        m == e - 1,
    ensures
        x & m == x % e,
        x & m < e,
{
    let n = choose|n: nat| n < 32 && e == pow2(n);
    lemma_pow2_pos(n);
    assert(m == low_bits_mask(n));
    lemma_u32_low_bits_mask_is_mod(x, n);
}

} // verus!
