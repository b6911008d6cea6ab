use vstd::prelude::*;

verus! {

/// Mathematical counterpart of saturating addition in the 128-bit domain.
pub open spec fn s_add(a: int, b: int) -> int {
    if a + b <= u128::MAX {
        a + b
    } else {
        u128::MAX as int
    }
}

/// Mathematical counterpart of saturating subtraction (floored at zero).
pub open spec fn s_sub(a: int, b: int) -> int {
    if a >= b {
        a - b
    } else {
        0
    }
}

/// Mathematical counterpart of saturating multiplication in the 128-bit domain.
pub open spec fn s_mul(a: int, b: int) -> int {
    if a * b <= u128::MAX {
        a * b
    } else {
        u128::MAX as int
    }
}

/// Saturating addition on 128-bit unsigned integers.
pub fn sat_add_u128(a: u128, b: u128) -> (r: u128)
    ensures
        r == s_add(a as int, b as int),
{
    if a <= u128::MAX - b {
        a + b
    } else {
        u128::MAX
    }
}

/// Saturating subtraction on 128-bit unsigned integers.
pub fn sat_sub_u128(a: u128, b: u128) -> (r: u128)
    ensures
        r == s_sub(a as int, b as int),
{
    if a >= b {
        a - b
    } else {
        0
    }
}

/// Saturating multiplication on 128-bit unsigned integers.
pub fn sat_mul_u128(a: u128, b: u128) -> (r: u128)
    ensures
        r == s_mul(a as int, b as int),
{
    if a == 0 || b == 0 {
        assert(a * b == 0) by (nonlinear_arith)
            requires
                a == 0 || b == 0,
        ;
        0
    } else if a <= u128::MAX / b {
        assert(a * b <= u128::MAX) by (nonlinear_arith)
            requires
                b > 0,
                a <= u128::MAX as int / b as int,
        ;
        a * b
    } else {
        assert(a * b > u128::MAX) by (nonlinear_arith)
            requires
                b > 0,
                a > u128::MAX as int / b as int,
        ;
        u128::MAX
    }
}

/// Mathematical counterpart of saturating addition in the 64-bit domain.
pub open spec fn s_add64(a: int, b: int) -> int {
    if a + b <= u64::MAX {
        a + b
    } else {
        u64::MAX as int
    }
}

/// Saturating addition on 64-bit unsigned integers.
pub fn sat_add_u64(a: u64, b: u64) -> (r: u64)
    ensures
        r == s_add64(a as int, b as int),
{
    if a <= u64::MAX - b {
        a + b
    } else {
        u64::MAX
    }
}

/// Saturating addition on 32-bit unsigned integers.
pub fn sat_add_u32(a: u32, b: u32) -> (r: u32)
    ensures
        r == if a + b <= u32::MAX { a + b } else { u32::MAX as int },
{
    if a <= u32::MAX - b {
        a + b
    } else {
        u32::MAX
    }
}

/// Saturating subtraction on 32-bit unsigned integers.
pub fn sat_sub_u32(a: u32, b: u32) -> (r: u32)
    ensures
        r == if a >= b { a - b } else { 0 },
{
    if a >= b {
        a - b
    } else {
        0
    }
}

/// Division truncating toward zero, as machine signed division does, for a
/// positive divisor.
pub open spec fn trunc_div(a: int, b: int) -> int {
    if a >= 0 {
        a / b
    } else {
        -((-a) / b)
    }
}

/// The smaller of two 128-bit unsigned integers.
pub fn min_u128(a: u128, b: u128) -> (r: u128)
    ensures
        r == if a < b { a as int } else { b as int },
{
    if a < b {
        a
    } else {
        b
    }
}

} // verus!
