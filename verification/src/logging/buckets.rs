//! Durations are counted in buckets whose bounds are the powers of two.
use vstd::prelude::*;

verus! {

/// Two to the power of `exponent`.
pub open spec fn power_of_two(exponent: nat) -> nat
    decreases exponent,
{
    if exponent == 0 {
        1
    } else {
        2 * power_of_two((exponent - 1) as nat)
    }
}

/// The bucket of a number: the least exponent whose power of two is not
/// below the number.
pub open spec fn bucket_of(n: nat) -> nat
    decreases n,
{
    if n <= 1 {
        0
    } else {
        1 + bucket_of((n + 1) / 2)
    }
}

/// Powers of two grow with their exponents.
pub proof fn power_of_two_grows(smaller: nat, larger: nat)
    requires
        smaller <= larger,
    ensures
        1 <= power_of_two(smaller) <= power_of_two(larger),
    decreases larger,
{
    if smaller == 0 {
        if larger > 0 {
            power_of_two_grows(0, (larger - 1) as nat);
        }
    } else {
        power_of_two_grows((smaller - 1) as nat, (larger - 1) as nat);
    }
}

/// A number that lies above one power of two and not above the next is in
/// the bucket of the next.
pub proof fn bucket_between_powers(n: nat, exponent: nat)
    requires
        exponent >= 1,
        power_of_two((exponent - 1) as nat) < n <= power_of_two(exponent),
    ensures
        bucket_of(n) == exponent,
    decreases exponent,
{
    power_of_two_grows(0, (exponent - 1) as nat);
    if exponent == 1 {
        assert(power_of_two(1) == 2 * power_of_two(0));
        assert(n == 2);
        assert(bucket_of(2) == 1 + bucket_of(1));
    } else {
        let lower = power_of_two((exponent - 2) as nat);
        assert(power_of_two((exponent - 1) as nat) == 2 * lower);
        assert(power_of_two(exponent) == 2 * power_of_two((exponent - 1) as nat));
        bucket_between_powers((n + 1) / 2, (exponent - 1) as nat);
    }
}

/// The bucket of a number is the least exponent whose power of two reaches
/// the number.
pub proof fn bucket_is_least(n: nat, exponent: nat)
    ensures
        n <= power_of_two(bucket_of(n)),
        n <= power_of_two(exponent) ==> bucket_of(n) <= exponent,
    decreases n,
{
    if n <= 1 {
        power_of_two_grows(0, exponent);
    } else {
        let half = (n + 1) / 2;
        bucket_is_least(half, (exponent - 1) as nat);
        if exponent == 0 {
        } else {
            bucket_is_least(half, (exponent - 1) as nat);
        }
    }
}

/// The bucket of `n` and the power of two that bounds it, or nothing when
/// that power is too large for the type.
pub fn next_power_of_two(n: u128) -> (r: Option<(u128, usize)>)
    ensures
        match r {
            Some((power, bucket)) => {
                &&& bucket == bucket_of(n as nat)
                &&& power == power_of_two(bucket as nat)
                &&& bucket <= 127
                &&& n <= power <= power_of_two(127)
            },
            None => n > power_of_two(127),
        },
{
    let mut power: u128 = 1;
    let mut bucket: usize = 0;
    while power < n
        invariant
            power >= 1,
            power == power_of_two(bucket as nat),
            bucket <= 127,
            bucket == 0 || power_of_two((bucket - 1) as nat) < n,
        decreases 127 - bucket,
    {
        if bucket == 127 {
            return None;
        }
        proof {
            power_of_two_grows((bucket + 1) as nat, 127);
            power_of_two_is_bounded();
        }
        power = power * 2;
        bucket = bucket + 1;
    }
    proof {
        if bucket > 0 {
            bucket_between_powers(n as nat, bucket as nat);
        }
        power_of_two_grows(bucket as nat, 127);
    }
    Some((power, bucket))
}

/// The largest power of two of the type.
pub proof fn power_of_two_is_bounded()
    ensures
        power_of_two(127) == 0x8000_0000_0000_0000_0000_0000_0000_0000,
        power_of_two(63) == 0x8000_0000_0000_0000,
        power_of_two(64) == 0x1_0000_0000_0000_0000,
{
    reveal_with_fuel(power_of_two, 32);
    assert(power_of_two(31) == 0x8000_0000);
    assert(power_of_two(63) == 0x8000_0000_0000_0000) by {
        assert(power_of_two(32) == 0x1_0000_0000);
        assert(power_of_two(63) == power_of_two(32) * power_of_two(31)) by {
            power_of_two_adds(32, 31);
        }
    }
    assert(power_of_two(64) == 2 * power_of_two(63));
    assert(power_of_two(127) == power_of_two(64) * power_of_two(63)) by {
        power_of_two_adds(64, 63);
    }
}

/// The power of a sum is the product of the powers.
pub proof fn power_of_two_adds(a: nat, b: nat)
    ensures
        power_of_two(a + b) == power_of_two(a) * power_of_two(b),
    decreases a,
{
    if a == 0 {
        assert(power_of_two(0) == 1);
        assert(a + b == b);
    } else {
        let less = (a - 1) as nat;
        power_of_two_adds(less, b);
        assert(power_of_two(a + b) == 2 * power_of_two(less + b)) by {
            assert(((a + b) - 1) as nat == less + b);
        }
        assert(power_of_two(a) == 2 * power_of_two(less));
        assert(2 * (power_of_two(less) * power_of_two(b)) == (2 * power_of_two(less))
            * power_of_two(b)) by (nonlinear_arith);
    }
}

} // verus!
