use vstd::prelude::*;

verus! {

/// Bit `n` of `x`, false for positions past the word.
pub open spec fn bit_of(x: u32, n: u32) -> bool {
    n < 32 && (x >> n) & 1 == 1
}

/// The `n` low bits of `x` (zero for `n >= 32`, as the helper documents).
pub open spec fn low_bits(x: u32, n: u32) -> u32 {
    if n < 32 {
        x & (((1u32 << n) - 1) as u32)
    } else {
        0
    }
}

/// Number of set bits among the `k` lowest positions of `x`.
pub open spec fn ones_below(x: u32, k: nat) -> nat
    decreases k,
{
    if k == 0 {
        0
    } else {
        ones_below(x, (k - 1) as nat) + ((x >> ((k - 1) as u32)) & 1) as nat
    }
}

/// Number of set bits of `x`.
pub open spec fn popcount(x: u32) -> nat {
    ones_below(x, 32)
}

/// Get bit in a certain position.
pub fn get_bit_at(input: u32, n: u8) -> (r: bool)
    ensures
        r == bit_of(input, n as u32),
{
    if n < 32 {
        let k = n as u32;
        proof {
            assert((input & (1u32 << k) != 0) == ((input >> k) & 1 == 1)) by (bit_vector)
                requires
                    k < 32,
            ;
        }
        return input & (1u32 << k) != 0;
    }
    false
}

/// Gets the `n` last bits of `input`.
pub fn get_last_bits(input: u32, n: u8) -> (r: u32)
    ensures
        r == low_bits(input, n as u32),
        n < 32 ==> r < (1u32 << n as u32),
{
    if n < 32 {
        let k = n as u32;
        proof {
            assert(input & (((1u32 << k) - 1) as u32) < (1u32 << k)) by (bit_vector)
                requires
                    k < 32,
            ;
        }
        return input & ((1u32 << k) - 1);
    }
    0
}

proof fn lemma_ones_below_bound(x: u32, k: nat)
    ensures
        ones_below(x, k) <= k,
    decreases k,
{
    if k > 0 {
        lemma_ones_below_bound(x, (k - 1) as nat);
        let b = (k - 1) as u32;
        assert((x >> b) & 1 <= 1) by (bit_vector);
    }
}

/// Number of ones in a word. Example: `count_set_bits(4) == 1`.
pub fn count_set_bits(n: u32) -> (r: u32)
    ensures
        r as nat == popcount(n),
        r <= 32,
{
    let mut ret: u32 = 0;
    let mut i: u32 = 0;
    while i < 32
        invariant
            i <= 32,
            ret as nat == ones_below(n, i as nat),
            ret <= i,
        decreases 32 - i,
    {
        proof {
            lemma_ones_below_bound(n, (i + 1) as nat);
        }
        ret = ret + ((n >> i) & 1);
        i = i + 1;
    }
    ret
}

} // verus!
