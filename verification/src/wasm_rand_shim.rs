//! The byte source behind the web build's random numbers: a xorshift64
//! generator, stirred with a time-derived seed on every request, whose
//! outputs are laid out little-endian into the requested buffer.

use vstd::prelude::*;

verus! {

/// The generator's start state, also used whenever the state reaches 0
/// (where xorshift would otherwise stay forever).
pub const SEED_STATE: u64 = 0x9E37_79B9_7F4A_7C15u64;

/// One xorshift64 (13, 7, 17) step; a zero state is first replaced by
/// `SEED_STATE`.
pub open spec fn xorshift(x: u64) -> u64 {
    let x0 = if x == 0 {
        SEED_STATE
    } else {
        x
    };
    let a = x0 ^ (x0 << 13u64);
    let b = a ^ (a >> 7u64);
    b ^ (b << 17u64)
}

/// The state after `j` steps from `s`.
pub open spec fn nth_state(s: u64, j: nat) -> u64
    decreases j,
{
    if j == 0 {
        s
    } else {
        xorshift(nth_state(s, (j - 1) as nat))
    }
}

/// Byte `j` (0 = least significant) of `x`.
pub open spec fn le_byte(x: u64, j: int) -> u8 {
    ((x >> ((8 * j) as u64)) & 0xffu64) as u8
}

/// Advance the generator one step and return the new state, which is also
/// the output.
pub fn next_u64(state: &mut u64) -> (r: u64)
    ensures
        r == xorshift(*old(state)),
        *final(state) == r,
{
    let mut x = *state;
    if x == 0 {
        x = SEED_STATE;
    }
    x = x ^ (x << 13u64);
    x = x ^ (x >> 7u64);
    x = x ^ (x << 17u64);
    *state = x;
    x
}

/// Stir `seed` into the state, then fill `buf` with successive generator
/// outputs, each written as its 8 little-endian bytes (the last one cut
/// short when the buffer length is not a multiple of 8).
pub fn fill_bytes(buf: &mut [u8], state: &mut u64, seed: u64)
    ensures
        final(buf)@.len() == old(buf)@.len(),
        forall|b: int|
            0 <= b < old(buf)@.len() ==> #[trigger] final(buf)@[b] == le_byte(
                nth_state(*old(state) ^ seed, (b / 8 + 1) as nat),
                b % 8,
            ),
        *final(state) == nth_state(*old(state) ^ seed, ((old(buf)@.len() + 7) / 8) as nat),
{
    let ghost s0 = *state ^ seed;
    *state = *state ^ seed;
    let len = buf.len();
    let mut i: usize = 0;
    let ghost mut steps: nat = 0;
    while i < len
        invariant
            len == buf@.len(),
            len == old(buf)@.len(),
            i <= len,
            i == len || i % 8 == 0,
            steps == (i + 7) / 8,
            *state == nth_state(s0, steps),
            forall|b: int|
                0 <= b < i ==> #[trigger] buf@[b] == le_byte(
                    nth_state(s0, (b / 8 + 1) as nat),
                    b % 8,
                ),
        decreases len - i,
    {
        assert(i % 8 == 0);
        assert((i + 7) / 8 == i / 8) by (nonlinear_arith)
            requires
                i % 8 == 0,
        ;
        let x = next_u64(state);
        proof {
            steps = steps + 1;
        }
        let n: usize = if len - i < 8 {
            len - i
        } else {
            8
        };
        let mut j: usize = 0;
        while j < n
            invariant
                len == buf@.len(),
                i + n <= len,
                n <= 8,
                i % 8 == 0,
                j <= n,
                steps == i / 8 + 1,
                x == nth_state(s0, steps),
                forall|b: int|
                    0 <= b < i + j ==> #[trigger] buf@[b] == le_byte(
                        nth_state(s0, (b / 8 + 1) as nat),
                        b % 8,
                    ),
            decreases n - j,
        {
            let shift: u64 = (8 * j) as u64;
            buf[i + j] = ((x >> shift) & 0xffu64) as u8;
            assert((i + j) / 8 == i / 8 && (i + j) % 8 == j) by (nonlinear_arith)
                requires
                    i % 8 == 0,
                    j < 8,
            ;
            j += 1;
        }
        let ghost old_i = i;
        i = i + n;
        assert(i == len || i % 8 == 0) by (nonlinear_arith)
            requires
                old_i % 8 == 0,
                i == old_i + n,
                n == 8 || i == len,
        ;
        assert(steps == (i + 7) / 8) by (nonlinear_arith)
            requires
                old_i % 8 == 0,
                i == old_i + n,
                1 <= n <= 8,
                steps == old_i / 8 + 1,
        ;
    }
}

} // verus!
