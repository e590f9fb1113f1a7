//! Morton (Z-order) keys: a single integer formed by interleaving the bits
//! of two coordinates, whose numeric order approximates spatial proximity.
//! The spatial index consumes this purely as a total, deterministic order
//! on quantized 2-D points.

use vstd::prelude::*;
use vstd::arithmetic::power2::pow2;

verus! {

/// The interleaving of the low `bits` bits of `x` and `y`: bit `i` of `x`
/// lands on bit `2i` of the key, bit `i` of `y` on bit `2i + 1`.
pub open spec fn interleave(x: nat, y: nat, bits: nat) -> nat
    decreases bits,
{
    if bits == 0 {
        0
    } else {
        (x % 2) + 2 * (y % 2) + 4 * interleave(x / 2, y / 2, (bits - 1) as nat)
    }
}

/// A 32-bit Morton key over two 16-bit coordinates.
#[derive(Debug, Clone, Copy, PartialEq, Eq, Structural)]
pub struct MortonU32(pub u32);

impl MortonU32 {
    /// Encodes two 16-bit coordinates into one Z-order key by interleaving
    /// their bits.
    pub fn encode_xy(x: u16, y: u16) -> (r: MortonU32)
        ensures
            r.0 == interleave(x as nat, y as nat, 16),
    {
        let mut key: u64 = 0;
        let mut mult: u64 = 1;
        let mut xx: u64 = x as u64;
        let mut yy: u64 = y as u64;
        let mut i: u32 = 0;
        proof {
            vstd::arithmetic::power2::lemma2_to64();
        }
        while i < 16
            invariant
                i <= 16,
                mult == pow2((2 * i) as nat),
                key < mult,
                key + mult * interleave(xx as nat, yy as nat, (16 - i) as nat) == interleave(
                    x as nat,
                    y as nat,
                    16,
                ),
            decreases 16 - i,
        {
            let b = (xx % 2) + 2 * (yy % 2);
            proof {
                vstd::arithmetic::power2::lemma2_to64();
                let m = mult as nat;
                let rest = interleave((xx / 2) as nat, (yy / 2) as nat, (15 - i) as nat);
                assert(interleave(xx as nat, yy as nat, (16 - i) as nat) == (xx as nat) % 2 + 2
                    * ((yy as nat) % 2) + 4 * rest);
                assert(m * ((xx as nat) % 2 + 2 * ((yy as nat) % 2) + 4 * rest) == m * ((xx as nat)
                    % 2 + 2 * ((yy as nat) % 2)) + (4 * m) * rest) by (nonlinear_arith);
                assert(pow2((2 * i + 2) as nat) == 4 * pow2((2 * i) as nat)) by {
                    vstd::arithmetic::power2::lemma_pow2_adds((2 * i) as nat, 2);
                    vstd::arithmetic::power2::lemma2_to64();
                }
                assert(pow2((2 * i) as nat) <= pow2(30)) by {
                    if 2 * i < 30 {
                        vstd::arithmetic::power2::lemma_pow2_strictly_increases(
                            (2 * i) as nat,
                            30,
                        );
                    }
                }
                assert(key + mult * b < 4 * mult) by (nonlinear_arith)
                    requires
                        key < mult,
                        b <= 3,
                ;
            }
            key = key + mult * b;
            xx = xx / 2;
            yy = yy / 2;
            mult = mult * 4;
            i = i + 1;
        }
        proof {
            assert(interleave(xx as nat, yy as nat, 0) == 0);
            assert(mult * 0 == 0);
            assert(pow2(32) == 0x100000000) by {
                vstd::arithmetic::power2::lemma2_to64();
            }
        }
        MortonU32(key as u32)
    }
}

} // verus!
