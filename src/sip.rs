//! The SipHash lanes and the round function over them.
use vstd::prelude::*;
use vstd::wrapping::u64_specs;

verus! {

/// The four 64-bit lanes of a SipHash state.
#[derive(Clone, Copy, PartialEq, Eq, Structural)]
pub struct Lanes {
    pub v0: u64,
    pub v1: u64,
    pub v2: u64,
    pub v3: u64,
}

/// `x` rotated left by `n` bits.
pub open spec fn rotl(x: u64, n: u64) -> u64
    recommends
        0 < n < 64,
{
    (x << n) | (x >> ((64 - n) as u64))
}

/// One SipRound over the lanes.
///
/// The last step assigns `v2` from `v0`, not from `v2` as published SipHash
/// does; every output of the generator depends on this choice.
pub open spec fn sip_round(l: Lanes) -> Lanes {
    let v0 = u64_specs::wrapping_add(l.v0, l.v1);
    let v2 = u64_specs::wrapping_add(l.v2, l.v3);
    let v1 = rotl(l.v1, 13) ^ v0;
    let v3 = rotl(l.v3, 16) ^ v2;
    let v0 = rotl(v0, 32);
    let v2 = u64_specs::wrapping_add(v2, v1);
    let v0 = u64_specs::wrapping_add(v0, v3);
    let v1 = rotl(v1, 17) ^ v2;
    let v3 = rotl(v3, 21) ^ v0;
    Lanes { v0, v1, v2: rotl(v0, 32), v3 }
}

/// Rotates `x` left by `n` bits.
pub fn rotate(x: u64, n: u64) -> (r: u64)
    requires
        0 < n < 64,
    ensures
        r == rotl(x, n),
{
    (x << n) | (x >> (64 - n))
}

impl Lanes {
    /// Applies one SipRound.
    pub fn round(self) -> (r: Lanes)
        ensures
            r == sip_round(self),
    {
        let v0 = self.v0.wrapping_add(self.v1);
        let v2 = self.v2.wrapping_add(self.v3);
        let v1 = rotate(self.v1, 13) ^ v0;
        let v3 = rotate(self.v3, 16) ^ v2;
        let v0 = rotate(v0, 32);
        let v2 = v2.wrapping_add(v1);
        let v0 = v0.wrapping_add(v3);
        let v1 = rotate(v1, 17) ^ v2;
        let v3 = rotate(v3, 21) ^ v0;
        Lanes { v0, v1, v2: rotate(v0, 32), v3 }
    }
}

} // verus!
