//! The SipHash-1-3 based splittable generator.
use vstd::prelude::*;
use vstd::wrapping::u64_specs;
use crate::sip::{Lanes, sip_round};
use crate::splittable::{SplittableRng, SplitRng};
use crate::hashing::{arg_hash, hash_words};

verus! {

/// SipHash's initialization constants, "somepseudorandomlygeneratedbytes".
pub const C0: u64 = 0x736f6d6570736575;
pub const C1: u64 = 0x646f72616e646f6d;
pub const C2: u64 = 0x6c7967656e657261;
pub const C3: u64 = 0x7465646279746573;

/// What a generator holds: the lanes, the counter of words drawn on the
/// current branch, and the depth in the split tree (one after seeding).
pub struct GenState {
    pub lanes: Lanes,
    pub ctr: u64,
    pub len: u64,
}

/// The state that the seed `(k0, k1)` gives.
pub open spec fn seeded(k0: u64, k1: u64) -> GenState {
    GenState {
        lanes: Lanes { v0: k0 ^ C0, v1: k1 ^ C1, v2: k0 ^ C2, v3: k1 ^ C3 },
        ctr: 0,
        len: 1,
    }
}

/// The lanes keyed by `m`: `m` is XORed into `v3`, one round runs, and `m`
/// is XORed into `v0`.
pub open spec fn absorb(l: Lanes, m: u64) -> Lanes {
    let r = sip_round(Lanes { v3: l.v3 ^ m, ..l });
    Lanes { v0: r.v0 ^ m, ..r }
}

/// The state after one word is drawn: the counter is absorbed and advances.
pub open spec fn advanced(g: GenState) -> GenState {
    GenState {
        lanes: absorb(g.lanes, g.ctr),
        ctr: u64_specs::wrapping_add(g.ctr, 1),
        len: g.len,
    }
}

/// The state forked along index `i`: `i` is absorbed, the depth grows by
/// one and the counter restarts.
pub open spec fn descended(g: GenState, i: u64) -> GenState {
    GenState {
        lanes: absorb(g.lanes, i),
        ctr: 0,
        len: u64_specs::wrapping_add(g.len, 1),
    }
}

/// The word that finalization gives for a state that has just advanced:
/// the depth tag is absorbed, `0xff` is XORed into `v2`, three rounds run,
/// and the lanes are folded by XOR. The state itself is left as it is.
pub open spec fn finalized(g: GenState) -> u64 {
    let l = absorb(g.lanes, g.len << 56u64);
    let l = sip_round(sip_round(sip_round(Lanes { v2: l.v2 ^ 0xff, ..l })));
    l.v0 ^ l.v1 ^ l.v2 ^ l.v3
}

/// The next word that the state `g` gives.
pub open spec fn output(g: GenState) -> u64 {
    finalized(advanced(g))
}

/// The state after `n` words are drawn from `g`.
pub open spec fn after(g: GenState, n: nat) -> GenState
    decreases n,
{
    if n == 0 {
        g
    } else {
        advanced(after(g, (n - 1) as nat))
    }
}

/// The first `n` words drawn from `g`.
pub open spec fn stream(g: GenState, n: nat) -> Seq<u64> {
    Seq::new(n, |k: int| output(after(g, k as nat)))
}

/// Byte `b` of the little-endian form of `w`.
pub open spec fn le_byte(w: u64, b: nat) -> u8 {
    (w >> ((8 * b) as u64)) as u8
}

/// The `n` bytes that the words drawn from `g` give, each word in
/// little-endian order; of the last word only the bytes needed are used.
pub open spec fn fill(g: GenState, n: nat) -> Seq<u8> {
    Seq::new(n, |j: int| le_byte(output(after(g, (j / 8) as nat)), (j % 8) as nat))
}

/// The number of words drawn to fill `n` bytes.
pub open spec fn words_for(n: nat) -> nat {
    ((n + 7) / 8) as nat
}

/// A splittable pseudo-random generator based on SipHash-1-3.
///
/// Not a cryptographically secure generator.
pub struct SipRng {
    lanes: Lanes,
    ctr: u64,
    len: u64,
}

impl View for SipRng {
    type V = GenState;

    closed spec fn view(&self) -> GenState {
        GenState { lanes: self.lanes, ctr: self.ctr, len: self.len }
    }
}

impl Clone for SipRng {
    fn clone(&self) -> (r: SipRng)
        ensures
            r@ == self@,
    {
        SipRng { lanes: self.lanes, ctr: self.ctr, len: self.len }
    }
}

/// The lanes keyed by `m`.
fn absorb_into(l: Lanes, m: u64) -> (r: Lanes)
    ensures
        r == absorb(l, m),
{
    let r = Lanes { v3: l.v3 ^ m, ..l }.round();
    Lanes { v0: r.v0 ^ m, ..r }
}

impl SipRng {
    /// Creates a generator from the two words of a seed.
    pub fn new(k0: u64, k1: u64) -> (r: SipRng)
        ensures
            r@ == seeded(k0, k1),
    {
        SipRng {
            lanes: Lanes { v0: k0 ^ C0, v1: k1 ^ C1, v2: k0 ^ C2, v3: k1 ^ C3 },
            ctr: 0,
            len: 1,
        }
    }

    /// Creates a generator from a seed.
    pub fn from_seed(seed: (u64, u64)) -> (r: SipRng)
        ensures
            r@ == seeded(seed.0, seed.1),
    {
        let (k0, k1) = seed;
        SipRng::new(k0, k1)
    }

    /// Seeds the generator anew, overwriting all of its state.
    pub fn reseed(&mut self, seed: (u64, u64))
        ensures
            final(self)@ == seeded(seed.0, seed.1),
    {
        self.lanes = Lanes { v0: seed.0 ^ C0, v1: seed.1 ^ C1, v2: seed.0 ^ C2, v3: seed.1 ^ C3 };
        self.len = 1;
        self.ctr = 0;
    }

    /// Absorbs the counter and moves it on by one.
    fn advance(&mut self)
        ensures
            final(self)@ == advanced(old(self)@),
    {
        self.lanes = absorb_into(self.lanes, self.ctr);
        self.ctr = self.ctr.wrapping_add(1);
    }

    /// Forks the state along index `i`.
    fn descend(&mut self, i: u64)
        ensures
            final(self)@ == descended(old(self)@, i),
    {
        self.lanes = absorb_into(self.lanes, i);
        self.len = self.len.wrapping_add(1);
        self.ctr = 0;
    }

    /// Draws the next 64-bit word.
    pub fn next_u64(&mut self) -> (r: u64)
        ensures
            r == output(old(self)@),
            final(self)@ == advanced(old(self)@),
    {
        self.advance();
        let tag = self.len << 56u64;
        let l = absorb_into(self.lanes, tag);
        let l = Lanes { v2: l.v2 ^ 0xff, ..l }.round().round().round();
        l.v0 ^ l.v1 ^ l.v2 ^ l.v3
    }

    /// Draws the next 32-bit word: the low half of the next 64-bit word.
    pub fn next_u32(&mut self) -> (r: u32)
        ensures
            r == output(old(self)@) as u32,
            final(self)@ == advanced(old(self)@),
    {
        self.next_u64() as u32
    }

    /// Fills `dest` with the little-endian bytes of successive words; a
    /// final partial block takes the low bytes of its word.
    pub fn fill_bytes(&mut self, dest: &mut [u8])
        ensures
            final(dest)@ == fill(old(self)@, old(dest)@.len()),
            final(self)@ == after(old(self)@, words_for(old(dest)@.len())),
    {
        let ghost g = self@;
        let n = dest.len();
        let mut i: usize = 0;
        while i < n
            invariant
                i <= n == dest@.len(),
                i < n ==> i % 8 == 0,
                self@ == after(g, words_for(i as nat)),
                forall|j: int| 0 <= j < i ==> dest@[j] == #[trigger] fill(g, n as nat)[j],
            decreases n - i,
        {
            let ghost k = words_for(i as nat);
            let w = self.next_u64();
            assert(w == output(after(g, k)));
            let mut b: usize = 0;
            while b < 8 && i + b < n
                invariant
                    i < n == dest@.len(),
                    i % 8 == 0,
                    k == i / 8,
                    b <= 8,
                    i + b <= n,
                    w == output(after(g, k)),
                    forall|j: int| 0 <= j < i + b ==> dest@[j] == #[trigger] fill(g, n as nat)[j],
                decreases 8 - b,
            {
                dest[i + b] = (w >> (8 * b as u64)) as u8;
                assert((i + b) / 8 == k && (i + b) % 8 == b) by (nonlinear_arith)
                    requires
                        i % 8 == 0,
                        k == i / 8,
                        b < 8,
                ;
                b = b + 1;
            }
            i = i + b;
            assert(self@ == after(g, words_for(i as nat)));
        }
        assert(dest@ =~= fill(g, n as nat));
    }

    /// Draws `n` successive words.
    pub fn gen_words(&mut self, n: usize) -> (r: Vec<u64>)
        ensures
            r@ == stream(old(self)@, n as nat),
            final(self)@ == after(old(self)@, n as nat),
    {
        let ghost g = self@;
        let mut r: Vec<u64> = Vec::with_capacity(n);
        let mut i: usize = 0;
        while i < n
            invariant
                i <= n,
                self@ == after(g, i as nat),
                r@ == stream(g, i as nat),
            decreases n - i,
        {
            let w = self.next_u64();
            r.push(w);
            i = i + 1;
            assert(r@ =~= stream(g, i as nat));
        }
        r
    }
}

/// A split of a `SipRng`: the state captured at the fork.
pub struct SipRngSplit(SipRng);

impl View for SipRngSplit {
    type V = GenState;

    closed spec fn view(&self) -> GenState {
        self.0@
    }
}

impl Clone for SipRngSplit {
    fn clone(&self) -> (r: SipRngSplit)
        ensures
            r@ == self@,
    {
        SipRngSplit(self.0.clone())
    }
}

impl SplitRng<SipRng> for SipRngSplit {
    closed spec fn spec_branch(&self, i: usize) -> SipRng {
        let g = descended(self.0@, i as u64);
        SipRng { lanes: g.lanes, ctr: g.ctr, len: g.len }
    }

    fn branch(&self, i: usize) -> (r: SipRng)
        ensures
            r@ == descended(self@, i as u64),
    {
        let mut r = self.0.clone();
        r.descend(i as u64);
        r
    }
}

impl SplittableRng for SipRng {
    type Split = SipRngSplit;

    closed spec fn spec_splitn(self) -> SipRngSplit {
        SipRngSplit(self)
    }

    fn splitn(self) -> (r: SipRngSplit)
        ensures
            r@ == self@,
    {
        SipRngSplit(self)
    }

    fn split(self) -> (r: (SipRng, SipRng))
        ensures
            r.0@ == descended(self@, 0),
            r.1@ == descended(self@, 1),
    {
        let splits = self.splitn();
        (splits.branch(0), splits.branch(1))
    }
}

/// The two word sequences derived from a split for a pair of shapes: the
/// first from branch 0, the second from branch 1.
pub open spec fn pair_of(s: GenState, n0: nat, n1: nat) -> (Seq<u64>, Seq<u64>) {
    (stream(descended(s, 0), n0), stream(descended(s, 1), n1))
}

/// Varying the length derived at one position of a pair never changes the
/// words at the other position: each position depends only on its own
/// branch and its own length.
pub proof fn lemma_pair_sibling_independence(s: GenState, n0: nat, n1: nat, m0: nat, m1: nat)
    ensures
        pair_of(s, n0, n1).0 == pair_of(s, n0, m1).0,
        pair_of(s, n0, n1).1 == pair_of(s, m0, n1).1,
{
}

impl SipRngSplit {
    /// Derives `n` words from the split: the first `n` words of branch 0.
    pub fn rand_words(&self, n: usize) -> (r: Vec<u64>)
        ensures
            r@ == stream(descended(self@, 0), n as nat),
    {
        self.branch(0).gen_words(n)
    }

    /// Derives a pair of word sequences of lengths `n0` and `n1`, each
    /// component from a branch of its own, so that neither depends on the
    /// other's length.
    pub fn rand_pair(&self, n0: usize, n1: usize) -> (r: (Vec<u64>, Vec<u64>))
        ensures
            (r.0@, r.1@) == pair_of(self@, n0 as nat, n1 as nat),
    {
        let a = self.branch(0).gen_words(n0);
        let b = self.branch(1).gen_words(n1);
        (a, b)
    }

    /// A random deterministic function taken off this split.
    pub fn rand_fn(&self) -> (r: SipPrf)
        ensures
            r@ == self@,
    {
        SipPrf(self.0.clone())
    }
}

/// A pseudo-random function taken off a `SipRng`: each `u64` index keys a
/// generator of its own.
pub struct SipPrf(SipRng);

impl View for SipPrf {
    type V = GenState;

    closed spec fn view(&self) -> GenState {
        self.0@
    }
}

impl Clone for SipPrf {
    fn clone(&self) -> (r: SipPrf)
        ensures
            r@ == self@,
    {
        SipPrf(self.0.clone())
    }
}

/// The `n` words that a random function keyed by state `s` gives for an
/// argument whose hash is `h`.
pub open spec fn fn_value(s: GenState, h: u64, n: nat) -> Seq<u64> {
    stream(descended(s, h), n)
}

impl SipPrf {
    /// The generator at index `i`.
    pub fn call(&self, i: u64) -> (r: SipRng)
        ensures
            r@ == descended(self@, i),
    {
        let mut r = self.0.clone();
        r.descend(i);
        r
    }

    /// The value, `n` words long, of this random function at the argument
    /// whose hash is `h`.
    pub fn eval_hashed(&self, h: u64, n: usize) -> (r: Vec<u64>)
        ensures
            r@ == fn_value(self@, h, n as nat),
    {
        self.call(h).gen_words(n)
    }

    /// The value, `n` words long, of this random function at `arg`: the
    /// generator at the index that hashing `arg` gives draws the words.
    /// Equal arguments give equal values.
    pub fn eval(&self, arg: &[u64], n: usize) -> (r: Vec<u64>)
        ensures
            r@ == fn_value(self@, arg_hash(arg@), n as nat),
    {
        let h = hash_words(arg);
        self.eval_hashed(h, n)
    }
}

impl SipRng {
    /// Splits this generator in place: it moves on to branch 0 of its
    /// state, and the returned child starts at branch 1.
    pub fn split_mut(&mut self) -> (r: SipRng)
        ensures
            r@ == descended(old(self)@, 1),
            final(self)@ == descended(old(self)@, 0),
    {
        let mut child = self.clone();
        self.descend(0);
        child.descend(1);
        child
    }

    /// Takes a pseudo-random function off this generator in place: it
    /// keeps the child state of `split_mut`.
    pub fn splitn_mut(&mut self) -> (r: SipPrf)
        ensures
            r@ == descended(old(self)@, 1),
            final(self)@ == descended(old(self)@, 0),
    {
        SipPrf(self.split_mut())
    }

    /// Derives a pair of word sequences of lengths `n0` and `n1` from a
    /// split taken off this generator in place.
    pub fn split_gen_words(&mut self, n0: usize, n1: usize) -> (r: (Vec<u64>, Vec<u64>))
        ensures
            (r.0@, r.1@) == pair_of(descended(old(self)@, 1), n0 as nat, n1 as nat),
            final(self)@ == descended(old(self)@, 0),
    {
        SipRngSplit(self.split_mut()).rand_pair(n0, n1)
    }
}

} // verus!
