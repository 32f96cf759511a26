//! Pseudo random number generator.
//!
//! The generator is xoshiro256** of David Blackman and Sebastiano Vigna.

use vstd::prelude::*;

verus! {

#[verifier::external_type_specification]
#[verifier::external_body]
pub struct ExSystemTime(std::time::SystemTime);

/// `std::time::SystemTime::now`: the time of the system clock. Nothing is
/// claimed of it.
#[verifier::external_body]
fn now() -> (t: std::time::SystemTime) {
    std::time::SystemTime::now()
}

/// `std::time::SystemTime::duration_since`, from the start of 1970 on: the
/// time that has passed since then, or `None` where the clock stands before
/// it. Nothing is claimed of the answer.
#[verifier::external_body]
fn since_epoch(t: &std::time::SystemTime) -> (d: Option<std::time::Duration>) {
    t.duration_since(std::time::SystemTime::UNIX_EPOCH).ok()
}

/// `std::time::Duration::as_nanos`: the duration in nanoseconds. Nothing is
/// claimed of the number.
#[verifier::external_body]
fn as_nanos(d: &std::time::Duration) -> (n: u128) {
    d.as_nanos()
}

/// The 256 bits of state of the generator.
pub struct State {
    s: [u64; 4],
}

/// The number whose bits are those of `x`, moved `k` places to the left, the
/// upper ones coming in again from the right.
pub open spec fn rotated(x: u64, k: u64) -> u64 {
    (x << k) | (x >> ((64 - k) as u64))
}

/// The state after a number has been drawn.
pub open spec fn stepped(s: (u64, u64, u64, u64)) -> (u64, u64, u64, u64) {
    let t = s.1 << 17;
    let s2 = s.2 ^ s.0;
    let s3 = s.3 ^ s.1;
    let s1 = s.1 ^ s2;
    let s0 = s.0 ^ s3;
    (s0, s1, s2 ^ t, rotated(s3, 45))
}

/// The number that is drawn from a state.
pub open spec fn drawn(s: (u64, u64, u64, u64)) -> u64 {
    rotated(s.1.wrapping_mul(5), 7).wrapping_mul(9)
}

/// The state after `n` numbers have been drawn.
pub open spec fn stepped_by(s: (u64, u64, u64, u64), n: nat) -> (u64, u64, u64, u64)
    decreases n,
{
    if n == 0 {
        s
    } else {
        stepped(stepped_by(s, (n - 1) as nat))
    }
}

/// The four numbers that say at which of 256 steps a long jump takes the
/// state in.
pub const LONG_JUMP: [u64; 4] = [
    0x76e15d3efefdcbbf,
    0xc5004e441c522fb3,
    0x77710069854ee241,
    0x39109bb02acbe635,
];

/// Whether a long jump takes the state in at the step `i`.
pub open spec fn jump_bit(i: nat) -> bool {
    LONG_JUMP@[i as int / 64] & (1u64 << ((i % 64) as u64)) != 0
}

/// What a long jump has gathered after `n` steps from the state `s`: the
/// states at the steps that [`jump_bit`] names, combined bit by bit with
/// exclusive or.
pub open spec fn gathered(s: (u64, u64, u64, u64), n: nat) -> (u64, u64, u64, u64)
    decreases n,
{
    if n == 0 {
        (0, 0, 0, 0)
    } else {
        let before = gathered(s, (n - 1) as nat);
        if jump_bit((n - 1) as nat) {
            let at = stepped_by(s, (n - 1) as nat);
            (before.0 ^ at.0, before.1 ^ at.1, before.2 ^ at.2, before.3 ^ at.3)
        } else {
            before
        }
    }
}

/// The state that the seed `nanos` gives: the seed shifted by three, two,
/// one and no bits, after a long jump.
pub open spec fn seeded(nanos: u64) -> (u64, u64, u64, u64) {
    gathered((nanos << 3, nanos << 2, nanos << 1, nanos), 256)
}

#[inline]
fn rotl(x: u64, k: u64) -> (r: u64)
    requires
        0 < k < 64,
    ensures
        r == rotated(x, k),
{
    (x << k) | (x >> (64 - k))
}

impl State {
    /// The four words of the state.
    pub closed spec fn view(&self) -> (u64, u64, u64, u64) {
        (self.s[0], self.s[1], self.s[2], self.s[3])
    }

    /// Creates a new PRNG, seeded by the current system time, or `None`
    /// where the system clock stands before 1970.
    pub fn new() -> (r: Option<Self>)
        ensures
            r is Some ==> exists|nanos: u64| #[trigger] seeded(nanos) == r->Some_0@,
    {
        let t = now();
        match since_epoch(&t) {
            Some(d) => Some(Self::from_nanos(as_nanos(&d))),
            None => None,
        }
    }

    /// Creates a new PRNG from a time in nanoseconds, of which the lower 64
    /// bits are the seed.
    pub fn from_nanos(nanos: u128) -> (r: Self)
        ensures
            r@ == seeded((nanos % 0x1_0000_0000_0000_0000) as u64),
    {
        assert(nanos as u64 == nanos % 0x1_0000_0000_0000_0000) by (bit_vector);
        Self::from_seed(#[verifier::truncate]
        (nanos as u64))
    }

    /// Creates a new PRNG from a seed.
    pub fn from_seed(nanos: u64) -> (r: Self)
        ensures
            r@ == seeded(nanos),
    {
        let mut s = State { s: [nanos << 3, nanos << 2, nanos << 1, nanos] };
        s.long_jump();
        s
    }

    /// Returns a new 64-bit random number.
    #[inline]
    pub fn next_state(&mut self) -> (result: u64)
        ensures
            result == drawn(old(self)@),
            final(self)@ == stepped(old(self)@),
    {
        let result = rotl(self.s[1].wrapping_mul(5), 7).wrapping_mul(9);
        let t = self.s[1] << 17;

        let s2 = self.s[2] ^ self.s[0];
        let s3 = self.s[3] ^ self.s[1];
        let s1 = self.s[1] ^ s2;
        let s0 = self.s[0] ^ s3;

        self.s = [s0, s1, s2 ^ t, rotl(s3, 45)];

        result
    }

    #[inline]
    fn long_jump(&mut self)
        ensures
            final(self)@ == gathered(old(self)@, 256),
    {
        let mut s0: u64 = 0;
        let mut s1: u64 = 0;
        let mut s2: u64 = 0;
        let mut s3: u64 = 0;

        let mut word: usize = 0;
        while word < 4
            invariant
                word <= 4,
                self@ == stepped_by(old(self)@, (word * 64) as nat),
                (s0, s1, s2, s3) == gathered(old(self)@, (word * 64) as nat),
            decreases 4 - word,
        {
            let jmp_val = LONG_JUMP[word];
            let mut b: u64 = 0;
            while b < 64
                invariant
                    b <= 64,
                    word < 4,
                    jmp_val == LONG_JUMP@[word as int],
                    self@ == stepped_by(old(self)@, (word * 64 + b) as nat),
                    (s0, s1, s2, s3) == gathered(old(self)@, (word * 64 + b) as nat),
                decreases 64 - b,
            {
                proof {
                    let i = (word * 64 + b) as nat;
                    assert(i as int / 64 == word && i % 64 == b);
                }
                if jmp_val & (1u64 << b) != 0 {
                    s0 ^= self.s[0];
                    s1 ^= self.s[1];
                    s2 ^= self.s[2];
                    s3 ^= self.s[3];
                }
                self.next_state();
                b += 1;
            }
            word += 1;
        }

        self.s = [s0, s1, s2, s3];
    }
}

} // verus!
