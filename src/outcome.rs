use vstd::prelude::*;

use crate::identity::Identity;

verus! {

/// The 32-byte digest that `solana_program::hash::hashv` gives for a list of byte strings.
pub uninterp spec fn hashv_of(parts: Seq<Seq<u8>>) -> Seq<u8>;

/// Relies on `solana_program::hash::hashv`: the SHA-256 digest of the two byte strings,
/// which depends on those bytes alone.
#[verifier::external_body]
fn hashv_pair(first: &[u8], second: &[u8]) -> (r: [u8; 32])
    ensures
        r@ == hashv_of(seq![first@, second@]),
{
    solana_program::hash::hashv(&[first, second]).to_bytes()
}

/// Where the randomness of a bet comes from.
#[derive(Clone, Copy, Debug)]
pub enum Entropy {
    /// The clock value alone.
    Clock { timestamp: i64 },
    /// The digest of the player's identity together with the clock value.
    ClockAndPlayer { timestamp: i64 },
}

impl Entropy {
    pub open spec fn timestamp_of(self) -> i64 {
        match self {
            Entropy::Clock { timestamp } => timestamp,
            Entropy::ClockAndPlayer { timestamp } => timestamp,
        }
    }

    /// The clock value that this entropy carries.
    pub fn timestamp(&self) -> (r: i64)
        ensures
            r == self.timestamp_of(),
    {
        match self {
            Entropy::Clock { timestamp } => *timestamp,
            Entropy::ClockAndPlayer { timestamp } => *timestamp,
        }
    }
}

/// The eight little-endian bytes of a signed 64-bit value in two's complement.
pub open spec fn le_bytes(t: i64) -> Seq<u8> {
    Seq::new(8, |i: int| ((t as u64) >> ((8 * i) as u64)) as u8)
}

/// A die face from a clock value: its remainder modulo 6 (never negative), plus one.
pub open spec fn clock_face(timestamp: i64) -> u8 {
    ((timestamp as int) % 6 + 1) as u8
}

/// A die face from a digest: its first byte modulo 6, plus one.
pub open spec fn digest_face(digest: Seq<u8>) -> u8 {
    (digest[0] % 6 + 1) as u8
}

/// The die face that the player's identity and the clock value give.
pub open spec fn keyed_face(key: Identity, timestamp: i64) -> u8 {
    digest_face(hashv_of(seq![key.bytes@, le_bytes(timestamp)]))
}

/// The die face drawn for `player` from `entropy`.
pub open spec fn drawn_face(entropy: Entropy, player: Identity) -> u8 {
    match entropy {
        Entropy::Clock { timestamp } => clock_face(timestamp),
        Entropy::ClockAndPlayer { timestamp } => keyed_face(player, timestamp),
    }
}

/// Encodes `t` as eight little-endian bytes.
pub fn timestamp_le_bytes(t: i64) -> (r: Vec<u8>)
    ensures
        r@ == le_bytes(t),
{
    let u: u64 = t as u64;
    let mut out: Vec<u8> = Vec::new();
    let mut i: u64 = 0;
    while i < 8
        invariant
            i <= 8,
            u == t as u64,
            out@ == le_bytes(t).take(i as int),
        decreases 8 - i,
    {
        out.push((u >> (8 * i)) as u8);
        proof {
            assert(out@ =~= le_bytes(t).take(i + 1));
        }
        i = i + 1;
    }
    assert(out@ =~= le_bytes(t));
    out
}

/// The die face of a clock value, in `1..=6`.
pub fn draw_from_clock(timestamp: i64) -> (r: u8)
    ensures
        r == clock_face(timestamp),
        1 <= r <= 6,
{
    let m: i64 = timestamp % 6;
    let m: i64 = if m < 0 { m + 6 } else { m };
    (m + 1) as u8
}

/// The die face of a digest, in `1..=6`.
pub fn draw_from_digest(digest: &[u8; 32]) -> (r: u8)
    ensures
        r == digest_face(digest@),
        1 <= r <= 6,
{
    digest[0] % 6 + 1
}

/// The die face that the hash of `key` and `timestamp` gives, in `1..=6`.
pub fn random(key: &Identity, timestamp: i64) -> (r: u8)
    ensures
        r == keyed_face(*key, timestamp),
        1 <= r <= 6,
{
    let ts = timestamp_le_bytes(timestamp);
    let digest = hashv_pair(key.bytes.as_slice(), ts.as_slice());
    draw_from_digest(&digest)
}

/// The die face drawn for `player` from `entropy`, in `1..=6`.
pub fn draw_number(entropy: &Entropy, player: &Identity) -> (r: u8)
    ensures
        r == drawn_face(*entropy, *player),
        1 <= r <= 6,
{
    match entropy {
        Entropy::Clock { timestamp } => draw_from_clock(*timestamp),
        Entropy::ClockAndPlayer { timestamp } => random(player, *timestamp),
    }
}

} // verus!
