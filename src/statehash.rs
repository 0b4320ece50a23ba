//! The stable mixing hash behind state hashes and trace ids: 64-bit
//! FNV-1a over the little-endian bytes of each word written. Its values do
//! not depend on the platform, the process or the toolchain.
use vstd::prelude::*;
use crate::ids::TraceId;

verus! {

/// FNV-1a 64-bit offset basis.
pub const FNV_OFFSET: u64 = 0xcbf29ce484222325;

/// FNV-1a 64-bit prime.
pub const FNV_PRIME: u64 = 0x100000001b3;

/// One FNV-1a step: xor in the byte, then multiply by the prime modulo 2^64.
pub open spec fn fnv_step(h: u64, b: u8) -> u64 {
    (((h ^ (b as u64)) as nat * FNV_PRIME as nat) % 0x10000000000000000nat) as u64
}

/// FNV-1a over `bytes`, starting from state `h`.
pub open spec fn fnv_bytes(h: u64, bytes: Seq<u8>) -> u64
    decreases bytes.len(),
{
    if bytes.len() == 0 {
        h
    } else {
        fnv_step(fnv_bytes(h, bytes.drop_last()), bytes.last())
    }
}

/// The `n` low bytes of `w`, least significant first.
pub open spec fn le_bytes(w: u64, n: nat) -> Seq<u8> {
    Seq::new(n, |k: int| ((w >> ((8 * k) as u64)) & 0xff) as u8)
}

/// The bytes that writing the words of `ws`, each as eight bytes, feeds the hash.
pub open spec fn words_bytes(ws: Seq<u64>) -> Seq<u8>
    decreases ws.len(),
{
    if ws.len() == 0 {
        Seq::empty()
    } else {
        words_bytes(ws.drop_last()) + le_bytes(ws.last(), 8)
    }
}

/// Hashing two byte strings in turn is hashing their concatenation.
pub proof fn lemma_fnv_bytes_concat(h: u64, a: Seq<u8>, b: Seq<u8>)
    ensures
        fnv_bytes(fnv_bytes(h, a), b) == fnv_bytes(h, a + b),
    decreases b.len(),
{
    if b.len() > 0 {
        lemma_fnv_bytes_concat(h, a, b.drop_last());
        assert((a + b).drop_last() =~= a + b.drop_last());
    } else {
        assert(a + b =~= a);
    }
}

/// A running FNV-1a hash.
#[derive(Clone, Copy, Debug)]
pub struct StateHasher {
    state: u64,
}

impl StateHasher {
    /// The current state of the hash.
    pub closed spec fn state(&self) -> u64 {
        self.state
    }

    /// A hasher that has seen no bytes.
    pub fn new() -> (r: StateHasher)
        ensures
            r.state() == FNV_OFFSET,
    {
        StateHasher { state: FNV_OFFSET }
    }

    /// Feeds the `n` low bytes of `w`, least significant first.
    fn write_le(&mut self, w: u64, n: u64)
        requires
            n <= 8,
        ensures
            final(self).state() == fnv_bytes(old(self).state(), le_bytes(w, n as nat)),
    {
        let ghost h0 = self.state;
        let mut k: u64 = 0;
        while k < n
            invariant
                k <= n,
                n <= 8,
                self.state == fnv_bytes(h0, le_bytes(w, k as nat)),
            decreases n - k,
        {
            let b: u8 = ((w >> (8 * k)) & 0xff) as u8;
            proof {
                assert(le_bytes(w, (k + 1) as nat).drop_last() =~= le_bytes(w, k as nat));
                assert(le_bytes(w, (k + 1) as nat).last() == b);
            }
            self.state = (self.state ^ (b as u64)).wrapping_mul(FNV_PRIME);
            k = k + 1;
        }
    }

    /// Feeds one byte.
    pub fn write_u8(&mut self, x: u8)
        ensures
            final(self).state() == fnv_bytes(old(self).state(), le_bytes(x as u64, 1)),
    {
        self.write_le(x as u64, 1);
    }

    /// Feeds a boolean as one byte, 1 for true.
    pub fn write_bool(&mut self, x: bool)
        ensures
            final(self).state() == fnv_bytes(old(self).state(), le_bytes(if x { 1 } else { 0 }, 1)),
    {
        self.write_le(if x { 1 } else { 0 }, 1);
    }

    /// Feeds the four bytes of `x`, least significant first.
    pub fn write_u32(&mut self, x: u32)
        ensures
            final(self).state() == fnv_bytes(old(self).state(), le_bytes(x as u64, 4)),
    {
        self.write_le(x as u64, 4);
    }

    /// Feeds the eight bytes of `x`, least significant first.
    pub fn write_u64(&mut self, x: u64)
        ensures
            final(self).state() == fnv_bytes(old(self).state(), le_bytes(x, 8)),
    {
        self.write_le(x, 8);
    }

    /// The hash of everything fed so far.
    pub fn finish(&self) -> (r: u64)
        ensures
            r == self.state(),
    {
        self.state
    }
}

/// The trace id of plugin `plugin_index` on entity `entity` in tick
/// `tick`, under `master_seed`: the hash of the four words in that order.
pub fn trace_id_for(master_seed: u64, tick: u64, entity: u64, plugin_index: u64) -> (r: TraceId)
    ensures
        r.0 == fnv_bytes(FNV_OFFSET, words_bytes(seq![master_seed, tick, entity, plugin_index])),
{
    let mut h = StateHasher::new();
    h.write_u64(master_seed);
    h.write_u64(tick);
    h.write_u64(entity);
    h.write_u64(plugin_index);
    proof {
        let s = seq![master_seed, tick, entity, plugin_index];
        assert(s.drop_last() =~= seq![master_seed, tick, entity]);
        assert(s.drop_last().drop_last() =~= seq![master_seed, tick]);
        assert(s.drop_last().drop_last().drop_last() =~= seq![master_seed]);
        assert(s.drop_last().drop_last().drop_last().drop_last() =~= Seq::<u64>::empty());
        assert(seq![master_seed].drop_last() =~= Seq::<u64>::empty());
        assert(seq![master_seed, tick].drop_last() =~= seq![master_seed]);
        assert(seq![master_seed, tick, entity].drop_last() =~= seq![master_seed, tick]);
        assert(words_bytes(Seq::<u64>::empty()) =~= Seq::<u8>::empty());
        assert(words_bytes(seq![master_seed]) =~= le_bytes(master_seed, 8));
        lemma_fnv_bytes_concat(FNV_OFFSET, le_bytes(master_seed, 8), le_bytes(tick, 8));
        lemma_fnv_bytes_concat(FNV_OFFSET, words_bytes(seq![master_seed, tick]), le_bytes(entity, 8));
        lemma_fnv_bytes_concat(FNV_OFFSET, words_bytes(seq![master_seed, tick, entity]), le_bytes(plugin_index, 8));
    }
    TraceId(h.finish())
}

/// Feeds a node's bounds to `hasher`: the bit patterns of the minimum
/// corner's x, y, z, then of the maximum corner's x, y, z.
pub fn hash_bounds(bits: &[u32; 6], hasher: &mut StateHasher)
    ensures
        final(hasher).state() == fnv_bytes(
            old(hasher).state(),
            le_bytes(bits@[0] as u64, 4) + le_bytes(bits@[1] as u64, 4) + le_bytes(bits@[2] as u64, 4)
                + le_bytes(bits@[3] as u64, 4) + le_bytes(bits@[4] as u64, 4) + le_bytes(bits@[5] as u64, 4),
        ),
{
    let ghost h0 = hasher.state();
    let ghost b0 = le_bytes(bits@[0] as u64, 4);
    let ghost b1 = le_bytes(bits@[1] as u64, 4);
    let ghost b2 = le_bytes(bits@[2] as u64, 4);
    let ghost b3 = le_bytes(bits@[3] as u64, 4);
    let ghost b4 = le_bytes(bits@[4] as u64, 4);
    let ghost b5 = le_bytes(bits@[5] as u64, 4);
    hasher.write_u32(bits[0]);
    hasher.write_u32(bits[1]);
    proof {
        lemma_fnv_bytes_concat(h0, b0, b1);
    }
    hasher.write_u32(bits[2]);
    proof {
        lemma_fnv_bytes_concat(h0, b0 + b1, b2);
    }
    hasher.write_u32(bits[3]);
    proof {
        lemma_fnv_bytes_concat(h0, b0 + b1 + b2, b3);
    }
    hasher.write_u32(bits[4]);
    proof {
        lemma_fnv_bytes_concat(h0, b0 + b1 + b2 + b3, b4);
    }
    hasher.write_u32(bits[5]);
    proof {
        lemma_fnv_bytes_concat(h0, b0 + b1 + b2 + b3 + b4, b5);
    }
}

} // verus!
