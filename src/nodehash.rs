//! The state hash of a field store: a fixed walk over a bit-pattern image
//! of the octree (node depth, bounds, state discriminant, leaf values or
//! cached statistics, then each child slot in octant order), fed to the
//! stable mixing hash.
use vstd::prelude::*;
use crate::field::MaterialStats;
use crate::statehash::{fnv_bytes, hash_bounds, lemma_fnv_bytes_concat, le_bytes, StateHasher, FNV_OFFSET};

verus! {

/// Cached statistics of one scalar field, as bit patterns.
#[derive(Clone, Copy, Debug)]
pub struct ScalarStatsImage {
    pub mean: u32,
    pub variance: u32,
    pub min: u32,
    pub max: u32,
    pub sample_count: u32,
}

/// Cached statistics of an internal node: one per field, and the material
/// statistics.
#[derive(Clone, Debug)]
pub struct StatsImage {
    pub scalars: Vec<ScalarStatsImage>,
    pub material: MaterialStats,
}

/// The state of an octree node, as bit patterns.
#[derive(Debug)]
pub enum NodeImageState {
    Empty,
    Leaf { values: Vec<u32> },
    Internal { stats: StatsImage, children: Vec<Option<Box<NodeImage>>> },
}

/// An octree node as bit patterns: depth, the six bound coordinates
/// (minimum x, y, z then maximum x, y, z), and its state.
#[derive(Debug)]
pub struct NodeImage {
    pub depth: u8,
    pub bounds: [u32; 6],
    pub state: NodeImageState,
}

/// The byte of a `u8`.
pub open spec fn b8(x: u8) -> Seq<u8> {
    le_bytes(x as u64, 1)
}

/// The four bytes of a `u32`, least significant first.
pub open spec fn b32(x: u32) -> Seq<u8> {
    le_bytes(x as u64, 4)
}

/// The eight bytes of a `u64`, least significant first.
pub open spec fn b64(x: u64) -> Seq<u8> {
    le_bytes(x, 8)
}

/// The bytes of a list of `u32`, in order.
pub open spec fn words32_bytes(xs: Seq<u32>) -> Seq<u8>
    decreases xs.len(),
{
    if xs.len() == 0 {
        Seq::empty()
    } else {
        words32_bytes(xs.drop_last()) + b32(xs.last())
    }
}

/// The bytes of one scalar statistics entry: mean, variance, min, max, count.
pub open spec fn scalar_bytes(s: ScalarStatsImage) -> Seq<u8> {
    b32(s.mean) + b32(s.variance) + b32(s.min) + b32(s.max) + b32(s.sample_count)
}

/// The bytes of a list of scalar statistics, in order.
pub open spec fn scalars_bytes(s: Seq<ScalarStatsImage>) -> Seq<u8>
    decreases s.len(),
{
    if s.len() == 0 {
        Seq::empty()
    } else {
        scalars_bytes(s.drop_last()) + scalar_bytes(s.last())
    }
}

/// The bytes of a `(material, count)` distribution entry.
pub open spec fn pair_bytes(p: (u8, u32)) -> Seq<u8> {
    b8(p.0) + b32(p.1)
}

/// The bytes of material statistics: mode, mode count, sample count, then
/// the four distribution entries.
pub open spec fn material_bytes(m: MaterialStats) -> Seq<u8> {
    b8(m.mode) + b32(m.mode_count) + b32(m.sample_count) + pair_bytes(m.distribution[0])
        + pair_bytes(m.distribution[1]) + pair_bytes(m.distribution[2]) + pair_bytes(m.distribution[3])
}

/// The bytes of an internal node's cached statistics.
pub open spec fn stats_bytes(s: StatsImage) -> Seq<u8> {
    scalars_bytes(s.scalars@) + material_bytes(s.material)
}

/// The bytes of a node's depth and bounds.
pub open spec fn header_bytes(n: NodeImage) -> Seq<u8> {
    b8(n.depth) + b32(n.bounds[0]) + b32(n.bounds[1]) + b32(n.bounds[2]) + b32(n.bounds[3])
        + b32(n.bounds[4]) + b32(n.bounds[5])
}

/// The bytes of a node: depth and bounds; then 0 for an empty node, 1 and
/// the values for a leaf, or 2, the cached statistics and the child slots
/// for an internal node.
pub open spec fn node_bytes(n: NodeImage) -> Seq<u8>
    decreases n, 1int,
{
    header_bytes(n) + match n.state {
        NodeImageState::Empty => b8(0),
        NodeImageState::Leaf { values } => b8(1) + words32_bytes(values@),
        NodeImageState::Internal { stats, children } => b8(2) + stats_bytes(stats)
            + slots_bytes(n, children@.len() as int),
    }
}

/// The bytes of the first `k` child slots of internal node `n`: for each
/// slot its index (eight bytes), then 1 and the child's bytes, or 0 when absent.
pub open spec fn slots_bytes(n: NodeImage, k: int) -> Seq<u8>
    decreases n, 0int, k,
{
    match n.state {
        NodeImageState::Internal { stats, children } => {
            if k <= 0 || k > children@.len() {
                Seq::empty()
            } else {
                slots_bytes(n, k - 1) + b64((k - 1) as u64) + match children@[k - 1] {
                    Some(c) => b8(1) + node_bytes(*c),
                    None => b8(0),
                }
            }
        },
        _ => Seq::empty(),
    }
}


/// The bytes of a whole field store: tick, time bits, 1 and the seed or 0
/// when unseeded, then the root node.
pub open spec fn universe_bytes(tick: u64, time_bits: u64, seed: Option<u64>, root: NodeImage) -> Seq<u8> {
    b64(tick) + b64(time_bits) + match seed {
        Some(s) => b8(1) + b64(s),
        None => b8(0),
    } + node_bytes(root)
}

/// Feeds a list of `u32` in order.
fn write_words32(xs: &Vec<u32>, hasher: &mut StateHasher)
    ensures
        final(hasher).state() == fnv_bytes(old(hasher).state(), words32_bytes(xs@)),
{
    let ghost h0 = hasher.state();
    let mut i: usize = 0;
    assert(xs@.subrange(0, 0) =~= Seq::<u32>::empty());
    while i < xs.len()
        invariant
            i <= xs@.len(),
            hasher.state() == fnv_bytes(h0, words32_bytes(xs@.subrange(0, i as int))),
        decreases xs@.len() - i,
    {
        let ghost acc = words32_bytes(xs@.subrange(0, i as int));
        hasher.write_u32(xs[i]);
        proof {
            lemma_fnv_bytes_concat(h0, acc, b32(xs@[i as int]));
            assert(xs@.subrange(0, i + 1).drop_last() =~= xs@.subrange(0, i as int));
        }
        i = i + 1;
    }
    assert(xs@.subrange(0, xs@.len() as int) =~= xs@);
}

/// Feeds one scalar statistics entry.
fn write_scalar(st: &ScalarStatsImage, hasher: &mut StateHasher)
    ensures
        final(hasher).state() == fnv_bytes(old(hasher).state(), scalar_bytes(*st)),
{
    let ghost h0 = hasher.state();
    hasher.write_u32(st.mean);
    hasher.write_u32(st.variance);
    proof {
        lemma_fnv_bytes_concat(h0, b32(st.mean), b32(st.variance));
    }
    hasher.write_u32(st.min);
    proof {
        lemma_fnv_bytes_concat(h0, b32(st.mean) + b32(st.variance), b32(st.min));
    }
    hasher.write_u32(st.max);
    proof {
        lemma_fnv_bytes_concat(h0, b32(st.mean) + b32(st.variance) + b32(st.min), b32(st.max));
    }
    hasher.write_u32(st.sample_count);
    proof {
        lemma_fnv_bytes_concat(
            h0,
            b32(st.mean) + b32(st.variance) + b32(st.min) + b32(st.max),
            b32(st.sample_count),
        );
    }
}

/// Feeds a list of scalar statistics in order.
fn write_scalars(xs: &Vec<ScalarStatsImage>, hasher: &mut StateHasher)
    ensures
        final(hasher).state() == fnv_bytes(old(hasher).state(), scalars_bytes(xs@)),
{
    let ghost h0 = hasher.state();
    let mut i: usize = 0;
    assert(xs@.subrange(0, 0) =~= Seq::<ScalarStatsImage>::empty());
    while i < xs.len()
        invariant
            i <= xs@.len(),
            hasher.state() == fnv_bytes(h0, scalars_bytes(xs@.subrange(0, i as int))),
        decreases xs@.len() - i,
    {
        let ghost acc = scalars_bytes(xs@.subrange(0, i as int));
        write_scalar(&xs[i], hasher);
        proof {
            lemma_fnv_bytes_concat(h0, acc, scalar_bytes(xs@[i as int]));
            assert(xs@.subrange(0, i + 1).drop_last() =~= xs@.subrange(0, i as int));
        }
        i = i + 1;
    }
    assert(xs@.subrange(0, xs@.len() as int) =~= xs@);
}

/// Feeds material statistics.
fn write_material(m: &MaterialStats, hasher: &mut StateHasher)
    ensures
        final(hasher).state() == fnv_bytes(old(hasher).state(), material_bytes(*m)),
{
    let ghost h0 = hasher.state();
    let ghost mut acc: Seq<u8> = b8(m.mode);
    hasher.write_u8(m.mode);
    hasher.write_u32(m.mode_count);
    proof {
        lemma_fnv_bytes_concat(h0, acc, b32(m.mode_count));
        acc = acc + b32(m.mode_count);
    }
    hasher.write_u32(m.sample_count);
    proof {
        lemma_fnv_bytes_concat(h0, acc, b32(m.sample_count));
        acc = acc + b32(m.sample_count);
    }
    let mut k: usize = 0;
    while k < 4
        invariant
            k <= 4,
            hasher.state() == fnv_bytes(h0, acc),
            acc == b8(m.mode) + b32(m.mode_count) + b32(m.sample_count) + pairs_bytes(m.distribution@, k as int),
        decreases 4 - k,
    {
        let (mat, count) = m.distribution[k];
        let ghost before = acc;
        hasher.write_u8(mat);
        proof {
            lemma_fnv_bytes_concat(h0, acc, b8(mat));
            acc = acc + b8(mat);
        }
        hasher.write_u32(count);
        proof {
            lemma_fnv_bytes_concat(h0, acc, b32(count));
            acc = acc + b32(count);
            assert(acc =~= b8(m.mode) + b32(m.mode_count) + b32(m.sample_count) + pairs_bytes(m.distribution@, k + 1));
        }
        k = k + 1;
    }
    proof {
        let d = m.distribution@;
        assert(pairs_bytes(d, 1) =~= pair_bytes(d[0]));
        assert(pairs_bytes(d, 2) =~= pair_bytes(d[0]) + pair_bytes(d[1]));
        assert(pairs_bytes(d, 3) =~= pair_bytes(d[0]) + pair_bytes(d[1]) + pair_bytes(d[2]));
        assert(pairs_bytes(d, 4) =~= pair_bytes(d[0]) + pair_bytes(d[1]) + pair_bytes(d[2]) + pair_bytes(d[3]));
    }
    assert(acc =~= material_bytes(*m));
}

/// The bytes of the first `k` distribution entries.
pub open spec fn pairs_bytes(d: Seq<(u8, u32)>, k: int) -> Seq<u8>
    decreases k,
{
    if k <= 0 {
        Seq::empty()
    } else {
        pairs_bytes(d, k - 1) + pair_bytes(d[k - 1])
    }
}

/// Feeds the bytes of `node`, children included, to `hasher`.
pub fn hash_node(node: &NodeImage, hasher: &mut StateHasher)
    ensures
        final(hasher).state() == fnv_bytes(old(hasher).state(), node_bytes(*node)),
    decreases node,
{
    let ghost h0 = hasher.state();
    hasher.write_u8(node.depth);
    let ghost b = node.bounds@;
    let ghost six = b32(b[0]) + b32(b[1]) + b32(b[2]) + b32(b[3]) + b32(b[4]) + b32(b[5]);
    hash_bounds(&node.bounds, hasher);
    proof {
        lemma_fnv_bytes_concat(h0, b8(node.depth), six);
    }
    let ghost mut acc: Seq<u8> = b8(node.depth) + six;
    assert(acc =~= header_bytes(*node));
    match &node.state {
        NodeImageState::Empty => {
            hasher.write_u8(0);
            proof {
                lemma_fnv_bytes_concat(h0, acc, b8(0));
            }
        },
        NodeImageState::Leaf { values } => {
            hasher.write_u8(1);
            proof {
                lemma_fnv_bytes_concat(h0, acc, b8(1));
                acc = acc + b8(1);
            }
            write_words32(values, hasher);
            proof {
                lemma_fnv_bytes_concat(h0, acc, words32_bytes(values@));
                acc = acc + words32_bytes(values@);
                assert(acc =~= node_bytes(*node));
            }
        },
        NodeImageState::Internal { stats, children } => {
            hasher.write_u8(2);
            proof {
                lemma_fnv_bytes_concat(h0, acc, b8(2));
                acc = acc + b8(2);
            }
            write_scalars(&stats.scalars, hasher);
            proof {
                lemma_fnv_bytes_concat(h0, acc, scalars_bytes(stats.scalars@));
                acc = acc + scalars_bytes(stats.scalars@);
            }
            write_material(&stats.material, hasher);
            proof {
                lemma_fnv_bytes_concat(h0, acc, material_bytes(stats.material));
                acc = acc + material_bytes(stats.material);
                assert(acc =~= header_bytes(*node) + b8(2) + stats_bytes(*stats));
            }
            let ghost base = acc;
            let mut i: usize = 0;
            while i < children.len()
                invariant
                    i <= children@.len(),
                    node.state is Internal,
                    node.state->children == *children,
                    hasher.state() == fnv_bytes(h0, base + slots_bytes(*node, i as int)),
                decreases children@.len() - i,
            {
                let ghost pre = base + slots_bytes(*node, i as int);
                let ghost slot = slot_image_bytes(children@[i as int]);
                proof {
                    lemma_slots_step(*node, i as int);
                }
                hasher.write_u64(i as u64);
                proof {
                    lemma_fnv_bytes_concat(h0, pre, b64(i as u64));
                }
                let ghost mid = pre + b64(i as u64);
                match &children[i] {
                    Some(c) => {
                        hasher.write_u8(1);
                        proof {
                            lemma_fnv_bytes_concat(h0, mid, b8(1));
                        }
                        hash_node(c, hasher);
                        proof {
                            lemma_fnv_bytes_concat(h0, mid + b8(1), node_bytes(**c));
                            assert(mid + b8(1) + node_bytes(**c) =~= mid + slot);
                        }
                    },
                    None => {
                        hasher.write_u8(0);
                        proof {
                            lemma_fnv_bytes_concat(h0, mid, b8(0));
                        }
                    },
                }
                proof {
                    assert(base + slots_bytes(*node, i + 1) =~= mid + slot);
                }
                i = i + 1;
            }
            proof {
                assert(base + slots_bytes(*node, children@.len() as int) =~= node_bytes(*node));
            }
        },
    }
}

/// The bytes of one child slot's content: 1 and the child's bytes, or 0.
pub open spec fn slot_image_bytes(c: Option<Box<NodeImage>>) -> Seq<u8> {
    match c {
        Some(n) => b8(1) + node_bytes(*n),
        None => b8(0),
    }
}

/// One more child slot appends its index and its content.
proof fn lemma_slots_step(n: NodeImage, i: int)
    requires
        n.state is Internal,
        0 <= i < n.state->children@.len(),
    ensures
        slots_bytes(n, i + 1) == slots_bytes(n, i) + b64(i as u64) + slot_image_bytes(n.state->children@[i]),
{
}

/// The state hash of a field store from its tick, the bit pattern of its
/// time, its seed if any, and the image of its root node.
pub fn hash_universe_image(tick: u64, time_bits: u64, seed: Option<u64>, root: &NodeImage) -> (r: u64)
    ensures
        r == fnv_bytes(FNV_OFFSET, universe_bytes(tick, time_bits, seed, *root)),
{
    let mut hasher = StateHasher::new();
    hasher.write_u64(tick);
    hasher.write_u64(time_bits);
    proof {
        lemma_fnv_bytes_concat(FNV_OFFSET, b64(tick), b64(time_bits));
    }
    let ghost mut acc: Seq<u8> = b64(tick) + b64(time_bits);
    match seed {
        Some(s) => {
            hasher.write_u8(1);
            proof {
                lemma_fnv_bytes_concat(FNV_OFFSET, acc, b8(1));
                acc = acc + b8(1);
            }
            hasher.write_u64(s);
            proof {
                lemma_fnv_bytes_concat(FNV_OFFSET, acc, b64(s));
                acc = acc + b64(s);
            }
        },
        None => {
            hasher.write_u8(0);
            proof {
                lemma_fnv_bytes_concat(FNV_OFFSET, acc, b8(0));
                acc = acc + b8(0);
            }
        },
    }
    hash_node(root, &mut hasher);
    proof {
        lemma_fnv_bytes_concat(FNV_OFFSET, acc, node_bytes(*root));
        assert(acc + node_bytes(*root) =~= universe_bytes(tick, time_bits, seed, *root));
    }
    hasher.finish()
}

} // verus!
