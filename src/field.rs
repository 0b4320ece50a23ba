//! The discrete vocabulary of the field store: field channels and their
//! fixed indices, aggregation modes, query resolution levels, the octant
//! numbering of an octree cell, neighbour directions, tree statistics, and
//! the material-channel statistics.
use vstd::prelude::*;

verus! {

/// The number of field channels.
pub const FIELD_COUNT: usize = 12;

/// The twelve scalar channels, in their fixed index order.
#[derive(Clone, Copy, PartialEq, Eq, Hash, Debug, Structural)]
pub enum Field {
    Occupancy,
    Material,
    Integrity,
    Temperature,
    Smoke,
    Noise,
    Signal,
    CurrentX,
    CurrentY,
    Depth,
    Salinity,
    SonarReturn,
}

/// The fixed index of a field channel.
pub open spec fn field_index(f: Field) -> nat {
    match f {
        Field::Occupancy => 0,
        Field::Material => 1,
        Field::Integrity => 2,
        Field::Temperature => 3,
        Field::Smoke => 4,
        Field::Noise => 5,
        Field::Signal => 6,
        Field::CurrentX => 7,
        Field::CurrentY => 8,
        Field::Depth => 9,
        Field::Salinity => 10,
        Field::SonarReturn => 11,
    }
}

impl Field {
    /// The fixed index of this field, in `0..12`.
    pub fn index(self) -> (r: usize)
        ensures
            r == field_index(self),
            r < FIELD_COUNT,
    {
        match self {
            Field::Occupancy => 0,
            Field::Material => 1,
            Field::Integrity => 2,
            Field::Temperature => 3,
            Field::Smoke => 4,
            Field::Noise => 5,
            Field::Signal => 6,
            Field::CurrentX => 7,
            Field::CurrentY => 8,
            Field::Depth => 9,
            Field::Salinity => 10,
            Field::SonarReturn => 11,
        }
    }

    /// The field with index `i`, if `i < 12`.
    pub fn from_index(i: usize) -> (r: Option<Field>)
        ensures
            match r {
                Some(f) => field_index(f) == i,
                None => i >= FIELD_COUNT,
            },
    {
        if i == 0 {
            Some(Field::Occupancy)
        } else if i == 1 {
            Some(Field::Material)
        } else if i == 2 {
            Some(Field::Integrity)
        } else if i == 3 {
            Some(Field::Temperature)
        } else if i == 4 {
            Some(Field::Smoke)
        } else if i == 5 {
            Some(Field::Noise)
        } else if i == 6 {
            Some(Field::Signal)
        } else if i == 7 {
            Some(Field::CurrentX)
        } else if i == 8 {
            Some(Field::CurrentY)
        } else if i == 9 {
            Some(Field::Depth)
        } else if i == 10 {
            Some(Field::Salinity)
        } else if i == 11 {
            Some(Field::SonarReturn)
        } else {
            None
        }
    }

    /// All twelve fields, each at its own index.
    pub fn all() -> (r: [Field; 12])
        ensures
            forall|i: int| 0 <= i < 12 ==> field_index(#[trigger] r@[i]) == i,
    {
        let r = [
            Field::Occupancy,
            Field::Material,
            Field::Integrity,
            Field::Temperature,
            Field::Smoke,
            Field::Noise,
            Field::Signal,
            Field::CurrentX,
            Field::CurrentY,
            Field::Depth,
            Field::Salinity,
            Field::SonarReturn,
        ];
        assert(field_index(r@[0]) == 0 && field_index(r@[1]) == 1 && field_index(r@[2]) == 2);
        assert(field_index(r@[3]) == 3 && field_index(r@[4]) == 4 && field_index(r@[5]) == 5);
        assert(field_index(r@[6]) == 6 && field_index(r@[7]) == 7 && field_index(r@[8]) == 8);
        assert(field_index(r@[9]) == 9 && field_index(r@[10]) == 10 && field_index(r@[11]) == 11);
        r
    }
}

/// Different fields have different indices.
pub proof fn lemma_field_index_injective(a: Field, b: Field)
    ensures
        field_index(a) == field_index(b) ==> a == b,
        field_index(a) < FIELD_COUNT,
{
}

/// How the values of a field combine over a region.
#[derive(Clone, Copy, PartialEq, Eq, Hash, Debug, Structural)]
pub enum Aggregation {
    Mean,
    Max,
    Min,
    Mode,
}

/// The depth part of a volumetric query's resolution: an explicit depth, a
/// variance threshold (which descends as far as the tree goes), one of the
/// presets, or the full depth of the tree.
#[derive(Clone, Copy, PartialEq, Eq, Hash, Debug, Structural)]
pub enum ResolutionLevel {
    Depth(u8),
    Variance,
    Coarse,
    Medium,
    Fine,
    Full,
}

/// The depth a query of this level descends to in a tree of depth `tree_max`.
pub open spec fn level_depth(level: ResolutionLevel, tree_max: u8) -> u8 {
    let wanted: u8 = match level {
        ResolutionLevel::Depth(d) => d,
        ResolutionLevel::Variance => tree_max,
        ResolutionLevel::Coarse => 3,
        ResolutionLevel::Medium => 5,
        ResolutionLevel::Fine => 7,
        ResolutionLevel::Full => tree_max,
    };
    if wanted < tree_max { wanted } else { tree_max }
}

impl ResolutionLevel {
    /// The depth this level descends to, clamped to the tree's maximum depth:
    /// Coarse 3, Medium 5, Fine 7, Full and Variance the tree's depth.
    pub fn max_depth(&self, tree_max: u8) -> (r: u8)
        ensures
            r == level_depth(*self, tree_max),
            r <= tree_max,
    {
        let wanted: u8 = match self {
            ResolutionLevel::Depth(d) => *d,
            ResolutionLevel::Variance => tree_max,
            ResolutionLevel::Coarse => 3,
            ResolutionLevel::Medium => 5,
            ResolutionLevel::Fine => 7,
            ResolutionLevel::Full => tree_max,
        };
        if wanted < tree_max {
            wanted
        } else {
            tree_max
        }
    }
}

/// The octant numbering of a cell's children: bit 0 is the upper half in
/// x, bit 1 in y, bit 2 in z.
pub open spec fn octant_of(upper_x: bool, upper_y: bool, upper_z: bool) -> nat {
    (if upper_x { 1nat } else { 0nat }) + (if upper_y { 2nat } else { 0nat }) + (if upper_z { 4nat } else { 0nat })
}

/// The octant of a point, from which side of the cell's centre it lies on
/// along each axis (at or above the centre is the upper half).
pub fn octant_index(upper_x: bool, upper_y: bool, upper_z: bool) -> (r: usize)
    ensures
        r == octant_of(upper_x, upper_y, upper_z),
        r < 8,
{
    let mut index: usize = 0;
    if upper_x {
        index = index + 1;
    }
    if upper_y {
        index = index + 2;
    }
    if upper_z {
        index = index + 4;
    }
    index
}

/// For octant `octant`, whether its child lies in the upper half along x,
/// y and z.
pub fn octant_sides(octant: usize) -> (r: (bool, bool, bool))
    requires
        octant < 8,
    ensures
        octant_of(r.0, r.1, r.2) == octant,
{
    (octant % 2 == 1, (octant / 2) % 2 == 1, (octant / 4) % 2 == 1)
}

/// The octant map is a bijection between side triples and `0..8`: each
/// octant has exactly one side triple, so the eight children partition the
/// cell.
pub proof fn lemma_octant_bijective(a: (bool, bool, bool), b: (bool, bool, bool))
    ensures
        octant_of(a.0, a.1, a.2) < 8,
        octant_of(a.0, a.1, a.2) == octant_of(b.0, b.1, b.2) ==> a == b,
{
}

/// The six axis directions for neighbour lookup.
#[derive(Clone, Copy, PartialEq, Eq, Hash, Debug, Structural)]
pub enum Direction {
    PosX,
    NegX,
    PosY,
    NegY,
    PosZ,
    NegZ,
}

/// The unit offset of a direction.
pub open spec fn direction_offset(d: Direction) -> (int, int, int) {
    match d {
        Direction::PosX => (1, 0, 0),
        Direction::NegX => (-1, 0, 0),
        Direction::PosY => (0, 1, 0),
        Direction::NegY => (0, -1, 0),
        Direction::PosZ => (0, 0, 1),
        Direction::NegZ => (0, 0, -1),
    }
}

impl Direction {
    /// The unit offset of this direction, one of the six axis unit vectors.
    pub fn offset(self) -> (r: (i8, i8, i8))
        ensures
            (r.0 as int, r.1 as int, r.2 as int) == direction_offset(self),
    {
        match self {
            Direction::PosX => (1, 0, 0),
            Direction::NegX => (-1, 0, 0),
            Direction::PosY => (0, 1, 0),
            Direction::NegY => (0, -1, 0),
            Direction::PosZ => (0, 0, 1),
            Direction::NegZ => (0, 0, -1),
        }
    }

    /// The four directions of the XY plane: +x, -x, +y, -y.
    pub fn xy_directions() -> (r: [Direction; 4])
        ensures
            r@ == seq![Direction::PosX, Direction::NegX, Direction::PosY, Direction::NegY],
    {
        let r = [Direction::PosX, Direction::NegX, Direction::PosY, Direction::NegY];
        assert(r@ =~= seq![Direction::PosX, Direction::NegX, Direction::PosY, Direction::NegY]);
        r
    }

    /// All six directions: +x, -x, +y, -y, +z, -z.
    pub fn all() -> (r: [Direction; 6])
        ensures
            r@ == seq![Direction::PosX, Direction::NegX, Direction::PosY, Direction::NegY, Direction::PosZ, Direction::NegZ],
    {
        let r = [Direction::PosX, Direction::NegX, Direction::PosY, Direction::NegY, Direction::PosZ, Direction::NegZ];
        assert(r@ =~= seq![Direction::PosX, Direction::NegX, Direction::PosY, Direction::NegY, Direction::PosZ, Direction::NegZ]);
        r
    }
}

/// Counts describing an octree's shape.
#[derive(Clone, Copy, PartialEq, Eq, Debug, Structural)]
pub struct OctreeStats {
    /// Total number of nodes.
    pub node_count: usize,
    /// Number of leaf nodes.
    pub leaf_count: usize,
    /// Maximum depth of the tree.
    pub max_depth: u8,
}

impl Default for OctreeStats {
    fn default() -> (r: OctreeStats)
        ensures
            r == (OctreeStats { node_count: 0, leaf_count: 0, max_depth: 0 }),
    {
        OctreeStats { node_count: 0, leaf_count: 0, max_depth: 0 }
    }
}

/// Statistics of the material channel: the most common material, its
/// count, the number of samples, and a short distribution.
#[derive(Clone, Copy, PartialEq, Eq, Debug)]
pub struct MaterialStats {
    /// Most common material id.
    pub mode: u8,
    /// Count of the most common material.
    pub mode_count: u32,
    /// Total sample count.
    pub sample_count: u32,
    /// Up to four `(material, count)` entries.
    pub distribution: [(u8, u32); 4],
}

/// Material statistics of no samples.
pub open spec fn material_empty() -> MaterialStats {
    MaterialStats { mode: 0, mode_count: 0, sample_count: 0, distribution: [(0u8, 0u32), (0u8, 0u32), (0u8, 0u32), (0u8, 0u32)] }
}

/// Merge of two material statistics: the side whose mode count is larger
/// (the first on a tie) gives mode, mode count and distribution; sample
/// counts add.
pub open spec fn material_merge(a: MaterialStats, b: MaterialStats) -> MaterialStats
    recommends
        a.sample_count + b.sample_count <= u32::MAX,
{
    let winner = if a.mode_count >= b.mode_count { a } else { b };
    MaterialStats {
        mode: winner.mode,
        mode_count: winner.mode_count,
        sample_count: (a.sample_count + b.sample_count) as u32,
        distribution: winner.distribution,
    }
}

/// The sum of the sample counts of `s`.
pub open spec fn total_samples(s: Seq<MaterialStats>) -> nat
    decreases s.len(),
{
    if s.len() == 0 {
        0
    } else {
        (total_samples(s.drop_last()) + s.last().sample_count) as nat
    }
}

/// The left fold of `material_merge` over `s`, from the empty statistics.
pub open spec fn material_merge_all(s: Seq<MaterialStats>) -> MaterialStats
    decreases s.len(),
{
    if s.len() == 0 {
        material_empty()
    } else {
        material_merge(material_merge_all(s.drop_last()), s.last())
    }
}

/// Merging keeps a count of every sample: the merged sample count is the
/// total over the parts.
pub proof fn lemma_merge_all_counts_samples(s: Seq<MaterialStats>)
    requires
        total_samples(s) <= u32::MAX,
    ensures
        material_merge_all(s).sample_count == total_samples(s),
    decreases s.len(),
{
    if s.len() > 0 {
        lemma_merge_all_counts_samples(s.drop_last());
    }
}

impl MaterialStats {
    /// Statistics of a single sample of `material`.
    pub fn from_value(material: u8) -> (r: MaterialStats)
        ensures
            r == (MaterialStats {
                mode: material,
                mode_count: 1,
                sample_count: 1,
                distribution: [(material, 1u32), (0u8, 0u32), (0u8, 0u32), (0u8, 0u32)],
            }),
    {
        MaterialStats {
            mode: material,
            mode_count: 1,
            sample_count: 1,
            distribution: [(material, 1), (0, 0), (0, 0), (0, 0)],
        }
    }

    /// Statistics of no samples.
    pub fn empty() -> (r: MaterialStats)
        ensures
            r == material_empty(),
    {
        let r = MaterialStats {
            mode: 0,
            mode_count: 0,
            sample_count: 0,
            distribution: [(0, 0), (0, 0), (0, 0), (0, 0)],
        };
        assert(r.distribution@ =~= material_empty().distribution@);
        r
    }

    /// Merges two material statistics.
    pub fn merge(a: &MaterialStats, b: &MaterialStats) -> (r: MaterialStats)
        requires
            a.sample_count + b.sample_count <= u32::MAX,
        ensures
            r == material_merge(*a, *b),
    {
        let sample_count = a.sample_count + b.sample_count;
        if a.mode_count >= b.mode_count {
            MaterialStats { mode: a.mode, mode_count: a.mode_count, sample_count, distribution: a.distribution }
        } else {
            MaterialStats { mode: b.mode, mode_count: b.mode_count, sample_count, distribution: b.distribution }
        }
    }

    /// Merges a list of material statistics, left to right from empty.
    pub fn merge_many(stats: &[MaterialStats]) -> (r: MaterialStats)
        requires
            total_samples(stats@) <= u32::MAX,
        ensures
            r == material_merge_all(stats@),
            r.sample_count == total_samples(stats@),
    {
        let mut acc = MaterialStats::empty();
        let mut i: usize = 0;
        while i < stats.len()
            invariant
                i <= stats@.len(),
                total_samples(stats@) <= u32::MAX,
                acc == material_merge_all(stats@.subrange(0, i as int)),
                acc.sample_count == total_samples(stats@.subrange(0, i as int)),
            decreases stats@.len() - i,
        {
            proof {
                let pre = stats@.subrange(0, i as int);
                let next = stats@.subrange(0, i + 1);
                assert(next.drop_last() =~= pre);
                lemma_total_samples_prefix(stats@, i + 1);
            }
            acc = MaterialStats::merge(&acc, &stats[i]);
            i = i + 1;
        }
        assert(stats@.subrange(0, stats@.len() as int) =~= stats@);
        acc
    }
}

/// The samples of a prefix are no more than those of the whole.
proof fn lemma_total_samples_prefix(s: Seq<MaterialStats>, k: int)
    requires
        0 <= k <= s.len(),
    ensures
        total_samples(s.subrange(0, k)) <= total_samples(s),
    decreases s.len(),
{
    if k < s.len() {
        assert(s.drop_last() =~= s.subrange(0, s.len() - 1));
        assert(s.drop_last().subrange(0, k) =~= s.subrange(0, k));
        lemma_total_samples_prefix(s.drop_last(), k);
    } else {
        assert(s.subrange(0, k) =~= s);
    }
}

impl Default for MaterialStats {
    fn default() -> (r: MaterialStats)
        ensures
            r == material_empty(),
    {
        MaterialStats::empty()
    }
}

} // verus!
