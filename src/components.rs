//! Plain enumerations carried by entity components.
use vstd::prelude::*;

verus! {

/// Ammunition types for weapons.
#[derive(Clone, Copy, PartialEq, Eq, PartialOrd, Ord, Hash, Debug, Structural)]
pub enum AmmoType {
    Bullet,
    Missile,
    Torpedo,
    Shell,
    DepthCharge,
    Countermeasure,
}

/// Emissions mode of a sensor suite: detection traded against signature.
#[derive(Clone, Copy, PartialEq, Eq, Hash, Debug, Structural)]
pub enum EmissionsMode {
    Silent,
    Passive,
    Active,
}

impl Default for EmissionsMode {
    fn default() -> (r: EmissionsMode)
        ensures
            r == EmissionsMode::Passive,
    {
        EmissionsMode::Passive
    }
}

/// Track quality ladder: `Cue < Coarse < FireControl < Shared`.
#[derive(Clone, Copy, PartialEq, Eq, PartialOrd, Ord, Hash, Debug, Structural)]
pub enum TrackQuality {
    Cue,
    Coarse,
    FireControl,
    Shared,
}

/// The rung of a track quality on the ladder, from 0 for `Cue`.
pub open spec fn quality_rank(q: TrackQuality) -> nat {
    match q {
        TrackQuality::Cue => 0,
        TrackQuality::Coarse => 1,
        TrackQuality::FireControl => 2,
        TrackQuality::Shared => 3,
    }
}

impl TrackQuality {
    /// The rung of this quality on the ladder.
    pub fn rank(&self) -> (r: u8)
        ensures
            r as nat == quality_rank(*self),
    {
        match self {
            TrackQuality::Cue => 0,
            TrackQuality::Coarse => 1,
            TrackQuality::FireControl => 2,
            TrackQuality::Shared => 3,
        }
    }

    /// Whether this quality is at least `other` on the ladder.
    pub fn at_least(&self, other: TrackQuality) -> (r: bool)
        ensures
            r == (quality_rank(*self) >= quality_rank(other)),
    {
        self.rank() >= other.rank()
    }
}

impl Default for TrackQuality {
    fn default() -> (r: TrackQuality)
        ensures
            r == TrackQuality::Cue,
    {
        TrackQuality::Cue
    }
}

/// Stat identifiers for the effect system.
#[derive(Clone, Copy, PartialEq, Eq, Hash, Debug, Structural)]
pub enum StatId {
    PositionX,
    PositionY,
    Heading,
    VelocityX,
    VelocityY,
    AngularVelocity,
    MaxSpeed,
    MaxTurnRate,
    Hp,
    MaxHp,
    RadarRange,
    SonarRange,
    Fuel,
}

} // verus!
