//! The balls in the game and the static table of their size tiers.
//!
//! A tier is a discrete size/mass class; merging advances an object to the
//! next tier.  The table is built once at startup and read-only afterwards.
//! Physical quantities are held as scaled integers: diameters in hundredths
//! of a millimetre, masses in milligrams, so every derived quantity is exact.

use vstd::prelude::*;

use crate::geometry::Vec2i;

verus! {

/// On-screen scale, in tenths of a pixel per millimetre (2.5 px/mm).
pub const PIXELS_PER_MM_E1: u64 = 25;

/// One size tier of ball: its physical identity and its sprite.
///
/// The tiers are euro coins; the diameters and masses are the official mint
/// figures.
#[derive(Clone, Debug)]
pub struct BallPhase {
    /// Coin diameter, in hundredths of a millimetre.
    pub diameter_hundredth_mm: u32,
    /// Coin mass, in milligrams.
    pub mass_mg: u32,
    /// Asset path of the sprite drawn for this tier.
    pub texture: String,
}

impl BallPhase {
    /// Collider radius on screen, in ten-thousandths of a pixel:
    /// `diameter / 100` millimetres times `2.5` px/mm, halved, scaled by 1e4.
    pub open spec fn spec_radius_px_e4(self) -> int {
        self.diameter_hundredth_mm * PIXELS_PER_MM_E1 * 5
    }

    /// Collider radius on screen, in ten-thousandths of a pixel.
    pub fn radius_px_e4(&self) -> (r: u64)
        ensures
            r == self.spec_radius_px_e4(),
    {
        (self.diameter_hundredth_mm as u64) * PIXELS_PER_MM_E1 * 5
    }
}

/// The ordered, immutable table of tiers.  Index 0 is the smallest tier, the
/// one the player spawns; the last index is terminal: no further merge.
#[derive(Clone, Debug)]
pub struct TierTable {
    pub phases: Vec<BallPhase>,
}

impl TierTable {
    /// A table is well formed when it has at least one tier, so that tier 0
    /// (the spawnable tier) exists.
    pub open spec fn well_formed(self) -> bool {
        self.phases@.len() >= 1
    }

    pub fn new(phases: Vec<BallPhase>) -> (r: TierTable)
        requires
            phases@.len() >= 1,
        ensures
            r.phases == phases,
            r.well_formed(),
    {
        TierTable { phases }
    }

    /// How many tiers exist (called N elsewhere).
    pub fn tier_count(&self) -> (n: usize)
        ensures
            n == self.phases@.len(),
    {
        self.phases.len()
    }

    /// The tier at index `i`; an index at or past the end is a programmer
    /// error, ruled out by the precondition.
    pub fn tier_at(&self, i: usize) -> (r: &BallPhase)
        requires
            i < self.phases@.len(),
        ensures
            *r == self.phases@[i as int],
    {
        &self.phases[i]
    }

    /// The tier a merge at tier `i` advances to: `i + 1` if that is still a
    /// tier, and nothing at the terminal tier.
    pub fn next_tier(&self, i: usize) -> (r: Option<usize>)
        ensures
            i + 1 < self.phases@.len() ==> r == Some((i + 1) as usize),
            i + 1 >= self.phases@.len() ==> r is None,
    {
        if i < self.phases.len() && self.phases.len() - i > 1 {
            Some(i + 1)
        } else {
            None
        }
    }
}

/// The built-in eight-tier table: the euro coin series, one cent through two
/// euro, with the official diameters and masses.
pub fn euro_phases() -> (r: TierTable)
    ensures
        r.phases@.len() == 8,
        r.well_formed(),
        r.phases@[0].diameter_hundredth_mm == 1625 && r.phases@[0].mass_mg == 2300,
        r.phases@[1].diameter_hundredth_mm == 1875 && r.phases@[1].mass_mg == 3060,
        r.phases@[2].diameter_hundredth_mm == 2125 && r.phases@[2].mass_mg == 3920,
        r.phases@[3].diameter_hundredth_mm == 1975 && r.phases@[3].mass_mg == 4100,
        r.phases@[4].diameter_hundredth_mm == 2225 && r.phases@[4].mass_mg == 5740,
        r.phases@[5].diameter_hundredth_mm == 2475 && r.phases@[5].mass_mg == 7800,
        r.phases@[6].diameter_hundredth_mm == 2325 && r.phases@[6].mass_mg == 7500,
        r.phases@[7].diameter_hundredth_mm == 2575 && r.phases@[7].mass_mg == 8500,
        r.phases@[0].texture@ == "euro/png/common_1cent_800.png"@,
        r.phases@[1].texture@ == "euro/png/common_2cent_800.png"@,
        r.phases@[2].texture@ == "euro/png/common_5cent_800.png"@,
        r.phases@[3].texture@ == "euro/png/10common.png"@,
        r.phases@[4].texture@ == "euro/png/common_20cent_800.png"@,
        r.phases@[5].texture@ == "euro/png/common_50cent_800.png"@,
        r.phases@[6].texture@ == "euro/png/common_1euro_800.png"@,
        r.phases@[7].texture@ == "euro/png/common_2euro_800.png"@,
{
    let mut phases: Vec<BallPhase> = Vec::new();
    phases.push(BallPhase {
        diameter_hundredth_mm: 1625,
        mass_mg: 2300,
        texture: "euro/png/common_1cent_800.png".to_owned(),
    });
    phases.push(BallPhase {
        diameter_hundredth_mm: 1875,
        mass_mg: 3060,
        texture: "euro/png/common_2cent_800.png".to_owned(),
    });
    phases.push(BallPhase {
        diameter_hundredth_mm: 2125,
        mass_mg: 3920,
        texture: "euro/png/common_5cent_800.png".to_owned(),
    });
    phases.push(BallPhase {
        diameter_hundredth_mm: 1975,
        mass_mg: 4100,
        texture: "euro/png/10common.png".to_owned(),
    });
    phases.push(BallPhase {
        diameter_hundredth_mm: 2225,
        mass_mg: 5740,
        texture: "euro/png/common_20cent_800.png".to_owned(),
    });
    phases.push(BallPhase {
        diameter_hundredth_mm: 2475,
        mass_mg: 7800,
        texture: "euro/png/common_50cent_800.png".to_owned(),
    });
    phases.push(BallPhase {
        diameter_hundredth_mm: 2325,
        mass_mg: 7500,
        texture: "euro/png/common_1euro_800.png".to_owned(),
    });
    phases.push(BallPhase {
        diameter_hundredth_mm: 2575,
        mass_mg: 8500,
        texture: "euro/png/common_2euro_800.png".to_owned(),
    });
    TierTable { phases }
}

/// One in-play ball, as the core sees it.  The physics simulation owns the
/// object once spawned; the core reads the tier and the position, and issues
/// create/destroy requests by handle — it never moves an object itself.
#[derive(Clone, Copy, PartialEq, Eq, Structural, Debug)]
pub struct GameObject {
    /// The host engine's entity handle.
    pub id: u64,
    /// Tier index; invariant `tier < N` for every live object.
    pub tier: usize,
    pub position: Vec2i,
    pub velocity: Vec2i,
}

} // verus!
