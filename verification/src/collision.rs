//! Collision layers of the rig and the rule by which two sets of groups
//! interact.

use vstd::prelude::*;

verus! {

/// Bit of the layer that ground surfaces belong to.
pub const GROUND_BIT: u32 = 0b0010;

/// Bit of the layer that the character belongs to.
pub const CHARACTER_BIT: u32 = 0b0100;

/// A layer that a collider can belong to.
#[derive(Clone, Copy, Debug, PartialEq, Eq, Structural)]
pub enum CollisionLayer {
    /// Surfaces that the character can stand on.
    Ground,
    /// The character's own body and sensors.
    Character,
}

/// The layers that a collider or a query belongs to, and those it meets.
#[derive(Clone, Copy, Debug, PartialEq, Eq, Structural)]
pub struct LayerGroups {
    /// Bits of the layers this one belongs to.
    pub memberships: u32,
    /// Bits of the layers this one may interact with.
    pub filters: u32,
}

impl CollisionLayer {
    /// The bit that stands for the layer.
    pub open spec fn spec_bit(self) -> u32 {
        match self {
            CollisionLayer::Ground => GROUND_BIT,
            CollisionLayer::Character => CHARACTER_BIT,
        }
    }

    /// The bit that stands for the layer.
    pub fn bit(self) -> (r: u32)
        ensures
            r == self.spec_bit(),
    {
        match self {
            CollisionLayer::Ground => GROUND_BIT,
            CollisionLayer::Character => CHARACTER_BIT,
        }
    }
}

impl LayerGroups {
    /// Whether two sets of groups interact: each belongs to a layer that
    /// the other meets.
    pub open spec fn spec_interacts(self, other: LayerGroups) -> bool {
        (self.memberships & other.filters) != 0 && (other.memberships & self.filters) != 0
    }

    /// Whether two sets of groups interact.
    pub fn interacts(self, other: LayerGroups) -> (r: bool)
        ensures
            r == self.spec_interacts(other),
    {
        (self.memberships & other.filters) != 0 && (other.memberships & self.filters) != 0
    }

    /// The groups of a surface of the stage: ground that meets the character.
    pub open spec fn spec_stage() -> LayerGroups {
        LayerGroups { memberships: GROUND_BIT, filters: CHARACTER_BIT }
    }

    /// The groups of the character's body: character that meets ground and
    /// character.
    pub open spec fn spec_character_body() -> LayerGroups {
        LayerGroups { memberships: CHARACTER_BIT, filters: GROUND_BIT | CHARACTER_BIT }
    }

    /// The groups of the character's ground probe: character that meets
    /// ground only.
    pub open spec fn spec_ground_probe() -> LayerGroups {
        LayerGroups { memberships: CHARACTER_BIT, filters: GROUND_BIT }
    }

    /// The groups of a surface of the stage.
    pub fn stage() -> (r: LayerGroups)
        ensures
            r == LayerGroups::spec_stage(),
    {
        LayerGroups { memberships: GROUND_BIT, filters: CHARACTER_BIT }
    }

    /// The groups of the character's body.
    pub fn character_body() -> (r: LayerGroups)
        ensures
            r == LayerGroups::spec_character_body(),
    {
        LayerGroups { memberships: CHARACTER_BIT, filters: GROUND_BIT | CHARACTER_BIT }
    }

    /// The groups of the character's ground probe.
    pub fn ground_probe() -> (r: LayerGroups)
        ensures
            r == LayerGroups::spec_ground_probe(),
    {
        LayerGroups { memberships: CHARACTER_BIT, filters: GROUND_BIT }
    }
}

/// The ground probe finds the stage and never the character's own body.
pub proof fn lemma_ground_probe_meets_stage_only()
    ensures
        LayerGroups::spec_ground_probe().spec_interacts(LayerGroups::spec_stage()),
        !LayerGroups::spec_ground_probe().spec_interacts(LayerGroups::spec_character_body()),
        LayerGroups::spec_character_body().spec_interacts(LayerGroups::spec_stage()),
{
    assert(0b0100u32 & 0b0100u32 != 0) by (bit_vector);
    assert(0b0010u32 & 0b0010u32 != 0) by (bit_vector);
    assert(0b0100u32 & 0b0010u32 == 0) by (bit_vector);
    assert(0b0010u32 & (0b0010u32 | 0b0100u32) != 0) by (bit_vector);
    assert(0b0100u32 & (0b0010u32 | 0b0100u32) != 0) by (bit_vector);
}

} // verus!
