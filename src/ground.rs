//! The data held by one hex column.
use vstd::prelude::*;

verus! {

/// The material of one section of a pillar.
#[derive(Clone, Copy, Debug, PartialEq, Eq, Structural)]
pub enum GroundMaterial {
    Dirt,
    Grass,
    Stone,
}

/// A vertical run of one material inside a pillar, from `bottom` to `top`.
#[derive(Clone, Copy, Debug, PartialEq, Eq, Structural)]
pub struct PillarSection {
    pub material: GroundMaterial,
    pub bottom: u16,
    pub top: u16,
}

/// The payload of one hex column: a stack of material sections. The world
/// stores and hands out pillars without looking inside them.
#[derive(Clone, Debug, PartialEq)]
pub struct HexPillar {
    pub sections: Vec<PillarSection>,
}

} // verus!
