//! Chunks: square blocks of pillars, and the indices that address pillars
//! globally and chunks in chunk space.
use vstd::prelude::*;
use crate::ground::HexPillar;
use crate::math::{floor_div, floor_mod, AxialPoint};

verus! {

/// Width and height of a chunk, in pillars.
pub const CHUNK_SIZE: i32 = 16;

/// Number of pillars in a chunk: `CHUNK_SIZE * CHUNK_SIZE`.
pub const CHUNK_AREA: usize = 256;

/// A hex column in global world space.
#[derive(Clone, Copy, Debug, PartialEq, Eq, Hash, Structural)]
pub struct PillarIndex(pub AxialPoint);

/// A chunk slot in chunk space: one unit is one chunk width.
#[derive(Clone, Copy, Debug, PartialEq, Eq, Hash, Structural)]
pub struct ChunkIndex(pub AxialPoint);

/// The chunk that holds the pillar at `pos`.
pub open spec fn chunk_of(pos: PillarIndex) -> ChunkIndex {
    ChunkIndex(
        AxialPoint {
            q: floor_div(pos.0.q as int, CHUNK_SIZE as int) as i32,
            r: floor_div(pos.0.r as int, CHUNK_SIZE as int) as i32,
        },
    )
}

/// The offset of the pillar at `pos` inside its chunk.
pub open spec fn local_of(pos: PillarIndex) -> AxialPoint {
    AxialPoint {
        q: floor_mod(pos.0.q as int, CHUNK_SIZE as int) as i32,
        r: floor_mod(pos.0.r as int, CHUNK_SIZE as int) as i32,
    }
}

/// Whether `local` addresses a pillar inside a chunk.
pub open spec fn in_bounds(local: AxialPoint) -> bool {
    0 <= local.q < CHUNK_SIZE && 0 <= local.r < CHUNK_SIZE
}

/// Where the pillar at `local` is kept in a chunk's row-major sequence.
pub open spec fn local_index(local: AxialPoint) -> int {
    local.r * CHUNK_SIZE + local.q
}

impl PillarIndex {
    /// The index of the chunk holding this pillar: each component floor
    /// divided by `CHUNK_SIZE`.
    pub fn chunk_index(self) -> (c: ChunkIndex)
        ensures
            c == chunk_of(self),
    {
        ChunkIndex(self.0.div_floor(CHUNK_SIZE))
    }

    /// The pillar's offset inside its chunk: each component floor modulo
    /// `CHUNK_SIZE`, so always in bounds.
    pub fn local_offset(self) -> (p: AxialPoint)
        ensures
            p == local_of(self),
            in_bounds(p),
    {
        self.0.mod_floor(CHUNK_SIZE)
    }
}

/// A local coordinate that lies outside `[0, CHUNK_SIZE)` in some component.
#[derive(Clone, Copy, Debug, PartialEq, Eq, Structural)]
pub struct OutOfBounds {
    pub local: AxialPoint,
}

/// A fully populated `CHUNK_SIZE × CHUNK_SIZE` block of pillars. The pillar
/// at local offset `(q, r)` is kept at position `r * CHUNK_SIZE + q`.
#[derive(Debug, PartialEq)]
pub struct Chunk {
    pillars: Vec<HexPillar>,
}

impl View for Chunk {
    type V = Seq<HexPillar>;

    closed spec fn view(&self) -> Seq<HexPillar> {
        self.pillars@
    }
}

impl Chunk {
    #[verifier::type_invariant]
    spec fn fully_populated(self) -> bool {
        self.pillars@.len() == CHUNK_AREA
    }

    /// The pillar at local offset `local`.
    pub open spec fn spec_pillar(&self, local: AxialPoint) -> HexPillar {
        self@[local_index(local)]
    }

    /// Builds a chunk from its pillars in row-major order. A vector that
    /// does not hold exactly `CHUNK_AREA` pillars is handed back.
    pub fn from_pillars(pillars: Vec<HexPillar>) -> (r: Result<Chunk, Vec<HexPillar>>)
        ensures
            match r {
                Ok(c) => pillars@.len() == CHUNK_AREA && c@ == pillars@,
                Err(p) => pillars@.len() != CHUNK_AREA && p@ == pillars@,
            },
    {
        if pillars.len() == CHUNK_AREA {
            Ok(Chunk { pillars })
        } else {
            Err(pillars)
        }
    }

    /// The pillar at local offset `local`, or `OutOfBounds` where a
    /// component of `local` lies outside `[0, CHUNK_SIZE)`.
    pub fn get(&self, local: AxialPoint) -> (r: Result<&HexPillar, OutOfBounds>)
        ensures
            match r {
                Ok(p) => in_bounds(local) && *p == self.spec_pillar(local),
                Err(e) => !in_bounds(local) && e == (OutOfBounds { local }),
            },
    {
        proof {
            use_type_invariant(self);
        }
        if 0 <= local.q && local.q < CHUNK_SIZE && 0 <= local.r && local.r < CHUNK_SIZE {
            let i = (local.r * CHUNK_SIZE + local.q) as usize;
            Ok(&self.pillars[i])
        } else {
            Err(OutOfBounds { local })
        }
    }
}

} // verus!
