//! The world: a sparse store of loaded chunks, keyed by chunk index, that
//! resolves global pillar positions to the pillars inside them.
use vstd::prelude::*;
use std::collections::HashMap;
use crate::chunk::{chunk_of, local_of, Chunk, ChunkIndex, PillarIndex};
use crate::ground::HexPillar;

verus! {

broadcast use vstd::std_specs::hash::group_hash_axioms;

/// The chunk at `index` in the chunk map `m`, if one is loaded there.
pub open spec fn lookup(m: Map<ChunkIndex, Chunk>, index: ChunkIndex) -> Option<Chunk> {
    if m.contains_key(index) {
        Some(m[index])
    } else {
        None
    }
}

/// The pillar at global position `pos` in the chunk map `m`, if the chunk
/// holding it is loaded.
pub open spec fn pillar_lookup(m: Map<ChunkIndex, Chunk>, pos: PillarIndex) -> Option<HexPillar> {
    match lookup(m, chunk_of(pos)) {
        Some(c) => Some(c.spec_pillar(local_of(pos))),
        None => None,
    }
}

/// The chunk map and the result after offering `chunk` at `index`: an
/// occupied slot refuses it and hands it back, a free one takes it.
pub open spec fn add_outcome(m: Map<ChunkIndex, Chunk>, index: ChunkIndex, chunk: Chunk) -> (
    Map<ChunkIndex, Chunk>,
    Result<(), Chunk>,
) {
    if m.contains_key(index) {
        (m, Err(chunk))
    } else {
        (m.insert(index, chunk), Ok(()))
    }
}

/// The map key of a chunk index: both components shifted to be
/// non-negative and packed into one `u64`, `q` in the high half.
spec fn chunk_key(index: ChunkIndex) -> u64 {
    ((index.0.q - i32::MIN) * 0x1_0000_0000 + (index.0.r - i32::MIN)) as u64
}

fn key_of(index: ChunkIndex) -> (k: u64)
    ensures
        k == chunk_key(index),
{
    let hi = (index.0.q as i64 - i32::MIN as i64) as u64;
    let lo = (index.0.r as i64 - i32::MIN as i64) as u64;
    hi * 0x1_0000_0000 + lo
}

/// Distinct chunk indices have distinct keys.
proof fn lemma_chunk_key_injective(a: ChunkIndex, b: ChunkIndex)
    ensures
        chunk_key(a) == chunk_key(b) ==> a == b,
{
    let ha = a.0.q - i32::MIN;
    let la = a.0.r - i32::MIN;
    let hb = b.0.q - i32::MIN;
    let lb = b.0.r - i32::MIN;
    assert(ha * 0x1_0000_0000 + la == hb * 0x1_0000_0000 + lb ==> ha == hb && la == lb)
        by (nonlinear_arith)
        requires
            0 <= la < 0x1_0000_0000,
            0 <= lb < 0x1_0000_0000,
    ;
}

/// A whole game world: the chunks loaded so far, at most one per index.
pub struct World {
    chunks: HashMap<u64, Chunk>,
}

impl View for World {
    type V = Map<ChunkIndex, Chunk>;

    closed spec fn view(&self) -> Map<ChunkIndex, Chunk> {
        Map::new(
            |i: ChunkIndex| self.chunks@.contains_key(chunk_key(i)),
            |i: ChunkIndex| self.chunks@[chunk_key(i)],
        )
    }
}

impl World {
    /// Creates a world without any chunks.
    pub fn empty() -> (w: World)
        ensures
            w@ == Map::<ChunkIndex, Chunk>::empty(),
    {
        let w = World { chunks: HashMap::new() };
        assert(w@ =~= Map::<ChunkIndex, Chunk>::empty());
        w
    }

    /// Puts `chunk` at `index`, dropping the chunk that was there before.
    pub fn replace_chunk(&mut self, index: ChunkIndex, chunk: Chunk)
        ensures
            final(self)@ == old(self)@.insert(index, chunk),
    {
        let k = key_of(index);
        self.chunks.insert(k, chunk);
        proof {
            assert forall|i: ChunkIndex| i != index implies chunk_key(i) != k by {
                lemma_chunk_key_injective(i, index);
            }
            assert(self@ =~= old(self)@.insert(index, chunk));
        }
    }

    /// Puts `chunk` at `index` only where no chunk is loaded there yet; on an
    /// occupied slot the world is left as it was and `chunk` comes back.
    pub fn add_chunk(&mut self, index: ChunkIndex, chunk: Chunk) -> (r: Result<(), Chunk>)
        ensures
            (final(self)@, r) == add_outcome(old(self)@, index, chunk),
    {
        let k = key_of(index);
        if self.chunks.contains_key(&k) {
            Err(chunk)
        } else {
            self.replace_chunk(index, chunk);
            Ok(())
        }
    }

    /// The pillar at global position `pos`, where the chunk that holds it is
    /// loaded.
    pub fn pillar_at(&self, pos: PillarIndex) -> (r: Option<&HexPillar>)
        ensures
            match r {
                Some(p) => pillar_lookup(self@, pos) == Some(*p),
                None => pillar_lookup(self@, pos) is None,
            },
    {
        match self.chunk_at(pos.chunk_index()) {
            // The local offset is in bounds by construction, so `get` succeeds.
            Some(chunk) => match chunk.get(pos.local_offset()) {
                Ok(p) => Some(p),
                Err(_) => None,
            },
            None => None,
        }
    }

    /// The chunk that holds the pillar at global position `pos`, if loaded.
    pub fn chunk_from_pillar(&self, pos: PillarIndex) -> (r: Option<&Chunk>)
        ensures
            match r {
                Some(c) => lookup(self@, chunk_of(pos)) == Some(*c),
                None => lookup(self@, chunk_of(pos)) is None,
            },
    {
        self.chunk_at(pos.chunk_index())
    }

    /// The chunk at `index`, if loaded. An absent chunk is the normal state
    /// of a sparse world, not an error.
    pub fn chunk_at(&self, index: ChunkIndex) -> (r: Option<&Chunk>)
        ensures
            match r {
                Some(c) => lookup(self@, index) == Some(*c),
                None => lookup(self@, index) is None,
            },
    {
        self.chunks.get(&key_of(index))
    }
}

/// Once `add_chunk` has put `c1` at `index`, a later `add_chunk` of `c2`
/// at the same index is refused: `c2` comes back unchanged, the world stays
/// as it is, and `chunk_at(index)` still yields `c1`.
pub proof fn lemma_add_chunk_exclusive(
    m: Map<ChunkIndex, Chunk>,
    index: ChunkIndex,
    c1: Chunk,
    c2: Chunk,
)
    requires
        add_outcome(m, index, c1).1 is Ok,
    ensures
        ({
            let m1 = add_outcome(m, index, c1).0;
            &&& add_outcome(m1, index, c2) == (m1, Err::<(), Chunk>(c2))
            &&& lookup(m1, index) == Some(c1)
        }),
{
}

/// Replacing the chunk at `index` by `c1` and then by `c2` leaves `c2`
/// there, and the world is as if `c1` had never been put in.
pub proof fn lemma_replace_twice(
    m: Map<ChunkIndex, Chunk>,
    index: ChunkIndex,
    c1: Chunk,
    c2: Chunk,
)
    ensures
        lookup(m.insert(index, c1).insert(index, c2), index) == Some(c2),
        m.insert(index, c1).insert(index, c2) == m.insert(index, c2),
{
    assert(m.insert(index, c1).insert(index, c2) =~= m.insert(index, c2));
}

/// In an empty world every chunk lookup and every pillar lookup is absent.
pub proof fn lemma_empty_world_is_sparse(index: ChunkIndex, pos: PillarIndex)
    ensures
        lookup(Map::<ChunkIndex, Chunk>::empty(), index) is None,
        pillar_lookup(Map::<ChunkIndex, Chunk>::empty(), pos) is None,
{
}

} // verus!
