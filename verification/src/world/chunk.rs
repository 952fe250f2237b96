//! Chunks: fixed cubes of voxels, their position in chunk space and their
//! dense block storage.

use vstd::prelude::*;
use vstd::wrapping::i64_specs;
use crate::world::block::BlockState;
use crate::world::{Coordinates, WorldError, WorldTimestamp};

verus! {

/// The size of the side of a single chunk in blocks.
pub const CHUNK_EXTENT: usize = 16;

/// The amount of blocks that fit inside a single chunk.
pub const CHUNK_VOLUME: usize = CHUNK_EXTENT * CHUNK_EXTENT * CHUNK_EXTENT;

/// The spatial position of a chunk; one unit is one chunk.
#[derive(PartialEq, Eq, Structural, Hash, Debug)]
pub struct ChunkCoordinates {
    pub x: i64,
    pub y: i64,
    pub z: i64,
}

impl ChunkCoordinates {
    /// Builds the chunk position `(x, y, z)`.
    pub fn new(x: i64, y: i64, z: i64) -> (c: Self)
        ensures
            c == (ChunkCoordinates { x, y, z }),
    {
        ChunkCoordinates { x, y, z }
    }
}

impl Clone for ChunkCoordinates {
    fn clone(&self) -> (c: Self)
        ensures
            c == *self,
    {
        ChunkCoordinates { x: self.x, y: self.y, z: self.z }
    }
}

/// The chunk-space coordinate of the world-space coordinate `v` along one
/// axis: `v` divided by the chunk extent, rounded toward zero. Negative
/// positions therefore round up: -5 lies in chunk 0, not in chunk -1.
pub open spec fn chunk_axis_of(v: int) -> int {
    if v >= 0 {
        v / (CHUNK_EXTENT as int)
    } else {
        -((-v) / (CHUNK_EXTENT as int))
    }
}

/// The world-space coordinate of the corner of chunk `c` along one axis:
/// `c` times the chunk extent, wrapped into the 64-bit range where the
/// product does not fit.
pub open spec fn corner_axis_of(c: i64) -> i64 {
    i64_specs::wrapping_mul(c, CHUNK_EXTENT as i64)
}

/// Whether the corner of chunk `c` along one axis is a representable
/// world-space coordinate.
pub open spec fn corner_representable(c: int) -> bool {
    i64::MIN <= c * (CHUNK_EXTENT as int) <= i64::MAX
}

/// The chunk that holds the voxel at `coords`.
pub open spec fn chunk_of(coords: Coordinates) -> ChunkCoordinates {
    ChunkCoordinates {
        x: chunk_axis_of(coords.x as int) as i64,
        y: chunk_axis_of(coords.y as int) as i64,
        z: chunk_axis_of(coords.z as int) as i64,
    }
}

/// The corner of chunk `ccoords` from which its voxels are counted.
pub open spec fn corner_of(ccoords: ChunkCoordinates) -> Coordinates {
    Coordinates {
        x: corner_axis_of(ccoords.x),
        y: corner_axis_of(ccoords.y),
        z: corner_axis_of(ccoords.z),
    }
}

impl vstd::std_specs::convert::FromSpecImpl<Coordinates> for ChunkCoordinates {
    open spec fn obeys_from_spec() -> bool {
        true
    }

    open spec fn from_spec(coords: Coordinates) -> Self {
        chunk_of(coords)
    }
}

impl From<Coordinates> for ChunkCoordinates {
    /// The chunk that holds the voxel at `coords`.
    fn from(coords: Coordinates) -> (c: Self)
        ensures
            c == chunk_of(coords),
    {
        ChunkCoordinates {
            x: coords.x / (CHUNK_EXTENT as i64),
            y: coords.y / (CHUNK_EXTENT as i64),
            z: coords.z / (CHUNK_EXTENT as i64),
        }
    }
}

impl vstd::std_specs::convert::FromSpecImpl<ChunkCoordinates> for Coordinates {
    open spec fn obeys_from_spec() -> bool {
        true
    }

    open spec fn from_spec(ccoords: ChunkCoordinates) -> Self {
        corner_of(ccoords)
    }
}

impl From<ChunkCoordinates> for Coordinates {
    /// The corner of chunk `ccoords` from which its voxels are counted.
    fn from(ccoords: ChunkCoordinates) -> (c: Self)
        ensures
            c == corner_of(ccoords),
    {
        Coordinates {
            x: ccoords.x.wrapping_mul(CHUNK_EXTENT as i64),
            y: ccoords.y.wrapping_mul(CHUNK_EXTENT as i64),
            z: ccoords.z.wrapping_mul(CHUNK_EXTENT as i64),
        }
    }
}

/// Whether `coords` is the corner of a chunk: every axis is a multiple of
/// the chunk extent.
pub open spec fn origin_aligned(coords: Coordinates) -> bool {
    &&& coords.x as int % (CHUNK_EXTENT as int) == 0
    &&& coords.y as int % (CHUNK_EXTENT as int) == 0
    &&& coords.z as int % (CHUNK_EXTENT as int) == 0
}

/// Where the product fits in 64 bits, the corner of chunk `c` along one axis
/// is exactly `c` times the chunk extent.
pub proof fn lemma_corner_axis_exact(c: i64)
    requires
        corner_representable(c as int),
    ensures
        corner_axis_of(c) == c * (CHUNK_EXTENT as int),
{
}

/// The corner of a chunk lies in that chunk: going from a chunk position to
/// its corner and back gives the chunk position again, as long as the corner
/// is representable.
pub proof fn lemma_chunk_round_trip(ccoords: ChunkCoordinates)
    requires
        corner_representable(ccoords.x as int),
        corner_representable(ccoords.y as int),
        corner_representable(ccoords.z as int),
    ensures
        chunk_of(corner_of(ccoords)) == ccoords,
{
}

/// Going from a voxel position to its chunk and back to the chunk's corner
/// loses the position inside the chunk: the result is the position started
/// from exactly when that position is itself a chunk corner.
pub proof fn lemma_voxel_round_trip(coords: Coordinates)
    ensures
        corner_of(chunk_of(coords)) == coords <==> origin_aligned(coords),
{
}

/// The position of a voxel inside its chunk, as three mathematical integers.
pub type Offset = (int, int, int);

/// The offset that the three machine integers `offset` stand for.
pub open spec fn to_offset(offset: (usize, usize, usize)) -> Offset {
    (offset.0 as int, offset.1 as int, offset.2 as int)
}

/// Whether `offset` lies inside a chunk: every axis is at least 0 and less
/// than the chunk extent.
pub open spec fn offset_in_chunk(offset: Offset) -> bool {
    &&& 0 <= offset.0 < CHUNK_EXTENT
    &&& 0 <= offset.1 < CHUNK_EXTENT
    &&& 0 <= offset.2 < CHUNK_EXTENT
}

/// The place in a chunk's storage of the voxel at `offset`: x runs fastest,
/// then y, then z.
pub open spec fn linear_index(offset: Offset) -> int {
    offset.0 + (offset.1 + offset.2 * CHUNK_EXTENT) * CHUNK_EXTENT
}

/// The offset of the voxel stored at place `index`.
pub open spec fn offset_at(index: int) -> Offset {
    (index % (CHUNK_EXTENT as int), index / (CHUNK_EXTENT as int) % (CHUNK_EXTENT as int), index
        / (CHUNK_EXTENT as int) / (CHUNK_EXTENT as int))
}

/// Every offset inside a chunk has a place in the storage, and that place
/// leads back to the offset.
pub proof fn lemma_offset_of_index(offset: Offset)
    requires
        offset_in_chunk(offset),
    ensures
        0 <= linear_index(offset) < CHUNK_VOLUME,
        offset_at(linear_index(offset)) == offset,
{
}

/// Every place in the storage belongs to an offset inside a chunk, and that
/// offset leads back to the place.
pub proof fn lemma_index_of_offset(index: int)
    requires
        0 <= index < CHUNK_VOLUME,
    ensures
        offset_in_chunk(offset_at(index)),
        linear_index(offset_at(index)) == index,
{
}

/// Two offsets inside a chunk that share a place in the storage are the same
/// offset. Together with the two laws above this makes `linear_index` a
/// bijection between the offsets inside a chunk and the places below
/// `CHUNK_VOLUME`.
pub proof fn lemma_linear_index_injective(a: Offset, b: Offset)
    requires
        offset_in_chunk(a),
        offset_in_chunk(b),
        linear_index(a) == linear_index(b),
    ensures
        a == b,
{
}

/// Stores the states of the blocks in a chunk, one for every offset.
pub struct BlockStorage {
    blocks: [BlockState; CHUNK_VOLUME],
}

impl View for BlockStorage {
    type V = Seq<BlockState>;

    /// The stored states, by linear index.
    closed spec fn view(&self) -> Seq<BlockState> {
        self.blocks@
    }
}

impl BlockStorage {
    /// The state stored for the voxel at `offset`.
    pub open spec fn voxel(&self, offset: Offset) -> BlockState {
        self@[linear_index(offset)]
    }

    /// A storage holds one state for each voxel of a chunk, neither more nor
    /// fewer, whatever was done to it.
    pub proof fn lemma_volume(&self)
        ensures
            self@.len() == CHUNK_VOLUME,
    {
    }

    /// A storage in which every voxel has the state `default_block`.
    pub fn with_default(default_block: BlockState) -> (storage: Self)
        ensures
            storage@ == Seq::new(CHUNK_VOLUME as nat, |i: int| default_block),
            forall|offset: Offset|
                offset_in_chunk(offset) ==> #[trigger] storage.voxel(offset) == default_block,
    {
        BlockStorage { blocks: [default_block; CHUNK_VOLUME] }
    }

    /// The linear index of the voxel at `offset`, relative to the chunk's
    /// base coordinates, or `IndexOutOfRange` for an offset outside the chunk.
    pub fn index_of(offset: (usize, usize, usize)) -> (r: Result<usize, WorldError>)
        ensures
            match r {
                Ok(index) => {
                    &&& offset_in_chunk(to_offset(offset))
                    &&& index == linear_index(to_offset(offset))
                },
                Err(e) => {
                    &&& !offset_in_chunk(to_offset(offset))
                    &&& e == WorldError::IndexOutOfRange
                },
            },
    {
        if offset.0 < CHUNK_EXTENT && offset.1 < CHUNK_EXTENT && offset.2 < CHUNK_EXTENT {
            Ok(offset.0 + (offset.1 + offset.2 * CHUNK_EXTENT) * CHUNK_EXTENT)
        } else {
            Err(WorldError::IndexOutOfRange)
        }
    }

    /// The offset of the voxel with linear index `index`. An index below
    /// `CHUNK_VOLUME` gives an offset inside the chunk; a larger one gives an
    /// offset whose z axis lies beyond it.
    pub fn offset_of(index: usize) -> (offset: (usize, usize, usize))
        ensures
            to_offset(offset) == offset_at(index as int),
            linear_index(to_offset(offset)) == index,
            offset_in_chunk(to_offset(offset)) <==> index < CHUNK_VOLUME,
    {
        (index % CHUNK_EXTENT, index / CHUNK_EXTENT % CHUNK_EXTENT, index / CHUNK_EXTENT / CHUNK_EXTENT)
    }

    /// The block state at `offset`, relative to the chunk's base coordinates,
    /// or `IndexOutOfRange` for an offset outside the chunk.
    pub fn block_at(&self, offset: (usize, usize, usize)) -> (r: Result<BlockState, WorldError>)
        ensures
            match r {
                Ok(state) => {
                    &&& offset_in_chunk(to_offset(offset))
                    &&& state == self.voxel(to_offset(offset))
                },
                Err(e) => {
                    &&& !offset_in_chunk(to_offset(offset))
                    &&& e == WorldError::IndexOutOfRange
                },
            },
    {
        match Self::index_of(offset) {
            Ok(index) => Ok(self.blocks[index]),
            Err(e) => Err(e),
        }
    }

    /// Sets the block state at `offset`, relative to the chunk's base
    /// coordinates, and leaves every other voxel as it was. An offset
    /// outside the chunk is refused with `IndexOutOfRange` and changes
    /// nothing.
    pub fn set_block_at(&mut self, state: BlockState, offset: (usize, usize, usize)) -> (r: Result<
        (),
        WorldError,
    >)
        ensures
            match r {
                Ok(_) => {
                    &&& offset_in_chunk(to_offset(offset))
                    &&& final(self)@ == old(self)@.update(
                        linear_index(to_offset(offset)),
                        state,
                    )
                    &&& final(self).voxel(to_offset(offset)) == state
                    &&& forall|other: Offset|
                        offset_in_chunk(other) && other != to_offset(offset)
                            ==> #[trigger] final(self).voxel(other) == old(self).voxel(other)
                },
                Err(e) => {
                    &&& !offset_in_chunk(to_offset(offset))
                    &&& e == WorldError::IndexOutOfRange
                    &&& final(self)@ == old(self)@
                },
            },
    {
        match Self::index_of(offset) {
            Ok(index) => {
                self.blocks[index] = state;
                Ok(())
            },
            Err(e) => Err(e),
        }
    }
}

/// What a chunk is, seen from outside: when it was last changed and what
/// it holds, by linear index.
pub struct ChunkView {
    pub last_modified: WorldTimestamp,
    pub blocks: Seq<BlockState>,
}

/// A cube of voxels together with the time of its latest change.
pub struct Chunk {
    last_modified: WorldTimestamp,
    blocks: BlockStorage,
}

impl View for Chunk {
    type V = ChunkView;

    closed spec fn view(&self) -> ChunkView {
        ChunkView { last_modified: self.last_modified, blocks: self.blocks@ }
    }
}

impl Chunk {
    /// The state of the voxel at `offset`.
    pub open spec fn voxel(&self, offset: Offset) -> BlockState {
        self@.blocks[linear_index(offset)]
    }

    /// A chunk holds one state for each of its voxels, neither more nor
    /// fewer, whatever was done to it.
    pub proof fn lemma_volume(&self)
        ensures
            self@.blocks.len() == CHUNK_VOLUME,
    {
    }

    /// A chunk made at time `now` in which every voxel has the state
    /// `default_block`.
    pub fn new(default_block: BlockState, now: WorldTimestamp) -> (chunk: Self)
        ensures
            chunk@.last_modified == now,
            chunk@.blocks == Seq::new(CHUNK_VOLUME as nat, |i: int| default_block),
            forall|offset: Offset|
                offset_in_chunk(offset) ==> #[trigger] chunk.voxel(offset) == default_block,
    {
        Chunk { last_modified: now, blocks: BlockStorage::with_default(default_block) }
    }

    /// The time of the latest change to this chunk.
    pub fn last_modified(&self) -> (t: WorldTimestamp)
        ensures
            t == self@.last_modified,
    {
        self.last_modified
    }

    /// The block state at `offset`, relative to the chunk's base coordinates,
    /// or `IndexOutOfRange` for an offset outside the chunk.
    pub fn block_at(&self, offset: (usize, usize, usize)) -> (r: Result<BlockState, WorldError>)
        ensures
            match r {
                Ok(state) => {
                    &&& offset_in_chunk(to_offset(offset))
                    &&& state == self.voxel(to_offset(offset))
                },
                Err(e) => {
                    &&& !offset_in_chunk(to_offset(offset))
                    &&& e == WorldError::IndexOutOfRange
                },
            },
    {
        self.blocks.block_at(offset)
    }

    /// Sets the block state at `offset` at time `now`. The time of the latest
    /// change moves forward to `now`; it never moves back, so a `now` that
    /// lies before it leaves it where it was. An offset outside the chunk is
    /// refused with `IndexOutOfRange` and changes nothing, the time included.
    pub fn set_block_at(
        &mut self,
        state: BlockState,
        offset: (usize, usize, usize),
        now: WorldTimestamp,
    ) -> (r: Result<(), WorldError>)
        ensures
            final(self)@.last_modified >= old(self)@.last_modified,
            match r {
                Ok(_) => {
                    &&& offset_in_chunk(to_offset(offset))
                    &&& final(self)@.blocks == old(self)@.blocks.update(
                        linear_index(to_offset(offset)),
                        state,
                    )
                    &&& final(self)@.last_modified == (if now >= old(self)@.last_modified {
                        now
                    } else {
                        old(self)@.last_modified
                    })
                    &&& final(self).voxel(to_offset(offset)) == state
                    &&& forall|other: Offset|
                        offset_in_chunk(other) && other != to_offset(offset)
                            ==> #[trigger] final(self).voxel(other) == old(self).voxel(other)
                },
                Err(e) => {
                    &&& !offset_in_chunk(to_offset(offset))
                    &&& e == WorldError::IndexOutOfRange
                    &&& final(self)@ == old(self)@
                },
            },
    {
        match self.blocks.set_block_at(state, offset) {
            Ok(_) => {
                if now > self.last_modified {
                    self.last_modified = now;
                }
                Ok(())
            },
            Err(e) => Err(e),
        }
    }
}

} // verus!
