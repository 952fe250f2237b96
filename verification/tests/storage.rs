use biserialis::world::block::BlockState;
use biserialis::world::chunk::{BlockStorage, CHUNK_EXTENT, CHUNK_VOLUME};
use biserialis::world::WorldError;

#[test]
fn chunk_constants() {
    assert_eq!(CHUNK_EXTENT, 16);
    assert_eq!(CHUNK_VOLUME, 4096);
}

#[test]
fn index_of_follows_the_formula() {
    assert_eq!(BlockStorage::index_of((0, 0, 0)), Ok(0));
    assert_eq!(BlockStorage::index_of((1, 0, 0)), Ok(1));
    assert_eq!(BlockStorage::index_of((0, 1, 0)), Ok(16));
    assert_eq!(BlockStorage::index_of((0, 0, 1)), Ok(256));
    assert_eq!(BlockStorage::index_of((1, 2, 3)), Ok(801));
    assert_eq!(BlockStorage::index_of((15, 15, 15)), Ok(4095));
}

#[test]
fn offset_of_follows_the_formula() {
    assert_eq!(BlockStorage::offset_of(0), (0, 0, 0));
    assert_eq!(BlockStorage::offset_of(15), (15, 0, 0));
    assert_eq!(BlockStorage::offset_of(16), (0, 1, 0));
    assert_eq!(BlockStorage::offset_of(256), (0, 0, 1));
    assert_eq!(BlockStorage::offset_of(801), (1, 2, 3));
    assert_eq!(BlockStorage::offset_of(4095), (15, 15, 15));
}

#[test]
fn offset_of_is_total() {
    assert_eq!(BlockStorage::offset_of(4096), (0, 0, 16));
    assert_eq!(BlockStorage::offset_of(usize::MAX), (15, 15, usize::MAX / 256));
}

#[test]
fn index_of_refuses_offsets_outside_the_chunk() {
    assert_eq!(BlockStorage::index_of((16, 0, 0)), Err(WorldError::IndexOutOfRange));
    assert_eq!(BlockStorage::index_of((0, 16, 0)), Err(WorldError::IndexOutOfRange));
    assert_eq!(BlockStorage::index_of((0, 0, 16)), Err(WorldError::IndexOutOfRange));
    assert_eq!(
        BlockStorage::index_of((usize::MAX, usize::MAX, usize::MAX)),
        Err(WorldError::IndexOutOfRange)
    );
}

#[test]
fn offset_of_inverts_index_of_everywhere() {
    for z in 0..CHUNK_EXTENT {
        for y in 0..CHUNK_EXTENT {
            for x in 0..CHUNK_EXTENT {
                let index = BlockStorage::index_of((x, y, z)).unwrap();
                assert!(index < CHUNK_VOLUME);
                assert_eq!(BlockStorage::offset_of(index), (x, y, z));
            }
        }
    }
}

#[test]
fn index_of_inverts_offset_of_everywhere() {
    for index in 0..CHUNK_VOLUME {
        let offset = BlockStorage::offset_of(index);
        assert!(offset.0 < CHUNK_EXTENT && offset.1 < CHUNK_EXTENT && offset.2 < CHUNK_EXTENT);
        assert_eq!(BlockStorage::index_of(offset), Ok(index));
    }
}

#[test]
fn index_of_hits_every_place_once() {
    let mut hits = vec![0u32; CHUNK_VOLUME];
    for z in 0..CHUNK_EXTENT {
        for y in 0..CHUNK_EXTENT {
            for x in 0..CHUNK_EXTENT {
                hits[BlockStorage::index_of((x, y, z)).unwrap()] += 1;
            }
        }
    }
    assert!(hits.iter().all(|&n| n == 1));
}

#[test]
fn with_default_fills_every_voxel() {
    let state = BlockState { id: 42 };
    let storage = BlockStorage::with_default(state);
    for index in 0..CHUNK_VOLUME {
        assert_eq!(storage.block_at(BlockStorage::offset_of(index)), Ok(state));
    }
}

#[test]
fn set_block_at_changes_one_voxel_only() {
    let before = BlockState { id: 1 };
    let after = BlockState { id: 2 };
    let mut storage = BlockStorage::with_default(before);
    assert_eq!(storage.set_block_at(after, (3, 7, 11)), Ok(()));
    for index in 0..CHUNK_VOLUME {
        let offset = BlockStorage::offset_of(index);
        let expected = if offset == (3, 7, 11) { after } else { before };
        assert_eq!(storage.block_at(offset), Ok(expected));
    }
}

#[test]
fn set_block_at_overwrites() {
    let mut storage = BlockStorage::with_default(BlockState { id: 0 });
    assert_eq!(storage.set_block_at(BlockState { id: 5 }, (0, 0, 0)), Ok(()));
    assert_eq!(storage.set_block_at(BlockState { id: 6 }, (0, 0, 0)), Ok(()));
    assert_eq!(storage.set_block_at(BlockState { id: 7 }, (15, 15, 15)), Ok(()));
    assert_eq!(storage.block_at((0, 0, 0)), Ok(BlockState { id: 6 }));
    assert_eq!(storage.block_at((15, 15, 15)), Ok(BlockState { id: 7 }));
    assert_eq!(storage.block_at((1, 0, 0)), Ok(BlockState { id: 0 }));
}

#[test]
fn block_at_refuses_offsets_outside_the_chunk() {
    let storage = BlockStorage::with_default(BlockState { id: 9 });
    assert_eq!(storage.block_at((16, 0, 0)), Err(WorldError::IndexOutOfRange));
    assert_eq!(storage.block_at((0, 99, 0)), Err(WorldError::IndexOutOfRange));
    assert_eq!(storage.block_at((0, 0, usize::MAX)), Err(WorldError::IndexOutOfRange));
}

#[test]
fn refused_write_changes_nothing() {
    let state = BlockState { id: 9 };
    let mut storage = BlockStorage::with_default(state);
    assert_eq!(
        storage.set_block_at(BlockState { id: 1 }, (0, 16, 0)),
        Err(WorldError::IndexOutOfRange)
    );
    // (0, 16, 0) would alias (0, 0, 1) if the offset were not checked.
    for index in 0..CHUNK_VOLUME {
        assert_eq!(storage.block_at(BlockStorage::offset_of(index)), Ok(state));
    }
}
