use game_life::binding::{BindingTable, CURRENT_SLOT, IMAGE_SLOT, NEXT_SLOT, PARAMS_SLOT};
use game_life::cells::{CellGrid, ALIVE_WORD};
use game_life::dispatch::{dispatch_groups, workgroup_count, DispatchGroups, TILE_H, TILE_W};
use game_life::error::SetupError;
use game_life::life::Life;
use game_life::life_params::LifeParams;
use game_life::texture::Texture;

fn engine(height: u32, width: u32, seed: u64) -> (Life, CellGrid) {
    let params = LifeParams::new(height, width).unwrap();
    let grid = CellGrid::new(height, width, 3, seed).unwrap();
    let texture = Texture::new(&params, 3).unwrap();
    let life = Life::new(&texture, &params, &grid).unwrap();
    (life, grid)
}

#[test]
fn generation_and_current_buffer_follow_step_count() {
    let (mut life, _) = engine(4, 4, 7);
    for n in 0..10u64 {
        assert_eq!(life.generation(), n);
        assert_eq!(life.current_buffer() as u64, n % 2);
        life.step();
    }
    assert_eq!(life.generation(), 10);
    assert_eq!(life.current_buffer(), 0);
}

#[test]
fn initial_cells_are_binary() {
    let grid = CellGrid::new(13, 21, 3, 99).unwrap();
    for i in 0..2 {
        assert_eq!(grid.buffer(i).len(), 13 * 21 * 3);
        assert!(grid.buffer(i).iter().all(|v| *v == 0 || *v == 1));
    }
    assert_eq!(grid.buffer(0), grid.buffer(1));
}

#[test]
fn dispatch_sizes() {
    assert_eq!(dispatch_groups(1024, 768), DispatchGroups { x: 128, y: 96, z: 1 });
    assert_eq!(dispatch_groups(10, 10), DispatchGroups { x: 2, y: 2, z: 1 });
    assert_eq!(dispatch_groups(8, 8), DispatchGroups { x: 1, y: 1, z: 1 });
    assert_eq!(dispatch_groups(1, 1), DispatchGroups { x: 1, y: 1, z: 1 });
    assert_eq!(dispatch_groups(16, 9), DispatchGroups { x: 2, y: 2, z: 1 });
    assert_eq!(dispatch_groups(u32::MAX, 0), DispatchGroups { x: 536_870_912, y: 0, z: 1 });
}

#[test]
fn workgroup_count_rounds_up() {
    assert_eq!(workgroup_count(0, 8), 0);
    assert_eq!(workgroup_count(7, 8), 1);
    assert_eq!(workgroup_count(8, 8), 1);
    assert_eq!(workgroup_count(9, 8), 2);
    assert_eq!(workgroup_count(10, 3), 4);
    assert_eq!(workgroup_count(u32::MAX, 1), u32::MAX);
}

#[test]
fn read_and_write_buffers_never_alias() {
    let table = BindingTable::build();
    for p in 0..2usize {
        let set = table.entry(p);
        assert_eq!(set.current, p);
        assert_eq!(set.next, (p + 1) % 2);
        assert_ne!(set.current, set.next);
    }
    let (mut life, _) = engine(5, 6, 1);
    for _ in 0..5 {
        let plan = life.step();
        assert_ne!(plan.binding.current, plan.binding.next);
    }
    assert_eq!((PARAMS_SLOT, CURRENT_SLOT, NEXT_SLOT, IMAGE_SLOT), (0, 1, 2, 3));
}

#[test]
fn same_seed_gives_same_cells() {
    let a = CellGrid::new(32, 40, 3, 12345).unwrap();
    let b = CellGrid::new(32, 40, 3, 12345).unwrap();
    assert_eq!(a.buffer(0), b.buffer(0));
    assert_eq!(a.buffer(1), b.buffer(1));
}

#[test]
fn seeded_draws_are_not_constant() {
    let a = CellGrid::new(32, 40, 3, 12345).unwrap();
    assert!(a.buffer(0).iter().any(|v| *v == 0));
    assert!(a.buffer(0).iter().any(|v| *v == 1));
}

#[test]
fn one_step_swaps_roles() {
    let (mut life, _) = engine(4, 4, 42);
    assert_eq!(life.current_buffer(), 0);
    let plan = life.step();
    assert_eq!(plan.bind_group, 0);
    assert_eq!(plan.binding.current, 0);
    assert_eq!(plan.binding.next, 1);
    assert_eq!(life.generation(), 1);
    assert_eq!(life.current_buffer(), plan.binding.next);
    let second = life.step();
    assert_eq!(second.bind_group, 1);
    assert_eq!(second.binding.current, 1);
    assert_eq!(second.binding.next, 0);
}

#[test]
fn odd_sized_grid_is_fully_covered() {
    let (mut life, _) = engine(9, 17, 3);
    let plan = life.step();
    assert_eq!(plan.groups, DispatchGroups { x: 3, y: 2, z: 1 });
    for y in 0..9u32 {
        for x in 0..17u32 {
            let (gx, gy) = (x / TILE_W, y / TILE_H);
            assert!(gx < plan.groups.x && gy < plan.groups.y);
            assert!(gx * TILE_W <= x && x < (gx + 1) * TILE_W);
            assert!(gy * TILE_H <= y && y < (gy + 1) * TILE_H);
        }
    }
}

#[test]
fn params_record_layout() {
    let p = LifeParams::new(768, 1024).unwrap();
    assert_eq!(p.binding_size(), 8);
    let bytes = p.to_bytes();
    let mut expected = Vec::new();
    expected.extend_from_slice(&1024u32.to_ne_bytes());
    expected.extend_from_slice(&768u32.to_ne_bytes());
    assert_eq!(bytes, expected);
}

#[test]
fn params_reject_zero() {
    assert_eq!(LifeParams::new(0, 4), Err(SetupError::ZeroDimension));
    assert_eq!(LifeParams::new(4, 0), Err(SetupError::ZeroDimension));
}

#[test]
fn grid_errors() {
    assert!(matches!(CellGrid::new(0, 4, 3, 1), Err(SetupError::ZeroDimension)));
    assert!(matches!(CellGrid::new(4, 4, 0, 1), Err(SetupError::ZeroDimension)));
    assert!(matches!(
        CellGrid::new(u32::MAX, u32::MAX, u32::MAX, 1),
        Err(SetupError::TooLarge)
    ));
    assert!(matches!(CellGrid::check_shape(2, 3, 4), Ok(24)));
    assert!(matches!(
        CellGrid::from_draws(2, 2, 1, vec![0, 1, 1]),
        Err(SetupError::LayoutMismatch)
    ));
}

#[test]
fn grid_from_draws_holds_them() {
    let g = CellGrid::from_draws(1, 2, 2, vec![0, 1, 1, 0]).unwrap();
    assert_eq!(g.buffer(0), &vec![0, 1, 1, 0]);
    assert_eq!(g.buffer(1), &vec![0, 1, 1, 0]);
    assert_eq!((g.height(), g.width(), g.channels()), (1, 2, 2));
    assert_eq!(g.buffer_bytes(), 16);
}

#[test]
fn upload_bytes_encode_cells() {
    let g = CellGrid::from_draws(1, 3, 1, vec![1, 0, 1]).unwrap();
    let bytes = g.upload_bytes(0);
    let mut expected = Vec::new();
    expected.extend_from_slice(&ALIVE_WORD.to_ne_bytes());
    expected.extend_from_slice(&0u32.to_ne_bytes());
    expected.extend_from_slice(&ALIVE_WORD.to_ne_bytes());
    assert_eq!(bytes, expected);
    assert_eq!(f32::from_ne_bytes([bytes[0], bytes[1], bytes[2], bytes[3]]), 1.0);
    assert_eq!(g.upload_words(1), vec![ALIVE_WORD, 0, ALIVE_WORD]);
}

#[test]
fn engine_rejects_mismatched_parts() {
    let params = LifeParams::new(4, 4).unwrap();
    let other = LifeParams::new(4, 5).unwrap();
    let grid = CellGrid::new(4, 4, 3, 0).unwrap();
    let texture = Texture::new(&params, 3).unwrap();
    let wrong_texture = Texture::new(&other, 3).unwrap();
    assert!(matches!(Life::new(&texture, &other, &grid), Err(SetupError::LayoutMismatch)));
    assert!(matches!(Life::new(&wrong_texture, &params, &grid), Err(SetupError::LayoutMismatch)));
    let life = Life::new(&texture, &params, &grid).unwrap();
    assert_eq!(life.cell_buffer_size(), 4 * 4 * 3 * 4);
    assert_eq!(life.groups(), DispatchGroups { x: 1, y: 1, z: 1 });
    assert_eq!(life.binding(1).current, 1);
}

#[test]
fn texture_shape() {
    let params = LifeParams::new(768, 1024).unwrap();
    assert_eq!(Texture::new(&params, 3), Ok(Texture { width: 1024, height: 768, layers: 3 }));
    assert_eq!(Texture::new(&params, 0), Err(SetupError::ZeroDimension));
    assert_eq!((params.height(), params.width()), (768, 1024));
}
