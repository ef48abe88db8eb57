use platformer::tile::Tile;
use platformer::tilemap::{Tilemap, TilemapError};

fn sample_grid() -> Tilemap {
    let mut g = Tilemap::new(3, 2);
    g.set(0, 0, Tile::Ground);
    g.set(2, 0, Tile::Ground);
    g.set(1, 1, Tile::Ground);
    g
}

#[test]
fn tile_bytes_round_trip() {
    assert_eq!(Tile::Empty.to_byte(), 0);
    assert_eq!(Tile::Ground.to_byte(), 1);
    assert!(matches!(Tile::from_byte(0), Tile::Empty));
    assert!(matches!(Tile::from_byte(1), Tile::Ground));
    assert!(matches!(Tile::from_byte(77), Tile::Empty));
}

#[test]
fn get_and_set_respect_bounds() {
    let mut g = Tilemap::new(4, 3);
    assert!(g.get(0, 0).is_some());
    assert!(g.get(3, 2).is_some());
    assert!(g.get(4, 0).is_none());
    assert!(g.get(0, 3).is_none());
    assert!(g.get(-1, 0).is_none());
    g.set(9, 9, Tile::Ground);
    for y in 0..3 {
        for x in 0..4 {
            assert!(matches!(g.get(x, y), Some(Tile::Empty)));
        }
    }
    g.set(2, 1, Tile::Ground);
    assert!(matches!(g.get(2, 1), Some(Tile::Ground)));
}

#[test]
fn resize_grow_then_shrink_restores_tiles() {
    let g0 = sample_grid();
    let mut g = sample_grid();
    g.resize(5, 6);
    assert_eq!(g.width(), 5);
    assert_eq!(g.height(), 6);
    for y in 0..6 {
        for x in 0..5 {
            let expect = if x < 3 && y < 2 {
                g0.get(x, y).unwrap().to_byte()
            } else {
                0
            };
            assert_eq!(g.get(x, y).unwrap().to_byte(), expect);
        }
    }
    g.resize(3, 2);
    assert_eq!(g.width(), 3);
    assert_eq!(g.height(), 2);
    for y in 0..2 {
        for x in 0..3 {
            assert_eq!(g.get(x, y).unwrap().to_byte(), g0.get(x, y).unwrap().to_byte());
        }
    }
}

#[test]
fn resize_shrink_drops_columns() {
    let mut g = sample_grid();
    g.resize(2, 2);
    assert_eq!(g.width(), 2);
    assert_eq!(g.get(0, 0).unwrap().to_byte(), 1);
    assert_eq!(g.get(1, 0).unwrap().to_byte(), 0);
    assert_eq!(g.get(1, 1).unwrap().to_byte(), 1);
    // growing back re-fills the dropped column with Empty
    g.resize(3, 2);
    assert_eq!(g.get(2, 0).unwrap().to_byte(), 0);
}

#[test]
fn save_writes_exact_bytes() {
    let mut g = Tilemap::new(1, 1);
    g.set(0, 0, Tile::Ground);
    let bytes = g.save();
    assert_eq!(bytes, vec![1, 0, 0, 0, 1, 0, 0, 0, 1]);

    let g2 = sample_grid();
    let b2 = g2.save();
    assert_eq!(b2.len(), 8 + 6);
    assert_eq!(&b2[0..4], &[3, 0, 0, 0]);
    assert_eq!(&b2[4..8], &[2, 0, 0, 0]);
    assert_eq!(&b2[8..], &[1, 0, 1, 0, 1, 0]);
}

#[test]
fn save_load_round_trip() {
    let g = sample_grid();
    let bytes = g.save();
    let g2 = Tilemap::load(&bytes).unwrap();
    assert_eq!(g2.width(), g.width());
    assert_eq!(g2.height(), g.height());
    for y in 0..g.height() {
        for x in 0..g.width() {
            assert_eq!(g2.get(x, y).unwrap().to_byte(), g.get(x, y).unwrap().to_byte());
        }
    }
}

#[test]
fn load_rejects_short_data() {
    assert!(matches!(Tilemap::load(&[1, 2, 3]), Err(TilemapError::TooShort)));
    // header claims 2x2 but only three tile bytes follow
    let bytes = vec![2, 0, 0, 0, 2, 0, 0, 0, 1, 1, 1];
    assert!(matches!(Tilemap::load(&bytes), Err(TilemapError::TooShort)));
}

#[test]
fn load_rejects_zero_dimensions() {
    let bytes = vec![0, 0, 0, 0, 2, 0, 0, 0];
    assert!(matches!(Tilemap::load(&bytes), Err(TilemapError::BadDimensions)));
    let bytes = vec![2, 0, 0, 0, 0, 0, 0, 0];
    assert!(matches!(Tilemap::load(&bytes), Err(TilemapError::BadDimensions)));
}

#[test]
fn load_reads_row_major_tiles() {
    let bytes = vec![2, 0, 0, 0, 2, 0, 0, 0, 1, 0, 0, 1];
    let g = Tilemap::load(&bytes).unwrap();
    assert_eq!(g.get(0, 0).unwrap().to_byte(), 1);
    assert_eq!(g.get(1, 0).unwrap().to_byte(), 0);
    assert_eq!(g.get(0, 1).unwrap().to_byte(), 0);
    assert_eq!(g.get(1, 1).unwrap().to_byte(), 1);
}
