use webray::config::TileSize;
use webray::tiles::{count_tiles, tile_at, tiles, Tile, TileCount};

#[test]
fn full_hd_with_tiles_of_256() {
    let count = count_tiles(1920, 1080, TileSize::Tile(256));
    assert_eq!(count, TileCount { x: 8, y: 5 });
    let last_column = tile_at(1920, 1080, TileSize::Tile(256), 7, 0);
    assert_eq!(last_column.width, 1920 - 7 * 256);
    assert_eq!(last_column.width, 128);
    assert_eq!(last_column.x, 1792);
    let last_row = tile_at(1920, 1080, TileSize::Tile(256), 0, 4);
    assert_eq!(last_row.height, 1080 - 4 * 256);
    assert_eq!(last_row.height, 56);
    assert_eq!(last_row.y, 1024);
    let corner = tile_at(1920, 1080, TileSize::Tile(256), 7, 4);
    assert_eq!(corner, Tile { x: 1792, y: 1024, width: 128, height: 56 });
    let inner = tile_at(1920, 1080, TileSize::Tile(256), 3, 2);
    assert_eq!(inner, Tile { x: 768, y: 512, width: 256, height: 256 });
}

#[test]
fn full_mode_is_one_tile() {
    assert_eq!(count_tiles(640, 480, TileSize::Full), TileCount { x: 1, y: 1 });
    assert_eq!(
        tile_at(640, 480, TileSize::Full, 0, 0),
        Tile { x: 0, y: 0, width: 640, height: 480 }
    );
    assert_eq!(
        tiles(640, 480, TileSize::Full),
        vec![Tile { x: 0, y: 0, width: 640, height: 480 }]
    );
}

#[test]
fn tile_edge_that_divides_the_image() {
    assert_eq!(count_tiles(512, 256, TileSize::Tile(256)), TileCount { x: 2, y: 1 });
    assert_eq!(
        tiles(512, 256, TileSize::Tile(256)),
        vec![
            Tile { x: 0, y: 0, width: 256, height: 256 },
            Tile { x: 256, y: 0, width: 256, height: 256 },
        ]
    );
}

#[test]
fn tile_larger_than_the_image_is_clipped() {
    assert_eq!(count_tiles(10, 7, TileSize::Tile(64)), TileCount { x: 1, y: 1 });
    assert_eq!(
        tiles(10, 7, TileSize::Tile(64)),
        vec![Tile { x: 0, y: 0, width: 10, height: 7 }]
    );
}

#[test]
fn tiles_come_column_by_column() {
    let list = tiles(5, 3, TileSize::Tile(2));
    assert_eq!(
        list,
        vec![
            Tile { x: 0, y: 0, width: 2, height: 2 },
            Tile { x: 0, y: 2, width: 2, height: 1 },
            Tile { x: 2, y: 0, width: 2, height: 2 },
            Tile { x: 2, y: 2, width: 2, height: 1 },
            Tile { x: 4, y: 0, width: 1, height: 2 },
            Tile { x: 4, y: 2, width: 1, height: 1 },
        ]
    );
}

fn covered_once(width: u32, height: u32, tile_size: TileSize) {
    let mut hits = vec![0u32; (width * height) as usize];
    for tile in tiles(width, height, tile_size) {
        assert!(tile.width > 0 && tile.height > 0);
        assert!(tile.x + tile.width <= width);
        assert!(tile.y + tile.height <= height);
        for px in tile.x..tile.x + tile.width {
            for py in tile.y..tile.y + tile.height {
                hits[(py * width + px) as usize] += 1;
            }
        }
    }
    assert!(hits.iter().all(|&n| n == 1));
}

#[test]
fn every_pixel_lies_in_exactly_one_tile() {
    covered_once(37, 23, TileSize::Full);
    covered_once(37, 23, TileSize::Tile(1));
    covered_once(37, 23, TileSize::Tile(8));
    covered_once(37, 23, TileSize::Tile(37));
    covered_once(37, 23, TileSize::Tile(100));
    covered_once(64, 64, TileSize::Tile(16));
    covered_once(1, 1, TileSize::Tile(3));
}

#[test]
fn widest_image_does_not_overflow() {
    let count = count_tiles(u32::MAX, u32::MAX, TileSize::Tile(1 << 31));
    assert_eq!(count, TileCount { x: 2, y: 2 });
    let last = tile_at(u32::MAX, u32::MAX, TileSize::Tile(1 << 31), 1, 1);
    assert_eq!(
        last,
        Tile { x: 1 << 31, y: 1 << 31, width: (1u32 << 31) - 1, height: (1u32 << 31) - 1 }
    );
    assert_eq!(
        count_tiles(u32::MAX, 5, TileSize::Tile(1)),
        TileCount { x: u32::MAX, y: 5 }
    );
}
