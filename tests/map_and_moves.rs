use roguelike::color::{white, Rgb};
use roguelike::game::Game;
use roguelike::map::{make_map, MAP_HEIGHT, MAP_WIDTH};
use roguelike::object::Object;
use roguelike::tile::Tile;

fn game() -> Game {
    Game { map: make_map() }
}

fn is_pillar(x: i32, y: i32) -> bool {
    (x == 30 || x == 50) && y == 22
}

#[test]
fn tile_constructors() {
    let e = Tile::empty();
    assert!(!e.blocked && !e.block_sight);
    let w = Tile::wall();
    assert!(w.blocked && w.block_sight);
}

#[test]
fn new_map_is_open_except_pillars() {
    let m = make_map();
    for x in 0..MAP_WIDTH {
        for y in 0..MAP_HEIGHT {
            assert_eq!(m.is_blocked(x, y), is_pillar(x, y), "at ({}, {})", x, y);
            assert_eq!(m.blocks_sight(x, y), is_pillar(x, y), "at ({}, {})", x, y);
        }
    }
}

#[test]
fn pillars_block_movement_and_sight() {
    let m = make_map();
    assert!(m.is_blocked(30, 22) && m.blocks_sight(30, 22));
    assert!(m.is_blocked(50, 22) && m.blocks_sight(50, 22));
    assert_eq!(m.get(30, 22), Some(Tile::wall()));
    assert_eq!(m.get(0, 0), Some(Tile::empty()));
}

#[test]
fn cells_off_the_map_block() {
    let m = make_map();
    assert!(m.is_blocked(-1, 0));
    assert!(m.is_blocked(0, -1));
    assert!(m.is_blocked(MAP_WIDTH, 0));
    assert!(m.is_blocked(0, MAP_HEIGHT));
    assert!(m.blocks_sight(MAP_WIDTH, MAP_HEIGHT));
    assert_eq!(m.get(80, 10), None);
    assert!(!m.is_blocked(MAP_WIDTH - 1, MAP_HEIGHT - 1));
}

#[test]
fn object_new_keeps_fields() {
    let o = Object::new(3, 4, '@', Rgb::new(1, 2, 3));
    assert_eq!((o.x, o.y, o.glyph), (3, 4, '@'));
    assert_eq!(o.color, Rgb { r: 1, g: 2, b: 3 });
}

#[test]
fn move_into_wall_is_dropped() {
    let g = game();
    let mut p = Object::new(29, 22, '@', white());
    p.move_by(1, 0, &g);
    assert_eq!((p.x, p.y), (29, 22));
    p.move_by(1, 0, &g);
    assert_eq!((p.x, p.y), (29, 22));
}

#[test]
fn move_onto_open_tile() {
    let g = game();
    let mut p = Object::new(40, 25, '@', white());
    p.move_by(0, -1, &g);
    assert_eq!((p.x, p.y), (40, 24));
    p.move_by(-3, 2, &g);
    assert_eq!((p.x, p.y), (37, 26));
    assert_eq!(p.glyph, '@');
    assert_eq!(p.color, white());
}

#[test]
fn move_off_the_map_is_dropped() {
    let g = game();
    let mut p = Object::new(0, 0, '@', white());
    p.move_by(-1, 0, &g);
    assert_eq!((p.x, p.y), (0, 0));
    p.move_by(0, -1, &g);
    assert_eq!((p.x, p.y), (0, 0));
    let mut q = Object::new(MAP_WIDTH - 1, MAP_HEIGHT - 1, '@', white());
    q.move_by(1, 0, &g);
    q.move_by(0, 1, &g);
    assert_eq!((q.x, q.y), (MAP_WIDTH - 1, MAP_HEIGHT - 1));
}

#[test]
fn move_with_extreme_offsets_is_dropped() {
    let g = game();
    let mut p = Object::new(i32::MAX, i32::MIN, '@', white());
    p.move_by(i32::MAX, i32::MIN, &g);
    assert_eq!((p.x, p.y), (i32::MAX, i32::MIN));
}
