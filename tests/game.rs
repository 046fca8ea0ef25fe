use explorer::player::{help_text, parse_command, parse_turn, same_text, START_X, START_Y};
use explorer::tile::Tile;
use explorer::world::PLAYER_MARK;
use explorer::{
    Command, GameState, Heading, Item, ItemError, Narration, Player, PlayerError, Response, TileKind, Turn,
    World, WorldError, WORLD_HEIGHT, WORLD_WIDTH,
};

const OCEAN: (u8, u8, u8) = (0, 0, 100);
const PLAINS: (u8, u8, u8) = (0, 255, 0);
const HILLS: (u8, u8, u8) = (255, 191, 0);
const TREES: (u8, u8, u8) = (0, 200, 0);
const FOREST: (u8, u8, u8) = (0, 100, 0);
const TOWN: (u8, u8, u8) = (255, 255, 255);

fn raw_of(w: u32, h: u32, colour: impl Fn(u32, u32) -> (u8, u8, u8)) -> Vec<u8> {
    let mut raw = Vec::new();
    for y in 0..h {
        for x in 0..w {
            let (r, g, b) = colour(x, y);
            raw.push(r);
            raw.push(g);
            raw.push(b);
        }
    }
    raw
}

fn world_of(colour: impl Fn(u32, u32) -> (u8, u8, u8)) -> World {
    let raw = raw_of(200, 50, colour);
    World::from_rgb(200, 50, &raw)
}

fn plains_world() -> World {
    world_of(|_, _| PLAINS)
}

fn player_in(world: World) -> Player {
    match Player::new("Ada".to_string(), world) {
        Ok(p) => p,
        Err(_) => panic!("a named player must be made"),
    }
}

fn ok<T>(r: Result<T, PlayerError>) -> T {
    match r {
        Ok(v) => v,
        Err(e) => panic!("unexpected error {:?}", e),
    }
}

#[test]
fn rotation_table_from_every_facing() {
    for start in 0u8..4 {
        let mut p = player_in(plains_world());
        for _ in 0..start {
            ok(p.rotate("right"));
        }
        assert_eq!(p.facing(), start);
        for word in ["forward", "forwards", "up"] {
            ok(p.rotate(word));
            assert_eq!(p.facing(), start);
        }
        ok(p.rotate("right"));
        assert_eq!(p.facing(), (start + 1) % 4);
        ok(p.rotate("left"));
        assert_eq!(p.facing(), start);
        ok(p.rotate("left"));
        assert_eq!(p.facing(), (start + 3) % 4);
        ok(p.rotate("right"));
        assert_eq!(p.facing(), start);
        for word in ["backward", "backwards", "back", "down"] {
            ok(p.rotate(word));
            assert_eq!(p.facing(), (start + 2) % 4);
            ok(p.rotate(word));
            assert_eq!(p.facing(), start);
        }
    }
}

#[test]
fn rotation_rejects_unknown_word() {
    let mut p = player_in(plains_world());
    assert_eq!(p.rotate("sideways").err(), Some(PlayerError::InvalidRotation));
    assert_eq!(p.facing(), 0);
}

#[test]
fn parse_turn_words() {
    assert_eq!(parse_turn("up"), Some(Turn::Ahead));
    assert_eq!(parse_turn("down"), Some(Turn::Back));
    assert_eq!(parse_turn("left"), Some(Turn::Left));
    assert_eq!(parse_turn("right"), Some(Turn::Right));
    assert_eq!(parse_turn("Left"), None);
    assert!(same_text("north", "north"));
    assert!(!same_text("north", "nort"));
}

#[test]
fn quiet_discovery_is_idempotent() {
    let mut w = plains_world();
    assert!(w.discover(10, 10, false).is_empty());
    assert!(w.discover(10, 10, false).is_empty());
    for y in 0..WORLD_HEIGHT {
        for x in 0..WORLD_WIDTH {
            let near = (x, y) == (10, 10) || (x, y) == (10, 9) || (x, y) == (10, 11) || (x, y) == (9, 10)
                || (x, y) == (11, 10);
            assert_eq!(w.is_discovered(x, y), near, "cell ({}, {})", x, y);
        }
    }
}

#[test]
fn narrated_discovery_tells_new_neighbours_once() {
    let mut w = world_of(|x, y| match (x, y) {
        (20, 19) => HILLS,
        (20, 21) => OCEAN,
        (21, 20) => TOWN,
        (19, 20) => FOREST,
        _ => TREES,
    });
    let first = w.discover(20, 20, true);
    assert_eq!(
        first,
        vec![
            Narration::Standing(TileKind::Trees),
            Narration::Sighted(TileKind::Hills, Heading::North),
            Narration::Sighted(TileKind::Ocean, Heading::South),
            Narration::Sighted(TileKind::Town, Heading::East),
            Narration::Sighted(TileKind::Forest, Heading::West),
        ]
    );
    let second = w.discover(20, 20, true);
    assert_eq!(second, vec![Narration::Standing(TileKind::Trees)]);
}

#[test]
fn narrated_discovery_skips_known_neighbours() {
    let mut w = plains_world();
    w.discover(5, 5, false);
    let told = w.discover(6, 5, true);
    assert_eq!(
        told,
        vec![
            Narration::Standing(TileKind::Plains),
            Narration::Sighted(TileKind::Plains, Heading::North),
            Narration::Sighted(TileKind::Plains, Heading::South),
            Narration::Sighted(TileKind::Plains, Heading::East),
        ]
    );
}

#[test]
fn discovery_at_corners_stays_inside() {
    let mut w = plains_world();
    let told = w.discover(0, 0, true);
    assert_eq!(
        told,
        vec![
            Narration::Standing(TileKind::Plains),
            Narration::Sighted(TileKind::Plains, Heading::South),
            Narration::Sighted(TileKind::Plains, Heading::East),
        ]
    );
    assert!(w.is_discovered(0, 0) && w.is_discovered(1, 0) && w.is_discovered(0, 1));
    assert!(!w.is_discovered(1, 1));
    w.discover(WORLD_WIDTH - 1, WORLD_HEIGHT - 1, false);
    assert!(w.is_discovered(WORLD_WIDTH - 2, WORLD_HEIGHT - 1));
    assert!(w.is_discovered(WORLD_WIDTH - 1, WORLD_HEIGHT - 2));
}

#[test]
fn render_map_is_framed() {
    let w = world_of(|x, y| if (x, y) == (3, 2) { OCEAN } else { PLAINS });
    let rows = w.render_map();
    assert_eq!(rows.len(), WORLD_HEIGHT + 2);
    for row in &rows {
        assert_eq!(row.len(), WORLD_WIDTH + 2);
    }
    assert_eq!(rows[0][0], '\u{250c}');
    assert_eq!(rows[0][WORLD_WIDTH + 1], '\u{2510}');
    assert_eq!(rows[0][7], '\u{2500}');
    assert_eq!(rows[WORLD_HEIGHT + 1][0], '\u{2514}');
    assert_eq!(rows[WORLD_HEIGHT + 1][WORLD_WIDTH + 1], '\u{2518}');
    assert_eq!(rows[9][0], '\u{2502}');
    assert_eq!(rows[9][WORLD_WIDTH + 1], '\u{2502}');
    assert_eq!(rows[3][4], '\u{2593}');
    assert_eq!(rows[3][5], '.');
}

#[test]
fn map_command_marks_player() {
    let mut p = player_in(plains_world());
    match ok(p.check_command("use map".to_string())) {
        Response::WorldMap(rows) => {
            assert_eq!(rows.len(), WORLD_HEIGHT + 2);
            assert_eq!(rows[START_Y as usize + 1][START_X as usize + 1], PLAYER_MARK);
            assert_eq!(rows[START_Y as usize + 1][START_X as usize + 2], '.');
        },
        _ => panic!("expected the map"),
    }
}

#[test]
fn move_north_from_start() {
    let mut p = player_in(plains_world());
    assert_eq!(p.get_pos(), (START_X, START_Y));
    let told = ok(p.move_facing("forward"));
    assert_eq!(p.get_pos(), (164, 39));
    assert_eq!(told[0], Narration::Standing(TileKind::Plains));
    assert!(p.world().is_discovered(164, 39));
    assert!(p.world().is_discovered(164, 38));
}

#[test]
fn move_south_onto_inaccessible_fails() {
    let mut p = player_in(world_of(|x, y| if (x, y) == (164, 41) { OCEAN } else { PLAINS }));
    assert_eq!(p.move_facing("back").err(), Some(PlayerError::OutOfBounds));
    assert_eq!(p.get_pos(), (164, 40));
    assert_eq!(p.facing(), 2);
    assert!(!p.world().is_discovered(164, 41));
}

#[test]
fn move_south_onto_accessible_succeeds() {
    let mut p = player_in(plains_world());
    ok(p.move_facing("backward"));
    assert_eq!(p.get_pos(), (164, 41));
    assert!(p.world().is_discovered(164, 41));
}

#[test]
fn move_south_from_top_row_fails() {
    let mut p = player_in(plains_world());
    for _ in 0..40 {
        ok(p.move_facing("forward"));
    }
    assert_eq!(p.get_pos(), (164, 0));
    assert_eq!(p.move_facing("forward").err(), Some(PlayerError::OutOfBounds));
    assert_eq!(p.move_facing("back").err(), Some(PlayerError::OutOfBounds));
    assert_eq!(p.get_pos(), (164, 0));
}

#[test]
fn move_east_beyond_column_hundred_fails() {
    let mut p = player_in(plains_world());
    assert_eq!(p.move_facing("right").err(), Some(PlayerError::OutOfBounds));
    assert_eq!(p.get_pos(), (164, 40));
    assert_eq!(p.facing(), 1);
}

#[test]
fn move_west_then_east() {
    let mut p = player_in(plains_world());
    ok(p.move_facing("left"));
    assert_eq!(p.get_pos(), (163, 40));
    assert_eq!(p.facing(), 3);
    assert_eq!(p.move_facing("sideways").err(), Some(PlayerError::InvalidRotation));
    assert_eq!(p.get_pos(), (163, 40));
}

#[test]
fn look_turns_without_discovering() {
    let mut p = player_in(world_of(|x, y| if (x, y) == (163, 40) { FOREST } else { PLAINS }));
    assert_eq!(p.look("left"), Ok(TileKind::Forest));
    assert_eq!(p.facing(), 3);
    assert!(!p.world().is_discovered(163, 40));
    assert_eq!(p.get_pos(), (164, 40));
    assert_eq!(p.look("nowhere"), Err(PlayerError::InvalidMovement));
}

#[test]
fn command_length_and_unknown() {
    let mut p = player_in(plains_world());
    assert_eq!(p.check_command("".to_string()).err(), Some(PlayerError::InvalidCommandLength));
    assert_eq!(p.check_command("hi".to_string()).err(), Some(PlayerError::InvalidCommandLength));
    assert_eq!(p.check_command("xyz abc".to_string()).err(), Some(PlayerError::UnknownCommand));
    assert_eq!(p.check_command("    ".to_string()).err(), Some(PlayerError::InvalidCommandLength));
    assert_eq!(p.check_command("move\n".to_string()).err(), Some(PlayerError::InvalidCommandLength));
    assert_eq!(p.check_command("use ".to_string()).err(), Some(PlayerError::InvalidCommandLength));
}

#[test]
fn compass_tells_facing() {
    let mut p = player_in(plains_world());
    assert!(matches!(ok(p.check_command("use compass".to_string())), Response::Compass(Heading::North)));
    ok(p.rotate("right"));
    assert!(matches!(ok(p.check_command("use compass".to_string())), Response::Compass(Heading::East)));
    ok(p.rotate("right"));
    assert!(matches!(ok(p.check_command("use compass".to_string())), Response::Compass(Heading::South)));
    ok(p.rotate("right"));
    assert!(matches!(ok(p.check_command("use compass".to_string())), Response::Compass(Heading::West)));
}

#[test]
fn commands_reject_bad_arguments() {
    let mut p = player_in(plains_world());
    assert_eq!(p.check_command("use sword".to_string()).err(), Some(PlayerError::InvalidMovement));
    assert_eq!(p.check_command("look sideways".to_string()).err(), Some(PlayerError::InvalidMovement));
    assert_eq!(p.check_command("move sideways".to_string()).err(), Some(PlayerError::InvalidMovement));
    assert_eq!(p.get_pos(), (164, 40));
    assert_eq!(p.facing(), 0);
}

#[test]
fn move_command_splits_on_whitespace() {
    let mut p = player_in(plains_world());
    match ok(p.check_command("  move \t forward \n".to_string())) {
        Response::Arrived(told) => assert_eq!(told[0], Narration::Standing(TileKind::Plains)),
        _ => panic!("expected a move"),
    }
    assert_eq!(p.get_pos(), (164, 39));
    match ok(p.check_command("look right\n".to_string())) {
        Response::Sight(k) => assert_eq!(k, TileKind::Plains),
        _ => panic!("expected a sight"),
    }
    assert_eq!(p.facing(), 1);
}

#[test]
fn status_inventory_and_help() {
    let mut p = player_in(plains_world());
    match ok(p.check_command("status".to_string())) {
        Response::Status(name, health, armor) => {
            assert_eq!(name, "Ada");
            assert_eq!(health, 100);
            assert_eq!(armor, 0);
        },
        _ => panic!("expected the status"),
    }
    match ok(p.check_command("inventory".to_string())) {
        Response::Inventory(lines) => {
            assert_eq!(
                lines,
                vec![
                    ("Compass".to_string(), "Always points the way home".to_string()),
                    ("Map".to_string(), "The World Map".to_string()),
                ]
            );
        },
        _ => panic!("expected the inventory"),
    }
    assert!(matches!(ok(p.check_command("help".to_string())), Response::Help));
    assert!(help_text().starts_with("Avalible commands:"));
}

#[test]
fn parse_command_words() {
    let words = vec!["move".to_string(), "left".to_string()];
    assert_eq!(parse_command(&words), Ok(Command::Move(Turn::Left)));
    let words = vec!["look".to_string(), "up".to_string()];
    assert_eq!(parse_command(&words), Ok(Command::Look(Turn::Ahead)));
    assert_eq!(parse_command(&Vec::new()), Err(PlayerError::InvalidCommandLength));
}

#[test]
fn player_needs_a_name() {
    assert!(matches!(Player::new(String::new(), plains_world()), Err(PlayerError::NoName)));
}

#[test]
fn discover_here_tells_start() {
    let mut p = player_in(plains_world());
    let told = p.discover_here();
    assert_eq!(told.len(), 5);
    assert!(p.world().is_discovered(START_X as usize, START_Y as usize));
}

#[test]
fn item_without_name_fails() {
    assert!(matches!(Item::new("", "desc"), Err(ItemError::NoName)));
    assert_eq!(ItemError::NoName.message(), "No name given to item");
}

#[test]
fn item_without_description_gets_default() {
    let item = Item::new("Sword", "").unwrap();
    assert_eq!(item.name, "Sword");
    assert_eq!(item.count, 1);
    assert_eq!(item.describe(), "A mysterious object");
    let shield = Item::new("Shield", "Round and wooden").unwrap();
    assert_eq!(shield.describe(), "Round and wooden");
}

#[test]
fn tiles_from_colours() {
    let cases = [
        ((100, 75, 0), TileKind::Mountain, false),
        ((255, 191, 0), TileKind::Hills, true),
        ((0, 255, 0), TileKind::Plains, true),
        ((0, 200, 0), TileKind::Trees, true),
        ((0, 100, 0), TileKind::Forest, true),
        ((100, 100, 255), TileKind::Sand, false),
        ((0, 0, 200), TileKind::Water, false),
        ((0, 0, 100), TileKind::Ocean, false),
        ((255, 255, 255), TileKind::Town, true),
        ((1, 2, 3), TileKind::Plains, true),
    ];
    for (rgb, kind, accessible) in cases {
        let t = Tile::new(rgb);
        assert_eq!(t.kind, kind);
        assert_eq!(t.accessible, accessible);
        assert!(!t.discovered);
        assert!(t.settlement.is_none());
    }
}

#[test]
fn world_from_small_image_fills_rest_with_plains() {
    let raw = raw_of(3, 2, |_, _| OCEAN);
    let w = World::from_rgb(3, 2, &raw);
    assert_eq!(w.display_tile(2, 1), TileKind::Ocean);
    assert!(!w.is_accessible(2, 1));
    assert_eq!(w.display_tile(3, 1), TileKind::Plains);
    assert_eq!(w.display_tile(0, 2), TileKind::Plains);
    assert!(w.is_accessible(0, 2));
    let short = vec![0u8, 0, 100, 0, 0];
    let w = World::from_rgb(2, 1, &short);
    assert_eq!(w.display_tile(0, 0), TileKind::Ocean);
    assert_eq!(w.display_tile(1, 0), TileKind::Plains);
}

#[test]
fn world_from_undecodable_bytes_fails() {
    assert!(matches!(World::new(&vec![1u8, 2, 3, 4]), Err(WorldError::Undecodable)));
}

#[test]
fn world_from_png_bytes() {
    let raw = raw_of(4, 3, |x, y| if (x, y) == (3, 2) { TOWN } else { HILLS });
    let img = image::RgbImage::from_raw(4, 3, raw).unwrap();
    let mut bytes: Vec<u8> = Vec::new();
    img.write_to(&mut std::io::Cursor::new(&mut bytes), image::ImageOutputFormat::Png).unwrap();
    let w = match World::new(&bytes) {
        Ok(w) => w,
        Err(_) => panic!("a PNG must decode"),
    };
    assert_eq!(w.display_tile(3, 2), TileKind::Town);
    assert_eq!(w.display_tile(0, 0), TileKind::Hills);
    assert_eq!(w.display_tile(4, 0), TileKind::Plains);
}

#[test]
fn narration_text() {
    assert_eq!(Narration::Standing(TileKind::Sand).text(), ("You are standing on wet sand.", ""));
    assert_eq!(Narration::Standing(TileKind::Ocean).text(), ("How did you manage to get here?", ""));
    assert_eq!(
        Narration::Sighted(TileKind::Mountain, Heading::South).text(),
        ("You see a mountain", " to the South.")
    );
    assert_eq!(TileKind::Water.sight_text(), "You see running water");
    assert_eq!(TileKind::Town.glyph(), '\u{2302}');
    assert_eq!(Heading::West.name(), "West");
    assert_eq!(PlayerError::OutOfBounds.message(), "The movement would put you out of bounds");
}

#[test]
fn game_state_slots() {
    let mut g = GameState::new();
    assert!(g.world.is_none() && g.player.is_none());
    g.player = Some(player_in(plains_world()));
    g.world = Some(plains_world());
    ok(g.player_mut().rotate("left"));
    assert_eq!(g.player().facing(), 3);
    g.world_mut().discover(1, 1, false);
    assert!(g.world().is_discovered(1, 2));
}
