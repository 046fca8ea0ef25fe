//! A terminal exploration game's core: a world of terrain tiles read from a colour map, the
//! discovery of tiles as a player walks, and the player's turning, moving, looking and commands.

pub mod tile;
pub mod world;
pub mod item;
pub mod player;
pub mod gamestate;

pub use gamestate::GameState;
pub use item::{Item, ItemError};
pub use player::{Command, Player, PlayerError, Response, Turn};
pub use tile::{Tile, TileKind};
pub use world::{Heading, Narration, World, WorldError, WORLD_HEIGHT, WORLD_WIDTH};
