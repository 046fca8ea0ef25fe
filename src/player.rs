use vstd::prelude::*;
use crate::item::Item;
use crate::tile::TileKind;
use crate::world::{World, Heading, Narration, in_grid, step, map_char, cell_index, revealed, narration, WORLD_WIDTH, WORLD_HEIGHT};

verus! {

/// Why a player could not be made, or a command could not be carried out.
#[derive(Clone, Copy, Debug, PartialEq, Eq, Structural)]
pub enum PlayerError {
    NoName,
    InvalidMovement,
    InvalidRotation,
    InvalidCommandLength,
    UnknownCommand,
    OutOfBounds,
}

/// The message that tells a user of an error.
pub open spec fn error_text(e: PlayerError) -> Seq<char> {
    match e {
        PlayerError::NoName => "no player name"@,
        PlayerError::InvalidMovement => "invalid movement input"@,
        PlayerError::InvalidRotation => "invalid direction change"@,
        PlayerError::InvalidCommandLength => "Command too short"@,
        PlayerError::OutOfBounds => "The movement would put you out of bounds"@,
        PlayerError::UnknownCommand => "This command does not exist"@,
    }
}

impl PlayerError {
    /// The message that tells a user of the error.
    pub fn message(&self) -> (m: &'static str)
        ensures
            m@ == error_text(*self),
    {
        match self {
            PlayerError::NoName => "no player name",
            PlayerError::InvalidMovement => "invalid movement input",
            PlayerError::InvalidRotation => "invalid direction change",
            PlayerError::InvalidCommandLength => "Command too short",
            PlayerError::OutOfBounds => "The movement would put you out of bounds",
            PlayerError::UnknownCommand => "This command does not exist",
        }
    }
}

/// A turn relative to the way the player faces.
#[derive(Clone, Copy, Debug, PartialEq, Eq, Structural)]
pub enum Turn {
    Ahead,
    Back,
    Left,
    Right,
}

/// The turn a direction word asks for, if it is one of the known words.
pub open spec fn turn_of(word: Seq<char>) -> Option<Turn> {
    if word == "forward"@ || word == "forwards"@ || word == "up"@ {
        Some(Turn::Ahead)
    } else if word == "backward"@ || word == "backwards"@ || word == "back"@ || word == "down"@ {
        Some(Turn::Back)
    } else if word == "left"@ {
        Some(Turn::Left)
    } else if word == "right"@ {
        Some(Turn::Right)
    } else {
        None
    }
}

/// The facing after turning by `t` from `facing` (north 0, east 1, south 2, west 3).
pub open spec fn turned(facing: int, t: Turn) -> int {
    match t {
        Turn::Ahead => facing,
        Turn::Back => (facing + 2) % 4,
        Turn::Left => (facing + 3) % 4,
        Turn::Right => (facing + 1) % 4,
    }
}

/// The compass direction of a facing.
pub open spec fn heading_of(facing: int) -> Heading {
    if facing == 0 {
        Heading::North
    } else if facing == 1 {
        Heading::East
    } else if facing == 2 {
        Heading::South
    } else {
        Heading::West
    }
}

/// Turning ahead changes nothing, turning back twice comes round again, and left and right
/// undo each other, from every facing.
pub proof fn turn_laws(facing: int)
    requires
        0 <= facing < 4,
    ensures
        turned(facing, Turn::Ahead) == facing,
        turned(turned(facing, Turn::Back), Turn::Back) == facing,
        turned(turned(facing, Turn::Left), Turn::Right) == facing,
        turned(turned(facing, Turn::Right), Turn::Left) == facing,
        0 <= turned(facing, Turn::Back) < 4,
        0 <= turned(facing, Turn::Left) < 4,
        0 <= turned(facing, Turn::Right) < 4,
{
}

/// Column the player starts on.
pub const START_X: i32 = 164;

/// Row the player starts on.
pub const START_Y: i32 = 40;

/// Where a step from `(x, y)` facing `f` leads in world `w`, if it is allowed: north only
/// below row 100 and off the top row, east only left of column 100, south only off the top
/// row, inside the world and onto an accessible tile, west only off the first column.
pub open spec fn step_target(w: World, x: int, y: int, f: int) -> Option<(int, int)> {
    if f == 0 {
        if y < 100 && y > 0 { Some((x, y - 1)) } else { None }
    } else if f == 1 {
        if x < 100 && x + 1 < WORLD_WIDTH as int { Some((x + 1, y)) } else { None }
    } else if f == 2 {
        if y > 0 && y + 1 < WORLD_HEIGHT as int && w.cell(x, y + 1).accessible {
            Some((x, y + 1))
        } else {
            None
        }
    } else {
        if x > 0 { Some((x - 1, y)) } else { None }
    }
}

/// The cell one step ahead of `(x, y)` when facing `f`.
pub open spec fn ahead(x: int, y: int, f: int) -> (int, int) {
    step(x, y, heading_of(f))
}

/// A command a player can give.
#[derive(Clone, Copy, Debug, PartialEq, Eq, Structural)]
pub enum Command {
    Help,
    Inventory,
    Status,
    UseMap,
    UseCompass,
    Look(Turn),
    Move(Turn),
}

/// What a command hands back to be shown to the player.
pub enum Response {
    /// The list of commands.
    Help,
    /// Name and description of each item carried.
    Inventory(Vec<(String, String)>),
    /// Name, health and armour.
    Status(String, u8, u8),
    /// The framed map, rows of characters, with the player marked.
    WorldMap(Vec<Vec<char>>),
    /// The way the player faces.
    Compass(Heading),
    /// The terrain looked at.
    Sight(TileKind),
    /// What the player is told on arriving at a new cell.
    Arrived(Vec<Narration>),
}

/// The text that lists the commands.
pub fn help_text() -> (s: &'static str)
    ensures
        s@ == "Avalible commands:\nmove <forward/backward/left/right>\ninventory\nstatus"@,
{
    "Avalible commands:\nmove <forward/backward/left/right>\ninventory\nstatus"
}

/// The words of a command line, split at whitespace.
pub uninterp spec fn words_of(line: Seq<char>) -> Seq<Seq<char>>;

/// Relies on str::split_whitespace: the words depend on the characters of `line` alone.
#[verifier::external_body]
fn split_words(line: &str) -> (words: Vec<String>)
    ensures
        texts(words@) == words_of(line@),
{
    line.split_whitespace().map(|w| w.to_string()).collect()
}

/// The characters of each string.
pub open spec fn texts(words: Seq<String>) -> Seq<Seq<char>> {
    words.map_values(|w: String| w@)
}

/// The command that a line split into `words` gives: the first word names it, and `use`,
/// `look` and `move` take a second word.
pub open spec fn command_of(words: Seq<Seq<char>>) -> Result<Command, PlayerError> {
    if words.len() == 0 {
        Err(PlayerError::InvalidCommandLength)
    } else if words[0] == "help"@ {
        Ok(Command::Help)
    } else if words[0] == "inventory"@ {
        Ok(Command::Inventory)
    } else if words[0] == "status"@ {
        Ok(Command::Status)
    } else if words[0] == "use"@ {
        if words.len() < 2 {
            Err(PlayerError::InvalidCommandLength)
        } else if words[1] == "map"@ {
            Ok(Command::UseMap)
        } else if words[1] == "compass"@ {
            Ok(Command::UseCompass)
        } else {
            Err(PlayerError::InvalidMovement)
        }
    } else if words[0] == "look"@ || words[0] == "move"@ {
        if words.len() < 2 {
            Err(PlayerError::InvalidCommandLength)
        } else {
            match turn_of(words[1]) {
                None => Err(PlayerError::InvalidMovement),
                Some(t) => if words[0] == "look"@ {
                    Ok(Command::Look(t))
                } else {
                    Ok(Command::Move(t))
                },
            }
        }
    } else {
        Err(PlayerError::UnknownCommand)
    }
}

/// The command given by `words`.
pub fn parse_command(words: &Vec<String>) -> (r: Result<Command, PlayerError>)
    ensures
        r == command_of(texts(words@)),
{
    let ghost ws = texts(words@);
    if words.len() == 0 {
        return Err(PlayerError::InvalidCommandLength);
    }
    assert(ws[0] == words@[0]@);
    let verb = words[0].as_str();
    if same_text(verb, "help") {
        Ok(Command::Help)
    } else if same_text(verb, "inventory") {
        Ok(Command::Inventory)
    } else if same_text(verb, "status") {
        Ok(Command::Status)
    } else if same_text(verb, "use") {
        if words.len() < 2 {
            return Err(PlayerError::InvalidCommandLength);
        }
        assert(ws[1] == words@[1]@);
        let item = words[1].as_str();
        if same_text(item, "map") {
            Ok(Command::UseMap)
        } else if same_text(item, "compass") {
            Ok(Command::UseCompass)
        } else {
            Err(PlayerError::InvalidMovement)
        }
    } else if same_text(verb, "look") || same_text(verb, "move") {
        if words.len() < 2 {
            return Err(PlayerError::InvalidCommandLength);
        }
        assert(ws[1] == words@[1]@);
        match parse_turn(words[1].as_str()) {
            None => Err(PlayerError::InvalidMovement),
            Some(t) => if same_text(verb, "look") {
                Ok(Command::Look(t))
            } else {
                Ok(Command::Move(t))
            },
        }
    } else {
        Err(PlayerError::UnknownCommand)
    }
}

/// The rules of a step: north from a row below 100 other than the top one leads one row
/// up, and a step south from the top row or onto an inaccessible tile is refused. A step that
/// is refused leaves the player in place and a step taken discovers the cell reached (see
/// `move_facing`).
pub proof fn step_rules(w: World, x: int, y: int)
    requires
        w.wf(),
        in_grid(x, y),
    ensures
        0 < y < 100 ==> step_target(w, x, y, 0) == Some((x, y - 1)),
        y == 0 ==> step_target(w, x, y, 2) is None,
        y + 1 < WORLD_HEIGHT as int && !w.cell(x, y + 1).accessible ==> step_target(w, x, y, 2) is None,
        forall|to: (int, int)| #[trigger] step_target(w, x, y, 0) == Some(to) ==> ({
            let t = revealed(w.tiles(), to.0, to.1);
            t[cell_index(to.0, to.1)].discovered
        }),
{
    if 0 < y {
        let t = revealed(w.tiles(), x, y - 1);
        assert(t[cell_index(x, y - 1)].discovered);
    }
}

/// Whether two strings hold the same characters.
pub fn same_text(a: &str, b: &str) -> (r: bool)
    ensures
        r == (a@ == b@),
{
    let n = a.unicode_len();
    if n != b.unicode_len() {
        return false;
    }
    let mut i: usize = 0;
    while i < n
        invariant
            n == a@.len(),
            n == b@.len(),
            i <= n,
            forall|k: int| 0 <= k < i ==> a@[k] == b@[k],
        decreases n - i,
    {
        if a.get_char(i) != b.get_char(i) {
            return false;
        }
        i = i + 1;
    }
    assert(a@ =~= b@);
    true
}

/// The turn that `word` asks for, if it is a known direction word.
pub fn parse_turn(word: &str) -> (r: Option<Turn>)
    ensures
        r == turn_of(word@),
{
    if same_text(word, "forward") || same_text(word, "forwards") || same_text(word, "up") {
        Some(Turn::Ahead)
    } else if same_text(word, "backward") || same_text(word, "backwards") || same_text(word, "back")
        || same_text(word, "down") {
        Some(Turn::Back)
    } else if same_text(word, "left") {
        Some(Turn::Left)
    } else if same_text(word, "right") {
        Some(Turn::Right)
    } else {
        None
    }
}

/// The player: who they are, where they stand, the way they face, what they carry, and the
/// world they explore.
pub struct Player {
    name: String,
    health: u8,
    armor: u8,
    pos: (i32, i32),
    facing: u8,
    inventory: Vec<Item>,
    world: World,
}

impl Player {
    pub closed spec fn name_view(&self) -> Seq<char> {
        self.name@
    }

    pub closed spec fn health_view(&self) -> u8 {
        self.health
    }

    pub closed spec fn armor_view(&self) -> u8 {
        self.armor
    }

    /// Column and row the player stands on.
    pub closed spec fn pos_view(&self) -> (int, int) {
        (self.pos.0 as int, self.pos.1 as int)
    }

    /// North 0, east 1, south 2, west 3.
    pub closed spec fn facing_view(&self) -> int {
        self.facing as int
    }

    pub closed spec fn inventory_view(&self) -> Seq<Item> {
        self.inventory@
    }

    pub closed spec fn world_view(&self) -> World {
        self.world
    }

    /// The player stands inside a sound world and faces one of the four directions.
    pub open spec fn wf(&self) -> bool {
        &&& self.world_view().wf()
        &&& 0 <= self.facing_view() < 4
        &&& in_grid(self.pos_view().0, self.pos_view().1)
        &&& self.name_view().len() > 0
    }

    /// `b` is `a` with only its facing changed, to `f`.
    pub open spec fn refaced(a: Player, b: Player, f: int) -> bool {
        &&& b.facing_view() == f
        &&& b.pos_view() == a.pos_view()
        &&& b.world_view() == a.world_view()
        &&& b.name_view() == a.name_view()
        &&& b.health_view() == a.health_view()
        &&& b.armor_view() == a.armor_view()
        &&& b.inventory_view() == a.inventory_view()
    }

    /// `b` is `a` after stepping to `to` while facing `f`: the cell reached and its
    /// neighbours are discovered, nothing else changes.
    pub open spec fn moved(a: Player, b: Player, f: int, to: (int, int)) -> bool {
        &&& b.facing_view() == f
        &&& b.pos_view() == to
        &&& b.world_view().tiles() == revealed(a.world_view().tiles(), to.0, to.1)
        &&& b.name_view() == a.name_view()
        &&& b.health_view() == a.health_view()
        &&& b.armor_view() == a.armor_view()
        &&& b.inventory_view() == a.inventory_view()
    }

    /// A player called `name` in `world`, at the start position, facing north, with full
    /// health, no armour, a compass and a map. Fails where the name is empty.
    pub fn new(name: String, world: World) -> (r: Result<Player, PlayerError>)
        requires
            world.wf(),
        ensures
            name@.len() == 0 ==> r == Err::<Player, PlayerError>(PlayerError::NoName),
            name@.len() > 0 ==> (r matches Ok(p) && {
                &&& p.wf()
                &&& p.name_view() == name@
                &&& p.health_view() == 100
                &&& p.armor_view() == 0
                &&& p.pos_view() == (START_X as int, START_Y as int)
                &&& p.facing_view() == 0
                &&& p.world_view() == world
                &&& p.inventory_view().len() == 2
                &&& p.inventory_view()[0].label() == "Compass"@
                &&& p.inventory_view()[0].description() == "Always points the way home"@
                &&& p.inventory_view()[1].label() == "Map"@
                &&& p.inventory_view()[1].description() == "The World Map"@
            }),
    {
        if name.as_str().is_empty() {
            return Err(PlayerError::NoName);
        }
        proof {
            reveal_strlit("Compass");
            reveal_strlit("Always points the way home");
            reveal_strlit("Map");
            reveal_strlit("The World Map");
        }
        let compass = Item::new("Compass", "Always points the way home").unwrap();
        let map = Item::new("Map", "The World Map").unwrap();
        let mut inventory: Vec<Item> = Vec::new();
        inventory.push(compass);
        inventory.push(map);
        Ok(Player { name, health: 100, armor: 0, pos: (START_X, START_Y), facing: 0, inventory, world })
    }

    /// Column and row the player stands on.
    pub fn get_pos(&self) -> (r: (i32, i32))
        ensures
            (r.0 as int, r.1 as int) == self.pos_view(),
    {
        self.pos
    }

    /// The world the player explores.
    pub fn world(&self) -> (w: &World)
        ensures
            *w == self.world_view(),
    {
        &self.world
    }

    /// Discovers the cell the player stands on and its neighbours, and returns what the
    /// player is told there.
    pub fn discover_here(&mut self) -> (told: Vec<Narration>)
        requires
            old(self).wf(),
        ensures
            final(self).wf(),
            told@ == narration(old(self).world_view().tiles(), old(self).pos_view().0, old(self).pos_view().1),
            Self::moved(*old(self), *final(self), old(self).facing_view(), old(self).pos_view()),
    {
        self.world.discover(self.pos.0 as usize, self.pos.1 as usize, true)
    }

    /// Turns as `direction` asks, then steps one cell the way the player now faces and
    /// returns what the player is told on arriving. Fails where the word is not a known
    /// direction, leaving the player as they were, or where the step is not allowed, leaving
    /// the player turned but in place.
    pub fn move_facing(&mut self, direction: &str) -> (r: Result<Vec<Narration>, PlayerError>)
        requires
            old(self).wf(),
        ensures
            final(self).wf(),
            match turn_of(direction@) {
                None => r == Err::<Vec<Narration>, PlayerError>(PlayerError::InvalidRotation)
                    && *final(self) == *old(self),
                Some(t) => {
                    let f = turned(old(self).facing_view(), t);
                    match step_target(old(self).world_view(), old(self).pos_view().0, old(self).pos_view().1, f) {
                        None => r == Err::<Vec<Narration>, PlayerError>(PlayerError::OutOfBounds)
                            && Self::refaced(*old(self), *final(self), f),
                        Some(to) => (r matches Ok(told) && told@ == narration(old(self).world_view().tiles(), to.0, to.1))
                            && Self::moved(*old(self), *final(self), f, to),
                    }
                },
            },
    {
        match parse_turn(direction) {
            Some(t) => self.move_turn(t),
            None => Err(PlayerError::InvalidRotation),
        }
    }

    /// Turns by `t`, then steps ahead, as `move_facing` does.
    fn move_turn(&mut self, t: Turn) -> (r: Result<Vec<Narration>, PlayerError>)
        requires
            old(self).wf(),
        ensures
            final(self).wf(),
            ({
                let f = turned(old(self).facing_view(), t);
                match step_target(old(self).world_view(), old(self).pos_view().0, old(self).pos_view().1, f) {
                    None => r == Err::<Vec<Narration>, PlayerError>(PlayerError::OutOfBounds)
                        && Self::refaced(*old(self), *final(self), f),
                    Some(to) => (r matches Ok(told) && told@ == narration(old(self).world_view().tiles(), to.0, to.1))
                        && Self::moved(*old(self), *final(self), f, to),
                }
            }),
    {
        self.turn(t);
        let x = self.pos.0;
        let y = self.pos.1;
        let to: (i32, i32) = match self.facing {
            0 => {
                if y < 100 && y > 0 {
                    (x, y - 1)
                } else {
                    return Err(PlayerError::OutOfBounds);
                }
            },
            1 => {
                if x < 100 && x + 1 < WORLD_WIDTH as i32 {
                    (x + 1, y)
                } else {
                    return Err(PlayerError::OutOfBounds);
                }
            },
            2 => {
                if y > 0 && y + 1 < WORLD_HEIGHT as i32 && self.world.is_accessible(x as usize, (y + 1) as usize) {
                    (x, y + 1)
                } else {
                    return Err(PlayerError::OutOfBounds);
                }
            },
            3 => {
                if x > 0 {
                    (x - 1, y)
                } else {
                    return Err(PlayerError::OutOfBounds);
                }
            },
            _ => {
                return Err(PlayerError::InvalidMovement);
            },
        };
        self.pos = to;
        Ok(self.world.discover(to.0 as usize, to.1 as usize, true))
    }

    /// Turns as `direction` asks, then looks at the cell one step ahead without discovering
    /// it. Fails where the word is not a known direction, leaving the player as they were,
    /// or where that cell lies outside the world, leaving the player turned.
    pub fn look(&mut self, direction: &str) -> (r: Result<TileKind, PlayerError>)
        requires
            old(self).wf(),
        ensures
            final(self).wf(),
            match turn_of(direction@) {
                None => r == Err::<TileKind, PlayerError>(PlayerError::InvalidMovement)
                    && *final(self) == *old(self),
                Some(t) => {
                    let f = turned(old(self).facing_view(), t);
                    let (ax, ay) = ahead(old(self).pos_view().0, old(self).pos_view().1, f);
                    &&& Self::refaced(*old(self), *final(self), f)
                    &&& r == if in_grid(ax, ay) {
                        Ok::<TileKind, PlayerError>(old(self).world_view().cell(ax, ay).kind)
                    } else {
                        Err::<TileKind, PlayerError>(PlayerError::OutOfBounds)
                    }
                },
            },
    {
        match parse_turn(direction) {
            Some(t) => self.look_turn(t),
            None => Err(PlayerError::InvalidMovement),
        }
    }

    /// Turns by `t`, then looks at the cell one step ahead, as `look` does.
    fn look_turn(&mut self, t: Turn) -> (r: Result<TileKind, PlayerError>)
        requires
            old(self).wf(),
        ensures
            final(self).wf(),
            ({
                let f = turned(old(self).facing_view(), t);
                let (ax, ay) = ahead(old(self).pos_view().0, old(self).pos_view().1, f);
                &&& Self::refaced(*old(self), *final(self), f)
                &&& r == if in_grid(ax, ay) {
                    Ok::<TileKind, PlayerError>(old(self).world_view().cell(ax, ay).kind)
                } else {
                    Err::<TileKind, PlayerError>(PlayerError::OutOfBounds)
                }
            }),
    {
        self.turn(t);
        let x = self.pos.0;
        let y = self.pos.1;
        let (ax, ay): (i32, i32) = match self.facing {
            0 => (x, y - 1),
            1 => (x + 1, y),
            2 => (x, y + 1),
            _ => (x - 1, y),
        };
        if ax < 0 || ay < 0 || ax >= WORLD_WIDTH as i32 || ay >= WORLD_HEIGHT as i32 {
            return Err(PlayerError::OutOfBounds);
        }
        Ok(self.world.display_tile(ax as usize, ay as usize))
    }

    /// Name and description of each item the player carries, in order.
    pub fn display_inventory(&self) -> (lines: Vec<(String, String)>)
        ensures
            lines@.len() == self.inventory_view().len(),
            forall|i: int|
                0 <= i < lines@.len() ==> (#[trigger] lines@[i]).0@ == self.inventory_view()[i].label()
                    && lines@[i].1@ == self.inventory_view()[i].description(),
    {
        let mut lines: Vec<(String, String)> = Vec::new();
        let mut i: usize = 0;
        while i < self.inventory.len()
            invariant
                i <= self.inventory@.len(),
                lines@.len() == i,
                forall|k: int|
                    0 <= k < i ==> (#[trigger] lines@[k]).0@ == self.inventory_view()[k].label()
                        && lines@[k].1@ == self.inventory_view()[k].description(),
            decreases self.inventory@.len() - i,
        {
            let item = &self.inventory[i];
            lines.push((item.label_text().clone(), item.describe()));
            i = i + 1;
        }
        lines
    }

    /// `b` and result `r` are what carrying out command `c` makes of player `a`.
    pub open spec fn performed(a: Player, b: Player, c: Command, r: Result<Response, PlayerError>) -> bool {
        match c {
            Command::Help => b == a && r is Ok && r->Ok_0 is Help,
            Command::Inventory => b == a && r is Ok && r->Ok_0 is Inventory && {
                let lines = r->Ok_0->Inventory_0@;
                &&& lines.len() == a.inventory_view().len()
                &&& forall|i: int| 0 <= i < lines.len() ==> (#[trigger] lines[i]).0@ == a.inventory_view()[i].label()
                    && lines[i].1@ == a.inventory_view()[i].description()
            },
            Command::Status => b == a && r is Ok && r->Ok_0 is Status && {
                &&& r->Ok_0->Status_0@ == a.name_view()
                &&& r->Ok_0->Status_1 == a.health_view()
                &&& r->Ok_0->Status_2 == a.armor_view()
            },
            Command::UseMap => b == a && r is Ok && r->Ok_0 is WorldMap && {
                let rows = r->Ok_0->WorldMap_0@;
                &&& rows.len() == WORLD_HEIGHT + 2
                &&& forall|i: int| 0 <= i < rows.len() ==> #[trigger] rows[i]@.len() == WORLD_WIDTH + 2
                &&& forall|i: int, j: int| 0 <= i < WORLD_HEIGHT + 2 && 0 <= j < WORLD_WIDTH + 2
                    ==> #[trigger] rows[i]@[j] == map_char(a.world_view().tiles(), Some(a.pos_view()), i, j)
            },
            Command::UseCompass => b == a && r is Ok && r->Ok_0 == Response::Compass(heading_of(a.facing_view())),
            Command::Look(t) => {
                let f = turned(a.facing_view(), t);
                let (ax, ay) = ahead(a.pos_view().0, a.pos_view().1, f);
                &&& Self::refaced(a, b, f)
                &&& if in_grid(ax, ay) {
                    r is Ok && r->Ok_0 == Response::Sight(a.world_view().cell(ax, ay).kind)
                } else {
                    r == Err::<Response, PlayerError>(PlayerError::OutOfBounds)
                }
            },
            Command::Move(t) => {
                let f = turned(a.facing_view(), t);
                match step_target(a.world_view(), a.pos_view().0, a.pos_view().1, f) {
                    None => r == Err::<Response, PlayerError>(PlayerError::OutOfBounds) && Self::refaced(a, b, f),
                    Some(to) => r is Ok && r->Ok_0 is Arrived
                        && r->Ok_0->Arrived_0@ == narration(a.world_view().tiles(), to.0, to.1)
                        && Self::moved(a, b, f, to),
                }
            },
        }
    }

    /// Carries out command `c`.
    pub fn execute(&mut self, c: Command) -> (r: Result<Response, PlayerError>)
        requires
            old(self).wf(),
        ensures
            final(self).wf(),
            Self::performed(*old(self), *final(self), c, r),
    {
        match c {
            Command::Help => Ok(Response::Help),
            Command::Inventory => Ok(Response::Inventory(self.display_inventory())),
            Command::Status => Ok(Response::Status(self.name.clone(), self.health, self.armor)),
            Command::UseMap => {
                let at = (self.pos.0 as usize, self.pos.1 as usize);
                assert(World::marker_cell(Some(at)) == Some(self.pos_view()));
                Ok(Response::WorldMap(self.world.render_with_marker(Some(at))))
            },
            Command::UseCompass => {
                let h = match self.facing {
                    0 => Heading::North,
                    1 => Heading::East,
                    2 => Heading::South,
                    _ => Heading::West,
                };
                Ok(Response::Compass(h))
            },
            Command::Look(t) => match self.look_turn(t) {
                Ok(k) => Ok(Response::Sight(k)),
                Err(e) => Err(e),
            },
            Command::Move(t) => match self.move_turn(t) {
                Ok(told) => Ok(Response::Arrived(told)),
                Err(e) => Err(e),
            },
        }
    }

    /// Carries out the command given by `words`; fails, leaving the player as they were,
    /// where the words give no command.
    pub fn run_command(&mut self, words: &Vec<String>) -> (r: Result<Response, PlayerError>)
        requires
            old(self).wf(),
        ensures
            final(self).wf(),
            match command_of(texts(words@)) {
                Err(e) => r == Err::<Response, PlayerError>(e) && *final(self) == *old(self),
                Ok(c) => Self::performed(*old(self), *final(self), c, r),
            },
    {
        match parse_command(words) {
            Err(e) => Err(e),
            Ok(c) => self.execute(c),
        }
    }

    /// Carries out the command line `cmd`: lines shorter than four characters are refused,
    /// other lines are split at whitespace and carried out as `run_command` does.
    pub fn check_command(&mut self, cmd: String) -> (r: Result<Response, PlayerError>)
        requires
            old(self).wf(),
        ensures
            final(self).wf(),
            cmd@.len() < 4 ==> r == Err::<Response, PlayerError>(PlayerError::InvalidCommandLength)
                && *final(self) == *old(self),
            cmd@.len() >= 4 ==> match command_of(words_of(cmd@)) {
                Err(e) => r == Err::<Response, PlayerError>(e) && *final(self) == *old(self),
                Ok(c) => Self::performed(*old(self), *final(self), c, r),
            },
    {
        if cmd.as_str().unicode_len() < 4 {
            return Err(PlayerError::InvalidCommandLength);
        }
        let words = split_words(cmd.as_str());
        self.run_command(&words)
    }

    /// The way the player faces: north 0, east 1, south 2, west 3.
    pub fn facing(&self) -> (f: u8)
        ensures
            f as int == self.facing_view(),
    {
        self.facing
    }

    /// Turns the player as `direction` asks; fails, leaving the player as they were, where
    /// it is not a known direction word.
    pub fn rotate(&mut self, direction: &str) -> (r: Result<(), PlayerError>)
        requires
            old(self).wf(),
        ensures
            final(self).wf(),
            match turn_of(direction@) {
                None => r == Err::<(), PlayerError>(PlayerError::InvalidRotation) && *final(self) == *old(self),
                Some(t) => r is Ok && Self::refaced(*old(self), *final(self), turned(old(self).facing_view(), t)),
            },
    {
        match parse_turn(direction) {
            None => Err(PlayerError::InvalidRotation),
            Some(t) => {
                self.turn(t);
                Ok(())
            },
        }
    }

    /// Turns the player by `t`.
    fn turn(&mut self, t: Turn)
        requires
            old(self).wf(),
        ensures
            final(self).wf(),
            Self::refaced(*old(self), *final(self), turned(old(self).facing_view(), t)),
    {
        self.facing = match t {
            Turn::Ahead => self.facing,
            Turn::Back => (self.facing + 2) % 4,
            Turn::Left => (self.facing + 3) % 4,
            Turn::Right => (self.facing + 1) % 4,
        };
    }
}

} // verus!
