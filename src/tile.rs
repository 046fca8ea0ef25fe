use vstd::prelude::*;

verus! {

/// The terrain kinds of the world.
#[derive(Clone, Copy, Debug, PartialEq, Eq, Structural)]
pub enum TileKind {
    Ocean,
    Water,
    Sand,
    Plains,
    Trees,
    Forest,
    Hills,
    Mountain,
    Town,
}

/// Whether a player may walk onto terrain of this kind.
pub open spec fn passable(k: TileKind) -> bool {
    match k {
        TileKind::Ocean | TileKind::Water | TileKind::Sand | TileKind::Mountain => false,
        TileKind::Plains | TileKind::Trees | TileKind::Forest | TileKind::Hills | TileKind::Town => true,
    }
}

/// The character that stands for terrain of this kind on the map.
pub open spec fn glyph_of(k: TileKind) -> char {
    match k {
        TileKind::Ocean => '\u{2593}',
        TileKind::Water => '\u{2592}',
        TileKind::Sand => '\u{2591}',
        TileKind::Plains => '.',
        TileKind::Trees => '\u{2b61}',
        TileKind::Forest => '\u{2bed}',
        TileKind::Hills => '\u{23f6}',
        TileKind::Mountain => '\u{25ee}',
        TileKind::Town => '\u{2302}',
    }
}

/// The terrain that a map colour stands for; colours outside the palette give none.
pub open spec fn kind_of_color(rgb: (u8, u8, u8)) -> Option<TileKind> {
    if rgb == (100u8, 75u8, 0u8) {
        Some(TileKind::Mountain)
    } else if rgb == (255u8, 191u8, 0u8) {
        Some(TileKind::Hills)
    } else if rgb == (0u8, 255u8, 0u8) {
        Some(TileKind::Plains)
    } else if rgb == (0u8, 200u8, 0u8) {
        Some(TileKind::Trees)
    } else if rgb == (0u8, 100u8, 0u8) {
        Some(TileKind::Forest)
    } else if rgb == (100u8, 100u8, 255u8) {
        Some(TileKind::Sand)
    } else if rgb == (0u8, 0u8, 200u8) {
        Some(TileKind::Water)
    } else if rgb == (0u8, 0u8, 100u8) {
        Some(TileKind::Ocean)
    } else if rgb == (255u8, 255u8, 255u8) {
        Some(TileKind::Town)
    } else {
        None
    }
}

/// The terrain of the tile built from a map colour: unknown colours give plains.
pub open spec fn terrain_of_color(rgb: (u8, u8, u8)) -> TileKind {
    match kind_of_color(rgb) {
        Some(k) => k,
        None => TileKind::Plains,
    }
}

/// How terrain of this kind is described when seen.
pub open spec fn sight_of(k: TileKind) -> Seq<char> {
    match k {
        TileKind::Ocean => "You see the ocean"@,
        TileKind::Water => "You see running water"@,
        TileKind::Sand => "You see wet sand"@,
        TileKind::Plains => "You see a grassy field"@,
        TileKind::Trees => "You see a few trees"@,
        TileKind::Forest => "You see a forest"@,
        TileKind::Hills => "You see rolling hills"@,
        TileKind::Mountain => "You see a mountain"@,
        TileKind::Town => "You see a town"@,
    }
}

/// How terrain of this kind is described to a player standing on it.
pub open spec fn standing_of(k: TileKind) -> Seq<char> {
    match k {
        TileKind::Sand => "You are standing on wet sand."@,
        TileKind::Plains => "You see a grassy field."@,
        TileKind::Trees => "You see a few trees scattered around."@,
        TileKind::Forest => "You see trees all around you."@,
        TileKind::Hills => "You see rolling hills."@,
        _ => "How did you manage to get here?"@,
    }
}

impl TileKind {
    /// The description of this terrain when seen from elsewhere.
    pub fn sight_text(self) -> (s: &'static str)
        ensures
            s@ == sight_of(self),
    {
        match self {
            TileKind::Ocean => "You see the ocean",
            TileKind::Water => "You see running water",
            TileKind::Sand => "You see wet sand",
            TileKind::Plains => "You see a grassy field",
            TileKind::Trees => "You see a few trees",
            TileKind::Forest => "You see a forest",
            TileKind::Hills => "You see rolling hills",
            TileKind::Mountain => "You see a mountain",
            TileKind::Town => "You see a town",
        }
    }

    /// The description of this terrain to a player standing on it.
    pub fn standing_text(self) -> (s: &'static str)
        ensures
            s@ == standing_of(self),
    {
        match self {
            TileKind::Sand => "You are standing on wet sand.",
            TileKind::Plains => "You see a grassy field.",
            TileKind::Trees => "You see a few trees scattered around.",
            TileKind::Forest => "You see trees all around you.",
            TileKind::Hills => "You see rolling hills.",
            _ => "How did you manage to get here?",
        }
    }

    pub fn is_passable(self) -> (r: bool)
        ensures
            r == passable(self),
    {
        match self {
            TileKind::Ocean | TileKind::Water | TileKind::Sand | TileKind::Mountain => false,
            _ => true,
        }
    }

    pub fn glyph(self) -> (c: char)
        ensures
            c == glyph_of(self),
    {
        match self {
            TileKind::Ocean => '\u{2593}',
            TileKind::Water => '\u{2592}',
            TileKind::Sand => '\u{2591}',
            TileKind::Plains => '.',
            TileKind::Trees => '\u{2b61}',
            TileKind::Forest => '\u{2bed}',
            TileKind::Hills => '\u{23f6}',
            TileKind::Mountain => '\u{25ee}',
            TileKind::Town => '\u{2302}',
        }
    }
}

/// How large a settlement is.
#[derive(Clone, Copy, Debug, PartialEq, Eq, Structural)]
pub enum SettlementSize {
    Capital,
    City,
    Village,
    Hamlet,
}

/// A task offered by a settlement.
pub struct Quest {
    pub name: String,
    pub unlocked: bool,
    pub completed: bool,
}

/// A settlement standing on a tile.
pub struct Settlement {
    pub name: String,
    pub size: SettlementSize,
    pub quests: Vec<Quest>,
}

/// One cell of the world.
pub struct Tile {
    pub kind: TileKind,
    pub accessible: bool,
    pub discovered: bool,
    pub settlement: Option<Settlement>,
}

impl Tile {
    /// A tile is sound when its accessibility is the one its terrain gives.
    pub open spec fn wf(&self) -> bool {
        self.accessible == passable(self.kind)
    }

    /// The tile that a map pixel of colour `rgb` stands for, not yet discovered.
    pub fn new(rgb: (u8, u8, u8)) -> (t: Tile)
        ensures
            t.wf(),
            t.kind == terrain_of_color(rgb),
            !t.discovered,
            t.settlement is None,
    {
        let kind = match rgb {
            (100, 75, 0) => TileKind::Mountain,
            (255, 191, 0) => TileKind::Hills,
            (0, 255, 0) => TileKind::Plains,
            (0, 200, 0) => TileKind::Trees,
            (0, 100, 0) => TileKind::Forest,
            (100, 100, 255) => TileKind::Sand,
            (0, 0, 200) => TileKind::Water,
            (0, 0, 100) => TileKind::Ocean,
            (255, 255, 255) => TileKind::Town,
            _ => {
                return Tile::default();
            },
        };
        Tile::of_kind(kind)
    }

    /// An undiscovered tile of terrain `kind`, with no settlement.
    pub fn of_kind(kind: TileKind) -> (t: Tile)
        ensures
            t.wf(),
            t.kind == kind,
            !t.discovered,
            t.settlement is None,
    {
        Tile { kind, accessible: kind.is_passable(), discovered: false, settlement: None }
    }
}

impl Default for Tile {
    /// Undiscovered plains.
    fn default() -> (t: Tile)
        ensures
            t.wf(),
            t.kind == TileKind::Plains,
            !t.discovered,
            t.settlement is None,
    {
        Tile::of_kind(TileKind::Plains)
    }
}

} // verus!
