use vstd::prelude::*;
use crate::tile::{Tile, TileKind, passable, glyph_of, terrain_of_color, sight_of, standing_of};

verus! {

/// Number of columns of the world.
pub const WORLD_WIDTH: usize = 200;

/// Number of rows of the world.
pub const WORLD_HEIGHT: usize = 50;

/// The four directions of the compass, in the order a player turns right through them.
#[derive(Clone, Copy, Debug, PartialEq, Eq, Structural)]
pub enum Heading {
    North,
    East,
    South,
    West,
}

/// Whether `(x, y)` names a cell of the world.
pub open spec fn in_grid(x: int, y: int) -> bool {
    0 <= x < WORLD_WIDTH as int && 0 <= y < WORLD_HEIGHT as int
}

/// Position of cell `(x, y)` in the row-major list of tiles.
pub open spec fn cell_index(x: int, y: int) -> int {
    y * (WORLD_WIDTH as int) + x
}

/// The cell one step from `(x, y)` towards `h`; north is the row above.
pub open spec fn step(x: int, y: int, h: Heading) -> (int, int) {
    match h {
        Heading::North => (x, y - 1),
        Heading::East => (x + 1, y),
        Heading::South => (x, y + 1),
        Heading::West => (x - 1, y),
    }
}

/// Whether tile number `i` is `(x, y)` itself or one of its neighbours inside the world.
pub open spec fn near(i: int, x: int, y: int) -> bool {
    i == cell_index(x, y)
        || (y > 0 && i == cell_index(x, y - 1))
        || (y + 1 < WORLD_HEIGHT as int && i == cell_index(x, y + 1))
        || (x + 1 < WORLD_WIDTH as int && i == cell_index(x + 1, y))
        || (x > 0 && i == cell_index(x - 1, y))
}

/// The tile `t`, discovered.
pub open spec fn mark(t: Tile) -> Tile {
    Tile { discovered: true, ..t }
}

/// The tiles after `(x, y)` and its neighbours inside the world are discovered.
pub open spec fn revealed(tiles: Seq<Tile>, x: int, y: int) -> Seq<Tile> {
    Seq::new(tiles.len(), |i: int| if near(i, x, y) { mark(tiles[i]) } else { tiles[i] })
}

/// Quiet discovery is idempotent: revealing the same cell a second time changes no tile.
pub proof fn reveal_twice(tiles: Seq<Tile>, x: int, y: int)
    requires
        in_grid(x, y),
    ensures
        revealed(revealed(tiles, x, y), x, y) == revealed(tiles, x, y),
{
    assert(revealed(revealed(tiles, x, y), x, y) =~= revealed(tiles, x, y));
}

/// Once a cell has been discovered, reaching it again tells only of the ground underfoot:
/// none of its neighbours is new any more.
pub proof fn narrate_twice(tiles: Seq<Tile>, x: int, y: int)
    requires
        in_grid(x, y),
        tiles.len() == WORLD_WIDTH * WORLD_HEIGHT,
    ensures
        narration(revealed(tiles, x, y), x, y) == seq![
            Narration::Standing(tiles[cell_index(x, y)].kind),
        ],
{
    let t = revealed(tiles, x, y);
    assert(narration(t, x, y) =~= seq![Narration::Standing(tiles[cell_index(x, y)].kind)]);
}

/// The character at row `r`, column `c` of the framed map of `tiles`; `marker` stands
/// over the cell it names.
pub open spec fn map_char(tiles: Seq<Tile>, marker: Option<(int, int)>, r: int, c: int) -> char {
    let w = WORLD_WIDTH as int;
    let h = WORLD_HEIGHT as int;
    if r == 0 {
        if c == 0 { '\u{250c}' } else if c == w + 1 { '\u{2510}' } else { '\u{2500}' }
    } else if r == h + 1 {
        if c == 0 { '\u{2514}' } else if c == w + 1 { '\u{2518}' } else { '\u{2500}' }
    } else if c == 0 || c == w + 1 {
        '\u{2502}'
    } else if marker == Some((c - 1, r - 1)) {
        PLAYER_MARK
    } else {
        glyph_of(tiles[cell_index(c - 1, r - 1)].kind)
    }
}

/// The character that shows the player on the map.
pub const PLAYER_MARK: char = '\u{263a}';

/// Width, height and RGB samples, row by row, of the image encoded in `bytes`; `None` where
/// the bytes are not an image in a format that can be decoded.
pub uninterp spec fn decoded_rgb(bytes: Seq<u8>) -> Option<(u32, u32, Seq<u8>)>;

/// The colour of pixel `(x, y)` of a `width` by `height` image with RGB samples `raw`, if the
/// image has that pixel.
pub open spec fn pixel_at(width: int, height: int, raw: Seq<u8>, x: int, y: int) -> Option<(u8, u8, u8)> {
    let i = 3 * (y * width + x);
    if 0 <= x < width && 0 <= y < height && i + 2 < raw.len() {
        Some((raw[i], raw[i + 1], raw[i + 2]))
    } else {
        None
    }
}

/// The terrain that the world built from an image gives to cell `(x, y)`: the colour of the
/// pixel there, or plains where the image has no such pixel.
pub open spec fn built_kind(width: int, height: int, raw: Seq<u8>, x: int, y: int) -> TileKind {
    match pixel_at(width, height, raw, x, y) {
        Some(p) => terrain_of_color(p),
        None => TileKind::Plains,
    }
}

/// Why a world could not be built.
#[derive(Clone, Copy, Debug, PartialEq, Eq, Structural)]
pub enum WorldError {
    /// The map image could not be decoded.
    Undecodable,
}

#[verifier::external_type_specification]
#[verifier::external_body]
pub struct ExImageError(image::ImageError);

/// Relies on image::load_from_memory, which detects the format of `bytes` and decodes them,
/// followed by DynamicImage::into_rgb8 and the ImageBuffer accessors dimensions and into_raw:
/// the outcome depends on the bytes alone.
#[verifier::external_body]
fn decode_rgb(bytes: &Vec<u8>) -> (r: Result<(u32, u32, Vec<u8>), image::ImageError>)
    ensures
        r is Ok <==> decoded_rgb(bytes@) is Some,
        r matches Ok(d) ==> decoded_rgb(bytes@) == Some((d.0, d.1, d.2@)),
{
    let img = image::load_from_memory(bytes.as_slice())?.into_rgb8();
    let (width, height) = img.dimensions();
    Ok((width, height, img.into_raw()))
}

/// One line of what a player is told on reaching a cell.
#[derive(Clone, Copy, Debug, PartialEq, Eq, Structural)]
pub enum Narration {
    /// The terrain underfoot.
    Standing(TileKind),
    /// Terrain newly seen on a neighbouring cell.
    Sighted(TileKind, Heading),
}

/// The name of a direction.
pub open spec fn heading_name(h: Heading) -> Seq<char> {
    match h {
        Heading::North => "North"@,
        Heading::East => "East"@,
        Heading::South => "South"@,
        Heading::West => "West"@,
    }
}

/// What follows the description of a neighbour seen towards `h`.
pub open spec fn toward_suffix(h: Heading) -> Seq<char> {
    match h {
        Heading::North => " to the North"@,
        Heading::East => " to the East"@,
        Heading::South => " to the South."@,
        Heading::West => " to the West"@,
    }
}

impl Heading {
    /// The name of this direction.
    pub fn name(self) -> (s: &'static str)
        ensures
            s@ == heading_name(self),
    {
        match self {
            Heading::North => "North",
            Heading::East => "East",
            Heading::South => "South",
            Heading::West => "West",
        }
    }
}

impl Narration {
    /// The line as text, in two parts to be written one after the other.
    pub fn text(&self) -> (parts: (&'static str, &'static str))
        ensures
            match *self {
                Narration::Standing(k) => parts.0@ == standing_of(k) && parts.1@ == ""@,
                Narration::Sighted(k, h) => parts.0@ == sight_of(k) && parts.1@ == toward_suffix(h),
            },
    {
        match *self {
            Narration::Standing(k) => (k.standing_text(), ""),
            Narration::Sighted(k, h) => {
                let tail = match h {
                    Heading::North => " to the North",
                    Heading::East => " to the East",
                    Heading::South => " to the South.",
                    Heading::West => " to the West",
                };
                (k.sight_text(), tail)
            },
        }
    }
}

/// What is told of the neighbour towards `h`: its terrain, if it lies inside the world and was
/// not discovered yet.
pub open spec fn sighting(tiles: Seq<Tile>, x: int, y: int, h: Heading) -> Seq<Narration> {
    let (nx, ny) = step(x, y, h);
    if in_grid(nx, ny) && !tiles[cell_index(nx, ny)].discovered {
        seq![Narration::Sighted(tiles[cell_index(nx, ny)].kind, h)]
    } else {
        seq![]
    }
}

/// What is told on reaching `(x, y)`: the ground, then the new sights north, south, east and west.
pub open spec fn narration(tiles: Seq<Tile>, x: int, y: int) -> Seq<Narration> {
    seq![Narration::Standing(tiles[cell_index(x, y)].kind)] + sighting(tiles, x, y, Heading::North)
        + sighting(tiles, x, y, Heading::South) + sighting(tiles, x, y, Heading::East)
        + sighting(tiles, x, y, Heading::West)
}

/// The world: a fixed grid of tiles, stored row by row.
pub struct World {
    tiles: Vec<Tile>,
}

impl World {
    /// The tiles, row by row.
    pub closed spec fn tiles(&self) -> Seq<Tile> {
        self.tiles@
    }

    /// The tile at column `x`, row `y`.
    pub open spec fn cell(&self, x: int, y: int) -> Tile {
        self.tiles()[cell_index(x, y)]
    }

    pub open spec fn wf(&self) -> bool {
        &&& self.tiles().len() == WORLD_WIDTH * WORLD_HEIGHT
        &&& forall|i: int| 0 <= i < self.tiles().len() ==> #[trigger] self.tiles()[i].wf()
    }

    /// Whether the tile at `(x, y)` may be walked on.
    pub fn is_accessible(&self, x: usize, y: usize) -> (r: bool)
        requires
            self.wf(),
            in_grid(x as int, y as int),
        ensures
            r == self.cell(x as int, y as int).accessible,
            r == passable(self.cell(x as int, y as int).kind),
    {
        let i = y * WORLD_WIDTH + x;
        assert(self.tiles()[i as int].wf());
        self.tiles[i].accessible
    }


    /// The map framed by a border: `WORLD_HEIGHT + 2` rows of `WORLD_WIDTH + 2` characters,
    /// each cell shown by its terrain's glyph.
    pub fn render_map(&self) -> (rows: Vec<Vec<char>>)
        requires
            self.wf(),
        ensures
            rows@.len() == WORLD_HEIGHT + 2,
            forall|r: int| 0 <= r < rows@.len() ==> #[trigger] rows@[r]@.len() == WORLD_WIDTH + 2,
            forall|r: int, c: int|
                0 <= r < WORLD_HEIGHT + 2 && 0 <= c < WORLD_WIDTH + 2 ==> #[trigger] rows@[r]@[c]
                    == map_char(self.tiles(), None, r, c),
    {
        self.render_with_marker(None)
    }

    /// The framed map as `render_map` draws it, with `PLAYER_MARK` over the cell `marker`
    /// names, if any.
    pub fn render_with_marker(&self, marker: Option<(usize, usize)>) -> (rows: Vec<Vec<char>>)
        requires
            self.wf(),
        ensures
            rows@.len() == WORLD_HEIGHT + 2,
            forall|r: int| 0 <= r < rows@.len() ==> #[trigger] rows@[r]@.len() == WORLD_WIDTH + 2,
            forall|r: int, c: int|
                0 <= r < WORLD_HEIGHT + 2 && 0 <= c < WORLD_WIDTH + 2 ==> #[trigger] rows@[r]@[c]
                    == map_char(self.tiles(), Self::marker_cell(marker), r, c),
    {
        let ghost m = Self::marker_cell(marker);
        let mut rows: Vec<Vec<char>> = Vec::new();
        let mut r: usize = 0;
        while r < WORLD_HEIGHT + 2
            invariant
                self.wf(),
                r <= WORLD_HEIGHT + 2,
                m == Self::marker_cell(marker),
                rows@.len() == r,
                forall|q: int| 0 <= q < r ==> #[trigger] rows@[q]@.len() == WORLD_WIDTH + 2,
                forall|q: int, c: int|
                    0 <= q < r && 0 <= c < WORLD_WIDTH + 2 ==> #[trigger] rows@[q]@[c]
                        == map_char(self.tiles(), m, q, c),
            decreases WORLD_HEIGHT + 2 - r,
        {
            let mut row: Vec<char> = Vec::new();
            let mut c: usize = 0;
            while c < WORLD_WIDTH + 2
                invariant
                    self.wf(),
                    r < WORLD_HEIGHT + 2,
                    c <= WORLD_WIDTH + 2,
                    m == Self::marker_cell(marker),
                    row@.len() == c,
                    forall|k: int| 0 <= k < c ==> #[trigger] row@[k] == map_char(self.tiles(), m, r as int, k),
                decreases WORLD_WIDTH + 2 - c,
            {
                let ch = if r == 0 {
                    if c == 0 { '\u{250c}' } else if c == WORLD_WIDTH + 1 { '\u{2510}' } else { '\u{2500}' }
                } else if r == WORLD_HEIGHT + 1 {
                    if c == 0 { '\u{2514}' } else if c == WORLD_WIDTH + 1 { '\u{2518}' } else { '\u{2500}' }
                } else if c == 0 || c == WORLD_WIDTH + 1 {
                    '\u{2502}'
                } else if marker == Some((c - 1, r - 1)) {
                    PLAYER_MARK
                } else {
                    self.tiles[(r - 1) * WORLD_WIDTH + (c - 1)].kind.glyph()
                };
                row.push(ch);
                c = c + 1;
            }
            rows.push(row);
            r = r + 1;
        }
        rows
    }

    /// `marker` as a pair of integers.
    pub open spec fn marker_cell(marker: Option<(usize, usize)>) -> Option<(int, int)> {
        match marker {
            Some((x, y)) => Some((x as int, y as int)),
            None => None,
        }
    }

    /// Whether the tile at `(x, y)` has been discovered.
    pub fn is_discovered(&self, x: usize, y: usize) -> (r: bool)
        requires
            self.wf(),
            in_grid(x as int, y as int),
        ensures
            r == self.cell(x as int, y as int).discovered,
    {
        self.tiles[y * WORLD_WIDTH + x].discovered
    }

    /// The terrain at `(x, y)`, looked at without discovering it.
    pub fn display_tile(&self, x: usize, y: usize) -> (k: TileKind)
        requires
            self.wf(),
            in_grid(x as int, y as int),
        ensures
            k == self.cell(x as int, y as int).kind,
    {
        self.tiles[y * WORLD_WIDTH + x].kind
    }

    /// The world drawn by a `width` by `height` image with RGB samples `raw`, stored row by
    /// row: pixel `(x, y)` gives the terrain of cell `(x, y)` by its colour, and cells the image
    /// does not cover are plains. No tile is discovered.
    pub fn from_rgb(width: u32, height: u32, raw: &Vec<u8>) -> (w: World)
        ensures
            w.wf(),
            forall|x: int, y: int|
                in_grid(x, y) ==> {
                    &&& (#[trigger] w.cell(x, y)).kind == built_kind(width as int, height as int, raw@, x, y)
                    &&& !w.cell(x, y).discovered
                    &&& w.cell(x, y).settlement is None
                },
    {
        let mut tiles: Vec<Tile> = Vec::new();
        let mut y: usize = 0;
        while y < WORLD_HEIGHT
            invariant
                y <= WORLD_HEIGHT,
                tiles@.len() == y * WORLD_WIDTH,
                forall|i: int| 0 <= i < tiles@.len() ==> #[trigger] tiles@[i].wf(),
                forall|cx: int, cy: int|
                    0 <= cx < WORLD_WIDTH && 0 <= cy < y ==> {
                        &&& (#[trigger] tiles@[cell_index(cx, cy)]).kind == built_kind(width as int, height as int, raw@, cx, cy)
                        &&& !tiles@[cell_index(cx, cy)].discovered
                        &&& tiles@[cell_index(cx, cy)].settlement is None
                    },
            decreases WORLD_HEIGHT - y,
        {
            let mut x: usize = 0;
            while x < WORLD_WIDTH
                invariant
                    y < WORLD_HEIGHT,
                    x <= WORLD_WIDTH,
                    tiles@.len() == y * WORLD_WIDTH + x,
                    forall|i: int| 0 <= i < tiles@.len() ==> #[trigger] tiles@[i].wf(),
                    forall|cx: int, cy: int|
                        0 <= cx < WORLD_WIDTH && 0 <= cy <= y && cell_index(cx, cy) < tiles@.len() ==> {
                            &&& (#[trigger] tiles@[cell_index(cx, cy)]).kind == built_kind(width as int, height as int, raw@, cx, cy)
                            &&& !tiles@[cell_index(cx, cy)].discovered
                            &&& tiles@[cell_index(cx, cy)].settlement is None
                        },
                decreases WORLD_WIDTH - x,
            {
                let tile = if (x as u64) < (width as u64) && (y as u64) < (height as u64) {
                    proof {
                        assert((y as u64) * (width as u64) <= 49 * 0xffff_ffffu64) by (nonlinear_arith)
                            requires y < 50, width <= 0xffff_ffffu32;
                    }
                    let i: u64 = 3 * ((y as u64) * (width as u64) + (x as u64));
                    if i + 2 < raw.len() as u64 {
                        let j = i as usize;
                        Tile::new((raw[j], raw[j + 1], raw[j + 2]))
                    } else {
                        Tile::default()
                    }
                } else {
                    Tile::default()
                };
                tiles.push(tile);
                proof {
                    assert(tiles@[cell_index(x as int, y as int)] == tile);
                }
                x = x + 1;
            }
            y = y + 1;
        }
        let w = World { tiles };
        proof {
            assert forall|cx: int, cy: int| in_grid(cx, cy) implies {
                &&& (#[trigger] w.cell(cx, cy)).kind == built_kind(width as int, height as int, raw@, cx, cy)
                &&& !w.cell(cx, cy).discovered
                &&& w.cell(cx, cy).settlement is None
            } by {
                assert(tiles@[cell_index(cx, cy)].kind == built_kind(width as int, height as int, raw@, cx, cy));
            }
        }
        w
    }

    /// The world drawn by the image encoded in `bytes`, as `from_rgb` builds it from the
    /// decoded pixels; fails if the bytes cannot be decoded.
    pub fn new(bytes: &Vec<u8>) -> (r: Result<World, WorldError>)
        ensures
            match decoded_rgb(bytes@) {
                None => r == Err::<World, WorldError>(WorldError::Undecodable),
                Some((width, height, raw)) => r matches Ok(w) && w.wf() && forall|x: int, y: int|
                    in_grid(x, y) ==> {
                        &&& (#[trigger] w.cell(x, y)).kind == built_kind(width as int, height as int, raw, x, y)
                        &&& !w.cell(x, y).discovered
                        &&& w.cell(x, y).settlement is None
                    },
            },
    {
        match decode_rgb(bytes) {
            Ok((width, height, raw)) => Ok(World::from_rgb(width, height, &raw)),
            Err(_) => Err(WorldError::Undecodable),
        }
    }

    /// Marks tile number `i` discovered and tells whether it already was.
    fn reveal_index(&mut self, i: usize) -> (was: bool)
        requires
            old(self).wf(),
            i < old(self).tiles().len(),
        ensures
            final(self).wf(),
            was == old(self).tiles()[i as int].discovered,
            final(self).tiles() == old(self).tiles().update(i as int, mark(old(self).tiles()[i as int])),
    {
        let was = self.tiles[i].discovered;
        self.tiles[i].discovered = true;
        proof {
            assert forall|j: int| 0 <= j < self.tiles().len() implies #[trigger] self.tiles()[j].wf() by {
                assert(old(self).tiles()[j].wf());
            }
            assert(self.tiles() =~= old(self).tiles().update(i as int, mark(old(self).tiles()[i as int])));
        }
        was
    }

    /// Reveals the neighbour of `(x, y)` towards `h`, if it lies inside the world, and when
    /// `narrate` is set tells what was newly seen there.
    fn reveal_toward(&mut self, x: usize, y: usize, h: Heading, narrate: bool, out: &mut Vec<Narration>)
        requires
            old(self).wf(),
            in_grid(x as int, y as int),
        ensures
            final(self).wf(),
            ({
                let (nx, ny) = step(x as int, y as int, h);
                if in_grid(nx, ny) {
                    final(self).tiles() == old(self).tiles().update(
                        cell_index(nx, ny),
                        mark(old(self).tiles()[cell_index(nx, ny)]),
                    )
                } else {
                    final(self).tiles() == old(self).tiles()
                }
            }),
            final(out)@ == if narrate {
                old(out)@ + sighting(old(self).tiles(), x as int, y as int, h)
            } else {
                old(out)@
            },
    {
        let (nx, ny): (usize, usize) = match h {
            Heading::North => {
                if y == 0 {
                    return ;
                }
                (x, y - 1)
            },
            Heading::East => {
                if x + 1 >= WORLD_WIDTH {
                    return ;
                }
                (x + 1, y)
            },
            Heading::South => {
                if y + 1 >= WORLD_HEIGHT {
                    return ;
                }
                (x, y + 1)
            },
            Heading::West => {
                if x == 0 {
                    return ;
                }
                (x - 1, y)
            },
        };
        let i = ny * WORLD_WIDTH + nx;
        let kind = self.tiles[i].kind;
        let was = self.reveal_index(i);
        if narrate && !was {
            out.push(Narration::Sighted(kind, h));
        }
        proof {
            if narrate {
                assert(final(out)@ =~= old(out)@ + sighting(old(self).tiles(), x as int, y as int, h));
            }
        }
    }

    /// Discovers `(x, y)` and its neighbours inside the world. With `narrate` set, returns what
    /// the player is told there: the ground underfoot, then each neighbour that was not yet
    /// discovered, north, south, east and west in turn. Without it, returns nothing.
    pub fn discover(&mut self, x: usize, y: usize, narrate: bool) -> (told: Vec<Narration>)
        requires
            old(self).wf(),
            in_grid(x as int, y as int),
        ensures
            final(self).wf(),
            final(self).tiles() == revealed(old(self).tiles(), x as int, y as int),
            told@ == if narrate {
                narration(old(self).tiles(), x as int, y as int)
            } else {
                Seq::<Narration>::empty()
            },
    {
        let ghost t0 = self.tiles();
        let mut told: Vec<Narration> = Vec::new();
        let i = y * WORLD_WIDTH + x;
        if narrate {
            told.push(Narration::Standing(self.tiles[i].kind));
        }
        self.reveal_index(i);
        let ghost t1 = self.tiles();
        proof {
            assert(sighting(t1, x as int, y as int, Heading::North) == sighting(t0, x as int, y as int, Heading::North));
        }
        self.reveal_toward(x, y, Heading::North, narrate, &mut told);
        let ghost t2 = self.tiles();
        proof {
            assert(sighting(t2, x as int, y as int, Heading::South) == sighting(t0, x as int, y as int, Heading::South));
        }
        self.reveal_toward(x, y, Heading::South, narrate, &mut told);
        let ghost t3 = self.tiles();
        proof {
            assert(sighting(t3, x as int, y as int, Heading::East) == sighting(t0, x as int, y as int, Heading::East));
        }
        self.reveal_toward(x, y, Heading::East, narrate, &mut told);
        let ghost t4 = self.tiles();
        proof {
            assert(sighting(t4, x as int, y as int, Heading::West) == sighting(t0, x as int, y as int, Heading::West));
        }
        self.reveal_toward(x, y, Heading::West, narrate, &mut told);
        proof {
            assert(self.tiles() =~= revealed(t0, x as int, y as int));
            if narrate {
                assert(told@ =~= narration(t0, x as int, y as int));
            } else {
                assert(told@ =~= Seq::<Narration>::empty());
            }
        }
        told
    }
}

} // verus!
