//! The map of tiles, and the state of a running game.

use crate::color::{named, rgb_named, BLACK};
use crate::entities::entity::{EntityFuncs, EntityProps, Movable};
use crate::entities::player::Player;
use crate::util::{clamp_axis, lemma_column_major, Point};
use bracket_lib::color::RGB;
use vstd::prelude::*;

verus! {

/// The glyph of every tile: a solid block.
pub const TILE_GLYPH: char = '\u{2588}';

/// One tile of the map.
#[derive(Clone, Copy, Debug)]
pub struct Cell {
    pub x: i32,
    pub y: i32,
    pub fg: RGB,
    pub bg: RGB,
    pub char: char,
}

impl Cell {
    /// A tile at `(x, y)` that shows `c` in the given colours.
    pub fn new(x: i32, y: i32, c: char, fg: RGB, bg: RGB) -> (cell: Self)
        ensures
            cell == (Cell { x, y, fg, bg, char: c }),
    {
        Self { x, y, fg, bg, char: c }
    }
}

impl EntityFuncs for Cell {
    open spec fn props(&self) -> EntityProps {
        EntityProps { x: self.x, y: self.y, char: self.char, fg_color: self.fg, bg_color: self.bg }
    }

    fn x(&self) -> i32 {
        self.x
    }

    fn y(&self) -> i32 {
        self.y
    }

    fn char(&self) -> char {
        self.char
    }

    fn fg_color(&self) -> RGB {
        self.fg
    }

    fn bg_color(&self) -> RGB {
        self.bg
    }

    fn set_x(&mut self, x: i32) {
        self.x = x
    }

    fn set_y(&mut self, y: i32) {
        self.y = y
    }

    fn set_pos(&mut self, x: i32, y: i32) {
        self.set_x(x);
        self.set_y(y);
    }

    fn set_char(&mut self, c: char) {
        self.char = c
    }

    fn set_fg_color(&mut self, c: RGB) {
        self.fg = c
    }

    fn set_bg_color(&mut self, c: RGB) {
        self.bg = c
    }
}

/// A grid of tiles, `height` rows of `width` tiles each once it has been
/// generated, and no rows at all before.
pub struct TileMap {
    pub width: u32,
    pub height: u32,
    pub grid: Vec<Vec<Cell>>,
    pub seed: u64,
    pub col_val: u32,
}

/// The tile that generation puts at column `x` of row `y`, given its colour.
pub open spec fn tile(x: u32, y: u32, fg: RGB) -> Cell {
    Cell { x: x as i32, y: y as i32, fg, bg: named(BLACK), char: TILE_GLYPH }
}

impl TileMap {
    /// The rows of the grid, top row first, each from left to right.
    pub open spec fn rows(&self) -> Seq<Seq<Cell>> {
        Seq::new(self.grid@.len(), |y: int| self.grid@[y]@)
    }

    /// No grid yet: the state of a map before its first generation.
    pub open spec fn is_empty(&self) -> bool {
        self.rows().len() == 0
    }

    /// Whether the grid holds a tile at column `x` of row `y`.
    pub open spec fn has_cell(&self, x: int, y: int) -> bool {
        0 <= y < self.rows().len() && 0 <= x < self.rows()[y].len()
    }

    /// The grid is `height` rows of `width` tiles, and every tile knows its
    /// place, shows the solid block and has a black background.
    pub open spec fn is_generated(&self) -> bool {
        &&& self.rows().len() == self.height
        &&& forall|y: int| 0 <= y < self.height ==> (#[trigger] self.rows()[y]).len() == self.width
        &&& forall|x: u32, y: u32|
            x < self.width && y < self.height ==> #[trigger] self.rows()[y as int][x as int]
                == tile(x, y, self.rows()[y as int][x as int].fg)
    }

    /// A map is in one of two states: empty, or generated.
    pub open spec fn wf(&self) -> bool {
        self.is_empty() || self.is_generated()
    }

    /// The grid was generated with `tile_color` giving each tile its colour.
    pub open spec fn generated_by<F: Fn(u32, u32) -> RGB>(&self, tile_color: F) -> bool {
        &&& self.is_generated()
        &&& forall|x: u32, y: u32|
            x < self.width && y < self.height ==> call_ensures(
                tile_color,
                (x, y),
                #[trigger] self.rows()[y as int][x as int].fg,
            )
    }

    /// A map of the given size with no grid yet.
    pub fn new(width: u32, height: u32, seed: u64, col_val: u32) -> (map: Self)
        ensures
            map.width == width,
            map.height == height,
            map.seed == seed,
            map.col_val == col_val,
            map.is_empty(),
            map.wf(),
    {
        Self { width, height, grid: Vec::new(), seed, col_val }
    }

    /// Whether `get_cell(x, y)` may be called.
    pub fn contains(&self, x: i32, y: i32) -> (inside: bool)
        ensures
            inside == self.has_cell(x as int, y as int),
    {
        if y < 0 || x < 0 {
            return false;
        }
        let row: usize = y as usize;
        let col: usize = x as usize;
        row < self.grid.len() && col < self.grid[row].len()
    }

    /// The tile at column `x` of row `y`.
    pub fn get_cell(&self, x: i32, y: i32) -> (cell: Cell)
        requires
            self.has_cell(x as int, y as int),
        ensures
            cell == self.rows()[y as int][x as int],
    {
        self.grid[y as usize][x as usize]
    }

    /// Whether the grid holds a tile for every coordinate of the map's size,
    /// so that the whole map can be drawn. A map whose size holds no tile is
    /// drawable whatever its grid.
    pub open spec fn drawable(&self) -> bool {
        self.width == 0 || self.height == 0 || {
            &&& self.width <= i32::MAX
            &&& self.height <= i32::MAX
            &&& self.rows().len() >= self.height
            &&& forall|y: int| 0 <= y < self.height ==> (#[trigger] self.rows()[y]).len() >= self.width
        }
    }

    /// The tile of column `x` and row `y` as it is drawn: at `(x, y)`, with
    /// the glyph and the colours that the grid holds there.
    pub open spec fn drawn(&self, x: int, y: int) -> Cell {
        Cell { x: x as i32, y: y as i32, ..self.rows()[y][x] }
    }

    /// Whether `draw` may be called.
    pub fn is_drawable(&self) -> (ok: bool)
        ensures
            ok == self.drawable(),
    {
        if self.width == 0 || self.height == 0 {
            return true;
        }
        if self.width > i32::MAX as u32 || self.height > i32::MAX as u32 {
            return false;
        }
        if self.grid.len() < self.height as usize {
            return false;
        }
        let mut y: usize = 0;
        while y < self.height as usize
            invariant
                y <= self.height,
                self.height <= self.grid@.len(),
                forall|j: int| 0 <= j < y ==> (#[trigger] self.rows()[j]).len() >= self.width,
            decreases self.height - y,
        {
            if self.grid[y].len() < self.width as usize {
                assert(self.rows()[y as int].len() < self.width);
                return false;
            }
            y += 1;
        }
        true
    }

    /// The tiles of the map in the order they are drawn: column by column
    /// from the left, each column from the top. Each comes with the
    /// position it is drawn at.
    pub open spec fn draw_list(&self) -> Seq<Cell> {
        Seq::new(
            (self.width * self.height) as nat,
            |i: int| self.drawn(i / (self.height as int), i % (self.height as int)),
        )
    }

    /// The tiles of the map in the order they are drawn.
    pub fn draw(&self) -> (list: Vec<Cell>)
        requires
            self.drawable(),
        ensures
            list@ == self.draw_list(),
    {
        let mut list: Vec<Cell> = Vec::new();
        let mut x: u32 = 0;
        proof {
            assert(0 * self.height == 0 && 0 <= self.width * self.height) by (nonlinear_arith);
        }
        while x < self.width
            invariant
                x <= self.width,
                self.drawable(),
                0 <= x * self.height <= self.width * self.height,
                list@ == self.draw_list().take(x * self.height),
            decreases self.width - x,
        {
            let mut y: u32 = 0;
            while y < self.height
                invariant
                    x < self.width,
                    y <= self.height,
                    self.drawable(),
                    0 <= x * self.height + y <= self.width * self.height,
                    list@ == self.draw_list().take(x * self.height + y),
                decreases self.height - y,
            {
                proof {
                    lemma_column_major(x as int, y as int, self.width as int, self.height as int);
                }
                let cell = self.get_cell(x as i32, y as i32);
                list.push(
                    Cell::new(x as i32, y as i32, cell.char(), cell.fg_color(), cell.bg_color()),
                );
                y += 1;
            }
            proof {
                assert(x * self.height + self.height == (x + 1) * self.height && (x + 1)
                    * self.height <= self.width * self.height) by (nonlinear_arith)
                    requires
                        x + 1 <= self.width,
                        0 <= self.height,
                ;
            }
            x += 1;
        }
        list
    }

    /// Replaces the grid by a new one of `height` rows of `width` tiles. The
    /// tile at column `x` of row `y` gets the colour `tile_color(x, y)`; the
    /// glyph is the solid block and the background black.
    pub fn generate<F: Fn(u32, u32) -> RGB>(&mut self, tile_color: F)
        requires
            forall|x: u32, y: u32|
                x < old(self).width && y < old(self).height ==> call_requires(tile_color, (x, y)),
        ensures
            final(self).width == old(self).width,
            final(self).height == old(self).height,
            final(self).seed == old(self).seed,
            final(self).col_val == old(self).col_val,
            final(self).generated_by(tile_color),
            final(self).wf(),
    {
        let black = rgb_named(BLACK);
        let mut cells: Vec<Vec<Cell>> = Vec::new();
        let mut y: u32 = 0;
        while y < self.height
            invariant
                y <= self.height,
                black == named(BLACK),
                cells@.len() == y,
                forall|j: int| 0 <= j < y ==> (#[trigger] cells@[j])@.len() == self.width,
                forall|i: u32, j: u32|
                    i < self.width && j < y ==> {
                        &&& #[trigger] cells@[j as int]@[i as int] == tile(i, j, cells@[j as int]@[i as int].fg)
                        &&& call_ensures(tile_color, (i, j), cells@[j as int]@[i as int].fg)
                    },
                forall|i: u32, j: u32|
                    i < self.width && j < self.height ==> call_requires(tile_color, (i, j)),
            decreases self.height - y,
        {
            let mut row: Vec<Cell> = Vec::new();
            let mut x: u32 = 0;
            while x < self.width
                invariant
                    x <= self.width,
                    y < self.height,
                    black == named(BLACK),
                    row@.len() == x,
                    forall|i: u32|
                        i < x ==> {
                            &&& #[trigger] row@[i as int] == tile(i, y, row@[i as int].fg)
                            &&& call_ensures(tile_color, (i, y), row@[i as int].fg)
                        },
                    forall|i: u32, j: u32|
                        i < self.width && j < self.height ==> call_requires(tile_color, (i, j)),
                decreases self.width - x,
            {
                let fg = tile_color(x, y);
                row.push(
                    Cell::new(
                        #[verifier::truncate]
                        (x as i32),
                        #[verifier::truncate]
                        (y as i32),
                        TILE_GLYPH,
                        fg,
                        black,
                    ),
                );
                x += 1;
            }
            cells.push(row);
            y += 1;
        }
        self.grid = cells;
    }
}

/// A generated map whose size fits into coordinates can be drawn, and each
/// of its tiles is drawn as the grid holds it.
pub proof fn lemma_generated_is_drawable(map: TileMap)
    requires
        map.is_generated(),
        map.width <= i32::MAX,
        map.height <= i32::MAX,
    ensures
        map.drawable(),
        forall|x: int, y: int|
            0 <= x < map.width && 0 <= y < map.height ==> #[trigger] map.drawn(x, y)
                == map.rows()[y][x],
{
    assert forall|x: int, y: int| 0 <= x < map.width && 0 <= y < map.height implies #[trigger] map.drawn(
        x,
        y,
    ) == map.rows()[y][x] by {
        let col: u32 = x as u32;
        let row: u32 = y as u32;
        assert(map.rows()[row as int][col as int] == tile(col, row, map.rows()[y][x].fg));
    }
}

/// Generation is reproducible: two maps of one size, generated from one
/// source of colours that gives each tile a single colour, hold the same
/// tiles at every coordinate.
pub proof fn lemma_generation_reproducible<F: Fn(u32, u32) -> RGB>(
    a: TileMap,
    b: TileMap,
    tile_color: F,
)
    requires
        a.width == b.width,
        a.height == b.height,
        a.generated_by(tile_color),
        b.generated_by(tile_color),
        forall|x: u32, y: u32, c1: RGB, c2: RGB|
            call_ensures(tile_color, (x, y), c1) && call_ensures(tile_color, (x, y), c2) ==> c1
                == c2,
    ensures
        a.rows() == b.rows(),
{
    assert forall|y: int| 0 <= y < a.height implies a.rows()[y] == b.rows()[y] by {
        assert forall|x: int| 0 <= x < a.width implies a.rows()[y][x] == b.rows()[y][x] by {
            let col: u32 = x as u32;
            let row: u32 = y as u32;
            assert(a.rows()[row as int][col as int] == tile(col, row, a.rows()[y][x].fg));
            assert(b.rows()[row as int][col as int] == tile(col, row, b.rows()[y][x].fg));
        }
        assert(a.rows()[y] =~= b.rows()[y]);
    }
    assert(a.rows() =~= b.rows());
}

/// The keys the game tells apart.
#[derive(Clone, Copy, Debug, PartialEq, Eq, Structural)]
pub enum Key {
    W,
    A,
    S,
    D,
    Q,
    Escape,
    Space,
    /// Any key the game has no use for.
    Other,
}

/// What the caller of `handle_key` has to do before the frame is drawn.
#[derive(Clone, Copy, Debug, PartialEq, Eq, Structural)]
pub enum Action {
    /// Nothing.
    Continue,
    /// End the game.
    Quit,
    /// Generate the map anew from a noise field with this seed.
    Regenerate(u64),
}

/// The seed the map is regenerated with when the player asks for a new one.
/// A noise field takes a seed of 0 from the clock, so no two such maps are
/// expected to look alike.
pub const REGENERATE_SEED: u64 = 0;

/// The intensity of green that a new game colours its map with.
pub const DEFAULT_COL_VAL: u32 = 225;

/// A size as a bound for coordinates: the size itself where an `i32` can
/// hold it, and 0 where it cannot.
pub open spec fn axis_bound(size: u32) -> i32 {
    if size <= i32::MAX { size as i32 } else { 0 }
}

/// Where `player` stands after a step of `(dx, dy)` inside `bounds`; nothing
/// else about it changes.
pub open spec fn stepped(player: Player, dx: int, dy: int, bounds: Point) -> Player {
    Player {
        props: EntityProps {
            x: clamp_axis(player.props.x + dx, bounds.x as int) as i32,
            y: clamp_axis(player.props.y + dy, bounds.y as int) as i32,
            ..player.props
        },
    }
}

/// What a key asks the caller to do.
pub open spec fn action_for(key: Option<Key>) -> Action {
    match key {
        Some(Key::Q) | Some(Key::Escape) => Action::Quit,
        Some(Key::Space) => Action::Regenerate(REGENERATE_SEED),
        _ => Action::Continue,
    }
}

/// No key takes the player off the map: in a playable game the player
/// stands on a tile after any key, as it did before.
pub proof fn lemma_key_keeps_player_on_map(state: State, key: Option<Key>)
    requires
        state.playable(),
    ensures
        state.map.has_cell(
            state.player_after(key).props.x as int,
            state.player_after(key).props.y as int,
        ),
{
}

/// The whole game: the size of the world, the player and the map.
pub struct State {
    pub width: u32,
    pub height: u32,
    pub player: Player,
    pub map: TileMap,
}

impl State {
    /// The size of the world as bounds for movement.
    pub open spec fn spec_bounds(&self) -> Point {
        Point { x: axis_bound(self.width), y: axis_bound(self.height) }
    }

    /// The player after `key`: one step for a movement key, unchanged for
    /// every other.
    pub open spec fn player_after(&self, key: Option<Key>) -> Player {
        match key {
            Some(Key::W) => stepped(self.player, 0, -1, self.spec_bounds()),
            Some(Key::S) => stepped(self.player, 0, 1, self.spec_bounds()),
            Some(Key::A) => stepped(self.player, -1, 0, self.spec_bounds()),
            Some(Key::D) => stepped(self.player, 1, 0, self.spec_bounds()),
            _ => self.player,
        }
    }

    /// The game can be drawn and played: the map is generated, it has the
    /// size of the world, that size has at least one tile and fits into
    /// coordinates, and the player stands on a tile.
    pub open spec fn playable(&self) -> bool {
        &&& self.map.is_generated()
        &&& self.map.width == self.width
        &&& self.map.height == self.height
        &&& 1 <= self.width <= i32::MAX
        &&& 1 <= self.height <= i32::MAX
        &&& self.map.has_cell(self.player.props.x as int, self.player.props.y as int)
    }

    /// A new game: the player in the top left corner, and a map of the given
    /// size that is yet to be generated.
    pub fn new(width: u32, height: u32, seed: u64) -> (state: Self)
        ensures
            state.width == width,
            state.height == height,
            state.player == Player::new_spec(),
            state.map.width == width,
            state.map.height == height,
            state.map.seed == seed,
            state.map.col_val == DEFAULT_COL_VAL,
            state.map.is_empty(),
    {
        Self {
            width,
            height,
            player: Player::new(),
            map: TileMap::new(width, height, seed, DEFAULT_COL_VAL),
        }
    }

    /// The size of the world as bounds for movement.
    #[verifier::when_used_as_spec(spec_bounds)]
    pub fn bounds(&self) -> (bounds: Point)
        ensures
            bounds == self.spec_bounds(),
    {
        let x: i32 = if self.width <= i32::MAX as u32 { self.width as i32 } else { 0 };
        let y: i32 = if self.height <= i32::MAX as u32 { self.height as i32 } else { 0 };
        Point::new(x, y)
    }

    /// Applies one key press, or none. `W`, `S`, `A` and `D` move the player
    /// one step up, down, left and right inside the world. `Q` and `Escape`
    /// ask the caller to quit, `Space` asks for a new map, and neither
    /// changes the state. Every other key does nothing.
    pub fn handle_key(&mut self, key: Option<Key>) -> (action: Action)
        ensures
            action == action_for(key),
            final(self).player == old(self).player_after(key),
            final(self).width == old(self).width,
            final(self).height == old(self).height,
            final(self).map == old(self).map,
            old(self).playable() ==> final(self).playable(),
    {
        let bounds = self.bounds();
        match key {
            Some(Key::W) => {
                self.player.move_up(bounds);
                Action::Continue
            },
            Some(Key::S) => {
                self.player.move_down(bounds);
                Action::Continue
            },
            Some(Key::A) => {
                self.player.move_left(bounds);
                Action::Continue
            },
            Some(Key::D) => {
                self.player.move_right(bounds);
                Action::Continue
            },
            Some(Key::Q) | Some(Key::Escape) => Action::Quit,
            Some(Key::Space) => Action::Regenerate(REGENERATE_SEED),
            _ => Action::Continue,
        }
    }

    /// Gives the player the colour of the tile it stands on as background.
    pub fn highlight_player(&mut self)
        requires
            old(self).map.has_cell(old(self).player.props.x as int, old(self).player.props.y as int),
        ensures
            final(self).player.props == (EntityProps {
                bg_color: old(self).map.rows()[old(self).player.props.y as int][old(
                    self,
                ).player.props.x as int].fg,
                ..old(self).player.props
            }),
            final(self).width == old(self).width,
            final(self).height == old(self).height,
            final(self).map == old(self).map,
            old(self).playable() ==> final(self).playable(),
    {
        let current_cell = self.map.get_cell(self.player.x(), self.player.y());
        self.player.set_bg_color(current_cell.fg_color());
    }
}

} // verus!
