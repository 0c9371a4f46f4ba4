use vstd::prelude::*;
use crate::geometry::Vec2;
use crate::items::{BloodLevel, Item};

verus! {

/// The ground of a tile, with its sprite: walls block the player.
#[derive(Debug, Clone, Copy, PartialEq, Eq, Structural)]
pub enum TileBackground {
    Floor(Vec2),
    Wall(Vec2),
}

/// What stands on a tile, with its sprite: wall furniture blocks the player.
#[derive(Debug, Clone, Copy, PartialEq, Eq, Structural)]
pub enum Furniture {
    Empty,
    Floor(Vec2),
    Wall(Vec2),
}

/// One cell of the level.
#[derive(Debug, Clone, Copy, PartialEq, Eq, Structural)]
pub struct Tile {
    pub background: TileBackground,
    pub item: Item,
    pub furniture: Furniture,
    /// Whether the player stands here.
    pub player: bool,
    pub blood_level: BloodLevel,
}

/// The level as columns of tiles: `columns[x][y]` is the tile in column `x`,
/// row `y`. Columns need not have the same length.
#[derive(Debug, Clone)]
pub struct Grid {
    pub columns: Vec<Vec<Tile>>,
}

/// Whether a cell exists in a grid given as columns.
pub open spec fn has_cell(cells: Seq<Seq<Tile>>, p: Vec2) -> bool {
    p.x < cells.len() && p.y < cells[p.x as int].len()
}

/// A grid with one tile replaced.
pub open spec fn with_cell(cells: Seq<Seq<Tile>>, p: Vec2, t: Tile) -> Seq<Seq<Tile>> {
    cells.update(p.x as int, cells[p.x as int].update(p.y as int, t))
}

impl View for Grid {
    type V = Seq<Seq<Tile>>;

    open spec fn view(&self) -> Seq<Seq<Tile>> {
        self.columns@.map_values(|c: Vec<Tile>| c@)
    }
}

impl Grid {
    pub fn new(columns: Vec<Vec<Tile>>) -> (g: Grid)
        ensures
            g@ == columns@.map_values(|c: Vec<Tile>| c@),
    {
        Grid { columns }
    }

    /// The columns of the grid, first to last.
    pub fn iter(&self) -> (c: &Vec<Vec<Tile>>)
        ensures
            c@.map_values(|c: Vec<Tile>| c@) == self@,
    {
        &self.columns
    }

    pub fn contains(&self, p: Vec2) -> (r: bool)
        ensures
            r == has_cell(self@, p),
    {
        p.x < self.columns.len() && p.y < self.columns[p.x].len()
    }

    /// The tile at a cell of the grid.
    pub fn index(&self, p: Vec2) -> (t: Tile)
        requires
            has_cell(self@, p),
        ensures
            t == self@[p.x as int][p.y as int],
    {
        self.columns[p.x][p.y]
    }

    /// Replaces the tile at a cell of the grid.
    pub fn set(&mut self, p: Vec2, t: Tile)
        requires
            has_cell(old(self)@, p),
        ensures
            final(self)@ == with_cell(old(self)@, p, t),
    {
        let ghost before = self@;
        self.columns[p.x][p.y] = t;
        assert(self@ =~= with_cell(before, p, t));
    }
}

} // verus!
