use vstd::prelude::*;
use crate::geometry::Vec2;
use crate::items::BloodLevel;
use crate::text::str_eq;

verus! {

/// The side of an editor cell and of a sheet cell, in pixels.
pub const EDITOR_CELL_SIZE: usize = 16;

/// A layer of a level cell as the editor sets it, with its sprite.
#[derive(Debug, Clone, Copy, PartialEq, Eq, Structural)]
pub enum TileBackground {
    Unset,
    Wall(Vec2),
    Floor(Vec2),
}

/// An item that a level places.
#[derive(Debug, Clone, Copy, PartialEq, Eq, Structural)]
pub enum Item {
    Empty,
    Bleach,
    Knife,
    Sponge,
    BagRoll,
    BodyBag,
    Bag,
    Body,
}

/// A cell of a level as the editor describes it.
#[derive(Debug, Clone, Copy, PartialEq, Eq, Structural)]
pub struct Tile {
    pub background: TileBackground,
    pub furniture: TileBackground,
    pub item: Item,
    pub blood_level: BloodLevel,
    pub drop_point: bool,
}

/// A cell that nothing has set yet.
pub open spec fn blank() -> Tile {
    Tile {
        background: TileBackground::Unset,
        furniture: TileBackground::Unset,
        item: Item::Empty,
        blood_level: BloodLevel::Clean,
        drop_point: false,
    }
}

impl Tile {
    pub fn blank() -> (t: Tile)
        ensures
            t == blank(),
    {
        Tile {
            background: TileBackground::Unset,
            furniture: TileBackground::Unset,
            item: Item::Empty,
            blood_level: BloodLevel::Clean,
            drop_point: false,
        }
    }
}

/// A tag of the tile set, and the tile set's tiles that carry it.
#[derive(Debug, Clone)]
pub struct EnumTag {
    pub enum_value_id: String,
    pub tile_ids: Vec<usize>,
}

/// A piece of text that the tile set attaches to one of its tiles.
#[derive(Debug, Clone)]
pub struct CustomData {
    pub tile_id: usize,
    pub data: String,
}

/// One tile placed on the level: its position in pixels, the position of
/// its sprite on the sheet in pixels, and which tile of the tile set it is.
#[derive(Debug, Clone, Copy)]
pub struct GridTile {
    pub position: (usize, usize),
    pub source: (usize, usize),
    pub tile: usize,
}

pub struct EnumTagView {
    pub enum_value_id: Seq<char>,
    pub tile_ids: Seq<usize>,
}

pub struct CustomDataView {
    pub tile_id: usize,
    pub data: Seq<char>,
}

impl View for EnumTag {
    type V = EnumTagView;

    open spec fn view(&self) -> EnumTagView {
        EnumTagView { enum_value_id: self.enum_value_id@, tile_ids: self.tile_ids@ }
    }
}

impl View for CustomData {
    type V = CustomDataView;

    open spec fn view(&self) -> CustomDataView {
        CustomDataView { tile_id: self.tile_id, data: self.data@ }
    }
}

/// What the text attached to a tile marks on its cell.
#[derive(Debug, Clone, Copy, PartialEq, Eq, Structural)]
pub enum Marker {
    Blood(BloodLevel),
    Item(Item),
    DropPoint,
}

/// The marker a piece of attached text names, if it names one.
pub open spec fn marker_of(data: Seq<char>) -> Option<Marker> {
    if data == "BLOOD_2"@ {
        Some(Marker::Blood(BloodLevel::Grande))
    } else if data == "BLOOD_1"@ {
        Some(Marker::Blood(BloodLevel::Tall))
    } else if data == "BLOOD_3"@ {
        Some(Marker::Blood(BloodLevel::Venti))
    } else if data == "BLEACH"@ {
        Some(Marker::Item(Item::Bleach))
    } else if data == "KNIFE"@ {
        Some(Marker::Item(Item::Knife))
    } else if data == "SPONGE"@ {
        Some(Marker::Item(Item::Sponge))
    } else if data == "BAG_ROLL"@ {
        Some(Marker::Item(Item::BagRoll))
    } else if data == "BODY_BAG"@ {
        Some(Marker::Item(Item::BodyBag))
    } else if data == "BAG"@ {
        Some(Marker::Item(Item::Bag))
    } else if data == "BODY"@ {
        Some(Marker::Item(Item::Body))
    } else if data == "DROP_POINT"@ {
        Some(Marker::DropPoint)
    } else {
        None
    }
}

/// Reads the marker that a piece of attached text names.
pub fn parse_marker(data: &str) -> (m: Option<Marker>)
    ensures
        m == marker_of(data@),
{
    if str_eq(data, "BLOOD_2") {
        Some(Marker::Blood(BloodLevel::Grande))
    } else if str_eq(data, "BLOOD_1") {
        Some(Marker::Blood(BloodLevel::Tall))
    } else if str_eq(data, "BLOOD_3") {
        Some(Marker::Blood(BloodLevel::Venti))
    } else if str_eq(data, "BLEACH") {
        Some(Marker::Item(Item::Bleach))
    } else if str_eq(data, "KNIFE") {
        Some(Marker::Item(Item::Knife))
    } else if str_eq(data, "SPONGE") {
        Some(Marker::Item(Item::Sponge))
    } else if str_eq(data, "BAG_ROLL") {
        Some(Marker::Item(Item::BagRoll))
    } else if str_eq(data, "BODY_BAG") {
        Some(Marker::Item(Item::BodyBag))
    } else if str_eq(data, "BAG") {
        Some(Marker::Item(Item::Bag))
    } else if str_eq(data, "BODY") {
        Some(Marker::Item(Item::Body))
    } else if str_eq(data, "DROP_POINT") {
        Some(Marker::DropPoint)
    } else {
        None
    }
}

/// A cell with a marker applied.
pub open spec fn marked(t: Tile, m: Marker) -> Tile {
    match m {
        Marker::Blood(b) => Tile { blood_level: b, ..t },
        Marker::Item(i) => Tile { item: i, ..t },
        Marker::DropPoint => Tile { drop_point: true, ..t },
    }
}

impl Tile {
    pub fn mark(self, m: Marker) -> (t: Tile)
        ensures
            t == marked(self, m),
    {
        match m {
            Marker::Blood(b) => Tile { blood_level: b, ..self },
            Marker::Item(i) => Tile { item: i, ..self },
            Marker::DropPoint => Tile { drop_point: true, ..self },
        }
    }
}

/// Columns of cells seen as sequences.
pub open spec fn cells_of(columns: Seq<Vec<Tile>>) -> Seq<Seq<Tile>> {
    columns.map_values(|c: Vec<Tile>| c@)
}

/// Whether a tag named `name` carries tile `tile`.
pub open spec fn tagged(tags: Seq<EnumTagView>, tile: usize, name: Seq<char>) -> bool {
    exists|i: int|
        0 <= i < tags.len() && (#[trigger] tags[i]).tile_ids.contains(tile) && tags[i].enum_value_id
            == name
}

/// The text attached to tile `tile`: that of the first entry for it.
pub open spec fn custom_data_for(custom: Seq<CustomDataView>, tile: usize) -> Option<Seq<char>>
    decreases custom.len(),
{
    if custom.len() == 0 {
        None
    } else if custom[0].tile_id == tile {
        Some(custom[0].data)
    } else {
        custom_data_for(custom.drop_first(), tile)
    }
}

/// The columns with empty columns added so that column `x` exists.
pub open spec fn widened(cells: Seq<Seq<Tile>>, x: nat) -> Seq<Seq<Tile>> {
    if x < cells.len() {
        cells
    } else {
        cells + Seq::new((x + 1 - cells.len()) as nat, |i: int| Seq::<Tile>::empty())
    }
}

/// The column with blank cells added so that row `y` exists.
pub open spec fn lengthened(column: Seq<Tile>, y: nat) -> Seq<Tile> {
    if y < column.len() {
        column
    } else {
        column + Seq::new((y + 1 - column.len()) as nat, |i: int| blank())
    }
}

/// A cell with the layer that its tags give: a wall or floor sprite, as
/// furniture where it is tagged so, else as the ground.
pub open spec fn layered(t: Tile, wall: bool, floor: bool, furniture: bool, sprite: Vec2) -> Tile {
    if wall || floor {
        let layer = if wall {
            TileBackground::Wall(sprite)
        } else {
            TileBackground::Floor(sprite)
        };
        if furniture {
            Tile { furniture: layer, ..t }
        } else {
            Tile { background: layer, ..t }
        }
    } else {
        t
    }
}

/// The columns after one placed tile: its cell (its pixel position divided
/// by `EDITOR_CELL_SIZE`) is made to exist, takes the marker of the tile's
/// attached text, and then the layer of its tags. Attached text that names
/// no marker is an error that carries the text.
pub open spec fn placed(
    cells: Seq<Seq<Tile>>,
    g: GridTile,
    tags: Seq<EnumTagView>,
    custom: Seq<CustomDataView>,
) -> Result<Seq<Seq<Tile>>, Seq<char>> {
    let x = g.position.0 / EDITOR_CELL_SIZE;
    let y = g.position.1 / EDITOR_CELL_SIZE;
    let wide = widened(cells, x as nat);
    let column = lengthened(wide[x as int], y as nat);
    let before = column[y as int];
    let with_marker = match custom_data_for(custom, g.tile) {
        None => Ok(before),
        Some(d) => match marker_of(d) {
            Some(m) => Ok(marked(before, m)),
            None => Err(d),
        },
    };
    match with_marker {
        Err(d) => Err(d),
        Ok(t) => {
            let sprite = Vec2 {
                x: g.source.0 / EDITOR_CELL_SIZE,
                y: g.source.1 / EDITOR_CELL_SIZE,
            };
            let after = layered(
                t,
                tagged(tags, g.tile, "Wall"@),
                tagged(tags, g.tile, "Floor"@),
                tagged(tags, g.tile, "Furniture"@),
                sprite,
            );
            Ok(wide.update(x as int, column.update(y as int, after)))
        },
    }
}

/// The columns after the first `n` placed tiles, from no columns, or the
/// first error.
pub open spec fn built(
    tiles: Seq<GridTile>,
    n: int,
    tags: Seq<EnumTagView>,
    custom: Seq<CustomDataView>,
) -> Result<Seq<Seq<Tile>>, Seq<char>>
    decreases n,
{
    if n <= 0 {
        Ok(seq![])
    } else {
        match built(tiles, n - 1, tags, custom) {
            Ok(cells) => placed(cells, tiles[n - 1], tags, custom),
            Err(e) => Err(e),
        }
    }
}

fn holds(ids: &Vec<usize>, tile: usize) -> (r: bool)
    ensures
        r == ids@.contains(tile),
{
    let mut i: usize = 0;
    while i < ids.len()
        invariant
            0 <= i <= ids@.len(),
            forall|j: int| 0 <= j < i ==> ids@[j] != tile,
        decreases ids@.len() - i,
    {
        if ids[i] == tile {
            return true;
        }
        i = i + 1;
    }
    false
}

/// Whether a tag named `name` carries tile `tile`.
pub fn carries(tags: &Vec<EnumTag>, tile: usize, name: &str) -> (r: bool)
    ensures
        r == tagged(tags@.map_values(|t: EnumTag| t@), tile, name@),
{
    let ghost views = tags@.map_values(|t: EnumTag| t@);
    let mut i: usize = 0;
    while i < tags.len()
        invariant
            0 <= i <= tags@.len(),
            views == tags@.map_values(|t: EnumTag| t@),
            forall|j: int|
                0 <= j < i ==> !((#[trigger] views[j]).tile_ids.contains(tile)
                    && views[j].enum_value_id == name@),
        decreases tags@.len() - i,
    {
        let tag = &tags[i];
        if holds(&tag.tile_ids, tile) && str_eq(tag.enum_value_id.as_str(), name) {
            assert(views[i as int] == tag@);
            return true;
        }
        i = i + 1;
    }
    false
}

/// The position in `custom` of the entry whose text is attached to tile
/// `tile` (see `custom_data_for`).
pub fn find_custom_data(custom: &Vec<CustomData>, tile: usize) -> (r: Option<usize>)
    ensures
        r is None <==> custom_data_for(custom@.map_values(|c: CustomData| c@), tile) is None,
        r matches Some(i) ==> i < custom@.len() && custom_data_for(
            custom@.map_values(|c: CustomData| c@),
            tile,
        ) == Some(custom@[i as int].data@),
{
    let ghost views = custom@.map_values(|c: CustomData| c@);
    assert(views.subrange(0, views.len() as int) =~= views);
    let mut i: usize = 0;
    while i < custom.len()
        invariant
            0 <= i <= custom@.len(),
            views == custom@.map_values(|c: CustomData| c@),
            custom_data_for(views, tile) == custom_data_for(views.subrange(i as int, views.len() as int), tile),
        decreases custom@.len() - i,
    {
        let ghost rest = views.subrange(i as int, views.len() as int);
        assert(rest[0] == custom@[i as int]@);
        if custom[i].tile_id == tile {
            return Some(i);
        }
        assert(rest.drop_first() =~= views.subrange(i + 1, views.len() as int));
        i = i + 1;
    }
    assert(views.subrange(i as int, views.len() as int).len() == 0);
    None
}

/// Places one tile on the columns (see `placed`); on an error the columns
/// are left in some state that the caller drops.
pub fn place_tile(
    grid: &mut Vec<Vec<Tile>>,
    g: GridTile,
    tags: &Vec<EnumTag>,
    custom: &Vec<CustomData>,
) -> (r: Result<(), String>)
    ensures
        match placed(
            cells_of(old(grid)@),
            g,
            tags@.map_values(|t: EnumTag| t@),
            custom@.map_values(|c: CustomData| c@),
        ) {
            Ok(cells) => r is Ok && cells_of(final(grid)@) == cells,
            Err(d) => r matches Err(e) && e@ == d,
        },
{
    let ghost start = cells_of(grid@);
    let x = g.position.0 / EDITOR_CELL_SIZE;
    let y = g.position.1 / EDITOR_CELL_SIZE;
    while grid.len() < x + 1
        invariant
            x + 1 <= usize::MAX,
            start.len() <= grid@.len() <= x + 1 || (start.len() == grid@.len() && start.len() > x),
            cells_of(grid@) == start + Seq::new(
                (grid@.len() - start.len()) as nat,
                |i: int| Seq::<Tile>::empty(),
            ),
        decreases x + 1 - grid@.len(),
    {
        let ghost before = cells_of(grid@);
        let empty: Vec<Tile> = Vec::new();
        grid.push(empty);
        assert(cells_of(grid@) =~= before.push(Seq::<Tile>::empty()));
        assert(cells_of(grid@) =~= start + Seq::new(
            (grid@.len() - start.len()) as nat,
            |i: int| Seq::<Tile>::empty(),
        ));
    }
    let ghost wide = widened(start, x as nat);
    assert(cells_of(grid@) =~= wide);
    let ghost column0 = wide[x as int];
    while grid[x].len() < y + 1
        invariant
            x < grid@.len(),
            y + 1 <= usize::MAX,
            column0 == wide[x as int],
            column0.len() <= grid@[x as int]@.len(),
            grid@[x as int]@.len() == column0.len() || grid@[x as int]@.len() <= y + 1,
            grid@[x as int]@ == column0 + Seq::new(
                (grid@[x as int]@.len() - column0.len()) as nat,
                |i: int| blank(),
            ),
            forall|j: int| 0 <= j < grid@.len() && j != x ==> grid@[j]@ == wide[j],
            grid@.len() == wide.len(),
        decreases y + 1 - grid@[x as int]@.len(),
    {
        grid[x].push(Tile::blank());
        assert(grid@[x as int]@ =~= column0 + Seq::new(
            (grid@[x as int]@.len() - column0.len()) as nat,
            |i: int| blank(),
        ));
    }
    let ghost column = lengthened(column0, y as nat);
    assert(grid@[x as int]@ =~= column);
    let mut t = grid[x][y];
    assert(t == column[y as int]);
    match find_custom_data(custom, g.tile) {
        Some(i) => {
            let data = custom[i].data.as_str();
            match parse_marker(data) {
                Some(m) => {
                    t = t.mark(m);
                },
                None => {
                    return Err(custom[i].data.clone());
                },
            }
        },
        None => {},
    }
    let sprite = Vec2 { x: g.source.0 / EDITOR_CELL_SIZE, y: g.source.1 / EDITOR_CELL_SIZE };
    let wall = carries(tags, g.tile, "Wall");
    let floor = carries(tags, g.tile, "Floor");
    if wall || floor {
        let layer = if wall {
            TileBackground::Wall(sprite)
        } else {
            TileBackground::Floor(sprite)
        };
        if carries(tags, g.tile, "Furniture") {
            t = Tile { furniture: layer, ..t };
        } else {
            t = Tile { background: layer, ..t };
        }
    }
    grid[x][y] = t;
    assert(cells_of(grid@) =~= wide.update(x as int, column.update(y as int, t)));
    Ok(())
}

/// Buckets the placed tiles of a level layer into columns of cells, in the
/// order given (see `built`).
pub fn build_grid(tiles: &Vec<GridTile>, tags: &Vec<EnumTag>, custom: &Vec<CustomData>) -> (r:
    Result<Vec<Vec<Tile>>, String>)
    ensures
        match built(
            tiles@,
            tiles@.len() as int,
            tags@.map_values(|t: EnumTag| t@),
            custom@.map_values(|c: CustomData| c@),
        ) {
            Ok(cells) => r matches Ok(grid) && cells_of(grid@) == cells,
            Err(d) => r matches Err(e) && e@ == d,
        },
{
    let ghost tag_views = tags@.map_values(|t: EnumTag| t@);
    let ghost custom_views = custom@.map_values(|c: CustomData| c@);
    let mut grid: Vec<Vec<Tile>> = Vec::new();
    assert(cells_of(grid@) =~= Seq::<Seq<Tile>>::empty());
    let mut i: usize = 0;
    while i < tiles.len()
        invariant
            0 <= i <= tiles@.len(),
            tag_views == tags@.map_values(|t: EnumTag| t@),
            custom_views == custom@.map_values(|c: CustomData| c@),
            built(tiles@, i as int, tag_views, custom_views) == Ok::<Seq<Seq<Tile>>, Seq<char>>(
                cells_of(grid@),
            ),
        decreases tiles@.len() - i,
    {
        match place_tile(&mut grid, tiles[i], tags, custom) {
            Ok(()) => {},
            Err(e) => {
                proof {
                    lemma_built_error_stays(tiles@, i as int + 1, tiles@.len() as int, tag_views, custom_views);
                }
                return Err(e);
            },
        }
        i = i + 1;
    }
    Ok(grid)
}

/// Once building fails, it fails with the same text however many further
/// tiles there are.
proof fn lemma_built_error_stays(
    tiles: Seq<GridTile>,
    n: int,
    m: int,
    tags: Seq<EnumTagView>,
    custom: Seq<CustomDataView>,
)
    requires
        n <= m,
        built(tiles, n, tags, custom) is Err,
    ensures
        built(tiles, m, tags, custom) == built(tiles, n, tags, custom),
    decreases m - n,
{
    if n < m {
        lemma_built_error_stays(tiles, n, m - 1, tags, custom);
    }
}

/// The cell of a placed tile: its pixel position divided by
/// `EDITOR_CELL_SIZE`.
pub open spec fn cell_of(g: GridTile) -> (nat, nat) {
    ((g.position.0 / EDITOR_CELL_SIZE) as nat, (g.position.1 / EDITOR_CELL_SIZE) as nat)
}

/// Whether cell (`x`, `y`) exists in the columns.
pub open spec fn exists_in(cells: Seq<Seq<Tile>>, x: nat, y: nat) -> bool {
    x < cells.len() && y < cells[x as int].len()
}

/// Placing a tile keeps every cell that existed and makes the tile's own.
proof fn lemma_placed_grows(
    cells: Seq<Seq<Tile>>,
    g: GridTile,
    tags: Seq<EnumTagView>,
    custom: Seq<CustomDataView>,
)
    requires
        placed(cells, g, tags, custom) is Ok,
    ensures
        ({
            let after = placed(cells, g, tags, custom)->Ok_0;
            &&& exists_in(after, cell_of(g).0, cell_of(g).1)
            &&& forall|x: nat, y: nat| exists_in(cells, x, y) ==> exists_in(after, x, y)
        }),
{
}

/// Building succeeds with a grid in which the cell of every placed tile
/// exists.
pub proof fn lemma_built_holds_every_tile(
    tiles: Seq<GridTile>,
    n: int,
    tags: Seq<EnumTagView>,
    custom: Seq<CustomDataView>,
)
    requires
        0 <= n <= tiles.len(),
        built(tiles, n, tags, custom) is Ok,
    ensures
        forall|i: int|
            0 <= i < n ==> exists_in(
                built(tiles, n, tags, custom)->Ok_0,
                cell_of(#[trigger] tiles[i]).0,
                cell_of(tiles[i]).1,
            ),
    decreases n,
{
    if n > 0 {
        let before = built(tiles, n - 1, tags, custom);
        assert(before is Ok);
        lemma_built_holds_every_tile(tiles, n - 1, tags, custom);
        lemma_placed_grows(before->Ok_0, tiles[n - 1], tags, custom);
    }
}

} // verus!
