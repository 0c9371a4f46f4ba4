use vstd::prelude::*;
use crate::geometry::{Direction, Vec2};
use crate::grid::{Furniture, Tile, TileBackground};
use crate::items::{BloodLevel, BodyLevel, Item, BODY_CHOPPING_TIME};
use crate::state::{GameState, GameView};

verus! {

/// The side of a cell and of a sprite, in pixels.
pub const CELL_SIZE: i128 = 16;

/// The length of a body's progress bar, in pixels.
pub const PROGRESS_BAR_SIZE: i128 = 12;

/// The height of a body's progress bar, in pixels.
pub const PROGRESS_BAR_HEIGHT: i128 = 2;

/// The diameter of a medium blood stain, in pixels.
pub const STAIN_DIAMETER: i128 = 8;

/// Colors, as RGBA.
pub const STAIN_COLOR: u32 = 0xff000077;

pub const BAR_BACK_COLOR: u32 = 0x888888ff;

pub const BAR_FRONT_COLOR: u32 = 0x00ff00ff;

/// Cells are far from the ends of `i128`: a coordinate of a cell, or of a
/// neighbouring one, lies within this bound.
pub open spec fn small(c: int) -> bool {
    -0x1_0000_0000_0000_0000_0000 < c < 0x1_0000_0000_0000_0000_0000
}

/// One drawing operation of a frame, in pixels.
#[derive(Debug, Clone, Copy, PartialEq, Eq, Structural)]
pub enum DrawCommand {
    /// The cell-sized square of the sprite sheet whose top-left corner is at
    /// (`sx`, `sy`), drawn with its top-left corner at (`x`, `y`), mirrored
    /// left to right where `flip_x` holds.
    Sprite { x: i128, y: i128, sx: i128, sy: i128, flip_x: bool },
    /// A filled circle within the square of side `diameter` whose top-left
    /// corner is at (`x`, `y`).
    Circle { x: i128, y: i128, diameter: i128, color: u32 },
    /// A filled rectangle with its top-left corner at (`x`, `y`).
    Rect { x: i128, y: i128, w: i128, h: i128, color: u32 },
}

/// The sprite `sheet` (a cell of the sprite sheet) drawn on cell (`cx`, `cy`).
pub open spec fn sprite_at(sheet: Vec2, cx: int, cy: int, flip_x: bool) -> DrawCommand {
    DrawCommand::Sprite {
        x: (CELL_SIZE * cx) as i128,
        y: (CELL_SIZE * cy) as i128,
        sx: (CELL_SIZE * sheet.x) as i128,
        sy: (CELL_SIZE * sheet.y) as i128,
        flip_x,
    }
}

fn sprite(sheet: Vec2, cx: i128, cy: i128, flip_x: bool) -> (d: DrawCommand)
    requires
        small(cx as int),
        small(cy as int),
    ensures
        d == sprite_at(sheet, cx as int, cy as int, flip_x),
{
    DrawCommand::Sprite {
        x: CELL_SIZE * cx,
        y: CELL_SIZE * cy,
        sx: CELL_SIZE * (sheet.x as i128),
        sy: CELL_SIZE * (sheet.y as i128),
        flip_x,
    }
}

/// How much of the progress bar is filled when `progress` presses of
/// `BODY_CHOPPING_TIME` are left: the share done, rounded to the nearest
/// pixel and kept within the bar.
pub open spec fn bar_fill(progress: int) -> int {
    if progress >= BODY_CHOPPING_TIME {
        0
    } else if progress <= 0 {
        PROGRESS_BAR_SIZE as int
    } else {
        (PROGRESS_BAR_SIZE * (BODY_CHOPPING_TIME - progress) + BODY_CHOPPING_TIME / 2)
            / BODY_CHOPPING_TIME as int
    }
}

/// A body's progress bar over cell (`cx`, `cy`): the empty bar, then its
/// filled part.
pub open spec fn progress_commands(cx: int, cy: int, progress: int) -> Seq<DrawCommand> {
    let x = (CELL_SIZE * cx + (CELL_SIZE - PROGRESS_BAR_SIZE) / 2) as i128;
    let y = (CELL_SIZE * cy - CELL_SIZE / 4) as i128;
    seq![
        DrawCommand::Rect { x, y, w: PROGRESS_BAR_SIZE, h: PROGRESS_BAR_HEIGHT, color: BAR_BACK_COLOR },
        DrawCommand::Rect { x, y, w: bar_fill(progress) as i128, h: PROGRESS_BAR_HEIGHT, color: BAR_FRONT_COLOR },
    ]
}

/// The sheet cells that show a body at a stage: whole, then its pieces as
/// they are chopped, then fewer pieces as they are bagged.
pub open spec fn body_sprites(level: BodyLevel) -> Seq<Vec2> {
    match level {
        BodyLevel::Start => seq![Vec2 { x: 8, y: 0 }],
        BodyLevel::One => seq![Vec2 { x: 13, y: 0 }],
        BodyLevel::Two => seq![Vec2 { x: 13, y: 0 }, Vec2 { x: 14, y: 0 }],
        BodyLevel::Three => seq![Vec2 { x: 13, y: 0 }, Vec2 { x: 14, y: 0 }, Vec2 { x: 15, y: 0 }],
        BodyLevel::Four => seq![
            Vec2 { x: 13, y: 0 },
            Vec2 { x: 14, y: 0 },
            Vec2 { x: 15, y: 0 },
            Vec2 { x: 16, y: 0 },
        ],
        BodyLevel::Five => seq![Vec2 { x: 14, y: 0 }, Vec2 { x: 15, y: 0 }, Vec2 { x: 16, y: 0 }],
        BodyLevel::Six => seq![Vec2 { x: 15, y: 0 }, Vec2 { x: 16, y: 0 }],
        BodyLevel::Seven => seq![Vec2 { x: 16, y: 0 }],
    }
}

/// The sheet cell of an item that is one sprite.
pub open spec fn item_sprite(item: Item) -> Vec2 {
    match item {
        Item::Knife => Vec2 { x: 6, y: 2 },
        Item::Sponge => Vec2 { x: 7, y: 2 },
        Item::Bleach => Vec2 { x: 4, y: 2 },
        Item::Bag => Vec2 { x: 9, y: 3 },
        _ => Vec2 { x: 9, y: 2 },
    }
}

#[verifier::opaque]
/// How an item looks on cell (`cx`, `cy`): a body as its pieces and its
/// progress bar, a body bag as two sprites (its top on the cell above), any
/// other item as one sprite; tools are mirrored where `flip_x` holds.
pub open spec fn item_commands(item: Item, cx: int, cy: int, flip_x: bool) -> Seq<DrawCommand> {
    match item {
        Item::Empty => seq![],
        Item::Body(level, progress) => body_sprites(level).map_values(
            |s: Vec2| sprite_at(s, cx, cy, false),
        ) + progress_commands(cx, cy, progress as int),
        Item::BodyBag => seq![
            sprite_at(Vec2 { x: 8, y: 2 }, cx, cy - 1, flip_x),
            sprite_at(Vec2 { x: 8, y: 3 }, cx, cy, flip_x),
        ],
        _ => seq![sprite_at(item_sprite(item), cx, cy, flip_x)],
    }
}

/// How the blood on cell (`cx`, `cy`) looks.
#[verifier::opaque]
pub open spec fn blood_commands(blood: BloodLevel, cx: int, cy: int) -> Seq<DrawCommand> {
    match blood {
        BloodLevel::Clean => seq![],
        BloodLevel::Tall => seq![sprite_at(Vec2 { x: 7, y: 1 }, cx, cy, false)],
        BloodLevel::Grande => seq![
            DrawCommand::Circle {
                x: (CELL_SIZE * cx + CELL_SIZE / 2 - STAIN_DIAMETER / 2) as i128,
                y: (CELL_SIZE * cy + CELL_SIZE / 2 - STAIN_DIAMETER / 2) as i128,
                diameter: STAIN_DIAMETER,
                color: STAIN_COLOR,
            },
        ],
        BloodLevel::Venti => seq![sprite_at(Vec2 { x: 5, y: 1 }, cx, cy, false)],
    }
}

/// The player's sprite when facing `facing`, and whether it is mirrored: the
/// sheet has no left-facing sprite.
pub open spec fn player_sprite(facing: Direction) -> (Vec2, bool) {
    match facing {
        Direction::Up => (Vec2 { x: 5, y: 5 }, false),
        Direction::Down => (Vec2 { x: 4, y: 0 }, false),
        Direction::Left => (Vec2 { x: 4, y: 5 }, true),
        Direction::Right => (Vec2 { x: 4, y: 5 }, false),
    }
}

/// The sheet cell of a tile's ground.
pub open spec fn ground_sprite(background: TileBackground) -> Vec2 {
    match background {
        TileBackground::Floor(s) => s,
        TileBackground::Wall(s) => s,
    }
}

/// How the furniture on cell (`cx`, `cy`) looks.
pub open spec fn furniture_commands(furniture: Furniture, cx: int, cy: int) -> Seq<DrawCommand> {
    match furniture {
        Furniture::Empty => seq![],
        Furniture::Floor(s) => seq![sprite_at(s, cx, cy, false)],
        Furniture::Wall(s) => seq![sprite_at(s, cx, cy, false)],
    }
}

/// The player on cell (`cx`, `cy`), where `present`.
pub open spec fn player_commands(present: bool, facing: Direction, cx: int, cy: int) -> Seq<
    DrawCommand,
> {
    if present {
        seq![sprite_at(player_sprite(facing).0, cx, cy, player_sprite(facing).1)]
    } else {
        seq![]
    }
}

/// How a tile looks, from the bottom up: ground, blood, furniture, item and
/// the player.
pub open spec fn tile_commands(t: Tile, facing: Direction, cx: int, cy: int) -> Seq<DrawCommand> {
    seq![sprite_at(ground_sprite(t.background), cx, cy, false)] + blood_commands(
        t.blood_level,
        cx,
        cy,
    ) + furniture_commands(t.furniture, cx, cy) + item_commands(t.item, cx, cy, false)
        + player_commands(t.player, facing, cx, cy)
}

/// The first `n` tiles of column `x`, drawn top to bottom.
pub open spec fn column_commands(s: GameView, x: int, n: int) -> Seq<DrawCommand>
    decreases n,
{
    if n <= 0 {
        seq![]
    } else {
        column_commands(s, x, n - 1) + tile_commands(s.cells[x][n - 1], s.facing, x, n - 1)
    }
}

/// The first `n` columns, drawn left to right.
pub open spec fn grid_commands(s: GameView, n: int) -> Seq<DrawCommand>
    decreases n,
{
    if n <= 0 {
        seq![]
    } else {
        grid_commands(s, n - 1) + column_commands(s, n - 1, s.cells[n - 1].len() as int)
    }
}

/// A whole frame: every tile, then the carried item in front of the player,
/// mirrored when the player faces left.
pub open spec fn frame_commands(s: GameView) -> Seq<DrawCommand> {
    let step = s.facing.step();
    grid_commands(s, s.cells.len() as int) + item_commands(
        s.inventory,
        s.character_position.x + step.x,
        s.character_position.y + step.y,
        s.facing == Direction::Left,
    )
}

fn push_sprite(out: &mut Vec<DrawCommand>, sheet: Vec2, cx: i128, cy: i128, flip_x: bool)
    requires
        small(cx as int),
        small(cy as int),
    ensures
        final(out)@ == old(out)@.push(sprite_at(sheet, cx as int, cy as int, flip_x)),
{
    out.push(sprite(sheet, cx, cy, flip_x));
}

/// How much of the progress bar is filled (see `bar_fill`).
pub fn lerp(progress: isize) -> (w: i128)
    ensures
        w == bar_fill(progress as int),
{
    if progress >= BODY_CHOPPING_TIME {
        0
    } else if progress <= 0 {
        PROGRESS_BAR_SIZE
    } else {
        let left = BODY_CHOPPING_TIME - progress;
        ((PROGRESS_BAR_SIZE * (left as i128) + (BODY_CHOPPING_TIME / 2) as i128) / (
        BODY_CHOPPING_TIME as i128))
    }
}

/// Adds a body's progress bar over cell (`cx`, `cy`).
pub fn progress(out: &mut Vec<DrawCommand>, cx: i128, cy: i128, progress: isize)
    requires
        small(cx as int),
        small(cy as int),
    ensures
        final(out)@ == old(out)@ + progress_commands(cx as int, cy as int, progress as int),
{
    let x = CELL_SIZE * cx + (CELL_SIZE - PROGRESS_BAR_SIZE) / 2;
    let y = CELL_SIZE * cy - CELL_SIZE / 4;
    out.push(
        DrawCommand::Rect {
            x,
            y,
            w: PROGRESS_BAR_SIZE,
            h: PROGRESS_BAR_HEIGHT,
            color: BAR_BACK_COLOR,
        },
    );
    out.push(
        DrawCommand::Rect { x, y, w: lerp(progress), h: PROGRESS_BAR_HEIGHT, color: BAR_FRONT_COLOR },
    );
    assert(final(out)@ =~= old(out)@ + progress_commands(cx as int, cy as int, progress as int));
}

impl Item {
    /// Adds how the item looks on cell (`cx`, `cy`) (see `item_commands`).
    pub fn draw(&self, out: &mut Vec<DrawCommand>, cx: i128, cy: i128, flip_x: bool)
        requires
            small(cx as int),
            small(cy as int),
            small(cy - 1),
        ensures
            final(out)@ == old(out)@ + item_commands(*self, cx as int, cy as int, flip_x),
    {
        let ghost start = out@;
        reveal(item_commands);
        match self {
            Item::Empty => {},
            Item::Body(level, prgrss) => {
                let sheet: Vec<Vec2> = match level {
                    BodyLevel::Start => vec![Vec2 { x: 8, y: 0 }],
                    BodyLevel::One => vec![Vec2 { x: 13, y: 0 }],
                    BodyLevel::Two => vec![Vec2 { x: 13, y: 0 }, Vec2 { x: 14, y: 0 }],
                    BodyLevel::Three => vec![
                        Vec2 { x: 13, y: 0 },
                        Vec2 { x: 14, y: 0 },
                        Vec2 { x: 15, y: 0 },
                    ],
                    BodyLevel::Four => vec![
                        Vec2 { x: 13, y: 0 },
                        Vec2 { x: 14, y: 0 },
                        Vec2 { x: 15, y: 0 },
                        Vec2 { x: 16, y: 0 },
                    ],
                    BodyLevel::Five => vec![
                        Vec2 { x: 14, y: 0 },
                        Vec2 { x: 15, y: 0 },
                        Vec2 { x: 16, y: 0 },
                    ],
                    BodyLevel::Six => vec![Vec2 { x: 15, y: 0 }, Vec2 { x: 16, y: 0 }],
                    BodyLevel::Seven => vec![Vec2 { x: 16, y: 0 }],
                };
                assert(sheet@ =~= body_sprites(*level));
                let mut i: usize = 0;
                while i < sheet.len()
                    invariant
                        0 <= i <= sheet@.len(),
                        small(cx as int),
                        small(cy as int),
                        out@ == start + sheet@.subrange(0, i as int).map_values(
                            |s: Vec2| sprite_at(s, cx as int, cy as int, false),
                        ),
                    decreases sheet@.len() - i,
                {
                    push_sprite(out, sheet[i], cx, cy, false);
                    i = i + 1;
                    assert(sheet@.subrange(0, i as int) =~= sheet@.subrange(0, i - 1).push(
                        sheet@[i - 1],
                    ));
                    assert(out@ =~= start + sheet@.subrange(0, i as int).map_values(
                        |s: Vec2| sprite_at(s, cx as int, cy as int, false),
                    ));
                }
                assert(sheet@.subrange(0, sheet@.len() as int) =~= sheet@);
                progress(out, cx, cy, *prgrss);
                assert(out@ =~= start + item_commands(*self, cx as int, cy as int, flip_x));
            },
            Item::BodyBag => {
                push_sprite(out, Vec2 { x: 8, y: 2 }, cx, cy - 1, flip_x);
                push_sprite(out, Vec2 { x: 8, y: 3 }, cx, cy, flip_x);
                assert(out@ =~= start + item_commands(*self, cx as int, cy as int, flip_x));
            },
            Item::Knife => push_sprite(out, Vec2 { x: 6, y: 2 }, cx, cy, flip_x),
            Item::Sponge => push_sprite(out, Vec2 { x: 7, y: 2 }, cx, cy, flip_x),
            Item::Bleach => push_sprite(out, Vec2 { x: 4, y: 2 }, cx, cy, flip_x),
            Item::Bag => push_sprite(out, Vec2 { x: 9, y: 3 }, cx, cy, flip_x),
            Item::BagRoll => push_sprite(out, Vec2 { x: 9, y: 2 }, cx, cy, flip_x),
        }
        assert(out@ =~= start + item_commands(*self, cx as int, cy as int, flip_x));
    }
}

fn draw_blood(out: &mut Vec<DrawCommand>, blood: BloodLevel, cx: i128, cy: i128)
    requires
        small(cx as int),
        small(cy as int),
    ensures
        final(out)@ == old(out)@ + blood_commands(blood, cx as int, cy as int),
{
    let ghost start = out@;
    reveal(blood_commands);
    match blood {
        BloodLevel::Clean => {},
        BloodLevel::Tall => push_sprite(out, Vec2 { x: 7, y: 1 }, cx, cy, false),
        BloodLevel::Grande => {
            out.push(
                DrawCommand::Circle {
                    x: CELL_SIZE * cx + CELL_SIZE / 2 - STAIN_DIAMETER / 2,
                    y: CELL_SIZE * cy + CELL_SIZE / 2 - STAIN_DIAMETER / 2,
                    diameter: STAIN_DIAMETER,
                    color: STAIN_COLOR,
                },
            );
        },
        BloodLevel::Venti => push_sprite(out, Vec2 { x: 5, y: 1 }, cx, cy, false),
    }
    assert(out@ =~= start + blood_commands(blood, cx as int, cy as int));
}

fn draw_player(out: &mut Vec<DrawCommand>, present: bool, facing: Direction, cx: i128, cy: i128)
    requires
        small(cx as int),
        small(cy as int),
    ensures
        final(out)@ == old(out)@ + player_commands(present, facing, cx as int, cy as int),
{
    let ghost start = out@;
    if present {
        match facing {
            Direction::Up => push_sprite(out, Vec2 { x: 5, y: 5 }, cx, cy, false),
            Direction::Down => push_sprite(out, Vec2 { x: 4, y: 0 }, cx, cy, false),
            Direction::Left => push_sprite(out, Vec2 { x: 4, y: 5 }, cx, cy, true),
            Direction::Right => push_sprite(out, Vec2 { x: 4, y: 5 }, cx, cy, false),
        }
    }
    assert(out@ =~= start + player_commands(present, facing, cx as int, cy as int));
}

fn draw_furniture(out: &mut Vec<DrawCommand>, furniture: Furniture, cx: i128, cy: i128)
    requires
        small(cx as int),
        small(cy as int),
    ensures
        final(out)@ == old(out)@ + furniture_commands(furniture, cx as int, cy as int),
{
    let ghost start = out@;
    match furniture {
        Furniture::Empty => {},
        Furniture::Floor(sheet) => push_sprite(out, sheet, cx, cy, false),
        Furniture::Wall(sheet) => push_sprite(out, sheet, cx, cy, false),
    }
    assert(out@ =~= start + furniture_commands(furniture, cx as int, cy as int));
}

/// Adds how a tile looks on cell (`cx`, `cy`) (see `tile_commands`).
fn draw_tile(out: &mut Vec<DrawCommand>, t: Tile, facing: Direction, cx: i128, cy: i128)
    requires
        small(cx as int),
        small(cy as int),
        small(cy - 1),
    ensures
        final(out)@ == old(out)@ + tile_commands(t, facing, cx as int, cy as int),
{
    let ghost start = out@;
    let ground = match t.background {
        TileBackground::Floor(sheet) => sheet,
        TileBackground::Wall(sheet) => sheet,
    };
    push_sprite(out, ground, cx, cy, false);
    draw_blood(out, t.blood_level, cx, cy);
    draw_furniture(out, t.furniture, cx, cy);
    t.item.draw(out, cx, cy, false);
    draw_player(out, t.player, facing, cx, cy);
    assert(out@ =~= start + tile_commands(t, facing, cx as int, cy as int));
}

/// Everything one frame draws, bottom layer first: the tiles column by
/// column, each top to bottom, then the carried item on the cell in front of
/// the player (see `frame_commands`).
pub fn draw_frame(state: &GameState) -> (out: Vec<DrawCommand>)
    ensures
        out@ == frame_commands(state@),
{
    let mut out: Vec<DrawCommand> = Vec::new();
    let columns = state.grid.iter();
    let ghost s = state@;
    let mut x: usize = 0;
    while x < columns.len()
        invariant
            0 <= x <= columns@.len(),
            columns@.map_values(|c: Vec<Tile>| c@) == s.cells,
            s == state@,
            out@ == grid_commands(s, x as int),
        decreases columns@.len() - x,
    {
        let column = &columns[x];
        assert(column@ == s.cells[x as int]);
        let mut y: usize = 0;
        while y < column.len()
            invariant
                0 <= x < columns@.len(),
                0 <= y <= column@.len(),
                column@ == s.cells[x as int],
                s == state@,
                out@ == grid_commands(s, x as int) + column_commands(s, x as int, y as int),
            decreases column@.len() - y,
        {
            let ghost before = out@;
            draw_tile(&mut out, column[y], state.facing, x as i128, y as i128);
            y = y + 1;
            assert(out@ =~= grid_commands(s, x as int) + column_commands(s, x as int, y as int));
        }
        x = x + 1;
        assert(out@ =~= grid_commands(s, x as int));
    }
    let step = crate::geometry::IVec2::from(state.facing);
    let cx = state.character_position.x as i128 + step.x as i128;
    let cy = state.character_position.y as i128 + step.y as i128;
    let ghost before = out@;
    state.inventory.draw(&mut out, cx, cy, matches!(state.facing, Direction::Left));
    out
}

/// Where the camera looks: the player's cell, in pixels.
pub fn camera(state: &GameState) -> (c: (i128, i128))
    ensures
        c.0 == CELL_SIZE * state.character_position.x,
        c.1 == CELL_SIZE * state.character_position.y,
{
    (CELL_SIZE * (state.character_position.x as i128), CELL_SIZE * (state.character_position.y as i128))
}

} // verus!
