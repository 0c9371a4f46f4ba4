use vstd::prelude::*;
use crate::geometry::{Direction, DirectionSet, IVec2, Vec2, ivec2, vec2};
use crate::grid::{Grid, Tile, TileBackground, Furniture, has_cell, with_cell};
use crate::items::{BloodLevel, BodyAction, BodyLevel, Item, BODY_CHOPPING_TIME, MAX_BLOOD};

verus! {

/// Frames the player waits after a step before the next one.
pub const FRAMES_BETWEEN_MOVES: usize = 16;

/// The cell where the player starts a level.
pub const START_X: usize = 5;

pub const START_Y: usize = 5;

pub open spec fn start_cell() -> Vec2 {
    Vec2 { x: START_X, y: START_Y }
}

/// Everything the game keeps from one frame to the next.
#[derive(Debug, Clone)]
pub struct GameState {
    pub grid: Grid,
    pub blood_on_boots: BloodLevel,
    pub facing: Direction,
    pub inventory: Item,
    /// The first frame at which the player may step again.
    pub disable_move_until: usize,
    pub last_frame_directions: DirectionSet,
    /// Where the player stands; the grid marks the same cell.
    pub character_position: Vec2,
}

/// The game state with the grid seen as columns of tiles.
pub struct GameView {
    pub cells: Seq<Seq<Tile>>,
    pub blood_on_boots: BloodLevel,
    pub facing: Direction,
    pub inventory: Item,
    pub disable_move_until: usize,
    pub last_frame_directions: DirectionSet,
    pub character_position: Vec2,
}

impl View for GameState {
    type V = GameView;

    open spec fn view(&self) -> GameView {
        GameView {
            cells: self.grid@,
            blood_on_boots: self.blood_on_boots,
            facing: self.facing,
            inventory: self.inventory,
            disable_move_until: self.disable_move_until,
            last_frame_directions: self.last_frame_directions,
            character_position: self.character_position,
        }
    }
}

/// The buttons held down in one frame, and the frame's number.
#[derive(Debug, Clone, Copy, PartialEq, Eq, Structural)]
pub struct FrameInput {
    pub up: bool,
    pub down: bool,
    pub left: bool,
    pub right: bool,
    /// Interact with what is in front of the player.
    pub a: bool,
    /// Put the carried item down in front of the player.
    pub b: bool,
    pub tick: usize,
}

impl FrameInput {
    pub open spec fn arrows(self) -> DirectionSet {
        DirectionSet { up: self.up, down: self.down, left: self.left, right: self.right }
    }
}

/// The direction the player moves in, given the arrows held down: with one
/// arrow, its direction; with several, the first (up, down, left, right) that
/// was not held in the last frame, else the way the player faces already.
pub open spec fn chosen_direction(
    pressed: DirectionSet,
    last_frame: DirectionSet,
    facing: Direction,
) -> Option<Direction> {
    if pressed.size() >= 2 {
        match pressed.minus(last_frame).first() {
            Some(d) => Some(d),
            None => Some(facing),
        }
    } else if pressed.size() == 1 {
        pressed.first()
    } else {
        None
    }
}

/// `a + b`, or `usize::MAX` where that is larger.
pub open spec fn saturating_sum(a: usize, b: usize) -> usize {
    if a + b <= usize::MAX {
        (a + b) as usize
    } else {
        usize::MAX
    }
}

impl GameView {
    pub open spec fn in_grid(self, p: Vec2) -> bool {
        has_cell(self.cells, p)
    }

    pub open spec fn at(self, p: Vec2) -> Tile {
        self.cells[p.x as int][p.y as int]
    }

    pub open spec fn with_tile(self, p: Vec2, t: Tile) -> GameView {
        GameView { cells: with_cell(self.cells, p, t), ..self }
    }

    pub open spec fn with_item(self, p: Vec2, item: Item) -> GameView {
        self.with_tile(p, Tile { item, ..self.at(p) })
    }

    /// The cell the player faces, if its coordinates exist.
    pub open spec fn front(self) -> Option<Vec2> {
        self.character_position.spec_checked_add(self.facing.step())
    }

    /// Whether the player may step onto a cell: it must exist, and hold no
    /// wall, wall furniture or collidable item.
    pub open spec fn enterable(self, p: Vec2) -> bool {
        &&& self.in_grid(p)
        &&& !(self.at(p).background is Wall)
        &&& !(self.at(p).furniture is Wall)
        &&& !self.at(p).item.spec_collidable()
    }

    /// The player turns to `d` and steps one cell that way where the cell can
    /// be entered. A body soaks the cell and the boots; bloody boots then
    /// leave one unit on the cell where it has room.
    pub open spec fn moved(self, d: Direction) -> GameView {
        let turned = GameView { facing: d, ..self };
        match self.character_position.spec_checked_add(d.step()) {
            Some(p) => if self.enterable(p) {
                let t = self.at(p);
                let soaked = t.item is Body;
                let floor = if soaked { BloodLevel::Venti } else { t.blood_level };
                let boots = if soaked { BloodLevel::Venti } else { self.blood_on_boots };
                let drains = boots != BloodLevel::Clean && floor.amount() < MAX_BLOOD;
                let floor = if drains { floor.raised() } else { floor };
                let boots = if drains { boots.lowered() } else { boots };
                let left = if self.in_grid(self.character_position) {
                    with_cell(self.cells, self.character_position,
                        Tile { player: false, ..self.at(self.character_position) })
                } else {
                    self.cells
                };
                GameView {
                    cells: with_cell(left, p, Tile { player: true, blood_level: floor, ..t }),
                    blood_on_boots: boots,
                    character_position: p,
                    ..turned
                }
            } else {
                turned
            },
            None => turned,
        }
    }

    /// Works on a body at cell `p`: a press with the right tool in hand (a
    /// knife to chop, a bag to bag) counts down the body's progress; at zero
    /// the body reaches its next stage, or is gone after the last one. Each
    /// finished bagging uses up the bag and, unless the body is gone, fills
    /// a body bag on the cell below.
    pub open spec fn worked_on(self, p: Vec2, level: BodyLevel, progress: isize) -> GameView {
        let bagging = level.spec_action() == BodyAction::Bag;
        let tool = if bagging { Item::Bag } else { Item::Knife };
        if self.inventory != tool {
            self
        } else if progress > 1 {
            self.with_item(p, Item::Body(level, (progress - 1) as isize))
        } else {
            let used = if bagging { GameView { inventory: Item::Empty, ..self } } else { self };
            match level.spec_lower() {
                None => used.with_item(p, Item::Empty),
                Some(next) => {
                    let lowered = used.with_item(p, Item::Body(next, BODY_CHOPPING_TIME));
                    if bagging {
                        match p.spec_checked_add(IVec2 { x: 0, y: 1 }) {
                            Some(b) => if lowered.in_grid(b) {
                                lowered.with_item(b, Item::BodyBag)
                            } else {
                                lowered
                            },
                            None => lowered,
                        }
                    } else {
                        lowered
                    }
                },
            }
        }
    }

    /// Interacts with the item in front of the player: works on a body, picks
    /// up a portable item with empty hands, or takes a bag from a bag roll.
    pub open spec fn interacted(self) -> GameView {
        match self.front() {
            Some(p) => if self.in_grid(p) {
                match self.at(p).item {
                    Item::Empty => self,
                    Item::Body(level, progress) => self.worked_on(p, level, progress),
                    Item::BagRoll => if self.inventory == Item::Empty {
                        GameView { inventory: Item::Bag, ..self }
                    } else {
                        self
                    },
                    item => if self.inventory == Item::Empty {
                        GameView { inventory: item, ..self }.with_item(p, Item::Empty)
                    } else {
                        self
                    },
                }
            } else {
                self
            },
            None => self,
        }
    }

    /// One frame's decisions on the buttons of `input` (see
    /// `GameState::update`).
    pub open spec fn updated(self, input: FrameInput) -> GameView {
        let stepped = if self.disable_move_until <= input.tick {
            match chosen_direction(input.arrows(), self.last_frame_directions, self.facing) {
                Some(d) => GameView {
                    disable_move_until: saturating_sum(input.tick, FRAMES_BETWEEN_MOVES),
                    ..self.moved(d)
                },
                None => self,
            }
        } else {
            self
        };
        let worked = if input.a { stepped.interacted() } else { stepped };
        if input.b { worked.dropped() } else { worked }
    }

    /// Puts the carried item on the cell in front of the player, if that cell
    /// holds no item.
    pub open spec fn dropped(self) -> GameView {
        match self.front() {
            Some(p) => if self.in_grid(p) && self.at(p).item == Item::Empty {
                GameView { inventory: Item::Empty, ..self.with_item(p, self.inventory) }
            } else {
                self
            },
            None => self,
        }
    }
}

impl GameState {
    /// Turns the player to `direction` and steps that way, where the cell can
    /// be entered (see `GameView::moved`).
    pub fn move_player(&mut self, direction: Direction)
        ensures
            final(self)@ == old(self)@.moved(direction),
    {
        let previous_position = self.character_position;
        self.facing = direction;
        let new_position = match self.character_position.checked_add(IVec2::from(direction)) {
            Some(p) => p,
            None => return ,
        };
        if !self.grid.contains(new_position) {
            return ;
        }
        let mut tile = self.grid.index(new_position);
        if let TileBackground::Wall(_) = tile.background {
            return ;
        }
        if let Furniture::Wall(_) = tile.furniture {
            return ;
        }
        if tile.item.collidable() {
            return ;
        }
        self.character_position = new_position;

        if let Item::Body(_, _) = tile.item {
            tile.blood_level = BloodLevel::Venti;
            self.blood_on_boots = BloodLevel::Venti;
        }
        if self.blood_on_boots != BloodLevel::Clean {
            let some_blood_drained = tile.blood_level.increment();
            if some_blood_drained {
                self.blood_on_boots.decrement();
            }
        }
        if self.grid.contains(previous_position) {
            let mut left = self.grid.index(previous_position);
            left.player = false;
            self.grid.set(previous_position, left);
        }
        tile.player = true;
        self.grid.set(new_position, tile);
    }

    pub open spec fn spec_in_front_of_player(&self) -> Option<Vec2> {
        self@.front()
    }

    /// The cell the player faces, or `None` off the top or left edge.
    #[verifier::when_used_as_spec(spec_in_front_of_player)]
    pub fn in_front_of_player(&self) -> (p: Option<Vec2>)
        ensures
            p == self@.front(),
    {
        self.character_position.checked_add(IVec2::from(self.facing))
    }

    fn set_item(&mut self, p: Vec2, item: Item)
        requires
            old(self)@.in_grid(p),
        ensures
            final(self)@ == old(self)@.with_item(p, item),
    {
        let mut tile = self.grid.index(p);
        tile.item = item;
        self.grid.set(p, tile);
    }

    /// Interacts with the item in front of the player (see
    /// `GameView::interacted`).
    pub fn interact(&mut self)
        ensures
            final(self)@ == old(self)@.interacted(),
    {
        let in_front_of_player = match self.in_front_of_player() {
            Some(p) => p,
            None => return ,
        };
        if !self.grid.contains(in_front_of_player) {
            return ;
        }
        match self.grid.index(in_front_of_player).item {
            Item::Empty => {},
            Item::Body(level, progress) => {
                let bagging = level.action() == BodyAction::Bag;
                let tool = if bagging { Item::Bag } else { Item::Knife };
                if self.inventory != tool {
                    return ;
                }
                if progress > 1 {
                    self.set_item(in_front_of_player, Item::Body(level, progress - 1));
                    return ;
                }
                if bagging {
                    self.inventory = Item::Empty;
                }
                let new_level = match level.lower() {
                    Some(l) => l,
                    None => {
                        self.set_item(in_front_of_player, Item::Empty);
                        return ;
                    },
                };
                self.set_item(in_front_of_player, Item::Body(new_level, BODY_CHOPPING_TIME));
                if bagging {
                    if let Some(below_body) = in_front_of_player.checked_add(ivec2(0, 1)) {
                        if self.grid.contains(below_body) {
                            self.set_item(below_body, Item::BodyBag);
                        }
                    }
                }
            },
            Item::BagRoll => {
                if self.inventory != Item::Empty {
                    return ;
                }
                self.inventory = Item::Bag;
            },
            item => {
                if self.inventory != Item::Empty {
                    return ;
                }
                self.inventory = item;
                self.set_item(in_front_of_player, Item::Empty);
            },
        }
    }

    /// Puts the carried item down in front of the player (see
    /// `GameView::dropped`).
    pub fn drop(&mut self)
        ensures
            final(self)@ == old(self)@.dropped(),
    {
        let in_front_of_player = match self.in_front_of_player() {
            Some(p) => p,
            None => return ,
        };
        if !self.grid.contains(in_front_of_player) {
            return ;
        }
        if self.grid.index(in_front_of_player).item != Item::Empty {
            return ;
        }
        let carried = self.inventory;
        self.set_item(in_front_of_player, carried);
        self.inventory = Item::Empty;
    }

    /// A new game on `grid`, with the player at the start cell facing down,
    /// empty-handed and with clean boots; `None` where the grid has no start
    /// cell.
    pub fn new(grid: Grid) -> (s: Option<GameState>)
        ensures
            has_cell(grid@, start_cell()) <==> s is Some,
            s matches Some(s) ==> {
                &&& s@.cells == with_cell(grid@, start_cell(),
                    Tile { player: true, ..grid@[START_X as int][START_Y as int] })
                &&& s@.character_position == start_cell()
                &&& s@.facing == Direction::Down
                &&& s@.inventory == Item::Empty
                &&& s@.blood_on_boots == BloodLevel::Clean
                &&& s@.disable_move_until == 0
                &&& s@.last_frame_directions == DirectionSet::empty_set()
            },
    {
        let mut grid = grid;
        let character_position = vec2(START_X, START_Y);
        if !grid.contains(character_position) {
            return None;
        }
        let mut start = grid.index(character_position);
        start.player = true;
        grid.set(character_position, start);
        Some(
            GameState {
                grid,
                inventory: Item::Empty,
                blood_on_boots: BloodLevel::Clean,
                facing: Direction::Down,
                character_position,
                disable_move_until: 0,
                last_frame_directions: DirectionSet::empty(),
            },
        )
    }

    /// Runs one frame's decisions: a step where the player may move and an
    /// arrow is held (which then holds further steps back for
    /// `FRAMES_BETWEEN_MOVES` frames), then an interaction where `a` is held,
    /// then a drop where `b` is held.
    pub fn update(&mut self, input: &FrameInput)
        ensures
            final(self)@ == old(self)@.updated(*input),
    {
        if self.disable_move_until <= input.tick {
            let pressed = DirectionSet {
                up: input.up,
                down: input.down,
                left: input.left,
                right: input.right,
            };
            let direction = if pressed.len() >= 2 {
                let difference = pressed.difference(&self.last_frame_directions);
                match difference.first_direction() {
                    Some(d) => Some(d),
                    None => Some(self.facing),
                }
            } else if pressed.len() == 1 {
                pressed.first_direction()
            } else {
                None
            };
            if let Some(direction) = direction {
                self.move_player(direction);
                self.disable_move_until = input.tick.saturating_add(FRAMES_BETWEEN_MOVES);
            }
        }
        if input.a {
            self.interact();
        }
        if input.b {
            self.drop();
        }
    }
}

/// Whether the grid marks the player at `character_position`, and nowhere
/// else.
pub open spec fn player_placed(s: GameView) -> bool {
    &&& s.in_grid(s.character_position)
    &&& forall|x: int, y: int|
        0 <= x < s.cells.len() && 0 <= y < s.cells[x].len() ==> (#[trigger] s.cells[x][y]).player
            == (x == s.character_position.x && y == s.character_position.y)
}

/// Replacing the item of a cell leaves every player mark where it was.
proof fn lemma_with_item_keeps_player(s: GameView, p: Vec2, item: Item)
    requires
        player_placed(s),
        s.in_grid(p),
    ensures
        player_placed(s.with_item(p, item)),
{
    let t = s.with_item(p, item);
    assert forall|x: int, y: int| 0 <= x < t.cells.len() && 0 <= y < t.cells[x].len() implies (
    #[trigger] t.cells[x][y]).player == (x == t.character_position.x && y
        == t.character_position.y) by {
        assert(s.cells[x][y].player == t.cells[x][y].player);
    }
}

/// A step keeps the grid's player mark on the player's cell, and on it alone.
pub proof fn lemma_move_keeps_player_placed(s: GameView, d: Direction)
    requires
        player_placed(s),
    ensures
        player_placed(s.moved(d)),
{
    let m = s.moved(d);
    if let Some(p) = s.character_position.spec_checked_add(d.step()) {
        if s.enterable(p) {
            let c = s.character_position;
            assert forall|x: int, y: int|
                0 <= x < m.cells.len() && 0 <= y < m.cells[x].len() implies (
            #[trigger] m.cells[x][y]).player == (x == p.x && y == p.y) by {
                if x == p.x && y == p.y {
                } else if x == c.x && y == c.y {
                } else {
                    assert(m.cells[x][y] == s.cells[x][y]);
                }
            }
        }
    }
}

/// Interacting never moves the player nor the grid's mark of the player.
pub proof fn lemma_interact_keeps_player_placed(s: GameView)
    requires
        player_placed(s),
    ensures
        player_placed(s.interacted()),
{
    if let Some(p) = s.front() {
        if s.in_grid(p) {
            match s.at(p).item {
                Item::Body(level, progress) => {
                    let bagging = level.spec_action() == BodyAction::Bag;
                    let used = if bagging {
                        GameView { inventory: Item::Empty, ..s }
                    } else {
                        s
                    };
                    lemma_with_item_keeps_player(s, p, Item::Body(level, (progress - 1) as isize));
                    lemma_with_item_keeps_player(used, p, Item::Empty);
                    if let Some(next) = level.spec_lower() {
                        let lowered = used.with_item(p, Item::Body(next, BODY_CHOPPING_TIME));
                        lemma_with_item_keeps_player(used, p, Item::Body(next, BODY_CHOPPING_TIME));
                        if let Some(b) = p.spec_checked_add(IVec2 { x: 0, y: 1 }) {
                            if lowered.in_grid(b) {
                                lemma_with_item_keeps_player(lowered, b, Item::BodyBag);
                            }
                        }
                    }
                },
                Item::Empty => {},
                Item::BagRoll => {},
                item => {
                    lemma_with_item_keeps_player(GameView { inventory: item, ..s }, p, Item::Empty);
                },
            }
        }
    }
}

/// Putting an item down never moves the grid's mark of the player.
pub proof fn lemma_drop_keeps_player_placed(s: GameView)
    requires
        player_placed(s),
    ensures
        player_placed(s.dropped()),
{
    if let Some(p) = s.front() {
        if s.in_grid(p) {
            lemma_with_item_keeps_player(s, p, s.inventory);
        }
    }
}

/// A whole frame keeps the grid's player mark on the player's cell alone.
pub proof fn lemma_update_keeps_player_placed(s: GameView, input: FrameInput)
    requires
        player_placed(s),
    ensures
        player_placed(s.updated(input)),
{
    if let Some(d) = chosen_direction(input.arrows(), s.last_frame_directions, s.facing) {
        lemma_move_keeps_player_placed(s, d);
    }
    let stepped = if s.disable_move_until <= input.tick {
        match chosen_direction(input.arrows(), s.last_frame_directions, s.facing) {
            Some(d) => GameView {
                disable_move_until: saturating_sum(input.tick, FRAMES_BETWEEN_MOVES),
                ..s.moved(d)
            },
            None => s,
        }
    } else {
        s
    };
    lemma_interact_keeps_player_placed(stepped);
    let worked = if input.a { stepped.interacted() } else { stepped };
    lemma_drop_keeps_player_placed(worked);
}

/// A new game marks the player on its start cell alone, where the grid it
/// starts from marks no player.
pub proof fn lemma_new_game_places_player(grid: Seq<Seq<Tile>>, s: GameView)
    requires
        has_cell(grid, start_cell()),
        forall|x: int, y: int|
            0 <= x < grid.len() && 0 <= y < grid[x].len() ==> !(#[trigger] grid[x][y]).player,
        s.cells == with_cell(grid, start_cell(), Tile { player: true, ..grid[START_X as int][START_Y as int] }),
        s.character_position == start_cell(),
    ensures
        player_placed(s),
{
    assert forall|x: int, y: int| 0 <= x < s.cells.len() && 0 <= y < s.cells[x].len() implies (
    #[trigger] s.cells[x][y]).player == (x == START_X && y == START_Y) by {
        if x == START_X && y == START_Y {
        } else {
            assert(s.cells[x][y] == grid[x][y]);
        }
    }
}

/// Putting a portable item down on an empty cell and picking it up again
/// leaves the game as it was.
pub proof fn lemma_drop_then_pick_up(s: GameView)
    requires
        s.front() is Some,
        s.in_grid(s.front()->0),
        s.at(s.front()->0).item == Item::Empty,
        s.inventory.portable(),
    ensures
        s.dropped().interacted() == s,
{
    let p = s.front()->0;
    let d = s.dropped();
    assert(d.at(p).item == s.inventory);
    let back = d.interacted();
    assert(back.cells[p.x as int] =~= s.cells[p.x as int]);
    assert(back.cells =~= s.cells);
}

/// On a step onto a cell without a body, the blood that leaves the boots is
/// the blood that the entered cell gains.
pub proof fn lemma_step_keeps_blood(s: GameView, d: Direction)
    requires
        s.character_position.spec_checked_add(d.step()) is Some,
        s.enterable(s.character_position.spec_checked_add(d.step())->0),
        !(s.at(s.character_position.spec_checked_add(d.step())->0).item is Body),
    ensures
        ({
            let p = s.character_position.spec_checked_add(d.step())->0;
            let m = s.moved(d);
            m.blood_on_boots.amount() + m.at(p).blood_level.amount() == s.blood_on_boots.amount()
                + s.at(p).blood_level.amount()
        }),
{
}

} // verus!
