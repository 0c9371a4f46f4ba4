use cleaners::geometry::{ivec2, vec2, Direction, DirectionSet, IVec2, Vec2};
use cleaners::grid::{Furniture, Grid, Tile, TileBackground};
use cleaners::items::{BloodLevel, BodyAction, BodyLevel, Item, Parity, BODY_CHOPPING_TIME};
use cleaners::state::{FrameInput, GameState, FRAMES_BETWEEN_MOVES};

fn floor() -> Tile {
    Tile {
        background: TileBackground::Floor(vec2(1, 1)),
        item: Item::Empty,
        furniture: Furniture::Empty,
        player: false,
        blood_level: BloodLevel::Clean,
    }
}

fn wall() -> Tile {
    Tile { background: TileBackground::Wall(vec2(2, 1)), ..floor() }
}

/// A 9 by 9 room: walls on the border, floor inside.
fn room() -> Vec<Vec<Tile>> {
    (0..9)
        .map(|x| {
            (0..9)
                .map(|y| if x == 0 || y == 0 || x == 8 || y == 8 { wall() } else { floor() })
                .collect()
        })
        .collect()
}

fn game_with(edit: impl Fn(&mut Vec<Vec<Tile>>)) -> GameState {
    let mut columns = room();
    edit(&mut columns);
    GameState::new(Grid::new(columns)).expect("the room has the start cell")
}

fn players(s: &GameState) -> Vec<(usize, usize)> {
    let mut found = Vec::new();
    for (x, column) in s.grid.columns.iter().enumerate() {
        for (y, t) in column.iter().enumerate() {
            if t.player {
                found.push((x, y));
            }
        }
    }
    found
}

fn no_buttons(tick: usize) -> FrameInput {
    FrameInput { up: false, down: false, left: false, right: false, a: false, b: false, tick }
}

#[test]
fn blood_increment_stops_at_venti() {
    let mut b = BloodLevel::Clean;
    assert!(b.increment());
    assert_eq!(b, BloodLevel::Tall);
    assert!(b.increment());
    assert_eq!(b, BloodLevel::Grande);
    assert!(b.increment());
    assert_eq!(b, BloodLevel::Venti);
    assert!(!b.increment());
    assert_eq!(b, BloodLevel::Venti);
}

#[test]
fn blood_decrement_stops_at_clean() {
    let mut b = BloodLevel::Venti;
    assert!(b.decrement());
    assert_eq!(b, BloodLevel::Grande);
    assert!(b.decrement());
    assert_eq!(b, BloodLevel::Tall);
    assert!(b.decrement());
    assert_eq!(b, BloodLevel::Clean);
    assert!(!b.decrement());
    assert_eq!(b, BloodLevel::Clean);
}

#[test]
fn body_stages_and_actions() {
    assert_eq!(BodyLevel::Start.lower(), Some(BodyLevel::One));
    assert_eq!(BodyLevel::Three.lower(), Some(BodyLevel::Four));
    assert_eq!(BodyLevel::Six.lower(), Some(BodyLevel::Seven));
    assert_eq!(BodyLevel::Seven.lower(), None);
    assert_eq!(BodyLevel::Start.action(), BodyAction::Chop);
    assert_eq!(BodyLevel::Three.action(), BodyAction::Chop);
    assert_eq!(BodyLevel::Four.action(), BodyAction::Bag);
    assert_eq!(BodyLevel::Seven.action(), BodyAction::Bag);
}

#[test]
fn only_body_bags_collide() {
    assert!(Item::BodyBag.collidable());
    for item in [
        Item::Empty,
        Item::Body(BodyLevel::Start, 3),
        Item::Knife,
        Item::Sponge,
        Item::Bleach,
        Item::Bag,
        Item::BagRoll,
    ] {
        assert!(!item.collidable());
    }
}

#[test]
fn parity_of_numbers() {
    assert_eq!(Parity::from(0u32), Parity::Even);
    assert_eq!(Parity::from(7u32), Parity::Odd);
    assert_eq!(Parity::from(u32::MAX), Parity::Odd);
}

#[test]
fn direction_steps() {
    assert_eq!(IVec2::from(Direction::Up), ivec2(0, -1));
    assert_eq!(IVec2::from(Direction::Down), ivec2(0, 1));
    assert_eq!(IVec2::from(Direction::Left), ivec2(-1, 0));
    assert_eq!(IVec2::from(Direction::Right), ivec2(1, 0));
}

#[test]
fn checked_add_stays_in_range() {
    assert_eq!(vec2(3, 4).checked_add(ivec2(-1, 2)), Some(vec2(2, 6)));
    assert_eq!(vec2(0, 4).checked_add(ivec2(-1, 0)), None);
    assert_eq!(vec2(usize::MAX, 0).checked_add(ivec2(1, 0)), None);
    assert_eq!(vec2(5, 5).checked_add(ivec2(isize::MIN, 0)), None);
    assert_eq!(vec2(usize::MAX, 0).checked_add(ivec2(isize::MIN, 0)), Some(vec2(usize::MAX - (1usize << 63), 0)));
}

#[test]
fn new_game_needs_start_cell() {
    assert!(GameState::new(Grid::new(vec![vec![floor(); 3]; 3])).is_none());
    let s = game_with(|_| {});
    assert_eq!(s.character_position, vec2(5, 5));
    assert_eq!(s.facing, Direction::Down);
    assert_eq!(s.inventory, Item::Empty);
    assert_eq!(s.blood_on_boots, BloodLevel::Clean);
    assert_eq!(s.disable_move_until, 0);
    assert_eq!(players(&s), vec![(5, 5)]);
}

#[test]
fn moving_steps_and_moves_player_mark() {
    let mut s = game_with(|_| {});
    s.move_player(Direction::Left);
    assert_eq!(s.character_position, vec2(4, 5));
    assert_eq!(s.facing, Direction::Left);
    assert_eq!(players(&s), vec![(4, 5)]);
}

#[test]
fn walls_and_body_bags_block() {
    let mut s = game_with(|c| {
        c[6][5] = wall();
        c[5][6].furniture = Furniture::Wall(vec2(3, 3));
        c[5][4].item = Item::BodyBag;
    });
    s.move_player(Direction::Right);
    assert_eq!(s.character_position, vec2(5, 5));
    assert_eq!(s.facing, Direction::Right);
    s.move_player(Direction::Down);
    assert_eq!(s.character_position, vec2(5, 5));
    s.move_player(Direction::Up);
    assert_eq!(s.character_position, vec2(5, 5));
    assert_eq!(s.facing, Direction::Up);
    assert_eq!(players(&s), vec![(5, 5)]);
}

#[test]
fn floor_furniture_does_not_block() {
    let mut s = game_with(|c| c[6][5].furniture = Furniture::Floor(vec2(3, 3)));
    s.move_player(Direction::Right);
    assert_eq!(s.character_position, vec2(6, 5));
}

#[test]
fn stepping_off_the_grid_only_turns() {
    let mut columns = vec![vec![floor(); 6]; 6];
    columns[5][5] = floor();
    let mut s = GameState::new(Grid::new(columns)).unwrap();
    s.move_player(Direction::Right);
    assert_eq!(s.character_position, vec2(5, 5));
    assert_eq!(s.facing, Direction::Right);
}

#[test]
fn body_soaks_boots_and_cell() {
    let mut s = game_with(|c| c[5][6].item = Item::Body(BodyLevel::Start, BODY_CHOPPING_TIME));
    s.move_player(Direction::Down);
    assert_eq!(s.character_position, vec2(5, 6));
    assert_eq!(s.grid.columns[5][6].blood_level, BloodLevel::Venti);
    assert_eq!(s.blood_on_boots, BloodLevel::Venti);
    s.move_player(Direction::Down);
    assert_eq!(s.grid.columns[5][7].blood_level, BloodLevel::Tall);
    assert_eq!(s.blood_on_boots, BloodLevel::Grande);
    s.move_player(Direction::Up);
    assert_eq!(s.grid.columns[5][6].blood_level, BloodLevel::Venti);
    assert_eq!(s.blood_on_boots, BloodLevel::Venti);
}

#[test]
fn bloody_boots_leave_tracks_until_dry() {
    let mut s = game_with(|_| {});
    s.blood_on_boots = BloodLevel::Grande;
    s.move_player(Direction::Left);
    assert_eq!(s.grid.columns[4][5].blood_level, BloodLevel::Tall);
    assert_eq!(s.blood_on_boots, BloodLevel::Tall);
    s.move_player(Direction::Left);
    assert_eq!(s.grid.columns[3][5].blood_level, BloodLevel::Tall);
    assert_eq!(s.blood_on_boots, BloodLevel::Clean);
    s.move_player(Direction::Left);
    assert_eq!(s.grid.columns[2][5].blood_level, BloodLevel::Clean);
    assert_eq!(s.blood_on_boots, BloodLevel::Clean);
}

#[test]
fn full_cell_takes_no_more_blood() {
    let mut s = game_with(|c| c[4][5].blood_level = BloodLevel::Venti);
    s.blood_on_boots = BloodLevel::Tall;
    s.move_player(Direction::Left);
    assert_eq!(s.grid.columns[4][5].blood_level, BloodLevel::Venti);
    assert_eq!(s.blood_on_boots, BloodLevel::Tall);
}

#[test]
fn in_front_of_player_follows_facing() {
    let mut s = game_with(|_| {});
    assert_eq!(s.in_front_of_player(), Some(vec2(5, 6)));
    s.facing = Direction::Left;
    assert_eq!(s.in_front_of_player(), Some(vec2(4, 5)));
    s.character_position = vec2(0, 0);
    assert_eq!(s.in_front_of_player(), None);
}

#[test]
fn picking_up_needs_empty_hands() {
    let mut s = game_with(|c| c[5][6].item = Item::Knife);
    s.interact();
    assert_eq!(s.inventory, Item::Knife);
    assert_eq!(s.grid.columns[5][6].item, Item::Empty);
    let mut s = game_with(|c| c[5][6].item = Item::Sponge);
    s.inventory = Item::Bleach;
    s.interact();
    assert_eq!(s.inventory, Item::Bleach);
    assert_eq!(s.grid.columns[5][6].item, Item::Sponge);
}

#[test]
fn body_bag_can_be_picked_up() {
    let mut s = game_with(|c| c[5][6].item = Item::BodyBag);
    s.interact();
    assert_eq!(s.inventory, Item::BodyBag);
    assert_eq!(s.grid.columns[5][6].item, Item::Empty);
}

#[test]
fn bag_roll_hands_out_bags() {
    let mut s = game_with(|c| c[5][6].item = Item::BagRoll);
    s.interact();
    assert_eq!(s.inventory, Item::Bag);
    assert_eq!(s.grid.columns[5][6].item, Item::BagRoll);
    s.inventory = Item::Knife;
    s.interact();
    assert_eq!(s.inventory, Item::Knife);
}

#[test]
fn chopping_needs_a_knife() {
    let mut s = game_with(|c| c[5][6].item = Item::Body(BodyLevel::Start, 5));
    s.interact();
    assert_eq!(s.grid.columns[5][6].item, Item::Body(BodyLevel::Start, 5));
    s.inventory = Item::Bag;
    s.interact();
    assert_eq!(s.grid.columns[5][6].item, Item::Body(BodyLevel::Start, 5));
    s.inventory = Item::Knife;
    s.interact();
    assert_eq!(s.grid.columns[5][6].item, Item::Body(BodyLevel::Start, 4));
}

#[test]
fn chopping_through_a_stage() {
    let mut s = game_with(|c| c[5][6].item = Item::Body(BodyLevel::Two, 2));
    s.inventory = Item::Knife;
    s.interact();
    assert_eq!(s.grid.columns[5][6].item, Item::Body(BodyLevel::Two, 1));
    s.interact();
    assert_eq!(s.grid.columns[5][6].item, Item::Body(BodyLevel::Three, BODY_CHOPPING_TIME));
    assert_eq!(s.inventory, Item::Knife);
    assert_eq!(s.grid.columns[5][7].item, Item::Empty);
}

#[test]
fn chopping_a_full_body_takes_a_hundred_presses() {
    let mut s = game_with(|c| c[5][6].item = Item::Body(BodyLevel::Start, BODY_CHOPPING_TIME));
    s.inventory = Item::Knife;
    for _ in 0..99 {
        s.interact();
    }
    assert_eq!(s.grid.columns[5][6].item, Item::Body(BodyLevel::Start, 1));
    s.interact();
    assert_eq!(s.grid.columns[5][6].item, Item::Body(BodyLevel::One, BODY_CHOPPING_TIME));
}

#[test]
fn bagging_uses_the_bag_and_fills_a_body_bag_below() {
    let mut s = game_with(|c| c[5][6].item = Item::Body(BodyLevel::Four, 1));
    s.inventory = Item::Knife;
    s.interact();
    assert_eq!(s.grid.columns[5][6].item, Item::Body(BodyLevel::Four, 1));
    s.inventory = Item::Bag;
    s.interact();
    assert_eq!(s.inventory, Item::Empty);
    assert_eq!(s.grid.columns[5][6].item, Item::Body(BodyLevel::Five, BODY_CHOPPING_TIME));
    assert_eq!(s.grid.columns[5][7].item, Item::BodyBag);
}

#[test]
fn bagging_counts_down_with_a_bag() {
    let mut s = game_with(|c| c[5][6].item = Item::Body(BodyLevel::Six, 10));
    s.inventory = Item::Bag;
    s.interact();
    assert_eq!(s.inventory, Item::Bag);
    assert_eq!(s.grid.columns[5][6].item, Item::Body(BodyLevel::Six, 9));
}

#[test]
fn last_bag_removes_the_body() {
    let mut s = game_with(|c| c[5][6].item = Item::Body(BodyLevel::Seven, 1));
    s.inventory = Item::Bag;
    s.interact();
    assert_eq!(s.inventory, Item::Empty);
    assert_eq!(s.grid.columns[5][6].item, Item::Empty);
    assert_eq!(s.grid.columns[5][7].item, Item::Empty);
}

#[test]
fn body_bag_below_the_grid_is_skipped() {
    let mut columns = vec![vec![floor(); 7]; 7];
    columns[5][6].item = Item::Body(BodyLevel::Five, 1);
    let mut s = GameState::new(Grid::new(columns)).unwrap();
    s.inventory = Item::Bag;
    s.interact();
    assert_eq!(s.grid.columns[5][6].item, Item::Body(BodyLevel::Six, BODY_CHOPPING_TIME));
    assert_eq!(s.inventory, Item::Empty);
}

#[test]
fn drop_puts_item_on_empty_cell_only() {
    let mut s = game_with(|_| {});
    s.inventory = Item::Sponge;
    s.drop();
    assert_eq!(s.inventory, Item::Empty);
    assert_eq!(s.grid.columns[5][6].item, Item::Sponge);
    let mut s = game_with(|c| c[5][6].item = Item::Knife);
    s.inventory = Item::Bleach;
    s.drop();
    assert_eq!(s.inventory, Item::Bleach);
    assert_eq!(s.grid.columns[5][6].item, Item::Knife);
}

#[test]
fn drop_then_pick_up_restores_the_game() {
    for item in [Item::Knife, Item::Sponge, Item::Bleach, Item::Bag, Item::BodyBag] {
        let start = game_with(|_| {});
        let mut s = start.clone();
        s.inventory = item;
        let before = s.clone();
        s.drop();
        s.interact();
        assert_eq!(s.inventory, before.inventory);
        assert_eq!(s.grid.columns, before.grid.columns);
    }
}

#[test]
fn update_moves_once_then_waits() {
    let mut s = game_with(|_| {});
    let mut input = no_buttons(10);
    input.right = true;
    s.update(&input);
    assert_eq!(s.character_position, vec2(6, 5));
    assert_eq!(s.disable_move_until, 10 + FRAMES_BETWEEN_MOVES);
    input.tick = 11;
    s.update(&input);
    assert_eq!(s.character_position, vec2(6, 5));
    input.tick = 26;
    s.update(&input);
    assert_eq!(s.character_position, vec2(7, 5));
    assert_eq!(s.disable_move_until, 42);
}

#[test]
fn update_with_no_arrows_does_not_move() {
    let mut s = game_with(|_| {});
    s.update(&no_buttons(3));
    assert_eq!(s.character_position, vec2(5, 5));
    assert_eq!(s.disable_move_until, 0);
}

#[test]
fn update_with_two_arrows_takes_a_new_one() {
    let mut s = game_with(|_| {});
    let mut input = no_buttons(0);
    input.left = true;
    input.up = true;
    s.update(&input);
    assert_eq!(s.character_position, vec2(5, 4));
    assert_eq!(s.facing, Direction::Up);

    let mut s = game_with(|_| {});
    s.last_frame_directions = DirectionSet { up: true, down: false, left: false, right: false };
    s.update(&input);
    assert_eq!(s.character_position, vec2(4, 5));
    assert_eq!(s.facing, Direction::Left);

    let mut s = game_with(|_| {});
    s.last_frame_directions = DirectionSet { up: true, down: false, left: true, right: false };
    s.update(&input);
    assert_eq!(s.facing, Direction::Down);
    assert_eq!(s.character_position, vec2(5, 6));
}

#[test]
fn update_saturates_the_move_delay() {
    let mut s = game_with(|_| {});
    let mut input = no_buttons(usize::MAX - 3);
    input.down = true;
    s.update(&input);
    assert_eq!(s.character_position, vec2(5, 6));
    assert_eq!(s.disable_move_until, usize::MAX);
}

#[test]
fn update_interacts_then_drops() {
    let mut s = game_with(|c| c[5][6].item = Item::Knife);
    let mut input = no_buttons(0);
    input.a = true;
    s.update(&input);
    assert_eq!(s.inventory, Item::Knife);
    let mut input = no_buttons(1);
    input.a = true;
    input.b = true;
    s.inventory = Item::Empty;
    s.grid.columns[5][6].item = Item::Sponge;
    s.update(&input);
    assert_eq!(s.inventory, Item::Empty);
    assert_eq!(s.grid.columns[5][6].item, Item::Sponge);
}

#[test]
fn player_mark_follows_a_walk() {
    let mut s = game_with(|c| c[3][5].item = Item::Body(BodyLevel::Start, 3));
    let moves = [Direction::Left, Direction::Left, Direction::Up, Direction::Up, Direction::Up, Direction::Up, Direction::Up, Direction::Right];
    for d in moves {
        s.move_player(d);
        s.interact();
        s.drop();
        let p = s.character_position;
        assert_eq!(players(&s), vec![(p.x, p.y)]);
    }
    assert_eq!(s.character_position, vec2(4, 1));
}

#[test]
fn vec2_default_is_origin() {
    assert_eq!(Vec2::default(), vec2(0, 0));
}
