use vstd::prelude::*;
use crate::geometry::Vec2;
use crate::items::BloodLevel;
use crate::level::{Item, Tile, TileBackground, cells_of};
use crate::text::{decimal, decimal_string, join, joined};

verus! {

/// A wall or floor layer as source text.
pub open spec fn layer_text(b: TileBackground) -> Seq<char> {
    let (kind, s) = match b {
        TileBackground::Wall(s) => ("Wall(vec2("@, s),
        TileBackground::Floor(s) => ("Floor(vec2("@, s),
        TileBackground::Unset => ("None"@, Vec2 { x: 0, y: 0 }),
    };
    if b is Unset {
        kind
    } else {
        kind + decimal(s.x as nat) + ", "@ + decimal(s.y as nat) + "))"@
    }
}

pub open spec fn item_text(i: Item) -> Seq<char> {
    match i {
        Item::Empty => "None"@,
        Item::Bleach => "Bleach"@,
        Item::Knife => "Knife"@,
        Item::Sponge => "Sponge"@,
        Item::BagRoll => "BagRoll"@,
        Item::BodyBag => "BodyBag"@,
        Item::Bag => "Bag"@,
        Item::Body => "Body(BodyLevel::Start, BODY_CHOPPING_TIME)"@,
    }
}

pub open spec fn blood_text(b: BloodLevel) -> Seq<char> {
    match b {
        BloodLevel::Clean => "None"@,
        BloodLevel::Tall => "Tall(CLEANING_TIME)"@,
        BloodLevel::Grande => "Grande(CLEANING_TIME)"@,
        BloodLevel::Venti => "Venti(CLEANING_TIME)"@,
    }
}

pub open spec fn bool_text(b: bool) -> Seq<char> {
    if b {
        "true"@
    } else {
        "false"@
    }
}

/// A cell as the source text of a tile value.
pub open spec fn tile_text(t: Tile) -> Seq<char> {
    "Tile {\n                    background: TileBackground::"@ + layer_text(t.background)
        + ",\n                    furniture: Furniture::"@ + layer_text(t.furniture)
        + ",\n                    item: Item::"@ + item_text(t.item)
        + ",\n                    player: false,\n                    blood_level: BloodLevel::"@
        + blood_text(t.blood_level) + ",\n                    drop_point: "@ + bool_text(
        t.drop_point,
    ) + ",\n                }"@
}

/// A column as the source text of a vector of tiles.
pub open spec fn column_text(c: Seq<Tile>) -> Seq<char> {
    "vec!["@ + joined(c.map_values(|t: Tile| tile_text(t)), ","@) + "]"@
}

/// The source text of a module whose function `create_level_<level>`
/// returns the columns.
pub open spec fn level_text(cells: Seq<Seq<Tile>>, level: nat) -> Seq<char> {
    "\nuse crate::{Tile, TileBackground, Item, vec2, BloodLevel, BodyLevel, BODY_CHOPPING_TIME, Furniture, CLEANING_TIME};\n        \npub fn create_level_"@
        + decimal(level) + "() -> Vec<Vec<Tile>> {\n    vec![\n        "@ + joined(
        cells.map_values(|c: Seq<Tile>| column_text(c)),
        ","@,
    ) + "\n    ]\n}\n"@
}

/// Whether cell (`x`, `y`) comes before cell `p` when the cells are taken
/// column by column, each top to bottom.
pub open spec fn before(x: int, y: int, p: Vec2) -> bool {
    x < p.x || (x == p.x && y < p.y)
}

fn write_layer(b: TileBackground) -> (s: String)
    ensures
        s@ == layer_text(b),
{
    match b {
        TileBackground::Unset => String::from_str("None"),
        TileBackground::Wall(sprite) => {
            let mut s = String::from_str("Wall(vec2(");
            s.append(decimal_string(sprite.x).as_str());
            s.append(", ");
            s.append(decimal_string(sprite.y).as_str());
            s.append("))");
            s
        },
        TileBackground::Floor(sprite) => {
            let mut s = String::from_str("Floor(vec2(");
            s.append(decimal_string(sprite.x).as_str());
            s.append(", ");
            s.append(decimal_string(sprite.y).as_str());
            s.append("))");
            s
        },
    }
}

fn item_word(i: Item) -> (s: &'static str)
    ensures
        s@ == item_text(i),
{
    match i {
        Item::Empty => "None",
        Item::Bleach => "Bleach",
        Item::Knife => "Knife",
        Item::Sponge => "Sponge",
        Item::BagRoll => "BagRoll",
        Item::BodyBag => "BodyBag",
        Item::Bag => "Bag",
        Item::Body => "Body(BodyLevel::Start, BODY_CHOPPING_TIME)",
    }
}

fn blood_word(b: BloodLevel) -> (s: &'static str)
    ensures
        s@ == blood_text(b),
{
    match b {
        BloodLevel::Clean => "None",
        BloodLevel::Tall => "Tall(CLEANING_TIME)",
        BloodLevel::Grande => "Grande(CLEANING_TIME)",
        BloodLevel::Venti => "Venti(CLEANING_TIME)",
    }
}

/// The source text of a tile value (see `tile_text`).
pub fn write_tile(t: Tile) -> (s: String)
    ensures
        s@ == tile_text(t),
{
    let mut s = String::from_str("Tile {\n                    background: TileBackground::");
    s.append(write_layer(t.background).as_str());
    s.append(",\n                    furniture: Furniture::");
    s.append(write_layer(t.furniture).as_str());
    s.append(",\n                    item: Item::");
    s.append(item_word(t.item));
    s.append(",\n                    player: false,\n                    blood_level: BloodLevel::");
    s.append(blood_word(t.blood_level));
    s.append(",\n                    drop_point: ");
    s.append(if t.drop_point { "true" } else { "false" });
    s.append(",\n                }");
    s
}

/// The source text of a module that builds the columns `tiles` as level
/// `level` (see `level_text`). Every cell needs a ground: the error is the
/// first cell without one, taking the cells column by column, each top to
/// bottom.
pub fn tiles_file(tiles: &Vec<Vec<Tile>>, level: usize) -> (r: Result<String, Vec2>)
    ensures
        r is Ok <==> forall|x: int, y: int|
            0 <= x < tiles@.len() && 0 <= y < tiles@[x]@.len() ==> (#[trigger] tiles@[x]@[y]).background !is Unset,
        r matches Ok(s) ==> s@ == level_text(cells_of(tiles@), level as nat),
        r matches Err(p) ==> {
            &&& p.x < tiles@.len() && p.y < tiles@[p.x as int]@.len()
            &&& tiles@[p.x as int]@[p.y as int].background is Unset
            &&& forall|x: int, y: int|
                0 <= x < tiles@.len() && 0 <= y < tiles@[x]@.len() && before(x, y, p) ==> (#[trigger] tiles@[x]@[y]).background !is Unset
        },
{
    let ghost cells = cells_of(tiles@);
    let mut columns: Vec<String> = Vec::new();
    let mut x: usize = 0;
    while x < tiles.len()
        invariant
            0 <= x <= tiles@.len(),
            cells == cells_of(tiles@),
            columns@.len() == x,
            forall|i: int| 0 <= i < x ==> (#[trigger] columns@[i])@ == column_text(cells[i]),
            forall|i: int, j: int|
                0 <= i < x && 0 <= j < tiles@[i]@.len() ==> (#[trigger] tiles@[i]@[j]).background !is Unset,
        decreases tiles@.len() - x,
    {
        let column = &tiles[x];
        let ghost col = cells[x as int];
        assert(column@ == col);
        let mut texts: Vec<String> = Vec::new();
        let mut y: usize = 0;
        while y < column.len()
            invariant
                0 <= x < tiles@.len(),
                0 <= y <= column@.len(),
                column@ == col,
                col == tiles@[x as int]@,
                cells == cells_of(tiles@),
                columns@.len() == x,
                forall|i: int| 0 <= i < x ==> (#[trigger] columns@[i])@ == column_text(cells[i]),
                forall|i: int, j: int|
                    0 <= i < x && 0 <= j < tiles@[i]@.len() ==> (#[trigger] tiles@[i]@[j]).background !is Unset,
                texts@.len() == y,
                forall|j: int| 0 <= j < y ==> (#[trigger] texts@[j])@ == tile_text(col[j]),
                forall|j: int| 0 <= j < y ==> (#[trigger] col[j]).background !is Unset,
            decreases column@.len() - y,
        {
            let t = column[y];
            if let TileBackground::Unset = t.background {
                return Err(Vec2 { x, y });
            }
            texts.push(write_tile(t));
            y = y + 1;
        }
        assert(texts@.map_values(|t: String| t@) =~= col.map_values(|t: Tile| tile_text(t)));
        let mut text = String::from_str("vec![");
        text.append(join(&texts, ",").as_str());
        text.append("]");
        columns.push(text);
        x = x + 1;
    }
    assert(columns@.map_values(|c: String| c@) =~= cells.map_values(
        |c: Seq<Tile>| column_text(c),
    ));
    let mut file = String::from_str(
        "\nuse crate::{Tile, TileBackground, Item, vec2, BloodLevel, BodyLevel, BODY_CHOPPING_TIME, Furniture, CLEANING_TIME};\n        \npub fn create_level_",
    );
    file.append(decimal_string(level).as_str());
    file.append("() -> Vec<Vec<Tile>> {\n    vec![\n        ");
    file.append(join(&columns, ",").as_str());
    file.append("\n    ]\n}\n");
    Ok(file)
}

} // verus!
