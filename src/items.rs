use vstd::prelude::*;

verus! {

/// How long a body takes to chop or bag at one stage, in presses of the
/// interact button.
pub const BODY_CHOPPING_TIME: isize = 100;

/// How much blood lies on a tile or sticks to the player's boots.
#[derive(Debug, Clone, Copy, PartialEq, Eq, Structural)]
pub enum BloodLevel {
    Clean,
    Tall,
    Grande,
    Venti,
}

/// The most blood a tile or a pair of boots can hold.
pub const MAX_BLOOD: u8 = 3;

impl BloodLevel {
    /// The amount of blood as a number from 0 to `MAX_BLOOD`.
    pub open spec fn amount(self) -> nat {
        match self {
            BloodLevel::Clean => 0,
            BloodLevel::Tall => 1,
            BloodLevel::Grande => 2,
            BloodLevel::Venti => 3,
        }
    }

    /// One unit more, where there is room for it.
    pub open spec fn raised(self) -> BloodLevel {
        match self {
            BloodLevel::Clean => BloodLevel::Tall,
            BloodLevel::Tall => BloodLevel::Grande,
            BloodLevel::Grande => BloodLevel::Venti,
            BloodLevel::Venti => BloodLevel::Venti,
        }
    }

    /// One unit less, where there is any.
    pub open spec fn lowered(self) -> BloodLevel {
        match self {
            BloodLevel::Clean => BloodLevel::Clean,
            BloodLevel::Tall => BloodLevel::Clean,
            BloodLevel::Grande => BloodLevel::Tall,
            BloodLevel::Venti => BloodLevel::Grande,
        }
    }

    /// Adds one unit of blood; returns whether there was room for it.
    pub fn increment(&mut self) -> (added: bool)
        ensures
            added == (old(self).amount() < MAX_BLOOD),
            *final(self) == old(self).raised(),
            final(self).amount() == if added { old(self).amount() + 1 } else { old(self).amount() },
    {
        match self {
            BloodLevel::Clean => {
                *self = BloodLevel::Tall;
                true
            },
            BloodLevel::Tall => {
                *self = BloodLevel::Grande;
                true
            },
            BloodLevel::Grande => {
                *self = BloodLevel::Venti;
                true
            },
            BloodLevel::Venti => false,
        }
    }

    /// Takes one unit of blood away; returns whether there was any.
    pub fn decrement(&mut self) -> (removed: bool)
        ensures
            removed == (old(self).amount() > 0),
            *final(self) == old(self).lowered(),
            final(self).amount() == if removed { old(self).amount() - 1 } else { old(self).amount() as int },
    {
        match self {
            BloodLevel::Clean => false,
            BloodLevel::Tall => {
                *self = BloodLevel::Clean;
                true
            },
            BloodLevel::Grande => {
                *self = BloodLevel::Tall;
                true
            },
            BloodLevel::Venti => {
                *self = BloodLevel::Grande;
                true
            },
        }
    }
}

/// The stages a body goes through: four to chop it, then four to bag the
/// pieces.
#[derive(Debug, Clone, Copy, PartialEq, Eq, Structural)]
pub enum BodyLevel {
    Start,
    One,
    Two,
    Three,
    Four,
    Five,
    Six,
    Seven,
}

/// The stage from which a body is bagged rather than chopped.
pub const FIRST_BAG_STAGE: u8 = 4;

/// The last stage of a body; processing it removes the body.
pub const LAST_STAGE: u8 = 7;

/// What the player must do to a body at a given stage.
#[derive(Debug, Clone, Copy, PartialEq, Eq, Structural)]
pub enum BodyAction {
    Chop,
    Bag,
}

impl BodyLevel {
    /// The stage as a number from 0 to `LAST_STAGE`.
    pub open spec fn stage(self) -> nat {
        match self {
            BodyLevel::Start => 0,
            BodyLevel::One => 1,
            BodyLevel::Two => 2,
            BodyLevel::Three => 3,
            BodyLevel::Four => 4,
            BodyLevel::Five => 5,
            BodyLevel::Six => 6,
            BodyLevel::Seven => 7,
        }
    }

    pub open spec fn spec_lower(self) -> Option<BodyLevel> {
        match self {
            BodyLevel::Start => Some(BodyLevel::One),
            BodyLevel::One => Some(BodyLevel::Two),
            BodyLevel::Two => Some(BodyLevel::Three),
            BodyLevel::Three => Some(BodyLevel::Four),
            BodyLevel::Four => Some(BodyLevel::Five),
            BodyLevel::Five => Some(BodyLevel::Six),
            BodyLevel::Six => Some(BodyLevel::Seven),
            BodyLevel::Seven => None,
        }
    }

    /// The next stage, or `None` after the last one.
    #[verifier::when_used_as_spec(spec_lower)]
    pub fn lower(self) -> (next: Option<BodyLevel>)
        ensures
            next == self.spec_lower(),
            self.stage() < LAST_STAGE <==> next is Some,
            next matches Some(n) ==> n.stage() == self.stage() + 1,
    {
        match self {
            BodyLevel::Start => Some(BodyLevel::One),
            BodyLevel::One => Some(BodyLevel::Two),
            BodyLevel::Two => Some(BodyLevel::Three),
            BodyLevel::Three => Some(BodyLevel::Four),
            BodyLevel::Four => Some(BodyLevel::Five),
            BodyLevel::Five => Some(BodyLevel::Six),
            BodyLevel::Six => Some(BodyLevel::Seven),
            BodyLevel::Seven => None,
        }
    }

    pub open spec fn spec_action(&self) -> BodyAction {
        if self.stage() < FIRST_BAG_STAGE {
            BodyAction::Chop
        } else {
            BodyAction::Bag
        }
    }

    /// Whether the body is chopped (the first four stages) or bagged.
    #[verifier::when_used_as_spec(spec_action)]
    pub fn action(&self) -> (a: BodyAction)
        ensures
            a == self.spec_action(),
    {
        match self {
            BodyLevel::Start | BodyLevel::One | BodyLevel::Two | BodyLevel::Three => {
                BodyAction::Chop
            },
            BodyLevel::Four | BodyLevel::Five | BodyLevel::Six | BodyLevel::Seven => {
                BodyAction::Bag
            },
        }
    }
}

/// What can lie on a tile or be carried by the player.
#[derive(Debug, Clone, Copy, PartialEq, Eq, Structural)]
pub enum Item {
    Empty,
    /// A body at a stage, with the presses left until the next stage.
    Body(BodyLevel, isize),
    Knife,
    Sponge,
    Bleach,
    Bag,
    BagRoll,
    BodyBag,
}

impl Item {
    pub open spec fn spec_collidable(&self) -> bool {
        *self is BodyBag
    }

    /// Whether the item blocks the player's way: only a filled body bag does.
    #[verifier::when_used_as_spec(spec_collidable)]
    pub fn collidable(&self) -> (c: bool)
        ensures
            c == self.spec_collidable(),
    {
        match self {
            Item::Empty
            | Item::Body(_, _)
            | Item::Knife
            | Item::Sponge
            | Item::Bleach
            | Item::Bag
            | Item::BagRoll => false,
            Item::BodyBag => true,
        }
    }

    /// Whether the item can be picked up and put down again as it is.
    pub open spec fn portable(self) -> bool {
        self is Knife || self is Sponge || self is Bleach || self is Bag || self is BodyBag
    }
}

/// Whether a number is even or odd.
#[derive(Debug, Clone, Copy, PartialEq, Eq, Structural)]
pub enum Parity {
    Even,
    Odd,
}

impl From<u32> for Parity {
    fn from(value: u32) -> (p: Parity)
        ensures
            p == (if value % 2 == 0 { Parity::Even } else { Parity::Odd }),
    {
        if value % 2 == 0 {
            Parity::Even
        } else {
            Parity::Odd
        }
    }
}

impl vstd::std_specs::convert::FromSpecImpl<u32> for Parity {
    open spec fn obeys_from_spec() -> bool {
        true
    }

    open spec fn from_spec(value: u32) -> Parity {
        if value % 2 == 0 {
            Parity::Even
        } else {
            Parity::Odd
        }
    }
}

} // verus!
