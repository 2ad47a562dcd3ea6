//! The board: two sides of holes, each hole a collection of stones. A
//! stone's color and size are cosmetic — drawn at random when the board is
//! built and never read by the move engine; only the count of stones in a
//! hole matters for the rules.

use vstd::prelude::*;

use crate::game_config::GameConfig;

verus! {

#[derive(Clone, Copy, Debug)]
pub enum Color {
    Blue,
    Red,
    Black,
    White,
    Yellow,
}

#[derive(Clone, Copy, Debug)]
pub enum Size {
    Small,
    Medium,
    Large,
}

pub struct Stone {
    pub color: Color,
    pub size: Size,
}

pub struct Hole {
    pub stones: Vec<Stone>,
}

pub struct Side {
    pub holes: Vec<Hole>,
}

pub struct GameField {
    pub side_one: Side,
    pub side_two: Side,
}

impl Hole {
    /// How many stones the hole holds — all the rules ever ask of it.
    pub open spec fn count(self) -> nat {
        self.stones@.len()
    }
}

impl Side {
    /// The side as its sequence of hole counts.
    pub open spec fn counts(self) -> Seq<nat> {
        self.holes@.map_values(|h: Hole| h.count())
    }
}

impl GameField {
    /// A board freshly built for `config`: each side has exactly the
    /// configured number of holes, each hole the configured number of stones.
    pub open spec fn fresh_for(self, config: GameConfig) -> bool {
        &&& self.side_one.counts().len() == config.hole_nums
        &&& self.side_two.counts().len() == config.hole_nums
        &&& forall|i: int|
            0 <= i < config.hole_nums ==> self.side_one.counts()[i] == config.stone_nums_in_hole
        &&& forall|i: int|
            0 <= i < config.hole_nums ==> self.side_two.counts()[i] == config.stone_nums_in_hole
    }

    /// Builds the two sides, each hole filled with the configured number of
    /// stones whose cosmetic attributes are drawn at random.
    pub fn build(config: &GameConfig) -> (r: GameField)
        ensures
            r.fresh_for(*config),
    {
        let side_one = build_side(config);
        let side_two = build_side(config);
        GameField { side_one, side_two }
    }
}

/// Uniform random index below `bound`, for picking one variant of a small
/// enumeration.
///
/// Relies on rand::random_range over the half-open integer range `0..bound`:
/// the sampled value lies in the range, and the call panics only on an empty
/// range, which the precondition rules out.
#[verifier::external_body]
fn random_index(bound: usize) -> (r: usize)
    requires
        1 <= bound,
    ensures
        r < bound,
{
    rand::random_range(0..bound)
}

/// One of the stone colors, drawn at random; cosmetic only.
fn random_color() -> Color {
    let i = random_index(5);
    if i == 0 {
        Color::Blue
    } else if i == 1 {
        Color::Red
    } else if i == 2 {
        Color::Black
    } else if i == 3 {
        Color::White
    } else {
        Color::Yellow
    }
}

/// One of the stone sizes, drawn at random; cosmetic only.
fn random_size() -> Size {
    let i = random_index(3);
    if i == 0 {
        Size::Small
    } else if i == 1 {
        Size::Medium
    } else {
        Size::Large
    }
}

/// One side of a fresh board: the configured number of holes, each with the
/// configured number of stones.
fn build_side(config: &GameConfig) -> (r: Side)
    ensures
        r.counts().len() == config.hole_nums,
        forall|i: int| 0 <= i < config.hole_nums ==> r.counts()[i] == config.stone_nums_in_hole,
{
    let mut holes: Vec<Hole> = Vec::new();
    let mut h: usize = 0;
    while h < config.hole_nums
        invariant
            h <= config.hole_nums,
            holes@.len() == h,
            forall|i: int| 0 <= i < h ==> holes@[i].count() == config.stone_nums_in_hole,
        decreases config.hole_nums - h,
    {
        let mut hole = Hole { stones: Vec::new() };
        let mut s: usize = 0;
        while s < config.stone_nums_in_hole
            invariant
                s <= config.stone_nums_in_hole,
                hole.stones@.len() == s,
            decreases config.stone_nums_in_hole - s,
        {
            let color = random_color();
            let size = random_size();
            hole.stones.push(Stone { color, size });
            s = s + 1;
        }
        holes.push(hole);
        h = h + 1;
    }
    Side { holes }
}

} // verus!
