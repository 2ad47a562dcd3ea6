//! The fixed shape of a game: stones per hole, holes per side, and the
//! optional pie-rule toggle. Validated once at construction, immutable
//! afterwards.

use vstd::prelude::*;

verus! {

/// Largest accepted value for both the hole count and the stones-per-hole
/// count: the board size is capped so that a side always fits on a screen row.
pub const MAX_BOARD_DIMENSION: usize = 9;

#[derive(Clone, Copy, Debug, PartialEq, Eq, Structural)]
pub struct GameConfig {
    pub stone_nums_in_hole: usize,
    pub hole_nums: usize,
    pub is_check_pipe_rule: bool,
}

impl GameConfig {
    /// Both dimensions are within the board-size cap.
    pub open spec fn valid(self) -> bool {
        self.stone_nums_in_hole <= MAX_BOARD_DIMENSION && self.hole_nums <= MAX_BOARD_DIMENSION
    }

    /// Validates the dimensions and builds the configuration. Either count
    /// over the cap is rejected; zero is accepted (a degenerate board).
    pub fn build(stone_nums_in_hole: usize, hole_nums: usize, is_check_pipe_rule: bool) -> (r: Result<
        GameConfig,
        &'static str,
    >)
        ensures
            stone_nums_in_hole > MAX_BOARD_DIMENSION ==> r == Err::<GameConfig, &'static str>(
                "Max stone numbers in hole are 9",
            ),
            stone_nums_in_hole <= MAX_BOARD_DIMENSION && hole_nums > MAX_BOARD_DIMENSION ==> r
                == Err::<GameConfig, &'static str>("Max hole numbers are 9"),
            stone_nums_in_hole <= MAX_BOARD_DIMENSION && hole_nums <= MAX_BOARD_DIMENSION ==> r
                == Ok::<GameConfig, &'static str>(
                GameConfig { stone_nums_in_hole, hole_nums, is_check_pipe_rule },
            ),
            r is Ok ==> r->Ok_0.valid(),
    {
        if stone_nums_in_hole > MAX_BOARD_DIMENSION {
            return Err("Max stone numbers in hole are 9");
        }
        if hole_nums > MAX_BOARD_DIMENSION {
            return Err("Max hole numbers are 9");
        }
        Ok(GameConfig { stone_nums_in_hole, hole_nums, is_check_pipe_rule })
    }
}

} // verus!
