//! The move engine: the aggregate that owns the board, the two players,
//! the configuration and the turn state, and the one mutating operation
//! that executes a move. Its contracts are stated against the model of
//! `crate::model`: every accepted move transforms the model exactly as
//! `move_result` says, and every rejected move leaves the process untouched.

use vstd::prelude::*;

use crate::game_config::GameConfig;
use crate::game_field::{GameField, Side};
use crate::game_field::Stone;
use crate::model::{
    all_empty, at_skipped_store, capture_amount, capture_applies, hole_num_valid, move_board,
    move_finishes, move_result, next_player_one_turn, sow, sow_result, sow_start, sow_step, sum,
    zeros, BoardModel, SowState,
};

verus! {

pub struct Player {
    pub name: String,
    pub score: usize,
}

#[derive(Clone, Copy, Debug, PartialEq, Eq, Structural)]
pub enum GameStatus {
    Run,
    Finished,
}

/// The two ways a move can be rejected; a rejected move changes nothing.
#[derive(Clone, Copy, Debug, PartialEq, Eq, Structural)]
pub enum MoveError {
    InvalidHoleIndex,
    EmptyHole,
}

impl MoveError {
    /// A short description of the rejection, for display by a caller.
    pub fn message(&self) -> (s: &'static str)
        ensures
            *self == MoveError::InvalidHoleIndex ==> s == "Selected hole number is out of range",
            *self == MoveError::EmptyHole ==> s == "Selected hole is empty",
    {
        match self {
            MoveError::InvalidHoleIndex => "Selected hole number is out of range",
            MoveError::EmptyHole => "Selected hole is empty",
        }
    }
}

/// Where the last stone of a sowing pass came to rest: which side, at which
/// hole index, and whether it was handled at a store slot rather than a
/// regular hole.
pub struct LastTurnHole {
    pub side: u8,
    pub hole_index: usize,
    pub player_num: u8,
    pub in_store: bool,
}

pub struct GameProcess {
    pub player_one: Player,
    pub player_two: Player,
    pub game_config: GameConfig,
    pub game_field: GameField,
    pub is_player_one_turn: bool,
    pub total_turns: usize,
}

impl GameProcess {
    /// The process as the move engine's model: hole counts, scores, turn
    /// flag and move counter.
    pub open spec fn model(self) -> BoardModel {
        BoardModel {
            side_one: self.game_field.side_one.counts(),
            side_two: self.game_field.side_two.counts(),
            score_one: self.player_one.score as nat,
            score_two: self.player_two.score as nat,
            player_one_turn: self.is_player_one_turn,
            total_turns: self.total_turns as nat,
        }
    }

    /// Well-formedness: a valid configuration, both sides of the configured
    /// width, and stone conservation — scores plus holes always hold exactly
    /// the stones the board started with.
    pub open spec fn wf(self) -> bool {
        &&& self.game_config.valid()
        &&& self.model().well_shaped(self.game_config.hole_nums as int)
        &&& self.model().total() == 2 * self.game_config.hole_nums
            * self.game_config.stone_nums_in_hole
    }

    /// Assembles a process at the start of a game: both scores zero, player
    /// one to move, no moves counted. A board freshly built for the same
    /// configuration makes the process well-formed.
    pub fn build(
        game_field: GameField,
        player_one_name: String,
        player_two_name: String,
        game_config: GameConfig,
    ) -> (r: GameProcess)
        ensures
            r.player_one == (Player { name: player_one_name, score: 0 }),
            r.player_two == (Player { name: player_two_name, score: 0 }),
            r.game_field == game_field,
            r.game_config == game_config,
            r.is_player_one_turn,
            r.total_turns == 0,
            game_config.valid() && game_field.fresh_for(game_config) ==> r.wf(),
    {
        let game_process = GameProcess {
            player_one: Player { name: player_one_name, score: 0 },
            player_two: Player { name: player_two_name, score: 0 },
            game_field,
            game_config,
            is_player_one_turn: true,
            total_turns: 0,
        };
        proof {
            if game_config.valid() && game_process.game_field.fresh_for(game_config) {
                crate::model::lemma_sum_constant(
                    game_process.game_field.side_one.counts(),
                    game_config.stone_nums_in_hole as nat,
                );
                crate::model::lemma_sum_constant(
                    game_process.game_field.side_two.counts(),
                    game_config.stone_nums_in_hole as nat,
                );
                let h = game_config.hole_nums as int;
                let s = game_config.stone_nums_in_hole as int;
                assert(h * s + h * s == 2 * h * s) by (nonlinear_arith);
            }
        }
        game_process
    }

    /// Executes one move: the selected hole (one-based, on the current
    /// mover's side) is emptied as a batch and sown hole by hole, skipping
    /// the opponent's store; then the single-stone capture is applied, the
    /// game end is detected (with the final sweep), and otherwise the turn
    /// advances and the optional pie rule may exchange sides and scores.
    /// An out-of-range or empty selection is rejected and changes nothing.
    #[verifier::loop_isolation(false)]
    #[verifier::rlimit(60)]
    pub fn move_stones_from_hole(&mut self, hole_num: usize) -> (r: Result<GameStatus, MoveError>)
        requires
            old(self).wf(),
            old(self).total_turns < usize::MAX,
        ensures
            final(self).wf(),
            final(self).game_config == old(self).game_config,
            final(self).player_one.name == old(self).player_one.name,
            final(self).player_two.name == old(self).player_two.name,
            final(self).model().total() == old(self).model().total(),
            r is Err ==> *final(self) == *old(self),
            (r == Result::<GameStatus, MoveError>::Err(MoveError::InvalidHoleIndex)) <==> !hole_num_valid(
                old(self).game_config.hole_nums as int,
                hole_num as int,
            ),
            (r == Result::<GameStatus, MoveError>::Err(MoveError::EmptyHole)) <==> (hole_num_valid(
                old(self).game_config.hole_nums as int,
                hole_num as int,
            ) && old(self).model().mover_counts()[hole_num - 1] == 0),
            r is Ok ==> final(self).model() == move_result(
                old(self).model(),
                old(self).game_config.hole_nums as int,
                old(self).game_config.is_check_pipe_rule,
                hole_num as int,
            ),
            (r == Result::<GameStatus, MoveError>::Ok(GameStatus::Finished)) <==> (hole_num_valid(
                old(self).game_config.hole_nums as int,
                hole_num as int,
            ) && old(self).model().mover_counts()[hole_num - 1] != 0 && move_finishes(
                old(self).model(),
                old(self).game_config.hole_nums as int,
                hole_num as int,
            )),
            (r == Result::<GameStatus, MoveError>::Ok(GameStatus::Run)) <==> (hole_num_valid(
                old(self).game_config.hole_nums as int,
                hole_num as int,
            ) && old(self).model().mover_counts()[hole_num - 1] != 0 && !move_finishes(
                old(self).model(),
                old(self).game_config.hole_nums as int,
                hole_num as int,
            )),
    {
        let ghost m0 = self.model();
        let ghost holes_i = self.game_config.hole_nums as int;
        let ghost pie = self.game_config.is_check_pipe_rule;
        proof {
            let h = self.game_config.hole_nums as int;
            let s = self.game_config.stone_nums_in_hole as int;
            assert(2 * h * s <= 162) by (nonlinear_arith)
                requires
                    0 <= h <= 9,
                    0 <= s <= 9,
            ;
        }
        if hole_num == 0 || hole_num > self.game_config.hole_nums {
            return Err(MoveError::InvalidHoleIndex);
        }
        let withdrawal_hole_indx = hole_num - 1;

        if self.get_curren_side().holes[withdrawal_hole_indx].stones.len() == 0 {
            return Err(MoveError::EmptyHole);
        }
        // Empty the selected hole into the batch.
        let mut batch: Vec<Stone> = Vec::new();
        let curr_side_mut = self.get_curren_side_mut();
        core::mem::swap(&mut curr_side_mut.holes[withdrawal_hole_indx].stones, &mut batch);

        let mut hole_index: usize = withdrawal_hole_indx + 1;
        let mut active_side: u8 = if self.is_player_one_turn {
            1
        } else {
            2
        };
        let mut last_turn_hole = LastTurnHole {
            side: 1,
            hole_index: 0,
            player_num: 1,
            in_store: false,
        };
        let ghost s0 = sow_start(m0, hole_num as int);
        proof {
            if m0.player_one_turn {
                assert(self.game_field.side_one.counts() =~= m0.side_one.update(
                    hole_num - 1,
                    0nat,
                ));
                crate::model::lemma_sum_update(m0.side_one, hole_num - 1, 0nat);
            } else {
                assert(self.game_field.side_two.counts() =~= m0.side_two.update(
                    hole_num - 1,
                    0nat,
                ));
                crate::model::lemma_sum_update(m0.side_two, hole_num - 1, 0nat);
            }
            assert(live_sow_state(*self, active_side, hole_index, batch@, last_turn_hole) =~= s0);
        }
        while batch.len() > 0
            invariant
                self.game_config == old(self).game_config,
                self.player_one.name == old(self).player_one.name,
                self.player_two.name == old(self).player_two.name,
                self.is_player_one_turn == m0.player_one_turn,
                self.total_turns == old(self).total_turns,
                self.game_field.side_one.counts().len() == holes_i,
                self.game_field.side_two.counts().len() == holes_i,
                active_side == 1 || active_side == 2,
                hole_index <= self.game_config.hole_nums,
                last_turn_hole.side == 1 || last_turn_hole.side == 2,
                !last_turn_hole.in_store ==> last_turn_hole.hole_index
                    < self.game_config.hole_nums,
                self.player_one.score + self.player_two.score + sum(
                    self.game_field.side_one.counts(),
                ) + sum(self.game_field.side_two.counts()) + batch@.len() == m0.total(),
                sow(
                    live_sow_state(*self, active_side, hole_index, batch@, last_turn_hole),
                    m0.player_one_turn,
                    holes_i,
                ) == sow(s0, m0.player_one_turn, holes_i),
            decreases
                    batch@.len(),
                    (if at_skipped_store(
                        live_sow_state(*self, active_side, hole_index, batch@, last_turn_hole),
                        m0.player_one_turn,
                        holes_i,
                    ) {
                        1int
                    } else {
                        0int
                    }),
        {
            let ghost prev = live_sow_state(*self, active_side, hole_index, batch@, last_turn_hole);
            let stone = batch.pop().unwrap();
            if hole_index == self.game_config.hole_nums {
                if self.is_player_one_turn && active_side == 1 {
                    self.player_one.score = self.player_one.score + 1;
                    last_turn_hole = LastTurnHole {
                        side: 1,
                        hole_index: 0,
                        player_num: 1,
                        in_store: true,
                    };
                } else if !self.is_player_one_turn && active_side == 2 {
                    self.player_two.score = self.player_two.score + 1;
                    last_turn_hole = LastTurnHole {
                        side: 2,
                        hole_index: 0,
                        player_num: 1,
                        in_store: true,
                    };
                } else {
                    batch.push(stone);
                    last_turn_hole = LastTurnHole {
                        side: active_side,
                        hole_index: 0,
                        player_num: 1,
                        in_store: true,
                    };
                }
                hole_index = 0;
                active_side = if active_side == 1 {
                    2
                } else {
                    1
                };
            } else {
                if active_side == 1 {
                    self.game_field.side_one.holes[hole_index].stones.push(stone);
                    proof {
                        assert(self.game_field.side_one.counts() =~= prev.side_one.update(
                            hole_index as int,
                            prev.side_one[hole_index as int] + 1,
                        ));
                        crate::model::lemma_sum_update(
                            prev.side_one,
                            hole_index as int,
                            prev.side_one[hole_index as int] + 1,
                        );
                    }
                } else {
                    self.game_field.side_two.holes[hole_index].stones.push(stone);
                    proof {
                        assert(self.game_field.side_two.counts() =~= prev.side_two.update(
                            hole_index as int,
                            prev.side_two[hole_index as int] + 1,
                        ));
                        crate::model::lemma_sum_update(
                            prev.side_two,
                            hole_index as int,
                            prev.side_two[hole_index as int] + 1,
                        );
                    }
                }
                last_turn_hole = LastTurnHole {
                    side: active_side,
                    hole_index,
                    player_num: 1,
                    in_store: false,
                };
                hole_index = hole_index + 1;
            }
            proof {
                let cur = live_sow_state(*self, active_side, hole_index, batch@, last_turn_hole);
                assert(cur =~= sow_step(prev, m0.player_one_turn, holes_i));
            }
        }
        let ghost a = sow_result(m0, holes_i, hole_num as int);
        proof {
            let cur = live_sow_state(*self, active_side, hole_index, batch@, last_turn_hole);
            assert(sow(cur, m0.player_one_turn, holes_i) == cur);
            assert(cur == a);
        }
        let single_stone_score = self.last_stone_single_score(&last_turn_hole);
        proof {
            if capture_applies(
                a.side_one,
                a.side_two,
                m0.player_one_turn,
                a.last_side,
                a.last_index,
                a.last_in_store,
            ) {
                if m0.player_one_turn {
                    crate::model::lemma_sum_update(a.side_two, holes_i - 1 - a.last_index, 0nat);
                } else {
                    crate::model::lemma_sum_update(a.side_one, holes_i - 1 - a.last_index, 0nat);
                }
            }
        }
        if self.is_player_one_turn {
            self.player_one.score = self.player_one.score + single_stone_score;
        } else {
            self.player_two.score = self.player_two.score + single_stone_score;
        }
        self.total_turns = self.total_turns + 1;

        let ghost mb = move_board(m0, holes_i, hole_num as int);
        proof {
            assert(self.model() =~= mb);
        }
        if self.is_game_finish() {
            self.finalize_score();
            proof {
                assert(move_result(m0, holes_i, pie, hole_num as int) == crate::model::sweep(mb));
            }
            return Ok(GameStatus::Finished);
        }
        self.change_side(hole_index, active_side);

        if self.game_config.is_check_pipe_rule && self.check_pie_rule(&last_turn_hole) {
            self.swap_side();
            self.swap_players_score();
        }
        proof {
            assert(self.is_player_one_turn == next_player_one_turn(m0, holes_i, hole_num as int));
            assert(self.model() =~= move_result(m0, holes_i, pie, hole_num as int));
        }
        Ok(GameStatus::Run)
    }

    /// The side the current mover sows from.
    fn get_curren_side(&self) -> (s: &Side)
        ensures
            *s == (if self.is_player_one_turn {
                self.game_field.side_one
            } else {
                self.game_field.side_two
            }),
    {
        if self.is_player_one_turn {
            &self.game_field.side_one
        } else {
            &self.game_field.side_two
        }
    }

    /// The side the current mover sows from, for mutation; everything else
    /// of the process is left as it was.
    fn get_curren_side_mut(&mut self) -> (s: &mut Side)
        ensures
            *s == (if old(self).is_player_one_turn {
                old(self).game_field.side_one
            } else {
                old(self).game_field.side_two
            }),
            old(self).is_player_one_turn ==> *final(self) == (GameProcess {
                game_field: GameField {
                    side_one: *final(s),
                    side_two: old(self).game_field.side_two,
                },
                ..*old(self)
            }),
            !old(self).is_player_one_turn ==> *final(self) == (GameProcess {
                game_field: GameField {
                    side_one: old(self).game_field.side_one,
                    side_two: *final(s),
                },
                ..*old(self)
            }),
    {
        if self.is_player_one_turn {
            &mut self.game_field.side_one
        } else {
            &mut self.game_field.side_two
        }
    }

    /// End-of-game check: the game is over as soon as either side's holes
    /// are all empty.
    pub fn is_game_finish(&self) -> (r: bool)
        ensures
            r == crate::model::is_finished(self.model()),
    {
        let one_empty = side_all_empty(&self.game_field.side_one);
        let two_empty = side_all_empty(&self.game_field.side_two);
        one_empty || two_empty
    }

    /// Exchanges the two sides wholesale (pie rule); holes keep their order
    /// within each side.
    fn swap_side(&mut self)
        ensures
            *final(self) == (GameProcess {
                game_field: GameField {
                    side_one: old(self).game_field.side_two,
                    side_two: old(self).game_field.side_one,
                },
                ..*old(self)
            }),
    {
        core::mem::swap(&mut self.game_field.side_one, &mut self.game_field.side_two);
    }

    /// Exchanges the two players' scores (pie rule); names stay put.
    fn swap_players_score(&mut self)
        ensures
            *final(self) == (GameProcess {
                player_one: Player {
                    name: old(self).player_one.name,
                    score: old(self).player_two.score,
                },
                player_two: Player {
                    name: old(self).player_two.name,
                    score: old(self).player_one.score,
                },
                ..*old(self)
            }),
    {
        core::mem::swap(&mut self.player_one.score, &mut self.player_two.score);
    }

    /// The pie rule triggers only on the very first counted move, when the
    /// pass ended at a store and the mover kept the turn.
    fn check_pie_rule(&self, last_turn_hole: &LastTurnHole) -> (r: bool)
        ensures
            r == (last_turn_hole.hole_index == 0 && self.total_turns == 1
                && self.is_player_one_turn),
    {
        if last_turn_hole.hole_index == 0 && self.total_turns == 1 && self.is_player_one_turn {
            return true;
        }
        false
    }

    /// The end-of-game sweep: every stone still on side one goes to player
    /// one's score, every stone on side two to player two's, and the holes
    /// are left empty. This happens exactly once, on the move that ends the
    /// game.
    fn finalize_score(&mut self)
        requires
            old(self).wf(),
        ensures
            final(self).model() == crate::model::sweep(old(self).model()),
            final(self).model().total() == old(self).model().total(),
            final(self).game_config == old(self).game_config,
            final(self).player_one.name == old(self).player_one.name,
            final(self).player_two.name == old(self).player_two.name,
            final(self).wf(),
    {
        proof {
            let h = old(self).game_config.hole_nums as int;
            let s = old(self).game_config.stone_nums_in_hole as int;
            assert(2 * h * s <= 162) by (nonlinear_arith)
                requires
                    0 <= h <= 9,
                    0 <= s <= 9,
            ;
        }
        let got_one = sweep_side(&mut self.game_field.side_one);
        self.player_one.score = self.player_one.score + got_one;
        let got_two = sweep_side(&mut self.game_field.side_two);
        self.player_two.score = self.player_two.score + got_two;
        proof {
            crate::model::lemma_sum_zeros(self.game_field.side_one.counts());
            crate::model::lemma_sum_zeros(self.game_field.side_two.counts());
            assert(self.game_field.side_one.counts() =~= zeros(
                old(self).game_field.side_one.counts().len(),
            ));
            assert(self.game_field.side_two.counts() =~= zeros(
                old(self).game_field.side_two.counts().len(),
            ));
            assert(self.model() =~= crate::model::sweep(old(self).model()));
        }
    }

    /// The single-stone capture: when the last stone of the pass landed in a
    /// regular hole on the mover's own side and sits there alone, the
    /// mirror-image hole on the opponent's side is emptied and its contents
    /// are returned, to be added to the mover's score. The landed stone
    /// itself stays where it fell.
    fn last_stone_single_score(&mut self, last_turn_hole: &LastTurnHole) -> (cap: usize)
        requires
            old(self).model().well_shaped(old(self).game_config.hole_nums as int),
            !last_turn_hole.in_store ==> last_turn_hole.hole_index
                < old(self).game_config.hole_nums,
        ensures
            ({
                let c1 = old(self).game_field.side_one.counts();
                let c2 = old(self).game_field.side_two.counts();
                let p1 = old(self).is_player_one_turn;
                let holes = old(self).game_config.hole_nums as int;
                let ls = last_turn_hole.side as int;
                let li = last_turn_hole.hole_index as int;
                let st = last_turn_hole.in_store;
                let applies = capture_applies(c1, c2, p1, ls, li, st);
                let mirror = holes - 1 - li;
                &&& cap == capture_amount(c1, c2, p1, holes, ls, li, st)
                &&& final(self).game_field.side_one.counts() == (if applies && !p1 {
                    c1.update(mirror, 0nat)
                } else {
                    c1
                })
                &&& final(self).game_field.side_two.counts() == (if applies && p1 {
                    c2.update(mirror, 0nat)
                } else {
                    c2
                })
                &&& *final(self) == (GameProcess {
                    game_field: GameField {
                        side_one: final(self).game_field.side_one,
                        side_two: final(self).game_field.side_two,
                    },
                    ..*old(self)
                })
                &&& !applies ==> *final(self) == *old(self)
            }),
    {
        if !last_turn_hole.in_store && self.is_player_one_turn && last_turn_hole.side == 1
            && self.get_curren_side().holes[last_turn_hole.hole_index].stones.len() == 1 {
            let mirror = self.game_config.hole_nums - 1 - last_turn_hole.hole_index;
            let cap = self.game_field.side_two.holes[mirror].stones.len();
            self.game_field.side_two.holes[mirror].stones.clear();
            proof {
                assert(self.game_field.side_two.counts() =~= old(
                    self,
                ).game_field.side_two.counts().update(mirror as int, 0nat));
            }
            return cap;
        } else if !last_turn_hole.in_store && !self.is_player_one_turn && last_turn_hole.side == 2
            && self.get_curren_side().holes[last_turn_hole.hole_index].stones.len() == 1 {
            let mirror = self.game_config.hole_nums - 1 - last_turn_hole.hole_index;
            let cap = self.game_field.side_one.holes[mirror].stones.len();
            self.game_field.side_one.holes[mirror].stones.clear();
            proof {
                assert(self.game_field.side_one.counts() =~= old(
                    self,
                ).game_field.side_one.counts().update(mirror as int, 0nat));
            }
            return cap;
        }
        0
    }

    /// Turn advancement from the final position and active side of the
    /// sowing pass: the turn flips unless the pass ended exactly at the
    /// mover's own store.
    fn change_side(&mut self, hole_index: usize, active_side: u8)
        ensures
            final(self).is_player_one_turn == crate::model::next_turn_flag(
                old(self).is_player_one_turn,
                hole_index as int,
                active_side as int,
            ),
            *final(self) == (GameProcess {
                is_player_one_turn: final(self).is_player_one_turn,
                ..*old(self)
            }),
    {
        if hole_index != 0 {
            self.is_player_one_turn = !self.is_player_one_turn;
        } else if !(self.is_player_one_turn && active_side == 2) && !(!self.is_player_one_turn
            && active_side == 1) {
            self.is_player_one_turn = !self.is_player_one_turn;
        }
    }
}

/// The sowing state of the executable pass: the process's counts and scores
/// together with the loop's live position, side, batch and last-landing
/// trackers, packaged as the model's `SowState`.
spec fn live_sow_state(
    gp: GameProcess,
    active_side: u8,
    position: usize,
    batch: Seq<Stone>,
    last: LastTurnHole,
) -> SowState {
    SowState {
        side_one: gp.game_field.side_one.counts(),
        side_two: gp.game_field.side_two.counts(),
        score_one: gp.player_one.score as nat,
        score_two: gp.player_two.score as nat,
        active_side: active_side as int,
        position: position as int,
        batch: batch.len(),
        last_side: last.side as int,
        last_index: last.hole_index as int,
        last_in_store: last.in_store,
    }
}

/// Empties every hole of the side and returns how many stones were taken.
fn sweep_side(side: &mut Side) -> (got: usize)
    requires
        sum(old(side).counts()) <= usize::MAX,
    ensures
        got == sum(old(side).counts()),
        final(side).counts().len() == old(side).counts().len(),
        all_empty(final(side).counts()),
{
    let n = side.holes.len();
    let mut got: usize = 0;
    let mut i: usize = 0;
    while i < n
        invariant
            i <= n,
            n == side.holes@.len(),
            side.holes@.len() == old(side).holes@.len(),
            sum(old(side).counts()) <= usize::MAX,
            forall|j: int| 0 <= j < i ==> side.holes@[j].count() == 0,
            forall|j: int| i <= j < n ==> side.holes@[j] == old(side).holes@[j],
            got == sum(old(side).counts().take(i as int)),
        decreases n - i,
    {
        proof {
            crate::model::lemma_sum_take_succ(old(side).counts(), i as int);
            crate::model::lemma_sum_take_le(old(side).counts(), i as int + 1);
            assert(old(side).counts()[i as int] == old(side).holes@[i as int].count());
        }
        let k = side.holes[i].stones.len();
        got = got + k;
        side.holes[i].stones.clear();
        i = i + 1;
    }
    proof {
        assert(old(side).counts().take(n as int) =~= old(side).counts());
        assert(forall|j: int|
            0 <= j < n ==> side.counts()[j] == side.holes@[j].count());
    }
    got
}

/// Whether every hole of the side is empty.
fn side_all_empty(side: &Side) -> (r: bool)
    ensures
        r == all_empty(side.counts()),
{
    let n = side.holes.len();
    let mut i: usize = 0;
    while i < n
        invariant
            i <= n,
            n == side.holes@.len(),
            forall|j: int| 0 <= j < i ==> side.counts()[j] == 0,
        decreases n - i,
    {
        if side.holes[i].stones.len() > 0 {
            assert(side.counts()[i as int] != 0);
            return false;
        }
        i = i + 1;
    }
    true
}

} // verus!
