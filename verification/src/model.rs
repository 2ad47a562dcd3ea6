//! The mathematical model of a game in play: each side is a sequence of
//! hole counts, each player a score, and one move is the composition of
//! sowing, the single-stone capture, end-of-game detection with the final
//! sweep, turn advancement and the optional pie-rule swap. The executable
//! engine's contracts are stated against the functions of this module.

use vstd::prelude::*;

verus! {

/// Total number of stones in a sequence of hole counts.
pub open spec fn sum(s: Seq<nat>) -> nat
    decreases s.len(),
{
    if s.len() == 0 {
        0
    } else {
        s[0] + sum(s.drop_first())
    }
}

pub proof fn lemma_sum_push(s: Seq<nat>, v: nat)
    ensures
        sum(s.push(v)) == sum(s) + v,
    decreases s.len(),
{
    if s.len() == 0 {
        assert(s.push(v).drop_first() =~= Seq::<nat>::empty());
        assert(sum(s.push(v)) == v + sum(Seq::<nat>::empty()));
    } else {
        assert(s.push(v).drop_first() =~= s.drop_first().push(v));
        lemma_sum_push(s.drop_first(), v);
        assert(sum(s.push(v)) == s[0] + sum(s.drop_first().push(v)));
    }
}

pub proof fn lemma_sum_update(s: Seq<nat>, i: int, v: nat)
    requires
        0 <= i < s.len(),
    ensures
        sum(s.update(i, v)) + s[i] == sum(s) + v,
    decreases s.len(),
{
    if i == 0 {
        assert(s.update(0, v).drop_first() =~= s.drop_first());
    } else {
        assert(s.update(i, v).drop_first() =~= s.drop_first().update(i - 1, v));
        lemma_sum_update(s.drop_first(), i - 1, v);
    }
}

pub proof fn lemma_sum_constant(s: Seq<nat>, c: nat)
    requires
        forall|i: int| 0 <= i < s.len() ==> s[i] == c,
    ensures
        sum(s) == s.len() * c,
    decreases s.len(),
{
    if s.len() == 0 {
    } else {
        lemma_sum_constant(s.drop_first(), c);
        assert((s.len() as int) * c == (s.len() - 1) * c + c) by (nonlinear_arith);
    }
}

pub proof fn lemma_sum_take_succ(s: Seq<nat>, i: int)
    requires
        0 <= i < s.len(),
    ensures
        sum(s.take(i + 1)) == sum(s.take(i)) + s[i],
    decreases i,
{
    if i == 0 {
        assert(s.take(1) =~= Seq::<nat>::empty().push(s[0]));
        lemma_sum_push(Seq::<nat>::empty(), s[0]);
    } else {
        assert(s.take(i + 1).drop_first() =~= s.drop_first().take(i));
        assert(s.take(i).drop_first() =~= s.drop_first().take(i - 1));
        lemma_sum_take_succ(s.drop_first(), i - 1);
    }
}

pub proof fn lemma_sum_take_le(s: Seq<nat>, i: int)
    requires
        0 <= i <= s.len(),
    ensures
        sum(s.take(i)) <= sum(s),
    decreases s.len() - i,
{
    if i == s.len() {
        assert(s.take(i) =~= s);
    } else {
        lemma_sum_take_succ(s, i);
        lemma_sum_take_le(s, i + 1);
    }
}

/// Every hole of the sequence is empty.
pub open spec fn all_empty(s: Seq<nat>) -> bool {
    forall|i: int| 0 <= i < s.len() ==> s[i] == 0
}

/// A sequence of `n` empty holes.
pub open spec fn zeros(n: nat) -> Seq<nat> {
    Seq::new(n, |i: int| 0)
}

pub proof fn lemma_sum_zeros(s: Seq<nat>)
    requires
        all_empty(s),
    ensures
        sum(s) == 0,
    decreases s.len(),
{
    if s.len() > 0 {
        lemma_sum_zeros(s.drop_first());
    }
}

/// What the move engine reads and writes of a game: the two sides' hole
/// counts, the two scores, whose turn it is and how many moves were made.
#[verifier::ext_equal]
pub ghost struct BoardModel {
    pub side_one: Seq<nat>,
    pub side_two: Seq<nat>,
    pub score_one: nat,
    pub score_two: nat,
    pub player_one_turn: bool,
    pub total_turns: nat,
}

impl BoardModel {
    /// Stones on the board plus stones already scored: conserved by every move.
    pub open spec fn total(self) -> nat {
        self.score_one + self.score_two + sum(self.side_one) + sum(self.side_two)
    }

    /// The hole counts of the side the current mover sows from.
    pub open spec fn mover_counts(self) -> Seq<nat> {
        if self.player_one_turn {
            self.side_one
        } else {
            self.side_two
        }
    }

    pub open spec fn well_shaped(self, holes: int) -> bool {
        self.side_one.len() == holes && self.side_two.len() == holes
    }
}

/// A selected hole number is valid when it is one-based and on the board.
pub open spec fn hole_num_valid(holes: int, hole_num: int) -> bool {
    1 <= hole_num <= holes
}

/// The state carried by one sowing pass: the board and scores so far, the
/// side and position the next stone goes to, how many stones are left in
/// the batch, and where the most recent stone was placed (`last_*`). A
/// position equal to the hole count is the virtual store slot.
#[verifier::ext_equal]
pub ghost struct SowState {
    pub side_one: Seq<nat>,
    pub side_two: Seq<nat>,
    pub score_one: nat,
    pub score_two: nat,
    pub active_side: int,
    pub position: int,
    pub batch: nat,
    pub last_side: int,
    pub last_index: int,
    pub last_in_store: bool,
}

/// One stone of the batch handled: deposited into the next regular hole,
/// deposited into the mover's own store, or held back at the opponent's
/// store, which is always skipped.
pub open spec fn sow_step(st: SowState, player_one_turn: bool, holes: int) -> SowState {
    if st.position == holes {
        if player_one_turn && st.active_side == 1 {
            SowState {
                score_one: st.score_one + 1,
                batch: (st.batch - 1) as nat,
                active_side: 2,
                position: 0,
                last_side: 1,
                last_index: 0,
                last_in_store: true,
                ..st
            }
        } else if !player_one_turn && st.active_side == 2 {
            SowState {
                score_two: st.score_two + 1,
                batch: (st.batch - 1) as nat,
                active_side: 1,
                position: 0,
                last_side: 2,
                last_index: 0,
                last_in_store: true,
                ..st
            }
        } else {
            SowState {
                active_side: if st.active_side == 1 {
                    2
                } else {
                    1
                },
                position: 0,
                last_side: st.active_side,
                last_index: 0,
                last_in_store: true,
                ..st
            }
        }
    } else {
        if st.active_side == 1 {
            SowState {
                side_one: st.side_one.update(st.position, st.side_one[st.position] + 1),
                position: st.position + 1,
                batch: (st.batch - 1) as nat,
                last_side: 1,
                last_index: st.position,
                last_in_store: false,
                ..st
            }
        } else {
            SowState {
                side_two: st.side_two.update(st.position, st.side_two[st.position] + 1),
                position: st.position + 1,
                batch: (st.batch - 1) as nat,
                last_side: 2,
                last_index: st.position,
                last_in_store: false,
                ..st
            }
        }
    }
}

/// Whether the next `sow_step` would skip the opponent's store: the one
/// step that does not shrink the batch.
pub open spec fn at_skipped_store(st: SowState, player_one_turn: bool, holes: int) -> bool {
    st.position == holes && !(player_one_turn && st.active_side == 1) && !(!player_one_turn
        && st.active_side == 2)
}

/// Sowing runs until the batch is exhausted.
pub open spec fn sow(st: SowState, player_one_turn: bool, holes: int) -> SowState
    decreases
            st.batch,
            (if at_skipped_store(st, player_one_turn, holes) {
                1int
            } else {
                0int
            }),
    when holes >= 1 && 0 <= st.position <= holes
{
    if st.batch == 0 {
        st
    } else {
        sow(sow_step(st, player_one_turn, holes), player_one_turn, holes)
    }
}

/// The sowing state at the start of a move: the selected hole is emptied
/// as one batch and the pass begins at the next position of the mover's side.
pub open spec fn sow_start(m: BoardModel, hole_num: int) -> SowState {
    let idx = hole_num - 1;
    SowState {
        side_one: if m.player_one_turn {
            m.side_one.update(idx, 0)
        } else {
            m.side_one
        },
        side_two: if m.player_one_turn {
            m.side_two
        } else {
            m.side_two.update(idx, 0)
        },
        score_one: m.score_one,
        score_two: m.score_two,
        active_side: if m.player_one_turn {
            1
        } else {
            2
        },
        position: idx + 1,
        batch: m.mover_counts()[idx],
        last_side: 1,
        last_index: 0,
        last_in_store: false,
    }
}

pub open spec fn sow_result(m: BoardModel, holes: int, hole_num: int) -> SowState {
    sow(sow_start(m, hole_num), m.player_one_turn, holes)
}

/// The single-stone capture fires when the last stone of the pass landed in
/// a regular hole (not a store) on the mover's own side and that hole now
/// holds exactly one stone.
pub open spec fn capture_applies(
    side_one: Seq<nat>,
    side_two: Seq<nat>,
    player_one_turn: bool,
    last_side: int,
    last_index: int,
    last_in_store: bool,
) -> bool {
    &&& !last_in_store
    &&& if player_one_turn {
        last_side == 1 && side_one[last_index] == 1
    } else {
        last_side == 2 && side_two[last_index] == 1
    }
}

/// What the capture takes: the whole contents of the mirror-image hole on
/// the opponent's side, or nothing when the rule does not fire.
pub open spec fn capture_amount(
    side_one: Seq<nat>,
    side_two: Seq<nat>,
    player_one_turn: bool,
    holes: int,
    last_side: int,
    last_index: int,
    last_in_store: bool,
) -> nat {
    if capture_applies(side_one, side_two, player_one_turn, last_side, last_index, last_in_store) {
        if player_one_turn {
            side_two[holes - 1 - last_index]
        } else {
            side_one[holes - 1 - last_index]
        }
    } else {
        0
    }
}

/// The sowing result with the capture applied: the mirror hole is emptied
/// and its contents move to the mover's score. The landed single stone
/// itself stays in its hole.
pub open spec fn after_capture(a: SowState, player_one_turn: bool, holes: int) -> SowState {
    let cap = capture_amount(
        a.side_one,
        a.side_two,
        player_one_turn,
        holes,
        a.last_side,
        a.last_index,
        a.last_in_store,
    );
    if capture_applies(a.side_one, a.side_two, player_one_turn, a.last_side, a.last_index, a.last_in_store) {
        if player_one_turn {
            SowState {
                score_one: a.score_one + cap,
                side_two: a.side_two.update(holes - 1 - a.last_index, 0),
                ..a
            }
        } else {
            SowState {
                score_two: a.score_two + cap,
                side_one: a.side_one.update(holes - 1 - a.last_index, 0),
                ..a
            }
        }
    } else {
        a
    }
}

/// The game is over as soon as either side's regular holes are all empty.
pub open spec fn is_finished(m: BoardModel) -> bool {
    all_empty(m.side_one) || all_empty(m.side_two)
}

/// The final sweep: every stone still on side one goes to player one's
/// score, every stone on side two to player two's, and the holes are left
/// empty. Turn and move counter are untouched.
pub open spec fn sweep(m: BoardModel) -> BoardModel {
    BoardModel {
        side_one: zeros(m.side_one.len()),
        side_two: zeros(m.side_two.len()),
        score_one: m.score_one + sum(m.side_one),
        score_two: m.score_two + sum(m.side_two),
        ..m
    }
}

/// The turn flag after a move: the turn flips unless the pass ended exactly
/// at a store (position reset to zero) with the side and turn aligned, in
/// which case the mover goes again.
pub open spec fn next_turn_flag(player_one_turn: bool, position: int, active_side: int) -> bool {
    if position != 0 {
        !player_one_turn
    } else if !(player_one_turn && active_side == 2) && !(!player_one_turn && active_side == 1) {
        !player_one_turn
    } else {
        player_one_turn
    }
}

/// The pie rule exchanges the two sides and the two scores.
pub open spec fn swap_sides_model(m: BoardModel) -> BoardModel {
    BoardModel {
        side_one: m.side_two,
        side_two: m.side_one,
        score_one: m.score_two,
        score_two: m.score_one,
        ..m
    }
}

/// The board and scores after sowing and capture, with the move counted;
/// the turn flag is not yet advanced.
pub open spec fn move_board(m: BoardModel, holes: int, hole_num: int) -> BoardModel {
    let a = sow_result(m, holes, hole_num);
    let b = after_capture(a, m.player_one_turn, holes);
    BoardModel {
        side_one: b.side_one,
        side_two: b.side_two,
        score_one: b.score_one,
        score_two: b.score_two,
        player_one_turn: m.player_one_turn,
        total_turns: m.total_turns + 1,
    }
}

/// Whether the move ends the game: checked after sowing and capture.
pub open spec fn move_finishes(m: BoardModel, holes: int, hole_num: int) -> bool {
    is_finished(move_board(m, holes, hole_num))
}

/// The turn flag after the move, from the final position and active side of
/// the sowing pass.
pub open spec fn next_player_one_turn(m: BoardModel, holes: int, hole_num: int) -> bool {
    let a = sow_result(m, holes, hole_num);
    next_turn_flag(m.player_one_turn, a.position, a.active_side)
}

/// The pie rule triggers only on the very first counted move, when the pass
/// ended at a store and the mover kept the turn.
pub open spec fn pie_rule_applies(m: BoardModel, holes: int, pie: bool, hole_num: int) -> bool {
    let a = sow_result(m, holes, hole_num);
    pie && a.last_index == 0 && m.total_turns + 1 == 1 && next_player_one_turn(m, holes, hole_num)
}

/// The whole move on the model: sowing, capture, then either the final
/// sweep (game over) or turn advancement and the optional pie-rule swap.
pub open spec fn move_result(m: BoardModel, holes: int, pie: bool, hole_num: int) -> BoardModel {
    let base = move_board(m, holes, hole_num);
    if is_finished(base) {
        sweep(base)
    } else {
        let turned = BoardModel { player_one_turn: next_player_one_turn(m, holes, hole_num), ..base };
        if pie_rule_applies(m, holes, pie, hole_num) {
            swap_sides_model(turned)
        } else {
            turned
        }
    }
}

} // verus!
