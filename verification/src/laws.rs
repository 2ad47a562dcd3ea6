//! Laws of the move engine, proved over the model: sowing never feeds the
//! opponent's store, an empty side ends the game with a single exact sweep,
//! and the single-stone capture takes precisely the mirror hole. Stone
//! conservation and the side-effect-freedom of rejected moves are stated on
//! `GameProcess::move_stones_from_hole` itself.

use vstd::prelude::*;

use crate::model::{
    all_empty, at_skipped_store, capture_applies, hole_num_valid, is_finished, lemma_sum_update,
    lemma_sum_zeros, move_board, move_finishes, move_result, pie_rule_applies, sow, sow_result,
    sow_start, sow_step, sum, sweep, zeros, BoardModel, SowState,
};

verus! {

/// Sowing keeps the board's shape: the two sides keep their widths, the
/// position stays on the board, the active side stays one of the two, and
/// the last landing spot is a real hole whenever it was not a store slot.
pub proof fn lemma_sow_shape(st: SowState, player_one_turn: bool, holes: int)
    requires
        holes >= 1,
        0 <= st.position <= holes,
        st.active_side == 1 || st.active_side == 2,
        st.side_one.len() == holes,
        st.side_two.len() == holes,
        st.last_side == 1 || st.last_side == 2,
        !st.last_in_store ==> 0 <= st.last_index < holes,
    ensures
        ({
            let a = sow(st, player_one_turn, holes);
            &&& a.batch == 0
            &&& 0 <= a.position <= holes
            &&& (a.active_side == 1 || a.active_side == 2)
            &&& a.side_one.len() == holes
            &&& a.side_two.len() == holes
            &&& (a.last_side == 1 || a.last_side == 2)
            &&& (!a.last_in_store ==> 0 <= a.last_index < holes)
        }),
    decreases
            st.batch,
            (if at_skipped_store(st, player_one_turn, holes) {
                1int
            } else {
                0int
            }),
{
    if st.batch != 0 {
        lemma_sow_shape(sow_step(st, player_one_turn, holes), player_one_turn, holes);
    }
}

/// Store-skipping: a sowing pass never adds to the opponent's score. The
/// opponent's store slot is skipped — the stone stays in the batch — so
/// however long the batch and however often the pass crosses that slot, the
/// opponent's score after sowing equals the score before.
pub proof fn lemma_sow_skips_opponent_store(st: SowState, player_one_turn: bool, holes: int)
    requires
        holes >= 1,
        0 <= st.position <= holes,
    ensures
        player_one_turn ==> sow(st, player_one_turn, holes).score_two == st.score_two,
        !player_one_turn ==> sow(st, player_one_turn, holes).score_one == st.score_one,
    decreases
            st.batch,
            (if at_skipped_store(st, player_one_turn, holes) {
                1int
            } else {
                0int
            }),
{
    if st.batch != 0 {
        lemma_sow_skips_opponent_store(sow_step(st, player_one_turn, holes), player_one_turn, holes);
    }
}

/// Stone conservation through a sowing pass: the scores, the stones in the
/// holes and the stones still in the batch add up to the same total before
/// and after — a stone is only ever moved, never created or lost.
pub proof fn lemma_sow_conserves(st: SowState, player_one_turn: bool, holes: int)
    requires
        holes >= 1,
        0 <= st.position <= holes,
        st.side_one.len() == holes,
        st.side_two.len() == holes,
    ensures
        ({
            let a = sow(st, player_one_turn, holes);
            a.score_one + a.score_two + sum(a.side_one) + sum(a.side_two) + a.batch
                == st.score_one + st.score_two + sum(st.side_one) + sum(st.side_two) + st.batch
        }),
    decreases
            st.batch,
            (if at_skipped_store(st, player_one_turn, holes) {
                1int
            } else {
                0int
            }),
{
    if st.batch != 0 {
        if st.position != holes {
            if st.active_side == 1 {
                lemma_sum_update(st.side_one, st.position, st.side_one[st.position] + 1);
            } else {
                lemma_sum_update(st.side_two, st.position, st.side_two[st.position] + 1);
            }
        }
        lemma_sow_conserves(sow_step(st, player_one_turn, holes), player_one_turn, holes);
    }
}

/// Conservation: a whole accepted move — sowing, capture, and either the
/// final sweep or the pie-rule swap — leaves the sum of the two scores and
/// all hole counts exactly as it was.
pub proof fn lemma_move_conserves_stones(m: BoardModel, holes: int, pie: bool, hole_num: int)
    requires
        m.well_shaped(holes),
        hole_num_valid(holes, hole_num),
    ensures
        move_result(m, holes, pie, hole_num).total() == m.total(),
{
    let s0 = sow_start(m, hole_num);
    if m.player_one_turn {
        lemma_sum_update(m.side_one, hole_num - 1, 0nat);
    } else {
        lemma_sum_update(m.side_two, hole_num - 1, 0nat);
    }
    lemma_sow_conserves(s0, m.player_one_turn, holes);
    lemma_sow_shape(s0, m.player_one_turn, holes);
    let a = sow_result(m, holes, hole_num);
    if capture_applies(
        a.side_one,
        a.side_two,
        m.player_one_turn,
        a.last_side,
        a.last_index,
        a.last_in_store,
    ) {
        if m.player_one_turn {
            lemma_sum_update(a.side_two, holes - 1 - a.last_index, 0nat);
        } else {
            lemma_sum_update(a.side_one, holes - 1 - a.last_index, 0nat);
        }
    }
    let base = move_board(m, holes, hole_num);
    if is_finished(base) {
        lemma_sum_zeros(zeros(base.side_one.len()));
        lemma_sum_zeros(zeros(base.side_two.len()));
    }
}

/// Termination sweep: once either side's holes are all empty the finish
/// check holds, and the sweep empties every hole on both sides into the
/// respective player's score exactly once — afterwards the board is empty
/// and the total stone count is unchanged.
pub proof fn lemma_termination_sweep(m: BoardModel)
    requires
        all_empty(m.side_one) || all_empty(m.side_two),
    ensures
        is_finished(m),
        sweep(m).score_one == m.score_one + sum(m.side_one),
        sweep(m).score_two == m.score_two + sum(m.side_two),
        all_empty(sweep(m).side_one),
        all_empty(sweep(m).side_two),
        sweep(m).total() == m.total(),
{
    lemma_sum_zeros(zeros(m.side_one.len()));
    lemma_sum_zeros(zeros(m.side_two.len()));
}

/// Single-stone capture: when the last stone of a pass lands in a regular
/// hole on the mover's own side and sits there alone, and the move neither
/// ends the game nor triggers the pie rule, then the move takes the whole
/// contents of the opponent's mirror hole into the mover's score, leaves
/// that mirror hole empty, and leaves the landing hole holding its single
/// stone.
pub proof fn lemma_single_stone_capture(m: BoardModel, holes: int, pie: bool, hole_num: int)
    requires
        m.well_shaped(holes),
        hole_num_valid(holes, hole_num),
        m.mover_counts()[hole_num - 1] != 0,
        capture_applies(
            sow_result(m, holes, hole_num).side_one,
            sow_result(m, holes, hole_num).side_two,
            m.player_one_turn,
            sow_result(m, holes, hole_num).last_side,
            sow_result(m, holes, hole_num).last_index,
            sow_result(m, holes, hole_num).last_in_store,
        ),
        !move_finishes(m, holes, hole_num),
        !pie_rule_applies(m, holes, pie, hole_num),
    ensures
        ({
            let a = sow_result(m, holes, hole_num);
            let mr = move_result(m, holes, pie, hole_num);
            let mirror = holes - 1 - a.last_index;
            &&& (m.player_one_turn ==> mr.score_one == a.score_one + a.side_two[mirror]
                && mr.side_two[mirror] == 0 && mr.side_one[a.last_index] == 1)
            &&& (!m.player_one_turn ==> mr.score_two == a.score_two + a.side_one[mirror]
                && mr.side_one[mirror] == 0 && mr.side_two[a.last_index] == 1)
        }),
{
    lemma_sow_shape(sow_start(m, hole_num), m.player_one_turn, holes);
}

} // verus!
