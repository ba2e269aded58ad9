use crate::order::is_permutation_of;
use crate::selection::Selection;
use crate::session::SessionModel;
use crate::session::WordProgress;
use crate::session::advance_model;
use crate::session::help_model;
use crate::session::initial_model;
use crate::session::lemma_advance_preserves_inv;
use crate::session::lemma_help_preserves_inv;
use crate::session::lemma_initial_inv;
use crate::session::session_inv;
use crate::session::tick_model;
use vstd::prelude::*;

verus! {

/// The cursor after a series of movements, one per entry of `moves`: a
/// `true` entry moves down, a `false` entry moves up.
pub open spec fn move_times(s: Selection, moves: Seq<bool>) -> Selection
    decreases moves.len(),
{
    if moves.len() == 0 {
        s
    } else {
        let s1 = if moves[0] {
            Selection::down_spec(s)
        } else {
            Selection::up_spec(s)
        };
        move_times(s1, moves.drop_first())
    }
}

/// Law: under any sequence of down/up movements, the category cursor and
/// the word cursor never leave their bounds — in particular the word
/// cursor stays valid for the currently selected category.
pub proof fn lemma_moves_stay_in_bounds(s: Selection, moves: Seq<bool>)
    requires
        s.wf(),
    ensures
        move_times(s, moves).wf(),
        move_times(s, moves).word_counts == s.word_counts,
    decreases moves.len(),
{
    if moves.len() > 0 {
        let s1 = if moves[0] {
            Selection::down_spec(s)
        } else {
            Selection::up_spec(s)
        };
        lemma_moves_stay_in_bounds(s1, moves.drop_first());
    }
}

/// The session state after `k` "next" commands, each issued at `now_ms`.
pub open spec fn advance_times(m: SessionModel, now_ms: int, k: nat) -> SessionModel
    decreases k,
{
    if k == 0 {
        m
    } else {
        advance_model(advance_times(m, now_ms, (k - 1) as nat), now_ms)
    }
}

/// The session state after a series of ticks, one per entry of `now_times`.
pub open spec fn tick_times(m: SessionModel, now_times: Seq<int>) -> SessionModel
    decreases now_times.len(),
{
    if now_times.len() == 0 {
        m
    } else {
        tick_times(tick_model(m, now_times[0]), now_times.drop_first())
    }
}

/// Law: a session started on a category of N words lays out exactly N
/// progress tags over a permutation of the category's word indices, with
/// the word at order position 0 `Current` and every other word `Next`,
/// the cursor at 0, the clock at zero and the session not done. A session
/// is rebuilt from scratch this way on every entry into learn mode, so
/// re-entering resets all progress to this layout.
pub proof fn lemma_session_start_layout(order: Seq<usize>, start_ms: int)
    requires
        order.len() >= 1,
        is_permutation_of(order, order.len()),
    ensures
        ({
            let m = initial_model(order, start_ms);
            &&& session_inv(m)
            &&& m.order == order
            &&& m.progress.len() == order.len()
            &&& forall|i: int|
                0 <= i < m.progress.len() ==> ((#[trigger] m.progress[i])
                    == WordProgress::Current <==> i == 0)
            &&& m.position == 0
            &&& !m.done
            &&& m.elapsed_ms == 0
            &&& m.help == false
        }),
{
    lemma_initial_inv(order, start_ms);
}

/// Law: from a fresh session over N words, k "next" commands put the
/// cursor at position k for every k < N, with the session still running,
/// and the N-th "next" finishes the session with the cursor resting on
/// the last position.
pub proof fn lemma_advance_progression(order: Seq<usize>, start_ms: int, now_ms: int, k: nat)
    requires
        order.len() >= 1,
        is_permutation_of(order, order.len()),
        k <= order.len(),
    ensures
        ({
            let m = advance_times(initial_model(order, start_ms), now_ms, k);
            &&& session_inv(m)
            &&& m.order == order
            &&& k < order.len() ==> !m.done && m.position == k
            &&& k == order.len() ==> m.done && m.position == order.len() - 1
        }),
    decreases k,
{
    if k == 0 {
        lemma_initial_inv(order, start_ms);
    } else {
        lemma_advance_progression(order, start_ms, now_ms, (k - 1) as nat);
        let prev = advance_times(initial_model(order, start_ms), now_ms, (k - 1) as nat);
        lemma_advance_preserves_inv(prev, now_ms);
    }
}

/// Law: once a session is done it is inert — neither "next" nor "help"
/// nor a tick changes any part of it, progress tags and elapsed time
/// included.
pub proof fn lemma_finished_session_is_inert(m: SessionModel, now_ms: int)
    requires
        m.done,
    ensures
        advance_model(m, now_ms) == m,
        help_model(m) == m,
        tick_model(m, now_ms) == m,
{
}

/// Law: once a session is done, any series of later ticks leaves it
/// unchanged, so the reported elapsed time stays frozen at the value
/// captured when it finished.
pub proof fn lemma_elapsed_frozen_after_done(m: SessionModel, now_times: Seq<int>)
    requires
        m.done,
    ensures
        tick_times(m, now_times) == m,
    decreases now_times.len(),
{
    if now_times.len() > 0 {
        lemma_elapsed_frozen_after_done(m, now_times.drop_first());
    }
}

/// Law: one "help" marks the word under the cursor `Failed` and shows the
/// help display; the "next" that follows leaves that word `Failed` — it
/// is never overwritten to `Valided`.
pub proof fn lemma_help_sticks(m: SessionModel, now_ms: int)
    requires
        session_inv(m),
        !m.done,
    ensures
        help_model(m).progress[m.position] == WordProgress::Failed,
        help_model(m).help == !m.help,
        advance_model(help_model(m), now_ms).progress[m.position] == WordProgress::Failed,
{
    lemma_help_preserves_inv(m);
}

/// Law: a `Failed` tag is sticky — no later command, whichever it is,
/// turns it into anything else.
pub proof fn lemma_failed_is_sticky(m: SessionModel, now_ms: int, i: int)
    requires
        session_inv(m),
        0 <= i < m.progress.len(),
        m.progress[i] == WordProgress::Failed,
    ensures
        advance_model(m, now_ms).progress[i] == WordProgress::Failed,
        help_model(m).progress[i] == WordProgress::Failed,
        tick_model(m, now_ms).progress[i] == WordProgress::Failed,
{
}

} // verus!
