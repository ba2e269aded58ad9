use crate::order::is_permutation_of;
use vstd::prelude::*;

verus! {

/// Progress of one word within a learn session.
///
/// Every word starts at `Next`; the word under the cursor is `Current`; a
/// word advanced past without help becomes `Valided`; a word for which help
/// was requested is `Failed` and stays so.
#[derive(Clone, Copy, PartialEq, Eq, Structural, Debug)]
pub enum WordProgress {
    Next,
    Current,
    Valided,
    Failed,
}

/// Mathematical model of a learn session: the shuffled visiting order (as
/// indices into the category's word list), the per-word progress tags, the
/// cursor position within the order, and the timing and completion state.
#[verifier::ext_equal]
pub ghost struct SessionModel {
    pub order: Seq<usize>,
    pub progress: Seq<WordProgress>,
    pub position: int,
    pub start_ms: int,
    pub elapsed_ms: int,
    pub done: bool,
    pub help: bool,
}

/// Milliseconds from `start_ms` to `now_ms`, zero if the clock reads
/// earlier than the start.
pub open spec fn elapsed_since(start_ms: int, now_ms: int) -> int {
    if now_ms >= start_ms {
        now_ms - start_ms
    } else {
        0
    }
}

/// Well-formedness of a session over `order.len()` words: the order is a
/// permutation, the cursor is in range, everything before the cursor has
/// been graded (`Valided` or `Failed`), everything after it is still
/// `Next`, the word under the cursor is `Current` or `Failed` while the
/// session runs, and a finished session stands graded at the last position.
pub open spec fn session_inv(m: SessionModel) -> bool {
    let n = m.order.len();
    &&& n >= 1
    &&& is_permutation_of(m.order, n)
    &&& m.progress.len() == n
    &&& 0 <= m.position < n
    &&& forall|i: int|
        m.position < i < n ==> #[trigger] m.progress[i] == WordProgress::Next
    &&& forall|i: int|
        0 <= i < m.position ==> (#[trigger] m.progress[i] == WordProgress::Valided
            || m.progress[i] == WordProgress::Failed)
    &&& !m.done ==> (m.progress[m.position] == WordProgress::Current
        || m.progress[m.position] == WordProgress::Failed)
    &&& m.done ==> {
        &&& m.position == n - 1
        &&& (m.progress[m.position] == WordProgress::Valided || m.progress[m.position]
            == WordProgress::Failed)
    }
}

/// A fresh session over the given order, started at `start_ms`: cursor at
/// position 0, the first word in the order `Current`, every other word
/// `Next`, clock at zero, not done, help hidden.
pub open spec fn initial_model(order: Seq<usize>, start_ms: int) -> SessionModel {
    SessionModel {
        order: order,
        progress: Seq::new(order.len(), |i: int| if i == 0 {
            WordProgress::Current
        } else {
            WordProgress::Next
        }),
        position: 0,
        start_ms: start_ms,
        elapsed_ms: 0,
        done: false,
        help: false,
    }
}

/// What a "next" command does at time `now_ms`: grade the word under the
/// cursor (`Valided` unless it already `Failed`), then either move the
/// cursor forward and mark the new word `Current` (hiding help), or — at
/// the last position — set `done` and freeze the elapsed time. A finished
/// session is left untouched.
pub open spec fn advance_model(m: SessionModel, now_ms: int) -> SessionModel {
    if m.done {
        m
    } else {
        let graded = if m.progress[m.position] == WordProgress::Failed {
            m.progress
        } else {
            m.progress.update(m.position, WordProgress::Valided)
        };
        if m.position < m.order.len() - 1 {
            SessionModel {
                progress: graded.update(m.position + 1, WordProgress::Current),
                position: m.position + 1,
                help: false,
                ..m
            }
        } else {
            SessionModel {
                progress: graded,
                done: true,
                elapsed_ms: elapsed_since(m.start_ms, now_ms),
                ..m
            }
        }
    }
}

/// What a "help" command does: mark the word under the cursor `Failed` —
/// idempotently, so asking twice changes nothing more — and toggle the
/// help display. A finished session is left untouched.
pub open spec fn help_model(m: SessionModel) -> SessionModel {
    if m.done {
        m
    } else {
        SessionModel {
            progress: m.progress.update(m.position, WordProgress::Failed),
            help: !m.help,
            ..m
        }
    }
}

/// What a tick does at time `now_ms`: refresh the elapsed time while the
/// session runs; once done, the frozen value stands and nothing changes.
pub open spec fn tick_model(m: SessionModel, now_ms: int) -> SessionModel {
    if m.done {
        m
    } else {
        SessionModel { elapsed_ms: elapsed_since(m.start_ms, now_ms), ..m }
    }
}

/// A fresh session is well formed and has the documented initial layout.
pub proof fn lemma_initial_inv(order: Seq<usize>, start_ms: int)
    requires
        order.len() >= 1,
        is_permutation_of(order, order.len()),
    ensures
        session_inv(initial_model(order, start_ms)),
{
}

/// Advancing preserves well-formedness.
pub proof fn lemma_advance_preserves_inv(m: SessionModel, now_ms: int)
    requires
        session_inv(m),
    ensures
        session_inv(advance_model(m, now_ms)),
{
}

/// Asking for help preserves well-formedness.
pub proof fn lemma_help_preserves_inv(m: SessionModel)
    requires
        session_inv(m),
    ensures
        session_inv(help_model(m)),
{
}

/// A tick preserves well-formedness.
pub proof fn lemma_tick_preserves_inv(m: SessionModel, now_ms: int)
    requires
        session_inv(m),
    ensures
        session_inv(tick_model(m, now_ms)),
{
}

/// One quiz pass over the words of a single category: the shuffled order,
/// the per-word progress tags, the cursor, and the timing state.
pub struct LearnSession {
    pub order: Vec<usize>,
    pub progress: Vec<WordProgress>,
    pub position: usize,
    pub start_ms: u64,
    pub elapsed_ms: u64,
    pub done: bool,
    pub help: bool,
}

impl View for LearnSession {
    type V = SessionModel;

    open spec fn view(&self) -> SessionModel {
        SessionModel {
            order: self.order@,
            progress: self.progress@,
            position: self.position as int,
            start_ms: self.start_ms as int,
            elapsed_ms: self.elapsed_ms as int,
            done: self.done,
            help: self.help,
        }
    }
}

impl LearnSession {
    /// Start a session that visits the words of an `order.len()`-word
    /// category in the given order at time `now_ms`: the first word in the
    /// order is `Current`, all others `Next`.
    pub fn new(order: Vec<usize>, now_ms: u64) -> (r: LearnSession)
        requires
            order@.len() >= 1,
            is_permutation_of(order@, order@.len()),
        ensures
            r@ == initial_model(order@, now_ms as int),
            session_inv(r@),
    {
        let n = order.len();
        let mut progress: Vec<WordProgress> = Vec::new();
        let mut i: usize = 0;
        while i < n
            invariant
                i <= n,
                progress@.len() == i,
                forall|j: int|
                    0 <= j < i ==> #[trigger] progress@[j] == (if j == 0 {
                        WordProgress::Current
                    } else {
                        WordProgress::Next
                    }),
            decreases n - i,
        {
            if i == 0 {
                progress.push(WordProgress::Current);
            } else {
                progress.push(WordProgress::Next);
            }
            i = i + 1;
        }
        let r = LearnSession {
            order,
            progress,
            position: 0,
            start_ms: now_ms,
            elapsed_ms: 0,
            done: false,
            help: false,
        };
        proof {
            assert(r@ =~= initial_model(r.order@, now_ms as int));
            lemma_initial_inv(r.order@, now_ms as int);
        }
        r
    }

    /// Handle a "next" command at time `now_ms`: grade the current word,
    /// then move on, or finish the session at the last word.
    pub fn next(&mut self, now_ms: u64)
        requires
            session_inv(old(self)@),
            !old(self)@.done,
        ensures
            final(self)@ == advance_model(old(self)@, now_ms as int),
            session_inv(final(self)@),
    {
        if self.progress[self.position] != WordProgress::Failed {
            self.progress.set(self.position, WordProgress::Valided);
        }
        if self.position < self.order.len() - 1 {
            self.position = self.position + 1;
            self.progress.set(self.position, WordProgress::Current);
            self.help = false;
        } else {
            self.done = true;
            self.elapsed_ms = if now_ms >= self.start_ms {
                now_ms - self.start_ms
            } else {
                0
            };
        }
        proof {
            assert(self@ =~= advance_model(old(self)@, now_ms as int));
            lemma_advance_preserves_inv(old(self)@, now_ms as int);
        }
    }

    /// Handle a "help" command: the current word is marked `Failed` — once
    /// help was asked for a word it can no longer score as recalled — and
    /// the help display toggles.
    pub fn toggle_help(&mut self)
        requires
            session_inv(old(self)@),
            !old(self)@.done,
        ensures
            final(self)@ == help_model(old(self)@),
            session_inv(final(self)@),
    {
        self.progress.set(self.position, WordProgress::Failed);
        self.help = !self.help;
        proof {
            assert(self@ =~= help_model(old(self)@));
            lemma_help_preserves_inv(old(self)@);
        }
    }

    /// Handle a tick at time `now_ms`: refresh the elapsed time while the
    /// session runs; a finished session keeps its frozen value.
    pub fn tick(&mut self, now_ms: u64)
        requires
            session_inv(old(self)@),
        ensures
            final(self)@ == tick_model(old(self)@, now_ms as int),
            session_inv(final(self)@),
    {
        if !self.done {
            self.elapsed_ms = if now_ms >= self.start_ms {
                now_ms - self.start_ms
            } else {
                0
            };
        }
        proof {
            assert(self@ =~= tick_model(old(self)@, now_ms as int));
            lemma_tick_preserves_inv(old(self)@, now_ms as int);
        }
    }

    /// How many words the session visits.
    pub fn len(&self) -> (r: usize)
        ensures
            r == self@.order.len(),
    {
        self.order.len()
    }

    /// Whether the pass over the category is complete.
    pub fn is_done(&self) -> (r: bool)
        ensures
            r == self@.done,
    {
        self.done
    }

    /// The elapsed time to display: running while the session runs, frozen
    /// once done.
    pub fn elapsed_ms(&self) -> (r: u64)
        ensures
            r == self@.elapsed_ms,
    {
        self.elapsed_ms
    }

    /// Cursor position within the visiting order.
    pub fn position(&self) -> (r: usize)
        ensures
            r == self@.position,
    {
        self.position
    }

    /// Which word of the category stands at position `i` of the visiting
    /// order.
    pub fn word_at(&self, i: usize) -> (r: usize)
        requires
            session_inv(self@),
            i < self@.order.len(),
        ensures
            r == self@.order[i as int],
            r < self@.order.len(),
    {
        self.order[i]
    }

    /// Progress tag of the word at position `i` of the visiting order.
    pub fn progress_at(&self, i: usize) -> (r: WordProgress)
        requires
            session_inv(self@),
            i < self@.order.len(),
        ensures
            r == self@.progress[i as int],
    {
        self.progress[i]
    }

    /// Whether the help display is currently visible.
    pub fn help_visible(&self) -> (r: bool)
        ensures
            r == self@.help,
    {
        self.help
    }
}

} // verus!
