use crate::order::is_permutation_of;
use crate::order::shuffled_order;
use crate::selection::Focus;
use crate::selection::Selection;
use crate::session::LearnSession;
use crate::session::advance_model;
use crate::session::help_model;
use crate::session::initial_model;
use crate::session::session_inv;
use crate::session::tick_model;
use crate::vocab::Category;
use vstd::prelude::*;

verus! {

/// One event from the producer: a periodic tick, or one key press.
#[derive(Clone, Copy, PartialEq, Eq, Structural, Debug)]
pub enum Event {
    Tick,
    Key(char),
}

/// What the caller of the dispatcher has to do after one event: keep going,
/// stop the application, or fire the external lookup/playback collaborator
/// for the word at the given place in the vocabulary.
#[derive(Clone, Copy, PartialEq, Eq, Structural, Debug)]
pub enum Action {
    Continue,
    Quit,
    Lookup { category_index: usize, word_index: usize },
}

/// The active tab: browsing the vocabulary, or running a learn session.
/// A learn session exists exactly while the learn tab is active, so no
/// learn-only command can ever act without one.
pub enum Mode {
    Browse,
    Learn(LearnSession),
}

/// The whole application state: the read-only vocabulary, the cursor over
/// it, and the active mode.
pub struct App {
    pub categories: Vec<Category>,
    pub selection: Selection,
    pub mode: Mode,
}

/// The keys the browse tab acts on; every other key is ignored there.
pub open spec fn browse_acts_on(c: char) -> bool {
    c == 'q' || c == 'j' || c == 'k' || c == 'h' || c == 'l' || c == 'v' || c == '2'
}

/// The keys the learn tab acts on; every other key is ignored there.
pub open spec fn learn_acts_on(c: char) -> bool {
    c == 'q' || c == '1' || c == 'n' || c == 'h'
}

impl App {
    /// The vocabulary is non-empty and well formed, the cursor stays within
    /// it, the per-category word counts the cursor clamps against are the
    /// real ones, and an active learn session is well formed and sized for
    /// the selected category.
    pub open spec fn wf(&self) -> bool {
        &&& self.categories@.len() >= 1
        &&& forall|i: int|
            0 <= i < self.categories@.len() ==> (#[trigger] self.categories@[i]).wf()
        &&& self.selection.wf()
        &&& self.selection.word_counts@.len() == self.categories@.len()
        &&& forall|i: int|
            0 <= i < self.categories@.len() ==> #[trigger] self.selection.word_counts@[i]
                == self.categories@[i].words@.len()
        &&& self.mode matches Mode::Learn(s) ==> {
            &&& session_inv(s@)
            &&& s@.order.len()
                == self.categories@[self.selection.category_index as int].words@.len()
        }
    }

    /// Start in browse mode, cursor on the first category and its first
    /// word, over a loaded, validated vocabulary.
    pub fn new(categories: Vec<Category>) -> (r: App)
        requires
            categories@.len() >= 1,
            forall|i: int| 0 <= i < categories@.len() ==> (#[trigger] categories@[i]).wf(),
        ensures
            r.wf(),
            r.categories == categories,
            r.mode is Browse,
            r.selection.category_index == 0,
            r.selection.word_index == 0,
            r.selection.focus == Focus::Categories,
    {
        let n = categories.len();
        let mut counts: Vec<usize> = Vec::new();
        let mut i: usize = 0;
        while i < n
            invariant
                n == categories@.len(),
                i <= n,
                counts@.len() == i,
                forall|j: int| 0 <= j < categories@.len() ==> (#[trigger] categories@[j]).wf(),
                forall|j: int|
                    0 <= j < i ==> #[trigger] counts@[j] == categories@[j].words@.len(),
            decreases n - i,
        {
            let c = &categories[i];
            counts.push(c.words.len());
            i = i + 1;
        }
        let selection = Selection::new(counts);
        App { categories, selection, mode: Mode::Browse }
    }

    /// Rebuild the learn session from the currently selected category: a
    /// freshly drawn random order over its words, all progress back to the
    /// initial layout, the clock restarted at `now_ms`, and the cursor
    /// aligned with order position 0.
    fn enter_learn(&mut self, now_ms: u64)
        requires
            old(self).wf(),
        ensures
            final(self).wf(),
            final(self).categories == old(self).categories,
            final(self).selection == (Selection {
                word_index: 0,
                focus: Focus::Words,
                ..old(self).selection
            }),
            (final(self).mode matches Mode::Learn(s) && {
                let n = old(self).categories@[old(self).selection.category_index as int].words@.len();
                &&& s@.order.len() == n
                &&& is_permutation_of(s@.order, n)
                &&& s@ == initial_model(s@.order, now_ms as int)
            }),
    {
        let ci = self.selection.category_index();
        let n = self.categories[ci].words.len();
        let order = shuffled_order(n);
        let session = LearnSession::new(order, now_ms);
        self.selection.reset_word_index();
        self.selection.focus_right(n);
        self.mode = Mode::Learn(session);
    }

    /// Consume one event at time `now_ms` and dispatch it: 'q' stops the
    /// application from either tab; browse keys move the cursor, switch
    /// focus, trigger the external lookup or enter learn mode; learn keys
    /// advance or reveal the current word — inert once the session is done
    /// — or return to browse mode, resetting the cursor; ticks only refresh
    /// the elapsed time of a running session. Every other key is ignored.
    pub fn handle_event(&mut self, event: Event, now_ms: u64) -> (r: Action)
        requires
            old(self).wf(),
        ensures
            final(self).wf(),
            final(self).categories == old(self).categories,
            final(self).selection.word_counts == old(self).selection.word_counts,
            (r == Action::Quit) <==> (event == Event::Key('q')),
            event == Event::Key('q') ==> *final(self) == *old(self),
            old(self).mode is Browse ==> {
                &&& event == Event::Tick ==> *final(self) == *old(self) && r == Action::Continue
                &&& event == Event::Key('j') ==> final(self).mode is Browse
                    && final(self).selection == Selection::down_spec(old(self).selection)
                    && r == Action::Continue
                &&& event == Event::Key('k') ==> final(self).mode is Browse
                    && final(self).selection == Selection::up_spec(old(self).selection)
                    && r == Action::Continue
                &&& event == Event::Key('h') ==> final(self).mode is Browse
                    && final(self).selection == (Selection {
                        focus: Focus::Categories,
                        ..old(self).selection
                    })
                    && r == Action::Continue
                &&& event == Event::Key('l') ==> final(self).mode is Browse
                    && final(self).selection == (Selection {
                        focus: Focus::Words,
                        ..old(self).selection
                    })
                    && r == Action::Continue
                &&& event == Event::Key('v') ==> *final(self) == *old(self)
                    && r == (Action::Lookup {
                        category_index: old(self).selection.category_index,
                        word_index: old(self).selection.word_index,
                    })
                &&& event == Event::Key('2') ==> (final(self).mode matches Mode::Learn(s) && {
                    let n =
                        old(self).categories@[old(self).selection.category_index as int].words@.len();
                    &&& s@.order.len() == n
                    &&& is_permutation_of(s@.order, n)
                    &&& s@ == initial_model(s@.order, now_ms as int)
                })
                    && final(self).selection == (Selection {
                        word_index: 0,
                        focus: Focus::Words,
                        ..old(self).selection
                    })
                    && r == Action::Continue
                &&& (event matches Event::Key(c) && !browse_acts_on(c)) ==> *final(self)
                    == *old(self) && r == Action::Continue
            },
            old(self).mode matches Mode::Learn(s) ==> {
                &&& event == Event::Tick ==> (final(self).mode matches Mode::Learn(t)
                    && t@ == tick_model(s@, now_ms as int))
                    && final(self).selection == old(self).selection
                    && r == Action::Continue
                &&& event == Event::Key('1') ==> final(self).mode is Browse
                    && final(self).selection == (Selection {
                        category_index: 0,
                        word_index: 0,
                        focus: Focus::Categories,
                        ..old(self).selection
                    })
                    && r == Action::Continue
                &&& (event == Event::Key('n') && !s@.done) ==> (final(self).mode
                    matches Mode::Learn(t) && t@ == advance_model(s@, now_ms as int))
                    && final(self).selection == old(self).selection
                    && r == Action::Continue
                &&& (event == Event::Key('n') && s@.done) ==> *final(self) == *old(self)
                    && r == Action::Continue
                &&& (event == Event::Key('h') && !s@.done) ==> (final(self).mode
                    matches Mode::Learn(t) && t@ == help_model(s@))
                    && final(self).selection == old(self).selection
                    && r == Action::Continue
                &&& (event == Event::Key('h') && s@.done) ==> *final(self) == *old(self)
                    && r == Action::Continue
                &&& (event matches Event::Key(c) && !learn_acts_on(c)) ==> *final(self)
                    == *old(self) && r == Action::Continue
            },
    {
        let in_browse = matches!(self.mode, Mode::Browse);
        match event {
            Event::Tick => {
                match &mut self.mode {
                    Mode::Browse => {},
                    Mode::Learn(s) => {
                        s.tick(now_ms);
                    },
                }
                Action::Continue
            },
            Event::Key(c) => {
                if c == 'q' {
                    return Action::Quit;
                }
                if in_browse {
                    if c == 'j' {
                        self.selection.down();
                        Action::Continue
                    } else if c == 'k' {
                        self.selection.up();
                        Action::Continue
                    } else if c == 'h' {
                        self.selection.focus_left();
                        Action::Continue
                    } else if c == 'l' {
                        let ci = self.selection.category_index();
                        let wc = self.categories[ci].words.len();
                        self.selection.focus_right(wc);
                        Action::Continue
                    } else if c == 'v' {
                        Action::Lookup {
                            category_index: self.selection.category_index(),
                            word_index: self.selection.word_index(),
                        }
                    } else if c == '2' {
                        self.enter_learn(now_ms);
                        Action::Continue
                    } else {
                        Action::Continue
                    }
                } else {
                    if c == '1' {
                        self.selection.reset();
                        self.mode = Mode::Browse;
                        Action::Continue
                    } else if c == 'n' {
                        match &mut self.mode {
                            Mode::Browse => {},
                            Mode::Learn(s) => {
                                if !s.is_done() {
                                    s.next(now_ms);
                                }
                            },
                        }
                        Action::Continue
                    } else if c == 'h' {
                        match &mut self.mode {
                            Mode::Browse => {},
                            Mode::Learn(s) => {
                                if !s.is_done() {
                                    s.toggle_help();
                                }
                            },
                        }
                        Action::Continue
                    } else {
                        Action::Continue
                    }
                }
            },
        }
    }
}

} // verus!
