use vstd::prelude::*;

verus! {

/// Which list currently receives up/down movement.
#[derive(Clone, Copy, PartialEq, Eq, Structural, Debug)]
pub enum Focus {
    Categories,
    Words,
}

/// Bounded cursor over the category list and the word list of the currently
/// selected category. `word_counts` records, per category, how many words it
/// holds, so that every movement can clamp the cursor without consulting the
/// vocabulary itself.
pub struct Selection {
    pub word_counts: Vec<usize>,
    pub category_index: usize,
    pub word_index: usize,
    pub focus: Focus,
}

/// `word_index` clamped to a list of `count` words (`count >= 1`).
pub open spec fn clamped(word_index: usize, count: usize) -> usize {
    if word_index < count {
        word_index
    } else {
        (count - 1) as usize
    }
}

impl Selection {
    /// Both indices stay within the bounds of the lists they point into;
    /// in particular `word_index` is valid for the currently selected
    /// category.
    pub open spec fn wf(&self) -> bool {
        &&& self.word_counts@.len() >= 1
        &&& forall|i: int| 0 <= i < self.word_counts@.len() ==> #[trigger] self.word_counts@[i] >= 1
        &&& self.category_index < self.word_counts@.len()
        &&& self.word_index < self.word_counts@[self.category_index as int]
    }

    /// What `down` does: one step forward in the focused list, clamped at the
    /// end; a category change re-clamps the word cursor for the new category.
    pub open spec fn down_spec(s: Selection) -> Selection {
        match s.focus {
            Focus::Categories => {
                if s.category_index + 1 < s.word_counts@.len() {
                    let ci = (s.category_index + 1) as usize;
                    Selection {
                        category_index: ci,
                        word_index: clamped(s.word_index, s.word_counts@[ci as int]),
                        ..s
                    }
                } else {
                    s
                }
            }
            Focus::Words => {
                if s.word_index + 1 < s.word_counts@[s.category_index as int] {
                    Selection { word_index: (s.word_index + 1) as usize, ..s }
                } else {
                    s
                }
            }
        }
    }

    /// What `up` does: one step back in the focused list, clamped at the
    /// start; a category change re-clamps the word cursor for the new
    /// category.
    pub open spec fn up_spec(s: Selection) -> Selection {
        match s.focus {
            Focus::Categories => {
                if s.category_index >= 1 {
                    let ci = (s.category_index - 1) as usize;
                    Selection {
                        category_index: ci,
                        word_index: clamped(s.word_index, s.word_counts@[ci as int]),
                        ..s
                    }
                } else {
                    s
                }
            }
            Focus::Words => {
                if s.word_index >= 1 {
                    Selection { word_index: (s.word_index - 1) as usize, ..s }
                } else {
                    s
                }
            }
        }
    }

    /// What `focus_right` does: focus moves to the word list, unless that
    /// list is empty, in which case focus stays on the category list.
    pub open spec fn focus_right_spec(s: Selection, word_count: usize) -> Selection {
        if word_count == 0 {
            Selection { focus: Focus::Categories, ..s }
        } else {
            Selection { focus: Focus::Words, ..s }
        }
    }

    /// A fresh cursor over categories with the given word counts, starting at
    /// the first category and its first word, focused on the category list.
    pub fn new(word_counts: Vec<usize>) -> (r: Selection)
        requires
            word_counts@.len() >= 1,
            forall|i: int| 0 <= i < word_counts@.len() ==> #[trigger] word_counts@[i] >= 1,
        ensures
            r.wf(),
            r.word_counts == word_counts,
            r.category_index == 0,
            r.word_index == 0,
            r.focus == Focus::Categories,
    {
        Selection { word_counts, category_index: 0, word_index: 0, focus: Focus::Categories }
    }

    /// Move one position down the focused list; no-op at the end. The cursor
    /// never leaves its bounds.
    pub fn down(&mut self)
        requires
            old(self).wf(),
        ensures
            *final(self) == Selection::down_spec(*old(self)),
            final(self).wf(),
    {
        match self.focus {
            Focus::Categories => {
                if self.category_index < self.word_counts.len() - 1 {
                    self.category_index = self.category_index + 1;
                    let count = self.word_counts[self.category_index];
                    if self.word_index >= count {
                        self.word_index = count - 1;
                    }
                }
            }
            Focus::Words => {
                if self.word_index < self.word_counts[self.category_index] - 1 {
                    self.word_index = self.word_index + 1;
                }
            }
        }
    }

    /// Move one position up the focused list; no-op at the start. The cursor
    /// never leaves its bounds.
    pub fn up(&mut self)
        requires
            old(self).wf(),
        ensures
            *final(self) == Selection::up_spec(*old(self)),
            final(self).wf(),
    {
        match self.focus {
            Focus::Categories => {
                if self.category_index >= 1 {
                    self.category_index = self.category_index - 1;
                    let count = self.word_counts[self.category_index];
                    if self.word_index >= count {
                        self.word_index = count - 1;
                    }
                }
            }
            Focus::Words => {
                if self.word_index >= 1 {
                    self.word_index = self.word_index - 1;
                }
            }
        }
    }

    /// Give up/down movement to the category list.
    pub fn focus_left(&mut self)
        requires
            old(self).wf(),
        ensures
            *final(self) == (Selection { focus: Focus::Categories, ..*old(self) }),
            final(self).wf(),
    {
        self.focus = Focus::Categories;
    }

    /// Give up/down movement to the word list, guarding against an empty
    /// word list: with `word_count == 0` focus reverts to the category list.
    pub fn focus_right(&mut self, word_count: usize)
        requires
            old(self).wf(),
        ensures
            *final(self) == Selection::focus_right_spec(*old(self), word_count),
            final(self).wf(),
            word_count == 0 ==> final(self).focus == Focus::Categories,
            word_count != 0 ==> final(self).focus == Focus::Words,
    {
        if word_count == 0 {
            self.focus = Focus::Categories;
        } else {
            self.focus = Focus::Words;
        }
    }

    /// Current category cursor.
    pub fn category_index(&self) -> (r: usize)
        ensures
            r == self.category_index,
    {
        self.category_index
    }

    /// Current word cursor.
    pub fn word_index(&self) -> (r: usize)
        ensures
            r == self.word_index,
    {
        self.word_index
    }

    /// Back to the first category and word, focus on the category list; used
    /// when re-entering browse mode after a learn session.
    pub fn reset(&mut self)
        requires
            old(self).wf(),
        ensures
            *final(self) == (Selection {
                category_index: 0,
                word_index: 0,
                focus: Focus::Categories,
                ..*old(self)
            }),
            final(self).wf(),
    {
        self.category_index = 0;
        self.word_index = 0;
        self.focus = Focus::Categories;
    }

    /// Word cursor back to the first word; used when entering learn mode to
    /// align the cursor with quiz order position 0.
    pub fn reset_word_index(&mut self)
        requires
            old(self).wf(),
        ensures
            *final(self) == (Selection { word_index: 0, ..*old(self) }),
            final(self).wf(),
    {
        self.word_index = 0;
    }
}

} // verus!
