use vocab_learn::Focus;
use vocab_learn::Selection;

#[test]
fn selection_starts_at_origin() {
    let s = Selection::new(vec![3, 1, 2]);
    assert_eq!(s.category_index(), 0);
    assert_eq!(s.word_index(), 0);
    assert_eq!(s.focus, Focus::Categories);
}

#[test]
fn selection_down_up_stay_in_bounds() {
    let mut s = Selection::new(vec![3, 1, 2]);
    // Category list has 3 entries; movement clamps at both ends.
    s.up();
    assert_eq!(s.category_index(), 0);
    s.down();
    assert_eq!(s.category_index(), 1);
    s.down();
    assert_eq!(s.category_index(), 2);
    s.down();
    assert_eq!(s.category_index(), 2);
    s.up();
    s.up();
    s.up();
    assert_eq!(s.category_index(), 0);
    assert_eq!(s.word_index(), 0);
}

#[test]
fn selection_word_movement_stays_in_bounds() {
    let mut s = Selection::new(vec![3, 1, 2]);
    s.focus_right(3);
    assert_eq!(s.focus, Focus::Words);
    s.down();
    s.down();
    assert_eq!(s.word_index(), 2);
    s.down();
    assert_eq!(s.word_index(), 2);
    s.up();
    assert_eq!(s.word_index(), 1);
    s.up();
    s.up();
    assert_eq!(s.word_index(), 0);
}

#[test]
fn selection_category_change_clamps_word_index() {
    let mut s = Selection::new(vec![3, 1, 2]);
    s.focus_right(3);
    s.down();
    s.down();
    assert_eq!(s.word_index(), 2);
    // Moving to a category with a single word clamps the word cursor.
    s.focus_left();
    s.down();
    assert_eq!(s.category_index(), 1);
    assert_eq!(s.word_index(), 0);
    // Moving on to a category with two words keeps it at 0.
    s.down();
    assert_eq!(s.category_index(), 2);
    assert_eq!(s.word_index(), 0);
}

#[test]
fn selection_focus_right_with_zero_words_reverts() {
    let mut s = Selection::new(vec![3, 1, 2]);
    s.focus_right(0);
    assert_eq!(s.focus, Focus::Categories);
}

#[test]
fn selection_focus_right_with_words_focuses_word_list() {
    let mut s = Selection::new(vec![3, 1, 2]);
    s.focus_right(1);
    assert_eq!(s.focus, Focus::Words);
    s.focus_left();
    assert_eq!(s.focus, Focus::Categories);
}

#[test]
fn selection_reset_returns_to_origin() {
    let mut s = Selection::new(vec![3, 1, 2]);
    s.down();
    s.focus_right(1);
    s.reset();
    assert_eq!(s.category_index(), 0);
    assert_eq!(s.word_index(), 0);
    assert_eq!(s.focus, Focus::Categories);
}

#[test]
fn selection_reset_word_index_keeps_category() {
    let mut s = Selection::new(vec![3, 1, 2]);
    s.focus_right(3);
    s.down();
    s.down();
    s.reset_word_index();
    assert_eq!(s.word_index(), 0);
    assert_eq!(s.category_index(), 0);
    assert_eq!(s.focus, Focus::Words);
}
