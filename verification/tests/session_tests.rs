use vocab_learn::LearnSession;
use vocab_learn::WordProgress;
use vocab_learn::shuffled_order;

#[test]
fn shuffled_order_is_a_permutation() {
    let mut order = shuffled_order(6);
    assert_eq!(order.len(), 6);
    order.sort();
    assert_eq!(order, vec![0, 1, 2, 3, 4, 5]);
}

#[test]
fn shuffled_order_single_word() {
    assert_eq!(shuffled_order(1), vec![0]);
}

#[test]
fn session_start_layout() {
    let s = LearnSession::new(vec![1, 2, 0], 100);
    assert_eq!(s.len(), 3);
    assert_eq!(s.position(), 0);
    assert!(!s.is_done());
    assert_eq!(s.elapsed_ms(), 0);
    assert!(!s.help_visible());
    assert_eq!(s.progress_at(0), WordProgress::Current);
    assert_eq!(s.progress_at(1), WordProgress::Next);
    assert_eq!(s.progress_at(2), WordProgress::Next);
    assert_eq!(s.word_at(0), 1);
    assert_eq!(s.word_at(1), 2);
    assert_eq!(s.word_at(2), 0);
}

#[test]
fn session_next_drives_to_done() {
    let mut s = LearnSession::new(vec![2, 0, 1], 0);
    s.next(10);
    assert_eq!(s.position(), 1);
    assert!(!s.is_done());
    assert_eq!(s.progress_at(0), WordProgress::Valided);
    assert_eq!(s.progress_at(1), WordProgress::Current);
    assert_eq!(s.progress_at(2), WordProgress::Next);
    s.next(20);
    assert_eq!(s.position(), 2);
    assert!(!s.is_done());
    assert_eq!(s.progress_at(1), WordProgress::Valided);
    assert_eq!(s.progress_at(2), WordProgress::Current);
    s.next(30);
    assert!(s.is_done());
    assert_eq!(s.position(), 2);
    assert_eq!(s.progress_at(2), WordProgress::Valided);
    assert_eq!(s.elapsed_ms(), 30);
}

#[test]
fn session_single_word_finishes_at_once() {
    let mut s = LearnSession::new(vec![0], 500);
    s.next(750);
    assert!(s.is_done());
    assert_eq!(s.position(), 0);
    assert_eq!(s.progress_at(0), WordProgress::Valided);
    assert_eq!(s.elapsed_ms(), 250);
}

#[test]
fn session_tick_updates_elapsed_until_done() {
    let mut s = LearnSession::new(vec![0, 1], 1000);
    s.tick(1500);
    assert_eq!(s.elapsed_ms(), 500);
    s.tick(2200);
    assert_eq!(s.elapsed_ms(), 1200);
    s.next(2500);
    s.next(3000);
    assert!(s.is_done());
    assert_eq!(s.elapsed_ms(), 2000);
    // Once done the elapsed value is frozen at the moment of completion.
    s.tick(9000);
    assert_eq!(s.elapsed_ms(), 2000);
    s.tick(12345);
    assert_eq!(s.elapsed_ms(), 2000);
}

#[test]
fn session_help_marks_current_word_failed() {
    let mut s = LearnSession::new(vec![0, 1, 2], 0);
    s.toggle_help();
    assert_eq!(s.progress_at(0), WordProgress::Failed);
    assert!(s.help_visible());
    // The next command must not overwrite the failed tag with Valided.
    s.next(10);
    assert_eq!(s.progress_at(0), WordProgress::Failed);
    assert_eq!(s.progress_at(1), WordProgress::Current);
    assert!(!s.help_visible());
}

#[test]
fn session_help_twice_stays_failed() {
    let mut s = LearnSession::new(vec![0, 1], 0);
    s.toggle_help();
    assert!(s.help_visible());
    s.toggle_help();
    assert!(!s.help_visible());
    assert_eq!(s.progress_at(0), WordProgress::Failed);
}

#[test]
fn session_clock_before_start_reads_zero() {
    let mut s = LearnSession::new(vec![0, 1], 5000);
    s.tick(4000);
    assert_eq!(s.elapsed_ms(), 0);
    s.tick(5600);
    assert_eq!(s.elapsed_ms(), 600);
}

#[test]
fn session_help_on_last_word_keeps_failed_through_finish() {
    let mut s = LearnSession::new(vec![1, 0], 0);
    s.next(10);
    s.toggle_help();
    assert_eq!(s.progress_at(1), WordProgress::Failed);
    s.next(20);
    assert!(s.is_done());
    assert_eq!(s.progress_at(1), WordProgress::Failed);
    assert_eq!(s.progress_at(0), WordProgress::Valided);
}

#[test]
fn learn_scenario_three_words() {
    // Category "Animals" with words [A, B, C] (indices 0, 1, 2); the session
    // order is drawn as [B, C, A], that is [1, 2, 0].
    let names = ["A", "B", "C"];
    let mut s = LearnSession::new(vec![1, 2, 0], 4000);
    // After start: B=Current, C=Next, A=Next.
    assert_eq!(names[s.word_at(0)], "B");
    assert_eq!(s.progress_at(0), WordProgress::Current);
    assert_eq!(names[s.word_at(1)], "C");
    assert_eq!(s.progress_at(1), WordProgress::Next);
    assert_eq!(names[s.word_at(2)], "A");
    assert_eq!(s.progress_at(2), WordProgress::Next);
    // "next": B=Valided, C=Current.
    s.next(4100);
    assert_eq!(s.progress_at(0), WordProgress::Valided);
    assert_eq!(s.progress_at(1), WordProgress::Current);
    // "help": C=Failed, help visible.
    s.toggle_help();
    assert_eq!(s.progress_at(1), WordProgress::Failed);
    assert!(s.help_visible());
    // "next": C stays Failed, A=Current.
    s.next(4200);
    assert_eq!(s.progress_at(1), WordProgress::Failed);
    assert_eq!(s.progress_at(2), WordProgress::Current);
    // "next": A=Valided, session done, elapsed frozen.
    s.next(4300);
    assert_eq!(s.progress_at(2), WordProgress::Valided);
    assert!(s.is_done());
    assert_eq!(s.elapsed_ms(), 300);
    s.tick(9999);
    assert_eq!(s.elapsed_ms(), 300);
}
