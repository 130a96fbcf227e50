use triframe::cursor::{FrameCursor, POOL_SLOTS};

#[test]
fn advance_follows_rotation() {
    let mut cursor = FrameCursor::new();
    assert_eq!(cursor.current(), 0);
    let mut selected = Vec::new();
    for _ in 0..9 {
        selected.push(cursor.advance());
    }
    assert_eq!(selected, vec![1, 2, 0, 1, 2, 0, 1, 2, 0]);
}

#[test]
fn no_repeats_within_three_consecutive_frames() {
    let mut cursor = FrameCursor::new();
    let mut selected = Vec::new();
    for _ in 0..12 {
        selected.push(cursor.advance());
    }
    for window in selected.windows(POOL_SLOTS) {
        assert_ne!(window[0], window[1]);
        assert_ne!(window[1], window[2]);
        assert_ne!(window[0], window[2]);
    }
}

#[test]
fn advance_matches_initial_plus_i_mod_three() {
    let mut cursor = FrameCursor::new();
    let first = cursor.advance();
    let mut previous = first;
    for i in 1..20 {
        let slot = cursor.advance();
        assert_eq!(slot, (first + i) % POOL_SLOTS);
        assert_eq!(slot, (previous + 1) % POOL_SLOTS);
        previous = slot;
    }
}

#[test]
fn current_reports_last_selection() {
    let mut cursor = FrameCursor::new();
    let slot = cursor.advance();
    assert_eq!(cursor.current(), slot);
    let slot = cursor.advance();
    assert_eq!(cursor.current(), slot);
}
