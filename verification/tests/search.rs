use acreetionos::search::{
    cleared_match_count_text, match_count_text, next_search_step, SearchEvent, SearchStep,
    SEARCH_INITIALLY_VISIBLE,
};

#[test]
fn starts_hidden() {
    assert!(!SEARCH_INITIALLY_VISIBLE);
}

#[test]
fn toggle_opens_with_focus_and_closes_without() {
    assert_eq!(
        next_search_step(false, SearchEvent::Toggle),
        SearchStep { visible: true, focus_entry: true }
    );
    assert_eq!(
        next_search_step(true, SearchEvent::Toggle),
        SearchStep { visible: false, focus_entry: false }
    );
}

#[test]
fn close_hides() {
    assert_eq!(
        next_search_step(true, SearchEvent::Close),
        SearchStep { visible: false, focus_entry: false }
    );
    assert_eq!(
        next_search_step(false, SearchEvent::Close),
        SearchStep { visible: false, focus_entry: false }
    );
}

#[test]
fn toggle_twice_restores() {
    for v in [false, true] {
        let once = next_search_step(v, SearchEvent::Toggle);
        assert_eq!(next_search_step(once.visible, SearchEvent::Toggle).visible, v);
    }
}

#[test]
fn counter_text() {
    assert_eq!(match_count_text(3, 12), "3/12");
    assert_eq!(match_count_text(0, 0), "0/0");
    assert_eq!(match_count_text(10, 100), "10/100");
    assert_eq!(match_count_text(1234567, 9), "1234567/9");
    assert_eq!(match_count_text(usize::MAX, 1), format!("{}/1", usize::MAX));
}

#[test]
fn counter_text_matches_format() {
    for (c, t) in [(0usize, 1usize), (9, 10), (99, 1000), (42, 42), (100000, 7)] {
        assert_eq!(match_count_text(c, t), format!("{}/{}", c, t));
    }
}

#[test]
fn cleared_counter_is_empty() {
    assert_eq!(cleared_match_count_text(), "");
}

#[test]
fn counter_texts_tell_counts_apart() {
    assert_ne!(match_count_text(1, 23), match_count_text(12, 3));
    assert_ne!(match_count_text(10, 1), match_count_text(1, 1));
    assert_ne!(match_count_text(0, 10), match_count_text(0, 1));
}

#[test]
fn close_twice_is_close_once() {
    for v in [false, true] {
        let once = next_search_step(v, SearchEvent::Close);
        assert_eq!(next_search_step(once.visible, SearchEvent::Close), once);
    }
}
