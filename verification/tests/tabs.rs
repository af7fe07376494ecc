use acreetionos::tabs::tab_to_close;

#[test]
fn closes_current_when_several_open() {
    assert_eq!(tab_to_close(Some(2), 3), Some(2));
    assert_eq!(tab_to_close(Some(0), 2), Some(0));
}

#[test]
fn keeps_last_tab() {
    assert_eq!(tab_to_close(Some(0), 1), None);
}

#[test]
fn nothing_without_current_page() {
    assert_eq!(tab_to_close(None, 3), None);
    assert_eq!(tab_to_close(None, 0), None);
}
