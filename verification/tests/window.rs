use paper_display::window::Window;

#[test]
fn window_of_inner_rectangle() {
    let w = Window::from_rect(8, 10, 16, 5).unwrap();
    assert_eq!((w.x_start, w.x_end), (1, 2));
    assert_eq!((w.y_start, w.y_end), (10, 14));
}

#[test]
fn window_of_whole_panel() {
    let w = Window::from_rect(0, 0, 250, 122).unwrap();
    assert_eq!(w, Window { x_start: 0, x_end: 31, y_start: 0, y_end: 121 });
}

#[test]
fn window_of_partial_scenario() {
    let w = Window::from_rect(8, 16, 16, 8).unwrap();
    assert_eq!(w, Window { x_start: 1, x_end: 2, y_start: 16, y_end: 23 });
}

#[test]
fn window_is_clamped_to_the_panel() {
    let w = Window::from_rect(240, 120, 100, 100).unwrap();
    assert_eq!(w, Window { x_start: 30, x_end: 31, y_start: 120, y_end: 121 });
    let w = Window::from_rect(249, 121, u16::MAX, u16::MAX).unwrap();
    assert_eq!(w, Window { x_start: 31, x_end: 31, y_start: 121, y_end: 121 });
    let w = Window::from_rect(0, 0, u16::MAX, u16::MAX).unwrap();
    assert_eq!(w, Window { x_start: 0, x_end: 31, y_start: 0, y_end: 121 });
}

#[test]
fn window_of_single_pixel() {
    let w = Window::from_rect(7, 0, 1, 1).unwrap();
    assert_eq!(w, Window { x_start: 0, x_end: 0, y_start: 0, y_end: 0 });
    let w = Window::from_rect(8, 0, 1, 1).unwrap();
    assert_eq!(w, Window { x_start: 1, x_end: 1, y_start: 0, y_end: 0 });
    let w = Window::from_rect(7, 3, 2, 1).unwrap();
    assert_eq!(w, Window { x_start: 0, x_end: 1, y_start: 3, y_end: 3 });
}

#[test]
fn no_window_off_the_panel() {
    assert_eq!(Window::from_rect(250, 0, 10, 10), None);
    assert_eq!(Window::from_rect(0, 122, 10, 10), None);
    assert_eq!(Window::from_rect(u16::MAX, u16::MAX, u16::MAX, u16::MAX), None);
}

#[test]
fn no_window_for_empty_rectangle() {
    assert_eq!(Window::from_rect(0, 0, 0, 10), None);
    assert_eq!(Window::from_rect(0, 0, 10, 0), None);
    assert_eq!(Window::from_rect(9, 9, 0, 0), None);
}
