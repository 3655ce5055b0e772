use ash_gui::button::{Button, DrawCall};

fn sample() -> Button {
    Button::new(10, 10, 50, 20, "OK")
}

#[test]
fn new_keeps_fields() {
    let b = sample();
    assert_eq!((b.x, b.y, b.width, b.height), (10, 10, 50, 20));
    assert_eq!(b.label, "OK");
}

#[test]
fn hit_lower_corner_inside() {
    assert!(sample().handle_click(10, 10));
}

#[test]
fn hit_upper_corner_inside() {
    assert!(sample().handle_click(60, 30));
}

#[test]
fn hit_past_right_edge_outside() {
    assert!(!sample().handle_click(61, 30));
}

#[test]
fn hit_left_of_button_outside() {
    assert!(!sample().handle_click(9, 15));
}

#[test]
fn hit_below_and_above() {
    let b = sample();
    assert!(b.handle_click(35, 20));
    assert!(!b.handle_click(35, 31));
    assert!(!b.handle_click(35, 9));
}

#[test]
fn hit_at_extreme_coordinates() {
    let b = Button::new(i32::MAX - 1, i32::MIN, u32::MAX, 0, "edge");
    assert!(b.handle_click(i32::MAX, i32::MIN));
    assert!(!b.handle_click(i32::MAX - 2, i32::MIN));
    assert!(!b.handle_click(i32::MAX, i32::MIN + 1));
}

#[test]
fn quad_corners() {
    assert_eq!(sample().vertices(), vec![(10, 10), (60, 10), (60, 30), (10, 30)]);
}

#[test]
fn draw_is_six_vertices() {
    assert_eq!(
        sample().draw(),
        DrawCall { vertex_count: 6, instance_count: 1, first_vertex: 0, first_instance: 0 }
    );
}
