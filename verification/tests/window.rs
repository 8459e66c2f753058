use sensor_node::window::{RollingWindow, WINDOW_CAPACITY};

#[test]
fn new_window_is_empty() {
    let window = RollingWindow::new();
    assert!(window.is_empty());
    assert_eq!(window.len(), 0);
    assert_eq!(window.snapshot(), Vec::<i32>::new());
}

#[test]
fn capacity_is_ten() {
    assert_eq!(WINDOW_CAPACITY, 10);
}

#[test]
fn window_keeps_values_in_push_order() {
    let mut window = RollingWindow::new();
    window.push(2100);
    window.push(2000);
    window.push(2900);
    assert_eq!(window.snapshot(), vec![2100, 2000, 2900]);
    assert_eq!(window.as_slice(), &[2100, 2000, 2900]);
    assert_eq!(window.len(), 3);
    assert!(!window.is_empty());
}

#[test]
fn full_window_gives_up_its_oldest_value() {
    let mut window = RollingWindow::new();
    for value in 1..=10 {
        window.push(value);
    }
    assert_eq!(window.snapshot(), vec![1, 2, 3, 4, 5, 6, 7, 8, 9, 10]);
    window.push(11);
    assert_eq!(window.snapshot(), vec![2, 3, 4, 5, 6, 7, 8, 9, 10, 11]);
    window.push(12);
    assert_eq!(window.snapshot(), vec![3, 4, 5, 6, 7, 8, 9, 10, 11, 12]);
}

#[test]
fn window_holds_the_most_recent_values_after_any_number_of_pushes() {
    let mut window = RollingWindow::new();
    let mut pushed: Vec<i32> = Vec::new();
    for n in 0..35 {
        let value = (n * 37) % 1000 - 500;
        window.push(value);
        pushed.push(value);
        let kept = pushed.len().min(10);
        assert_eq!(window.len(), kept);
        assert_eq!(window.snapshot(), pushed[pushed.len() - kept..].to_vec());
    }
}
