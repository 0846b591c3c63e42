use ramune::Color;

#[test]
fn new_keeps_the_channels() {
    let color = Color::new(1, 2, 3, 4);
    assert_eq!((color.r, color.g, color.b, color.a), (1, 2, 3, 4));
}

#[test]
fn named_colors_have_their_exact_channels() {
    assert_eq!(Color::white(), Color::new(255, 255, 255, 255));
    assert_eq!(Color::black(), Color::new(0, 0, 0, 255));
    assert_eq!(Color::red(), Color::new(255, 0, 0, 255));
    assert_eq!(Color::green(), Color::new(0, 255, 0, 255));
    assert_eq!(Color::blue(), Color::new(0, 0, 255, 255));
    assert_eq!(Color::cornflower_blue(), Color::new(100, 149, 237, 255));
}

#[test]
fn colors_are_plain_values() {
    let color = Color::new(9, 8, 7, 6);
    let copy = color;
    assert_eq!(color, copy);
    assert_ne!(color, Color::new(9, 8, 7, 5));
}
