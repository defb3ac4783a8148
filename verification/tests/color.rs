use sphere_plot::Color;

#[test]
fn new_keeps_the_channels() {
    let c = Color::new([1, 2, 3, 4]);
    assert_eq!(c.values(), &[1, 2, 3, 4]);
    assert_eq!((c.r(), c.g(), c.b(), c.a()), (1, 2, 3, 4));
}

#[test]
fn from_rbg_is_opaque() {
    let c = Color::from_rbg(10, 20, 30);
    assert_eq!(c.values(), &[10, 20, 30, 0xFF]);
    assert_eq!(c.a(), 255);
    assert_eq!(c, Color::new([10, 20, 30, 255]));
}

#[test]
fn equality_compares_all_channels() {
    assert_eq!(Color::new([1, 2, 3, 4]), Color::new([1, 2, 3, 4]));
    assert_ne!(Color::new([1, 2, 3, 4]), Color::new([1, 2, 3, 5]));
    assert_ne!(Color::new([0, 2, 3, 4]), Color::new([1, 2, 3, 4]));
}

#[test]
fn premultiplied_keeps_opaque_colours() {
    assert_eq!(Color::from_rbg(200, 100, 7).premultiplied(), [200, 100, 7, 255]);
}

#[test]
fn premultiplied_clears_transparent_colours() {
    assert_eq!(Color::new([200, 100, 7, 0]).premultiplied(), [0, 0, 0, 0]);
}

#[test]
fn premultiplied_scales_by_alpha() {
    assert_eq!(Color::new([255, 128, 0, 128]).premultiplied(), [128, 64, 0, 128]);
    assert_eq!(Color::new([100, 50, 1, 51]).premultiplied(), [20, 10, 0, 51]);
}

#[test]
fn opaque_colours_survive_the_backend_round_trip() {
    let c = Color::from_rbg(9, 99, 199);
    assert_eq!(Color::new(c.premultiplied()), c);
}
