use term_render::{Color, Drawable, Group, Pixel, PixelError, PX};

#[test]
fn color_new_keeps_components() {
    let c = Color::new(1, 2, 3);
    assert_eq!((c.r, c.g, c.b), (1, 2, 3));
    let d: Color = (4, 5, 6).into();
    assert_eq!(d, Color::new(4, 5, 6));
}

#[test]
fn color_randomize_chains() {
    let mut c = Color::new(0, 0, 0);
    let copy = *c.randomize();
    assert_eq!(copy, c);
}

#[test]
fn pixel_to_string_exact() {
    let p = Pixel::from_rgb(0, 0, 255, 10, 0);
    assert_eq!(p.to_string(), "\x1b[1;1H\x1b[38;2;255;10;0m██\x1b[0m");
    let q = Pixel::new(79, 23, Color::new(7, 8, 9));
    assert_eq!(q.to_string(), "\x1b[24;80H\x1b[38;2;7;8;9m██\x1b[0m");
}

#[test]
fn pixel_to_string_custom_glyph() {
    let p = Pixel::with_glyph(3, 4, Color::new(1, 1, 1), "@").unwrap();
    assert_eq!(p.to_string(), "\x1b[5;4H\x1b[38;2;1;1;1m@\x1b[0m");
    assert_eq!(p.glyph(), "@");
}

#[test]
fn pixel_to_string_regenerated_after_move() {
    let mut p = Pixel::from_rgb(1, 1, 0, 0, 0);
    let before = p.to_string();
    p.x = 9;
    p.color = Color::new(9, 9, 9);
    let after = p.to_string();
    assert_ne!(before, after);
    assert_eq!(after, "\x1b[2;10H\x1b[38;2;9;9;9m██\x1b[0m");
}

#[test]
fn pixel_equality_by_position_only() {
    let a = Pixel::from_rgb(5, 6, 1, 2, 3);
    let b = Pixel::with_glyph(5, 6, Color::new(200, 100, 0), "x").unwrap();
    let c = Pixel::from_rgb(6, 5, 1, 2, 3);
    let d = Pixel::from_rgb(5, 7, 1, 2, 3);
    assert!(a == b);
    assert!(a != c);
    assert!(a != d);
    assert!(!(a != b));
}

#[test]
fn glyph_up_to_two_chars_accepted() {
    assert!(Pixel::with_glyph(0, 0, Color::new(0, 0, 0), "").is_ok());
    assert!(Pixel::with_glyph(0, 0, Color::new(0, 0, 0), "a").is_ok());
    assert!(Pixel::with_glyph(0, 0, Color::new(0, 0, 0), "ab").is_ok());
    assert!(Pixel::with_glyph(0, 0, Color::new(0, 0, 0), PX).is_ok());
    assert!(Pixel::with_glyph(0, 0, Color::new(0, 0, 0), "éé").is_ok());
}

#[test]
fn glyph_longer_than_two_chars_refused() {
    let r = Pixel::with_glyph(0, 0, Color::new(0, 0, 0), "abc");
    assert!(matches!(r, Err(PixelError::GlyphTooLong)));
    let r = Pixel::with_glyph(0, 0, Color::new(0, 0, 0), "███");
    assert!(matches!(r, Err(PixelError::GlyphTooLong)));
}

#[test]
fn pixel_default_glyph() {
    let p = Pixel::at(2, 3);
    assert_eq!((p.x, p.y), (2, 3));
    assert_eq!(p.glyph(), "██");
    assert_eq!(PX.chars().count(), 2);
}

#[test]
fn randomize_position_stays_in_bounds() {
    let mut p = Pixel::from_rgb(0, 0, 1, 2, 3);
    for _ in 0..200 {
        p.randomize_position(7, 3);
        assert!(p.x < 7);
        assert!(p.y < 3);
        assert_eq!(p.color, Color::new(1, 2, 3));
    }
    p.randomize_position(1, 1);
    assert_eq!((p.x, p.y), (0, 0));
}

#[test]
fn drawable_renders_in_order() {
    let a = Pixel::from_rgb(0, 0, 1, 1, 1);
    let b = Pixel::from_rgb(1, 0, 2, 2, 2);
    let d: Drawable = vec![a, b].into();
    assert_eq!(d.to_string(), format!("{}{}", a.to_string(), b.to_string()));
    match d.as_group() {
        Group::Multi(ps) => assert_eq!(ps.len(), 2),
        Group::Single(_) => panic!("expected a run of pixels"),
    }
}
