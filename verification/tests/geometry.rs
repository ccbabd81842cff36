use vexide_simulator_protocol::color::{Color, Rgb8};
use vexide_simulator_protocol::draw::DrawCommand;
use vexide_simulator_protocol::geometry::{
    check_corners, GeometryError, Point2D, Rect, Shape,
};

fn point(x: i32, y: i32) -> Point2D {
    Point2D { x, y }
}

#[test]
fn rectangle_with_inverted_corners_is_refused() {
    assert_eq!(Rect::new(point(5, 0), point(4, 10)), Err(GeometryError::InvertedCorners));
    assert_eq!(Rect::new(point(0, 5), point(10, 4)), Err(GeometryError::InvertedCorners));
    assert_eq!(
        Shape::rectangle(point(5, 0), point(4, 10)),
        Err(GeometryError::InvertedCorners)
    );
}

#[test]
fn rectangle_with_equal_corners_is_valid() {
    assert_eq!(
        Rect::new(point(7, 7), point(7, 7)),
        Ok(Rect { top_left: point(7, 7), bottom_right: point(7, 7) })
    );
    assert_eq!(
        Shape::rectangle(point(7, 7), point(7, 7)),
        Ok(Shape::Rectangle { top_left: point(7, 7), bottom_right: point(7, 7) })
    );
    assert!(check_corners(point(i32::MIN, i32::MIN), point(i32::MIN, i32::MIN)));
}

#[test]
fn rectangle_with_ordered_corners_keeps_them() {
    let rect = Rect::new(point(-3, 2), point(40, 2)).unwrap();
    assert_eq!(rect.top_left, point(-3, 2));
    assert_eq!(rect.bottom_right, point(40, 2));
    assert!(rect.is_well_formed());
    assert!(!Rect { top_left: point(1, 1), bottom_right: point(0, 0) }.is_well_formed());
}

#[test]
fn rectangle_contains_its_border() {
    let rect = Rect::new(point(0, 0), point(10, 5)).unwrap();
    assert!(rect.contains(point(0, 0)));
    assert!(rect.contains(point(10, 5)));
    assert!(rect.contains(point(4, 3)));
    assert!(!rect.contains(point(11, 5)));
    assert!(!rect.contains(point(10, 6)));
    assert!(!rect.contains(point(-1, 0)));
}

#[test]
fn negative_radius_is_refused() {
    assert_eq!(Shape::circle(point(0, 0), -1), Err(GeometryError::NegativeRadius));
    assert_eq!(Shape::circle(point(0, 0), i64::MIN), Err(GeometryError::NegativeRadius));
    assert_eq!(Shape::circle(point(0, 0), 65536), Err(GeometryError::RadiusTooLarge));
    assert_eq!(
        Shape::circle(point(1, 2), 0),
        Ok(Shape::Circle { center: point(1, 2), radius: 0 })
    );
    assert_eq!(
        Shape::circle(point(1, 2), 65535),
        Ok(Shape::Circle { center: point(1, 2), radius: 65535 })
    );
}

#[test]
fn shapes_know_whether_they_are_well_formed() {
    assert!(Shape::Pixel { pos: point(0, 0) }.is_well_formed());
    assert!(Shape::Line { start: point(9, 9), end: point(0, 0) }.is_well_formed());
    assert!(!Shape::Rectangle { top_left: point(9, 9), bottom_right: point(0, 0) }.is_well_formed());
}

#[test]
fn copy_buffer_with_zero_stride_is_refused() {
    assert_eq!(
        DrawCommand::copy_buffer(point(0, 0), point(1, 1), 0, &[1, 2, 3]),
        Err(GeometryError::ZeroStride)
    );
}

#[test]
fn copy_buffer_with_stride_one_is_built() {
    let made = DrawCommand::copy_buffer(point(0, 0), point(1, 1), 1, &[1, 2, 3]).unwrap();
    assert_eq!(
        made,
        DrawCommand::CopyBuffer {
            top_left: point(0, 0),
            bottom_right: point(1, 1),
            stride: 1,
            buffer: "AQID".to_string(),
        }
    );
    assert!(made.is_well_formed());
    let broken = DrawCommand::CopyBuffer {
        top_left: point(0, 0),
        bottom_right: point(1, 1),
        stride: 0,
        buffer: "AQID".to_string(),
    };
    assert!(!broken.is_well_formed());
    let corrupt = DrawCommand::CopyBuffer {
        top_left: point(0, 0),
        bottom_right: point(1, 1),
        stride: 4,
        buffer: "AQI".to_string(),
    };
    assert!(!corrupt.is_well_formed());
}

#[test]
fn color_packs_its_channels() {
    assert_eq!(Color::from_rgb(Rgb8 { r: 0xff, g: 0, b: 0 }), Color(16711680));
    assert_eq!(Color::from_rgb(Rgb8 { r: 0x12, g: 0x34, b: 0x56 }), Color(0x0012_3456));
    assert_eq!(Color::from(Rgb8 { r: 0, g: 0, b: 1 }), Color(1));
    assert_eq!(Color::from_rgb(Rgb8 { r: 255, g: 255, b: 255 }), Color(0x00ff_ffff));
}

#[test]
fn color_unpacks_its_channels() {
    assert_eq!(Color(0x0012_3456).to_rgb(), Rgb8 { r: 0x12, g: 0x34, b: 0x56 });
    assert_eq!(Rgb8::from(Color(16711680)), Rgb8 { r: 255, g: 0, b: 0 });
    assert_eq!(Color(0xab12_3456).to_rgb(), Rgb8 { r: 0x12, g: 0x34, b: 0x56 });
    assert!(Color(0x00ff_ffff).is_canonical());
    assert!(!Color(0x0100_0000).is_canonical());
}

#[test]
fn color_round_trips_through_its_channels() {
    for r in [0u8, 1, 127, 128, 255] {
        for g in [0u8, 7, 255] {
            for b in [0u8, 200, 255] {
                let rgb = Rgb8 { r, g, b };
                assert_eq!(Color::from_rgb(rgb).to_rgb(), rgb);
            }
        }
    }
    for value in [0u32, 1, 0x00ff_ffff, 0x0080_4020] {
        assert_eq!(Color::from_rgb(Color(value).to_rgb()), Color(value));
    }
}
