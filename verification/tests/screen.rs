use vexide_simulator_protocol::color::Color;
use vexide_simulator_protocol::draw::DrawCommand;
use vexide_simulator_protocol::event::Event;
use vexide_simulator_protocol::geometry::{Point2D, Rect, Shape};
use vexide_simulator_protocol::screen::{color_at, intersect, replay, Display, Paint};

fn point(x: i32, y: i32) -> Point2D {
    Point2D { x, y }
}

fn rect(x0: i32, y0: i32, x1: i32, y1: i32) -> Rect {
    Rect { top_left: point(x0, y0), bottom_right: point(x1, y1) }
}

fn fill(color: u32, clip: Rect) -> Event {
    Event::ScreenDraw {
        command: DrawCommand::Fill {
            shape: Shape::Rectangle { top_left: point(0, 0), bottom_right: point(479, 239) },
        },
        color: Color(color),
        clip_region: clip,
    }
}

fn screen_after(events: &Vec<Event>) -> Vec<Option<Color>> {
    let display = replay(events);
    let mut pixels = Vec::new();
    for y in 0..12 {
        for x in 0..12 {
            pixels.push(display.color_at(point(x, y)));
        }
    }
    pixels
}

#[test]
fn replay_in_order_is_deterministic_and_order_matters() {
    let red = fill(0x00ff_0000, rect(0, 0, 5, 5));
    let green = fill(0x0000_ff00, rect(3, 3, 8, 8));
    let blue = fill(0x0000_00ff, rect(5, 0, 10, 5));
    let in_order = vec![red.clone(), green.clone(), blue.clone()];
    let first = screen_after(&in_order);
    let second = screen_after(&in_order);
    assert_eq!(first, second);
    let paints = replay(&in_order).shown;
    assert_eq!(color_at(&paints, point(0, 0)), Some(Color(0x00ff_0000)));
    assert_eq!(color_at(&paints, point(4, 4)), Some(Color(0x0000_ff00)));
    assert_eq!(color_at(&paints, point(5, 5)), Some(Color(0x0000_00ff)));
    assert_eq!(color_at(&paints, point(5, 4)), Some(Color(0x0000_00ff)));
    assert_eq!(color_at(&paints, point(8, 8)), Some(Color(0x0000_ff00)));
    assert_eq!(color_at(&paints, point(11, 11)), None);
    let out_of_order = vec![blue, green, red];
    let other = screen_after(&out_of_order);
    assert_ne!(first, other);
    let paints = replay(&out_of_order).shown;
    assert_eq!(color_at(&paints, point(4, 4)), Some(Color(0x00ff_0000)));
    assert_eq!(color_at(&paints, point(5, 5)), Some(Color(0x00ff_0000)));
    assert_eq!(color_at(&paints, point(8, 8)), Some(Color(0x0000_ff00)));
}

#[test]
fn a_draw_changes_nothing_outside_its_clip_region() {
    let event = Event::ScreenDraw {
        command: DrawCommand::Fill {
            shape: Shape::Rectangle { top_left: point(0, 0), bottom_right: point(100, 100) },
        },
        color: Color(9),
        clip_region: rect(10, 20, 30, 40),
    };
    assert_eq!(event.paint(), Some(Paint { area: rect(10, 20, 30, 40), color: Color(9) }));
    let outside = Event::ScreenDraw {
        command: DrawCommand::Fill {
            shape: Shape::Rectangle { top_left: point(0, 0), bottom_right: point(5, 5) },
        },
        color: Color(9),
        clip_region: rect(10, 20, 30, 40),
    };
    assert_eq!(outside.paint(), None);
    let pixel = Event::ScreenDraw {
        command: DrawCommand::Fill { shape: Shape::Pixel { pos: point(10, 20) } },
        color: Color(4),
        clip_region: rect(10, 20, 30, 40),
    };
    assert_eq!(pixel.paint(), Some(Paint { area: rect(10, 20, 10, 20), color: Color(4) }));
    let hidden = Event::ScreenDraw {
        command: DrawCommand::Fill { shape: Shape::Pixel { pos: point(9, 20) } },
        color: Color(4),
        clip_region: rect(10, 20, 30, 40),
    };
    assert_eq!(hidden.paint(), None);
}

#[test]
fn a_clear_paints_its_clip_region() {
    let clear = Event::ScreenClear { color: Color(16711680), clip_region: rect(0, 0, 3, 3) };
    assert_eq!(clear.paint(), Some(Paint { area: rect(0, 0, 3, 3), color: Color(16711680) }));
    let paints = replay(&vec![fill(1, rect(0, 0, 9, 9)), clear, Event::ScreenRender, Event::Ready]).shown;
    assert_eq!(paints.len(), 2);
    assert_eq!(color_at(&paints, point(3, 3)), Some(Color(16711680)));
    assert_eq!(color_at(&paints, point(4, 3)), Some(Color(1)));
}

#[test]
fn events_without_defined_pixels_paint_nothing() {
    let circle = Event::ScreenDraw {
        command: DrawCommand::Fill { shape: Shape::Circle { center: point(5, 5), radius: 3 } },
        color: Color(1),
        clip_region: rect(0, 0, 9, 9),
    };
    assert_eq!(circle.paint(), None);
    let outline = Event::ScreenDraw {
        command: DrawCommand::Stroke {
            shape: Shape::Rectangle { top_left: point(0, 0), bottom_right: point(5, 5) },
        },
        color: Color(1),
        clip_region: rect(0, 0, 9, 9),
    };
    assert_eq!(outline.paint(), None);
    assert_eq!(Event::Exited.paint(), None);
    assert_eq!(replay(&vec![circle, outline]), Display::new());
}

#[test]
fn rectangles_share_what_both_cover() {
    assert_eq!(intersect(&rect(0, 0, 5, 5), &rect(3, 4, 9, 9)), Some(rect(3, 4, 5, 5)));
    assert_eq!(intersect(&rect(0, 0, 5, 5), &rect(5, 5, 9, 9)), Some(rect(5, 5, 5, 5)));
    assert_eq!(intersect(&rect(0, 0, 5, 5), &rect(6, 0, 9, 9)), None);
    assert_eq!(intersect(&rect(0, 0, 5, 5), &rect(0, 6, 9, 9)), None);
    assert_eq!(intersect(&rect(-9, -9, 9, 9), &rect(-1, -2, 3, 4)), Some(rect(-1, -2, 3, 4)));
}

#[test]
fn double_buffered_draws_wait_for_render() {
    let mut display = Display::new();
    display.apply(&fill(1, rect(0, 0, 9, 9)));
    assert_eq!(display.color_at(point(2, 2)), Some(Color(1)));
    display.apply(&Event::ScreenDoubleBufferMode { enable: true });
    display.apply(&fill(2, rect(0, 0, 4, 4)));
    display.apply(&Event::ScreenClear { color: Color(3), clip_region: rect(2, 2, 6, 6) });
    assert_eq!(display.color_at(point(2, 2)), Some(Color(1)));
    assert_eq!(display.color_at(point(0, 0)), Some(Color(1)));
    assert_eq!(display.held.len(), 2);
    display.apply(&Event::ScreenRender);
    assert_eq!(display.held.len(), 0);
    assert_eq!(display.color_at(point(0, 0)), Some(Color(2)));
    assert_eq!(display.color_at(point(2, 2)), Some(Color(3)));
    assert_eq!(display.color_at(point(6, 6)), Some(Color(3)));
    assert_eq!(display.color_at(point(9, 9)), Some(Color(1)));
    display.apply(&Event::ScreenDoubleBufferMode { enable: false });
    display.apply(&fill(4, rect(9, 9, 9, 9)));
    assert_eq!(display.color_at(point(9, 9)), Some(Color(4)));
    display.apply(&Event::ScreenRender);
    assert_eq!(display.color_at(point(9, 9)), Some(Color(4)));
}

#[test]
fn replay_follows_the_buffer_mode() {
    let events = vec![
        Event::ScreenDoubleBufferMode { enable: true },
        fill(7, rect(0, 0, 3, 3)),
        Event::Ready,
    ];
    let display = replay(&events);
    assert_eq!(display.color_at(point(1, 1)), None);
    assert!(display.double_buffered);
    assert_eq!(display.held, vec![Paint { area: rect(0, 0, 3, 3), color: Color(7) }]);
    let mut rendered = events.clone();
    rendered.push(Event::ScreenRender);
    assert_eq!(replay(&rendered).color_at(point(1, 1)), Some(Color(7)));
}
