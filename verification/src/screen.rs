//! What drawing events do to the pixels of the screen.
//!
//! Drawing events are deltas: each changes only pixels inside its clip
//! region, and a later event paints over an earlier one. The color of a pixel
//! therefore depends on the order in which the events are replayed. This
//! module follows the events whose pixels the protocol itself defines: a
//! clear, a filled rectangle and a filled pixel. What a circle, a line or a
//! text covers is for the renderer to say.

use crate::color::Color;
use crate::draw::{DrawCommand, DrawCommandView};
use crate::event::{Event, EventView};
use crate::geometry::{Point2D, Rect, Shape};
use vstd::prelude::*;

verus! {

/// Every pixel of `area` takes `color`.
#[derive(Clone, Copy, Debug, PartialEq, Eq, Structural)]
pub struct Paint {
    pub area: Rect,
    pub color: Color,
}

/// The region that two rectangles share, if they share a pixel.
pub open spec fn overlap(a: Rect, b: Rect) -> Option<Rect> {
    let left = if a.top_left.x >= b.top_left.x {
        a.top_left.x
    } else {
        b.top_left.x
    };
    let top = if a.top_left.y >= b.top_left.y {
        a.top_left.y
    } else {
        b.top_left.y
    };
    let right = if a.bottom_right.x <= b.bottom_right.x {
        a.bottom_right.x
    } else {
        b.bottom_right.x
    };
    let bottom = if a.bottom_right.y <= b.bottom_right.y {
        a.bottom_right.y
    } else {
        b.bottom_right.y
    };
    if left <= right && top <= bottom {
        Some(
            Rect {
                top_left: Point2D { x: left, y: top },
                bottom_right: Point2D { x: right, y: bottom },
            },
        )
    } else {
        None
    }
}

/// The shared region covers exactly the pixels that both rectangles cover.
pub proof fn overlap_covers_what_both_cover(a: Rect, b: Rect, p: Point2D)
    ensures
        (overlap(a, b) matches Some(shared) && shared.covers(p)) <==> (a.covers(p) && b.covers(
            p,
        )),
        overlap(a, b) matches Some(shared) ==> shared.well_formed(),
{
}

/// Executable form of `overlap`.
pub fn intersect(a: &Rect, b: &Rect) -> (shared: Option<Rect>)
    ensures
        shared == overlap(*a, *b),
{
    let left = if a.top_left.x >= b.top_left.x {
        a.top_left.x
    } else {
        b.top_left.x
    };
    let top = if a.top_left.y >= b.top_left.y {
        a.top_left.y
    } else {
        b.top_left.y
    };
    let right = if a.bottom_right.x <= b.bottom_right.x {
        a.bottom_right.x
    } else {
        b.bottom_right.x
    };
    let bottom = if a.bottom_right.y <= b.bottom_right.y {
        a.bottom_right.y
    } else {
        b.bottom_right.y
    };
    if left <= right && top <= bottom {
        Some(
            Rect {
                top_left: Point2D { x: left, y: top },
                bottom_right: Point2D { x: right, y: bottom },
            },
        )
    } else {
        None
    }
}

impl EventView {
    /// The clip region of a drawing event.
    pub open spec fn clip(self) -> Option<Rect> {
        match self {
            EventView::ScreenDraw { clip_region, .. } => Some(clip_region),
            EventView::ScreenScroll { clip_region, .. } => Some(clip_region),
            EventView::ScreenClear { clip_region, .. } => Some(clip_region),
            _ => None,
        }
    }

    /// The pixels that the event paints, where the protocol defines them: a
    /// clear paints its clip region, a filled rectangle or pixel paints what
    /// of it lies inside the clip region.
    pub open spec fn paint(self) -> Option<Paint> {
        match self {
            EventView::ScreenClear { color, clip_region } => Some(
                Paint { area: clip_region, color },
            ),
            EventView::ScreenDraw {
                command: DrawCommandView::Fill {
                    shape: Shape::Rectangle { top_left, bottom_right },
                },
                color,
                clip_region,
            } => match overlap(Rect { top_left, bottom_right }, clip_region) {
                Some(area) => Some(Paint { area, color }),
                None => None,
            },
            EventView::ScreenDraw {
                command: DrawCommandView::Fill { shape: Shape::Pixel { pos } },
                color,
                clip_region,
            } => if clip_region.covers(pos) {
                Some(Paint { area: Rect { top_left: pos, bottom_right: pos }, color })
            } else {
                None
            },
            _ => None,
        }
    }

    /// An event changes no pixel outside its clip region.
    pub proof fn paint_stays_inside_clip(self, p: Point2D)
        requires
            self.paint() is Some,
            self.paint()->Some_0.area.covers(p),
        ensures
            self.clip() is Some,
            self.clip()->Some_0.covers(p),
    {
    }
}

impl Event {
    /// Executable form of `EventView::paint`.
    pub fn paint(&self) -> (paint: Option<Paint>)
        ensures
            paint == self@.paint(),
    {
        match self {
            Event::ScreenClear { color, clip_region } => Some(
                Paint { area: *clip_region, color: *color },
            ),
            Event::ScreenDraw { command, color, clip_region } => match command {
                DrawCommand::Fill { shape: Shape::Rectangle { top_left, bottom_right } } => {
                    let filled = Rect { top_left: *top_left, bottom_right: *bottom_right };
                    match intersect(&filled, clip_region) {
                        Some(area) => Some(Paint { area, color: *color }),
                        None => None,
                    }
                },
                DrawCommand::Fill { shape: Shape::Pixel { pos } } => {
                    if clip_region.contains(*pos) {
                        Some(
                            Paint {
                                area: Rect { top_left: *pos, bottom_right: *pos },
                                color: *color,
                            },
                        )
                    } else {
                        None
                    }
                },
                _ => None,
            },
            _ => None,
        }
    }
}

/// The color of the pixel `p` after the paints were applied in their order:
/// that of the last paint that covers it, or none if no paint covers it.
pub open spec fn painted(paints: Seq<Paint>, p: Point2D) -> Option<Color>
    decreases paints.len(),
{
    if paints.len() == 0 {
        None
    } else if paints.last().area.covers(p) {
        Some(paints.last().color)
    } else {
        painted(paints.drop_last(), p)
    }
}

/// What the events hold, one by one.
pub open spec fn views_of(events: Seq<Event>) -> Seq<EventView> {
    Seq::new(events.len(), |i: int| events[i]@)
}

/// The color of a pixel after the paints were applied in their order.
pub fn color_at(paints: &Vec<Paint>, p: Point2D) -> (color: Option<Color>)
    ensures
        color == painted(paints@, p),
{
    let mut i: usize = paints.len();
    assert(paints@.take(i as int) =~= paints@);
    while i > 0
        invariant
            i <= paints.len(),
            painted(paints@, p) == painted(paints@.take(i as int), p),
        decreases i,
    {
        assert(paints@.take(i as int).drop_last() =~= paints@.take(i - 1));
        assert(paints@.take(i as int).last() == paints@[i - 1]);
        if paints[i - 1].area.contains(p) {
            return Some(paints[i - 1].color);
        }
        i -= 1;
    }
    assert(paints@.take(0).len() == 0);
    None
}

/// The screen as the events have left it: what is presented, and what waits
/// in the off-screen buffer.
#[derive(Clone, Debug, PartialEq, Eq)]
pub struct Display {
    /// The paints that are presented, in their order.
    pub shown: Vec<Paint>,
    /// The paints that wait for a `ScreenRender`, in their order.
    pub held: Vec<Paint>,
    /// Whether draws go to the off-screen buffer.
    pub double_buffered: bool,
}

/// What a display holds.
pub struct DisplayView {
    pub shown: Seq<Paint>,
    pub held: Seq<Paint>,
    pub double_buffered: bool,
}

impl View for Display {
    type V = DisplayView;

    open spec fn view(&self) -> DisplayView {
        DisplayView {
            shown: self.shown@,
            held: self.held@,
            double_buffered: self.double_buffered,
        }
    }
}

impl DisplayView {
    /// A screen on which nothing was drawn. Draws are presented at once.
    pub open spec fn blank() -> DisplayView {
        DisplayView { shown: Seq::empty(), held: Seq::empty(), double_buffered: false }
    }

    /// The display after an event. `ScreenDoubleBufferMode` says where the
    /// draws that follow go; a draw is presented at once or waits in the
    /// off-screen buffer; `ScreenRender` presents what waits, on top of what
    /// is shown. Any other event leaves the display as it was.
    pub open spec fn after(self, event: EventView) -> DisplayView {
        match event {
            EventView::ScreenDoubleBufferMode { enable } => DisplayView {
                double_buffered: enable,
                ..self
            },
            EventView::ScreenRender => DisplayView {
                shown: self.shown + self.held,
                held: Seq::empty(),
                ..self
            },
            _ => match event.paint() {
                Some(paint) => if self.double_buffered {
                    DisplayView { held: self.held.push(paint), ..self }
                } else {
                    DisplayView { shown: self.shown.push(paint), ..self }
                },
                None => self,
            },
        }
    }

    /// The display after a sequence of events, in their order.
    pub open spec fn after_all(self, events: Seq<EventView>) -> DisplayView
        decreases events.len(),
    {
        if events.len() == 0 {
            self
        } else {
            self.after_all(events.drop_last()).after(events.last())
        }
    }

    /// The color that the pixel `p` shows, or none if nothing was presented
    /// there.
    pub open spec fn pixel(self, p: Point2D) -> Option<Color> {
        painted(self.shown, p)
    }
}

impl Display {
    /// A screen on which nothing was drawn.
    pub fn new() -> (display: Display)
        ensures
            display@ == DisplayView::blank(),
    {
        Display { shown: Vec::new(), held: Vec::new(), double_buffered: false }
    }

    /// Takes note of an event.
    pub fn apply(&mut self, event: &Event)
        ensures
            final(self)@ == old(self)@.after(event@),
    {
        match event {
            Event::ScreenDoubleBufferMode { enable } => {
                self.double_buffered = *enable;
            },
            Event::ScreenRender => {
                let ghost shown = self.shown@;
                let ghost held = self.held@;
                let mut i: usize = 0;
                while i < self.held.len()
                    invariant
                        i <= self.held.len(),
                        self.held@ == held,
                        self.double_buffered == old(self).double_buffered,
                        self.shown@ == shown + held.take(i as int),
                    decreases self.held.len() - i,
                {
                    let paint = self.held[i];
                    self.shown.push(paint);
                    assert(self.shown@ =~= shown + held.take(i + 1));
                    i += 1;
                }
                assert(held.take(i as int) =~= held);
                self.held = Vec::new();
            },
            _ => {
                match event.paint() {
                    Some(paint) => {
                        if self.double_buffered {
                            self.held.push(paint);
                        } else {
                            self.shown.push(paint);
                        }
                    },
                    None => {},
                }
            },
        }
    }

    /// The color that a pixel shows.
    pub fn color_at(&self, p: Point2D) -> (color: Option<Color>)
        ensures
            color == self@.pixel(p),
    {
        color_at(&self.shown, p)
    }
}

/// Replays events on a blank screen, in their order.
pub fn replay(events: &Vec<Event>) -> (display: Display)
    ensures
        display@ == DisplayView::blank().after_all(views_of(events@)),
{
    let ghost all = views_of(events@);
    let mut display = Display::new();
    let mut i: usize = 0;
    assert(all.take(0) =~= Seq::empty());
    while i < events.len()
        invariant
            i <= events.len(),
            all == views_of(events@),
            display@ == DisplayView::blank().after_all(all.take(i as int)),
        decreases events.len() - i,
    {
        assert(all.take(i + 1).drop_last() =~= all.take(i as int));
        assert(all.take(i + 1).last() == events@[i as int]@);
        display.apply(&events[i]);
        i += 1;
    }
    assert(all.take(i as int) =~= all);
    display
}

/// While draws go to the off-screen buffer they change no pixel that is
/// shown; `ScreenRender` then presents them, the latest on top.
pub proof fn draws_wait_for_render(display: DisplayView, event: EventView, p: Point2D)
    requires
        display.double_buffered,
        event.paint() is Some,
    ensures
        display.after(event).pixel(p) == display.pixel(p),
        event.paint()->Some_0.area.covers(p) ==> display.after(event).after(
            EventView::ScreenRender,
        ).pixel(p) == Some(event.paint()->Some_0.color),
{
    let paint = event.paint()->Some_0;
    let waiting = display.after(event);
    assert(waiting.shown + waiting.held =~= (display.shown + display.held).push(paint));
    last_paint_decides(display.shown + display.held, paint, p);
}

/// Without double buffering a draw is presented at once.
pub proof fn draws_are_presented_at_once(display: DisplayView, event: EventView, p: Point2D)
    requires
        !display.double_buffered,
        event.paint() is Some,
        event.paint()->Some_0.area.covers(p),
    ensures
        display.after(event).pixel(p) == Some(event.paint()->Some_0.color),
{
    last_paint_decides(display.shown, event.paint()->Some_0, p);
}

/// Replaying is a function of the events: the last paint that covers a pixel
/// decides its color, whatever came before.
pub proof fn last_paint_decides(paints: Seq<Paint>, last: Paint, p: Point2D)
    ensures
        last.area.covers(p) ==> painted(paints.push(last), p) == Some(last.color),
        !last.area.covers(p) ==> painted(paints.push(last), p) == painted(paints, p),
{
    assert(paints.push(last).drop_last() =~= paints);
}

/// Order matters: where two paints of different colors overlap, replaying
/// them in the other order leaves another color.
pub proof fn order_of_paints_matters(before: Seq<Paint>, a: Paint, b: Paint, p: Point2D)
    requires
        a.area.covers(p),
        b.area.covers(p),
        a.color != b.color,
    ensures
        painted(before.push(a).push(b), p) == Some(b.color),
        painted(before.push(b).push(a), p) == Some(a.color),
        painted(before.push(a).push(b), p) != painted(before.push(b).push(a), p),
{
    last_paint_decides(before.push(a), b, p);
    last_paint_decides(before.push(b), a, p);
}

/// Where two paints do not overlap, their order does not matter.
pub proof fn order_of_disjoint_paints_does_not_matter(
    before: Seq<Paint>,
    a: Paint,
    b: Paint,
    p: Point2D,
)
    requires
        !(a.area.covers(p) && b.area.covers(p)),
    ensures
        painted(before.push(a).push(b), p) == painted(before.push(b).push(a), p),
{
    last_paint_decides(before.push(a), b, p);
    last_paint_decides(before.push(b), a, p);
    last_paint_decides(before, a, p);
    last_paint_decides(before, b, p);
}

} // verus!
