//! Points, rectangles and shapes on the simulated screen.

use crate::wire::{
    as_variant, get_i32, get_member, get_u16, i32_at, member, member_found, no_members, object,
    put, read_variant, same_text, tagged, tagged_json, u16_at, whole, whole_json, DecodeError,
    Json, JsonView,
};
use vstd::prelude::*;

verus! {

/// Why a geometric value cannot be built.
#[derive(Clone, Copy, Debug, PartialEq, Eq, Structural)]
pub enum GeometryError {
    /// The top-left corner lies right of or below the bottom-right corner.
    InvertedCorners,
    /// A radius below zero.
    NegativeRadius,
    /// A radius that the wire format cannot carry.
    RadiusTooLarge,
    /// A buffer whose rows hold no pixel.
    ZeroStride,
}

/// A pixel position.
#[derive(Clone, Copy, Debug, PartialEq, Eq, Structural, Hash, PartialOrd, Ord)]
pub struct Point2D {
    pub x: i32,
    pub y: i32,
}

/// The corners are in order on both axes. Equal corners are in order.
pub open spec fn corners_ordered(top_left: Point2D, bottom_right: Point2D) -> bool {
    top_left.x <= bottom_right.x && top_left.y <= bottom_right.y
}

/// Executable form of `corners_ordered`.
pub fn check_corners(top_left: Point2D, bottom_right: Point2D) -> (ordered: bool)
    ensures
        ordered == corners_ordered(top_left, bottom_right),
{
    top_left.x <= bottom_right.x && top_left.y <= bottom_right.y
}

/// An axis-aligned region of the screen, corners included.
#[derive(Clone, Copy, Debug, PartialEq, Eq, Structural, Hash, PartialOrd, Ord)]
pub struct Rect {
    pub top_left: Point2D,
    pub bottom_right: Point2D,
}

impl Rect {
    /// The invariant of a rectangle: its corners are in order.
    pub open spec fn well_formed(self) -> bool {
        corners_ordered(self.top_left, self.bottom_right)
    }

    /// Whether `p` lies inside the rectangle, its border included.
    pub open spec fn covers(self, p: Point2D) -> bool {
        self.top_left.x <= p.x <= self.bottom_right.x && self.top_left.y <= p.y
            <= self.bottom_right.y
    }

    /// Builds the rectangle with these corners, or refuses corners that are
    /// out of order.
    pub fn new(top_left: Point2D, bottom_right: Point2D) -> (made: Result<Rect, GeometryError>)
        ensures
            corners_ordered(top_left, bottom_right) ==> made == Ok::<Rect, GeometryError>(
                Rect { top_left, bottom_right },
            ),
            !corners_ordered(top_left, bottom_right) ==> made == Err::<Rect, GeometryError>(
                GeometryError::InvertedCorners,
            ),
    {
        if check_corners(top_left, bottom_right) {
            Ok(Rect { top_left, bottom_right })
        } else {
            Err(GeometryError::InvertedCorners)
        }
    }

    /// Executable form of `well_formed`.
    pub fn is_well_formed(&self) -> (ok: bool)
        ensures
            ok == self.well_formed(),
    {
        check_corners(self.top_left, self.bottom_right)
    }

    /// Executable form of `covers`.
    pub fn contains(&self, p: Point2D) -> (inside: bool)
        ensures
            inside == self.covers(p),
    {
        self.top_left.x <= p.x && p.x <= self.bottom_right.x && self.top_left.y <= p.y && p.y
            <= self.bottom_right.y
    }
}

impl Point2D {
    /// How a point is written: an object with the members `x` and `y`.
    pub open spec fn wire(self) -> JsonView {
        JsonView::Object(
            no_members().push(("x"@, whole(self.x as int))).push(("y"@, whole(self.y as int))),
        )
    }

    /// The point that a tree spells, or why it spells none.
    pub open spec fn read(tree: JsonView) -> Result<Point2D, DecodeError> {
        let x = i32_at(tree, "x"@);
        let y = i32_at(tree, "y"@);
        if x is Err {
            Err(x->Err_0)
        } else if y is Err {
            Err(y->Err_0)
        } else {
            Ok(Point2D { x: x->Ok_0, y: y->Ok_0 })
        }
    }

    /// The point under the member `key` of an object.
    pub open spec fn at(tree: JsonView, key: Seq<char>) -> Result<Point2D, DecodeError> {
        match member(tree, key) {
            Ok(v) => Point2D::read(v),
            Err(e) => Err(e),
        }
    }

    /// Writes the point.
    pub fn to_json(&self) -> (tree: Json)
        ensures
            tree@ == self.wire(),
    {
        let mut members: Vec<(String, Json)> = Vec::new();
        put(&mut members, "x", whole_json(self.x as i128));
        put(&mut members, "y", whole_json(self.y as i128));
        object(members)
    }

    /// Reads a point.
    pub fn from_json(tree: &Json) -> (outcome: Result<Point2D, DecodeError>)
        ensures
            outcome == Point2D::read(tree@),
    {
        let x = get_i32(tree, "x")?;
        let y = get_i32(tree, "y")?;
        Ok(Point2D { x, y })
    }

    /// Reads the point under the member `key` of an object.
    pub fn get(tree: &Json, key: &str) -> (outcome: Result<Point2D, DecodeError>)
        ensures
            outcome == Point2D::at(tree@, key@),
    {
        Point2D::from_json(get_member(tree, key)?)
    }

    /// A point that is written and read again is the same point.
    pub proof fn wire_round_trip(self)
        ensures
            Point2D::read(self.wire()) == Ok::<Point2D, DecodeError>(self),
    {
        reveal_strlit("x");
        reveal_strlit("y");
        assert("x"@[0] != "y"@[0]);
        let members = self.wire()->Object_0;
        member_found(members, 0);
        member_found(members, 1);
    }
}

/// What a tree spells when it names two corners: the corners, read in turn.
pub open spec fn read_corners(tree: JsonView) -> Result<(Point2D, Point2D), DecodeError> {
    let top_left = Point2D::at(tree, "top_left"@);
    let bottom_right = Point2D::at(tree, "bottom_right"@);
    if top_left is Err {
        Err(top_left->Err_0)
    } else if bottom_right is Err {
        Err(bottom_right->Err_0)
    } else {
        Ok((top_left->Ok_0, bottom_right->Ok_0))
    }
}

/// How two corners are written: an object with the members `top_left` and
/// `bottom_right`.
pub open spec fn corners_wire(top_left: Point2D, bottom_right: Point2D) -> JsonView {
    JsonView::Object(
        no_members().push(("top_left"@, top_left.wire())).push(
            ("bottom_right"@, bottom_right.wire()),
        ),
    )
}

/// Reads two corners.
pub fn corners_from_json(tree: &Json) -> (outcome: Result<(Point2D, Point2D), DecodeError>)
    ensures
        outcome == read_corners(tree@),
{
    let top_left = Point2D::get(tree, "top_left")?;
    let bottom_right = Point2D::get(tree, "bottom_right")?;
    Ok((top_left, bottom_right))
}

/// Writes two corners.
pub fn corners_to_json(top_left: &Point2D, bottom_right: &Point2D) -> (tree: Json)
    ensures
        tree@ == corners_wire(*top_left, *bottom_right),
{
    let mut members: Vec<(String, Json)> = Vec::new();
    put(&mut members, "top_left", top_left.to_json());
    put(&mut members, "bottom_right", bottom_right.to_json());
    object(members)
}

/// Two corners that are written and read again are the same corners.
pub proof fn corners_round_trip(top_left: Point2D, bottom_right: Point2D)
    ensures
        read_corners(corners_wire(top_left, bottom_right)) == Ok::<
            (Point2D, Point2D),
            DecodeError,
        >((top_left, bottom_right)),
{
    reveal_strlit("top_left");
    reveal_strlit("bottom_right");
    assert("top_left"@.len() != "bottom_right"@.len());
    let members = corners_wire(top_left, bottom_right)->Object_0;
    member_found(members, 0);
    member_found(members, 1);
    top_left.wire_round_trip();
    bottom_right.wire_round_trip();
}

impl Rect {
    /// How a rectangle is written: its two corners.
    pub open spec fn wire(self) -> JsonView {
        corners_wire(self.top_left, self.bottom_right)
    }

    /// The rectangle that a tree spells, or why it spells none. Corners that
    /// are out of order are refused.
    pub open spec fn read(tree: JsonView) -> Result<Rect, DecodeError> {
        match read_corners(tree) {
            Ok((top_left, bottom_right)) => if corners_ordered(top_left, bottom_right) {
                Ok(Rect { top_left, bottom_right })
            } else {
                Err(DecodeError::MalformedRectangle)
            },
            Err(e) => Err(e),
        }
    }

    /// The rectangle under the member `key` of an object.
    pub open spec fn at(tree: JsonView, key: Seq<char>) -> Result<Rect, DecodeError> {
        match member(tree, key) {
            Ok(v) => Rect::read(v),
            Err(e) => Err(e),
        }
    }

    /// Writes the rectangle.
    pub fn to_json(&self) -> (tree: Json)
        ensures
            tree@ == self.wire(),
    {
        corners_to_json(&self.top_left, &self.bottom_right)
    }

    /// Reads a rectangle. What is read is well-formed.
    pub fn from_json(tree: &Json) -> (outcome: Result<Rect, DecodeError>)
        ensures
            outcome == Rect::read(tree@),
            outcome is Ok ==> outcome->Ok_0.well_formed(),
    {
        let (top_left, bottom_right) = corners_from_json(tree)?;
        if check_corners(top_left, bottom_right) {
            Ok(Rect { top_left, bottom_right })
        } else {
            Err(DecodeError::MalformedRectangle)
        }
    }

    /// Reads the rectangle under the member `key` of an object.
    pub fn get(tree: &Json, key: &str) -> (outcome: Result<Rect, DecodeError>)
        ensures
            outcome == Rect::at(tree@, key@),
    {
        Rect::from_json(get_member(tree, key)?)
    }

    /// A well-formed rectangle that is written and read again is the same
    /// rectangle; one that is not well-formed is refused when it is read.
    pub proof fn wire_round_trip(self)
        ensures
            self.well_formed() ==> Rect::read(self.wire()) == Ok::<Rect, DecodeError>(self),
            !self.well_formed() ==> Rect::read(self.wire()) == Err::<Rect, DecodeError>(
                DecodeError::MalformedRectangle,
            ),
    {
        corners_round_trip(self.top_left, self.bottom_right);
    }
}

/// A shape that can be drawn to the screen.
#[derive(Clone, Copy, Debug, PartialEq, Eq, Structural, Hash, PartialOrd, Ord)]
pub enum Shape {
    Rectangle { top_left: Point2D, bottom_right: Point2D },
    Circle { center: Point2D, radius: u16 },
    Pixel { pos: Point2D },
    Line { start: Point2D, end: Point2D },
}

impl Shape {
    /// The invariant of a value: what a reader checks before it hands the
    /// value out.
    pub open spec fn well_formed(self) -> bool {
        match self {
            Shape::Rectangle { top_left, bottom_right } => {
                &&& corners_ordered(top_left, bottom_right)
            },
            _ => true,
        }
    }

    /// How a value is written: a variant without a body as its bare name,
    /// any other as an object with one member, named after the variant.
    pub open spec fn wire(self) -> JsonView {
        match self {
            Shape::Rectangle { top_left, bottom_right } => tagged(
                "Rectangle"@,
                Shape::rectangle_wire(top_left, bottom_right),
            ),
            Shape::Circle { center, radius } => tagged(
                "Circle"@,
                Shape::circle_wire(center, radius),
            ),
            Shape::Pixel { pos } => tagged(
                "Pixel"@,
                Shape::pixel_wire(pos),
            ),
            Shape::Line { start, end } => tagged(
                "Line"@,
                Shape::line_wire(start, end),
            ),
        }
    }

    /// The body of `Rectangle`: one member for each field.
    pub open spec fn rectangle_wire(top_left: Point2D, bottom_right: Point2D) -> JsonView {
        JsonView::Object(
            no_members().push(("top_left"@, top_left.wire())).push(
                ("bottom_right"@, bottom_right.wire()),
            ),
        )
    }

    /// What the body of `Rectangle` spells: the fields are read in their order,
    /// and the first that cannot be read gives the error.
    pub open spec fn read_rectangle(body: JsonView) -> Result<Shape, DecodeError> {
        let top_left = Point2D::at(body, "top_left"@);
        let bottom_right = Point2D::at(body, "bottom_right"@);
        if top_left is Err {
            Err(top_left->Err_0)
        } else if bottom_right is Err {
            Err(bottom_right->Err_0)
        } else if !(corners_ordered(top_left->Ok_0, bottom_right->Ok_0)) {
            Err(DecodeError::MalformedRectangle)
        } else {
            Ok(Shape::Rectangle { top_left: top_left->Ok_0, bottom_right: bottom_right->Ok_0 })
        }
    }

    /// The body of `Circle`: one member for each field.
    pub open spec fn circle_wire(center: Point2D, radius: u16) -> JsonView {
        JsonView::Object(
            no_members().push(("center"@, center.wire())).push(("radius"@, whole(radius as int))),
        )
    }

    /// What the body of `Circle` spells: the fields are read in their order,
    /// and the first that cannot be read gives the error.
    pub open spec fn read_circle(body: JsonView) -> Result<Shape, DecodeError> {
        let center = Point2D::at(body, "center"@);
        let radius = u16_at(body, "radius"@);
        if center is Err {
            Err(center->Err_0)
        } else if radius is Err {
            Err(radius->Err_0)
        } else {
            Ok(Shape::Circle { center: center->Ok_0, radius: radius->Ok_0 })
        }
    }

    /// The body of `Pixel`: one member for each field.
    pub open spec fn pixel_wire(pos: Point2D) -> JsonView {
        JsonView::Object(no_members().push(("pos"@, pos.wire())))
    }

    /// What the body of `Pixel` spells: the fields are read in their order,
    /// and the first that cannot be read gives the error.
    pub open spec fn read_pixel(body: JsonView) -> Result<Shape, DecodeError> {
        let pos = Point2D::at(body, "pos"@);
        if pos is Err {
            Err(pos->Err_0)
        } else {
            Ok(Shape::Pixel { pos: pos->Ok_0 })
        }
    }

    /// The body of `Line`: one member for each field.
    pub open spec fn line_wire(start: Point2D, end: Point2D) -> JsonView {
        JsonView::Object(no_members().push(("start"@, start.wire())).push(("end"@, end.wire())))
    }

    /// What the body of `Line` spells: the fields are read in their order,
    /// and the first that cannot be read gives the error.
    pub open spec fn read_line(body: JsonView) -> Result<Shape, DecodeError> {
        let start = Point2D::at(body, "start"@);
        let end = Point2D::at(body, "end"@);
        if start is Err {
            Err(start->Err_0)
        } else if end is Err {
            Err(end->Err_0)
        } else {
            Ok(Shape::Line { start: start->Ok_0, end: end->Ok_0 })
        }
    }

    /// The value that a tree spells, or why it spells none.
    pub open spec fn read(tree: JsonView) -> Result<Shape, DecodeError> {
        match read_variant(tree) {
            Err(e) => Err(e),
            Ok((name, body)) => if name == "Rectangle"@ {
                Shape::read_rectangle(body)
            } else if name == "Circle"@ {
                Shape::read_circle(body)
            } else if name == "Pixel"@ {
                Shape::read_pixel(body)
            } else if name == "Line"@ {
                Shape::read_line(body)
            } else {
                Err(DecodeError::UnknownTag)
            },
        }
    }

    /// The value under the member `key` of an object.
    pub open spec fn at(tree: JsonView, key: Seq<char>) -> Result<Shape, DecodeError> {
        match member(tree, key) {
            Ok(v) => Shape::read(v),
            Err(e) => Err(e),
        }
    }

    /// The names of the variants differ in length or in a letter.
    proof fn tags_differ()
        ensures
            "Rectangle"@.len() == 9,
            "Circle"@.len() == 6,
            "Pixel"@.len() == 5,
            "Line"@.len() == 4,
    {
        reveal_strlit("Rectangle");
        reveal_strlit("Circle");
        reveal_strlit("Pixel");
        reveal_strlit("Line");
    }

    /// The members of `Rectangle` have different names.
    proof fn rectangle_names()
        ensures
            "top_left"@.len() == 8,
            "bottom_right"@.len() == 12,
    {
        reveal_strlit("top_left");
        reveal_strlit("bottom_right");
    }

    /// The body of `Rectangle` reads back as the fields that it was written from.
    proof fn rectangle_reads_back(top_left: Point2D, bottom_right: Point2D)
        requires
            corners_ordered(top_left, bottom_right),
        ensures
            Shape::read_rectangle(Shape::rectangle_wire(top_left, bottom_right))
                == Ok::<Shape, DecodeError>(Shape::Rectangle { top_left, bottom_right }),
    {
        Shape::rectangle_names();
        let members = Shape::rectangle_wire(top_left, bottom_right)->Object_0;
        member_found(members, 0);
        member_found(members, 1);
        top_left.wire_round_trip();
        bottom_right.wire_round_trip();
    }

    /// The members of `Circle` have different names.
    proof fn circle_names()
        ensures
            "center"@.len() == 6 && "center"@[0] == 'c',
            "radius"@.len() == 6 && "radius"@[0] == 'r',
    {
        reveal_strlit("center");
        reveal_strlit("radius");
    }

    /// The body of `Circle` reads back as the fields that it was written from.
    proof fn circle_reads_back(center: Point2D, radius: u16)
        ensures
            Shape::read_circle(Shape::circle_wire(center, radius)) == Ok::<Shape, DecodeError>(
                Shape::Circle { center, radius },
            ),
    {
        Shape::circle_names();
        let members = Shape::circle_wire(center, radius)->Object_0;
        member_found(members, 0);
        member_found(members, 1);
        center.wire_round_trip();
    }

    /// The members of `Pixel` have different names.
    proof fn pixel_names()
        ensures
            "pos"@.len() == 3,
    {
        reveal_strlit("pos");
    }

    /// The body of `Pixel` reads back as the fields that it was written from.
    proof fn pixel_reads_back(pos: Point2D)
        ensures
            Shape::read_pixel(Shape::pixel_wire(pos)) == Ok::<Shape, DecodeError>(
                Shape::Pixel { pos },
            ),
    {
        Shape::pixel_names();
        let members = Shape::pixel_wire(pos)->Object_0;
        member_found(members, 0);
        pos.wire_round_trip();
    }

    /// The members of `Line` have different names.
    proof fn line_names()
        ensures
            "start"@.len() == 5,
            "end"@.len() == 3,
    {
        reveal_strlit("start");
        reveal_strlit("end");
    }

    /// The body of `Line` reads back as the fields that it was written from.
    proof fn line_reads_back(start: Point2D, end: Point2D)
        ensures
            Shape::read_line(Shape::line_wire(start, end)) == Ok::<Shape, DecodeError>(
                Shape::Line { start, end },
            ),
    {
        Shape::line_names();
        let members = Shape::line_wire(start, end)->Object_0;
        member_found(members, 0);
        member_found(members, 1);
        start.wire_round_trip();
        end.wire_round_trip();
    }

    /// A value that is written and read again is the same value.
    pub proof fn wire_round_trip(self)
        requires
            self.well_formed(),
        ensures
            Shape::read(self.wire()) == Ok::<Shape, DecodeError>(self),
    {
        Shape::tags_differ();
        match self {
            Shape::Rectangle { top_left, bottom_right } => {
            Shape::rectangle_reads_back(top_left, bottom_right);
            },
            Shape::Circle { center, radius } => {
            Shape::circle_reads_back(center, radius);
            },
            Shape::Pixel { pos } => {
            Shape::pixel_reads_back(pos);
            },
            Shape::Line { start, end } => {
            Shape::line_reads_back(start, end);
            },
        }
    }

    /// What is read is well-formed.
    pub proof fn read_is_well_formed(tree: JsonView)
        ensures
            Shape::read(tree) is Ok ==> Shape::read(tree)->Ok_0.well_formed(),
    {
    }

    /// Writes the value.
    pub fn to_json(&self) -> (tree: Json)
        ensures
            tree@ == self.wire(),
    {
        match self {
            Shape::Rectangle { top_left, bottom_right } => {
            let mut members: Vec<(String, Json)> = Vec::new();
            put(&mut members, "top_left", top_left.to_json());
            put(&mut members, "bottom_right", bottom_right.to_json());
            tagged_json("Rectangle", object(members))
            },
            Shape::Circle { center, radius } => {
            let mut members: Vec<(String, Json)> = Vec::new();
            put(&mut members, "center", center.to_json());
            put(&mut members, "radius", whole_json(*radius as i128));
            tagged_json("Circle", object(members))
            },
            Shape::Pixel { pos } => {
            let mut members: Vec<(String, Json)> = Vec::new();
            put(&mut members, "pos", pos.to_json());
            tagged_json("Pixel", object(members))
            },
            Shape::Line { start, end } => {
            let mut members: Vec<(String, Json)> = Vec::new();
            put(&mut members, "start", start.to_json());
            put(&mut members, "end", end.to_json());
            tagged_json("Line", object(members))
            },
        }
    }

    /// Reads the body of `Rectangle`.
    fn rectangle_from_json(body: &Json) -> (outcome: Result<Shape, DecodeError>)
        ensures
            outcome == Shape::read_rectangle(body@),
    {
        let top_left = Point2D::get(body, "top_left")?;
        let bottom_right = Point2D::get(body, "bottom_right")?;
        if !check_corners(top_left, bottom_right) {
            return Err(DecodeError::MalformedRectangle);
        }
        Ok(Shape::Rectangle { top_left, bottom_right })
    }

    /// Reads the body of `Circle`.
    fn circle_from_json(body: &Json) -> (outcome: Result<Shape, DecodeError>)
        ensures
            outcome == Shape::read_circle(body@),
    {
        let center = Point2D::get(body, "center")?;
        let radius = get_u16(body, "radius")?;
        Ok(Shape::Circle { center, radius })
    }

    /// Reads the body of `Pixel`.
    fn pixel_from_json(body: &Json) -> (outcome: Result<Shape, DecodeError>)
        ensures
            outcome == Shape::read_pixel(body@),
    {
        let pos = Point2D::get(body, "pos")?;
        Ok(Shape::Pixel { pos })
    }

    /// Reads the body of `Line`.
    fn line_from_json(body: &Json) -> (outcome: Result<Shape, DecodeError>)
        ensures
            outcome == Shape::read_line(body@),
    {
        let start = Point2D::get(body, "start")?;
        let end = Point2D::get(body, "end")?;
        Ok(Shape::Line { start, end })
    }

    /// Reads a value.
    pub fn from_json(tree: &Json) -> (outcome: Result<Shape, DecodeError>)
        ensures
            outcome == Shape::read(tree@),
    {
        let (name, given) = as_variant(tree)?;
        let absent = Json::Null;
        let body: &Json = match given {
            Some(b) => b,
            None => &absent,
        };
        if same_text(name, "Rectangle") {
            Shape::rectangle_from_json(body)
        } else if same_text(name, "Circle") {
            Shape::circle_from_json(body)
        } else if same_text(name, "Pixel") {
            Shape::pixel_from_json(body)
        } else if same_text(name, "Line") {
            Shape::line_from_json(body)
        } else {
            Err(DecodeError::UnknownTag)
        }
    }

    /// Reads the value under the member `key` of an object.
    pub fn get(tree: &Json, key: &str) -> (outcome: Result<Shape, DecodeError>)
        ensures
            outcome == Shape::at(tree@, key@),
    {
        Shape::from_json(get_member(tree, key)?)
    }
}

impl Shape {
    /// Executable form of `well_formed`.
    pub fn is_well_formed(&self) -> (ok: bool)
        ensures
            ok == self.well_formed(),
    {
        match self {
            Shape::Rectangle { top_left, bottom_right } => check_corners(*top_left, *bottom_right),
            _ => true,
        }
    }

    /// The rectangle with these corners, or a refusal of corners out of order.
    pub fn rectangle(top_left: Point2D, bottom_right: Point2D) -> (made: Result<
        Shape,
        GeometryError,
    >)
        ensures
            corners_ordered(top_left, bottom_right) ==> made == Ok::<Shape, GeometryError>(
                Shape::Rectangle { top_left, bottom_right },
            ),
            !corners_ordered(top_left, bottom_right) ==> made == Err::<Shape, GeometryError>(
                GeometryError::InvertedCorners,
            ),
    {
        if check_corners(top_left, bottom_right) {
            Ok(Shape::Rectangle { top_left, bottom_right })
        } else {
            Err(GeometryError::InvertedCorners)
        }
    }

    /// The circle round `center`. A radius below zero is refused, and so is one
    /// above `u16::MAX`, which no message could carry.
    pub fn circle(center: Point2D, radius: i64) -> (made: Result<Shape, GeometryError>)
        ensures
            radius < 0 ==> made == Err::<Shape, GeometryError>(GeometryError::NegativeRadius),
            radius > u16::MAX ==> made == Err::<Shape, GeometryError>(
                GeometryError::RadiusTooLarge,
            ),
            0 <= radius <= u16::MAX ==> made == Ok::<Shape, GeometryError>(
                Shape::Circle { center, radius: radius as u16 },
            ),
    {
        if radius < 0 {
            Err(GeometryError::NegativeRadius)
        } else if radius > 65535 {
            Err(GeometryError::RadiusTooLarge)
        } else {
            Ok(Shape::Circle { center, radius: radius as u16 })
        }
    }
}

} // verus!
