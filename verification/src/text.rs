//! Text on the screen: what is written, in which font, and where.

use crate::geometry::Point2D;
use crate::wire::{
    as_unit, as_variant, get_i32, get_member, get_text, get_usize, i32_at, member, member_found,
    no_members, object, outcome_is, put, read_unit, read_variant, same_text, tagged,
    tagged_json, text_at, text_json, usize_at, whole, whole_json, DecodeError, Json, JsonView,
};
use vstd::prelude::*;

verus! {

/// The font families of the screen.
#[derive(Clone, Copy, Debug, PartialEq, Eq, Structural, Hash, PartialOrd, Ord)]
pub enum V5FontFamily {
    UserMono,
    TimerMono,
}

impl V5FontFamily {
    /// How a value is written: as the bare name of the variant.
    pub open spec fn wire(self) -> JsonView {
        match self {
            V5FontFamily::UserMono => JsonView::Text("UserMono"@),
            V5FontFamily::TimerMono => JsonView::Text("TimerMono"@),
        }
    }

    /// The value that a tree spells, or why it spells none.
    pub open spec fn read(tree: JsonView) -> Result<V5FontFamily, DecodeError> {
        match read_variant(tree) {
            Err(e) => Err(e),
            Ok((name, body)) => if name == "UserMono"@ {
                match read_unit(body) {
                    Ok(_) => Ok(V5FontFamily::UserMono),
                    Err(e) => Err(e),
                }
            } else if name == "TimerMono"@ {
                match read_unit(body) {
                    Ok(_) => Ok(V5FontFamily::TimerMono),
                    Err(e) => Err(e),
                }
            } else {
                Err(DecodeError::UnknownTag)
            },
        }
    }

    /// The value under the member `key` of an object.
    pub open spec fn at(tree: JsonView, key: Seq<char>) -> Result<V5FontFamily, DecodeError> {
        match member(tree, key) {
            Ok(v) => V5FontFamily::read(v),
            Err(e) => Err(e),
        }
    }

    /// The names of the variants differ in length or in a letter.
    proof fn tags_differ()
        ensures
            "UserMono"@.len() == 8,
            "TimerMono"@.len() == 9,
    {
        reveal_strlit("UserMono");
        reveal_strlit("TimerMono");
    }

    /// A value that is written and read again is the same value.
    pub proof fn wire_round_trip(self)
        ensures
            V5FontFamily::read(self.wire()) == Ok::<V5FontFamily, DecodeError>(self),
    {
        V5FontFamily::tags_differ();
        match self {
            V5FontFamily::UserMono => {},
            V5FontFamily::TimerMono => {},
        }
    }

    /// Writes the value.
    pub fn to_json(&self) -> (tree: Json)
        ensures
            tree@ == self.wire(),
    {
        match self {
            V5FontFamily::UserMono => text_json("UserMono"),
            V5FontFamily::TimerMono => text_json("TimerMono"),
        }
    }

    /// Reads a value.
    pub fn from_json(tree: &Json) -> (outcome: Result<V5FontFamily, DecodeError>)
        ensures
            outcome == V5FontFamily::read(tree@),
    {
        let (name, given) = as_variant(tree)?;
        let absent = Json::Null;
        let body: &Json = match given {
            Some(b) => b,
            None => &absent,
        };
        if same_text(name, "UserMono") {
            as_unit(given)?;
            Ok(V5FontFamily::UserMono)
        } else if same_text(name, "TimerMono") {
            as_unit(given)?;
            Ok(V5FontFamily::TimerMono)
        } else {
            Err(DecodeError::UnknownTag)
        }
    }

    /// Reads the value under the member `key` of an object.
    pub fn get(tree: &Json, key: &str) -> (outcome: Result<V5FontFamily, DecodeError>)
        ensures
            outcome == V5FontFamily::at(tree@, key@),
    {
        V5FontFamily::from_json(get_member(tree, key)?)
    }
}

impl Default for V5FontFamily {
    /// The font of user programs.
    fn default() -> (value: V5FontFamily)
        ensures
            value == V5FontFamily::UserMono,
    {
        V5FontFamily::UserMono
    }
}

/// The font sizes of the screen.
#[derive(Clone, Copy, Debug, PartialEq, Eq, Structural, Hash, PartialOrd, Ord)]
pub enum V5FontSize {
    Small,
    Normal,
    Large,
}

impl V5FontSize {
    /// How a value is written: as the bare name of the variant.
    pub open spec fn wire(self) -> JsonView {
        match self {
            V5FontSize::Small => JsonView::Text("Small"@),
            V5FontSize::Normal => JsonView::Text("Normal"@),
            V5FontSize::Large => JsonView::Text("Large"@),
        }
    }

    /// The value that a tree spells, or why it spells none.
    pub open spec fn read(tree: JsonView) -> Result<V5FontSize, DecodeError> {
        match read_variant(tree) {
            Err(e) => Err(e),
            Ok((name, body)) => if name == "Small"@ {
                match read_unit(body) {
                    Ok(_) => Ok(V5FontSize::Small),
                    Err(e) => Err(e),
                }
            } else if name == "Normal"@ {
                match read_unit(body) {
                    Ok(_) => Ok(V5FontSize::Normal),
                    Err(e) => Err(e),
                }
            } else if name == "Large"@ {
                match read_unit(body) {
                    Ok(_) => Ok(V5FontSize::Large),
                    Err(e) => Err(e),
                }
            } else {
                Err(DecodeError::UnknownTag)
            },
        }
    }

    /// The value under the member `key` of an object.
    pub open spec fn at(tree: JsonView, key: Seq<char>) -> Result<V5FontSize, DecodeError> {
        match member(tree, key) {
            Ok(v) => V5FontSize::read(v),
            Err(e) => Err(e),
        }
    }

    /// The names of the variants differ in length or in a letter.
    proof fn tags_differ()
        ensures
            "Small"@.len() == 5 && "Small"@[0] == 'S',
            "Normal"@.len() == 6,
            "Large"@.len() == 5 && "Large"@[0] == 'L',
    {
        reveal_strlit("Small");
        reveal_strlit("Normal");
        reveal_strlit("Large");
    }

    /// A value that is written and read again is the same value.
    pub proof fn wire_round_trip(self)
        ensures
            V5FontSize::read(self.wire()) == Ok::<V5FontSize, DecodeError>(self),
    {
        V5FontSize::tags_differ();
        match self {
            V5FontSize::Small => {},
            V5FontSize::Normal => {},
            V5FontSize::Large => {},
        }
    }

    /// Writes the value.
    pub fn to_json(&self) -> (tree: Json)
        ensures
            tree@ == self.wire(),
    {
        match self {
            V5FontSize::Small => text_json("Small"),
            V5FontSize::Normal => text_json("Normal"),
            V5FontSize::Large => text_json("Large"),
        }
    }

    /// Reads a value.
    pub fn from_json(tree: &Json) -> (outcome: Result<V5FontSize, DecodeError>)
        ensures
            outcome == V5FontSize::read(tree@),
    {
        let (name, given) = as_variant(tree)?;
        let absent = Json::Null;
        let body: &Json = match given {
            Some(b) => b,
            None => &absent,
        };
        if same_text(name, "Small") {
            as_unit(given)?;
            Ok(V5FontSize::Small)
        } else if same_text(name, "Normal") {
            as_unit(given)?;
            Ok(V5FontSize::Normal)
        } else if same_text(name, "Large") {
            as_unit(given)?;
            Ok(V5FontSize::Large)
        } else {
            Err(DecodeError::UnknownTag)
        }
    }

    /// Reads the value under the member `key` of an object.
    pub fn get(tree: &Json, key: &str) -> (outcome: Result<V5FontSize, DecodeError>)
        ensures
            outcome == V5FontSize::at(tree@, key@),
    {
        V5FontSize::from_json(get_member(tree, key)?)
    }
}

impl Default for V5FontSize {
    /// The size of ordinary text.
    fn default() -> (value: V5FontSize)
        ensures
            value == V5FontSize::Normal,
    {
        V5FontSize::Normal
    }
}

/// A text with the font in which it is drawn.
#[derive(Clone, Debug, PartialEq, Eq, Hash, PartialOrd, Ord)]
pub struct V5Text {
    pub data: String,
    pub font_family: V5FontFamily,
    pub font_size: V5FontSize,
}

/// What a value of `V5Text` holds.
pub struct V5TextView {
    pub data: Seq<char>,
    pub font_family: V5FontFamily,
    pub font_size: V5FontSize,
}

impl View for V5Text {
    type V = V5TextView;

    open spec fn view(&self) -> V5TextView {
        V5TextView { data: self.data@, font_family: self.font_family, font_size: self.font_size }
    }
}

impl V5TextView {
    /// How a value is written: an object with one member for each field, in
    /// the order of the fields.
    pub open spec fn wire(self) -> JsonView {
        JsonView::Object(
            no_members()
                .push(("data"@, JsonView::Text(self.data)))
                .push(("font_family"@, self.font_family.wire()))
                .push(("font_size"@, self.font_size.wire())),
        )
    }

    /// The value that a tree spells, or why it spells none: the fields are
    /// read in their order, and the first that cannot be read gives the error.
    pub open spec fn read(tree: JsonView) -> Result<V5TextView, DecodeError> {
        let data = text_at(tree, "data"@);
        let font_family = V5FontFamily::at(tree, "font_family"@);
        let font_size = V5FontSize::at(tree, "font_size"@);
        if data is Err {
            Err(data->Err_0)
        } else if font_family is Err {
            Err(font_family->Err_0)
        } else if font_size is Err {
            Err(font_size->Err_0)
        } else {
            Ok(
                V5TextView {
                    data: data->Ok_0,
                    font_family: font_family->Ok_0,
                    font_size: font_size->Ok_0,
                },
            )
        }
    }

    /// The value under the member `key` of an object.
    pub open spec fn at(tree: JsonView, key: Seq<char>) -> Result<V5TextView, DecodeError> {
        match member(tree, key) {
            Ok(v) => V5TextView::read(v),
            Err(e) => Err(e),
        }
    }

    /// The members have different names.
    proof fn names_differ()
        ensures
            "data"@.len() == 4,
            "font_family"@.len() == 11,
            "font_size"@.len() == 9,
    {
        reveal_strlit("data");
        reveal_strlit("font_family");
        reveal_strlit("font_size");
    }

    /// A value that is written and read again is the same value.
    pub proof fn wire_round_trip(self)
        ensures
            V5TextView::read(self.wire()) == Ok::<V5TextView, DecodeError>(self),
    {
        V5TextView::names_differ();
        let members = self.wire()->Object_0;
        member_found(members, 0);
        member_found(members, 1);
        member_found(members, 2);
        self.font_family.wire_round_trip();
        self.font_size.wire_round_trip();
    }
}

impl V5Text {
    /// Writes the value.
    pub fn to_json(&self) -> (tree: Json)
        ensures
            tree@ == self@.wire(),
    {
        let mut members: Vec<(String, Json)> = Vec::new();
        put(&mut members, "data", text_json(self.data.as_str()));
        put(&mut members, "font_family", self.font_family.to_json());
        put(&mut members, "font_size", self.font_size.to_json());
        object(members)
    }

    /// Reads a value.
    pub fn from_json(tree: &Json) -> (outcome: Result<V5Text, DecodeError>)
        ensures
            outcome_is(outcome, V5TextView::read(tree@)),
    {
        let data = get_text(tree, "data")?.clone();
        let font_family = V5FontFamily::get(tree, "font_family")?;
        let font_size = V5FontSize::get(tree, "font_size")?;
        Ok(V5Text { data, font_family, font_size })
    }

    /// Reads the value under the member `key` of an object.
    pub fn get(tree: &Json, key: &str) -> (outcome: Result<V5Text, DecodeError>)
        ensures
            outcome_is(outcome, V5TextView::at(tree@, key@)),
    {
        V5Text::from_json(get_member(tree, key)?)
    }
}

impl Default for V5Text {
    /// The empty text in the font and size of ordinary text.
    fn default() -> (value: V5Text)
        ensures
            value@ == (V5TextView {
                data: Seq::empty(),
                font_family: V5FontFamily::UserMono,
                font_size: V5FontSize::Normal,
            }),
    {
        V5Text {
            data: String::new(),
            font_family: V5FontFamily::UserMono,
            font_size: V5FontSize::Normal,
        }
    }
}

/// The size of a text as the frontend draws it, in pixels.
#[derive(Clone, Copy, Debug, PartialEq, Eq, Structural, Hash, PartialOrd, Ord)]
pub struct TextMetrics {
    pub width: usize,
    pub height: usize,
}

impl TextMetrics {
    /// How a value is written: an object with one member for each field, in
    /// the order of the fields.
    pub open spec fn wire(self) -> JsonView {
        JsonView::Object(
            no_members().push(("width"@, whole(self.width as int))).push(
                ("height"@, whole(self.height as int)),
            ),
        )
    }

    /// The value that a tree spells, or why it spells none: the fields are
    /// read in their order, and the first that cannot be read gives the error.
    pub open spec fn read(tree: JsonView) -> Result<TextMetrics, DecodeError> {
        let width = usize_at(tree, "width"@);
        let height = usize_at(tree, "height"@);
        if width is Err {
            Err(width->Err_0)
        } else if height is Err {
            Err(height->Err_0)
        } else {
            Ok(TextMetrics { width: width->Ok_0, height: height->Ok_0 })
        }
    }

    /// The value under the member `key` of an object.
    pub open spec fn at(tree: JsonView, key: Seq<char>) -> Result<TextMetrics, DecodeError> {
        match member(tree, key) {
            Ok(v) => TextMetrics::read(v),
            Err(e) => Err(e),
        }
    }

    /// The members have different names.
    proof fn names_differ()
        ensures
            "width"@.len() == 5,
            "height"@.len() == 6,
    {
        reveal_strlit("width");
        reveal_strlit("height");
    }

    /// A value that is written and read again is the same value.
    pub proof fn wire_round_trip(self)
        ensures
            TextMetrics::read(self.wire()) == Ok::<TextMetrics, DecodeError>(self),
    {
        TextMetrics::names_differ();
        let members = self.wire()->Object_0;
        member_found(members, 0);
        member_found(members, 1);
    }

    /// Writes the value.
    pub fn to_json(&self) -> (tree: Json)
        ensures
            tree@ == self.wire(),
    {
        let mut members: Vec<(String, Json)> = Vec::new();
        put(&mut members, "width", whole_json(self.width as i128));
        put(&mut members, "height", whole_json(self.height as i128));
        object(members)
    }

    /// Reads a value.
    pub fn from_json(tree: &Json) -> (outcome: Result<TextMetrics, DecodeError>)
        ensures
            outcome == TextMetrics::read(tree@),
    {
        let width = get_usize(tree, "width")?;
        let height = get_usize(tree, "height")?;
        Ok(TextMetrics { width, height })
    }

    /// Reads the value under the member `key` of an object.
    pub fn get(tree: &Json, key: &str) -> (outcome: Result<TextMetrics, DecodeError>)
        ensures
            outcome == TextMetrics::at(tree@, key@),
    {
        TextMetrics::from_json(get_member(tree, key)?)
    }
}

impl Default for TextMetrics {
    /// The size of nothing.
    fn default() -> (value: TextMetrics)
        ensures
            value == (TextMetrics { width: 0, height: 0 }),
    {
        TextMetrics { width: 0, height: 0 }
    }
}

/// Where a text is written: at a pixel, or on a line of the terminal.
#[derive(Clone, Copy, Debug, PartialEq, Eq, Structural, Hash, PartialOrd, Ord)]
pub enum TextLocation {
    Coordinates { point: Point2D },
    Line { line: i32 },
}

impl TextLocation {
    /// How a value is written: a variant without a body as its bare name,
    /// any other as an object with one member, named after the variant.
    pub open spec fn wire(self) -> JsonView {
        match self {
            TextLocation::Coordinates { point } => tagged(
                "Coordinates"@,
                TextLocation::coordinates_wire(point),
            ),
            TextLocation::Line { line } => tagged(
                "Line"@,
                TextLocation::line_wire(line),
            ),
        }
    }

    /// The body of `Coordinates`: one member for each field.
    pub open spec fn coordinates_wire(point: Point2D) -> JsonView {
        JsonView::Object(no_members().push(("point"@, point.wire())))
    }

    /// What the body of `Coordinates` spells: the fields are read in their order,
    /// and the first that cannot be read gives the error.
    pub open spec fn read_coordinates(body: JsonView) -> Result<TextLocation, DecodeError> {
        let point = Point2D::at(body, "point"@);
        if point is Err {
            Err(point->Err_0)
        } else {
            Ok(TextLocation::Coordinates { point: point->Ok_0 })
        }
    }

    /// The body of `Line`: one member for each field.
    pub open spec fn line_wire(line: i32) -> JsonView {
        JsonView::Object(no_members().push(("line"@, whole(line as int))))
    }

    /// What the body of `Line` spells: the fields are read in their order,
    /// and the first that cannot be read gives the error.
    pub open spec fn read_line(body: JsonView) -> Result<TextLocation, DecodeError> {
        let line = i32_at(body, "line"@);
        if line is Err {
            Err(line->Err_0)
        } else {
            Ok(TextLocation::Line { line: line->Ok_0 })
        }
    }

    /// The value that a tree spells, or why it spells none.
    pub open spec fn read(tree: JsonView) -> Result<TextLocation, DecodeError> {
        match read_variant(tree) {
            Err(e) => Err(e),
            Ok((name, body)) => if name == "Coordinates"@ {
                TextLocation::read_coordinates(body)
            } else if name == "Line"@ {
                TextLocation::read_line(body)
            } else {
                Err(DecodeError::UnknownTag)
            },
        }
    }

    /// The value under the member `key` of an object.
    pub open spec fn at(tree: JsonView, key: Seq<char>) -> Result<TextLocation, DecodeError> {
        match member(tree, key) {
            Ok(v) => TextLocation::read(v),
            Err(e) => Err(e),
        }
    }

    /// The names of the variants differ in length or in a letter.
    proof fn tags_differ()
        ensures
            "Coordinates"@.len() == 11,
            "Line"@.len() == 4,
    {
        reveal_strlit("Coordinates");
        reveal_strlit("Line");
    }

    /// The members of `Coordinates` have different names.
    proof fn coordinates_names()
        ensures
            "point"@.len() == 5,
    {
        reveal_strlit("point");
    }

    /// The body of `Coordinates` reads back as the fields that it was written from.
    proof fn coordinates_reads_back(point: Point2D)
        ensures
            TextLocation::read_coordinates(TextLocation::coordinates_wire(point))
                == Ok::<TextLocation, DecodeError>(TextLocation::Coordinates { point }),
    {
        TextLocation::coordinates_names();
        let members = TextLocation::coordinates_wire(point)->Object_0;
        member_found(members, 0);
        point.wire_round_trip();
    }

    /// The members of `Line` have different names.
    proof fn line_names()
        ensures
            "line"@.len() == 4,
    {
        reveal_strlit("line");
    }

    /// The body of `Line` reads back as the fields that it was written from.
    proof fn line_reads_back(line: i32)
        ensures
            TextLocation::read_line(TextLocation::line_wire(line))
                == Ok::<TextLocation, DecodeError>(TextLocation::Line { line }),
    {
        TextLocation::line_names();
        let members = TextLocation::line_wire(line)->Object_0;
        member_found(members, 0);
    }

    /// A value that is written and read again is the same value.
    pub proof fn wire_round_trip(self)
        ensures
            TextLocation::read(self.wire()) == Ok::<TextLocation, DecodeError>(self),
    {
        TextLocation::tags_differ();
        match self {
            TextLocation::Coordinates { point } => {
            TextLocation::coordinates_reads_back(point);
            },
            TextLocation::Line { line } => {
            TextLocation::line_reads_back(line);
            },
        }
    }

    /// Writes the value.
    pub fn to_json(&self) -> (tree: Json)
        ensures
            tree@ == self.wire(),
    {
        match self {
            TextLocation::Coordinates { point } => {
            let mut members: Vec<(String, Json)> = Vec::new();
            put(&mut members, "point", point.to_json());
            tagged_json("Coordinates", object(members))
            },
            TextLocation::Line { line } => {
            let mut members: Vec<(String, Json)> = Vec::new();
            put(&mut members, "line", whole_json(*line as i128));
            tagged_json("Line", object(members))
            },
        }
    }

    /// Reads the body of `Coordinates`.
    fn coordinates_from_json(body: &Json) -> (outcome: Result<TextLocation, DecodeError>)
        ensures
            outcome == TextLocation::read_coordinates(body@),
    {
        let point = Point2D::get(body, "point")?;
        Ok(TextLocation::Coordinates { point })
    }

    /// Reads the body of `Line`.
    fn line_from_json(body: &Json) -> (outcome: Result<TextLocation, DecodeError>)
        ensures
            outcome == TextLocation::read_line(body@),
    {
        let line = get_i32(body, "line")?;
        Ok(TextLocation::Line { line })
    }

    /// Reads a value.
    pub fn from_json(tree: &Json) -> (outcome: Result<TextLocation, DecodeError>)
        ensures
            outcome == TextLocation::read(tree@),
    {
        let (name, given) = as_variant(tree)?;
        let absent = Json::Null;
        let body: &Json = match given {
            Some(b) => b,
            None => &absent,
        };
        if same_text(name, "Coordinates") {
            TextLocation::coordinates_from_json(body)
        } else if same_text(name, "Line") {
            TextLocation::line_from_json(body)
        } else {
            Err(DecodeError::UnknownTag)
        }
    }

    /// Reads the value under the member `key` of an object.
    pub fn get(tree: &Json, key: &str) -> (outcome: Result<TextLocation, DecodeError>)
        ensures
            outcome == TextLocation::at(tree@, key@),
    {
        TextLocation::from_json(get_member(tree, key)?)
    }
}

impl Default for TextLocation {
    /// The top-left pixel of the screen.
    fn default() -> (value: TextLocation)
        ensures
            value == (TextLocation::Coordinates { point: Point2D { x: 0, y: 0 } }),
    {
        TextLocation::Coordinates { point: Point2D { x: 0, y: 0 } }
    }
}

/// What is scrolled: the terminal from a line on, or a region of the screen.
#[derive(Clone, Copy, Debug, PartialEq, Eq, Structural, Hash, PartialOrd, Ord)]
pub enum ScrollLocation {
    Line { line: i32 },
    Rectangle { top_left: Point2D, bottom_right: Point2D },
}

impl ScrollLocation {
    /// How a value is written: a variant without a body as its bare name,
    /// any other as an object with one member, named after the variant.
    pub open spec fn wire(self) -> JsonView {
        match self {
            ScrollLocation::Line { line } => tagged(
                "Line"@,
                ScrollLocation::line_wire(line),
            ),
            ScrollLocation::Rectangle { top_left, bottom_right } => tagged(
                "Rectangle"@,
                ScrollLocation::rectangle_wire(top_left, bottom_right),
            ),
        }
    }

    /// The body of `Line`: one member for each field.
    pub open spec fn line_wire(line: i32) -> JsonView {
        JsonView::Object(no_members().push(("line"@, whole(line as int))))
    }

    /// What the body of `Line` spells: the fields are read in their order,
    /// and the first that cannot be read gives the error.
    pub open spec fn read_line(body: JsonView) -> Result<ScrollLocation, DecodeError> {
        let line = i32_at(body, "line"@);
        if line is Err {
            Err(line->Err_0)
        } else {
            Ok(ScrollLocation::Line { line: line->Ok_0 })
        }
    }

    /// The body of `Rectangle`: one member for each field.
    pub open spec fn rectangle_wire(top_left: Point2D, bottom_right: Point2D) -> JsonView {
        JsonView::Object(
            no_members().push(("top_left"@, top_left.wire())).push(
                ("bottom_right"@, bottom_right.wire()),
            ),
        )
    }

    /// What the body of `Rectangle` spells: the fields are read in their order,
    /// and the first that cannot be read gives the error.
    pub open spec fn read_rectangle(body: JsonView) -> Result<ScrollLocation, DecodeError> {
        let top_left = Point2D::at(body, "top_left"@);
        let bottom_right = Point2D::at(body, "bottom_right"@);
        if top_left is Err {
            Err(top_left->Err_0)
        } else if bottom_right is Err {
            Err(bottom_right->Err_0)
        } else {
            Ok(
                ScrollLocation::Rectangle {
                    top_left: top_left->Ok_0,
                    bottom_right: bottom_right->Ok_0,
                },
            )
        }
    }

    /// The value that a tree spells, or why it spells none.
    pub open spec fn read(tree: JsonView) -> Result<ScrollLocation, DecodeError> {
        match read_variant(tree) {
            Err(e) => Err(e),
            Ok((name, body)) => if name == "Line"@ {
                ScrollLocation::read_line(body)
            } else if name == "Rectangle"@ {
                ScrollLocation::read_rectangle(body)
            } else {
                Err(DecodeError::UnknownTag)
            },
        }
    }

    /// The value under the member `key` of an object.
    pub open spec fn at(tree: JsonView, key: Seq<char>) -> Result<ScrollLocation, DecodeError> {
        match member(tree, key) {
            Ok(v) => ScrollLocation::read(v),
            Err(e) => Err(e),
        }
    }

    /// The names of the variants differ in length or in a letter.
    proof fn tags_differ()
        ensures
            "Line"@.len() == 4,
            "Rectangle"@.len() == 9,
    {
        reveal_strlit("Line");
        reveal_strlit("Rectangle");
    }

    /// The members of `Line` have different names.
    proof fn line_names()
        ensures
            "line"@.len() == 4,
    {
        reveal_strlit("line");
    }

    /// The body of `Line` reads back as the fields that it was written from.
    proof fn line_reads_back(line: i32)
        ensures
            ScrollLocation::read_line(ScrollLocation::line_wire(line))
                == Ok::<ScrollLocation, DecodeError>(ScrollLocation::Line { line }),
    {
        ScrollLocation::line_names();
        let members = ScrollLocation::line_wire(line)->Object_0;
        member_found(members, 0);
    }

    /// The members of `Rectangle` have different names.
    proof fn rectangle_names()
        ensures
            "top_left"@.len() == 8,
            "bottom_right"@.len() == 12,
    {
        reveal_strlit("top_left");
        reveal_strlit("bottom_right");
    }

    /// The body of `Rectangle` reads back as the fields that it was written from.
    proof fn rectangle_reads_back(top_left: Point2D, bottom_right: Point2D)
        ensures
            ScrollLocation::read_rectangle(ScrollLocation::rectangle_wire(top_left, bottom_right))
                == Ok::<ScrollLocation, DecodeError>(
                    ScrollLocation::Rectangle { top_left, bottom_right },
                ),
    {
        ScrollLocation::rectangle_names();
        let members = ScrollLocation::rectangle_wire(top_left, bottom_right)->Object_0;
        member_found(members, 0);
        member_found(members, 1);
        top_left.wire_round_trip();
        bottom_right.wire_round_trip();
    }

    /// A value that is written and read again is the same value.
    pub proof fn wire_round_trip(self)
        ensures
            ScrollLocation::read(self.wire()) == Ok::<ScrollLocation, DecodeError>(self),
    {
        ScrollLocation::tags_differ();
        match self {
            ScrollLocation::Line { line } => {
            ScrollLocation::line_reads_back(line);
            },
            ScrollLocation::Rectangle { top_left, bottom_right } => {
            ScrollLocation::rectangle_reads_back(top_left, bottom_right);
            },
        }
    }

    /// Writes the value.
    pub fn to_json(&self) -> (tree: Json)
        ensures
            tree@ == self.wire(),
    {
        match self {
            ScrollLocation::Line { line } => {
            let mut members: Vec<(String, Json)> = Vec::new();
            put(&mut members, "line", whole_json(*line as i128));
            tagged_json("Line", object(members))
            },
            ScrollLocation::Rectangle { top_left, bottom_right } => {
            let mut members: Vec<(String, Json)> = Vec::new();
            put(&mut members, "top_left", top_left.to_json());
            put(&mut members, "bottom_right", bottom_right.to_json());
            tagged_json("Rectangle", object(members))
            },
        }
    }

    /// Reads the body of `Line`.
    fn line_from_json(body: &Json) -> (outcome: Result<ScrollLocation, DecodeError>)
        ensures
            outcome == ScrollLocation::read_line(body@),
    {
        let line = get_i32(body, "line")?;
        Ok(ScrollLocation::Line { line })
    }

    /// Reads the body of `Rectangle`.
    fn rectangle_from_json(body: &Json) -> (outcome: Result<ScrollLocation, DecodeError>)
        ensures
            outcome == ScrollLocation::read_rectangle(body@),
    {
        let top_left = Point2D::get(body, "top_left")?;
        let bottom_right = Point2D::get(body, "bottom_right")?;
        Ok(ScrollLocation::Rectangle { top_left, bottom_right })
    }

    /// Reads a value.
    pub fn from_json(tree: &Json) -> (outcome: Result<ScrollLocation, DecodeError>)
        ensures
            outcome == ScrollLocation::read(tree@),
    {
        let (name, given) = as_variant(tree)?;
        let absent = Json::Null;
        let body: &Json = match given {
            Some(b) => b,
            None => &absent,
        };
        if same_text(name, "Line") {
            ScrollLocation::line_from_json(body)
        } else if same_text(name, "Rectangle") {
            ScrollLocation::rectangle_from_json(body)
        } else {
            Err(DecodeError::UnknownTag)
        }
    }

    /// Reads the value under the member `key` of an object.
    pub fn get(tree: &Json, key: &str) -> (outcome: Result<ScrollLocation, DecodeError>)
        ensures
            outcome == ScrollLocation::at(tree@, key@),
    {
        ScrollLocation::from_json(get_member(tree, key)?)
    }
}

} // verus!
