//! Instructions for drawing to the screen.

use crate::color::Color;
use crate::geometry::{GeometryError, Point2D, Shape};
use crate::payload::{
    base64_decoded, base64_text, check_payload, decode_bytes, decodes_to, encodable, encode_bytes,
};
use crate::text::{TextLocation, V5Text, V5TextView};
use crate::wire::{
    as_variant, bool_at, get_bool, get_member, get_text, get_u16, member, member_found,
    no_members, object, outcome_is, put, read_variant, same_text, tagged, tagged_json, text_at,
    text_json, u16_at, whole, whole_json, DecodeError, Json, JsonView,
};
use vstd::prelude::*;

verus! {

/// An instruction for drawing to the screen.
#[derive(Clone, Debug, PartialEq, Eq, Hash, PartialOrd, Ord)]
pub enum DrawCommand {
    /// Fills a shape.
    Fill { shape: Shape },
    /// Draws the outline of a shape.
    Stroke { shape: Shape },
    /// Copies pixels into a region. `stride` is the number of pixels in a
    /// row of `buffer` and is never zero; `buffer` is base64 text.
    CopyBuffer { top_left: Point2D, bottom_right: Point2D, stride: u16, buffer: String },
    /// Writes a text.
    Write { text: V5Text, location: TextLocation, opaque: bool, background: Color },
}

/// What a value of `DrawCommand` holds.
pub enum DrawCommandView {
    Fill { shape: Shape },
    Stroke { shape: Shape },
    CopyBuffer { top_left: Point2D, bottom_right: Point2D, stride: u16, buffer: Seq<char> },
    Write { text: V5TextView, location: TextLocation, opaque: bool, background: Color },
}

impl View for DrawCommand {
    type V = DrawCommandView;

    open spec fn view(&self) -> DrawCommandView {
        match self {
            DrawCommand::Fill { shape } => DrawCommandView::Fill { shape: *shape },
            DrawCommand::Stroke { shape } => DrawCommandView::Stroke { shape: *shape },
            DrawCommand::CopyBuffer { top_left, bottom_right, stride, buffer } =>
                DrawCommandView::CopyBuffer {
                    top_left: *top_left,
                    bottom_right: *bottom_right,
                    stride: *stride,
                    buffer: buffer@,
                },
            DrawCommand::Write { text, location, opaque, background } =>
                DrawCommandView::Write {
                    text: text@,
                    location: *location,
                    opaque: *opaque,
                    background: *background,
                },
        }
    }
}

impl DrawCommandView {
    /// The invariant of a value: what a reader checks before it hands the
    /// value out.
    pub open spec fn well_formed(self) -> bool {
        match self {
            DrawCommandView::Fill { shape } => {
                &&& shape.well_formed()
            },
            DrawCommandView::Stroke { shape } => {
                &&& shape.well_formed()
            },
            DrawCommandView::CopyBuffer { top_left, bottom_right, stride, buffer } => {
                &&& stride != 0
                &&& base64_decoded(buffer) is Ok
            },
            _ => true,
        }
    }

    /// How a value is written: a variant without a body as its bare name,
    /// any other as an object with one member, named after the variant.
    pub open spec fn wire(self) -> JsonView {
        match self {
            DrawCommandView::Fill { shape } => tagged(
                "Fill"@,
                DrawCommandView::fill_wire(shape),
            ),
            DrawCommandView::Stroke { shape } => tagged(
                "Stroke"@,
                DrawCommandView::stroke_wire(shape),
            ),
            DrawCommandView::CopyBuffer { top_left, bottom_right, stride, buffer } => tagged(
                "CopyBuffer"@,
                DrawCommandView::copy_buffer_wire(top_left, bottom_right, stride, buffer),
            ),
            DrawCommandView::Write { text, location, opaque, background } => tagged(
                "Write"@,
                DrawCommandView::write_wire(text, location, opaque, background),
            ),
        }
    }

    /// The body of `Fill`: one member for each field.
    pub open spec fn fill_wire(shape: Shape) -> JsonView {
        JsonView::Object(no_members().push(("shape"@, shape.wire())))
    }

    /// What the body of `Fill` spells: the fields are read in their order,
    /// and the first that cannot be read gives the error.
    pub open spec fn read_fill(body: JsonView) -> Result<DrawCommandView, DecodeError> {
        let shape = Shape::at(body, "shape"@);
        if shape is Err {
            Err(shape->Err_0)
        } else {
            Ok(DrawCommandView::Fill { shape: shape->Ok_0 })
        }
    }

    /// The body of `Stroke`: one member for each field.
    pub open spec fn stroke_wire(shape: Shape) -> JsonView {
        JsonView::Object(no_members().push(("shape"@, shape.wire())))
    }

    /// What the body of `Stroke` spells: the fields are read in their order,
    /// and the first that cannot be read gives the error.
    pub open spec fn read_stroke(body: JsonView) -> Result<DrawCommandView, DecodeError> {
        let shape = Shape::at(body, "shape"@);
        if shape is Err {
            Err(shape->Err_0)
        } else {
            Ok(DrawCommandView::Stroke { shape: shape->Ok_0 })
        }
    }

    /// The body of `CopyBuffer`: one member for each field.
    pub open spec fn copy_buffer_wire(
        top_left: Point2D,
        bottom_right: Point2D,
        stride: u16,
        buffer: Seq<char>,
    ) -> JsonView {
        JsonView::Object(
            no_members()
                .push(("top_left"@, top_left.wire()))
                .push(("bottom_right"@, bottom_right.wire()))
                .push(("stride"@, whole(stride as int)))
                .push(("buffer"@, JsonView::Text(buffer))),
        )
    }

    /// What the body of `CopyBuffer` spells: the fields are read in their order,
    /// and the first that cannot be read gives the error.
    pub open spec fn read_copy_buffer(body: JsonView) -> Result<DrawCommandView, DecodeError> {
        let top_left = Point2D::at(body, "top_left"@);
        let bottom_right = Point2D::at(body, "bottom_right"@);
        let stride = u16_at(body, "stride"@);
        let buffer = text_at(body, "buffer"@);
        if top_left is Err {
            Err(top_left->Err_0)
        } else if bottom_right is Err {
            Err(bottom_right->Err_0)
        } else if stride is Err {
            Err(stride->Err_0)
        } else if buffer is Err {
            Err(buffer->Err_0)
        } else if !(stride->Ok_0 != 0) {
            Err(DecodeError::ZeroStride)
        } else if !(base64_decoded(buffer->Ok_0) is Ok) {
            Err(DecodeError::BadPayload(base64_decoded(buffer->Ok_0)->Err_0))
        } else {
            Ok(
                DrawCommandView::CopyBuffer {
                    top_left: top_left->Ok_0,
                    bottom_right: bottom_right->Ok_0,
                    stride: stride->Ok_0,
                    buffer: buffer->Ok_0,
                },
            )
        }
    }

    /// The body of `Write`: one member for each field.
    pub open spec fn write_wire(
        text: V5TextView,
        location: TextLocation,
        opaque: bool,
        background: Color,
    ) -> JsonView {
        JsonView::Object(
            no_members()
                .push(("text"@, text.wire()))
                .push(("location"@, location.wire()))
                .push(("opaque"@, JsonView::Bool(opaque)))
                .push(("background"@, background.wire())),
        )
    }

    /// What the body of `Write` spells: the fields are read in their order,
    /// and the first that cannot be read gives the error.
    pub open spec fn read_write(body: JsonView) -> Result<DrawCommandView, DecodeError> {
        let text = V5TextView::at(body, "text"@);
        let location = TextLocation::at(body, "location"@);
        let opaque = bool_at(body, "opaque"@);
        let background = Color::at(body, "background"@);
        if text is Err {
            Err(text->Err_0)
        } else if location is Err {
            Err(location->Err_0)
        } else if opaque is Err {
            Err(opaque->Err_0)
        } else if background is Err {
            Err(background->Err_0)
        } else {
            Ok(
                DrawCommandView::Write {
                    text: text->Ok_0,
                    location: location->Ok_0,
                    opaque: opaque->Ok_0,
                    background: background->Ok_0,
                },
            )
        }
    }

    /// The value that a tree spells, or why it spells none.
    pub open spec fn read(tree: JsonView) -> Result<DrawCommandView, DecodeError> {
        match read_variant(tree) {
            Err(e) => Err(e),
            Ok((name, body)) => if name == "Fill"@ {
                DrawCommandView::read_fill(body)
            } else if name == "Stroke"@ {
                DrawCommandView::read_stroke(body)
            } else if name == "CopyBuffer"@ {
                DrawCommandView::read_copy_buffer(body)
            } else if name == "Write"@ {
                DrawCommandView::read_write(body)
            } else {
                Err(DecodeError::UnknownTag)
            },
        }
    }

    /// The value under the member `key` of an object.
    pub open spec fn at(tree: JsonView, key: Seq<char>) -> Result<DrawCommandView, DecodeError> {
        match member(tree, key) {
            Ok(v) => DrawCommandView::read(v),
            Err(e) => Err(e),
        }
    }

    /// The names of the variants differ in length or in a letter.
    proof fn tags_differ()
        ensures
            "Fill"@.len() == 4,
            "Stroke"@.len() == 6,
            "CopyBuffer"@.len() == 10,
            "Write"@.len() == 5,
    {
        reveal_strlit("Fill");
        reveal_strlit("Stroke");
        reveal_strlit("CopyBuffer");
        reveal_strlit("Write");
    }

    /// The members of `Fill` have different names.
    proof fn fill_names()
        ensures
            "shape"@.len() == 5,
    {
        reveal_strlit("shape");
    }

    /// The body of `Fill` reads back as the fields that it was written from.
    proof fn fill_reads_back(shape: Shape)
        requires
            shape.well_formed(),
        ensures
            DrawCommandView::read_fill(DrawCommandView::fill_wire(shape))
                == Ok::<DrawCommandView, DecodeError>(DrawCommandView::Fill { shape }),
    {
        DrawCommandView::fill_names();
        let members = DrawCommandView::fill_wire(shape)->Object_0;
        member_found(members, 0);
        shape.wire_round_trip();
    }

    /// The members of `Stroke` have different names.
    proof fn stroke_names()
        ensures
            "shape"@.len() == 5,
    {
        reveal_strlit("shape");
    }

    /// The body of `Stroke` reads back as the fields that it was written from.
    proof fn stroke_reads_back(shape: Shape)
        requires
            shape.well_formed(),
        ensures
            DrawCommandView::read_stroke(DrawCommandView::stroke_wire(shape))
                == Ok::<DrawCommandView, DecodeError>(DrawCommandView::Stroke { shape }),
    {
        DrawCommandView::stroke_names();
        let members = DrawCommandView::stroke_wire(shape)->Object_0;
        member_found(members, 0);
        shape.wire_round_trip();
    }

    /// The members of `CopyBuffer` have different names.
    proof fn copy_buffer_names()
        ensures
            "top_left"@.len() == 8,
            "bottom_right"@.len() == 12,
            "stride"@.len() == 6 && "stride"@[0] == 's',
            "buffer"@.len() == 6 && "buffer"@[0] == 'b',
    {
        reveal_strlit("top_left");
        reveal_strlit("bottom_right");
        reveal_strlit("stride");
        reveal_strlit("buffer");
    }

    /// The body of `CopyBuffer` reads back as the fields that it was written from.
    proof fn copy_buffer_reads_back(
        top_left: Point2D,
        bottom_right: Point2D,
        stride: u16,
        buffer: Seq<char>,
    )
        requires
            stride != 0,
            base64_decoded(buffer) is Ok,
        ensures
            DrawCommandView::read_copy_buffer(
                DrawCommandView::copy_buffer_wire(top_left, bottom_right, stride, buffer),
            )
                == Ok::<DrawCommandView, DecodeError>(
                    DrawCommandView::CopyBuffer { top_left, bottom_right, stride, buffer },
                ),
    {
        DrawCommandView::copy_buffer_names();
        let members = DrawCommandView::copy_buffer_wire(
            top_left,
            bottom_right,
            stride,
            buffer,
        )->Object_0;
        member_found(members, 0);
        member_found(members, 1);
        member_found(members, 2);
        member_found(members, 3);
        top_left.wire_round_trip();
        bottom_right.wire_round_trip();
    }

    /// The members of `Write` have different names.
    proof fn write_names()
        ensures
            "text"@.len() == 4,
            "location"@.len() == 8,
            "opaque"@.len() == 6,
            "background"@.len() == 10,
    {
        reveal_strlit("text");
        reveal_strlit("location");
        reveal_strlit("opaque");
        reveal_strlit("background");
    }

    /// The body of `Write` reads back as the fields that it was written from.
    proof fn write_reads_back(
        text: V5TextView,
        location: TextLocation,
        opaque: bool,
        background: Color,
    )
        ensures
            DrawCommandView::read_write(
                DrawCommandView::write_wire(text, location, opaque, background),
            )
                == Ok::<DrawCommandView, DecodeError>(
                    DrawCommandView::Write { text, location, opaque, background },
                ),
    {
        DrawCommandView::write_names();
        let members = DrawCommandView::write_wire(text, location, opaque, background)->Object_0;
        member_found(members, 0);
        member_found(members, 1);
        member_found(members, 2);
        member_found(members, 3);
        text.wire_round_trip();
        location.wire_round_trip();
        background.wire_round_trip();
    }

    /// A value that is written and read again is the same value.
    pub proof fn wire_round_trip(self)
        requires
            self.well_formed(),
        ensures
            DrawCommandView::read(self.wire()) == Ok::<DrawCommandView, DecodeError>(self),
    {
        DrawCommandView::tags_differ();
        match self {
            DrawCommandView::Fill { shape } => {
            DrawCommandView::fill_reads_back(shape);
            },
            DrawCommandView::Stroke { shape } => {
            DrawCommandView::stroke_reads_back(shape);
            },
            DrawCommandView::CopyBuffer { top_left, bottom_right, stride, buffer } => {
            DrawCommandView::copy_buffer_reads_back(top_left, bottom_right, stride, buffer);
            },
            DrawCommandView::Write { text, location, opaque, background } => {
            DrawCommandView::write_reads_back(text, location, opaque, background);
            },
        }
    }

    /// What is read is well-formed.
    pub proof fn read_is_well_formed(tree: JsonView)
        ensures
            DrawCommandView::read(tree) is Ok ==> DrawCommandView::read(tree)->Ok_0.well_formed(),
    {
    }
}

impl DrawCommand {
    /// Writes the value.
    pub fn to_json(&self) -> (tree: Json)
        ensures
            tree@ == self@.wire(),
    {
        match self {
            DrawCommand::Fill { shape } => {
            let mut members: Vec<(String, Json)> = Vec::new();
            put(&mut members, "shape", shape.to_json());
            tagged_json("Fill", object(members))
            },
            DrawCommand::Stroke { shape } => {
            let mut members: Vec<(String, Json)> = Vec::new();
            put(&mut members, "shape", shape.to_json());
            tagged_json("Stroke", object(members))
            },
            DrawCommand::CopyBuffer { top_left, bottom_right, stride, buffer } => {
            let mut members: Vec<(String, Json)> = Vec::new();
            put(&mut members, "top_left", top_left.to_json());
            put(&mut members, "bottom_right", bottom_right.to_json());
            put(&mut members, "stride", whole_json(*stride as i128));
            put(&mut members, "buffer", text_json(buffer.as_str()));
            tagged_json("CopyBuffer", object(members))
            },
            DrawCommand::Write { text, location, opaque, background } => {
            let mut members: Vec<(String, Json)> = Vec::new();
            put(&mut members, "text", text.to_json());
            put(&mut members, "location", location.to_json());
            put(&mut members, "opaque", Json::Bool(*opaque));
            put(&mut members, "background", background.to_json());
            tagged_json("Write", object(members))
            },
        }
    }

    /// Reads the body of `Fill`.
    fn fill_from_json(body: &Json) -> (outcome: Result<DrawCommand, DecodeError>)
        ensures
            outcome_is(outcome, DrawCommandView::read_fill(body@)),
    {
        let shape = Shape::get(body, "shape")?;
        Ok(DrawCommand::Fill { shape })
    }

    /// Reads the body of `Stroke`.
    fn stroke_from_json(body: &Json) -> (outcome: Result<DrawCommand, DecodeError>)
        ensures
            outcome_is(outcome, DrawCommandView::read_stroke(body@)),
    {
        let shape = Shape::get(body, "shape")?;
        Ok(DrawCommand::Stroke { shape })
    }

    /// Reads the body of `CopyBuffer`.
    fn copy_buffer_from_json(body: &Json) -> (outcome: Result<DrawCommand, DecodeError>)
        ensures
            outcome_is(outcome, DrawCommandView::read_copy_buffer(body@)),
    {
        let top_left = Point2D::get(body, "top_left")?;
        let bottom_right = Point2D::get(body, "bottom_right")?;
        let stride = get_u16(body, "stride")?;
        let buffer = get_text(body, "buffer")?.clone();
        if stride == 0 {
            return Err(DecodeError::ZeroStride);
        }
        check_payload(&decode_bytes(buffer.as_str()))?;
        Ok(DrawCommand::CopyBuffer { top_left, bottom_right, stride, buffer })
    }

    /// Reads the body of `Write`.
    fn write_from_json(body: &Json) -> (outcome: Result<DrawCommand, DecodeError>)
        ensures
            outcome_is(outcome, DrawCommandView::read_write(body@)),
    {
        let text = V5Text::get(body, "text")?;
        let location = TextLocation::get(body, "location")?;
        let opaque = get_bool(body, "opaque")?;
        let background = Color::get(body, "background")?;
        Ok(DrawCommand::Write { text, location, opaque, background })
    }

    /// Reads a value.
    pub fn from_json(tree: &Json) -> (outcome: Result<DrawCommand, DecodeError>)
        ensures
            outcome_is(outcome, DrawCommandView::read(tree@)),
    {
        let (name, given) = as_variant(tree)?;
        let absent = Json::Null;
        let body: &Json = match given {
            Some(b) => b,
            None => &absent,
        };
        if same_text(name, "Fill") {
            DrawCommand::fill_from_json(body)
        } else if same_text(name, "Stroke") {
            DrawCommand::stroke_from_json(body)
        } else if same_text(name, "CopyBuffer") {
            DrawCommand::copy_buffer_from_json(body)
        } else if same_text(name, "Write") {
            DrawCommand::write_from_json(body)
        } else {
            Err(DecodeError::UnknownTag)
        }
    }

    /// Reads the value under the member `key` of an object.
    pub fn get(tree: &Json, key: &str) -> (outcome: Result<DrawCommand, DecodeError>)
        ensures
            outcome_is(outcome, DrawCommandView::at(tree@, key@)),
    {
        DrawCommand::from_json(get_member(tree, key)?)
    }
}

impl DrawCommand {
    /// The instruction that copies `pixels` into the region between the two
    /// corners, `stride` pixels to a row. A stride of zero is refused: the
    /// buffer would have no rows.
    pub fn copy_buffer(
        top_left: Point2D,
        bottom_right: Point2D,
        stride: u16,
        pixels: &[u8],
    ) -> (made: Result<DrawCommand, GeometryError>)
        requires
            encodable(pixels@),
        ensures
            stride == 0 ==> made == Err::<DrawCommand, GeometryError>(GeometryError::ZeroStride),
            stride != 0 ==> made is Ok && made->Ok_0@ == (DrawCommandView::CopyBuffer {
                top_left,
                bottom_right,
                stride,
                buffer: base64_text(pixels@),
            }) && made->Ok_0@.well_formed() && decodes_to(base64_text(pixels@), pixels@),
    {
        if stride == 0 {
            Err(GeometryError::ZeroStride)
        } else {
            Ok(
                DrawCommand::CopyBuffer {
                    top_left,
                    bottom_right,
                    stride,
                    buffer: encode_bytes(pixels),
                },
            )
        }
    }

    /// Executable form of `well_formed`.
    pub fn is_well_formed(&self) -> (ok: bool)
        ensures
            ok == self@.well_formed(),
    {
        match self {
            DrawCommand::Fill { shape } => shape.is_well_formed(),
            DrawCommand::Stroke { shape } => shape.is_well_formed(),
            DrawCommand::CopyBuffer { stride, buffer, .. } => {
                *stride != 0 && decode_bytes(buffer.as_str()).is_ok()
            },
            DrawCommand::Write { .. } => true,
        }
    }
}

} // verus!
