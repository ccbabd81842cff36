//! Colors: one packed value on the wire, three channels to a renderer.

use crate::wire::{
    as_u32, get_member, member, object, read_u32, whole, whole_json, DecodeError, Json,
    JsonView,
};
use vstd::prelude::*;

verus! {

/// A color as three 8-bit channels.
#[derive(Clone, Copy, Debug, PartialEq, Eq, Structural, Hash, PartialOrd, Ord)]
pub struct Rgb8 {
    pub r: u8,
    pub g: u8,
    pub b: u8,
}

/// A color as one packed value, `0x00RRGGBB`.
#[derive(Clone, Copy, Debug, PartialEq, Eq, Structural, Hash, PartialOrd, Ord)]
pub struct Color(pub u32);

/// The packed value of three channels.
pub open spec fn packed(rgb: Rgb8) -> int {
    rgb.r * 0x1_0000 + rgb.g * 0x100 + rgb.b
}

/// The channels that a packed value holds in its three low bytes.
pub open spec fn channels(value: int) -> Rgb8 {
    Rgb8 {
        r: ((value / 0x1_0000) % 0x100) as u8,
        g: ((value / 0x100) % 0x100) as u8,
        b: (value % 0x100) as u8,
    }
}

impl Color {
    /// The reserved top byte is zero.
    pub open spec fn canonical(self) -> bool {
        self.0 < 0x100_0000
    }

    /// Executable form of `canonical`.
    pub fn is_canonical(&self) -> (ok: bool)
        ensures
            ok == self.canonical(),
    {
        self.0 < 0x100_0000
    }

    /// Packs three channels. The result is canonical and unpacks to `rgb`.
    pub fn from_rgb(rgb: Rgb8) -> (color: Color)
        ensures
            color.0 == packed(rgb),
            color.canonical(),
            channels(color.0 as int) == rgb,
    {
        let r: u32 = rgb.r as u32;
        let g: u32 = rgb.g as u32;
        let b: u32 = rgb.b as u32;
        Color(r * 0x1_0000 + g * 0x100 + b)
    }

    /// Unpacks the three low bytes; the reserved top byte is ignored.
    pub fn to_rgb(self) -> (rgb: Rgb8)
        ensures
            rgb == channels(self.0 as int),
            self.canonical() ==> packed(rgb) == self.0,
    {
        let r: u32 = (self.0 / 0x1_0000) % 0x100;
        let g: u32 = (self.0 / 0x100) % 0x100;
        let b: u32 = self.0 % 0x100;
        Rgb8 { r: r as u8, g: g as u8, b: b as u8 }
    }
}

impl From<Rgb8> for Color {
    fn from(rgb: Rgb8) -> (color: Color) {
        Color::from_rgb(rgb)
    }
}

impl vstd::std_specs::convert::FromSpecImpl<Rgb8> for Color {
    open spec fn obeys_from_spec() -> bool {
        true
    }

    open spec fn from_spec(rgb: Rgb8) -> Color {
        Color(packed(rgb) as u32)
    }
}

impl From<Color> for Rgb8 {
    fn from(color: Color) -> (rgb: Rgb8) {
        color.to_rgb()
    }
}

impl vstd::std_specs::convert::FromSpecImpl<Color> for Rgb8 {
    open spec fn obeys_from_spec() -> bool {
        true
    }

    open spec fn from_spec(color: Color) -> Rgb8 {
        channels(color.0 as int)
    }
}

/// Packing three channels and unpacking the result gives the channels back.
pub proof fn channels_survive_packing(rgb: Rgb8)
    ensures
        0 <= packed(rgb) < 0x100_0000,
        channels(packed(rgb)) == rgb,
{
}

/// Unpacking a canonical color and packing the channels gives the color back.
pub proof fn canonical_color_survives_unpacking(color: Color)
    requires
        color.canonical(),
    ensures
        packed(channels(color.0 as int)) == color.0,
{
}

impl Color {
    /// How a color is written: as the bare number.
    pub open spec fn wire(self) -> JsonView {
        whole(self.0 as int)
    }

    /// The value that a tree spells, or why it spells none.
    pub open spec fn read(tree: JsonView) -> Result<Color, DecodeError> {
        match read_u32(tree) {
            Ok(n) => Ok(Color(n)),
            Err(e) => Err(e),
        }
    }

    /// The value under the member `key` of an object.
    pub open spec fn at(tree: JsonView, key: Seq<char>) -> Result<Color, DecodeError> {
        match member(tree, key) {
            Ok(v) => Color::read(v),
            Err(e) => Err(e),
        }
    }

    /// A value that is written and read again is the same value.
    pub proof fn wire_round_trip(self)
        ensures
            Color::read(self.wire()) == Ok::<Color, DecodeError>(self),
    {
    }

    /// Writes the value.
    pub fn to_json(&self) -> (tree: Json)
        ensures
            tree@ == self.wire(),
    {
        whole_json(self.0 as i128)
    }

    /// Reads a value.
    pub fn from_json(tree: &Json) -> (outcome: Result<Color, DecodeError>)
        ensures
            outcome == Color::read(tree@),
    {
        Ok(Color(as_u32(tree)?))
    }

    /// Reads the value under the member `key` of an object.
    pub fn get(tree: &Json, key: &str) -> (outcome: Result<Color, DecodeError>)
        ensures
            outcome == Color::at(tree@, key@),
    {
        Color::from_json(get_member(tree, key)?)
    }
}

} // verus!
