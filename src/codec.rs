//! Wire-level colors and stroke parameters, decoded into the paints and stroke
//! descriptors that the scene holds.
use vstd::prelude::*;

use crate::geometry::F64Bits;

verus! {

/// A color as four 8-bit channels.
#[derive(Clone, Copy, Debug, PartialEq, Eq, Structural)]
pub struct Rgba8 {
    pub r: u8,
    pub g: u8,
    pub b: u8,
    pub a: u8,
}

/// The packed byte order: red in the lowest byte, then green, blue, and alpha in
/// the highest byte (the native order of little-endian machines).
pub open spec fn spec_decode_color(c: u32) -> Rgba8 {
    Rgba8 {
        r: (c % 256) as u8,
        g: ((c / 256) % 256) as u8,
        b: ((c / 65536) % 256) as u8,
        a: (c / 16777216) as u8,
    }
}

/// The packed form of four channels, inverse of `spec_decode_color`.
pub open spec fn spec_pack_color(r: nat, g: nat, b: nat, a: nat) -> nat {
    r + 256 * g + 65536 * b + 16777216 * a
}

/// Unpacks a wire color into its channels.
pub fn decode_color(c: u32) -> (r: Rgba8)
    ensures
        r == spec_decode_color(c),
{
    Rgba8 {
        r: (c % 256) as u8,
        g: ((c / 256) % 256) as u8,
        b: ((c / 65536) % 256) as u8,
        a: (c / 16777216) as u8,
    }
}

/// The paint of a wire color: `0` means "no paint".
pub open spec fn spec_paint_of(c: u32) -> Option<Rgba8> {
    if c == 0 {
        None
    } else {
        Some(spec_decode_color(c))
    }
}

pub fn paint_of(c: u32) -> (r: Option<Rgba8>)
    ensures
        r == spec_paint_of(c),
        r is None <==> c == 0,
{
    if c == 0 {
        None
    } else {
        Some(decode_color(c))
    }
}

/// How two stroke segments meet.
#[derive(Clone, Copy, Debug, PartialEq, Eq, Structural)]
pub enum Join {
    Round,
    Miter,
    Bevel,
}

/// How an open stroke ends.
#[derive(Clone, Copy, Debug, PartialEq, Eq, Structural)]
pub enum Cap {
    Round,
    Butt,
    Square,
}

/// A dash pattern: dash and gap lengths, in units of the stroke width.
#[derive(Clone, Copy, Debug, PartialEq, Eq, Structural)]
pub enum Dashes {
    Solid,
    Pattern(u8, u8, u8, u8),
}

/// Stroke parameters as the wire carries them, with the graphics engine's
/// legacy codes for join, cap and line type.
#[derive(Clone, Copy, Debug, PartialEq, Eq, Structural)]
pub struct StrokeParameters {
    pub color: u32,
    pub width: F64Bits,
    pub linetype: i32,
    pub join: i32,
    pub miter_limit: F64Bits,
    pub cap: i32,
}

/// A stroke descriptor for the renderer; both ends of a stroke get the same cap,
/// and dashes start at offset zero.
#[derive(Clone, Copy, Debug, PartialEq, Eq, Structural)]
pub struct Stroke {
    pub width: F64Bits,
    pub join: Join,
    pub miter_limit: F64Bits,
    pub start_cap: Cap,
    pub end_cap: Cap,
    pub dash_pattern: Dashes,
}

/// Why stroke parameters were rejected.
#[derive(Clone, Copy, Debug, PartialEq, Eq, Structural)]
pub enum StrokeError {
    InvalidJoin(i32),
    InvalidCap(i32),
}

/// Legacy join codes: 1 round, 2 miter, 3 bevel.
pub open spec fn spec_join_of(code: i32) -> Option<Join> {
    if code == 1 {
        Some(Join::Round)
    } else if code == 2 {
        Some(Join::Miter)
    } else if code == 3 {
        Some(Join::Bevel)
    } else {
        None
    }
}

/// Legacy cap codes: 1 round, 2 butt, 3 square.
pub open spec fn spec_cap_of(code: i32) -> Option<Cap> {
    if code == 1 {
        Some(Cap::Round)
    } else if code == 2 {
        Some(Cap::Butt)
    } else if code == 3 {
        Some(Cap::Square)
    } else {
        None
    }
}

/// Legacy line types with a dash pattern: 49 (dotted) and 68 (dashed). Every
/// other code, 0 and -1 included, draws a solid line.
pub open spec fn spec_dashes_of(linetype: i32) -> Dashes {
    if linetype == 49 || linetype == 68 {
        Dashes::Pattern(1, 1, 1, 1)
    } else {
        Dashes::Solid
    }
}

pub fn join_of(code: i32) -> (r: Option<Join>)
    ensures
        r == spec_join_of(code),
        r is Some <==> 1 <= code <= 3,
{
    match code {
        1 => Some(Join::Round),
        2 => Some(Join::Miter),
        3 => Some(Join::Bevel),
        _ => None,
    }
}

pub fn cap_of(code: i32) -> (r: Option<Cap>)
    ensures
        r == spec_cap_of(code),
        r is Some <==> 1 <= code <= 3,
{
    match code {
        1 => Some(Cap::Round),
        2 => Some(Cap::Butt),
        3 => Some(Cap::Square),
        _ => None,
    }
}

pub fn dashes_of(linetype: i32) -> (r: Dashes)
    ensures
        r == spec_dashes_of(linetype),
{
    match linetype {
        49 => Dashes::Pattern(1, 1, 1, 1),
        68 => Dashes::Pattern(1, 1, 1, 1),
        _ => Dashes::Solid,
    }
}

/// The decoded stroke, or the first invalid code (the join is checked first).
pub open spec fn spec_decode_stroke(p: StrokeParameters) -> Result<Stroke, StrokeError> {
    match (spec_join_of(p.join), spec_cap_of(p.cap)) {
        (None, _) => Err(StrokeError::InvalidJoin(p.join)),
        (Some(_), None) => Err(StrokeError::InvalidCap(p.cap)),
        (Some(join), Some(cap)) => Ok(
            Stroke {
                width: p.width,
                join,
                miter_limit: p.miter_limit,
                start_cap: cap,
                end_cap: cap,
                dash_pattern: spec_dashes_of(p.linetype),
            },
        ),
    }
}

/// Maps stroke parameters to a stroke descriptor. An unknown join or cap code is
/// rejected; an unknown line type falls back to a solid line.
pub fn decode_stroke(p: &StrokeParameters) -> (r: Result<Stroke, StrokeError>)
    ensures
        r == spec_decode_stroke(*p),
        r is Ok <==> (1 <= p.join <= 3 && 1 <= p.cap <= 3),
{
    let join = match join_of(p.join) {
        Some(j) => j,
        None => {
            return Err(StrokeError::InvalidJoin(p.join));
        },
    };
    let cap = match cap_of(p.cap) {
        Some(c) => c,
        None => {
            return Err(StrokeError::InvalidCap(p.cap));
        },
    };
    Ok(
        Stroke {
            width: p.width,
            join,
            miter_limit: p.miter_limit,
            start_cap: cap,
            end_cap: cap,
            dash_pattern: dashes_of(p.linetype),
        },
    )
}

/// The background colors that the device can be asked for.
#[derive(Clone, Copy, Debug, PartialEq, Eq, Structural)]
pub enum BackgroundColor {
    WhiteSmoke,
    White,
    Red,
    Blue,
    Green,
    Black,
}

/// Background codes: 1 white, 2 red, 3 blue, 4 green, anything else black.
pub open spec fn spec_background_of(code: i32) -> BackgroundColor {
    if code == 1 {
        BackgroundColor::White
    } else if code == 2 {
        BackgroundColor::Red
    } else if code == 3 {
        BackgroundColor::Blue
    } else if code == 4 {
        BackgroundColor::Green
    } else {
        BackgroundColor::Black
    }
}

pub fn background_of(code: i32) -> (r: BackgroundColor)
    ensures
        r == spec_background_of(code),
{
    match code {
        1 => BackgroundColor::White,
        2 => BackgroundColor::Red,
        3 => BackgroundColor::Blue,
        4 => BackgroundColor::Green,
        _ => BackgroundColor::Black,
    }
}

} // verus!
