//! What an object asks a renderer to draw.  The simulation carries these
//! descriptors along and never reads them.

use vstd::prelude::*;
use crate::fixed::ONE;

verus! {

/// The outline to draw.
#[derive(Debug, Clone, Copy, PartialEq, Eq, Structural)]
pub enum ShapeType {
    Circle,
    /// A regular polygon with this many sides.
    Polygon(u8),
    /// A line ahead of the object, along its heading.
    Line,
}

/// A colour packed as `0xRRGGBBAA`.
pub type Color = u32;

/// The palette.
pub const WHITE: Color = 0xffff_ffff;

pub const BLACK: Color = 0x0000_00ff;

pub const BLUE: Color = 0x0078_f2ff;

pub const DARKBLUE: Color = 0x0052_abff;

pub const SKYBLUE: Color = 0x66bf_ffff;

pub const BEIGE: Color = 0xd4b0_82ff;

pub const RED: Color = 0xe629_38ff;

pub const GREEN: Color = 0x00e3_30ff;

pub const DARKGREEN: Color = 0x0075_2bff;

pub const BROWN: Color = 0x806b_4fff;

pub const DARKBROWN: Color = 0x4c40_2eff;

pub const GOLD: Color = 0xffcc_00ff;

pub const ORANGE: Color = 0xffa1_00ff;

pub const MAROON: Color = 0xbf21_38ff;

/// The colour and the strokes of shapes that name none.
pub const DEFAULT_SHAPE_COLOR: Color = WHITE;

pub const DEFAULT_CIRCLE_THICKNESS: i64 = 3_000_000;

pub const DEFAULT_POLYGON_THICKNESS: i64 = 3_000_000;

pub const DEFAULT_LINE_THICKNESS: i64 = 1_500_000;

/// One outline of an object: its kind, its size relative to the object's
/// radius, its colour and the thickness of its stroke.
#[derive(Debug, Clone, Copy, PartialEq, Eq, Structural)]
pub struct DrawShape {
    pub shape_type: ShapeType,
    pub radius_scale: i64,
    pub color: Color,
    pub thickness: i64,
}

impl DrawShape {
    /// A circle of the object's radius in the given colour.
    pub open spec fn circle(color: Color) -> DrawShape {
        DrawShape {
            shape_type: ShapeType::Circle,
            radius_scale: ONE,
            color,
            thickness: DEFAULT_CIRCLE_THICKNESS,
        }
    }

    /// A polygon inscribed in the object's radius in the given colour.
    pub open spec fn polygon(sides: u8, color: Color) -> DrawShape {
        DrawShape {
            shape_type: ShapeType::Polygon(sides),
            radius_scale: ONE,
            color,
            thickness: DEFAULT_POLYGON_THICKNESS,
        }
    }

    /// A line of unit length in the given colour.
    pub open spec fn line(color: Color) -> DrawShape {
        DrawShape {
            shape_type: ShapeType::Line,
            radius_scale: ONE,
            color,
            thickness: DEFAULT_LINE_THICKNESS,
        }
    }

    /// A white circle.
    pub fn new_circle() -> (r: Self)
        ensures
            r == DrawShape::circle(DEFAULT_SHAPE_COLOR),
    {
        Self::new_circle_color(DEFAULT_SHAPE_COLOR)
    }

    /// A white polygon.
    pub fn new_polygon(sides: u8) -> (r: Self)
        ensures
            r == DrawShape::polygon(sides, DEFAULT_SHAPE_COLOR),
    {
        Self::new_polygon_color(sides, DEFAULT_SHAPE_COLOR)
    }

    /// A white line.
    pub fn new_line() -> (r: Self)
        ensures
            r == DrawShape::line(DEFAULT_SHAPE_COLOR),
    {
        Self::new_line_color(DEFAULT_SHAPE_COLOR)
    }

    /// A circle of the object's radius in the given colour.
    pub fn new_circle_color(color: Color) -> (r: Self)
        ensures
            r == DrawShape::circle(color),
    {
        DrawShape {
            shape_type: ShapeType::Circle,
            radius_scale: ONE,
            color,
            thickness: DEFAULT_CIRCLE_THICKNESS,
        }
    }

    /// A polygon inscribed in the object's radius in the given colour.
    pub fn new_polygon_color(sides: u8, color: Color) -> (r: Self)
        ensures
            r == DrawShape::polygon(sides, color),
    {
        DrawShape {
            shape_type: ShapeType::Polygon(sides),
            radius_scale: ONE,
            color,
            thickness: DEFAULT_POLYGON_THICKNESS,
        }
    }

    /// A line of unit length in the given colour.
    pub fn new_line_color(color: Color) -> (r: Self)
        ensures
            r == DrawShape::line(color),
    {
        DrawShape {
            shape_type: ShapeType::Line,
            radius_scale: ONE,
            color,
            thickness: DEFAULT_LINE_THICKNESS,
        }
    }
}

} // verus!
