//! Shape configuration and fill style shared by every shape kind.
use vstd::prelude::*;

use crate::flags::{Alignment, Cap, ThicknessType};
use crate::record::{Mat4Bits, Vec4Bits};

verus! {

/// Bit pattern of the single-precision float 1.0: the thickness of a solid fill.
pub const UNIT_THICKNESS: u32 = 0x3f80_0000;

/// The style context that a shape is drawn with.
#[derive(Clone, Copy, Debug, PartialEq, Eq, Structural)]
pub struct ShapeConfig {
    /// The shape's transform as a column-major matrix.
    pub transform: Mat4Bits,
    /// Linear RGBA color.
    pub color: Vec4Bits,
    pub thickness: u32,
    pub thickness_type: ThicknessType,
    pub alignment: Alignment,
    pub cap: Cap,
    pub corner_radii: Vec4Bits,
    pub hollow: bool,
}

/// Whether a shape is filled or stroked.
#[derive(Clone, Copy, Debug, PartialEq, Eq, Structural)]
pub enum FillType {
    /// An outline of the given thickness, measured in the given unit.
    Stroke(u32, ThicknessType),
    /// A solid fill.
    Fill,
}

/// The color and fill type of a persistent shape.
#[derive(Clone, Copy, Debug, PartialEq, Eq, Structural)]
pub struct ShapeFill {
    pub color: Vec4Bits,
    pub ty: FillType,
}

/// The fill that a configuration describes.
pub open spec fn config_fill(config: ShapeConfig) -> ShapeFill {
    ShapeFill {
        color: config.color,
        ty: if config.hollow {
            FillType::Stroke(config.thickness, config.thickness_type)
        } else {
            FillType::Fill
        },
    }
}

impl ShapeFill {
    /// The fill that a configuration describes: a stroke of its thickness
    /// where it is hollow, else a solid fill.
    pub fn new(config: &ShapeConfig) -> (r: ShapeFill)
        ensures
            r == config_fill(*config),
    {
        ShapeFill {
            color: config.color,
            ty: if config.hollow {
                FillType::Stroke(config.thickness, config.thickness_type)
            } else {
                FillType::Fill
            },
        }
    }
}

/// The shader program that consumes a record kind.
#[derive(Clone, Copy, Debug, PartialEq, Eq, Structural)]
pub enum ShaderKind {
    Rect,
    Line,
    Disc,
    Arc,
}

/// What a persistent shape entity is made of: its transform, its fill and
/// its shape component.
pub struct ShapeBundle<C> {
    pub transform: Mat4Bits,
    pub fill: ShapeFill,
    pub shape: C,
}

impl<C> ShapeBundle<C> {
    /// A bundle for `shape`, with the transform and fill of `config`.
    pub fn new(config: &ShapeConfig, shape: C) -> (r: ShapeBundle<C>)
        ensures
            r.transform == config.transform,
            r.fill == config_fill(*config),
            r.shape == shape,
    {
        ShapeBundle { transform: config.transform, fill: ShapeFill::new(config), shape }
    }
}

} // verus!
