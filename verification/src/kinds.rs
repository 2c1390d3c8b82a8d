//! Small enumerations shared by calibration, interpolation, snapping and export.

use vstd::prelude::*;

verus! {

/// How the values of an axis are entered and shown.
#[derive(Debug, Clone, Copy, PartialEq, Eq, Structural)]
pub enum AxisUnit {
    Float,
    DateTime,
}

/// Scale of a calibrated axis.
#[derive(Debug, Clone, Copy, PartialEq, Eq, Structural)]
pub enum ScaleKind {
    Linear,
    Log10,
}

/// Unit of polar angles.
#[derive(Debug, Clone, Copy, PartialEq, Eq, Structural)]
pub enum AngleUnit {
    Degrees,
    Radians,
}

/// Direction in which polar angles grow.
#[derive(Debug, Clone, Copy, PartialEq, Eq, Structural)]
pub enum AngleDirection {
    Ccw,
    Cw,
}

/// Coordinate system of the calibration.
#[derive(Debug, Clone, Copy, PartialEq, Eq, Structural)]
pub enum CoordSystem {
    Cartesian,
    Polar,
}

/// Interpolation used for exported curves.
#[derive(Debug, Clone, Copy, PartialEq, Eq, Structural)]
pub enum InterpAlgorithm {
    Linear,
    StepHold,
    NaturalCubic,
}

/// Image feature that point snapping searches for.
#[derive(Debug, Clone, Copy, PartialEq, Eq, Structural)]
pub enum SnapFeatureSource {
    LumaGradient,
    ColorMatch,
    Hybrid,
}

/// Quantity compared with the snapping threshold.
#[derive(Debug, Clone, Copy, PartialEq, Eq, Structural)]
pub enum SnapThresholdKind {
    Gradient,
    Score,
}

} // verus!
