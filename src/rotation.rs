//! Rotation modes and the frame dimensions that each one implies.

use vstd::prelude::*;

verus! {

/// Clockwise rotation that aligns the device's physical orientation with the
/// display's fixed logical orientation.
#[derive(Clone, Copy, Debug, PartialEq, Eq, Structural)]
pub enum RotationMode {
    Rotate0,
    Rotate90,
    Rotate180,
    Rotate270,
}

/// The mode for an angle in degrees: the angle is taken modulo 360, and any
/// value other than 90, 180 or 270 means no rotation.
pub open spec fn mode_of_degrees(degrees: u16) -> RotationMode {
    let a = degrees % 360;
    if a == 90 {
        RotationMode::Rotate90
    } else if a == 180 {
        RotationMode::Rotate180
    } else if a == 270 {
        RotationMode::Rotate270
    } else {
        RotationMode::Rotate0
    }
}

/// Dimensions of a `w × h` frame after rotating it by `mode`.
pub open spec fn rotated_dims(w: nat, h: nat, mode: RotationMode) -> (nat, nat) {
    if mode.swaps() {
        (h, w)
    } else {
        (w, h)
    }
}

impl RotationMode {
    pub open spec fn swaps(self) -> bool {
        self is Rotate90 || self is Rotate270
    }

    pub open spec fn spec_degrees(self) -> u16 {
        match self {
            RotationMode::Rotate0 => 0,
            RotationMode::Rotate90 => 90,
            RotationMode::Rotate180 => 180,
            RotationMode::Rotate270 => 270,
        }
    }

    pub fn from_degrees(degrees: u16) -> (r: RotationMode)
        ensures
            r == mode_of_degrees(degrees),
    {
        let a = degrees % 360;
        if a == 90 {
            RotationMode::Rotate90
        } else if a == 180 {
            RotationMode::Rotate180
        } else if a == 270 {
            RotationMode::Rotate270
        } else {
            RotationMode::Rotate0
        }
    }

    pub fn degrees(&self) -> (r: u16)
        ensures
            r == self.spec_degrees(),
    {
        match self {
            RotationMode::Rotate0 => 0,
            RotationMode::Rotate90 => 90,
            RotationMode::Rotate180 => 180,
            RotationMode::Rotate270 => 270,
        }
    }

    /// Whether the mode exchanges a frame's width and height.
    pub fn swaps_axes(&self) -> (r: bool)
        ensures
            r == self.swaps(),
    {
        match self {
            RotationMode::Rotate90 | RotationMode::Rotate270 => true,
            _ => false,
        }
    }
}

/// Degrees that name no canonical mode resolve to no rotation, and each
/// canonical angle resolves to its own mode.
pub proof fn lemma_mode_of_degrees_round_trip(mode: RotationMode)
    ensures
        mode_of_degrees(mode.spec_degrees()) == mode,
        mode_of_degrees(360) == RotationMode::Rotate0,
{
}

/// Rotating a `w × h` frame by one mode and the result by another whose angles
/// add up to a whole turn gives back a frame of `w × h`.
pub proof fn lemma_rotated_dims_round_trip(w: nat, h: nat, first: RotationMode, second: RotationMode)
    requires
        (first.spec_degrees() + second.spec_degrees()) % 360 == 0,
    ensures
        ({
            let (w1, h1) = rotated_dims(w, h, first);
            rotated_dims(w1, h1, second) == (w, h)
        }),
{
}

} // verus!
