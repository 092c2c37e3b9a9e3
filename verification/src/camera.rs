//! Camera mode handling: which of the three camera kinds is active, the
//! pitch limits each kind imposes, and the axis-inversion toggles. The
//! numeric integration of movement stays with the caller; this is the
//! state machine it consults.

use vstd::prelude::*;

verus! {

/// The pitch range of the third-person camera, in degrees.
pub const TP_X_ROT_MIN: i32 = 89;

pub const TP_X_ROT_MAX: i32 = 189;

/// The pitch range of the first-person camera, in degrees.
pub const FP_X_ROT_MIN: i32 = 91;

pub const FP_X_ROT_MAX: i32 = 269;

#[derive(Clone, Copy, PartialEq, Eq, Structural, Debug)]
pub enum CameraType {
    Fly,
    FirstPerson,
    ThirdPerson,
}

/// The mode-dependent camera state: active kind, the pitch limits it
/// imposes, and the inversion toggles.
#[derive(Clone, Copy, PartialEq, Eq, Structural, Debug)]
pub struct CameraMode {
    pub camera_type: CameraType,
    pub min_x_rotation: Option<i32>,
    pub max_x_rotation: Option<i32>,
    pub invert_up_down: bool,
    pub invert_left_right: bool,
}

impl CameraMode {
    /// A fresh camera flies freely with no pitch limits.
    pub fn new() -> (r: CameraMode)
        ensures
            r.camera_type is Fly,
            r.min_x_rotation is None,
            r.max_x_rotation is None,
            !r.invert_up_down,
            !r.invert_left_right,
    {
        CameraMode {
            camera_type: CameraType::Fly,
            min_x_rotation: None,
            max_x_rotation: None,
            invert_up_down: false,
            invert_left_right: false,
        }
    }

    /// Free flight: no pitch limits.
    pub fn set_fly_mode(&mut self)
        ensures
            final(self).camera_type is Fly,
            final(self).min_x_rotation is None,
            final(self).max_x_rotation is None,
            final(self).invert_up_down == old(self).invert_up_down,
            final(self).invert_left_right == old(self).invert_left_right,
    {
        self.camera_type = CameraType::Fly;
        self.min_x_rotation = None;
        self.max_x_rotation = None;
    }

    /// First person: pitch clamped to its range.
    pub fn set_first_person_mode(&mut self)
        ensures
            final(self).camera_type is FirstPerson,
            final(self).min_x_rotation == Some(FP_X_ROT_MIN),
            final(self).max_x_rotation == Some(FP_X_ROT_MAX),
            final(self).invert_up_down == old(self).invert_up_down,
            final(self).invert_left_right == old(self).invert_left_right,
    {
        self.camera_type = CameraType::FirstPerson;
        self.min_x_rotation = Some(FP_X_ROT_MIN);
        self.max_x_rotation = Some(FP_X_ROT_MAX);
    }

    /// Third person: pitch clamped to its range.
    pub fn set_third_person_mode(&mut self)
        ensures
            final(self).camera_type is ThirdPerson,
            final(self).min_x_rotation == Some(TP_X_ROT_MIN),
            final(self).max_x_rotation == Some(TP_X_ROT_MAX),
            final(self).invert_up_down == old(self).invert_up_down,
            final(self).invert_left_right == old(self).invert_left_right,
    {
        self.camera_type = CameraType::ThirdPerson;
        self.min_x_rotation = Some(TP_X_ROT_MIN);
        self.max_x_rotation = Some(TP_X_ROT_MAX);
    }

    /// Flip vertical-look inversion.
    pub fn toggle_invert_up_down(&mut self)
        ensures
            final(self).invert_up_down == !old(self).invert_up_down,
            final(self).camera_type == old(self).camera_type,
            final(self).min_x_rotation == old(self).min_x_rotation,
            final(self).max_x_rotation == old(self).max_x_rotation,
            final(self).invert_left_right == old(self).invert_left_right,
    {
        self.invert_up_down = !self.invert_up_down;
    }

    /// Flip horizontal-look inversion.
    pub fn toggle_invert_left_right(&mut self)
        ensures
            final(self).invert_left_right == !old(self).invert_left_right,
            final(self).camera_type == old(self).camera_type,
            final(self).min_x_rotation == old(self).min_x_rotation,
            final(self).max_x_rotation == old(self).max_x_rotation,
            final(self).invert_up_down == old(self).invert_up_down,
    {
        self.invert_left_right = !self.invert_left_right;
    }

    /// Clamp a pitch angle to the active mode's limits: below the minimum
    /// it snaps to the minimum, above the maximum to the maximum, and
    /// without limits it passes through.
    pub fn clamp_x_rotation(&self, x: i32) -> (r: i32)
        ensures
            r as int == self.spec_clamp(x as int),
    {
        let mut r = x;
        match self.max_x_rotation {
            Some(max) => {
                if r > max {
                    r = max;
                }
            },
            None => {},
        }
        match self.min_x_rotation {
            Some(min) => {
                if r < min {
                    r = min;
                }
            },
            None => {},
        }
        r
    }

    /// The clamping rule: the maximum bound applies first, then the
    /// minimum, as the rotation handler applied them.
    pub open spec fn spec_clamp(self, x: int) -> int {
        let capped = match self.max_x_rotation {
            Some(max) => {
                if x > max {
                    max as int
                } else {
                    x
                }
            },
            None => x,
        };
        match self.min_x_rotation {
            Some(min) => {
                if capped < min {
                    min as int
                } else {
                    capped
                }
            },
            None => capped,
        }
    }
}

/// With both limits set and ordered, a clamped pitch lies inside them.
pub proof fn lemma_clamp_in_range(mode: CameraMode, x: int, min: i32, max: i32)
    requires
        mode.min_x_rotation == Some(min),
        mode.max_x_rotation == Some(max),
        min <= max,
    ensures
        min <= mode.spec_clamp(x) <= max,
{
}

} // verus!
