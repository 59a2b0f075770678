//! The global zoom factor.
//!
//! The factor moves in fixed steps of one twentieth, so it is held exactly as
//! a number of twentieths: 20 steps are scale one, 16 steps are 0.8.

use vstd::prelude::*;

verus! {

/// How many steps make scale one.
pub const STEPS_PER_UNIT: u32 = 20;

/// The smallest scale, 0.2.
pub const MIN_STEPS: u32 = 4;

/// The largest scale, 5.0.
pub const MAX_STEPS: u32 = 100;

/// The scale of a new canvas, 0.8.
pub const DEFAULT_STEPS: u32 = 16;

/// Lower end of the dead zone of zoom factors, 0.99, in millionths.
pub const DEAD_ZONE_LOW: i64 = 990_000;

/// Upper end of the dead zone of zoom factors, 1.01, in millionths.
pub const DEAD_ZONE_HIGH: i64 = 1_010_000;

/// What a zoom gesture asks for.
#[derive(Clone, Copy, Debug, PartialEq, Eq, Structural)]
pub enum Zoom {
    /// The gesture is too small to count.
    Hold,
    /// One step up.
    Grow,
    /// One step down.
    Shrink,
}

/// The global zoom factor, between `MIN_STEPS` and `MAX_STEPS` twentieths.
#[derive(Clone, Copy, Debug)]
pub struct Scale {
    steps: u32,
}

/// The number of steps nearest to `steps` that a `Scale` can hold.
pub open spec fn clamp_steps(steps: int) -> nat {
    if steps < MIN_STEPS {
        MIN_STEPS as nat
    } else if steps > MAX_STEPS {
        MAX_STEPS as nat
    } else {
        steps as nat
    }
}

/// The request that a zoom factor, given in millionths, stands for.  Factors
/// inside the dead zone around one ask for nothing; any other factor asks for
/// one step, whatever its size.
pub open spec fn zoom_of_factor(millionths: int) -> Zoom {
    if DEAD_ZONE_LOW <= millionths <= DEAD_ZONE_HIGH {
        Zoom::Hold
    } else if millionths > DEAD_ZONE_HIGH {
        Zoom::Grow
    } else {
        Zoom::Shrink
    }
}

/// The number of steps after a request was applied to `steps`.
pub open spec fn zoomed_steps(steps: nat, zoom: Zoom) -> nat {
    match zoom {
        Zoom::Hold => steps,
        Zoom::Grow => clamp_steps(steps as int + 1),
        Zoom::Shrink => clamp_steps(steps - 1),
    }
}

/// A length multiplied by a scale of `steps` twentieths; the product is in
/// twentieths of a canvas unit.
pub open spec fn scaled_length(length: nat, steps: nat) -> nat {
    length * steps
}

/// Reads a zoom factor, given in millionths, as a request.
pub fn classify_zoom(factor_millionths: i64) -> (zoom: Zoom)
    ensures
        zoom == zoom_of_factor(factor_millionths as int),
{
    if DEAD_ZONE_LOW <= factor_millionths && factor_millionths <= DEAD_ZONE_HIGH {
        Zoom::Hold
    } else if factor_millionths > DEAD_ZONE_HIGH {
        Zoom::Grow
    } else {
        Zoom::Shrink
    }
}

impl View for Scale {
    type V = nat;

    closed spec fn view(&self) -> nat {
        self.steps as nat
    }
}

impl Scale {
    #[verifier::type_invariant]
    spec fn in_bounds(self) -> bool {
        MIN_STEPS <= self.steps <= MAX_STEPS
    }

    /// The scale of `steps` twentieths, or the nearest one that is allowed.
    pub fn new(steps: u32) -> (scale: Scale)
        ensures
            scale@ == clamp_steps(steps as int),
    {
        if steps < MIN_STEPS {
            Scale { steps: MIN_STEPS }
        } else if steps > MAX_STEPS {
            Scale { steps: MAX_STEPS }
        } else {
            Scale { steps }
        }
    }

    /// The scale in twentieths.
    pub fn steps(&self) -> (steps: u32)
        ensures
            steps == self@,
            MIN_STEPS <= steps <= MAX_STEPS,
    {
        proof {
            use_type_invariant(self);
        }
        self.steps
    }

    /// Applies a zoom request: one step up or down, never past the bounds.
    pub fn adjust(&mut self, zoom: Zoom)
        ensures
            final(self)@ == zoomed_steps(old(self)@, zoom),
    {
        proof {
            use_type_invariant(&*self);
        }
        match zoom {
            Zoom::Hold => {},
            Zoom::Grow => {
                if self.steps < MAX_STEPS {
                    self.steps = self.steps + 1;
                }
            },
            Zoom::Shrink => {
                if self.steps > MIN_STEPS {
                    self.steps = self.steps - 1;
                }
            },
        }
    }

    /// Multiplies a length by the scale.  The result is in twentieths of a
    /// canvas unit.
    pub fn apply(&self, length: u32) -> (scaled: u64)
        ensures
            scaled == scaled_length(length as nat, self@),
    {
        proof {
            use_type_invariant(self);
            assert(length * self.steps <= u32::MAX * 100) by (nonlinear_arith)
                requires
                    length <= u32::MAX,
                    self.steps <= 100,
            ;
        }
        length as u64 * self.steps as u64
    }
}

impl Default for Scale {
    fn default() -> (scale: Scale)
        ensures
            scale@ == DEFAULT_STEPS,
    {
        Scale { steps: DEFAULT_STEPS }
    }
}

} // verus!
