//! What is fixed before the loop starts: the window's size, the logical
//! resolution if the scene is drawn at one, and whether the window fills
//! the screen.

use vstd::prelude::*;
use crate::error::ConfigurationError;
use crate::geometry::{Position, Size};
use crate::placement::{remap_pointer, scale_toward_zero, PointerSample};

verus! {

/// A scale factor as a fraction, exact where a decimal would not be.
#[derive(Clone, Copy, Debug, PartialEq, Eq, Structural)]
pub struct Ratio {
    pub numerator: u32,
    pub denominator: u32,
}

/// The factor by which the window host scales pointer coordinates, one
/// fraction for each axis.
#[derive(Clone, Copy, Debug, PartialEq, Eq, Structural)]
pub struct MouseScale {
    pub x: Ratio,
    pub y: Ratio,
}

/// The size that is drawn to: the screen's when the window fills it, the
/// window's own when it does not.
pub open spec fn display_size_of(window_size: Size, screen_size: Size, fullscreen: bool) -> Size {
    if fullscreen {
        screen_size
    } else {
        window_size
    }
}

/// The display settings of one run. They do not change once made.
#[derive(Clone, Copy, Debug)]
pub struct DisplayConfig {
    window_size: Size,
    logical_size: Option<Size>,
    fullscreen: bool,
}

impl DisplayConfig {
    /// No size in a configuration has a zero side.
    #[verifier::type_invariant]
    spec fn well_formed(self) -> bool {
        &&& self.window_size.is_positive()
        &&& self.logical_size matches Some(logical) ==> logical.is_positive()
    }

    pub closed spec fn spec_window_size(&self) -> Size {
        self.window_size
    }

    pub closed spec fn spec_logical_size(&self) -> Option<Size> {
        self.logical_size
    }

    pub closed spec fn spec_fullscreen(&self) -> bool {
        self.fullscreen
    }

    /// Checks the sizes and keeps them. A window with a zero side is
    /// refused first, then a logical resolution with one.
    pub fn new(window_size: Size, logical_size: Option<Size>, fullscreen: bool) -> (r: Result<
        DisplayConfig,
        ConfigurationError,
    >)
        ensures
            r is Err <==> !window_size.is_positive() || (logical_size matches Some(logical)
                && !logical.is_positive()),
            r matches Err(e) ==> e == (if !window_size.is_positive() {
                ConfigurationError::ZeroWindowDimension
            } else {
                ConfigurationError::ZeroLogicalDimension
            }),
            r matches Ok(c) ==> c.spec_window_size() == window_size && c.spec_logical_size()
                == logical_size && c.spec_fullscreen() == fullscreen,
    {
        if !window_size.is_positive() {
            return Err(ConfigurationError::ZeroWindowDimension);
        }
        match logical_size {
            Some(logical) => {
                if !logical.is_positive() {
                    return Err(ConfigurationError::ZeroLogicalDimension);
                }
            },
            None => {},
        }
        Ok(DisplayConfig { window_size, logical_size, fullscreen })
    }

    /// The window's size in pixels; neither side is zero.
    #[verifier::when_used_as_spec(spec_window_size)]
    pub fn window_size(&self) -> (s: Size)
        ensures
            s == self.spec_window_size(),
            s.is_positive(),
    {
        proof {
            use_type_invariant(self);
        }
        self.window_size
    }

    /// The logical resolution, if the scene is drawn at one; neither side
    /// is zero.
    #[verifier::when_used_as_spec(spec_logical_size)]
    pub fn logical_size(&self) -> (s: Option<Size>)
        ensures
            s == self.spec_logical_size(),
            s matches Some(logical) ==> logical.is_positive(),
    {
        proof {
            use_type_invariant(self);
        }
        self.logical_size
    }

    /// Whether the window fills the screen.
    #[verifier::when_used_as_spec(spec_fullscreen)]
    pub fn fullscreen(&self) -> (b: bool)
        ensures
            b == self.spec_fullscreen(),
    {
        self.fullscreen
    }

    /// The size that is drawn to, given the screen's resolution.
    pub fn display_size(&self, screen_size: Size) -> (s: Size)
        ensures
            s == display_size_of(self.window_size(), screen_size, self.fullscreen()),
    {
        if self.fullscreen {
            screen_size
        } else {
            self.window_size
        }
    }

    /// The pointer in the pixels that the scene is drawn in. A checked
    /// configuration can always be scaled from.
    pub fn remap_pointer(&self, raw: PointerSample) -> (p: Position)
        ensures
            match self.logical_size() {
                None => p.x == raw.x && p.y == raw.y,
                Some(logical) => p.x == scale_toward_zero(
                    raw.x as int,
                    logical.width as int,
                    self.window_size().width as int,
                ) && p.y == scale_toward_zero(
                    raw.y as int,
                    logical.height as int,
                    self.window_size().height as int,
                ),
            },
    {
        proof {
            use_type_invariant(self);
        }
        match remap_pointer(raw, self.window_size, self.logical_size) {
            Ok(p) => p,
            Err(_) => Position { x: raw.x as i64, y: raw.y as i64 },
        }
    }

    /// The scale that the window host is asked to put on pointer
    /// coordinates: logical size over window size, where a logical
    /// resolution is in use.
    pub fn mouse_scale(&self) -> (s: Option<MouseScale>)
        ensures
            match self.logical_size() {
                None => s is None,
                Some(logical) => s == Some(
                    MouseScale {
                        x: Ratio {
                            numerator: logical.width,
                            denominator: self.window_size().width,
                        },
                        y: Ratio {
                            numerator: logical.height,
                            denominator: self.window_size().height,
                        },
                    },
                ),
            },
            s matches Some(scale) ==> scale.x.denominator > 0 && scale.y.denominator > 0,
    {
        proof {
            use_type_invariant(self);
        }
        match self.logical_size {
            None => None,
            Some(logical) => Some(
                MouseScale {
                    x: Ratio { numerator: logical.width, denominator: self.window_size.width },
                    y: Ratio { numerator: logical.height, denominator: self.window_size.height },
                },
            ),
        }
    }
}

} // verus!
