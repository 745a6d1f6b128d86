//! The low-resolution render target: an offscreen surface of a fixed
//! logical size that the scene is drawn into and that is then stretched
//! over the display.

use vstd::prelude::*;
use crate::config::{display_size_of, DisplayConfig};
use crate::error::ConfigurationError;
use crate::geometry::{Rect, Size};

verus! {

/// How texels are picked when the target is stretched.
#[derive(Clone, Copy, Debug, PartialEq, Eq, Structural)]
pub enum Sampling {
    /// The nearest texel, which keeps pixels square-edged.
    Nearest,
    /// A blend of the neighbouring texels.
    Linear,
}

/// What to draw where, to bring the target onto the display.
#[derive(Clone, Copy, Debug, PartialEq, Eq, Structural)]
pub struct BlitPlan {
    /// The part of the target that is read.
    pub source: Rect,
    /// The part of the display that is covered.
    pub dest: Rect,
    pub sampling: Sampling,
}

/// The token for a target that is bound. It cannot be copied: handing it
/// back is what unbinds the target.
#[derive(Debug)]
pub struct TargetHandle {
    size: Size,
}

impl TargetHandle {
    pub closed spec fn spec_size(&self) -> Size {
        self.size
    }

    /// The size of the surface that is being drawn into.
    #[verifier::when_used_as_spec(spec_size)]
    pub fn size(&self) -> (s: Size)
        ensures
            s == self.spec_size(),
    {
        self.size
    }
}

/// The whole target. Where its rows are stored bottom-up, it is read with
/// a negative height, which turns it the right way up.
pub open spec fn source_rect(size: Size, rows_inverted: bool) -> Rect {
    Rect {
        x: 0,
        y: 0,
        width: size.width as i64,
        height: if rows_inverted {
            (-(size.height as int)) as i64
        } else {
            size.height as i64
        },
    }
}

/// The whole display.
pub open spec fn dest_rect(display_size: Size) -> Rect {
    Rect { x: 0, y: 0, width: display_size.width as i64, height: display_size.height as i64 }
}

/// The blit of a target of `size` onto a display of `display_size`.
pub open spec fn blit_plan(size: Size, rows_inverted: bool, display_size: Size) -> BlitPlan {
    BlitPlan {
        source: source_rect(size, rows_inverted),
        dest: dest_rect(display_size),
        sampling: Sampling::Nearest,
    }
}

/// An offscreen colour surface of a fixed size, with the knowledge of
/// whether it is the current render destination.
#[derive(Debug)]
pub struct LowResTarget {
    size: Size,
    rows_inverted: bool,
    bound: bool,
}

impl LowResTarget {
    /// A target has no zero side.
    #[verifier::type_invariant]
    spec fn well_formed(self) -> bool {
        self.size.is_positive()
    }

    pub closed spec fn spec_size(&self) -> Size {
        self.size
    }

    pub closed spec fn spec_rows_inverted(&self) -> bool {
        self.rows_inverted
    }

    pub closed spec fn spec_is_bound(&self) -> bool {
        self.bound
    }

    /// An unbound target of the given size. A size with a zero side is
    /// refused.
    pub fn new(logical_size: Size, rows_inverted: bool) -> (r: Result<
        LowResTarget,
        ConfigurationError,
    >)
        ensures
            r is Err <==> !logical_size.is_positive(),
            r matches Err(e) ==> e == ConfigurationError::ZeroLogicalDimension,
            r matches Ok(t) ==> t.spec_size() == logical_size && t.spec_rows_inverted()
                == rows_inverted && !t.spec_is_bound(),
    {
        if logical_size.is_positive() {
            Ok(LowResTarget { size: logical_size, rows_inverted, bound: false })
        } else {
            Err(ConfigurationError::ZeroLogicalDimension)
        }
    }

    /// The target that a configuration asks for: one of its logical size,
    /// or none where it names no logical size.
    pub fn for_config(config: &DisplayConfig, rows_inverted: bool) -> (r: Option<LowResTarget>)
        ensures
            r is Some <==> config.logical_size() is Some,
            r matches Some(t) ==> Some(t.spec_size()) == config.logical_size()
                && t.spec_rows_inverted() == rows_inverted && !t.spec_is_bound(),
    {
        match config.logical_size() {
            None => None,
            Some(logical) => Some(
                LowResTarget { size: logical, rows_inverted, bound: false },
            ),
        }
    }

    /// The target's size in pixels; neither side is zero.
    #[verifier::when_used_as_spec(spec_size)]
    pub fn size(&self) -> (s: Size)
        ensures
            s == self.spec_size(),
            s.is_positive(),
    {
        proof {
            use_type_invariant(self);
        }
        self.size
    }

    /// Whether the target's rows are stored bottom-up.
    #[verifier::when_used_as_spec(spec_rows_inverted)]
    pub fn rows_inverted(&self) -> (b: bool)
        ensures
            b == self.spec_rows_inverted(),
    {
        self.rows_inverted
    }

    /// Whether the target is the current render destination.
    #[verifier::when_used_as_spec(spec_is_bound)]
    pub fn is_bound(&self) -> (b: bool)
        ensures
            b == self.spec_is_bound(),
    {
        self.bound
    }

    /// Makes the target the render destination and hands out the token
    /// for it. A target that is bound already hands out none and stays as
    /// it is.
    pub fn begin_logical_frame(&mut self) -> (handle: Option<TargetHandle>)
        ensures
            final(self).size() == old(self).size(),
            final(self).rows_inverted() == old(self).rows_inverted(),
            final(self).is_bound(),
            handle is Some <==> !old(self).is_bound(),
            handle matches Some(h) ==> h.size() == old(self).size(),
    {
        proof {
            use_type_invariant(&*self);
        }
        if self.bound {
            None
        } else {
            self.bound = true;
            Some(TargetHandle { size: self.size })
        }
    }

    /// Takes the token back and unbinds the target, whatever went on in
    /// between.
    pub fn end_logical_frame(&mut self, handle: TargetHandle)
        ensures
            final(self).size() == old(self).size(),
            final(self).rows_inverted() == old(self).rows_inverted(),
            !final(self).is_bound(),
    {
        proof {
            use_type_invariant(&*self);
        }
        let _ = handle;
        self.bound = false;
    }

    /// The rectangles that bring the target onto the display: all of the
    /// target, over all of the display, which is the screen where the
    /// window fills it and the window where it does not.
    pub fn blit_to_display(&self, window_size: Size, screen_size: Size, fullscreen: bool) -> (plan:
        BlitPlan)
        ensures
            plan == blit_plan(
                self.size(),
                self.rows_inverted(),
                display_size_of(window_size, screen_size, fullscreen),
            ),
    {
        let display_size = if fullscreen {
            screen_size
        } else {
            window_size
        };
        let height: i64 = if self.rows_inverted {
            -(self.size.height as i64)
        } else {
            self.size.height as i64
        };
        BlitPlan {
            source: Rect { x: 0, y: 0, width: self.size.width as i64, height },
            dest: Rect {
                x: 0,
                y: 0,
                width: display_size.width as i64,
                height: display_size.height as i64,
            },
            sampling: Sampling::Nearest,
        }
    }
}

/// Whatever the display's size becomes, the target is read in full and the
/// display is covered in full: the destination follows the display, the
/// source does not move.
pub proof fn lemma_blit_source_is_fixed(
    size: Size,
    rows_inverted: bool,
    display_a: Size,
    display_b: Size,
)
    ensures
        blit_plan(size, rows_inverted, display_a).source == blit_plan(
            size,
            rows_inverted,
            display_b,
        ).source,
        blit_plan(size, rows_inverted, display_a).source.width == size.width,
        blit_plan(size, rows_inverted, display_a).source.height == (if rows_inverted {
            -(size.height as int)
        } else {
            size.height as int
        }),
        blit_plan(size, rows_inverted, display_a).dest.width == display_a.width,
        blit_plan(size, rows_inverted, display_a).dest.height == display_a.height,
{
}

} // verus!
