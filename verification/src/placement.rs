//! Where the window goes on its monitor, and where the pointer is once the
//! scene is drawn at a logical resolution.

use vstd::prelude::*;
use crate::error::ConfigurationError;
use crate::geometry::{MonitorBounds, Position, Size};

verus! {

/// Half of `d`, rounded toward zero.
pub open spec fn half_toward_zero(d: int) -> int {
    if d >= 0 {
        d / 2
    } else {
        -((-d) / 2)
    }
}

/// The coordinate at which an extent of `size` pixels starts so that it
/// sits in the middle of `extent` pixels that start at `origin`.
pub open spec fn centered_origin(origin: int, extent: int, size: int) -> int {
    origin + half_toward_zero(extent - size)
}

/// `p * numerator / denominator`, rounded toward zero.
pub open spec fn scale_toward_zero(p: int, numerator: int, denominator: int) -> int {
    if p >= 0 {
        (p * numerator) / denominator
    } else {
        -(((-p) * numerator) / denominator)
    }
}

/// The pointer as the window reports it, in window pixels.
#[derive(Clone, Copy, Debug, PartialEq, Eq, Structural)]
pub struct PointerSample {
    pub x: i32,
    pub y: i32,
}

/// The top-left corner that puts the middle of the window on the middle of
/// the monitor.
pub fn compute_centered_position(monitor: MonitorBounds, window_size: Size) -> (p: Position)
    ensures
        p.x == centered_origin(monitor.x as int, monitor.width as int, window_size.width as int),
        p.y == centered_origin(monitor.y as int, monitor.height as int, window_size.height as int),
{
    Position {
        x: centered_axis(monitor.x, monitor.width, window_size.width),
        y: centered_axis(monitor.y, monitor.height, window_size.height),
    }
}

fn centered_axis(origin: i32, extent: u32, size: u32) -> (c: i64)
    ensures
        c == centered_origin(origin as int, extent as int, size as int),
{
    let slack: i64 = extent as i64 - size as i64;
    let half: i64 = if slack >= 0 {
        slack / 2
    } else {
        -((-slack) / 2)
    };
    origin as i64 + half
}

/// The pointer in logical pixels: each axis scaled by logical size over
/// window size. With no logical size the pointer stays where it is. A
/// window without width or height cannot be scaled from.
pub fn remap_pointer(raw: PointerSample, window_size: Size, logical_size: Option<Size>) -> (r:
    Result<Position, ConfigurationError>)
    ensures
        r is Err <==> logical_size is Some && !window_size.is_positive(),
        r matches Err(e) ==> e == ConfigurationError::ZeroWindowDimension,
        r matches Ok(p) ==> match logical_size {
            None => p.x == raw.x && p.y == raw.y,
            Some(logical) => p.x == scale_toward_zero(
                raw.x as int,
                logical.width as int,
                window_size.width as int,
            ) && p.y == scale_toward_zero(
                raw.y as int,
                logical.height as int,
                window_size.height as int,
            ),
        },
{
    match logical_size {
        None => Ok(Position { x: raw.x as i64, y: raw.y as i64 }),
        Some(logical) => {
            if window_size.width == 0 || window_size.height == 0 {
                Err(ConfigurationError::ZeroWindowDimension)
            } else {
                Ok(
                    Position {
                        x: scale_axis(raw.x, logical.width, window_size.width),
                        y: scale_axis(raw.y, logical.height, window_size.height),
                    },
                )
            }
        },
    }
}

fn scale_axis(p: i32, numerator: u32, denominator: u32) -> (s: i64)
    requires
        denominator > 0,
    ensures
        s == scale_toward_zero(p as int, numerator as int, denominator as int),
{
    let magnitude: u64 = if p >= 0 {
        p as u64
    } else {
        (-(p as i64)) as u64
    };
    assert(magnitude * numerator <= 0x8000_0000 * 0xffff_ffff) by (nonlinear_arith)
        requires
            magnitude <= 0x8000_0000,
            numerator <= 0xffff_ffff,
    ;
    let product: u64 = magnitude * (numerator as u64);
    let quotient: u64 = product / (denominator as u64);
    proof {
        vstd::arithmetic::div_mod::lemma_div_is_ordered_by_denominator(
            product as int,
            1,
            denominator as int,
        );
        vstd::arithmetic::div_mod::lemma_div_basics(product as int);
    }
    if p >= 0 {
        quotient as i64
    } else {
        -(quotient as i64)
    }
}

/// Remapping between equal sizes leaves the pointer where it is.
pub proof fn lemma_remap_between_equal_sizes_is_identity(raw: PointerSample, size: Size)
    requires
        size.is_positive(),
    ensures
        scale_toward_zero(raw.x as int, size.width as int, size.width as int) == raw.x,
        scale_toward_zero(raw.y as int, size.height as int, size.height as int) == raw.y,
{
    lemma_scale_by_one(raw.x as int, size.width as int);
    lemma_scale_by_one(raw.y as int, size.height as int);
}

/// Remapping is symmetric about the origin and keeps the origin fixed.
pub proof fn lemma_remap_is_odd(p: int, numerator: int, denominator: int)
    requires
        denominator > 0,
    ensures
        scale_toward_zero(-p, numerator, denominator) == -scale_toward_zero(
            p,
            numerator,
            denominator,
        ),
        scale_toward_zero(0, numerator, denominator) == 0,
{
    assert(0 * numerator == 0);
    vstd::arithmetic::div_mod::lemma_div_basics(denominator);
}

/// Where the window size divides evenly into the logical size's share, the
/// remap is exact: a pointer at `k` window widths' worth of pixels lands
/// on `k` logical widths' worth.
pub proof fn lemma_remap_is_exact_on_multiples(k: int, numerator: int, denominator: int)
    requires
        denominator > 0,
    ensures
        scale_toward_zero(k * denominator, numerator, denominator) == k * numerator,
{
    if k >= 0 {
        assert(k * denominator >= 0 && (k * denominator) * numerator == denominator * (k
            * numerator)) by (nonlinear_arith)
            requires
                k >= 0,
                denominator > 0,
        ;
        vstd::arithmetic::div_mod::lemma_div_multiples_vanish(k * numerator, denominator);
    } else {
        assert(k * denominator < 0 && (-(k * denominator)) * numerator == denominator * (-(k
            * numerator))) by (nonlinear_arith)
            requires
                k < 0,
                denominator > 0,
        ;
        vstd::arithmetic::div_mod::lemma_div_multiples_vanish(-(k * numerator), denominator);
    }
}

proof fn lemma_scale_by_one(p: int, w: int)
    requires
        w > 0,
    ensures
        scale_toward_zero(p, w, w) == p,
{
    if p >= 0 {
        vstd::arithmetic::div_mod::lemma_div_multiples_vanish(p, w);
    } else {
        vstd::arithmetic::div_mod::lemma_div_multiples_vanish(-p, w);
    }
}

/// A window that fits its monitor, with an even number of pixels to spare
/// on each axis, has its middle exactly on the monitor's middle. Both
/// middles are doubled here, so that a half pixel can be told.
pub proof fn lemma_centered_window_shares_center(monitor: MonitorBounds, window_size: Size)
    requires
        window_size.width <= monitor.width,
        window_size.height <= monitor.height,
        (monitor.width - window_size.width) % 2 == 0,
        (monitor.height - window_size.height) % 2 == 0,
    ensures
        2 * centered_origin(monitor.x as int, monitor.width as int, window_size.width as int)
            + window_size.width == 2 * monitor.x + monitor.width,
        2 * centered_origin(monitor.y as int, monitor.height as int, window_size.height as int)
            + window_size.height == 2 * monitor.y + monitor.height,
{
}

/// A window that fits its monitor has its middle on the monitor's middle
/// or half a pixel before it, and lies inside the monitor.
pub proof fn lemma_centered_window_is_within_half_a_pixel(
    monitor: MonitorBounds,
    window_size: Size,
)
    requires
        window_size.width <= monitor.width,
        window_size.height <= monitor.height,
    ensures
        ({
            let x = centered_origin(
                monitor.x as int,
                monitor.width as int,
                window_size.width as int,
            );
            &&& 0 <= (2 * monitor.x + monitor.width) - (2 * x + window_size.width) <= 1
            &&& monitor.x <= x
            &&& x + window_size.width <= monitor.x + monitor.width
        }),
        ({
            let y = centered_origin(
                monitor.y as int,
                monitor.height as int,
                window_size.height as int,
            );
            &&& 0 <= (2 * monitor.y + monitor.height) - (2 * y + window_size.height) <= 1
            &&& monitor.y <= y
            &&& y + window_size.height <= monitor.y + monitor.height
        }),
{
}

} // verus!
