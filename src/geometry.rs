//! Window geometry in whole logical units.

use vstd::prelude::*;

verus! {

/// Width of a freshly opened primary window.
pub const DEFAULT_WINDOW_WIDTH: u32 = 400;

/// Height of a freshly opened primary window.
pub const DEFAULT_WINDOW_HEIGHT: u32 = 700;

/// Smallest width any window may be resized to.
pub const MIN_WINDOW_WIDTH: u32 = 400;

/// Smallest height any window may be resized to.
pub const MIN_WINDOW_HEIGHT: u32 = 400;

/// Widest a primary window may grow.
pub const MAX_WINDOW_WIDTH: u32 = 700;

/// Side of the square size used when a request names no size.
pub const FALLBACK_WINDOW_SIDE: u32 = 600;

/// Where a primary window opens when the request names no position.
pub const DEFAULT_MAIN_POSITION: i64 = 100;

/// A position on screen.
#[derive(Clone, Copy, Debug, PartialEq, Eq, Structural)]
pub struct Point {
    pub x: i64,
    pub y: i64,
}

/// An inner size.
#[derive(Clone, Copy, Debug, PartialEq, Eq, Structural)]
pub struct Size {
    pub width: u32,
    pub height: u32,
}

/// The current inner position and size of a live window, as the windowing
/// system reports it.
#[derive(Clone, Copy, Debug, PartialEq, Eq, Structural)]
pub struct Frame {
    pub x: i32,
    pub y: i32,
    pub width: u32,
    pub height: u32,
}

/// Upper bounds on a window's inner size; a missing side is unconstrained.
#[derive(Clone, Copy, Debug, PartialEq, Eq, Structural)]
pub struct MaxSize {
    pub width: Option<u32>,
    pub height: Option<u32>,
}

/// Position at which a window of size `child` is centred over `parent`:
/// the parent's centre minus half the child's size, halves rounded down.
pub open spec fn centered_over(parent: Frame, child: Size) -> Point {
    Point {
        x: (parent.x + parent.width / 2 - child.width / 2) as i64,
        y: (parent.y + parent.height / 2 - child.height / 2) as i64,
    }
}

pub fn child_position(parent: Frame, child: Size) -> (r: Point)
    ensures
        r == centered_over(parent, child),
{
    let x: i64 = parent.x as i64 + (parent.width / 2) as i64 - (child.width / 2) as i64;
    let y: i64 = parent.y as i64 + (parent.height / 2) as i64 - (child.height / 2) as i64;
    Point { x, y }
}

/// The bound actually applied: none when neither side is bounded.
pub open spec fn effective_max(m: Option<MaxSize>) -> Option<MaxSize> {
    match m {
        Some(b) => if b.width is None && b.height is None {
            None
        } else {
            Some(b)
        },
        None => None,
    }
}

pub fn resolve_max_size(m: Option<MaxSize>) -> (r: Option<MaxSize>)
    ensures
        r == effective_max(m),
{
    match m {
        Some(b) => {
            if b.width.is_none() && b.height.is_none() {
                None
            } else {
                Some(b)
            }
        },
        None => None,
    }
}

} // verus!
