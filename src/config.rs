//! Window requests and the native windows built from them.

use vstd::prelude::*;
use crate::geometry::{
    effective_max, resolve_max_size, MaxSize, Point, Size, FALLBACK_WINDOW_SIDE,
    MIN_WINDOW_HEIGHT, MIN_WINDOW_WIDTH,
};
use crate::label::WindowLabel;

verus! {

/// What a caller asks for when opening a window.
pub struct WindowConfig {
    pub label: WindowLabel,
    pub url: String,
    pub title: String,
    pub inner_size: Option<Size>,
    pub position: Option<Point>,
    pub hide_titlebar: bool,
    pub always_on_top: bool,
    pub max_size: Option<MaxSize>,
    /// Forward every navigation attempt to the caller (never blocks it).
    pub notify_navigation: bool,
    /// Forward every close request to the caller (never suppresses it).
    pub notify_close: bool,
}

/// Where a new window is placed.
#[derive(Clone, Copy, Debug, PartialEq, Eq, Structural)]
pub enum Placement {
    Centered,
    At(Point),
}

/// Everything the windowing system needs to build one window.
pub struct NativeWindow {
    pub label: WindowLabel,
    pub url: String,
    pub title: String,
    pub size: Size,
    pub placement: Placement,
    pub min_size: Size,
    pub max_size: Option<MaxSize>,
    pub resizable: bool,
    pub fullscreen: bool,
    pub hide_titlebar: bool,
    pub always_on_top: bool,
    pub notify_navigation: bool,
    pub notify_close: bool,
}

/// The outcome of a creation request.
pub enum WindowPlan {
    /// The label is already open: focus that window and hand it back.
    FocusExisting(WindowLabel),
    /// Build a new window, then register it.
    Build(NativeWindow),
}

pub open spec fn size_or_fallback(s: Option<Size>) -> Size {
    match s {
        Some(v) => v,
        None => Size { width: FALLBACK_WINDOW_SIDE, height: FALLBACK_WINDOW_SIDE },
    }
}

pub open spec fn placement_of(p: Option<Point>) -> Placement {
    match p {
        Some(v) => Placement::At(v),
        None => Placement::Centered,
    }
}

/// `w` is the native window that `c` describes once defaults are filled in.
pub open spec fn built_from(w: NativeWindow, c: WindowConfig) -> bool {
    &&& w.label@ == c.label@
    &&& w.url@ == c.url@
    &&& w.title@ == c.title@
    &&& w.size == size_or_fallback(c.inner_size)
    &&& w.placement == placement_of(c.position)
    &&& w.min_size == (Size { width: MIN_WINDOW_WIDTH, height: MIN_WINDOW_HEIGHT })
    &&& w.max_size == effective_max(c.max_size)
    &&& w.resizable
    &&& !w.fullscreen
    &&& w.hide_titlebar == c.hide_titlebar
    &&& w.always_on_top == c.always_on_top
    &&& w.notify_navigation == c.notify_navigation
    &&& w.notify_close == c.notify_close
}

/// Fills in the defaults of a request.
pub fn native_window(c: WindowConfig) -> (w: NativeWindow)
    ensures
        built_from(w, c),
{
    let size = match c.inner_size {
        Some(s) => s,
        None => Size { width: FALLBACK_WINDOW_SIDE, height: FALLBACK_WINDOW_SIDE },
    };
    let placement = match c.position {
        Some(p) => Placement::At(p),
        None => Placement::Centered,
    };
    NativeWindow {
        label: c.label,
        url: c.url,
        title: c.title,
        size,
        placement,
        min_size: Size { width: MIN_WINDOW_WIDTH, height: MIN_WINDOW_HEIGHT },
        max_size: resolve_max_size(c.max_size),
        resizable: true,
        fullscreen: false,
        hide_titlebar: c.hide_titlebar,
        always_on_top: c.always_on_top,
        notify_navigation: c.notify_navigation,
        notify_close: c.notify_close,
    }
}

} // verus!
