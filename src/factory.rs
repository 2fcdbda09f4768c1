//! Turning window requests into plans: focus a window that is already open,
//! or build a new one with its defaults filled in.

use vstd::prelude::*;
use crate::config::{built_from, native_window, NativeWindow, Placement, WindowConfig, WindowPlan};
use crate::geometry::{
    centered_over, child_position, Frame, MaxSize, Point, Size, DEFAULT_MAIN_POSITION,
    DEFAULT_WINDOW_HEIGHT, DEFAULT_WINDOW_WIDTH, MAX_WINDOW_WIDTH, MIN_WINDOW_HEIGHT,
    MIN_WINDOW_WIDTH,
};
use crate::label::{LabelView, WindowLabel};
use crate::manager::{is_next_primary, WindowManager};

verus! {

/// Title of every primary window.
pub const MAIN_WINDOW_TITLE: &'static str = "Sticky Notes";

/// Page a primary window opens on when the application starts.
pub const START_URL: &'static str = "/";

/// `r` is what a request for `c` yields when `open` tells whether its label
/// is already open.
pub open spec fn plan_for(r: WindowPlan, c: WindowConfig, open: bool) -> bool {
    if open {
        r matches WindowPlan::FocusExisting(l) && l@ == c.label@
    } else {
        r matches WindowPlan::Build(w) && built_from(w, c)
    }
}

/// `w` is a new primary window under the next free primary label.
pub open spec fn is_main_window(
    w: NativeWindow,
    ws: Seq<LabelView>,
    url: Seq<char>,
    size: Option<Size>,
    position: Option<Point>,
) -> bool {
    &&& w.label@ matches LabelView::Primary(n) && is_next_primary(ws, n)
    &&& w.url@ == url
    &&& w.title@ == MAIN_WINDOW_TITLE@
    &&& w.size == match size {
        Some(s) => s,
        None => Size { width: DEFAULT_WINDOW_WIDTH, height: DEFAULT_WINDOW_HEIGHT },
    }
    &&& w.placement == Placement::At(
        match position {
            Some(p) => p,
            None => Point { x: DEFAULT_MAIN_POSITION, y: DEFAULT_MAIN_POSITION },
        },
    )
    &&& w.min_size == (Size { width: MIN_WINDOW_WIDTH, height: MIN_WINDOW_HEIGHT })
    &&& w.max_size == Some(MaxSize { width: Some(MAX_WINDOW_WIDTH), height: None })
    &&& w.resizable && !w.fullscreen
    &&& w.hide_titlebar && w.always_on_top
    &&& !w.notify_navigation && !w.notify_close
}

/// `w` is a new child window named `name`, centred over `parent`.
pub open spec fn is_child_window(
    w: NativeWindow,
    parent: Frame,
    url: Seq<char>,
    name: Seq<char>,
    title: Seq<char>,
    size: Size,
) -> bool {
    &&& w.label@ == LabelView::Secondary(name)
    &&& w.url@ == url
    &&& w.title@ == title
    &&& w.size == size
    &&& w.placement == Placement::At(centered_over(parent, size))
    &&& w.min_size == (Size { width: MIN_WINDOW_WIDTH, height: MIN_WINDOW_HEIGHT })
    &&& w.max_size is None
    &&& w.resizable && !w.fullscreen
    &&& w.hide_titlebar && !w.always_on_top
    &&& !w.notify_navigation && !w.notify_close
}

impl WindowManager {
    /// Idempotent creation: an open label is focused and handed back, any
    /// other request becomes a window to build.
    pub fn plan_window(&self, config: WindowConfig) -> (r: WindowPlan)
        ensures
            plan_for(r, config, self@.windows.contains(config.label@)),
    {
        if self.contains(&config.label) {
            WindowPlan::FocusExisting(config.label)
        } else {
            WindowPlan::Build(native_window(config))
        }
    }

    /// A new primary window under the smallest free primary label.
    pub fn create_main_window(
        &self,
        url: String,
        size: Option<Size>,
        position: Option<Point>,
    ) -> (r: WindowPlan)
        ensures
            r matches WindowPlan::Build(w) && is_main_window(
                w,
                self@.windows,
                url@,
                size,
                position,
            ),
    {
        let label = self.allocate_primary();
        let inner_size = match size {
            Some(s) => s,
            None => Size { width: DEFAULT_WINDOW_WIDTH, height: DEFAULT_WINDOW_HEIGHT },
        };
        let at = match position {
            Some(p) => p,
            None => Point { x: DEFAULT_MAIN_POSITION, y: DEFAULT_MAIN_POSITION },
        };
        let config = WindowConfig {
            label,
            url,
            title: MAIN_WINDOW_TITLE.to_owned(),
            inner_size: Some(inner_size),
            position: Some(at),
            hide_titlebar: true,
            always_on_top: true,
            max_size: Some(MaxSize { width: Some(MAX_WINDOW_WIDTH), height: None }),
            notify_navigation: false,
            notify_close: false,
        };
        self.plan_window(config)
    }

    /// A secondary window named `name`, centred over its parent's current
    /// frame; an open window of that name is focused instead.
    pub fn create_child_window(
        &self,
        parent: Frame,
        url: String,
        name: String,
        title: String,
        inner_size: Size,
    ) -> (r: WindowPlan)
        ensures
            self@.windows.contains(LabelView::Secondary(name@)) ==> (r matches WindowPlan::FocusExisting(
                l,
            ) && l@ == LabelView::Secondary(name@)),
            !self@.windows.contains(LabelView::Secondary(name@)) ==> (r matches WindowPlan::Build(w)
                && is_child_window(w, parent, url@, name@, title@, inner_size)),
    {
        let position = child_position(parent, inner_size);
        let config = WindowConfig {
            label: WindowLabel::Secondary(name),
            url,
            title,
            inner_size: Some(inner_size),
            position: Some(position),
            hide_titlebar: true,
            always_on_top: false,
            max_size: None,
            notify_navigation: false,
            notify_close: false,
        };
        self.plan_window(config)
    }
}

} // verus!
