//! What to remember of a window between runs, and what to do with it.
//!
//! The window itself, the file that keeps the records and the plugin that
//! ties both to the application are not here. This module decides: how a
//! record changes when the window is moved, resized or closed, and what is
//! to be done with a window when it is created.

use vstd::prelude::*;

verus! {

/// What is remembered of one window.
#[derive(Debug, Clone, Copy, PartialEq, Eq, Structural)]
pub struct WindowMetadata {
    pub width: u32,
    pub height: u32,
    pub x: i32,
    pub y: i32,
    pub maximized: bool,
    pub visible: bool,
}

impl Default for WindowMetadata {
    fn default() -> (record: Self)
        ensures
            record == (WindowMetadata {
                width: 0,
                height: 0,
                x: 0,
                y: 0,
                maximized: false,
                visible: false,
            }),
    {
        WindowMetadata { width: 0, height: 0, x: 0, y: 0, maximized: false, visible: false }
    }
}

/// What to do with a window that was just created.
#[derive(Debug, Clone, Copy, PartialEq, Eq)]
pub struct RestorePlan {
    /// Move the window here, if it is to be moved.
    pub position: Option<(i32, i32)>,
    /// Give the window this `(width, height)`, if it is to be resized.
    pub size: Option<(u32, u32)>,
    /// Maximize the window.
    pub maximize: bool,
    /// Show the window and give it the focus.
    pub show: bool,
    /// Remember this of the window from now on, if nothing was remembered.
    pub record: Option<WindowMetadata>,
}

impl WindowMetadata {
    /// The record after the window was moved to `(x, y)`.
    ///
    /// The record always learns whether the window is maximized. It takes
    /// the new position only if the monitor that shows the window is known,
    /// the position lies strictly right of and below the monitor's origin,
    /// and the window is not maximized.
    pub fn moved(self, x: i32, y: i32, monitor: Option<(i32, i32)>, is_maximized: bool) -> (after:
        Self)
        ensures
            after == if monitor is Some && x > monitor->Some_0.0 && y > monitor->Some_0.1
                && !is_maximized {
                (WindowMetadata { x, y, maximized: is_maximized, ..self })
            } else {
                (WindowMetadata { maximized: is_maximized, ..self })
            },
    {
        let mut after = WindowMetadata { maximized: is_maximized, ..self };
        match monitor {
            Some(origin) => {
                if x > origin.0 && y > origin.1 && !is_maximized {
                    after.x = x;
                    after.y = y;
                }
            },
            None => {},
        }
        after
    }

    /// The record after the window was resized to `width` by `height`.
    ///
    /// The record always learns whether the window is maximized. It takes
    /// the new size only if neither side is zero and the window is not
    /// maximized.
    pub fn resized(self, width: u32, height: u32, is_maximized: bool) -> (after: Self)
        ensures
            after == if width > 0 && height > 0 && !is_maximized {
                (WindowMetadata { width, height, maximized: is_maximized, ..self })
            } else {
                (WindowMetadata { maximized: is_maximized, ..self })
            },
    {
        let mut after = WindowMetadata { maximized: is_maximized, ..self };
        if width > 0 && height > 0 && !is_maximized {
            after.width = width;
            after.height = height;
        }
        after
    }

    /// The record after the window was asked to close: it remembers whether
    /// the window was visible, and takes it for visible where that is not
    /// known.
    pub fn close_requested(self, is_visible: Option<bool>) -> (after: Self)
        ensures
            after == (WindowMetadata {
                visible: match is_visible {
                    Some(visible) => visible,
                    None => true,
                },
                ..self
            }),
    {
        let visible = match is_visible {
            Some(visible) => visible,
            None => true,
        };
        WindowMetadata { visible, ..self }
    }

    /// What to do with a new window.
    ///
    /// With a record, the window is put where the record says, given the
    /// recorded size, maximized if it was, and shown only if it was visible.
    /// Without one, the window is left as it is and shown, and `current`,
    /// what it looks like now, becomes its record.
    pub fn restore(saved: Option<WindowMetadata>, current: WindowMetadata) -> (plan: RestorePlan)
        ensures
            plan == match saved {
                Some(state) => (RestorePlan {
                    position: Some((state.x, state.y)),
                    size: Some((state.width, state.height)),
                    maximize: state.maximized,
                    show: state.visible,
                    record: None,
                }),
                None => (RestorePlan {
                    position: None,
                    size: None,
                    maximize: false,
                    show: true,
                    record: Some(current),
                }),
            },
    {
        match saved {
            Some(state) => RestorePlan {
                position: Some((state.x, state.y)),
                size: Some((state.width, state.height)),
                maximize: state.maximized,
                show: state.visible,
                record: None,
            },
            None => RestorePlan {
                position: None,
                size: None,
                maximize: false,
                show: true,
                record: Some(current),
            },
        }
    }

    /// What a window looks like now, with the defaults for what could not be
    /// found out: not maximized, visible.
    pub fn observed(
        size: (u32, u32),
        position: (i32, i32),
        is_maximized: Option<bool>,
        is_visible: Option<bool>,
    ) -> (record: Self)
        ensures
            record == (WindowMetadata {
                width: size.0,
                height: size.1,
                x: position.0,
                y: position.1,
                maximized: match is_maximized {
                    Some(maximized) => maximized,
                    None => false,
                },
                visible: match is_visible {
                    Some(visible) => visible,
                    None => true,
                },
            }),
    {
        WindowMetadata {
            width: size.0,
            height: size.1,
            x: position.0,
            y: position.1,
            maximized: match is_maximized {
                Some(maximized) => maximized,
                None => false,
            },
            visible: match is_visible {
                Some(visible) => visible,
                None => true,
            },
        }
    }
}

/// The settings of the part of the application that remembers windows.
#[derive(Debug, Clone, Copy, PartialEq, Eq, Structural)]
pub struct Builder {
    skip_check_on_window_create: bool,
}

impl Default for Builder {
    fn default() -> (builder: Self)
        ensures
            !builder.skips_check(),
    {
        Builder { skip_check_on_window_create: false }
    }
}

impl Builder {
    /// Whether new windows are left alone instead of being restored.
    pub closed spec fn skips_check(&self) -> bool {
        self.skip_check_on_window_create
    }

    /// From now on new windows are left alone instead of being restored.
    pub fn skip_check_on_window_create(self) -> (builder: Self)
        ensures
            builder.skips_check(),
    {
        Builder { skip_check_on_window_create: true }
    }

    /// Whether a new window is to be restored from its record.
    pub fn restores_on_create(&self) -> (restores: bool)
        ensures
            restores == !self.skips_check(),
    {
        !self.skip_check_on_window_create
    }
}

} // verus!
