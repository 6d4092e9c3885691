//! Placement of a window next to the system-tray icon, and the clamp that
//! keeps it on its monitor.
use vstd::prelude::*;

verus! {

/// Magnitude bound on every coordinate and size this module computes with;
/// keeps all sums inside `i32`.
pub const COORD_LIMIT: i32 = 0x2000_0000;

/// Where the window goes relative to the tray icon's rectangle.
#[derive(Debug, Clone, Copy, PartialEq, Eq, Structural)]
pub enum TrayPosition {
    TrayLeft,
    TrayBottomLeft,
    TrayRight,
    TrayBottomRight,
    TrayCenter,
    TrayBottomCenter,
}

/// A window size in physical pixels.
#[derive(Debug, Clone, Copy, PartialEq, Eq, Structural)]
pub struct WindowSize {
    pub width: i32,
    pub height: i32,
}

/// A window position in physical pixels.
#[derive(Debug, Clone, Copy, PartialEq, Eq, Structural)]
pub struct WindowPoint {
    pub x: i32,
    pub y: i32,
}

pub open spec fn spec_is_bottom(position: TrayPosition) -> bool {
    position is TrayBottomLeft || position is TrayBottomRight || position is TrayBottomCenter
}

/// The top-left corner a window of `window_size` gets next to the tray
/// rectangle: the non-bottom placements sit above the tray, the bottom
/// placements on its top edge; when an above placement would leave the
/// screen top, the window falls back to the tray's top edge, or below the
/// tray when `fallback_below_tray` holds (for platforms whose tray hugs
/// the screen top).
pub open spec fn spec_tray_position(
    tray_x: int,
    tray_y: int,
    tray_width: int,
    tray_height: int,
    window_size: WindowSize,
    position: TrayPosition,
    fallback_below_tray: bool,
) -> (int, int) {
    let w = window_size.width as int;
    let h = window_size.height as int;
    let x = match position {
        TrayPosition::TrayLeft => tray_x,
        TrayPosition::TrayBottomLeft => tray_x,
        TrayPosition::TrayRight => tray_x + tray_width - w,
        TrayPosition::TrayBottomRight => tray_x + tray_width - w,
        TrayPosition::TrayCenter => tray_x + tray_width / 2 - w / 2,
        TrayPosition::TrayBottomCenter => tray_x + tray_width / 2 - w / 2,
    };
    let y_base = if spec_is_bottom(position) {
        tray_y
    } else {
        tray_y - h
    };
    let y = if !spec_is_bottom(position) && y_base < 0 {
        if fallback_below_tray {
            tray_y + tray_height
        } else {
            tray_y
        }
    } else {
        y_base
    };
    (x, y)
}

/// Computes where a window goes next to the tray icon.
pub fn calculate_tray_position(
    tray_x: i32,
    tray_y: i32,
    tray_width: i32,
    tray_height: i32,
    window_size: WindowSize,
    position: TrayPosition,
    fallback_below_tray: bool,
) -> (r: WindowPoint)
    requires
        -COORD_LIMIT <= tray_x <= COORD_LIMIT,
        -COORD_LIMIT <= tray_y <= COORD_LIMIT,
        0 <= tray_width <= COORD_LIMIT,
        0 <= tray_height <= COORD_LIMIT,
        0 <= window_size.width <= COORD_LIMIT,
        0 <= window_size.height <= COORD_LIMIT,
    ensures
        (r.x as int, r.y as int) == spec_tray_position(
            tray_x as int,
            tray_y as int,
            tray_width as int,
            tray_height as int,
            window_size,
            position,
            fallback_below_tray,
        ),
{
    let is_bottom = match position {
        TrayPosition::TrayBottomLeft => true,
        TrayPosition::TrayBottomRight => true,
        TrayPosition::TrayBottomCenter => true,
        _ => false,
    };
    let x = match position {
        TrayPosition::TrayLeft => tray_x,
        TrayPosition::TrayBottomLeft => tray_x,
        TrayPosition::TrayRight => tray_x + tray_width - window_size.width,
        TrayPosition::TrayBottomRight => tray_x + tray_width - window_size.width,
        TrayPosition::TrayCenter => tray_x + tray_width / 2 - window_size.width / 2,
        TrayPosition::TrayBottomCenter => tray_x + tray_width / 2 - window_size.width / 2,
    };
    let y_base = if is_bottom {
        tray_y
    } else {
        tray_y - window_size.height
    };
    let y = if !is_bottom && y_base < 0 {
        if fallback_below_tray {
            tray_y + tray_height
        } else {
            tray_y
        }
    } else {
        y_base
    };
    WindowPoint { x, y }
}

/// Clamps a window's top-left corner so the window stays on the monitor
/// whose origin is `(monitor_x, monitor_y)` and size
/// `(monitor_width, monitor_height)`. The window must fit on the monitor.
pub fn clamp_window_to_monitor(
    window_pos: WindowPoint,
    window_size: WindowSize,
    monitor_x: i32,
    monitor_y: i32,
    monitor_width: i32,
    monitor_height: i32,
) -> (r: WindowPoint)
    requires
        -COORD_LIMIT <= window_pos.x <= COORD_LIMIT,
        -COORD_LIMIT <= window_pos.y <= COORD_LIMIT,
        -COORD_LIMIT <= monitor_x <= COORD_LIMIT,
        -COORD_LIMIT <= monitor_y <= COORD_LIMIT,
        0 <= monitor_width <= COORD_LIMIT,
        0 <= monitor_height <= COORD_LIMIT,
        0 <= window_size.width <= monitor_width,
        0 <= window_size.height <= monitor_height,
    ensures
        r.x as int == if window_pos.x < monitor_x {
            monitor_x as int
        } else if window_pos.x > monitor_x + monitor_width - window_size.width {
            monitor_x + monitor_width - window_size.width
        } else {
            window_pos.x as int
        },
        r.y as int == if window_pos.y < monitor_y {
            monitor_y as int
        } else if window_pos.y > monitor_y + monitor_height - window_size.height {
            monitor_y + monitor_height - window_size.height
        } else {
            window_pos.y as int
        },
        monitor_x <= r.x,
        r.x + window_size.width <= monitor_x + monitor_width,
        monitor_y <= r.y,
        r.y + window_size.height <= monitor_y + monitor_height,
{
    let max_x = monitor_x + monitor_width - window_size.width;
    let max_y = monitor_y + monitor_height - window_size.height;
    let x = if window_pos.x < monitor_x {
        monitor_x
    } else if window_pos.x > max_x {
        max_x
    } else {
        window_pos.x
    };
    let y = if window_pos.y < monitor_y {
        monitor_y
    } else if window_pos.y > max_y {
        max_y
    } else {
        window_pos.y
    };
    WindowPoint { x, y }
}

} // verus!
