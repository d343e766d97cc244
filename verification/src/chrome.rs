//! Window chrome and stacking order: the overlay is a tool window, kept out
//! of the task switcher, that lies below all other windows unless it is
//! pinned on top of them.

use vstd::prelude::*;

verus! {

/// Extended style bit: the window is listed in the task bar.
pub const WS_EX_APPWINDOW: i32 = 0x0004_0000;

/// Extended style bit: the window is a tool window.
pub const WS_EX_TOOLWINDOW: i32 = 0x0000_0080;

/// Positioning flag: keep the window's size.
pub const SWP_NOSIZE: u32 = 0x0001;

/// Positioning flag: keep the window's position.
pub const SWP_NOMOVE: u32 = 0x0002;

/// Positioning flag: keep the window's place in the stacking order.
pub const SWP_NOZORDER: u32 = 0x0004;

/// Positioning flag: do not activate the window.
pub const SWP_NOACTIVATE: u32 = 0x0010;

/// A place in the stacking order.
#[derive(Clone, Copy, Debug, PartialEq, Eq, Structural)]
pub enum ZOrder {
    /// Above all windows that are not topmost themselves.
    Topmost,
    /// Below all other windows.
    Bottom,
}

/// One positioning request to the window system: where in the stacking order
/// to put the window, if anywhere, the position to move it to, and the flags
/// that say which of these to ignore.
#[derive(Clone, Copy, Debug, PartialEq, Eq, Structural)]
pub struct WindowPosRequest {
    pub insert_after: Option<ZOrder>,
    pub x: i32,
    pub y: i32,
    pub flags: u32,
}

/// The extended style of a tool window: the task bar bit cleared, the tool
/// window bit set, every other bit as it was.
pub open spec fn spec_tool_window_style(style: i32) -> i32 {
    (style & !WS_EX_APPWINDOW) | WS_EX_TOOLWINDOW
}

/// Turns an extended window style into that of a tool window.
pub fn tool_window_style(style: i32) -> (r: i32)
    ensures
        r == spec_tool_window_style(style),
        r & WS_EX_APPWINDOW == 0,
        r & WS_EX_TOOLWINDOW == WS_EX_TOOLWINDOW,
        r & !(WS_EX_APPWINDOW | WS_EX_TOOLWINDOW) == style & !(WS_EX_APPWINDOW | WS_EX_TOOLWINDOW),
{
    let r: i32 = (style & !WS_EX_APPWINDOW) | WS_EX_TOOLWINDOW;
    assert(r & 0x0004_0000i32 == 0 && r & 0x80i32 == 0x80i32 && r & !(0x0004_0000i32 | 0x80i32)
        == style & !(0x0004_0000i32 | 0x80i32)) by (bit_vector)
        requires
            r == (style & !0x0004_0000i32) | 0x80i32,
    ;
    r
}

/// Making a style a tool window's twice is the same as doing it once.
pub proof fn lemma_tool_window_style_idempotent(style: i32)
    ensures
        spec_tool_window_style(spec_tool_window_style(style)) == spec_tool_window_style(style),
{
    let once = (style & !0x0004_0000i32) | 0x80i32;
    assert((once & !0x0004_0000i32) | 0x80i32 == once) by (bit_vector)
        requires
            once == (style & !0x0004_0000i32) | 0x80i32,
    ;
}

/// The request that parks a window at one end of the stacking order, without
/// moving, resizing or activating it.
pub open spec fn restack(z: ZOrder) -> WindowPosRequest {
    WindowPosRequest {
        insert_after: Some(z),
        x: 0,
        y: 0,
        flags: SWP_NOMOVE | SWP_NOSIZE | SWP_NOACTIVATE,
    }
}

/// Setting up the overlay's window: its extended style becomes that of a tool
/// window, and it goes to the bottom of the stacking order.
pub fn setup_widget_window(style: i32) -> (r: (i32, WindowPosRequest))
    ensures
        r.0 == spec_tool_window_style(style),
        r.1 == restack(ZOrder::Bottom),
{
    (
        tool_window_style(style),
        WindowPosRequest {
            insert_after: Some(ZOrder::Bottom),
            x: 0,
            y: 0,
            flags: SWP_NOMOVE | SWP_NOSIZE | SWP_NOACTIVATE,
        },
    )
}

/// Pinning puts the window on top of all others; unpinning sends it back to
/// the bottom.
pub fn set_pin_state(pinned: bool) -> (r: WindowPosRequest)
    ensures
        r == restack(
            if pinned {
                ZOrder::Topmost
            } else {
                ZOrder::Bottom
            },
        ),
{
    WindowPosRequest {
        insert_after: Some(
            if pinned {
                ZOrder::Topmost
            } else {
                ZOrder::Bottom
            },
        ),
        x: 0,
        y: 0,
        flags: SWP_NOMOVE | SWP_NOSIZE | SWP_NOACTIVATE,
    }
}

/// Moving the overlay to a point. A pinned window keeps its place in the
/// stacking order; one that is not pinned is sent to the bottom with the
/// move. The size stays, and the window is not activated.
pub fn move_widget(x: i32, y: i32, is_pinned: bool) -> (r: WindowPosRequest)
    ensures
        r.x == x,
        r.y == y,
        is_pinned ==> r.insert_after is None && r.flags == SWP_NOSIZE | SWP_NOACTIVATE
            | SWP_NOZORDER,
        !is_pinned ==> r.insert_after == Some(ZOrder::Bottom) && r.flags == SWP_NOSIZE
            | SWP_NOACTIVATE,
{
    if is_pinned {
        WindowPosRequest {
            insert_after: None,
            x,
            y,
            flags: SWP_NOSIZE | SWP_NOACTIVATE | SWP_NOZORDER,
        }
    } else {
        WindowPosRequest {
            insert_after: Some(ZOrder::Bottom),
            x,
            y,
            flags: SWP_NOSIZE | SWP_NOACTIVATE,
        }
    }
}

} // verus!
