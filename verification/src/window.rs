//! The window: a top-level frame around one child.
use vstd::prelude::*;

verus! {

/// The size a window starts with.
#[derive(Clone, Copy, Debug, PartialEq, Eq, Structural)]
pub enum WindowStartSize {
    Exact(u16, u16),
    Fullscreen,
}

/// The extent a window is first resized to: the given size, or the screen's
/// for a full-screen window.
pub fn start_extent(start: WindowStartSize, screen: (i32, i32)) -> (r: (i32, i32))
    ensures
        start matches WindowStartSize::Exact(w, h) ==> r == (w as i32, h as i32),
        start == WindowStartSize::Fullscreen ==> r == screen,
{
    match start {
        WindowStartSize::Exact(w, h) => (w as i32, h as i32),
        WindowStartSize::Fullscreen => screen,
    }
}

/// A window's size from its widget's, keeping the low sixteen bits of each.
pub fn window_size(width: i32, height: i32) -> (r: (u16, u16))
    ensures
        r == (width as u16, height as u16),
{
    (width as u16, height as u16)
}

} // verus!
