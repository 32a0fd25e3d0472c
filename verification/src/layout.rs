//! Plain values that describe how a control wants to be laid out.
use vstd::prelude::*;

verus! {

/// The direction along which a container stacks its children.
#[derive(Clone, Copy, Debug, PartialEq, Eq, Structural)]
pub enum Orientation {
    Horizontal,
    Vertical,
}

/// What a control asks for along one dimension.
#[derive(Clone, Copy, Debug, PartialEq, Eq, Structural)]
pub enum Size {
    /// Take the extent the parent offers.
    MatchParent,
    /// Take what the content needs.
    WrapContent,
    /// Take exactly this many pixels.
    Exact(u16),
}

/// Whether a control is shown, hidden but still taking space, or gone.
#[derive(Clone, Copy, Debug, PartialEq, Eq, Structural)]
pub enum Visibility {
    Visible,
    Invisible,
    Gone,
}

/// The requested width and height of a control.
#[derive(Clone, Copy, Debug, PartialEq, Eq, Structural)]
pub struct LayoutParams {
    pub width: Size,
    pub height: Size,
}

/// Contents margins of a widget, in pixels, as the widget reports them.
#[derive(Clone, Copy, Debug, PartialEq, Eq, Structural)]
pub struct Margins {
    pub left: i32,
    pub top: i32,
    pub right: i32,
    pub bottom: i32,
}

/// The requested size of `params` along `orientation`.
pub open spec fn along(orientation: Orientation, params: LayoutParams) -> Size {
    match orientation {
        Orientation::Horizontal => params.width,
        Orientation::Vertical => params.height,
    }
}

impl LayoutParams {
    /// The requested size along `orientation`: the width for a horizontal
    /// container, the height for a vertical one.
    pub fn along(&self, orientation: Orientation) -> (r: Size)
        ensures
            r == along(orientation, *self),
    {
        match orientation {
            Orientation::Horizontal => self.width,
            Orientation::Vertical => self.height,
        }
    }
}

} // verus!
