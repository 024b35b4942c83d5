use vstd::prelude::*;

verus! {

/// The mouse cursors the application switches between.
#[derive(Debug, Clone, Copy, PartialEq, Eq, Structural)]
pub enum MouseCursorIcon {
    DEFAULT,
    WAITING,
}

/// The X cursor name of an icon.
pub open spec fn cursor_name(icon: MouseCursorIcon) -> Seq<char> {
    match icon {
        MouseCursorIcon::DEFAULT => "left_ptr"@,
        MouseCursorIcon::WAITING => "watch"@,
    }
}

impl MouseCursorIcon {
    /// The X cursor name of the icon.
    pub fn value(&self) -> (r: &'static str)
        ensures
            r@ == cursor_name(*self),
    {
        match self {
            MouseCursorIcon::DEFAULT => "left_ptr",
            MouseCursorIcon::WAITING => "watch",
        }
    }
}

} // verus!
