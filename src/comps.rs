use vstd::prelude::*;
pub use crate::geometry::Bounds;
use crate::geometry::Rect;

verus! {

/// The slider value that stands for 1: a slider's `val` runs from 0 to
/// `VAL_ONE`, in steps of `1 / VAL_ONE` of the track.
pub const VAL_ONE: u32 = 1_000_000;

/// A push button with a label; `pressed` is its state.
pub struct Button {
    pub x: i32,
    pub y: i32,
    pub width: i32,
    pub height: i32,
    pub text: String,
    pub pressed: bool,
}

/// A check box; `pressed` is whether it is checked.
pub struct CheckBox {
    pub x: i32,
    pub y: i32,
    pub width: i32,
    pub height: i32,
    pub pressed: bool,
}

/// A horizontal slider: the rectangle is the track; `selected` is whether
/// its thumb is being dragged.
#[derive(Clone, Copy, Debug, PartialEq, Eq, Structural)]
pub struct Slider {
    pub x: i32,
    pub y: i32,
    pub width: i32,
    pub height: i32,
    /// The thumb's position along the track, in units of `1 / VAL_ONE`.
    pub val: u32,
    pub selected: bool,
}

/// A text box. While it is selected it appends every key pressed to `keys`,
/// which nothing here ever empties: the caller drains or caps it.
pub struct TextBox {
    pub x: i32,
    pub y: i32,
    pub width: i32,
    pub height: i32,
    pub text: String,
    pub selected: bool,
    pub keys: Vec<i32>,
}

impl Slider {
    /// The value lies in the track's range `[0, VAL_ONE]`.
    pub open spec fn wf(&self) -> bool {
        self.val <= VAL_ONE
    }
}

impl Button {
    pub fn new() -> (r: Button)
        ensures
            r.x == 0 && r.y == 0 && r.width == 1 && r.height == 1,
            r.text@ == Seq::<char>::empty(),
            !r.pressed,
    {
        Button { x: 0, y: 0, width: 1, height: 1, text: String::new(), pressed: false }
    }
}

impl CheckBox {
    pub fn new() -> (r: CheckBox)
        ensures
            r.x == 0 && r.y == 0 && r.width == 1 && r.height == 1,
            !r.pressed,
    {
        CheckBox { x: 0, y: 0, width: 1, height: 1, pressed: false }
    }
}

impl Slider {
    pub fn new() -> (r: Slider)
        ensures
            r.x == 0 && r.y == 0 && r.width == 1 && r.height == 1,
            r.val == 0,
            !r.selected,
            r.wf(),
    {
        Slider { x: 0, y: 0, width: 1, height: 1, val: 0, selected: false }
    }
}

impl TextBox {
    pub fn new() -> (r: TextBox)
        ensures
            r.x == 0 && r.y == 0 && r.width == 1 && r.height == 1,
            r.text@ == Seq::<char>::empty(),
            !r.selected,
            r.keys@ == Seq::<i32>::empty(),
    {
        TextBox {
            x: 0,
            y: 0,
            width: 1,
            height: 1,
            text: String::new(),
            selected: false,
            keys: Vec::new(),
        }
    }
}

impl Bounds for Button {
    open spec fn spec_bounds(&self) -> Rect {
        Rect { x: self.x, y: self.y, width: self.width, height: self.height }
    }

    fn bounds(&self) -> (r: Rect) {
        Rect { x: self.x, y: self.y, width: self.width, height: self.height }
    }
}

impl Bounds for CheckBox {
    open spec fn spec_bounds(&self) -> Rect {
        Rect { x: self.x, y: self.y, width: self.width, height: self.height }
    }

    fn bounds(&self) -> (r: Rect) {
        Rect { x: self.x, y: self.y, width: self.width, height: self.height }
    }
}

impl Bounds for Slider {
    open spec fn spec_bounds(&self) -> Rect {
        Rect { x: self.x, y: self.y, width: self.width, height: self.height }
    }

    fn bounds(&self) -> (r: Rect) {
        Rect { x: self.x, y: self.y, width: self.width, height: self.height }
    }
}

impl Bounds for TextBox {
    open spec fn spec_bounds(&self) -> Rect {
        Rect { x: self.x, y: self.y, width: self.width, height: self.height }
    }

    fn bounds(&self) -> (r: Rect) {
        Rect { x: self.x, y: self.y, width: self.width, height: self.height }
    }
}

} // verus!
