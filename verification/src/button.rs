//! A button given by pixel pairs.
use vstd::prelude::*;

verus! {

/// A button: a rectangle with an optional label, its corner and size given as
/// pairs of pixels.
pub struct Button {
    pos: (i32, i32),
    size: (i32, i32),
    text: Option<String>,
}

impl Button {
    /// The top left corner.
    pub closed spec fn spec_pos(self) -> (i32, i32) {
        self.pos
    }

    /// The width and height.
    pub closed spec fn spec_size(self) -> (i32, i32) {
        self.size
    }

    /// The label, if any.
    pub closed spec fn spec_text(self) -> Option<Seq<char>> {
        match self.text {
            Some(t) => Some(t@),
            None => None,
        }
    }

    /// A button at `pos` of the given size and label.
    pub fn new(pos: (i32, i32), size: (i32, i32), text: Option<String>) -> (b: Self)
        ensures
            b.spec_pos() == pos,
            b.spec_size() == size,
            b.spec_text() == (match text {
                Some(t) => Some(t@),
                None => None::<Seq<char>>,
            }),
    {
        Self { pos, size, text }
    }
}

} // verus!
