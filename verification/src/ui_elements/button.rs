//! A clickable button of the menus.
use vstd::prelude::*;

use crate::utils::point::Point;

verus! {

/// A button: a rectangle with an optional label.
#[derive(Debug, PartialEq)]
pub struct Button {
    pos: Point,
    size: Point,
    text: Option<String>,
}

impl Button {
    /// The top left corner.
    pub closed spec fn spec_pos(self) -> Point {
        self.pos
    }

    /// The width and height.
    pub closed spec fn spec_size(self) -> Point {
        self.size
    }

    /// The label, if any.
    pub closed spec fn spec_text(self) -> Option<Seq<char>> {
        match self.text {
            Some(t) => Some(t@),
            None => None,
        }
    }

    /// A button at `pos` of the given size and label.
    pub fn new(pos: Point, size: Point, text: Option<String>) -> (b: Self)
        ensures
            b.spec_pos() == pos,
            b.spec_size() == size,
            b.spec_text() == (match text {
                Some(t) => Some(t@),
                None => None::<Seq<char>>,
            }),
    {
        Self { pos, size, text }
    }

    /// The top left corner.
    pub fn pos(&self) -> (p: Point)
        ensures
            p == self.spec_pos(),
    {
        self.pos
    }

    /// The width and height.
    pub fn size(&self) -> (s: Point)
        ensures
            s == self.spec_size(),
    {
        self.size
    }

    /// The label, if any.
    pub fn text(&self) -> (t: Option<&String>)
        ensures
            match t {
                Some(s) => self.spec_text() == Some(s@),
                None => self.spec_text() is None,
            },
    {
        self.text.as_ref()
    }
}

} // verus!
