//! Centring text in a box.
use vstd::prelude::*;

use crate::ui_elements::{center_text, center_text_x_pos, center_text_y, spec_center_x, spec_center_y};

verus! {

/// Helpers that centre text in a box.
pub struct Text;

impl Text {
    /// The left edge of text `measured_width` wide centred in the box that starts
    /// at `x` and is `width` wide.
    pub fn center_text_x_pos(measured_width: i32, x: u16, width: u16) -> (pos: u16)
        requires
            spec_center_x(measured_width as int, x as int, width as int) is Some,
        ensures
            Some(pos as int) == spec_center_x(measured_width as int, x as int, width as int),
    {
        center_text_x_pos(measured_width, x, width)
    }

    /// The top edge of text of `font_size` in a font of `base_size` centred in the
    /// box that starts at `y` and is `obj_height` high.
    pub fn center_text_y(base_size: i32, font_size: i32, y: u16, obj_height: u16) -> (pos: u16)
        requires
            spec_center_y(base_size as int, font_size as int, y as int, obj_height as int) is Some,
        ensures
            Some(pos as int) == spec_center_y(base_size as int, font_size as int, y as int, obj_height as int),
    {
        center_text_y(base_size, font_size, y, obj_height)
    }

    /// The top left corner of the text centred in the box.
    pub fn center_text(
        measured_width: i32,
        base_size: i32,
        x: u16,
        y: u16,
        width: u16,
        height: u16,
        font_size: i32,
    ) -> (pos: (u16, u16))
        requires
            spec_center_x(measured_width as int, x as int, width as int) is Some,
            spec_center_y(base_size as int, font_size as int, y as int, height as int) is Some,
        ensures
            Some(pos.0 as int) == spec_center_x(measured_width as int, x as int, width as int),
            Some(pos.1 as int) == spec_center_y(base_size as int, font_size as int, y as int, height as int),
    {
        center_text(measured_width, base_size, x, y, width, height, font_size)
    }
}

} // verus!
