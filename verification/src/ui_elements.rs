//! The menu elements: buttons, arrow selectors, and the scene that holds them, with
//! the arithmetic that centres text in a box.
//!
//! Text is measured by the drawing library; the functions here take its
//! measurements.
pub mod arrow_selection;
pub mod button;

use vstd::prelude::*;

pub use arrow_selection::ArrowSelector;
pub use button::Button;

verus! {

/// Rust's integer division, which rounds towards zero.
pub open spec fn div_trunc(a: int, b: int) -> int {
    let q = (if a >= 0 { a } else { -a }) / (if b >= 0 { b } else { -b });
    if (a >= 0) == (b > 0) || a == 0 {
        q
    } else {
        -q
    }
}

/// A value cast to `u16`: its remainder modulo 2^16.
pub open spec fn wrap_u16(v: int) -> int {
    v % 0x10000
}

/// Where text `measured` wide starts when centred in the box from `x` that is
/// `width` wide: half the box less half the text (cast to `u16`), from `x`; none
/// when that leaves the `u16` range.
pub open spec fn spec_center_x(measured: int, x: int, width: int) -> Option<int> {
    let half_text = wrap_u16(div_trunc(measured, 2));
    let half_box = width / 2;
    if half_box >= half_text && half_box - half_text + x <= u16::MAX {
        Some(half_box - half_text + x)
    } else {
        None
    }
}

/// Where text of size `font_size` in a font of `base_size` starts when centred in
/// the box from `y` that is `height` high. The text's height is the base size times
/// the whole number of times it goes into the font size; none when the base size is
/// zero, a step leaves the range of its type, or the result leaves the `u16` range.
pub open spec fn spec_center_y(base_size: int, font_size: int, y: int, height: int) -> Option<int> {
    if base_size == 0 || (font_size == i32::MIN && base_size == -1) {
        None
    } else {
        let text_size = base_size * div_trunc(font_size, base_size);
        let half_text = wrap_u16(text_size) / 2;
        let half_box = height / 2;
        if text_size < i32::MIN || text_size > i32::MAX || half_box < half_text || half_box - half_text + y
            > u16::MAX {
            None
        } else {
            Some(half_box - half_text + y)
        }
    }
}

fn divide_toward_zero(a: i32, b: i32) -> (q: i64)
    requires
        b != 0,
    ensures
        q == div_trunc(a as int, b as int),
        -0x8000_0000 <= q <= 0x8000_0000,
{
    let a_abs: i64 = if a >= 0 {
        a as i64
    } else {
        -(a as i64)
    };
    let b_abs: i64 = if b >= 0 {
        b as i64
    } else {
        -(b as i64)
    };
    let q = a_abs / b_abs;
    assert(q <= a_abs) by (nonlinear_arith)
        requires
            q == a_abs / b_abs,
            a_abs >= 0,
            b_abs >= 1,
    ;
    if (a >= 0) == (b > 0) || a == 0 {
        q
    } else {
        -q
    }
}

fn wrap_to_u16(v: i32) -> (w: u16)
    ensures
        w as int == wrap_u16(v as int),
{
    let r = v % 0x10000;
    let r = if r < 0 {
        r + 0x10000
    } else {
        r
    };
    r as u16
}

/// The left edge of text `measured_width` wide centred in the box that starts at
/// `x` and is `width` wide.
pub fn center_text_x_pos(measured_width: i32, x: u16, width: u16) -> (pos: u16)
    requires
        spec_center_x(measured_width as int, x as int, width as int) is Some,
    ensures
        Some(pos as int) == spec_center_x(measured_width as int, x as int, width as int),
{
    let half = wrap_to_u16(measured_width / 2);
    ((width / 2) - half) + x
}

/// The top edge of text of `font_size` in a font of `base_size` centred in the box
/// that starts at `y` and is `obj_height` high.
pub fn center_text_y(base_size: i32, font_size: i32, y: u16, obj_height: u16) -> (pos: u16)
    requires
        spec_center_y(base_size as int, font_size as int, y as int, obj_height as int) is Some,
    ensures
        Some(pos as int) == spec_center_y(base_size as int, font_size as int, y as int, obj_height as int),
{
    let text_height = base_size as i64;
    let scale_factor = divide_toward_zero(font_size, base_size);
    let text_size = (text_height * scale_factor) as i32;
    ((obj_height / 2) - (wrap_to_u16(text_size) / 2)) + y
}

/// The top left corner of text centred in the box from (`x`, `y`) that is `width`
/// wide and `height` high, given the text's measured width, its font's base size and
/// its font size.
pub fn center_text(
    measured_width: i32,
    base_size: i32,
    x: u16,
    y: u16,
    width: u16,
    height: u16,
    font_size: i32,
) -> (pos: (u16, u16))
    requires
        spec_center_x(measured_width as int, x as int, width as int) is Some,
        spec_center_y(base_size as int, font_size as int, y as int, height as int) is Some,
    ensures
        Some(pos.0 as int) == spec_center_x(measured_width as int, x as int, width as int),
        Some(pos.1 as int) == spec_center_y(base_size as int, font_size as int, y as int, height as int),
{
    let x = center_text_x_pos(measured_width, x, width);
    let y = center_text_y(base_size, font_size, y, height);
    (x, y)
}

/// The buttons and selectors of one menu screen.
#[derive(Debug, PartialEq)]
pub struct UiScene {
    pub buttons: Vec<Button>,
    pub selectors: Vec<ArrowSelector>,
}

impl Default for UiScene {
    /// A scene with nothing in it.
    fn default() -> (s: Self)
        ensures
            s.buttons@.len() == 0,
            s.selectors@.len() == 0,
    {
        Self { buttons: Vec::new(), selectors: Vec::new() }
    }
}

impl UiScene {
    /// The main menu: a "Quit" button at (10, 10) and a "to game" button at
    /// (10, 80), both 100 by 40, and no selectors.
    pub fn init_main() -> (s: Self)
        ensures
            s.buttons@.len() == 2,
            s.buttons@[0].spec_pos() == (crate::utils::point::Point { x: 10, y: 10 }),
            s.buttons@[0].spec_size() == (crate::utils::point::Point { x: 100, y: 40 }),
            s.buttons@[0].spec_text() == Some("Quit"@),
            s.buttons@[1].spec_pos() == (crate::utils::point::Point { x: 10, y: 80 }),
            s.buttons@[1].spec_size() == (crate::utils::point::Point { x: 100, y: 40 }),
            s.buttons@[1].spec_text() == Some("to game"@),
            s.selectors@.len() == 0,
    {
        let quit = Button::new(
            crate::utils::point::Point { x: 10, y: 10 },
            crate::utils::point::Point { x: 100, y: 40 },
            Some("Quit".to_owned()),
        );
        let go_to_game = Button::new(
            crate::utils::point::Point { x: 10, y: 80 },
            crate::utils::point::Point { x: 100, y: 40 },
            Some("to game".to_owned()),
        );
        let mut buttons = Vec::new();
        buttons.push(quit);
        buttons.push(go_to_game);
        Self { buttons, selectors: Vec::new() }
    }
}

} // verus!
