//! A selector that steps through a list of options with a left and a right arrow.
use vstd::prelude::*;

verus! {

/// A box showing one of several options, with an arrow on each side to step to the
/// previous or the next one, wrapping around at either end.
#[derive(Debug, PartialEq)]
pub struct ArrowSelector {
    pos: (u16, u16),
    size: (u16, u16),
    options: u8,
    curr_option: i8,
    display_text: Vec<String>,
}

/// The number of options as the selector compares it with its current option: the
/// `u8` count read as an `i8`.
pub open spec fn options_as_i8(options: u8) -> int {
    if options < 128 {
        options as int
    } else {
        options - 256
    }
}

/// The option after stepping left: one less, or the last option from the first.
pub open spec fn step_left(current: int, options: u8) -> int {
    if current - 1 < 0 {
        options_as_i8(options) - 1
    } else {
        current - 1
    }
}

/// The option after stepping right: one more, or the first option after the last.
pub open spec fn step_right(current: int, options: u8) -> int {
    if current + 1 == options_as_i8(options) {
        0
    } else {
        current + 1
    }
}

/// Stepping left stays in the `i8` range.
pub open spec fn can_step_left(current: int, options: u8) -> bool {
    &&& current - 1 >= i8::MIN
    &&& current - 1 < 0 ==> options_as_i8(options) - 1 >= i8::MIN
}

/// Stepping right stays in the `i8` range.
pub open spec fn can_step_right(current: int) -> bool {
    current + 1 <= i8::MAX
}

/// The option shown after a frame in which the cursor was over the left arrow, over
/// the right arrow, and the mouse button was released.
pub open spec fn after_update(current: int, options: u8, over_left: bool, over_right: bool, click: bool) -> int {
    let l = if over_left && click {
        step_left(current, options)
    } else {
        current
    };
    if over_right && click {
        step_right(l, options)
    } else {
        l
    }
}

impl ArrowSelector {
    /// The top left corner.
    pub closed spec fn spec_pos(self) -> (u16, u16) {
        self.pos
    }

    /// The width and height.
    pub closed spec fn spec_size(self) -> (u16, u16) {
        self.size
    }

    /// The number of options, as a `u8`.
    pub closed spec fn spec_options(self) -> u8 {
        self.options
    }

    /// The option shown.
    pub closed spec fn current(self) -> i8 {
        self.curr_option
    }

    /// The texts of the options.
    pub closed spec fn texts(self) -> Seq<String> {
        self.display_text@
    }

    /// A selector over the given texts, showing the first, at `pos` with the given
    /// size. The count of options is that of the texts cast to `u8`.
    pub fn new(display_text: Vec<String>, pos: (u16, u16), size: (u16, u16)) -> (s: Self)
        ensures
            s.spec_pos() == pos,
            s.spec_size() == size,
            s.spec_options() as int == display_text@.len() % 0x100,
            s.current() == 0,
            s.texts() == display_text@,
    {
        let options = (display_text.len() % 0x100) as u8;
        Self { pos, size, options, curr_option: 0, display_text }
    }

    /// Steps left when the cursor is over the left arrow and the mouse button was
    /// released, then steps right when it is over the right arrow and the button was
    /// released.
    pub fn update(&mut self, over_left: bool, over_right: bool, click: bool)
        requires
            over_left && click ==> can_step_left(old(self).current() as int, old(self).spec_options()),
            over_right && click ==> can_step_right(
                (if over_left && click {
                    step_left(old(self).current() as int, old(self).spec_options())
                } else {
                    old(self).current() as int
                }),
            ),
        ensures
            final(self).current() as int == after_update(
                old(self).current() as int,
                old(self).spec_options(),
                over_left,
                over_right,
                click,
            ),
            final(self).spec_options() == old(self).spec_options(),
            final(self).spec_pos() == old(self).spec_pos(),
            final(self).spec_size() == old(self).spec_size(),
            final(self).texts() == old(self).texts(),
    {
        let options: i8 = if self.options < 128 {
            self.options as i8
        } else {
            (self.options as i16 - 256) as i8
        };
        if over_left && click {
            self.curr_option = self.curr_option - 1;
            if self.curr_option < 0 {
                self.curr_option = options - 1;
            }
        }
        if over_right && click {
            self.curr_option = self.curr_option + 1;
            if self.curr_option == options {
                self.curr_option = 0;
            }
        }
    }

    /// The option shown.
    pub fn get_curr_selection(&self) -> (c: i8)
        ensures
            c == self.current(),
    {
        self.curr_option
    }

    /// The top left corner and the size of the square over the right arrow: 20 by
    /// 20, at three quarters of the box's width less 10 and half its height less 10.
    pub fn get_right_sqaure(&self) -> (square: ((u16, u16), (u16, u16)))
        requires
            self.spec_pos().0 + (3 * self.spec_size().0) / 4 <= u16::MAX,
            self.spec_pos().0 + (3 * self.spec_size().0) / 4 >= 10,
            self.spec_size().1 / 2 + self.spec_pos().1 <= u16::MAX,
            self.spec_size().1 / 2 + self.spec_pos().1 >= 10,
        ensures
            square.0.0 == self.spec_pos().0 + (3 * self.spec_size().0) / 4 - 10,
            square.0.1 == self.spec_size().1 / 2 + self.spec_pos().1 - 10,
            square.1 == (20u16, 20u16),
    {
        let three_quarters = ((3 * self.size.0 as u32) / 4) as u16;
        let x_pos = (self.pos.0 + three_quarters) - 10;
        let y_pos = self.size.1 / 2 + self.pos.1 - 10;
        ((x_pos, y_pos), (20, 20))
    }

    /// The top left corner and the size of the square over the left arrow: 20 by
    /// 20, at a quarter of the box's width less 10 and half its height less 10.
    pub fn get_left_square(&self) -> (square: ((u16, u16), (u16, u16)))
        requires
            self.spec_pos().0 + self.spec_size().0 / 4 <= u16::MAX,
            self.spec_pos().0 + self.spec_size().0 / 4 >= 10,
            self.spec_size().1 / 2 + self.spec_pos().1 <= u16::MAX,
            self.spec_size().1 / 2 + self.spec_pos().1 >= 10,
        ensures
            square.0.0 == self.spec_pos().0 + self.spec_size().0 / 4 - 10,
            square.0.1 == self.spec_size().1 / 2 + self.spec_pos().1 - 10,
            square.1 == (20u16, 20u16),
    {
        let x_pos = (self.pos.0 + (self.size.0 / 4)) - 10;
        let y_pos = self.size.1 / 2 + self.pos.1 - 10;
        ((x_pos, y_pos), (20, 20))
    }
}

/// With between 1 and 127 options and a valid option shown, the arrows always keep
/// a valid option shown, stepping left then right or right then left returns to
/// the same option, and the steps wrap around at the ends.
pub proof fn lemma_steps_cycle(current: int, options: u8)
    requires
        1 <= options <= 127,
        0 <= current < options,
    ensures
        can_step_left(current, options),
        can_step_right(current),
        0 <= step_left(current, options) < options,
        0 <= step_right(current, options) < options,
        step_right(step_left(current, options), options) == current,
        step_left(step_right(current, options), options) == current,
        current == 0 ==> step_left(current, options) == options - 1,
        current == options - 1 ==> step_right(current, options) == 0,
{
}

/// With between 1 and 127 options, a selector showing a valid option can always be
/// updated (the `requires` of [`ArrowSelector::update`] hold, whatever the cursor and
/// the mouse do) and still shows a valid option after the update. A selector starts
/// at option 0, so along any run of updates the option shown is always one of the
/// texts.
pub proof fn lemma_update_keeps_selection_valid(
    current: int,
    options: u8,
    over_left: bool,
    over_right: bool,
    click: bool,
)
    requires
        1 <= options <= 127,
        0 <= current < options,
    ensures
        over_left && click ==> can_step_left(current, options),
        over_right && click ==> can_step_right(
            if over_left && click {
                step_left(current, options)
            } else {
                current
            },
        ),
        0 <= after_update(current, options, over_left, over_right, click) < options,
{
    lemma_steps_cycle(current, options);
    if over_left && click {
        lemma_steps_cycle(step_left(current, options), options);
    }
}

/// What an update does to a valid selection among `options` (1 to 127) options:
/// without a click nothing changes, wherever the cursor is; a click over the left
/// arrow alone shows the previous option, wrapping from the first to the last; a
/// click over the right arrow alone shows the next, wrapping from the last to the
/// first; and a click over both steps back and forth to where it was.
pub proof fn lemma_update_moves(current: int, options: u8, over_left: bool, over_right: bool)
    requires
        1 <= options <= 127,
        0 <= current < options,
    ensures
        after_update(current, options, over_left, over_right, false) == current,
        after_update(current, options, true, false, true) == (current + options - 1) % (options as int),
        after_update(current, options, false, true, true) == (current + 1) % (options as int),
        after_update(current, options, true, true, true) == current,
        after_update(current, options, false, false, true) == current,
{
    lemma_steps_cycle(current, options);
    let o = options as int;
    if current == 0 {
        vstd::arithmetic::div_mod::lemma_small_mod((o - 1) as nat, o as nat);
    } else {
        assert((current + o - 1) % o == current - 1) by {
            vstd::arithmetic::div_mod::lemma_fundamental_div_mod_converse(current + o - 1, o, 1, current - 1);
        }
    }
    if current == o - 1 {
        vstd::arithmetic::div_mod::lemma_mod_self_0(o);
    } else {
        vstd::arithmetic::div_mod::lemma_small_mod((current + 1) as nat, o as nat);
    }
}

} // verus!
