//! A picture of the panel for a windowed demonstration: where its parts are
//! drawn, what a click on an LED does and what a key does to the text.
//!
//! The window, the drawing and the events are the caller's; the picture is
//! 240 pixels wide and 160 high.

use vstd::prelude::*;
use vstd::string::StrSliceExecFns;
use crate::manager::{Update, MAX_TEXT_LEN};
use crate::text::{is_printable, printable};

verus! {

/// The centre of the first LED, from the left edge.
pub const LED_START_X: usize = 15;
/// The centre of the first LED, from the top edge.
pub const LED_START_Y: usize = 15;
/// The gap between two LEDs.
pub const LED_SPACING: usize = 12;
/// The radius of an LED.
pub const LED_SIZE: usize = 8;
/// The left edge of the first button.
pub const BUTTON_START_X: usize = 10;
/// The top edge of the buttons.
pub const BUTTON_START_Y: usize = 110;
/// The gap between two buttons.
pub const BUTTON_SPACING: usize = 20;
/// The width and height of a button.
pub const BUTTON_WIDTH: usize = 40;
/// The number of LEDs.
pub const LED_COUNT: usize = 3;

/// A rectangle of pixels: from the left and top edge up to, but without, the
/// right and bottom edge.
#[derive(Debug, Clone, Copy, PartialEq, Eq)]
pub struct Area {
    pub left: usize,
    pub top: usize,
    pub right: usize,
    pub bottom: usize,
}

impl Area {
    /// The pixel at (`x`, `y`) lies in the area.
    pub open spec fn holds(&self, x: usize, y: usize) -> bool {
        self.left <= x < self.right && self.top <= y < self.bottom
    }

    /// Whether the pixel at (`x`, `y`) lies in the area.
    pub fn contains(&self, x: usize, y: usize) -> (inside: bool)
        ensures
            inside == self.holds(x, y),
    {
        self.left <= x && x < self.right && self.top <= y && y < self.bottom
    }
}

/// The area in which the display's text is drawn.
pub open spec fn screen_area() -> Area {
    Area { left: 90, top: 10, right: 210, bottom: 50 }
}

/// The centre of the LED with logical index `index`: the LEDs stand in a
/// column, each a gap and a radius below the one before.
pub open spec fn led_centre_of(index: usize) -> (usize, usize) {
    (LED_START_X, (LED_START_Y + index * (LED_SPACING + LED_SIZE)) as usize)
}

/// The square around the LED with logical index `index` in which a click
/// counts: a radius to each side of its centre.
pub open spec fn led_area_of(index: usize) -> Area {
    let centre = led_centre_of(index);
    Area {
        left: (centre.0 - LED_SIZE) as usize,
        top: (centre.1 - LED_SIZE) as usize,
        right: (centre.0 + LED_SIZE) as usize,
        bottom: (centre.1 + LED_SIZE) as usize,
    }
}

/// The top left corner of the button numbered `index`: the buttons stand in
/// a row, each a gap and a width right of the one before.
pub open spec fn button_corner_of(index: usize) -> (usize, usize) {
    ((BUTTON_START_X + index * (BUTTON_SPACING + BUTTON_WIDTH)) as usize, BUTTON_START_Y)
}

/// The LED on which a click at (`x`, `y`) falls, if any.
pub open spec fn led_hit(x: usize, y: usize) -> Option<usize> {
    if led_area_of(0).holds(x, y) {
        Some(0usize)
    } else if led_area_of(1).holds(x, y) {
        Some(1usize)
    } else if led_area_of(2).holds(x, y) {
        Some(2usize)
    } else {
        None
    }
}

/// The area in which the display's text is drawn.
pub fn screen() -> (area: Area)
    ensures
        area == screen_area(),
{
    Area { left: 90, top: 10, right: 210, bottom: 50 }
}

/// The centre of the LED with logical index `index`.
pub fn led_centre(index: usize) -> (centre: (usize, usize))
    requires
        index < LED_COUNT,
    ensures
        centre == led_centre_of(index),
{
    assert(index * (LED_SPACING + LED_SIZE) <= 40) by (nonlinear_arith)
        requires
            index < 3,
            LED_SPACING + LED_SIZE == 20,
    ;
    (LED_START_X, LED_START_Y + index * (LED_SPACING + LED_SIZE))
}

/// The square around the LED with logical index `index` in which a click counts.
pub fn led_area(index: usize) -> (area: Area)
    requires
        index < LED_COUNT,
    ensures
        area == led_area_of(index),
{
    let centre = led_centre(index);
    Area {
        left: centre.0 - LED_SIZE,
        top: centre.1 - LED_SIZE,
        right: centre.0 + LED_SIZE,
        bottom: centre.1 + LED_SIZE,
    }
}

/// The top left corner of the button numbered `index`.
pub fn button_corner(index: usize) -> (corner: (usize, usize))
    requires
        index < 4,
    ensures
        corner == button_corner_of(index),
{
    assert(index * (BUTTON_SPACING + BUTTON_WIDTH) <= 180) by (nonlinear_arith)
        requires
            index < 4,
            BUTTON_SPACING + BUTTON_WIDTH == 60,
    ;
    (BUTTON_START_X + index * (BUTTON_SPACING + BUTTON_WIDTH), BUTTON_START_Y)
}

/// What a click at (`x`, `y`) does: an LED that it falls on changes its
/// state, and the update to send says so; any other click does nothing.
pub fn click(leds: &mut [bool; 3], x: usize, y: usize) -> (update: Option<Update>)
    ensures
        match led_hit(x, y) {
            Some(index) => final(leds)@ == old(leds)@.update(index as int, !old(leds)@[index as int])
                && update == Some(Update::LED(index, !old(leds)@[index as int])),
            None => final(leds)@ == old(leds)@ && update is None,
        },
        update matches Some(u) ==> u.is_valid(),
{
    let mut index: usize = 0;
    while index < LED_COUNT
        invariant
            index <= LED_COUNT,
            *leds == *old(leds),
            forall|k: usize| k < index ==> !led_area_of(k).holds(x, y),
        decreases LED_COUNT - index,
    {
        if led_area(index).contains(x, y) {
            let lit = !leds[index];
            leds[index] = lit;
            return Some(Update::LED(index, lit));
        }
        index += 1;
    }
    None
}

/// A key as the text entry sees it.
#[derive(Debug, Clone, Copy, PartialEq, Eq)]
pub enum Key {
    /// A character was typed.
    Char(char),
    /// The last character is taken back.
    Back,
}

/// The capital of a small ASCII letter; any other character itself.
pub open spec fn upper_of(c: char) -> char {
    if 'a' <= c <= 'z' {
        ((c as u32) - 32) as char
    } else {
        c
    }
}

/// The text after `key`: a character that the display can show is appended
/// as a capital while there is room for it; any other character changes
/// nothing; taking back removes the last character, if there is one.
pub open spec fn text_after(text: Seq<char>, key: Key) -> Seq<char> {
    match key {
        Key::Char(c) => if is_printable(c) && text.len() < MAX_TEXT_LEN {
            text.push(upper_of(c))
        } else {
            text
        },
        Key::Back => if text.len() > 0 {
            text.drop_last()
        } else {
            text
        },
    }
}

/// The capital of a small ASCII letter; any other character itself.
pub fn upper(c: char) -> (capital: char)
    ensures
        capital == upper_of(c),
{
    if 'a' <= c && c <= 'z' {
        ((c as u8) - 32) as char
    } else {
        c
    }
}

/// Applies `key` to the text being entered.
pub fn press_key(text: &mut String, key: Key)
    ensures
        final(text)@ == text_after(old(text)@, key),
{
    match key {
        Key::Char(c) => {
            if printable(c) && text.as_str().unicode_len() < MAX_TEXT_LEN {
                text.push(upper(c));
            }
        },
        Key::Back => {
            let _ = text.pop();
        },
    }
}

/// The three click areas lie apart: no click falls on two LEDs.
pub proof fn lemma_led_areas_disjoint(x: usize, y: usize, i: usize, j: usize)
    requires
        i < LED_COUNT,
        j < LED_COUNT,
        led_area_of(i).holds(x, y),
        led_area_of(j).holds(x, y),
    ensures
        i == j,
        led_hit(x, y) == Some(i),
{
}

/// Text that is entered key by key stays fit for the display: from a text
/// of at most 84 characters that the display can show, every key leads to
/// such a text again.
pub proof fn lemma_entered_text_stays_valid(text: Seq<char>, key: Key)
    requires
        text.len() <= MAX_TEXT_LEN,
        forall|i: int| 0 <= i < text.len() ==> is_printable(#[trigger] text[i]),
    ensures
        text_after(text, key).len() <= MAX_TEXT_LEN,
        forall|i: int|
            0 <= i < text_after(text, key).len() ==> is_printable(#[trigger] text_after(text, key)[i]),
{
}

} // verus!
