//! Outbound updates, their validation and their wire encoding, and the device
//! manager that tracks the panel's buttons.

use vstd::prelude::*;
use vstd::string::StrSliceExecFns;
use crate::error::{CommLibError, CommLibResult, ErrorView};
use crate::positions::{
    lemma_positions_ascend, lemma_positions_exact, lemma_positions_none, positions_below,
};
use crate::text::{is_printable, printable};

verus! {

/// Logical index of the green LED.
pub const LED_GREEN: usize = 0;
/// Logical index of the blue LED.
pub const LED_BLUE: usize = 1;
/// Logical index of the red LED.
pub const LED_RED: usize = 2;

/// The display holds at most this many characters.
pub const MAX_TEXT_LEN: usize = 84;

/// Inbound command byte: a button went down.
pub const COMMAND_BUTTON_PRESSED: u8 = 0x01;
/// Inbound command byte: a button came up.
pub const COMMAND_BUTTON_RELEASED: u8 = 0x02;
/// Outbound command byte: switch an LED.
pub const COMMAND_SET_LED: u8 = 0x03;
/// Outbound command byte: replace the display's text.
pub const COMMAND_SET_TEXT: u8 = 0x04;

/// Wire code of the blue LED.
pub const COMMAND_LED_BLUE: u8 = 0;
/// Wire code of the red LED.
pub const COMMAND_LED_RED: u8 = 1;
/// Wire code of the green LED.
pub const COMMAND_LED_GREEN: u8 = 2;
/// Wire code for "off".
pub const COMMAND_LED_OFF: u8 = 0;
/// Wire code for "on".
pub const COMMAND_LED_ON: u8 = 1;

/// The panel has this many buttons.
pub const BUTTON_COUNT: usize = 4;

/// A change to show on the panel.
#[derive(Debug, Clone, PartialEq, Eq)]
pub enum Update {
    /// Switch the LED with the given logical index on or off.
    LED(usize, bool),
    /// Replace the display's content.
    Text(String),
}

/// The condition "the character of `text` at this position cannot be shown".
pub open spec fn unprintable_in(text: Seq<char>) -> spec_fn(int) -> bool {
    |i: int| !is_printable(text[i])
}

/// All positions at which `text` holds a character the display cannot show,
/// in ascending order.
pub open spec fn offending(text: Seq<char>) -> Seq<usize> {
    positions_below(text.len(), unprintable_in(text))
}

/// The wire code of the LED with logical index `index`. The wire order is
/// not the logical order: green (0) is 2, blue (1) is 0, red (2) is 1.
pub open spec fn led_channel_code(index: usize) -> u8 {
    if index == LED_GREEN {
        COMMAND_LED_GREEN
    } else if index == LED_BLUE {
        COMMAND_LED_BLUE
    } else {
        COMMAND_LED_RED
    }
}

/// The wire code of an LED state.
pub open spec fn state_code(on: bool) -> u8 {
    if on {
        COMMAND_LED_ON
    } else {
        COMMAND_LED_OFF
    }
}

/// The frame that sets LED `index` to `on`.
pub open spec fn led_frame(index: usize, on: bool) -> Seq<u8> {
    seq![COMMAND_SET_LED, led_channel_code(index), state_code(on)]
}

/// The low eight bits of a character's code. For a character the display can
/// show, this is its ASCII code.
pub open spec fn low_byte(c: char) -> u8 {
    (c as u32 % 256) as u8
}

/// The frame that shows `text`: the command byte, then one byte per
/// character, its low eight bits.
pub open spec fn text_frame(text: Seq<char>) -> Seq<u8> {
    seq![COMMAND_SET_TEXT] + Seq::new(text.len(), |i: int| low_byte(text[i]))
}

/// Reads an LED frame back: the logical index and the state it sets, if
/// `frame` is a well-formed LED frame.
pub open spec fn decode_led_frame(frame: Seq<u8>) -> Option<(usize, bool)> {
    if frame.len() == 3 && frame[0] == COMMAND_SET_LED && frame[1] <= 2 && frame[2] <= 1 {
        let index = if frame[1] == COMMAND_LED_GREEN {
            LED_GREEN
        } else if frame[1] == COMMAND_LED_BLUE {
            LED_BLUE
        } else {
            LED_RED
        };
        Some((index, frame[2] == COMMAND_LED_ON))
    } else {
        None
    }
}

impl Update {
    /// Why the update may not be sent, if there is a reason: an LED index
    /// above 2; a text of more than 84 characters; otherwise a text with
    /// characters outside printable ASCII, all of whose positions are named.
    pub open spec fn rejection(&self) -> Option<ErrorView> {
        match *self {
            Update::LED(index, _) => if index > 2 {
                Some(ErrorView::InvalidLed(index))
            } else {
                None
            },
            Update::Text(text) => if text@.len() > MAX_TEXT_LEN {
                Some(ErrorView::TooLong)
            } else if offending(text@).len() > 0 {
                Some(ErrorView::NotAscii(offending(text@)))
            } else {
                None
            },
        }
    }

    /// Whether the update may be sent.
    pub open spec fn is_valid(&self) -> bool {
        self.rejection() is None
    }

    /// Checks that the update may be sent to the panel.
    pub fn validate(&self) -> (r: CommLibResult<()>)
        ensures
            r is Ok <==> self.is_valid(),
            r matches Err(e) ==> self.rejection() == Some(e@),
    {
        match self {
            Update::LED(index, _) => {
                if *index > 2 {
                    return Err(CommLibError::InvalidLed(*index));
                }
            },
            Update::Text(text) => {
                let chars = text.as_str();
                let len = chars.unicode_len();
                if len > MAX_TEXT_LEN {
                    return Err(CommLibError::TooLong);
                }
                let mut invalids: Vec<usize> = Vec::new();
                let mut i: usize = 0;
                while i < len
                    invariant
                        i <= len,
                        len == chars@.len(),
                        invalids@ == positions_below(i as nat, unprintable_in(chars@)),
                    decreases len - i,
                {
                    if !printable(chars.get_char(i)) {
                        invalids.push(i);
                    }
                    i += 1;
                }
                if invalids.len() > 0 {
                    return Err(CommLibError::NotAscii(invalids));
                }
            },
        }
        Ok(())
    }

    /// The bytes that carry the update to the panel.
    pub open spec fn frame(&self) -> Seq<u8> {
        match *self {
            Update::LED(index, on) => led_frame(index, on),
            Update::Text(text) => text_frame(text@),
        }
    }

    /// The wire code of the LED this update addresses.
    pub fn get_command_led(&self) -> (code: u8)
        requires
            *self matches Update::LED(index, _) && index <= 2,
        ensures
            *self matches Update::LED(index, _) && code == led_channel_code(index),
    {
        match self {
            Update::LED(index, _) => {
                if *index == LED_GREEN {
                    COMMAND_LED_GREEN
                } else if *index == LED_BLUE {
                    COMMAND_LED_BLUE
                } else {
                    COMMAND_LED_RED
                }
            },
            Update::Text(_) => COMMAND_LED_RED,
        }
    }

    /// The wire code of the state this update sets its LED to.
    pub fn get_command_led_state(&self) -> (code: u8)
        requires
            self is LED,
        ensures
            *self matches Update::LED(_, on) && code == state_code(on),
    {
        match self {
            Update::LED(_, on) => {
                if *on {
                    COMMAND_LED_ON
                } else {
                    COMMAND_LED_OFF
                }
            },
            Update::Text(_) => COMMAND_LED_OFF,
        }
    }

    /// Serialises a valid update into its frame.
    fn encode(&self) -> (bytes: Vec<u8>)
        requires
            self.is_valid(),
        ensures
            bytes@ == self.frame(),
    {
        let mut bytes: Vec<u8> = Vec::new();
        match self {
            Update::LED(_, _) => {
                bytes.push(COMMAND_SET_LED);
                bytes.push(self.get_command_led());
                bytes.push(self.get_command_led_state());
            },
            Update::Text(text) => {
                let chars = text.as_str();
                let len = chars.unicode_len();
                bytes.push(COMMAND_SET_TEXT);
                let mut i: usize = 0;
                while i < len
                    invariant
                        i <= len,
                        len == chars@.len(),
                        bytes@ == seq![COMMAND_SET_TEXT] + Seq::new(
                            i as nat,
                            |k: int| low_byte(chars@[k]),
                        ),
                    decreases len - i,
                {
                    let c = chars.get_char(i);
                    bytes.push((c as u32 % 256) as u8);
                    i += 1;
                }
            },
        }
        bytes
    }
}

/// What the serial port reported to the caller, handed to [`DeviceManager::recv`].
#[derive(Debug, Clone, PartialEq, Eq)]
pub enum PortEvent {
    /// The port holds this many unread bytes.
    Pending(u32),
    /// The count of unread bytes could not be had; the detail.
    QueryFailed(String),
    /// Two bytes were read: the command and the button it names.
    Frame(u8, u8),
    /// Two bytes were due but could not be read; the detail.
    ReadFailed(String),
}

impl PortEvent {
    /// The event is one the protocol knows: a frame that reports a press or a
    /// release names one of the panel's four buttons.
    pub open spec fn is_in_protocol(&self) -> bool {
        *self matches PortEvent::Frame(command, button) ==> (command == COMMAND_BUTTON_PRESSED
            || command == COMMAND_BUTTON_RELEASED) ==> button < BUTTON_COUNT
    }

    /// Whether the event is one the protocol knows.
    pub fn in_protocol(&self) -> (known: bool)
        ensures
            known == self.is_in_protocol(),
    {
        match self {
            PortEvent::Frame(command, button) => {
                (*command != COMMAND_BUTTON_PRESSED && *command != COMMAND_BUTTON_RELEASED)
                    || (*button as usize) < BUTTON_COUNT
            },
            _ => true,
        }
    }
}

/// What the caller does after [`DeviceManager::recv`].
#[derive(Debug, Clone, PartialEq, Eq)]
pub enum RecvAction {
    /// Read exactly two bytes from the port and hand them back as a frame.
    ReadFrame,
    /// Nothing more to do: receiving succeeded.
    Done,
    /// The frame's command is not known; report it and go on. Receiving succeeded.
    UnknownCommand(u8, u8),
    /// Receiving failed with this error.
    Fail(CommLibError),
}

/// The protocol state of the panel: which buttons are held down.
///
/// The manager performs no I/O itself. [`DeviceManager::send`] yields the
/// bytes to write, and [`DeviceManager::recv`] consumes what the port
/// reported and says what to do next.
#[derive(Debug, Clone)]
pub struct DeviceManager {
    buttons: [bool; 4],
}

impl View for DeviceManager {
    type V = Seq<bool>;

    /// The button states, by button id; `true` is pressed.
    closed spec fn view(&self) -> Seq<bool> {
        self.buttons@
    }
}

impl DeviceManager {
    /// A manager for a panel none of whose buttons is pressed.
    pub fn new() -> (manager: Self)
        ensures
            manager@ == seq![false, false, false, false],
    {
        let manager = DeviceManager { buttons: [false, false, false, false] };
        assert(manager.buttons@ =~= seq![false, false, false, false]);
        manager
    }

    /// Validates `update` and yields the frame to write to the port. An
    /// invalid update yields the validation error and no frame.
    pub fn send(&self, update: Update) -> (r: CommLibResult<Vec<u8>>)
        ensures
            r is Ok <==> update.is_valid(),
            r matches Ok(bytes) ==> bytes@ == update.frame(),
            r matches Err(e) ==> update.rejection() == Some(e@),
    {
        match update.validate() {
            Ok(()) => Ok(update.encode()),
            Err(e) => Err(e),
        }
    }

    /// Turns the outcome of writing a frame into the result of sending: a
    /// failed write is a [`CommLibError::SendError`] with the same detail.
    pub fn sent(written: Result<usize, String>) -> (r: CommLibResult<()>)
        ensures
            written is Ok <==> r is Ok,
            written matches Err(detail) ==> r matches Err(e) && e@ == ErrorView::SendError(
                detail@,
            ),
    {
        match written {
            Ok(_) => Ok(()),
            Err(detail) => Err(CommLibError::SendError(detail)),
        }
    }

    /// The button states after `event`, given the states `buttons` before it.
    /// Only a frame with the pressed or the released command changes them.
    pub open spec fn buttons_after(buttons: Seq<bool>, event: PortEvent) -> Seq<bool> {
        match event {
            PortEvent::Frame(command, button) => if command == COMMAND_BUTTON_PRESSED {
                buttons.update(button as int, true)
            } else if command == COMMAND_BUTTON_RELEASED {
                buttons.update(button as int, false)
            } else {
                buttons
            },
            _ => buttons,
        }
    }

    /// One step of receiving.
    ///
    /// Begin with [`PortEvent::Pending`] or [`PortEvent::QueryFailed`]. With
    /// fewer than two unread bytes nothing is read. With two or more the
    /// answer is [`RecvAction::ReadFrame`]: read one frame and call again with
    /// it. A press or release frame names one of the four buttons.
    pub fn recv(&mut self, event: PortEvent) -> (action: RecvAction)
        requires
            event.is_in_protocol(),
        ensures
            final(self)@ == Self::buttons_after(old(self)@, event),
            final(self)@.len() == 4,
            match event {
                PortEvent::Pending(count) => if count >= 2 {
                    action == RecvAction::ReadFrame
                } else {
                    action == RecvAction::Done
                },
                PortEvent::QueryFailed(detail) => action matches RecvAction::Fail(e) && e@
                    == ErrorView::ReadError(detail@),
                PortEvent::Frame(command, button) => if command == COMMAND_BUTTON_PRESSED || command
                    == COMMAND_BUTTON_RELEASED {
                    action == RecvAction::Done
                } else {
                    action == RecvAction::UnknownCommand(command, button)
                },
                PortEvent::ReadFailed(detail) => action matches RecvAction::Fail(e) && e@
                    == ErrorView::ReadError(detail@),
            },
    {
        match event {
            PortEvent::Pending(count) => {
                if count > 1 {
                    RecvAction::ReadFrame
                } else {
                    RecvAction::Done
                }
            },
            PortEvent::QueryFailed(detail) => RecvAction::Fail(CommLibError::ReadError(detail)),
            PortEvent::Frame(command, button) => {
                if command == COMMAND_BUTTON_PRESSED {
                    self.buttons[button as usize] = true;
                    RecvAction::Done
                } else if command == COMMAND_BUTTON_RELEASED {
                    self.buttons[button as usize] = false;
                    RecvAction::Done
                } else {
                    RecvAction::UnknownCommand(command, button)
                }
            },
            PortEvent::ReadFailed(detail) => RecvAction::Fail(CommLibError::ReadError(detail)),
        }
    }

    /// The last known state of the four buttons, by button id.
    pub fn get_button_state(&self) -> (state: [bool; 4])
        ensures
            state@ == self@,
    {
        self.buttons
    }
}

/// A press frame marks its button as pressed, a release frame that follows
/// marks it as released again, and neither touches another button.
pub proof fn lemma_press_then_release(buttons: Seq<bool>, button: u8)
    requires
        buttons.len() == BUTTON_COUNT,
        button < BUTTON_COUNT,
    ensures
        ({
            let pressed = DeviceManager::buttons_after(
                buttons,
                PortEvent::Frame(COMMAND_BUTTON_PRESSED, button),
            );
            let released = DeviceManager::buttons_after(
                pressed,
                PortEvent::Frame(COMMAND_BUTTON_RELEASED, button),
            );
            &&& pressed[button as int]
            &&& !released[button as int]
            &&& forall|other: int|
                0 <= other < BUTTON_COUNT && other != button ==> pressed[other] == buttons[other]
                    && released[other] == buttons[other]
        }),
{
}

/// Only a frame changes the buttons: a count of unread bytes, whatever it
/// is, and a failure leave them as they were.
pub proof fn lemma_only_frames_change_buttons(buttons: Seq<bool>, event: PortEvent)
    requires
        !(event is Frame),
    ensures
        DeviceManager::buttons_after(buttons, event) == buttons,
{
}

/// A text that is short enough and holds only characters the display can
/// show is valid. Its frame is one byte longer than the text: the command
/// byte, then the code of each character.
pub proof fn lemma_printable_text_is_valid(update: Update)
    requires
        update matches Update::Text(text) && text@.len() <= MAX_TEXT_LEN && forall|i: int|
            0 <= i < text@.len() ==> is_printable(#[trigger] text@[i]),
    ensures
        update.is_valid(),
        update.frame().len() == 1 + update->Text_0@.len(),
        update.frame()[0] == COMMAND_SET_TEXT,
        forall|i: int|
            0 <= i < update->Text_0@.len() ==> #[trigger] update.frame()[i + 1] as u32
                == update->Text_0@[i] as u32,
{
    let text = update->Text_0@;
    lemma_positions_none(text.len(), unprintable_in(text));
}

/// A text of more than 84 characters is too long, whatever it holds.
pub proof fn lemma_long_text_is_too_long(update: Update)
    requires
        update matches Update::Text(text) && text@.len() > MAX_TEXT_LEN,
    ensures
        update.rejection() == Some(ErrorView::TooLong),
{
}

/// A text that is short enough and holds a character the display cannot
/// show is rejected with the positions of all such characters, and of no
/// others, each once and in ascending order.
pub proof fn lemma_unprintable_text_is_rejected(update: Update)
    requires
        update matches Update::Text(text) && text@.len() <= MAX_TEXT_LEN && exists|i: int|
            0 <= i < text@.len() && !is_printable(#[trigger] text@[i]),
    ensures
        update.rejection() == Some(ErrorView::NotAscii(offending(update->Text_0@))),
        forall|position: usize| #[trigger]
            offending(update->Text_0@).contains(position) <==> position < update->Text_0@.len()
                && !is_printable(update->Text_0@[position as int]),
        forall|j: int, k: int|
            0 <= j < k < offending(update->Text_0@).len() ==> offending(update->Text_0@)[j]
                < offending(update->Text_0@)[k],
{
    let text = update->Text_0@;
    let witness = choose|i: int| 0 <= i < text.len() && !is_printable(#[trigger] text[i]);
    assert(unprintable_in(text)(witness));
    lemma_positions_none(text.len(), unprintable_in(text));
    assert forall|position: usize| #[trigger]
        offending(text).contains(position) <==> position < text.len() && !is_printable(
            text[position as int],
        ) by {
        lemma_positions_exact(text.len(), unprintable_in(text), position);
    }
    assert forall|j: int, k: int| 0 <= j < k < offending(text).len() implies offending(text)[j]
        < offending(text)[k] by {
        lemma_positions_ascend(text.len(), unprintable_in(text), j, k);
    }
}

/// An LED index above 2 is rejected, and named in the error.
pub proof fn lemma_high_led_is_invalid(index: usize, on: bool)
    requires
        index > 2,
    ensures
        Update::LED(index, on).rejection() == Some(ErrorView::InvalidLed(index)),
{
}

/// Decoding the frame of a valid LED update gives back its LED and state.
pub proof fn lemma_led_frame_roundtrip(index: usize, on: bool)
    requires
        index <= 2,
    ensures
        Update::LED(index, on).is_valid(),
        Update::LED(index, on).frame() == seq![
            COMMAND_SET_LED,
            led_channel_code(index),
            state_code(on),
        ],
        decode_led_frame(Update::LED(index, on).frame()) == Some((index, on)),
{
}

} // verus!
