//! Semantic events and widget state bits.
//!
//! The display backend reports events as numeric codes.  This module decodes
//! those codes into a closed set of semantic events: the decoding is total,
//! every code outside the table resolves to `UNKNOWN` rather than failing.
//! It also models the per-object state word (checked, disabled, ...) as a bit
//! set, with one named bit per state.

use vstd::prelude::*;

verus! {

/// The closed set of semantic events an application handler can receive.
#[derive(Clone, Copy, Debug, PartialEq, Eq, Structural)]
#[allow(non_camel_case_types)]
pub enum LvglEvent {
    PRESSED,
    PRESSING,
    PRESS_LOST,
    SHORT_CLICKED,
    LONG_PRESSED,
    LONG_PRESSED_REPEAT,
    CLICKED,
    RELEASED,
    FOCUSED,
    DEFOCUSED,
    LEAVE,
    VALUE_CHANGED,
    UNKNOWN,
}

/// True for the native event codes that have a semantic event of their own.
pub open spec fn spec_mapped_code(code: u32) -> bool {
    1 <= code <= 8 || code == 14 || code == 15 || code == 16 || code == 28
}

/// The semantic event for a native event code; codes outside the table give
/// `UNKNOWN`.
pub open spec fn spec_event_of(code: u32) -> LvglEvent {
    if code == 1 {
        LvglEvent::PRESSED
    } else if code == 2 {
        LvglEvent::PRESSING
    } else if code == 3 {
        LvglEvent::PRESS_LOST
    } else if code == 4 {
        LvglEvent::SHORT_CLICKED
    } else if code == 5 {
        LvglEvent::LONG_PRESSED
    } else if code == 6 {
        LvglEvent::LONG_PRESSED_REPEAT
    } else if code == 7 {
        LvglEvent::CLICKED
    } else if code == 8 {
        LvglEvent::RELEASED
    } else if code == 14 {
        LvglEvent::FOCUSED
    } else if code == 15 {
        LvglEvent::DEFOCUSED
    } else if code == 16 {
        LvglEvent::LEAVE
    } else if code == 28 {
        LvglEvent::VALUE_CHANGED
    } else {
        LvglEvent::UNKNOWN
    }
}

impl LvglEvent {
    /// Decode a native event code into its semantic event.
    pub fn from(code: u32) -> (r: Self)
        ensures
            r == spec_event_of(code),
    {
        match code {
            1 => Self::PRESSED,
            2 => Self::PRESSING,
            3 => Self::PRESS_LOST,
            4 => Self::SHORT_CLICKED,
            5 => Self::LONG_PRESSED,
            6 => Self::LONG_PRESSED_REPEAT,
            7 => Self::CLICKED,
            8 => Self::RELEASED,
            14 => Self::FOCUSED,
            15 => Self::DEFOCUSED,
            16 => Self::LEAVE,
            28 => Self::VALUE_CHANGED,
            _ => Self::UNKNOWN,
        }
    }
}

/// The event decoding is total: every native code yields a semantic event,
/// and every code outside the mapped table yields `UNKNOWN` rather than an
/// error, while the mapped codes never yield `UNKNOWN`.
pub proof fn lemma_event_decoding_total(code: u32)
    ensures
        !spec_mapped_code(code) ==> spec_event_of(code) == LvglEvent::UNKNOWN,
        spec_mapped_code(code) ==> spec_event_of(code) != LvglEvent::UNKNOWN,
{
}

/// The empty object state word: no state bit at all.
pub const LV_STATE_DEFAULT: u16 = 0x0000;

/// Bit of the object state word for the checked state.
pub const LV_STATE_CHECKED: u16 = 0x0001;

/// Bit of the object state word for the focused state.
pub const LV_STATE_FOCUSED: u16 = 0x0002;

/// Bit of the object state word for the focused-by-key state.
pub const LV_STATE_FOCUS_KEY: u16 = 0x0004;

/// Bit of the object state word for the edited state.
pub const LV_STATE_EDITED: u16 = 0x0008;

/// Bit of the object state word for the hovered state.
pub const LV_STATE_HOVERED: u16 = 0x0010;

/// Bit of the object state word for the pressed state.
pub const LV_STATE_PRESSED: u16 = 0x0020;

/// Bit of the object state word for the scrolled state.
pub const LV_STATE_SCROLLED: u16 = 0x0040;

/// Bit of the object state word for the disabled state.
pub const LV_STATE_DISABLED: u16 = 0x0080;

/// Bit of the object state word for the first user-defined state.
pub const LV_STATE_USER_1: u16 = 0x1000;

/// Bit of the object state word for the second user-defined state.
pub const LV_STATE_USER_2: u16 = 0x2000;

/// Bit of the object state word for the third user-defined state.
pub const LV_STATE_USER_3: u16 = 0x4000;

/// Bit of the object state word for the fourth user-defined state.
pub const LV_STATE_USER_4: u16 = 0x8000;

/// A named object state, one per bit of the state word.  `DEFAULT` and
/// `UNKNOWN` name no bit at all.
#[derive(Clone, Copy, Debug, PartialEq, Eq, Structural)]
#[allow(non_camel_case_types)]
pub enum LvglState {
    DEFAULT,
    CHECKED,
    FOCUSED,
    FOCUS_KEY,
    EDITED,
    HOVERED,
    PRESSED,
    SCROLLED,
    DISABLED,
    USER_1,
    USER_2,
    USER_3,
    USER_4,
    UNKNOWN,
}

/// The state-word bit that a named state stands for.
pub open spec fn spec_state_bit(state: LvglState) -> u16 {
    match state {
        LvglState::CHECKED => LV_STATE_CHECKED,
        LvglState::FOCUSED => LV_STATE_FOCUSED,
        LvglState::FOCUS_KEY => LV_STATE_FOCUS_KEY,
        LvglState::EDITED => LV_STATE_EDITED,
        LvglState::HOVERED => LV_STATE_HOVERED,
        LvglState::PRESSED => LV_STATE_PRESSED,
        LvglState::SCROLLED => LV_STATE_SCROLLED,
        LvglState::DISABLED => LV_STATE_DISABLED,
        LvglState::USER_1 => LV_STATE_USER_1,
        LvglState::USER_2 => LV_STATE_USER_2,
        LvglState::USER_3 => LV_STATE_USER_3,
        LvglState::USER_4 => LV_STATE_USER_4,
        _ => LV_STATE_DEFAULT,
    }
}

impl LvglState {
    /// The raw bit of this named state in the object state word.
    pub fn get_raw(&self) -> (r: u16)
        ensures
            r == spec_state_bit(*self),
    {
        match self {
            LvglState::CHECKED => LV_STATE_CHECKED,
            LvglState::FOCUSED => LV_STATE_FOCUSED,
            LvglState::FOCUS_KEY => LV_STATE_FOCUS_KEY,
            LvglState::EDITED => LV_STATE_EDITED,
            LvglState::HOVERED => LV_STATE_HOVERED,
            LvglState::PRESSED => LV_STATE_PRESSED,
            LvglState::SCROLLED => LV_STATE_SCROLLED,
            LvglState::DISABLED => LV_STATE_DISABLED,
            LvglState::USER_1 => LV_STATE_USER_1,
            LvglState::USER_2 => LV_STATE_USER_2,
            LvglState::USER_3 => LV_STATE_USER_3,
            LvglState::USER_4 => LV_STATE_USER_4,
            _ => LV_STATE_DEFAULT,
        }
    }
}

/// A snapshot of a widget's state word, as read back from the object tree.
#[derive(Clone, Copy, Debug, PartialEq, Eq, Structural)]
pub struct LvglStates {
    /// The raw state word.
    pub handle: u16,
}

/// True when the snapshot `word` holds the bit of the named `state`.
pub open spec fn spec_state_set(word: u16, state: LvglState) -> bool {
    spec_state_bit(state) & word != 0
}

impl LvglStates {
    /// True when this snapshot holds the bit of the named state.  For
    /// `DEFAULT` and `UNKNOWN`, whose bit is zero, the answer is always
    /// false.
    pub fn check(&self, state: LvglState) -> (r: bool)
        ensures
            r == spec_state_set(self.handle, state),
    {
        if (state.get_raw() & self.handle) != 0 {
            true
        } else {
            false
        }
    }
}

} // verus!
