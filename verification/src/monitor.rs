//! The monitor's decisions: which keyboard events may have changed the
//! input mode, and which pointer images an input mode calls for.
//!
//! The monitor listens for such events, sends each one through a
//! [`crate::channel`] with a settle delay of [`SETTLE_DELAY_MS`], and sets the
//! pointer images once per delivered signal. Listening, waiting and asking
//! the input method for its mode are the embedding's work.
use crate::cursor::{installable, installs, Cursor};
use vstd::prelude::*;

verus! {

/// The settle delay of the monitor's channel, in milliseconds.
pub const SETTLE_DELAY_MS: u64 = 150;

/// The signal that the input mode may have changed. It carries nothing.
#[derive(Debug, PartialEq, Eq, Clone, Copy, Structural)]
pub struct MayChangeIME;

/// A key, as far as the monitor tells keys apart.
#[derive(Debug, PartialEq, Eq, Clone, Copy, Structural)]
pub enum Key {
    ControlLeft,
    ControlRight,
    ShiftLeft,
    ShiftRight,
    MetaLeft,
    MetaRight,
    /// Any other key.
    Other,
}

/// An input event, as far as the monitor tells events apart.
#[derive(Debug, PartialEq, Eq, Clone, Copy, Structural)]
pub enum EventType {
    KeyPress(Key),
    KeyRelease(Key),
    /// Any other event.
    Other,
}

/// What the monitor reads of the input method's state.
#[derive(Debug, PartialEq, Eq, Clone, Copy, Structural)]
pub struct InputMode {
    /// Whether the input method composes Chinese.
    pub is_cn: bool,
}

/// Whether the key is one of the six modifiers, whose release may switch
/// the input mode.
pub open spec fn is_modifier(key: Key) -> bool {
    ||| key is ControlLeft
    ||| key is ControlRight
    ||| key is ShiftLeft
    ||| key is ShiftRight
    ||| key is MetaLeft
    ||| key is MetaRight
}

/// Watches the pointer images for one input method.
pub struct Monitor {
    cursor: Cursor,
}

impl View for Monitor {
    type V = bool;

    /// Whether the Chinese images are taken to be installed.
    closed spec fn view(&self) -> bool {
        self.cursor@
    }
}

impl Monitor {
    /// Restores the default images and, if that succeeds, starts from them.
    pub fn new<E, F: Fn(u32, &'static str) -> Result<(), E>>(install: &F) -> (r: Result<
        Monitor,
        E,
    >)
        requires
            installable(*install, false),
        ensures
            r matches Ok(monitor) ==> !monitor@ && installs(*install, false, Ok::<(), E>(())),
            r matches Err(e) ==> installs(*install, false, Err::<(), E>(e)),
    {
        match Cursor::new(install) {
            Ok(cursor) => Ok(Monitor { cursor }),
            Err(e) => Err(e),
        }
    }

    /// Whether the Chinese images are taken to be installed.
    pub fn is_cn(&self) -> (is_cn: bool)
        ensures
            is_cn == self@,
    {
        self.cursor.is_cn()
    }

    /// What the keyboard listener sends for an event: the signal, for the
    /// release of a modifier key, and nothing for anything else.
    pub fn listen_keyboard(event: EventType) -> (signal: Option<MayChangeIME>)
        ensures
            signal is Some <==> (event matches EventType::KeyRelease(key) && is_modifier(key)),
    {
        match event {
            EventType::KeyRelease(key) => match key {
                Key::ControlLeft
                | Key::ControlRight
                | Key::ShiftLeft
                | Key::ShiftRight
                | Key::MetaLeft
                | Key::MetaRight => Some(MayChangeIME),
                Key::Other => None,
            },
            _ => None,
        }
    }

    /// Sets the pointer images to fit the input mode. `None` says that the
    /// mode could not be read: nothing happens. In Chinese mode the Chinese
    /// images are shown, as [`Cursor::set_chinesn_cursor`] does it. In any
    /// other mode the default images are installed anew, and what is taken
    /// to be installed does not change. A failed installation is not
    /// reported.
    pub fn set_cursor<E, F: Fn(u32, &'static str) -> Result<(), E>>(
        &mut self,
        mode: Option<InputMode>,
        install: &F,
    )
        requires
            installable(*install, true),
            installable(*install, false),
        ensures
            match mode {
                None => final(self)@ == old(self)@,
                Some(mode) => if mode.is_cn {
                    if old(self)@ {
                        final(self)@
                    } else {
                        exists|r: Result<(), E>|
                            #[trigger] installs(*install, true, r) && final(self)@ == r is Ok
                    }
                } else {
                    &&& final(self)@ == old(self)@
                    &&& exists|r: Result<(), E>| #[trigger] installs(*install, false, r)
                },
            },
    {
        if let Some(mode) = mode {
            if mode.is_cn {
                let _ = self.cursor.set_chinesn_cursor(install);
            } else {
                let _ = Cursor::reset_cursor(install);
            }
        }
    }
}

} // verus!
