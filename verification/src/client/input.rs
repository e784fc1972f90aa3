//! Keyboard input as the client's logic sees it.
use vstd::prelude::*;

verus! {

/// The keys the client reacts to; every other key is `Other`.
#[derive(Debug, Clone, Copy, PartialEq, Eq, Structural)]
pub enum KeyInput {
    Char(char),
    Left,
    Right,
    Up,
    Down,
    Home,
    End,
    Enter,
    Esc,
    Tab,
    BackTab,
    Other,
}

/// A terminal event: a key event (pressed, repeated or released, with or
/// without the Alt modifier) or anything else (mouse, resize, focus, paste).
#[derive(Debug, Clone, Copy, PartialEq, Eq, Structural)]
pub enum InputEvent {
    Key { code: KeyInput, is_press: bool, alt: bool },
    Other,
}

/// Watches the raw input stream for the exit sequence: `Esc` immediately
/// followed by `y`.
#[derive(Debug)]
pub struct InputReader {
    pub just_pressed_esc: bool,
    pub should_exit: bool,
}

impl InputReader {
    /// A reader that has seen no key yet.
    pub fn new() -> (r: Self)
        ensures
            !r.just_pressed_esc,
            !r.should_exit,
    {
        InputReader { just_pressed_esc: false, should_exit: false }
    }

    /// Takes note of one event; returns whether reading should stop once the
    /// event has been forwarded (the exit sequence has been typed).
    pub fn register_event(&mut self, event: InputEvent) -> (stop: bool)
        ensures
            match event {
                InputEvent::Key { code, .. } => {
                    &&& final(self).should_exit == (old(self).should_exit || (old(
                        self,
                    ).just_pressed_esc && code == KeyInput::Char('y')))
                    &&& final(self).just_pressed_esc == (code == KeyInput::Esc)
                },
                InputEvent::Other => *final(self) == *old(self),
            },
            stop == final(self).should_exit,
    {
        if let InputEvent::Key { code, .. } = event {
            if self.just_pressed_esc && code == KeyInput::Char('y') {
                self.should_exit = true;
            }
            self.just_pressed_esc = code == KeyInput::Esc;
        }
        self.should_exit
    }
}

} // verus!
