//! What the user can do, and which operation of the state each input stands for.

use vstd::prelude::*;
use crate::app::App;
use crate::geometry::Rect;
use crate::nav::Direction;
use crate::store::StoreError;

verus! {

/// A key as the terminal reports it.
#[derive(Clone, Copy, Debug, PartialEq, Eq, Structural)]
pub enum Key {
    Char(char),
    Ctrl(char),
    Down,
    Up,
    PageDown,
    PageUp,
    Backspace,
    Left,
    Right,
    /// Any key that the browser has no use for.
    Other,
}

/// A mouse button as the terminal reports it.
#[derive(Clone, Copy, Debug, PartialEq, Eq, Structural)]
pub enum Button {
    Left,
    WheelUp,
    WheelDown,
    /// Any button that the browser has no use for.
    Other,
}

/// What the terminal reports: a key, a button pressed at a column and a line,
/// or something that the browser has no use for.
#[derive(Clone, Copy, Debug, PartialEq, Eq, Structural)]
pub enum TermEvent {
    Key(Key),
    Press(Button, u16, u16),
    Other,
}

/// The way the wheel was turned.
#[derive(Clone, Copy, Debug, PartialEq, Eq, Structural)]
pub enum Wheel {
    Up,
    Down,
}

/// What the user asked for.
#[derive(Clone, Copy, Debug, PartialEq, Eq, Structural)]
pub enum InputEvent {
    TextChar(char),
    Submit,
    Backspace,
    KeyDown,
    KeyUp,
    PageDown,
    PageUp,
    MouseWheel(Wheel),
    /// A click of the left button at a column and a line.
    MouseClick(u16, u16),
    NextDictionary,
    PrevDictionary,
    Copy,
    Quit,
}

/// What is left to do for the caller once the state has taken an input in.
#[derive(Debug)]
pub enum Action {
    /// Draw the state again.
    Redraw,
    /// Put the text on the clipboard.
    Copy(String),
    /// Leave the event loop.
    Quit,
    /// Tell the user that the dictionary could not be loaded.
    SwitchFailed(StoreError),
}

/// The number of places that the selection moves for a page.
pub const PAGE: i32 = 10;

/// What the user asks for with `event`, if anything.
pub open spec fn meaning(event: TermEvent) -> Option<InputEvent> {
    match event {
        TermEvent::Key(Key::Char(c)) => if c == '\n' {
            Some(InputEvent::Submit)
        } else {
            Some(InputEvent::TextChar(c))
        },
        TermEvent::Key(Key::Ctrl(c)) => if c == 'c' {
            Some(InputEvent::Quit)
        } else if c == 'y' {
            Some(InputEvent::Copy)
        } else {
            None
        },
        TermEvent::Key(Key::Down) => Some(InputEvent::KeyDown),
        TermEvent::Key(Key::Up) => Some(InputEvent::KeyUp),
        TermEvent::Key(Key::PageDown) => Some(InputEvent::PageDown),
        TermEvent::Key(Key::PageUp) => Some(InputEvent::PageUp),
        TermEvent::Key(Key::Backspace) => Some(InputEvent::Backspace),
        TermEvent::Key(Key::Right) => Some(InputEvent::NextDictionary),
        TermEvent::Key(Key::Left) => Some(InputEvent::PrevDictionary),
        TermEvent::Key(Key::Other) => None,
        TermEvent::Press(Button::WheelDown, _, _) => Some(InputEvent::MouseWheel(Wheel::Down)),
        TermEvent::Press(Button::WheelUp, _, _) => Some(InputEvent::MouseWheel(Wheel::Up)),
        TermEvent::Press(Button::Left, x, y) => Some(InputEvent::MouseClick(x, y)),
        TermEvent::Press(Button::Other, _, _) => None,
        TermEvent::Other => None,
    }
}

/// Tells what the user asks for with `event`.
pub fn classify(event: TermEvent) -> (asked: Option<InputEvent>)
    ensures
        asked == meaning(event),
{
    match event {
        TermEvent::Key(key) => match key {
            Key::Char('\n') => Some(InputEvent::Submit),
            Key::Char(c) => Some(InputEvent::TextChar(c)),
            Key::Ctrl('c') => Some(InputEvent::Quit),
            Key::Ctrl('y') => Some(InputEvent::Copy),
            Key::Down => Some(InputEvent::KeyDown),
            Key::Up => Some(InputEvent::KeyUp),
            Key::PageDown => Some(InputEvent::PageDown),
            Key::PageUp => Some(InputEvent::PageUp),
            Key::Backspace => Some(InputEvent::Backspace),
            Key::Right => Some(InputEvent::NextDictionary),
            Key::Left => Some(InputEvent::PrevDictionary),
            _ => None,
        },
        TermEvent::Press(button, x, y) => match button {
            Button::WheelDown => Some(InputEvent::MouseWheel(Wheel::Down)),
            Button::WheelUp => Some(InputEvent::MouseWheel(Wheel::Up)),
            Button::Left => Some(InputEvent::MouseClick(x, y)),
            Button::Other => None,
        },
        TermEvent::Other => None,
    }
}

/// Whether `post` and `action` are what `pre` makes of a switch to the
/// neighbouring dictionary: either it was loaded, or the caller is told that
/// it could not be and nothing has changed.
pub open spec fn switched(pre: App, post: App, direction: Direction, action: Action) -> bool {
    ||| {
        &&& action is Redraw
        &&& pre@.dictionaries.len() > 0
        &&& post@.reloads(
            pre@.turned(direction),
            pre@.path_of(pre@.turned(direction).dictionary as int),
        )
        &&& post.store() is Some
    }
    ||| {
        &&& action is SwitchFailed
        &&& post == pre
        &&& pre@.dictionaries.len() == 0 ==> action->SwitchFailed_0 == StoreError::NoSuchDictionary
    }
}

/// Whether `post` and `action` are what `pre` makes of `event`, with the word
/// list drawn in `viewport`. Each input stands for one operation of the state.
pub open spec fn handled(
    pre: App,
    post: App,
    event: InputEvent,
    viewport: Rect,
    action: Action,
) -> bool {
    match event {
        InputEvent::TextChar(c) => {
            &&& action is Redraw
            &&& post@ == pre@.typed(c)
            &&& post.store() == pre.store()
        },
        InputEvent::Backspace => {
            &&& action is Redraw
            &&& post@ == pre@.erased()
            &&& post.store() == pre.store()
        },
        InputEvent::Submit => {
            &&& action is Redraw
            &&& post@.resolves(pre@, true) || post@.resolves(pre@, false)
            &&& post.store() == pre.store()
        },
        InputEvent::KeyDown | InputEvent::MouseWheel(Wheel::Down) => {
            &&& action is Redraw
            &&& post@.refreshes(pre@.moved(1))
            &&& post.store() == pre.store()
        },
        InputEvent::KeyUp | InputEvent::MouseWheel(Wheel::Up) => {
            &&& action is Redraw
            &&& post@.refreshes(pre@.moved(-1))
            &&& post.store() == pre.store()
        },
        InputEvent::PageDown => {
            &&& action is Redraw
            &&& post@.refreshes(pre@.moved(PAGE as int))
            &&& post.store() == pre.store()
        },
        InputEvent::PageUp => {
            &&& action is Redraw
            &&& post@.refreshes(pre@.moved(-PAGE))
            &&& post.store() == pre.store()
        },
        InputEvent::MouseClick(x, y) => {
            &&& action is Redraw
            &&& post.store() == pre.store()
            &&& if viewport.covers(x as int, y as int) {
                post@.refreshes(pre@.clicked(viewport.row_of(y as int), viewport.height as int))
            } else {
                post == pre
            }
        },
        InputEvent::NextDictionary => switched(pre, post, Direction::Next, action),
        InputEvent::PrevDictionary => switched(pre, post, Direction::Prev, action),
        InputEvent::Copy => {
            &&& action matches Action::Copy(text)
            &&& text@ == pre@.definition
            &&& post == pre
        },
        InputEvent::Quit => {
            &&& action is Quit
            &&& post == pre
        },
    }
}

impl App {
    /// Carries out the switch to the neighbouring dictionary that the user
    /// asked for, and says what is left for the caller to do.
    fn turn(&mut self, direction: Direction) -> (action: Action)
        ensures
            final(self)@.wf(),
            switched(*old(self), *final(self), direction, action),
    {
        match self.switch_dictionary(direction) {
            Ok(()) => Action::Redraw,
            Err(e) => Action::SwitchFailed(e),
        }
    }

    /// Takes the input `event` in: carries out the one operation that it
    /// stands for, with the word list drawn in `viewport`, and says what is
    /// left for the caller to do.
    pub fn handle(&mut self, event: InputEvent, viewport: Rect) -> (action: Action)
        ensures
            final(self)@.wf(),
            handled(*old(self), *final(self), event, viewport, action),
    {
        proof {
            use_type_invariant(&*self);
        }
        match event {
            InputEvent::TextChar(c) => {
                self.push_char(c);
                Action::Redraw
            },
            InputEvent::Backspace => {
                self.pop_char();
                Action::Redraw
            },
            InputEvent::Submit => {
                let _ = self.submit_query();
                Action::Redraw
            },
            InputEvent::KeyDown | InputEvent::MouseWheel(Wheel::Down) => {
                self.update_by_index(1);
                Action::Redraw
            },
            InputEvent::KeyUp | InputEvent::MouseWheel(Wheel::Up) => {
                self.update_by_index(-1);
                Action::Redraw
            },
            InputEvent::PageDown => {
                self.update_by_index(PAGE);
                Action::Redraw
            },
            InputEvent::PageUp => {
                self.update_by_index(-PAGE);
                Action::Redraw
            },
            InputEvent::MouseClick(x, y) => {
                if viewport.contains(x, y) {
                    self.select_at(viewport.row_offset(y), viewport.height as i32);
                }
                Action::Redraw
            },
            InputEvent::NextDictionary => self.turn(Direction::Next),
            InputEvent::PrevDictionary => self.turn(Direction::Prev),
            InputEvent::Copy => Action::Copy(self.definition().to_owned()),
            InputEvent::Quit => Action::Quit,
        }
    }
}

} // verus!
