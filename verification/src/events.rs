//! User-interface events, and how they are made from what the window system
//! reports.
//!
//! The window system reports the pointer's position only when the pointer
//! moves, so a button event takes its position from an [`EventContext`],
//! which the caller owns and hands over with every report. `P` is the type of
//! one coordinate; the library only passes coordinates on.

use vstd::prelude::*;

verus! {

/// A button of a pointing device.
#[derive(Debug, Clone, Copy, PartialEq, Eq, Structural)]
pub enum MouseButton {
    Left,
    Right,
    Middle,
    Back,
    Forward,
    Other(u16),
}

/// Whether a button or key went down or up.
#[derive(Debug, Clone, Copy, PartialEq, Eq, Structural)]
pub enum ElementState {
    Pressed,
    Released,
}

/// A key, named by its place on the keyboard: the escape key, or another
/// key under the number that the caller gives it.
#[derive(Debug, Clone, Copy, PartialEq, Eq, Structural)]
pub enum KeyCode {
    Escape,
    Other(u32),
}

/// The key of a keyboard report: one with a code, or one that the window
/// system could not identify.
#[derive(Debug, Clone, Copy, PartialEq, Eq, Structural)]
pub enum PhysicalKey {
    Code(KeyCode),
    Unidentified,
}

/// What the window system reports about a window, as far as the library
/// reads it.
#[derive(Debug, PartialEq)]
pub enum WindowEvent<P> {
    CursorMoved { x: P, y: P },
    MouseInput { button: MouseButton, state: ElementState },
    KeyboardInput { physical_key: PhysicalKey, state: ElementState },
    Resized { width: u32, height: u32 },
    CloseRequested,
    CursorEntered,
    CursorLeft,
    RedrawRequested,
    /// Any other report.
    Other,
}

/// A user-interface event.
#[non_exhaustive]
#[derive(Debug, PartialEq)]
pub enum Event<P> {
    MouseMove { x: P, y: P },
    MouseDown { button: MouseButton, x: P, y: P },
    MouseUp { button: MouseButton, x: P, y: P },
    MouseEnter,
    MouseLeave,
    KeyDown { key: KeyCode },
    KeyUp { key: KeyCode },
    WindowResize { width: u32, height: u32 },
    WindowClose,
    RequestRedraw,
    UnusedEvent,
}

/// The position at which the pointer was last seen.
#[non_exhaustive]
#[derive(Debug)]
pub struct EventContext<P> {
    x: P,
    y: P,
}

impl<P: Copy> Clone for WindowEvent<P> {
    fn clone(&self) -> (copy: Self)
        ensures
            copy == *self,
    {
        *self
    }
}

impl<P: Copy> Copy for WindowEvent<P> {

}

impl<P: Copy> Clone for Event<P> {
    fn clone(&self) -> (copy: Self)
        ensures
            copy == *self,
    {
        *self
    }
}

impl<P: Copy> Copy for Event<P> {

}

impl<P: Copy> Clone for EventContext<P> {
    fn clone(&self) -> (copy: Self)
        ensures
            copy == *self,
    {
        *self
    }
}

impl<P: Copy> Copy for EventContext<P> {

}

/// The event that the report `event` becomes while the pointer was last seen
/// at `position`.
///
/// A move of the pointer becomes a `MouseMove` to where it went; a button
/// report becomes `MouseDown` or `MouseUp` at `position`; a report of an
/// identified key becomes `KeyDown` or `KeyUp`, and one of an unidentified
/// key, like every report that the library does not read, `UnusedEvent`.
pub open spec fn event_of<P>(position: (P, P), event: WindowEvent<P>) -> Event<P> {
    match event {
        WindowEvent::CursorMoved { x, y } => Event::MouseMove { x, y },
        WindowEvent::MouseInput { button, state } => match state {
            ElementState::Pressed => Event::MouseDown { button, x: position.0, y: position.1 },
            ElementState::Released => Event::MouseUp { button, x: position.0, y: position.1 },
        },
        WindowEvent::KeyboardInput { physical_key, state } => match physical_key {
            PhysicalKey::Code(key) => match state {
                ElementState::Pressed => Event::KeyDown { key },
                ElementState::Released => Event::KeyUp { key },
            },
            PhysicalKey::Unidentified => Event::UnusedEvent,
        },
        WindowEvent::Resized { width, height } => Event::WindowResize { width, height },
        WindowEvent::CloseRequested => Event::WindowClose,
        WindowEvent::CursorEntered => Event::MouseEnter,
        WindowEvent::CursorLeft => Event::MouseLeave,
        WindowEvent::RedrawRequested => Event::RequestRedraw,
        WindowEvent::Other => Event::UnusedEvent,
    }
}

/// Where the pointer was last seen once `event` has happened, if it was last
/// seen at `position` before: a `MouseMove` moves it, nothing else does.
pub open spec fn position_after<P>(position: (P, P), event: Event<P>) -> (P, P) {
    match event {
        Event::MouseMove { x, y } => (x, y),
        _ => position,
    }
}

impl<P: Copy> EventContext<P> {
    /// Where the pointer was last seen.
    pub closed spec fn position(&self) -> (P, P) {
        (self.x, self.y)
    }

    /// A context in which the pointer was last seen at (`x`, `y`).
    pub fn new(x: P, y: P) -> (context: Self)
        ensures
            context.position() == (x, y),
    {
        Self { x, y }
    }

    /// Where the pointer was last seen.
    pub fn coordinates(&self) -> (position: (P, P))
        ensures
            position == self.position(),
    {
        (self.x, self.y)
    }

    /// Follows the pointer: a `MouseMove` sets the position, every other
    /// event leaves it.
    pub fn update(&mut self, event: &Event<P>)
        ensures
            final(self).position() == position_after(old(self).position(), *event),
    {
        if let Event::MouseMove { x, y } = event {
            self.x = *x;
            self.y = *y;
        }
    }
}

impl<P: Copy> Event<P> {
    /// Makes the event for what the window system reported, and lets
    /// `context` follow the pointer.
    pub fn from(context: &mut EventContext<P>, event: WindowEvent<P>) -> (made: Self)
        ensures
            made == event_of(old(context).position(), event),
            final(context).position() == position_after(old(context).position(), made),
    {
        match event {
            WindowEvent::CursorMoved { x, y } => {
                let moved = Event::MouseMove { x, y };
                context.update(&moved);
                moved
            },
            WindowEvent::MouseInput { button, state } => {
                let (x, y) = context.coordinates();
                match state {
                    ElementState::Pressed => Event::MouseDown { button, x, y },
                    ElementState::Released => Event::MouseUp { button, x, y },
                }
            },
            WindowEvent::KeyboardInput { physical_key, state } => {
                if let PhysicalKey::Code(key) = physical_key {
                    return match state {
                        ElementState::Pressed => Event::KeyDown { key },
                        ElementState::Released => Event::KeyUp { key },
                    };
                }
                Event::UnusedEvent
            },
            WindowEvent::Resized { width, height } => Event::WindowResize { width, height },
            WindowEvent::CloseRequested => Event::WindowClose,
            WindowEvent::CursorEntered => Event::MouseEnter,
            WindowEvent::CursorLeft => Event::MouseLeave,
            WindowEvent::RedrawRequested => Event::RequestRedraw,
            _ => Event::UnusedEvent,
        }
    }
}

/// After the pointer moved to (`x`, `y`), a button report becomes an event
/// at (`x`, `y`), whatever was reported in between that did not
/// move the pointer.
pub proof fn lemma_button_event_at_last_position<P>(
    start: (P, P),
    x: P,
    y: P,
    between: Seq<WindowEvent<P>>,
    button: MouseButton,
    state: ElementState,
)
    requires
        forall|i: int| 0 <= i < between.len() ==> !(#[trigger] between[i] is CursorMoved),
    ensures
        event_of(
            position_after_reports(start, seq![WindowEvent::CursorMoved { x, y }] + between),
            WindowEvent::MouseInput { button, state },
        ) == match state {
            ElementState::Pressed => Event::MouseDown { button, x, y },
            ElementState::Released => Event::MouseUp { button, x, y },
        },
    decreases between.len(),
{
    let first = seq![WindowEvent::CursorMoved { x, y }];
    if between.len() == 0 {
        assert(first + between == first);
        assert(first.drop_last() == Seq::<WindowEvent<P>>::empty());
    } else {
        let shorter = between.drop_last();
        assert forall|i: int| 0 <= i < shorter.len() implies !(#[trigger] shorter[i]
            is CursorMoved) by {
            assert(shorter[i] == between[i]);
        }
        lemma_button_event_at_last_position(start, x, y, shorter, button, state);
        assert((first + between).drop_last() == first + shorter);
        assert((first + between).last() == between[between.len() - 1]);
    }
}

/// Where the pointer was last seen after the reports `reports` were
/// turned into events in order, if it was last seen at `position` before.
pub open spec fn position_after_reports<P>(position: (P, P), reports: Seq<WindowEvent<P>>) -> (
    P,
    P,
)
    decreases reports.len(),
{
    if reports.len() == 0 {
        position
    } else {
        let before = position_after_reports(position, reports.drop_last());
        position_after(before, event_of(before, reports.last()))
    }
}

} // verus!
