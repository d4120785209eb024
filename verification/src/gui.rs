//! What the user-interface loop decides when the window system or the
//! application hands it something. The loop itself, the window and the
//! renderer are outside this library; the decisions are here.

use crate::control::GuiControlMessage;
use crate::events::{Event, KeyCode, MouseButton, PhysicalKey, WindowEvent};
use crate::frame::{deadline_after, FramePacer, RenderClock, FRAME_DURATION_NANOS};
use vstd::prelude::*;

verus! {

/// What the user-interface loop of an application with a control task does
/// next.
#[derive(Debug, Clone, Copy, PartialEq, Eq, Structural)]
pub enum GuiAction {
    /// Leave the event loop.
    Exit,
    /// Draw the window again.
    Redraw,
    /// Tell the application's control task that shutdown is asked for.
    RequestShutdown,
    /// Nothing.
    Nothing,
}

/// The action that the report `event` calls for: a close request ends the
/// loop, a redraw request draws, a report of the escape key, pressed or
/// released, asks the application to shut down, and nothing else has an
/// effect.
pub open spec fn gui_action_for<P>(event: WindowEvent<P>) -> GuiAction {
    match event {
        WindowEvent::CloseRequested => GuiAction::Exit,
        WindowEvent::RedrawRequested => GuiAction::Redraw,
        WindowEvent::KeyboardInput { physical_key, state } => if physical_key == PhysicalKey::Code(
            KeyCode::Escape,
        ) {
            GuiAction::RequestShutdown
        } else {
            GuiAction::Nothing
        },
        _ => GuiAction::Nothing,
    }
}

/// Decides what to do about a report of the window system.
pub fn window_action<P>(event: &WindowEvent<P>) -> (action: GuiAction)
    ensures
        action == gui_action_for(*event),
{
    match event {
        WindowEvent::CloseRequested => GuiAction::Exit,
        WindowEvent::RedrawRequested => GuiAction::Redraw,
        WindowEvent::KeyboardInput { physical_key: PhysicalKey::Code(KeyCode::Escape), .. } => {
            GuiAction::RequestShutdown
        },
        _ => GuiAction::Nothing,
    }
}

/// Decides what to do about a message of the application's control task:
/// `Shutdown` ends the loop.
pub fn user_action(message: GuiControlMessage) -> (action: GuiAction)
    ensures
        action == GuiAction::Exit,
{
    match message {
        GuiControlMessage::Shutdown => GuiAction::Exit,
    }
}

/// The action that an input calls for in a loop that is leaving or not:
/// a loop that is leaving does nothing more.
pub open spec fn unless_exiting(exiting: bool, action: GuiAction) -> GuiAction {
    if exiting {
        GuiAction::Nothing
    } else {
        action
    }
}

/// The user-interface loop of an application with a control task, as far as
/// it decides: whether it is leaving, and when the next frame is due.
///
/// Once an input has called for `Exit`, the loop is leaving: no later input
/// draws, asks for shutdown or moves the time of the next frame.
#[derive(Debug, Clone, Copy)]
pub struct GuiLoop {
    exiting: bool,
    pacer: FramePacer,
}

impl GuiLoop {
    /// Whether the loop is leaving.
    pub closed spec fn exiting(&self) -> bool {
        self.exiting
    }

    /// The time at which the next frame is due.
    pub closed spec fn next_frame_time(&self) -> u64 {
        self.pacer@
    }

    /// A loop that is not leaving, whose first frame is due at `now`.
    pub fn new(now: u64) -> (state: Self)
        ensures
            !state.exiting(),
            state.next_frame_time() == now,
    {
        GuiLoop { exiting: false, pacer: FramePacer::new(now) }
    }

    /// Whether the loop is leaving.
    pub fn is_exiting(&self) -> (exiting: bool)
        ensures
            exiting == self.exiting(),
    {
        self.exiting
    }

    /// The time at which the next frame is due.
    pub fn frame_deadline(&self) -> (time: u64)
        ensures
            time == self.next_frame_time(),
    {
        self.pacer.next_frame_time()
    }

    /// Takes a report of the window system and decides what to do. The time
    /// of the next frame stays.
    pub fn window_event<P>(&mut self, event: &WindowEvent<P>) -> (action: GuiAction)
        ensures
            action == unless_exiting(old(self).exiting(), gui_action_for(*event)),
            final(self).exiting() == (old(self).exiting() || action == GuiAction::Exit),
            final(self).next_frame_time() == old(self).next_frame_time(),
    {
        if self.exiting {
            return GuiAction::Nothing;
        }
        let action = window_action(event);
        if let GuiAction::Exit = action {
            self.exiting = true;
        }
        action
    }

    /// Takes a message of the application's control task and decides what to
    /// do: `Shutdown` makes a loop leave that is not leaving yet.
    pub fn user_event(&mut self, message: GuiControlMessage) -> (action: GuiAction)
        ensures
            action == unless_exiting(old(self).exiting(), GuiAction::Exit),
            final(self).exiting(),
            final(self).next_frame_time() == old(self).next_frame_time(),
    {
        if self.exiting {
            return GuiAction::Nothing;
        }
        let action = user_action(message);
        self.exiting = true;
        action
    }

    /// Called before the loop waits, at time `now`. In a loop that is not
    /// leaving, a frame that is due asks for a redraw and moves the due time
    /// to the first whole frame later than `now`. A loop that is leaving asks
    /// for nothing and changes nothing.
    pub fn about_to_wait(&mut self, now: u64) -> (redraw: bool)
        requires
            now + FRAME_DURATION_NANOS <= u64::MAX,
        ensures
            redraw == (!old(self).exiting() && now >= old(self).next_frame_time()),
            final(self).exiting() == old(self).exiting(),
            final(self).next_frame_time() == if redraw {
                deadline_after(now as int, old(self).next_frame_time() as int)
            } else {
                old(self).next_frame_time() as int
            },
    {
        if self.exiting {
            return false;
        }
        self.pacer.about_to_wait(now)
    }
}

/// One input of the user-interface loop.
pub enum GuiInput<P> {
    /// A report of the window system.
    Window(WindowEvent<P>),
    /// A message of the application's control task.
    User(GuiControlMessage),
}

/// Whether the loop is leaving after `input`, if `exiting` says whether it
/// was before.
pub open spec fn exiting_after<P>(exiting: bool, input: GuiInput<P>) -> bool {
    exiting || gui_input_action(exiting, input) == GuiAction::Exit
}

/// The action that `input` calls for in a loop of which `exiting` says
/// whether it is leaving.
pub open spec fn gui_input_action<P>(exiting: bool, input: GuiInput<P>) -> GuiAction {
    match input {
        GuiInput::Window(event) => unless_exiting(exiting, gui_action_for(event)),
        GuiInput::User(_) => unless_exiting(exiting, GuiAction::Exit),
    }
}

/// Whether the loop is leaving after the inputs `inputs`, in order.
pub open spec fn exiting_after_all<P>(exiting: bool, inputs: Seq<GuiInput<P>>) -> bool
    decreases inputs.len(),
{
    if inputs.len() == 0 {
        exiting
    } else {
        exiting_after(exiting_after_all(exiting, inputs.drop_last()), inputs.last())
    }
}

/// Once the control task's `Shutdown` has arrived, the loop is leaving and
/// stays so: whatever comes in afterwards, nothing is drawn and no shutdown
/// is asked for again.
pub proof fn lemma_nothing_after_shutdown<P>(
    exiting: bool,
    later: Seq<GuiInput<P>>,
    input: GuiInput<P>,
)
    ensures
        exiting_after_all(
            exiting_after(exiting, GuiInput::<P>::User(GuiControlMessage::Shutdown)),
            later,
        ),
        gui_input_action(
            exiting_after_all(
                exiting_after(exiting, GuiInput::<P>::User(GuiControlMessage::Shutdown)),
                later,
            ),
            input,
        ) == GuiAction::Nothing,
    decreases later.len(),
{
    if later.len() > 0 {
        lemma_nothing_after_shutdown(exiting, later.drop_last(), later.last());
    }
}

/// What the user-interface loop of a stand-alone window does next.
#[derive(Debug, PartialEq)]
pub enum LoopAction<P> {
    /// Leave the event loop.
    Exit,
    /// Report that a button went down at (`x`, `y`).
    ReportMouseDown { button: MouseButton, x: P, y: P },
    /// Report that a button went up at (`x`, `y`).
    ReportMouseUp { button: MouseButton, x: P, y: P },
    /// Nothing.
    Nothing,
}

/// The action that `event` calls for in a stand-alone window: button events
/// are reported, and a close of the window or the escape key going down ends
/// the loop.
pub open spec fn loop_action_for<P>(event: Event<P>) -> LoopAction<P> {
    match event {
        Event::MouseUp { button, x, y } => LoopAction::ReportMouseUp { button, x, y },
        Event::MouseDown { button, x, y } => LoopAction::ReportMouseDown { button, x, y },
        Event::WindowClose => LoopAction::Exit,
        Event::KeyDown { key } => if key == KeyCode::Escape {
            LoopAction::Exit
        } else {
            LoopAction::Nothing
        },
        _ => LoopAction::Nothing,
    }
}

/// The pointer position that a stand-alone window remembers after `event`,
/// if it remembered `position` before.
pub open spec fn mouse_pos_after<P>(position: Option<(P, P)>, event: Event<P>) -> Option<(P, P)> {
    match event {
        Event::MouseMove { x, y } => Some((x, y)),
        _ => position,
    }
}

/// What the loop of a stand-alone window remembers between two calls: where
/// the pointer is, if it ever moved, and when it rendered.
#[derive(Debug)]
pub struct WindowLoop<P> {
    mouse_pos: Option<(P, P)>,
    clock: RenderClock,
}

impl<P: Copy> Clone for LoopAction<P> {
    fn clone(&self) -> (copy: Self)
        ensures
            copy == *self,
    {
        *self
    }
}

impl<P: Copy> Copy for LoopAction<P> {

}

impl<P: Copy> Clone for WindowLoop<P> {
    fn clone(&self) -> (copy: Self)
        ensures
            copy == *self,
    {
        *self
    }
}

impl<P: Copy> Copy for WindowLoop<P> {

}

impl<P: Copy> WindowLoop<P> {
    /// Where the pointer is, if it ever moved.
    pub closed spec fn mouse_pos(&self) -> Option<(P, P)> {
        self.mouse_pos
    }

    /// The clock that limits the rate of renders.
    pub closed spec fn clock(&self) -> RenderClock {
        self.clock
    }

    /// A loop that has seen nothing yet.
    pub fn new() -> (state: Self)
        ensures
            state.mouse_pos() == None::<(P, P)>,
            state.clock().start_time() == None::<u64>,
            state.clock().last_render_time() == None::<u64>,
    {
        WindowLoop { mouse_pos: None, clock: RenderClock::new() }
    }

    /// Where the pointer is, if it ever moved.
    pub fn pointer(&self) -> (position: Option<(P, P)>)
        ensures
            position == self.mouse_pos(),
    {
        self.mouse_pos
    }

    /// Takes an event: remembers where the pointer went, and decides what to
    /// do. The clock is not touched.
    pub fn window_event(&mut self, event: &Event<P>) -> (action: LoopAction<P>)
        ensures
            action == loop_action_for(*event),
            final(self).mouse_pos() == mouse_pos_after(old(self).mouse_pos(), *event),
            final(self).clock() == old(self).clock(),
    {
        if let Event::MouseMove { x, y } = event {
            self.mouse_pos = Some((*x, *y));
        }
        match event {
            Event::MouseUp { button, x, y } => LoopAction::ReportMouseUp {
                button: *button,
                x: *x,
                y: *y,
            },
            Event::MouseDown { button, x, y } => LoopAction::ReportMouseDown {
                button: *button,
                x: *x,
                y: *y,
            },
            Event::WindowClose => LoopAction::Exit,
            Event::KeyDown { key: KeyCode::Escape } => LoopAction::Exit,
            _ => LoopAction::Nothing,
        }
    }

    /// Called before the loop waits, at time `now`: one tick of the render
    /// clock. The result is the time since the first call when a render is
    /// due, and `None` otherwise. The pointer is not touched.
    pub fn about_to_wait(&mut self, now: u64, renderer_ready: bool) -> (elapsed: Option<u64>)
        ensures
            final(self).mouse_pos() == old(self).mouse_pos(),
            final(self).clock().start_time() == Some(
                match old(self).clock().start_time() {
                    Some(start) => start,
                    None => now,
                },
            ),
            elapsed is Some <==> renderer_ready && crate::frame::render_due(
                old(self).clock().last_render_time(),
                now,
            ),
            elapsed matches Some(since_start) ==> since_start == crate::frame::elapsed_between(
                final(self).clock().start_time().unwrap(),
                now,
            ) && final(self).clock().last_render_time() == Some(now),
            elapsed is None ==> final(self).clock().last_render_time()
                == old(self).clock().last_render_time(),
    {
        self.clock.tick(now, renderer_ready)
    }
}

} // verus!
