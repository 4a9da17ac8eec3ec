//! Dragging the window by its content.

use vstd::prelude::*;
use crate::event::Event;

verus! {

/// Lets the window be dragged from anywhere on its content: while the
/// pointer moves over it, the window manager is to treat the spot as title bar.
#[derive(Clone, Copy, Debug)]
pub struct DragController;

/// Whether an event hands the pointer over to the window manager.
pub open spec fn moves_window(event: Event) -> bool {
    event is MouseMove
}

impl DragController {
    /// Sees one event. The answer says whether the host shall tell the window
    /// manager that the pointer is on the title bar, which is what lets a
    /// press and drag move the window. Every pointer move does so, with or
    /// without a button held; nothing else does. The application state is
    /// lent as to every handler, and is never touched.
    pub fn event<T>(&mut self, event: &Event, data: &mut T) -> (handle_titlebar: bool)
        ensures
            handle_titlebar == moves_window(*event),
            *final(data) == *old(data),
    {
        match event {
            Event::MouseMove => true,
            _ => false,
        }
    }
}

} // verus!
