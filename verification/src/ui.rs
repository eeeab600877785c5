//! The two UI text slots the picking system writes.
//!
//! The UI tree creates its text widgets asynchronously, so either slot may
//! not exist yet when a frame runs; a write to a missing slot is dropped,
//! never an error.

use vstd::prelude::*;

verus! {

/// Ghost image of the store: the content of each slot, when it exists.
pub ghost struct UiView {
    pub mouse_position: Option<Seq<char>>,
    pub under_mouse: Option<Seq<char>>,
}

/// The store itself, holding the slots named "mouse_position" and
/// "under_mouse" in the UI tree; `None` stands for a slot that the UI
/// system has not created yet.
#[derive(Debug)]
pub struct UiStore {
    pub mouse_position: Option<String>,
    pub under_mouse: Option<String>,
}

impl View for UiStore {
    type V = UiView;

    open spec fn view(&self) -> UiView {
        UiView {
            mouse_position: match self.mouse_position {
                Some(s) => Some(s@),
                None => None,
            },
            under_mouse: match self.under_mouse {
                Some(s) => Some(s@),
                None => None,
            },
        }
    }
}

/// Ghost effect of writing `text` into an optional slot: dropped when the
/// slot does not exist.
pub open spec fn slot_after_write(slot: Option<Seq<char>>, text: Seq<char>) -> Option<Seq<char>> {
    match slot {
        Some(_) => Some(text),
        None => None,
    }
}

impl UiStore {
    /// Writes the "mouse_position" slot; a no-op when it does not exist.
    pub fn set_mouse_position(&mut self, text: String)
        ensures
            final(self)@.mouse_position == slot_after_write(old(self)@.mouse_position, text@),
            final(self)@.under_mouse == old(self)@.under_mouse,
    {
        if self.mouse_position.is_some() {
            self.mouse_position = Some(text);
        }
    }

    /// Writes the "under_mouse" slot; a no-op when it does not exist.
    pub fn set_under_mouse(&mut self, text: String)
        ensures
            final(self)@.under_mouse == slot_after_write(old(self)@.under_mouse, text@),
            final(self)@.mouse_position == old(self)@.mouse_position,
    {
        if self.under_mouse.is_some() {
            self.under_mouse = Some(text);
        }
    }
}

} // verus!
