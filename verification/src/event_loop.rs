//! Decisions of the window message loop.
//!
//! Each turn of the loop either receives a pending window message or finds
//! the queue empty. A key press of Escape ends the program, every other
//! message goes to the window procedure, and an empty queue means that a
//! frame is drawn.

use vstd::prelude::*;

verus! {

/// Message identifier of a key press (`WM_KEYDOWN`).
pub const WM_KEYDOWN: u32 = 0x0100;

/// Virtual key code of the Escape key (`VK_ESCAPE`).
pub const VK_ESCAPE: usize = 0x1B;

/// What one turn of the message loop found.
#[derive(Clone, Copy, Debug, PartialEq, Eq, Structural)]
pub enum LoopEvent {
    /// A window message was taken from the queue.
    Message { message: u32, wparam: usize },
    /// No message was pending.
    QueueEmpty,
}

/// What the loop does next.
#[derive(Clone, Copy, Debug, PartialEq, Eq, Structural)]
pub enum LoopAction {
    /// Leave the loop and end the program.
    Quit,
    /// Hand the message to the window procedure.
    Dispatch,
    /// Update the scene and present one frame.
    RenderFrame,
}

/// The message is a press of the Escape key.
pub open spec fn is_escape_press(message: u32, wparam: usize) -> bool {
    message == WM_KEYDOWN && wparam == VK_ESCAPE
}

/// The action that answers an event.
pub open spec fn action_for(event: LoopEvent) -> LoopAction {
    match event {
        LoopEvent::Message { message, wparam } => if is_escape_press(message, wparam) {
            LoopAction::Quit
        } else {
            LoopAction::Dispatch
        },
        LoopEvent::QueueEmpty => LoopAction::RenderFrame,
    }
}

/// Only a key press (message 0x0100, `WM_KEYDOWN`) of the Escape key (key
/// code 0x1B) ends the loop: every other window message, whatever its
/// identifier or key code, goes to the window procedure, and an empty queue
/// draws a frame.
pub proof fn only_escape_press_quits(event: LoopEvent)
    ensures
        action_for(event) == LoopAction::Quit <==> event == (LoopEvent::Message {
            message: 0x0100,
            wparam: 0x1B,
        }),
        action_for(event) == LoopAction::Dispatch <==> (event is Message && event != (
        LoopEvent::Message { message: 0x0100, wparam: 0x1B })),
        action_for(event) == LoopAction::RenderFrame <==> event is QueueEmpty,
{
}

/// Decides what the loop does with what it found: quit on an Escape key
/// press, dispatch any other message, draw a frame when the queue is empty.
pub fn next_action(event: LoopEvent) -> (action: LoopAction)
    ensures
        action == action_for(event),
        action == LoopAction::Quit <==> (event matches LoopEvent::Message { message, wparam }
            && is_escape_press(message, wparam)),
        action == LoopAction::RenderFrame <==> event == LoopEvent::QueueEmpty,
        action == LoopAction::Quit <==> event == (LoopEvent::Message { message: 0x0100, wparam: 0x1B }),
        action == LoopAction::Dispatch <==> (event is Message && event != (LoopEvent::Message {
            message: 0x0100,
            wparam: 0x1B,
        })),
{
    match event {
        LoopEvent::Message { message, wparam } => {
            if message == WM_KEYDOWN && wparam == VK_ESCAPE {
                LoopAction::Quit
            } else {
                LoopAction::Dispatch
            }
        },
        LoopEvent::QueueEmpty => LoopAction::RenderFrame,
    }
}

} // verus!
