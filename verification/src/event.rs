//! The primitive events that a dispatch context hands to the platform sink.

use vstd::prelude::*;
use crate::mouse_button::MouseButton;

verus! {

/// One primitive event for the platform sink.
#[derive(Copy, Clone, PartialEq, Eq, Structural, Debug)]
pub enum Event {
    /// An ordinary key event: its type, the virtual key code, the repeat
    /// flag, the modifier flags that it carries and the delivery options.
    Key { event_type: u32, key_code: u16, repeat: bool, flags: u32, options: u32 },
    /// An auxiliary key event, which travels apart from ordinary key events
    /// as one packed value.
    Auxiliary { packed: i32 },
    /// The pointer moves by an offset.
    MoveRel { dx: i32, dy: i32, buttons: u8 },
    /// The pointer moves to a position.
    MoveAbs { x: i32, y: i32, buttons: u8 },
    /// The pointer is placed at a position without a motion.
    Warp { x: i32, y: i32 },
    /// The wheel scrolls by an offset.
    Scroll { dx: i32, dy: i32 },
    /// A mouse button goes down. `buttons` is the set of held buttons with
    /// this press counted in.
    ButtonDown { button: MouseButton, click_count: u32, buttons: u8 },
    /// A mouse button goes up. `buttons` is the set of held buttons with this
    /// release counted in.
    ButtonUp { button: MouseButton, click_count: u32, buttons: u8 },
}

/// What to do next with a list of events that is delivered in order.
#[derive(Copy, Clone, PartialEq, Eq, Structural, Debug)]
pub enum Delivery {
    /// Hand this event to the sink.
    Send(Event),
    /// Nothing more is sent; the flag says whether the whole list arrived.
    Finished(bool),
}

/// What follows after `sent` events of a list have been handed to the sink,
/// where `delivered` says whether the last of them arrived: a failure ends
/// the delivery at once, and success is reached only behind the last event.
pub open spec fn next_delivery(events: Seq<Event>, sent: nat, delivered: bool) -> Delivery {
    if sent > 0 && !delivered {
        Delivery::Finished(false)
    } else if sent < events.len() {
        Delivery::Send(events[sent as int])
    } else {
        Delivery::Finished(true)
    }
}

/// Decides what follows after `sent` events of `events` have been handed to
/// the sink. Before the first event `delivered` is not looked at.
pub fn next_event(events: &Vec<Event>, sent: usize, delivered: bool) -> (next: Delivery)
    ensures
        next == next_delivery(events@, sent as nat, delivered),
{
    if sent > 0 && !delivered {
        Delivery::Finished(false)
    } else if sent < events.len() {
        Delivery::Send(events[sent])
    } else {
        Delivery::Finished(true)
    }
}

} // verus!
