//! The dispatch context: the modifier and button state of one session, and
//! the operations that turn key and button actions into ordered events.
//!
//! The context never talks to the platform sink itself. Each operation
//! brings the state up to date first and then returns the events for the
//! sink, so an event always carries the state as it is after the action.

use vstd::prelude::*;
use crate::command::Command;
use crate::event::Event;
use crate::iokit as io;
use crate::key::Key;
use crate::keyboard::{
    aux_key, aux_key_spec, combined, key_code_of, to_key_code, update_modifiers, KeyCode,
};
use crate::mouse_button::MouseButton;

verus! {

/// Whether the combined bits `both` are set exactly where a bit of `left` or
/// of `right` is set.
pub open spec fn in_step(modifiers: u32, left: u32, right: u32, both: u32) -> bool {
    (modifiers & both != 0) <==> (modifiers & left != 0 || modifiers & right != 0)
}

/// Whether each combined modifier bit (shift, control, alt, command) is set
/// exactly where the bit of its left or of its right key is set.
pub open spec fn consistent(modifiers: u32) -> bool {
    &&& in_step(modifiers, io::NX_DEVICELSHIFTKEYMASK, io::NX_DEVICERSHIFTKEYMASK, io::NX_SHIFTMASK)
    &&& in_step(modifiers, io::NX_DEVICELCTLKEYMASK, io::NX_DEVICERCTLKEYMASK, io::NX_CONTROLMASK)
    &&& in_step(modifiers, io::NX_DEVICELALTKEYMASK, io::NX_DEVICERALTKEYMASK, io::NX_ALTERNATEMASK)
    &&& in_step(modifiers, io::NX_DEVICELCMDKEYMASK, io::NX_DEVICERCMDKEYMASK, io::NX_COMMANDMASK)
}

/// The modifiers after all four combined bits have been brought in step with
/// the bits of their left and right keys.
pub open spec fn recombined(modifiers: u32) -> u32 {
    let shift = combined(
        modifiers,
        io::NX_DEVICELSHIFTKEYMASK,
        io::NX_DEVICERSHIFTKEYMASK,
        io::NX_SHIFTMASK,
    );
    let control = combined(
        shift,
        io::NX_DEVICELCTLKEYMASK,
        io::NX_DEVICERCTLKEYMASK,
        io::NX_CONTROLMASK,
    );
    let alt = combined(
        control,
        io::NX_DEVICELALTKEYMASK,
        io::NX_DEVICERALTKEYMASK,
        io::NX_ALTERNATEMASK,
    );
    combined(alt, io::NX_DEVICELCMDKEYMASK, io::NX_DEVICERCMDKEYMASK, io::NX_COMMANDMASK)
}

/// The modifiers after a key goes down or up. Caps lock flips its latch when
/// pressed; a modifier key sets or clears its own bit, after which the
/// combined bits are brought in step; other keys change nothing.
pub open spec fn modifiers_after(modifiers: u32, key: Key, down: bool) -> u32 {
    match key_code_of(key) {
        KeyCode::CapsLock => if down {
            modifiers ^ io::NX_ALPHASHIFTMASK
        } else {
            modifiers
        },
        KeyCode::Modifier(_, mask) => recombined(
            if down {
                modifiers | mask
            } else {
                modifiers & !mask
            },
        ),
        _ => modifiers,
    }
}

/// The type of an ordinary key event.
pub open spec fn key_event_type(down: bool) -> u32 {
    if down {
        io::NX_KEYDOWN
    } else {
        io::NX_KEYUP
    }
}

/// The events of a key that goes down or up, in the order in which the sink
/// gets them. `modifiers` are the modifiers after the action.
pub open spec fn key_events(key: Key, repeat: bool, down: bool, modifiers: u32) -> Seq<Event> {
    match key_code_of(key) {
        KeyCode::CapsLock => {
            let toggle = Event::Auxiliary {
                packed: aux_key_spec(io::NX_KEYTYPE_CAPS_LOCK, key_event_type(down), repeat),
            };
            if down {
                seq![
                    Event::Key {
                        event_type: io::NX_FLAGSCHANGED,
                        key_code: io::kVK_CapsLock as u16,
                        repeat,
                        flags: modifiers,
                        options: io::kIOHIDSetGlobalEventFlags,
                    },
                    toggle,
                ]
            } else {
                seq![toggle]
            }
        },
        KeyCode::Modifier(key_code, _) => seq![
            Event::Key {
                event_type: io::NX_FLAGSCHANGED,
                key_code: key_code as u16,
                repeat,
                flags: modifiers,
                options: io::kIOHIDSetGlobalEventFlags,
            },
        ],
        KeyCode::Regular(key_code) => seq![
            Event::Key {
                event_type: key_event_type(down),
                key_code: key_code as u16,
                repeat,
                flags: 0,
                options: 0,
            },
        ],
        KeyCode::Media(key_code) => seq![
            Event::Auxiliary { packed: aux_key_spec(key_code, key_event_type(down), repeat) },
        ],
    }
}

/// Bringing the combined bits in step makes the modifiers consistent,
/// whatever they were, and leaves every bit but the four combined ones alone.
pub proof fn lemma_recombined_consistent(modifiers: u32)
    ensures
        consistent(recombined(modifiers)),
        recombined(modifiers) & !0x001e_0000u32 == modifiers & !0x001e_0000u32,
{
    let r = recombined(modifiers);
    assert(consistent(r) && r & !0x001e_0000u32 == modifiers & !0x001e_0000u32) by (bit_vector)
        requires
            r == recombined(modifiers),
    ;
}

/// The caps lock latch is no part of any pair of left and right keys:
/// flipping it keeps consistent modifiers consistent.
pub proof fn lemma_latch_keeps_consistent(modifiers: u32)
    requires
        consistent(modifiers),
    ensures
        consistent(modifiers ^ io::NX_ALPHASHIFTMASK),
{
    let m = modifiers ^ io::NX_ALPHASHIFTMASK;
    assert(consistent(m)) by (bit_vector)
        requires
            consistent(modifiers),
            m == modifiers ^ io::NX_ALPHASHIFTMASK,
    ;
}

/// Whether a mask is the bit of one of the nine modifier keys.
pub open spec fn is_key_mask(mask: u32) -> bool {
    ||| mask == io::NX_DEVICELSHIFTKEYMASK
    ||| mask == io::NX_DEVICERSHIFTKEYMASK
    ||| mask == io::NX_DEVICELCTLKEYMASK
    ||| mask == io::NX_DEVICERCTLKEYMASK
    ||| mask == io::NX_DEVICELALTKEYMASK
    ||| mask == io::NX_DEVICERALTKEYMASK
    ||| mask == io::NX_DEVICELCMDKEYMASK
    ||| mask == io::NX_DEVICERCMDKEYMASK
    ||| mask == io::NX_SECONDARYFNMASK
}

/// After a modifier key goes down its own bit is set, and after it goes up
/// its own bit is clear, whatever the modifiers were before.
pub proof fn lemma_modifier_bit_follows_key(modifiers: u32, key: Key, down: bool)
    requires
        key_code_of(key) is Modifier,
    ensures
        (modifiers_after(modifiers, key, down) & key_code_of(key)->Modifier_1 != 0) == down,
{
    let mask = key_code_of(key)->Modifier_1;
    assert(is_key_mask(mask));
    let changed = if down {
        modifiers | mask
    } else {
        modifiers & !mask
    };
    let after = recombined(changed);
    lemma_recombined_consistent(changed);
    assert((after & mask != 0) == down) by (bit_vector)
        requires
            is_key_mask(mask),
            after & !0x001e_0000u32 == changed & !0x001e_0000u32,
            changed == if down {
                modifiers | mask
            } else {
                modifiers & !mask
            },
    ;
}

/// A key that goes down or up keeps consistent modifiers consistent.
pub proof fn lemma_key_keeps_consistent(modifiers: u32, key: Key, down: bool)
    requires
        consistent(modifiers),
    ensures
        consistent(modifiers_after(modifiers, key, down)),
{
    match key_code_of(key) {
        KeyCode::CapsLock => {
            lemma_latch_keeps_consistent(modifiers);
        },
        KeyCode::Modifier(_, mask) => {
            lemma_recombined_consistent(
                if down {
                    modifiers | mask
                } else {
                    modifiers & !mask
                },
            );
        },
        _ => {},
    }
}

/// The modifiers after a sequence of key actions, each a key and whether it
/// goes down.
pub open spec fn modifiers_after_all(modifiers: u32, actions: Seq<(Key, bool)>) -> u32
    decreases actions.len(),
{
    if actions.len() == 0 {
        modifiers
    } else {
        modifiers_after(
            modifiers_after_all(modifiers, actions.drop_last()),
            actions.last().0,
            actions.last().1,
        )
    }
}

/// After any sequence of key presses and releases, each combined modifier
/// bit is set exactly where the bit of its left or of its right key is set.
pub proof fn lemma_sequence_keeps_consistent(modifiers: u32, actions: Seq<(Key, bool)>)
    requires
        consistent(modifiers),
    ensures
        consistent(modifiers_after_all(modifiers, actions)),
    decreases actions.len(),
{
    if actions.len() > 0 {
        lemma_sequence_keeps_consistent(modifiers, actions.drop_last());
        lemma_key_keeps_consistent(
            modifiers_after_all(modifiers, actions.drop_last()),
            actions.last().0,
            actions.last().1,
        );
    }
}

/// The bit that stands for a button in the set of held buttons.
pub open spec fn button_bit(button: MouseButton) -> u8 {
    match button {
        MouseButton::Left => 1,
        MouseButton::Middle => 2,
        MouseButton::Right => 4,
        MouseButton::Button4 => 8,
        MouseButton::Button5 => 16,
    }
}

/// The set of held buttons after a button goes down or up.
pub open spec fn buttons_after(buttons: u8, button: MouseButton, down: bool) -> u8 {
    if down {
        buttons | button_bit(button)
    } else {
        buttons & !button_bit(button)
    }
}

/// How far the dispatch of one command has come.
#[derive(Copy, Clone, PartialEq, Eq, Structural, Debug)]
pub enum Stage {
    /// Nothing has been handed to the sink yet.
    Begin,
    /// The press of a click has been handed to the sink.
    Pressed,
    /// The last events of the command have been handed to the sink.
    Last,
    /// The command is done and every event arrived.
    Succeeded,
    /// The command is done and an event failed.
    Failed,
}

/// Whether a command is a press followed by a release.
pub open spec fn is_click(command: Command) -> bool {
    command is KeyClick || command is MouseClick
}

/// The stage that follows `stage`, where `delivered` says whether the events
/// handed out at `stage` arrived. A click goes through its press and its
/// release; any other command has one step. A failure ends the command.
pub open spec fn stage_after(command: Command, stage: Stage, delivered: bool) -> Stage {
    match stage {
        Stage::Begin => if is_click(command) {
            Stage::Pressed
        } else {
            Stage::Last
        },
        Stage::Pressed => if !delivered {
            Stage::Failed
        } else if is_click(command) {
            Stage::Last
        } else {
            Stage::Succeeded
        },
        Stage::Last => if delivered {
            Stage::Succeeded
        } else {
            Stage::Failed
        },
        Stage::Succeeded => Stage::Succeeded,
        Stage::Failed => Stage::Failed,
    }
}

/// The single action that a step of a command performs, if it performs one:
/// at the beginning the command itself, or the press of a click; after a
/// press that arrived, the release of the click; otherwise none.
pub open spec fn step_action(command: Command, stage: Stage, delivered: bool) -> Option<Command> {
    match stage {
        Stage::Begin => match command {
            Command::KeyClick(key) => Some(Command::KeyDown(key, false)),
            Command::MouseClick(button, count) => Some(Command::MouseDown(button, count)),
            _ => Some(command),
        },
        Stage::Pressed => if delivered {
            match command {
                Command::KeyClick(key) => Some(Command::KeyUp(key)),
                Command::MouseClick(button, count) => Some(Command::MouseUp(button, count)),
                _ => None,
            }
        } else {
            None
        },
        _ => None,
    }
}

/// A click whose press did not arrive is over: the next step performs no
/// action, so the release never happens, and the click has failed.
pub proof fn lemma_failed_press_ends_click(command: Command)
    requires
        is_click(command),
    ensures
        step_action(command, Stage::Pressed, false) is None,
        stage_after(command, Stage::Pressed, false) == Stage::Failed,
        step_action(command, Stage::Failed, true) is None,
        step_action(command, Stage::Failed, false) is None,
{
}

/// The modifiers after a single action.
pub open spec fn modifiers_after_action(modifiers: u32, action: Command) -> u32 {
    match action {
        Command::KeyDown(key, _) => modifiers_after(modifiers, key, true),
        Command::KeyUp(key) => modifiers_after(modifiers, key, false),
        _ => modifiers,
    }
}

/// The set of held buttons after a single action.
pub open spec fn buttons_after_action(buttons: u8, action: Command) -> u8 {
    match action {
        Command::MouseDown(button, _) => buttons_after(buttons, button, true),
        Command::MouseUp(button, _) => buttons_after(buttons, button, false),
        _ => buttons,
    }
}

/// The events of a single action, in the order in which the sink gets them.
/// `modifiers` and `buttons` are the state after the action.
pub open spec fn action_events(action: Command, modifiers: u32, buttons: u8) -> Seq<Event> {
    match action {
        Command::KeyDown(key, repeat) => key_events(key, repeat, true, modifiers),
        Command::KeyUp(key) => key_events(key, false, false, modifiers),
        Command::MouseMoveRel(dx, dy) => seq![Event::MoveRel { dx, dy, buttons }],
        Command::MouseMoveAbs(x, y) => seq![Event::MoveAbs { x, y, buttons }],
        Command::MouseWarp(x, y) => seq![Event::Warp { x, y }],
        Command::MouseScroll(dx, dy) => seq![Event::Scroll { dx, dy }],
        Command::MouseDown(button, click_count) => seq![
            Event::ButtonDown { button, click_count, buttons },
        ],
        Command::MouseUp(button, click_count) => seq![
            Event::ButtonUp { button, click_count, buttons },
        ],
        Command::KeyClick(_) | Command::MouseClick(_, _) => Seq::empty(),
    }
}

/// The state of one typing and pointing session.
///
/// The modifiers of a context are always consistent: a combined modifier
/// bit is set exactly where the bit of its left or of its right key is set.
pub struct Context {
    modifiers: u32,
    button_state: u8,
}

impl Context {
    #[verifier::type_invariant]
    spec fn inv(self) -> bool {
        consistent(self.modifiers)
    }

    /// The modifier flags: the bits of the single keys and the combined bits.
    pub closed spec fn modifiers_spec(&self) -> u32 {
        self.modifiers
    }

    /// The set of held mouse buttons, one bit for each button's index.
    pub closed spec fn button_state_spec(&self) -> u8 {
        self.button_state
    }

    /// A context in which no modifier and no button is held.
    pub fn new() -> (ctx: Self)
        ensures
            ctx.modifiers_spec() == 0,
            ctx.button_state_spec() == 0,
    {
        assert(consistent(0u32)) by (bit_vector);
        Context { modifiers: 0, button_state: 0 }
    }

    /// The modifier flags.
    pub fn modifiers(&self) -> (m: u32)
        ensures
            m == self.modifiers_spec(),
            consistent(m),
    {
        proof {
            use_type_invariant(self);
        }
        self.modifiers
    }

    /// The set of held mouse buttons.
    pub fn button_state(&self) -> (b: u8)
        ensures
            b == self.button_state_spec(),
    {
        self.button_state
    }

    /// Brings all four combined modifier bits in step with their keys.
    fn update_modifiers(modifiers: &mut u32)
        ensures
            *final(modifiers) == recombined(*old(modifiers)),
    {
        update_modifiers(
            modifiers,
            io::NX_DEVICELSHIFTKEYMASK,
            io::NX_DEVICERSHIFTKEYMASK,
            io::NX_SHIFTMASK,
        );
        update_modifiers(
            modifiers,
            io::NX_DEVICELCTLKEYMASK,
            io::NX_DEVICERCTLKEYMASK,
            io::NX_CONTROLMASK,
        );
        update_modifiers(
            modifiers,
            io::NX_DEVICELALTKEYMASK,
            io::NX_DEVICERALTKEYMASK,
            io::NX_ALTERNATEMASK,
        );
        update_modifiers(
            modifiers,
            io::NX_DEVICELCMDKEYMASK,
            io::NX_DEVICERCMDKEYMASK,
            io::NX_COMMANDMASK,
        );
    }

    /// A key goes down or up. The modifiers are brought up to date first; the
    /// events that come back are for the sink, in this order, and a modifier
    /// event among them carries the modifiers as they are after the action.
    /// The sink stops at the first event that fails.
    pub fn key_event(&mut self, key: Key, repeat: bool, down: bool) -> (events: Vec<Event>)
        ensures
            final(self).modifiers_spec() == modifiers_after(old(self).modifiers_spec(), key, down),
            final(self).button_state_spec() == old(self).button_state_spec(),
            consistent(final(self).modifiers_spec()),
            events@ == key_events(key, repeat, down, final(self).modifiers_spec()),
    {
        proof {
            use_type_invariant(&*self);
        }
        let event_type: u32 = if down {
            io::NX_KEYDOWN
        } else {
            io::NX_KEYUP
        };
        let mut events: Vec<Event> = Vec::new();
        match to_key_code(key) {
            KeyCode::CapsLock => {
                if down {
                    proof {
                        lemma_latch_keeps_consistent(self.modifiers);
                    }
                    self.modifiers = self.modifiers ^ io::NX_ALPHASHIFTMASK;
                    events.push(
                        Event::Key {
                            event_type: io::NX_FLAGSCHANGED,
                            key_code: io::kVK_CapsLock as u16,
                            repeat,
                            flags: self.modifiers,
                            options: io::kIOHIDSetGlobalEventFlags,
                        },
                    );
                }
                events.push(
                    Event::Auxiliary {
                        packed: aux_key(io::NX_KEYTYPE_CAPS_LOCK, event_type, repeat),
                    },
                );
            },
            KeyCode::Modifier(key_code, mask) => {
                let mut modifiers: u32 = self.modifiers;
                if down {
                    modifiers |= mask;
                } else {
                    modifiers &= !mask;
                }
                Self::update_modifiers(&mut modifiers);
                proof {
                    lemma_recombined_consistent(
                        if down {
                            self.modifiers | mask
                        } else {
                            self.modifiers & !mask
                        },
                    );
                }
                self.modifiers = modifiers;
                events.push(
                    Event::Key {
                        event_type: io::NX_FLAGSCHANGED,
                        key_code: key_code as u16,
                        repeat,
                        flags: self.modifiers,
                        options: io::kIOHIDSetGlobalEventFlags,
                    },
                );
            },
            KeyCode::Regular(key_code) => {
                events.push(
                    Event::Key {
                        event_type,
                        key_code: key_code as u16,
                        repeat,
                        flags: 0,
                        options: 0,
                    },
                );
            },
            KeyCode::Media(key_code) => {
                events.push(Event::Auxiliary { packed: aux_key(key_code, event_type, repeat) });
            },
        }
        assert(events@ =~= key_events(key, repeat, down, self.modifiers));
        events
    }

    /// A key goes down.
    pub fn key_down(&mut self, key: Key, repeat: bool) -> (events: Vec<Event>)
        ensures
            final(self).modifiers_spec() == modifiers_after(old(self).modifiers_spec(), key, true),
            final(self).button_state_spec() == old(self).button_state_spec(),
            consistent(final(self).modifiers_spec()),
            events@ == key_events(key, repeat, true, final(self).modifiers_spec()),
    {
        self.key_event(key, repeat, true)
    }

    /// A key goes up.
    pub fn key_up(&mut self, key: Key) -> (events: Vec<Event>)
        ensures
            final(self).modifiers_spec() == modifiers_after(old(self).modifiers_spec(), key, false),
            final(self).button_state_spec() == old(self).button_state_spec(),
            consistent(final(self).modifiers_spec()),
            events@ == key_events(key, false, false, final(self).modifiers_spec()),
    {
        self.key_event(key, false, false)
    }

    /// The bit that stands for a button in the set of held buttons.
    fn bit_of(button: MouseButton) -> (bit: u8)
        ensures
            bit == button_bit(button),
    {
        match button {
            MouseButton::Left => 1,
            MouseButton::Middle => 2,
            MouseButton::Right => 4,
            MouseButton::Button4 => 8,
            MouseButton::Button5 => 16,
        }
    }

    /// A mouse button goes down or up. The set of held buttons is brought up
    /// to date first; the event carries it as it is after the action.
    pub fn mouse_event(&mut self, button: MouseButton, click_count: u32, down: bool) -> (events:
        Vec<Event>)
        ensures
            final(self).modifiers_spec() == old(self).modifiers_spec(),
            final(self).button_state_spec() == buttons_after(
                old(self).button_state_spec(),
                button,
                down,
            ),
            events@ == action_events(
                if down {
                    Command::MouseDown(button, click_count)
                } else {
                    Command::MouseUp(button, click_count)
                },
                final(self).modifiers_spec(),
                final(self).button_state_spec(),
            ),
    {
        proof {
            use_type_invariant(&*self);
        }
        let bit: u8 = Self::bit_of(button);
        let mut events: Vec<Event> = Vec::new();
        if down {
            self.button_state = self.button_state | bit;
            events.push(Event::ButtonDown { button, click_count, buttons: self.button_state });
        } else {
            self.button_state = self.button_state & !bit;
            events.push(Event::ButtonUp { button, click_count, buttons: self.button_state });
        }
        assert(events@ =~= action_events(
            if down {
                Command::MouseDown(button, click_count)
            } else {
                Command::MouseUp(button, click_count)
            },
            self.modifiers,
            self.button_state,
        ));
        events
    }

    /// A mouse button goes down.
    pub fn mouse_down(&mut self, button: MouseButton, click_count: u32) -> (events: Vec<Event>)
        ensures
            final(self).modifiers_spec() == old(self).modifiers_spec(),
            final(self).button_state_spec() == buttons_after(
                old(self).button_state_spec(),
                button,
                true,
            ),
            events@ == action_events(
                Command::MouseDown(button, click_count),
                final(self).modifiers_spec(),
                final(self).button_state_spec(),
            ),
    {
        self.mouse_event(button, click_count, true)
    }

    /// A mouse button goes up.
    pub fn mouse_up(&mut self, button: MouseButton, click_count: u32) -> (events: Vec<Event>)
        ensures
            final(self).modifiers_spec() == old(self).modifiers_spec(),
            final(self).button_state_spec() == buttons_after(
                old(self).button_state_spec(),
                button,
                false,
            ),
            events@ == action_events(
                Command::MouseUp(button, click_count),
                final(self).modifiers_spec(),
                final(self).button_state_spec(),
            ),
    {
        self.mouse_event(button, click_count, false)
    }

    /// Performs one single action: any command but a click.
    fn act(&mut self, action: Command) -> (events: Vec<Event>)
        requires
            !is_click(action),
        ensures
            final(self).modifiers_spec() == modifiers_after_action(
                old(self).modifiers_spec(),
                action,
            ),
            final(self).button_state_spec() == buttons_after_action(
                old(self).button_state_spec(),
                action,
            ),
            consistent(final(self).modifiers_spec()),
            events@ == action_events(
                action,
                final(self).modifiers_spec(),
                final(self).button_state_spec(),
            ),
    {
        proof {
            use_type_invariant(&*self);
        }
        match action {
            Command::KeyDown(key, repeat) => self.key_down(key, repeat),
            Command::KeyUp(key) => self.key_up(key),
            Command::MouseDown(button, click_count) => self.mouse_down(button, click_count),
            Command::MouseUp(button, click_count) => self.mouse_up(button, click_count),
            Command::MouseMoveRel(dx, dy) => {
                let events = vec![Event::MoveRel { dx, dy, buttons: self.button_state }];
                assert(events@ =~= action_events(action, self.modifiers, self.button_state));
                events
            },
            Command::MouseMoveAbs(x, y) => {
                let events = vec![Event::MoveAbs { x, y, buttons: self.button_state }];
                assert(events@ =~= action_events(action, self.modifiers, self.button_state));
                events
            },
            Command::MouseWarp(x, y) => {
                let events = vec![Event::Warp { x, y }];
                assert(events@ =~= action_events(action, self.modifiers, self.button_state));
                events
            },
            Command::MouseScroll(dx, dy) => {
                let events = vec![Event::Scroll { dx, dy }];
                assert(events@ =~= action_events(action, self.modifiers, self.button_state));
                events
            },
            Command::KeyClick(_) | Command::MouseClick(_, _) => Vec::new(),
        }
    }

    /// One step of a command. The sink delivers the events that come back, in
    /// order, and the next step is told in `delivered` whether all of them
    /// arrived; the command is over when the stage that comes back is
    /// `Succeeded` or `Failed`. At `Begin` the flag is not looked at.
    ///
    /// A click is its press, then its release. Where the press did not
    /// arrive, the release never happens: the step changes nothing, hands
    /// out no event and ends the click as failed.
    pub fn dispatch(&mut self, command: Command, stage: Stage, delivered: bool) -> (r: (
        Stage,
        Vec<Event>,
    ))
        ensures
            r.0 == stage_after(command, stage, delivered),
            consistent(final(self).modifiers_spec()),
            match step_action(command, stage, delivered) {
                Some(action) => {
                    &&& final(self).modifiers_spec() == modifiers_after_action(
                        old(self).modifiers_spec(),
                        action,
                    )
                    &&& final(self).button_state_spec() == buttons_after_action(
                        old(self).button_state_spec(),
                        action,
                    )
                    &&& r.1@ == action_events(
                        action,
                        final(self).modifiers_spec(),
                        final(self).button_state_spec(),
                    )
                },
                None => {
                    &&& final(self).modifiers_spec() == old(self).modifiers_spec()
                    &&& final(self).button_state_spec() == old(self).button_state_spec()
                    &&& r.1@ == Seq::<Event>::empty()
                },
            },
    {
        proof {
            use_type_invariant(&*self);
        }
        let click: bool = match command {
            Command::KeyClick(_) | Command::MouseClick(_, _) => true,
            _ => false,
        };
        match stage {
            Stage::Begin => {
                let events = match command {
                    Command::KeyClick(key) => self.act(Command::KeyDown(key, false)),
                    Command::MouseClick(button, count) => self.act(
                        Command::MouseDown(button, count),
                    ),
                    _ => self.act(command),
                };
                (
                    if click {
                        Stage::Pressed
                    } else {
                        Stage::Last
                    },
                    events,
                )
            },
            Stage::Pressed => {
                if !delivered {
                    (Stage::Failed, Vec::new())
                } else {
                    match command {
                        Command::KeyClick(key) => (Stage::Last, self.act(Command::KeyUp(key))),
                        Command::MouseClick(button, count) => (
                            Stage::Last,
                            self.act(Command::MouseUp(button, count)),
                        ),
                        _ => (Stage::Succeeded, Vec::new()),
                    }
                }
            },
            Stage::Last => (
                if delivered {
                    Stage::Succeeded
                } else {
                    Stage::Failed
                },
                Vec::new(),
            ),
            Stage::Succeeded => (Stage::Succeeded, Vec::new()),
            Stage::Failed => (Stage::Failed, Vec::new()),
        }
    }

    /// One step of pressing and releasing a key.
    pub fn key_click(&mut self, key: Key, stage: Stage, delivered: bool) -> (r: (Stage, Vec<Event>))
        ensures
            r.0 == stage_after(Command::KeyClick(key), stage, delivered),
            consistent(final(self).modifiers_spec()),
            final(self).button_state_spec() == old(self).button_state_spec(),
            stage == Stage::Begin ==> final(self).modifiers_spec() == modifiers_after(
                old(self).modifiers_spec(),
                key,
                true,
            ) && r.1@ == key_events(key, false, true, final(self).modifiers_spec()),
            stage == Stage::Pressed && delivered ==> final(self).modifiers_spec()
                == modifiers_after(old(self).modifiers_spec(), key, false) && r.1@ == key_events(
                key,
                false,
                false,
                final(self).modifiers_spec(),
            ),
            !(stage == Stage::Begin || (stage == Stage::Pressed && delivered)) ==> {
                &&& final(self).modifiers_spec() == old(self).modifiers_spec()
                &&& r.1@ == Seq::<Event>::empty()
            },
    {
        self.dispatch(Command::KeyClick(key), stage, delivered)
    }

    /// One step of pressing and releasing a mouse button.
    pub fn mouse_click(
        &mut self,
        button: MouseButton,
        click_count: u32,
        stage: Stage,
        delivered: bool,
    ) -> (r: (Stage, Vec<Event>))
        ensures
            r.0 == stage_after(Command::MouseClick(button, click_count), stage, delivered),
            final(self).modifiers_spec() == old(self).modifiers_spec(),
            stage == Stage::Begin ==> final(self).button_state_spec() == buttons_after(
                old(self).button_state_spec(),
                button,
                true,
            ) && r.1@ == seq![
                Event::ButtonDown { button, click_count, buttons: final(self).button_state_spec() },
            ],
            stage == Stage::Pressed && delivered ==> final(self).button_state_spec()
                == buttons_after(old(self).button_state_spec(), button, false) && r.1@ == seq![
                Event::ButtonUp { button, click_count, buttons: final(self).button_state_spec() },
            ],
            !(stage == Stage::Begin || (stage == Stage::Pressed && delivered)) ==> {
                &&& final(self).button_state_spec() == old(self).button_state_spec()
                &&& r.1@ == Seq::<Event>::empty()
            },
    {
        self.dispatch(Command::MouseClick(button, click_count), stage, delivered)
    }
}

} // verus!
