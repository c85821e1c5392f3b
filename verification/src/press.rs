//! The press classifier: from the MIDI messages of one port to the actions of
//! one binding.

use vstd::prelude::*;
use crate::binding::{Binding, BindingModel};
use crate::conf::{Exec, ExecModel, Input};

verus! {

/// A command that is ready to be run.
#[derive(Debug, PartialEq, Eq)]
pub enum Action {
    Exec(Exec),
}

impl View for Action {
    type V = ExecModel;

    open spec fn view(&self) -> ExecModel {
        match self {
            Action::Exec(e) => e@,
        }
    }
}

impl Clone for Action {
    fn clone(&self) -> (copy: Action)
        ensures
            copy@ == self@,
    {
        match self {
            Action::Exec(e) => Action::Exec(e.clone()),
        }
    }
}

/// The action that a configured input asks for.
pub fn get_action(input: &Input) -> (action: Action)
    ensures
        action@ == input.command@,
{
    Action::Exec(input.command.clone())
}

/// What a message means to a binding.
#[derive(Debug, PartialEq, Eq, Clone, Copy)]
pub enum NoteEvent {
    /// The binding's note was pressed.
    On,
    /// The binding's note was released.
    Off,
    /// Anything else: another note, another kind of message, a fragment.
    Other,
}

/// Reads a raw message for the binding of `note`. The first byte's high
/// nibble tells the kind (`0x9` pressed, `0x8` released, on any channel), the
/// second byte is the note.
pub open spec fn note_event(note: u8, message: Seq<u8>) -> NoteEvent {
    if message.len() < 2 || message[1] != note {
        NoteEvent::Other
    } else if 0x90 <= message[0] <= 0x9F {
        NoteEvent::On
    } else if 0x80 <= message[0] <= 0x8F {
        NoteEvent::Off
    } else {
        NoteEvent::Other
    }
}

/// A press from `pressed` to `released`, both in microseconds of the port's
/// clock, lasted strictly longer than `hold_nanos`. A release that is stamped
/// before its press is never long enough.
pub open spec fn held_longer(hold_nanos: u128, pressed: u64, released: u64) -> bool {
    pressed <= released && (released - pressed) * 1000 > hold_nanos
}

/// The press that is waiting for its release after a message, given the one
/// that was waiting before it.
pub open spec fn pending_after(
    binding: BindingModel,
    pending: Option<(u64, ExecModel)>,
    timestamp: u64,
    message: Seq<u8>,
) -> Option<(u64, ExecModel)> {
    if binding.hold_nanos == 0 {
        pending
    } else {
        match note_event(binding.note, message) {
            NoteEvent::On => Some((timestamp, binding.action)),
            NoteEvent::Off => None,
            NoteEvent::Other => pending,
        }
    }
}

/// The action that a message triggers, if any.
pub open spec fn triggered(
    binding: BindingModel,
    pending: Option<(u64, ExecModel)>,
    timestamp: u64,
    message: Seq<u8>,
) -> Option<ExecModel> {
    match note_event(binding.note, message) {
        NoteEvent::On => if binding.hold_nanos == 0 {
            Some(binding.action)
        } else {
            None
        },
        NoteEvent::Off => match pending {
            Some((pressed, action)) => if binding.hold_nanos != 0 && held_longer(
                binding.hold_nanos,
                pressed,
                timestamp,
            ) {
                Some(action)
            } else {
                None
            },
            None => None,
        },
        NoteEvent::Other => None,
    }
}

/// The state of one binding between two messages: the press that waits for
/// its release, with the time it was made at and the action it would trigger.
#[derive(Debug, PartialEq, Eq)]
pub struct PressState {
    pub pending: Option<(u64, Action)>,
}

impl View for PressState {
    type V = Option<(u64, ExecModel)>;

    open spec fn view(&self) -> Option<(u64, ExecModel)> {
        match self.pending {
            Some((pressed, action)) => Some((pressed, action@)),
            None => None,
        }
    }
}

impl PressState {
    /// The state before any message: nothing is pending.
    pub fn new() -> (state: PressState)
        ensures
            state@ is None,
    {
        PressState { pending: None }
    }
}

/// Tells a raw message's meaning for the binding of `note`.
pub fn read_event(note: u8, message: &[u8]) -> (event: NoteEvent)
    ensures
        event == note_event(note, message@),
{
    if message.len() < 2 || message[1] != note {
        NoteEvent::Other
    } else if 0x90 <= message[0] && message[0] <= 0x9F {
        NoteEvent::On
    } else if 0x80 <= message[0] && message[0] <= 0x8F {
        NoteEvent::Off
    } else {
        NoteEvent::Other
    }
}

/// Whether a press lasted strictly longer than the hold time.
pub fn is_held_longer(hold_nanos: u128, pressed: u64, released: u64) -> (long: bool)
    ensures
        long == held_longer(hold_nanos, pressed, released),
{
    if released < pressed {
        false
    } else {
        let elapsed: u128 = (released - pressed) as u128;
        elapsed * 1000 > hold_nanos
    }
}

/// Takes one message of the binding's port, with the port's timestamp in
/// microseconds, and returns the action to queue, if the message completes a
/// press that the binding asks for. Never blocks and never fails: a message
/// that means nothing to the binding leaves the state as it is.
pub fn classify(
    binding: &Binding,
    state: &mut PressState,
    timestamp: u64,
    message: &[u8],
) -> (action: Option<Action>)
    ensures
        final(state)@ == pending_after(binding@, old(state)@, timestamp, message@),
        match action {
            Some(a) => triggered(binding@, old(state)@, timestamp, message@) == Some(a@),
            None => triggered(binding@, old(state)@, timestamp, message@) is None,
        },
{
    match read_event(binding.note, message) {
        NoteEvent::On => {
            let action = binding.action.clone();
            if binding.hold_nanos == 0 {
                Some(action)
            } else {
                state.pending = Some((timestamp, action));
                None
            }
        },
        NoteEvent::Off => {
            if binding.hold_nanos == 0 {
                None
            } else {
                match state.pending.take() {
                    Some((pressed, action)) => {
                        if is_held_longer(binding.hold_nanos, pressed, timestamp) {
                            Some(action)
                        } else {
                            None
                        }
                    },
                    None => None,
                }
            }
        },
        NoteEvent::Other => None,
    }
}

/// With no hold time, pressing the note triggers the binding's action at
/// once, whatever was pending, and releasing it afterwards triggers nothing.
pub proof fn short_press_fires_once(
    binding: BindingModel,
    pending: Option<(u64, ExecModel)>,
    pressed: u64,
    press: Seq<u8>,
    released: u64,
    release: Seq<u8>,
)
    requires
        binding.hold_nanos == 0,
        note_event(binding.note, press) == NoteEvent::On,
        note_event(binding.note, release) == NoteEvent::Off,
    ensures
        triggered(binding, pending, pressed, press) == Some(binding.action),
        triggered(binding, pending_after(binding, pending, pressed, press), released, release)
            is None,
{
}

/// With a hold time, pressing the note triggers nothing, and releasing it
/// triggers the binding's action if and only if the time between the two is
/// strictly longer than the hold time. After the release nothing is pending.
pub proof fn long_press_fires_iff_held_longer(
    binding: BindingModel,
    pending: Option<(u64, ExecModel)>,
    pressed: u64,
    press: Seq<u8>,
    released: u64,
    release: Seq<u8>,
)
    requires
        binding.hold_nanos > 0,
        note_event(binding.note, press) == NoteEvent::On,
        note_event(binding.note, release) == NoteEvent::Off,
    ensures
        triggered(binding, pending, pressed, press) is None,
        triggered(binding, pending_after(binding, pending, pressed, press), released, release)
            == (if held_longer(binding.hold_nanos, pressed, released) {
            Some(binding.action)
        } else {
            None
        }),
        pressed <= released ==> (triggered(
            binding,
            pending_after(binding, pending, pressed, press),
            released,
            release,
        ) is Some <==> (released - pressed) * 1000 > binding.hold_nanos),
        pending_after(
            binding,
            pending_after(binding, pending, pressed, press),
            released,
            release,
        ) is None,
{
}

/// A second press before the release takes the place of the first: the two
/// presses trigger nothing, the release is measured against the second press
/// alone, and a further release triggers nothing.
pub proof fn second_press_replaces_first(
    binding: BindingModel,
    pending: Option<(u64, ExecModel)>,
    first: u64,
    second: u64,
    press: Seq<u8>,
    released: u64,
    later: u64,
    release: Seq<u8>,
)
    requires
        binding.hold_nanos > 0,
        note_event(binding.note, press) == NoteEvent::On,
        note_event(binding.note, release) == NoteEvent::Off,
    ensures
        ({
            let one = pending_after(binding, pending, first, press);
            let two = pending_after(binding, one, second, press);
            let three = pending_after(binding, two, released, release);
            &&& triggered(binding, pending, first, press) is None
            &&& triggered(binding, one, second, press) is None
            &&& two == Some((second, binding.action))
            &&& triggered(binding, two, released, release) is Some <==> held_longer(
                binding.hold_nanos,
                second,
                released,
            )
            &&& three is None
            &&& triggered(binding, three, later, release) is None
        }),
{
}

/// A release with no press pending changes nothing and triggers nothing.
pub proof fn stray_release_is_ignored(binding: BindingModel, released: u64, release: Seq<u8>)
    requires
        note_event(binding.note, release) == NoteEvent::Off,
    ensures
        triggered(binding, None, released, release) is None,
        pending_after(binding, None, released, release) is None,
{
}

} // verus!
