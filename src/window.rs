use vstd::prelude::*;

verus! {

/// A window event, as far as the main loop reads it.
#[derive(Debug, Clone, Copy, PartialEq, Eq)]
pub enum WindowInput {
    CloseRequested,
    Key { escape: bool, pressed: bool },
    Other,
}

/// Whether the main loop keeps running.
#[derive(Debug, Clone, Copy, PartialEq, Eq)]
pub enum LoopControl {
    Continue,
    Exit,
}

/// The loop exits on a close request or a press of the escape key.
pub open spec fn exits_on(input: WindowInput) -> bool {
    match input {
        WindowInput::CloseRequested => true,
        WindowInput::Key { escape, pressed } => escape && pressed,
        WindowInput::Other => false,
    }
}

/// What the main loop does after `input`.
pub fn control_for(input: &WindowInput) -> (r: LoopControl)
    ensures
        r == (if exits_on(*input) {
            LoopControl::Exit
        } else {
            LoopControl::Continue
        }),
{
    match input {
        WindowInput::CloseRequested => LoopControl::Exit,
        WindowInput::Key { escape, pressed } => if *escape && *pressed {
            LoopControl::Exit
        } else {
            LoopControl::Continue
        },
        WindowInput::Other => LoopControl::Continue,
    }
}

} // verus!
