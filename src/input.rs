use vstd::prelude::*;

use crate::camera::Movement;

verus! {

/// What happened to a key: pressed, held long enough to repeat, or released.
#[derive(Clone, Copy, Debug, PartialEq, Eq, Structural)]
pub enum KeyAction {
    Press,
    Repeat,
    Release,
}

/// The keys that drive the viewer; every other key is `Other`.
#[derive(Clone, Copy, Debug, PartialEq, Eq, Structural)]
pub enum ControlKey {
    Escape,
    W,
    S,
    A,
    D,
    Other,
}

/// What the viewer does in answer to a key event.
#[derive(Clone, Copy, Debug, PartialEq, Eq, Structural)]
pub enum Command {
    /// Close the window.
    Close,
    /// Move the camera for the time of the current frame.
    Move(Movement),
    /// Nothing.
    Ignore,
}

/// Escape closes the window when it is pressed; W, S, A and D move the camera
/// forward, backward, left and right while they are down (pressed or
/// repeating); nothing else has an effect.
pub open spec fn command_for(key: ControlKey, action: KeyAction) -> Command {
    let down = action != KeyAction::Release;
    match key {
        ControlKey::Escape => if action == KeyAction::Press {
            Command::Close
        } else {
            Command::Ignore
        },
        ControlKey::W => if down {
            Command::Move(Movement::Forward)
        } else {
            Command::Ignore
        },
        ControlKey::S => if down {
            Command::Move(Movement::BackWard)
        } else {
            Command::Ignore
        },
        ControlKey::A => if down {
            Command::Move(Movement::Left)
        } else {
            Command::Ignore
        },
        ControlKey::D => if down {
            Command::Move(Movement::Right)
        } else {
            Command::Ignore
        },
        ControlKey::Other => Command::Ignore,
    }
}

/// The command that a key event asks for.
pub fn key_command(key: ControlKey, action: KeyAction) -> (r: Command)
    ensures
        r == command_for(key, action),
{
    let down = match action {
        KeyAction::Release => false,
        _ => true,
    };
    match key {
        ControlKey::Escape => match action {
            KeyAction::Press => Command::Close,
            _ => Command::Ignore,
        },
        ControlKey::W if down => Command::Move(Movement::Forward),
        ControlKey::S if down => Command::Move(Movement::BackWard),
        ControlKey::A if down => Command::Move(Movement::Left),
        ControlKey::D if down => Command::Move(Movement::Right),
        _ => Command::Ignore,
    }
}

} // verus!
