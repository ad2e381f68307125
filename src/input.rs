//! Keyboard dispatch: which command a physical key produces.
use vstd::prelude::*;

verus! {

/// The physical keys the session binds; every other key is `Other`.
#[derive(Clone, Copy, Debug, PartialEq, Eq, Structural)]
pub enum Key {
    Escape,
    W,
    A,
    S,
    D,
    F,
    Other,
}

/// A movement direction, bound to the W, A, S and D keys.
#[derive(Clone, Copy, Debug, PartialEq, Eq, Structural)]
pub enum Direction {
    Forward,
    Left,
    Back,
    Right,
}

/// What a key event asks of the loop.
#[derive(Clone, Copy, Debug, PartialEq, Eq, Structural)]
pub enum KeyCommand {
    /// Ends the event loop.
    Exit,
    /// Moves in a direction.
    Move(Direction),
    /// The action key.
    Interact,
    /// No effect at all.
    Ignore,
}

/// The command a key produces: only presses are bound.
pub open spec fn key_command(key: Key, is_pressed: bool) -> KeyCommand {
    if !is_pressed {
        KeyCommand::Ignore
    } else {
        match key {
            Key::Escape => KeyCommand::Exit,
            Key::W => KeyCommand::Move(Direction::Forward),
            Key::A => KeyCommand::Move(Direction::Left),
            Key::S => KeyCommand::Move(Direction::Back),
            Key::D => KeyCommand::Move(Direction::Right),
            Key::F => KeyCommand::Interact,
            Key::Other => KeyCommand::Ignore,
        }
    }
}

/// Whether a key is one of the bound keys.
pub open spec fn is_bound(key: Key) -> bool {
    key != Key::Other
}

/// Maps a key event to its command.
pub fn dispatch_key(key: Key, is_pressed: bool) -> (r: KeyCommand)
    ensures
        r == key_command(key, is_pressed),
{
    if !is_pressed {
        return KeyCommand::Ignore;
    }
    match key {
        Key::Escape => KeyCommand::Exit,
        Key::W => KeyCommand::Move(Direction::Forward),
        Key::A => KeyCommand::Move(Direction::Left),
        Key::S => KeyCommand::Move(Direction::Back),
        Key::D => KeyCommand::Move(Direction::Right),
        Key::F => KeyCommand::Interact,
        Key::Other => KeyCommand::Ignore,
    }
}

/// A key outside the bound set has no effect, pressed or released: it
/// neither ends the loop nor asks for any change.
pub proof fn lemma_unbound_key_has_no_effect(key: Key, is_pressed: bool)
    requires
        !is_bound(key),
    ensures
        key_command(key, is_pressed) == KeyCommand::Ignore,
{
}

/// Pressing Escape always ends the loop; releasing it never does, and no
/// other key ends it either.
pub proof fn lemma_exit_only_on_escape_press(key: Key, is_pressed: bool)
    ensures
        key_command(key, is_pressed) == KeyCommand::Exit <==> (key == Key::Escape && is_pressed),
{
}

} // verus!
