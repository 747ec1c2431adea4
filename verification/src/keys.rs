//! The event interceptor: tracks modifier-key state and decides, for
//! every incoming window event, whether it is consumed by a keyboard
//! shortcut or forwarded unchanged to the inner application.

use vstd::prelude::*;

verus! {

/// Shortcut identifier shared with the embedding host: open the command
/// palette.
pub const SHORTCUT_CMD_K: u8 = 1;

/// Shortcut identifier shared with the embedding host: reload.
pub const SHORTCUT_CMD_R: u8 = 2;

/// The modifier keys the shortcut table cares about: the
/// control-equivalent key and the platform (command/super) key.
#[derive(Clone, Copy, Debug, PartialEq, Eq, Structural)]
pub struct ModifierKeys {
    pub control: bool,
    pub platform: bool,
}

/// The physical keys that can appear in the shortcut table; every other
/// key is collapsed into `Other`.
#[derive(Clone, Copy, Debug, PartialEq, Eq, Structural)]
pub enum Key {
    KeyK,
    KeyR,
    Other,
}

/// An action bound to a shortcut-table entry.
#[derive(Clone, Copy, Debug, PartialEq, Eq, Structural)]
pub enum ShortcutAction {
    CommandPalette,
    Reload,
}

/// The part of a window event that the interceptor inspects.
#[derive(Clone, Copy, Debug, PartialEq, Eq, Structural)]
pub enum InterceptEvent {
    ModifiersChanged(ModifierKeys),
    KeyboardInput { key: Key, pressed: bool },
    Other,
}

/// The interceptor's verdict on one event: consume it and perform the
/// bound action, or hand the event, unchanged, to the inner application.
#[derive(Clone, Copy, Debug, PartialEq, Eq, Structural)]
pub enum EventDecision {
    Consume(ShortcutAction),
    Forward(InterceptEvent),
}

/// The shortcut table: which action, if any, is bound to a physical key
/// (the modifier chord is the same for every entry).
pub open spec fn shortcut_for(key: Key) -> Option<ShortcutAction> {
    match key {
        Key::KeyK => Some(ShortcutAction::CommandPalette),
        Key::KeyR => Some(ShortcutAction::Reload),
        Key::Other => None,
    }
}

/// The shortcut chord is active when either the control-equivalent or
/// the platform modifier is held; either one alone satisfies a match.
pub open spec fn chord_active(mods: ModifierKeys) -> bool {
    mods.control || mods.platform
}

/// The host-visible identifier of an action.
pub open spec fn action_id(action: ShortcutAction) -> u8 {
    match action {
        ShortcutAction::CommandPalette => SHORTCUT_CMD_K,
        ShortcutAction::Reload => SHORTCUT_CMD_R,
    }
}

/// What the interceptor decides about one event, given the modifier
/// state held when the event arrives: only a key press under an active
/// chord whose key is in the shortcut table is consumed; everything
/// else, modifier changes included, is forwarded as it came in.
pub open spec fn decision_of(mods: ModifierKeys, event: InterceptEvent) -> EventDecision {
    match event {
        InterceptEvent::KeyboardInput { key, pressed } => {
            if pressed && chord_active(mods) && shortcut_for(key) is Some {
                EventDecision::Consume(shortcut_for(key)->Some_0)
            } else {
                EventDecision::Forward(event)
            }
        },
        _ => EventDecision::Forward(event),
    }
}

/// The modifier state after an event: a modifier-changed event replaces
/// it wholesale, every other event leaves it alone.
pub open spec fn mods_after(mods: ModifierKeys, event: InterceptEvent) -> ModifierKeys {
    match event {
        InterceptEvent::ModifiersChanged(new_mods) => new_mods,
        _ => mods,
    }
}

impl ShortcutAction {
    /// The identifier under which the embedding host knows this action.
    pub fn id(&self) -> (r: u8)
        ensures
            r == action_id(*self),
    {
        match self {
            ShortcutAction::CommandPalette => SHORTCUT_CMD_K,
            ShortcutAction::Reload => SHORTCUT_CMD_R,
        }
    }
}

/// A key press under an active chord whose key the shortcut table binds
/// is always consumed, and the decision carries exactly the bound
/// action, so the inner application never observes the event and the
/// action is performed once per such press.
pub proof fn lemma_shortcut_consumed(mods: ModifierKeys, key: Key, action: ShortcutAction)
    requires
        chord_active(mods),
        shortcut_for(key) == Some(action),
    ensures
        decision_of(mods, InterceptEvent::KeyboardInput { key, pressed: true })
            == EventDecision::Consume(action),
{
}

/// A key event that matches no table entry — released, chord inactive,
/// or an unbound key — is forwarded exactly as it arrived.
pub proof fn lemma_unmatched_key_forwarded(mods: ModifierKeys, key: Key, pressed: bool)
    requires
        !pressed || !chord_active(mods) || shortcut_for(key) is None,
    ensures
        decision_of(mods, InterceptEvent::KeyboardInput { key, pressed })
            == EventDecision::Forward(InterceptEvent::KeyboardInput { key, pressed }),
{
}

/// A modifier-changed event is never consumed: it is forwarded to the
/// inner application unchanged, whatever the chord or table say, and the
/// tracked modifier state becomes the event's new state.
pub proof fn lemma_modifiers_always_forwarded(mods: ModifierKeys, new_mods: ModifierKeys)
    ensures
        decision_of(mods, InterceptEvent::ModifiersChanged(new_mods))
            == EventDecision::Forward(InterceptEvent::ModifiersChanged(new_mods)),
        mods_after(mods, InterceptEvent::ModifiersChanged(new_mods)) == new_mods,
{
}

} // verus!
