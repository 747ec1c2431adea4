//! The application core that stands between the OS event stream and the
//! opaque inner application: it tracks modifier state, gives every
//! window event to the shortcut table first, and records document
//! replacements in the shared navigation state.

use vstd::prelude::*;
use crate::keys::{
    decision_of, mods_after, EventDecision, InterceptEvent, Key, ModifierKeys, ShortcutAction,
};
use crate::nav::{set_current_model, NavigationState};

verus! {

/// The mathematical model of [`FrontierApplication`].
pub struct AppModel {
    pub keyboard_modifiers: ModifierKeys,
    pub last_rendered_url: Seq<char>,
}

/// The interceptor's own state: the modifier keys currently held, as
/// mirrored from the OS, and the location last rendered into the window.
/// The inner application, the window, and the document handle live with
/// the caller; this core only decides and records.
pub struct FrontierApplication {
    keyboard_modifiers: ModifierKeys,
    last_rendered_url: String,
}

impl View for FrontierApplication {
    type V = AppModel;

    closed spec fn view(&self) -> AppModel {
        AppModel {
            keyboard_modifiers: self.keyboard_modifiers,
            last_rendered_url: self.last_rendered_url@,
        }
    }
}

impl FrontierApplication {
    /// A fresh interceptor: no modifiers held, nothing rendered yet.
    pub fn new() -> (app: Self)
        ensures
            app@.keyboard_modifiers == (ModifierKeys { control: false, platform: false }),
            app@.last_rendered_url == Seq::<char>::empty(),
    {
        Self {
            keyboard_modifiers: ModifierKeys { control: false, platform: false },
            last_rendered_url: String::new(),
        }
    }

    /// Inspect one window event before the inner application sees it.
    /// A modifier-changed event replaces the tracked modifier state and
    /// is still forwarded; a key press under an active chord whose key
    /// the shortcut table binds is consumed, with the bound action for
    /// the caller to perform; everything else is forwarded as it came.
    pub fn window_event(&mut self, event: InterceptEvent) -> (d: EventDecision)
        ensures
            d == decision_of(old(self)@.keyboard_modifiers, event),
            final(self)@.keyboard_modifiers == mods_after(old(self)@.keyboard_modifiers, event),
            final(self)@.last_rendered_url == old(self)@.last_rendered_url,
    {
        if let InterceptEvent::ModifiersChanged(new_state) = event {
            self.keyboard_modifiers = new_state;
            return EventDecision::Forward(event);
        }
        if let InterceptEvent::KeyboardInput { key, pressed } = event {
            let mods = self.keyboard_modifiers;
            if pressed && (mods.control || mods.platform) {
                match key {
                    Key::KeyK => {
                        return EventDecision::Consume(ShortcutAction::CommandPalette);
                    },
                    Key::KeyR => {
                        return EventDecision::Consume(ShortcutAction::Reload);
                    },
                    Key::Other => {},
                }
            }
            return EventDecision::Forward(event);
        }
        EventDecision::Forward(event)
    }

    /// Record a document replacement: the shared navigation state's
    /// displayed content and location become the given ones, and the
    /// location is remembered as the last rendered. The caller replaces
    /// the actual document handle; any staged pending navigation is left
    /// alone.
    pub fn update_document(&mut self, state: &mut NavigationState, html: &str, url: &str)
        ensures
            final(state)@ == set_current_model(old(state)@, html@, url@),
            final(self)@.last_rendered_url == url@,
            final(self)@.keyboard_modifiers == old(self)@.keyboard_modifiers,
    {
        state.set_current(html, url);
        self.last_rendered_url = url.to_owned();
    }

    /// The location last rendered into the window.
    pub fn last_rendered_url(&self) -> (r: &String)
        ensures
            r@ == self@.last_rendered_url,
    {
        &self.last_rendered_url
    }
}

} // verus!
