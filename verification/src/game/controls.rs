//! What reaches the game from the overlay and the keyboard: the settings of
//! the template, the mode, the text of the labels and the wish to end.

use crate::game::{cap_asked, mode_after, template_after, Game, PanelChanges, Template};
use crate::input::{action_of, key_action, Key, KeyAction};
use crate::interaction::toggled;
use crate::text::{text_after, type_char};
use crate::ticker::{frame_cap, FrameCap};
use let_engine::objects::{Color, Transform};
use vstd::prelude::*;

verus! {

impl Game {
    /// The text that the labels show.
    pub fn text(&self) -> (text: &String)
        ensures
            text@ == self.label(),
    {
        &self.text
    }

    /// Whether the overlay has the pointer or the keyboard.
    pub fn captured(&self) -> (captured: bool)
        ensures
            captured == self.is_captured(),
    {
        self.captured
    }

    /// Whether the game was asked to end. The main loop looks at this
    /// between two frames, the physics loop between two steps.
    pub fn exit(&self) -> (closing: bool)
        ensures
            closing == self.is_closing(),
    {
        self.closing
    }

    /// Notes whether the overlay has the pointer or the keyboard. While it
    /// has, frames are skipped and typed characters are passed over.
    pub fn set_captured(&mut self, captured: bool)
        requires
            old(self).wf(),
        ensures
            final(self).wf(),
            final(self).is_captured() == captured,
            final(self).same_play(old(self)),
            final(self).world() == old(self).world(),
            final(self).pattern() == old(self).pattern(),
            final(self).panning() == old(self).panning(),
            final(self).label() == old(self).label(),
            final(self).is_closing() == old(self).is_closing(),
    {
        self.captured = captured;
    }

    /// Asks the game to end. There is no way back.
    pub fn request_exit(&mut self)
        requires
            old(self).wf(),
        ensures
            final(self).wf(),
            final(self).is_closing(),
            final(self).same_play(old(self)),
            final(self).world() == old(self).world(),
            final(self).pattern() == old(self).pattern(),
            final(self).panning() == old(self).panning(),
            final(self).label() == old(self).label(),
            final(self).is_captured() == old(self).is_captured(),
    {
        self.closing = true;
    }

    /// Takes a character that the keyboard sent: it changes the text of the
    /// labels, unless the overlay has the keyboard. Tells whether the
    /// character was taken.
    pub fn input(&mut self, typed: char) -> (taken: bool)
        requires
            old(self).wf(),
        ensures
            final(self).wf(),
            taken == !old(self).is_captured(),
            final(self).label() == if old(self).is_captured() {
                old(self).label()
            } else {
                text_after(old(self).label(), typed)
            },
            final(self).same_play(old(self)),
            final(self).world() == old(self).world(),
            final(self).pattern() == old(self).pattern(),
            final(self).panning() == old(self).panning(),
            final(self).is_captured() == old(self).is_captured(),
            final(self).is_closing() == old(self).is_closing(),
    {
        if self.captured {
            false
        } else {
            type_char(&mut self.text, typed);
            true
        }
    }

    /// Changes to the other mode. The target does not outlive the change.
    pub fn toggle_mode(&mut self)
        requires
            old(self).wf(),
        ensures
            final(self).wf(),
            final(self).same_setup(old(self)),
            final(self).scene() == old(self).scene(),
            final(self).links() == old(self).links(),
            final(self).state() == toggled(old(self).state()),
    {
        self.interaction.toggle_mode();
    }

    /// Takes what one pass of the overlay left behind: the template and the
    /// mode follow the widgets, and the frames are skipped from now on if
    /// the overlay has the pointer. Gives back the cap on the frame rate
    /// that the pass asks for. Objects that are already in the scene stay
    /// as they are.
    pub fn apply_panel(&mut self, changes: PanelChanges) -> (cap: Option<FrameCap>)
        requires
            old(self).wf(),
        ensures
            final(self).wf(),
            cap == cap_asked(changes),
            final(self).pattern() == template_after(old(self).pattern(), changes),
            final(self).state() == mode_after(old(self).state(), changes),
            final(self).is_captured() == changes.captured,
            final(self).scene() == old(self).scene(),
            final(self).links() == old(self).links(),
            final(self).world() == old(self).world(),
            final(self).panning() == old(self).panning(),
            final(self).label() == old(self).label(),
            final(self).is_closing() == old(self).is_closing(),
    {
        self.template.anchored = changes.anchored;
        self.template.shape = changes.shape;
        if let Some(color) = changes.color {
            self.template.color = color;
        }
        if changes.toggle_mode {
            self.interaction.toggle_mode();
        }
        self.captured = changes.captured;
        match changes.fps_cap {
            Some(asked) => Some(frame_cap(asked)),
            None => None,
        }
    }

    /// Takes a key that went down or, with `released`, up. Escape asks the
    /// game to end. Gives back what the key asks for.
    pub fn key(&mut self, key: Key, released: bool) -> (action: KeyAction)
        requires
            old(self).wf(),
        ensures
            final(self).wf(),
            action == action_of(key, released),
            final(self).is_closing() == (old(self).is_closing() || action == KeyAction::Exit),
            final(self).same_play(old(self)),
            final(self).world() == old(self).world(),
            final(self).pattern() == old(self).pattern(),
            final(self).panning() == old(self).panning(),
            final(self).label() == old(self).label(),
            final(self).is_captured() == old(self).is_captured(),
    {
        let action = key_action(key, released);
        if action == KeyAction::Exit {
            self.closing = true;
        }
        action
    }

    /// Replaces what the next object is made from. Objects that are already
    /// in the scene stay as they are.
    pub fn set_template(&mut self, template: Template)
        requires
            old(self).wf(),
        ensures
            final(self).wf(),
            final(self).pattern() == template,
            final(self).world() == old(self).world(),
            final(self).panning() == old(self).panning(),
            final(self).same_play(old(self)),
            final(self).same_controls(old(self)),
    {
        self.template = template;
    }

    /// Sets size and rotation of the next object.
    pub fn set_shape(&mut self, shape: Transform)
        requires
            old(self).wf(),
        ensures
            final(self).wf(),
            final(self).pattern() == (Template { shape, ..old(self).pattern() }),
            final(self).world() == old(self).world(),
            final(self).panning() == old(self).panning(),
            final(self).same_play(old(self)),
            final(self).same_controls(old(self)),
    {
        self.template.shape = shape;
    }

    /// Sets the colour of the next object.
    pub fn set_color(&mut self, color: Color)
        requires
            old(self).wf(),
        ensures
            final(self).wf(),
            final(self).pattern() == (Template { color, ..old(self).pattern() }),
            final(self).world() == old(self).world(),
            final(self).panning() == old(self).panning(),
            final(self).same_play(old(self)),
            final(self).same_controls(old(self)),
    {
        self.template.color = color;
    }

    /// Sets whether the next object is anchored.
    pub fn set_anchored(&mut self, anchored: bool)
        requires
            old(self).wf(),
        ensures
            final(self).wf(),
            final(self).pattern() == (Template { anchored, ..old(self).pattern() }),
            final(self).world() == old(self).world(),
            final(self).panning() == old(self).panning(),
            final(self).same_play(old(self)),
            final(self).same_controls(old(self)),
    {
        self.template.anchored = anchored;
    }
}

} // verus!
