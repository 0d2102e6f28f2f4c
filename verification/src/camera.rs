//! The camera pan: where a drag with the middle button is anchored.
//!
//! When the middle button goes down, the pointer and the camera are noted as
//! a pair. While the button stays down the camera follows the pointer
//! relative to that pair; the arithmetic is the caller's. A release resets
//! nothing: the next press notes a fresh pair.

use crate::input::Button;
use let_engine::Vec2;
use vstd::prelude::*;

verus! {

/// The pair that a pan is measured from.
#[derive(Clone, Copy, Debug)]
pub struct PanAnchor {
    /// Where the pointer was when the button went down, in coordinates that
    /// do not change with the zoom.
    pub pointer: Vec2,
    /// Where the camera was at that moment.
    pub camera: Vec2,
}

/// The memory of the pan between two frames.
#[derive(Clone, Copy, Debug)]
pub struct Pan {
    /// The middle button as the last frame saw it.
    pub middle: Button,
    /// The pair noted at the last press, if there was a press.
    pub anchor: Option<PanAnchor>,
}

/// The pan after a frame on which the middle button is `down`, the pointer
/// is at `pointer` and the camera at `camera`.
pub open spec fn pan_after(pan: Pan, down: bool, pointer: Vec2, camera: Vec2) -> Pan {
    Pan {
        middle: Button { down },
        anchor: if down && !pan.middle.down {
            Some(PanAnchor { pointer, camera })
        } else {
            pan.anchor
        },
    }
}

/// The pair that the camera follows on that frame: the noted pair while the
/// button is down, nothing while it is up.
pub open spec fn pan_followed(pan: Pan, down: bool, pointer: Vec2, camera: Vec2) -> Option<
    PanAnchor,
> {
    if down {
        pan_after(pan, down, pointer, camera).anchor
    } else {
        None
    }
}

impl Pan {
    /// While the button is down, a pair is noted.
    pub open spec fn wf(&self) -> bool {
        self.middle.down ==> self.anchor is Some
    }

    /// The pan at the start: the button not seen down, no pair noted.
    pub fn new() -> (pan: Pan)
        ensures
            pan.wf(),
            !pan.middle.down,
            pan.anchor is None,
    {
        Pan { middle: Button::new(), anchor: None }
    }

    /// Takes one frame and tells which pair the camera follows on it.
    pub fn track(&mut self, down: bool, pointer: Vec2, camera: Vec2) -> (followed: Option<PanAnchor>)
        ensures
            *final(self) == pan_after(*old(self), down, pointer, camera),
            followed == pan_followed(*old(self), down, pointer, camera),
            old(self).wf() ==> final(self).wf() && (followed is Some <==> down),
    {
        let edge = self.middle.sample(down);
        if edge == crate::input::Edge::Pressed {
            self.anchor = Some(PanAnchor { pointer, camera });
        }
        if down {
            self.anchor
        } else {
            None
        }
    }
}

/// The pair is noted on the press and on no other frame: while the button
/// stays down the camera keeps following the pair of the press, wherever
/// the pointer and the camera are by then.
pub proof fn lemma_anchor_kept_while_held(
    pan: Pan,
    pointer: Vec2,
    camera: Vec2,
    later_pointer: Vec2,
    later_camera: Vec2,
)
    requires
        !pan.middle.down,
    ensures
        pan_followed(pan, true, pointer, camera) == Some(PanAnchor { pointer, camera }),
        pan_followed(pan_after(pan, true, pointer, camera), true, later_pointer, later_camera) == Some(
            PanAnchor { pointer, camera },
        ),
{
}

/// A release resets nothing, and the press after it notes a fresh pair.
pub proof fn lemma_next_press_notes_fresh_anchor(
    pan: Pan,
    pointer: Vec2,
    camera: Vec2,
    next_pointer: Vec2,
    next_camera: Vec2,
)
    ensures
        pan_after(pan, false, pointer, camera).anchor == pan.anchor,
        pan_followed(pan, false, pointer, camera) is None,
        pan_followed(pan_after(pan, false, pointer, camera), true, next_pointer, next_camera) == Some(
            PanAnchor { pointer: next_pointer, camera: next_camera },
        ),
{
}

} // verus!
