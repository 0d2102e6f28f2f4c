//! Button memory: turns a level that is sampled once per frame into edges.
//!
//! A pointer button is either down or up when a frame looks at it. Actions
//! that must happen once per press are tied to the frame on which the level
//! rises; how long the button is then held does not matter.
//!
//! The keyboard has two keys of its own meaning: one ends the game, one
//! changes between window and full screen.

use vstd::prelude::*;

verus! {

/// What a button did between the previous sample and this one.
#[derive(Clone, Copy, PartialEq, Eq, Structural, Debug)]
pub enum Edge {
    /// Up before, up now.
    Idle,
    /// Up before, down now: the press edge.
    Pressed,
    /// Down before, down now.
    Held,
    /// Down before, up now: the release edge.
    Released,
}

/// The edge between two consecutive levels.
pub open spec fn edge_between(before: bool, now: bool) -> Edge {
    if now {
        if before {
            Edge::Held
        } else {
            Edge::Pressed
        }
    } else {
        if before {
            Edge::Released
        } else {
            Edge::Idle
        }
    }
}

/// The level that precedes sample `i`: the remembered level for the first
/// sample, the sample before it for the others.
pub open spec fn level_before(before: bool, samples: Seq<bool>, i: int) -> bool {
    if i <= 0 {
        before
    } else {
        samples[i - 1]
    }
}

/// Whether sample `i` rises: it is down and the level before it is up.
pub open spec fn rises_at(before: bool, samples: Seq<bool>, i: int) -> bool {
    samples[i] && !level_before(before, samples, i)
}

/// How many of the samples rise, that is the number of transitions from up
/// to down in `before` followed by `samples`.
pub open spec fn rising_edges(before: bool, samples: Seq<bool>) -> nat
    decreases samples.len(),
{
    if samples.len() == 0 {
        0
    } else {
        let last = samples.len() - 1;
        rising_edges(before, samples.drop_last()) + if rises_at(before, samples, last) {
            1nat
        } else {
            0nat
        }
    }
}

/// The level after all samples were seen.
pub open spec fn level_after(before: bool, samples: Seq<bool>) -> bool {
    level_before(before, samples, samples.len() as int)
}

/// A key of the keyboard, as far as its meaning goes.
#[derive(Clone, Copy, PartialEq, Eq, Structural, Debug)]
pub enum Key {
    Escape,
    F11,
    /// Any other key.
    Other,
}

/// What a key asks for.
#[derive(Clone, Copy, PartialEq, Eq, Structural, Debug)]
pub enum KeyAction {
    Nothing,
    /// End the game.
    Exit,
    /// Change between window and full screen.
    ToggleFullscreen,
}

/// What a key asks for when it goes down or, with `released`, up: escape
/// ends the game either way, F11 changes the screen when it is released,
/// and no other key asks for anything.
pub open spec fn action_of(key: Key, released: bool) -> KeyAction {
    match key {
        Key::Escape => KeyAction::Exit,
        Key::F11 => if released {
            KeyAction::ToggleFullscreen
        } else {
            KeyAction::Nothing
        },
        Key::Other => KeyAction::Nothing,
    }
}

/// What a key asks for when it goes down or, with `released`, up.
pub fn key_action(key: Key, released: bool) -> (action: KeyAction)
    ensures
        action == action_of(key, released),
{
    match key {
        Key::Escape => KeyAction::Exit,
        Key::F11 => if released {
            KeyAction::ToggleFullscreen
        } else {
            KeyAction::Nothing
        },
        Key::Other => KeyAction::Nothing,
    }
}

/// The memory of one button: the level seen at the last sample.
#[derive(Clone, Copy, PartialEq, Eq, Structural, Debug)]
pub struct Button {
    pub down: bool,
}

impl Button {
    /// A button that has not been seen down yet.
    pub fn new() -> (button: Button)
        ensures
            !button.down,
    {
        Button { down: false }
    }

    /// The level seen at the last sample.
    pub fn is_down(&self) -> (down: bool)
        ensures
            down == self.down,
    {
        self.down
    }

    /// Records this frame's level and tells what the button did since the
    /// last frame.
    pub fn sample(&mut self, down: bool) -> (edge: Edge)
        ensures
            final(self).down == down,
            edge == edge_between(old(self).down, down),
    {
        let before = self.down;
        self.down = down;
        if down {
            if before {
                Edge::Held
            } else {
                Edge::Pressed
            }
        } else {
            if before {
                Edge::Released
            } else {
                Edge::Idle
            }
        }
    }

    /// Feeds the samples to the button, one per frame, and counts the frames
    /// on which a press fired.
    pub fn count_presses(&mut self, samples: &Vec<bool>) -> (fired: usize)
        ensures
            fired == rising_edges(old(self).down, samples@),
            final(self).down == level_after(old(self).down, samples@),
    {
        let ghost before = self.down;
        let mut fired: usize = 0;
        let mut i: usize = 0;
        while i < samples.len()
            invariant
                i <= samples.len(),
                fired <= i,
                fired == rising_edges(before, samples@.take(i as int)),
                self.down == level_before(before, samples@, i as int),
            decreases samples.len() - i,
        {
            let edge = self.sample(samples[i]);
            proof {
                let upto = samples@.take(i as int + 1);
                assert(upto.drop_last() == samples@.take(i as int));
            }
            if edge == Edge::Pressed {
                fired = fired + 1;
            }
            i = i + 1;
        }
        proof {
            assert(samples@.take(samples@.len() as int) == samples@);
        }
        fired
    }
}

/// The number of presses does not depend on how many frames a level lasts:
/// seeing sample `i` once more, on the frame after it, fires nothing new.
pub proof fn lemma_longer_hold_fires_no_more(before: bool, samples: Seq<bool>, i: int)
    requires
        0 <= i < samples.len(),
    ensures
        rising_edges(before, samples.insert(i + 1, samples[i])) == rising_edges(before, samples),
        level_after(before, samples.insert(i + 1, samples[i])) == level_after(before, samples),
    decreases samples.len(),
{
    let longer = samples.insert(i + 1, samples[i]);
    let last = samples.len() - 1;
    if i == last {
        assert(longer.drop_last() == samples);
    } else {
        lemma_longer_hold_fires_no_more(before, samples.drop_last(), i);
        assert(longer.drop_last() == samples.drop_last().insert(i + 1, samples[i]));
    }
}

/// A level that never changes fires at most one press: none when the button
/// was already down or stays up, one when it goes down on the first frame.
pub proof fn lemma_constant_level_fires_at_most_once(before: bool, level: bool, frames: nat)
    ensures
        rising_edges(before, Seq::new(frames, |i: int| level)) == if frames > 0 && level && !before {
            1nat
        } else {
            0nat
        },
    decreases frames,
{
    let samples = Seq::new(frames, |i: int| level);
    if frames > 0 {
        lemma_constant_level_fires_at_most_once(before, level, (frames - 1) as nat);
        assert(samples.drop_last() == Seq::new((frames - 1) as nat, |i: int| level));
    }
}

} // verus!
